use git_command::text::{char_is_whitespace, parse_u32, trim};

#[test]
fn whitespace_is_what_std_calls_whitespace() {
    let mut code: u32 = 0;
    while code <= 0x10ffff {
        if let Some(c) = char::from_u32(code) {
            assert_eq!(char_is_whitespace(c), c.is_whitespace(), "U+{:04X}", code);
        }
        code += 1;
    }
}

#[test]
fn trim_removes_whitespace_at_both_ends_only() {
    assert_eq!(trim("42\n"), "42");
    assert_eq!(trim("  a b  "), "a b");
    assert_eq!(trim("\t\r\n x\u{a0}\u{2003}"), "x");
    assert_eq!(trim("\u{3000}\u{1680}y z\u{2028}\u{2029}\u{85}"), "y z");
    assert_eq!(trim("no-space"), "no-space");
    assert_eq!(trim(""), "");
    assert_eq!(trim(" \n\t "), "");
    assert_eq!(trim("\u{200b}x\u{200b}"), "\u{200b}x\u{200b}");
    assert_eq!(trim(" \u{1f980} h\u{e9} "), "\u{1f980} h\u{e9}");
}

#[test]
fn trim_agrees_with_std() {
    let samples = [
        "",
        " ",
        "a",
        " a",
        "a ",
        " a b c ",
        "\n\n.git\n",
        "\u{feff}x ",
        "x\u{180e}",
        "\u{2000}\u{200a}mid dle\u{202f}\u{205f}",
        "\u{b}\u{c}v\u{b}\u{c}",
        "\u{1c}x\u{1f}",
    ];
    for s in samples {
        assert_eq!(trim(s), s.trim(), "{:?}", s);
    }
}

#[test]
fn parse_u32_reads_base_ten() {
    assert_eq!(parse_u32("42"), Some(42));
    assert_eq!(parse_u32("0"), Some(0));
    assert_eq!(parse_u32("007"), Some(7));
    assert_eq!(parse_u32("+5"), Some(5));
    assert_eq!(parse_u32("4294967295"), Some(4294967295));
    assert_eq!(parse_u32("0000000004294967295"), Some(4294967295));
}

#[test]
fn parse_u32_rejects_everything_else() {
    assert_eq!(parse_u32(""), None);
    assert_eq!(parse_u32("+"), None);
    assert_eq!(parse_u32("++5"), None);
    assert_eq!(parse_u32("5+"), None);
    assert_eq!(parse_u32("-5"), None);
    assert_eq!(parse_u32("-0"), None);
    assert_eq!(parse_u32("abc"), None);
    assert_eq!(parse_u32("12a"), None);
    assert_eq!(parse_u32(" 12"), None);
    assert_eq!(parse_u32("12\n"), None);
    assert_eq!(parse_u32("1_000"), None);
    assert_eq!(parse_u32("0x10"), None);
    assert_eq!(parse_u32("4294967296"), None);
    assert_eq!(parse_u32("4294967300"), None);
    assert_eq!(parse_u32("99999999999999999999"), None);
    assert_eq!(parse_u32("\u{661}\u{662}"), None);
    assert_eq!(parse_u32("\u{ff11}"), None);
}

#[test]
fn parse_u32_agrees_with_std() {
    let samples = [
        "", "+", "-", "0", "+0", "-0", "1", "10", "4294967294", "4294967295", "4294967296",
        "42949672950", "429496729a", "a429496729", "+4294967295", "+4294967296", "٣", "1.0",
        "1e3", " 1", "1 ", "+-1", "00", "+00012",
    ];
    for s in samples {
        assert_eq!(parse_u32(s), s.parse::<u32>().ok(), "{:?}", s);
    }
}
