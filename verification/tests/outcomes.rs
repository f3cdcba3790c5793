use git_command::outcome::{
    interpret_count, interpret_exit_status, interpret_presence, interpret_text,
    interpret_trimmed_text, interpret_unit,
};
use git_command::{CommandOutput, GitCommand, GitError, Operation, SpawnError};

fn ended(success: bool, stdout: &[u8], stderr: &[u8]) -> Result<CommandOutput, SpawnError> {
    Ok(CommandOutput { success, stdout: stdout.to_vec(), stderr: stderr.to_vec() })
}

fn not_started(reason: &str) -> Result<CommandOutput, SpawnError> {
    Err(SpawnError { reason: reason.to_string() })
}

#[test]
fn rev_list_count_parses_the_number() {
    let git = GitCommand::new(false);
    assert_eq!(git.rev_list_count("main..topic", |_| ended(true, b"42\n", b"")), Ok(42));
}

#[test]
fn rev_list_count_rejects_text_that_is_no_number() {
    let git = GitCommand::new(false);
    assert_eq!(
        git.rev_list_count("main..topic", |_| ended(true, b"abc\n", b"")),
        Err(GitError::OutputParseFailed {
            operation: Operation::RevListCount,
            raw: "abc\n".to_string(),
        })
    );
    assert_eq!(
        git.rev_list_count("main..topic", |_| ended(true, b"", b"")),
        Err(GitError::OutputParseFailed {
            operation: Operation::RevListCount,
            raw: String::new(),
        })
    );
}

#[test]
fn rev_list_count_at_the_limits() {
    assert_eq!(interpret_count(Operation::RevListCount, ended(true, b"0\n", b"")), Ok(0));
    assert_eq!(
        interpret_count(Operation::RevListCount, ended(true, b" 4294967295 \n", b"")),
        Ok(4294967295)
    );
    assert_eq!(
        interpret_count(Operation::RevListCount, ended(true, b"4294967296\n", b"")),
        Err(GitError::OutputParseFailed {
            operation: Operation::RevListCount,
            raw: "4294967296\n".to_string(),
        })
    );
    assert_eq!(
        interpret_count(Operation::RevListCount, ended(true, b"4 2\n", b"")),
        Err(GitError::OutputParseFailed {
            operation: Operation::RevListCount,
            raw: "4 2\n".to_string(),
        })
    );
}

#[test]
fn rev_list_count_reports_a_failed_command_before_it_parses() {
    assert_eq!(
        interpret_count(Operation::RevListCount, ended(false, b"42\n", b"fatal: bad revision\n")),
        Err(GitError::CommandFailed {
            operation: Operation::RevListCount,
            stderr: "fatal: bad revision\n".to_string(),
        })
    );
}

#[test]
fn ls_remote_branch_exists_iff_something_is_listed() {
    let git = GitCommand::new(false);
    assert_eq!(git.ls_remote_branch_exists("origin", "main", |_| ended(true, b"", b"")), Ok(false));
    assert_eq!(
        git.ls_remote_branch_exists("origin", "main", |_| ended(
            true,
            b"8f3a1c0d9e7b6a5f4e3d2c1b0a9f8e7d6c5b4a39\trefs/heads/main\n",
            b""
        )),
        Ok(true)
    );
    assert_eq!(
        git.ls_remote_branch_exists("origin", "main", |_| ended(true, b" \n\t\r\n", b"")),
        Ok(false)
    );
}

#[test]
fn ls_remote_branch_exists_fails_when_the_command_fails() {
    let git = GitCommand::new(false);
    assert_eq!(
        git.ls_remote_branch_exists("origin", "main", |_| ended(false, b"x", b"no remote")),
        Err(GitError::CommandFailed {
            operation: Operation::LsRemoteBranchExists,
            stderr: "no remote".to_string(),
        })
    );
}

#[test]
fn show_ref_exists_is_the_exit_status_whatever_was_written() {
    let git = GitCommand::new(false);
    assert_eq!(git.show_ref_exists("refs/heads/main", |_| ended(true, b"", b"")), Ok(true));
    assert_eq!(
        git.show_ref_exists("refs/heads/main", |_| ended(true, b"noise", b"fatal: noise")),
        Ok(true)
    );
    assert_eq!(git.show_ref_exists("refs/heads/none", |_| ended(false, b"", b"")), Ok(false));
    assert_eq!(
        git.show_ref_exists("refs/heads/none", |_| ended(false, b"\xff\xfe", b"fatal: not a ref")),
        Ok(false)
    );
}

#[test]
fn show_ref_exists_fails_only_when_nothing_ran() {
    let git = GitCommand::new(false);
    assert_eq!(
        git.show_ref_exists("refs/heads/main", |_| not_started("No such file or directory")),
        Err(GitError::SpawnFailed {
            operation: Operation::ShowRefExists,
            reason: "No such file or directory".to_string(),
        })
    );
}

#[test]
fn rev_parse_is_inside_work_tree_is_the_exit_status() {
    let git = GitCommand::new(true);
    assert_eq!(git.rev_parse_is_inside_work_tree(|_| ended(true, b"true\n", b"")), Ok(true));
    assert_eq!(
        git.rev_parse_is_inside_work_tree(|_| ended(false, b"", b"fatal: not a git repository")),
        Ok(false)
    );
    assert_eq!(
        interpret_exit_status(Operation::RevParseIsInsideWorkTree, not_started("denied")),
        Err(GitError::SpawnFailed {
            operation: Operation::RevParseIsInsideWorkTree,
            reason: "denied".to_string(),
        })
    );
}

#[test]
fn unit_operations_succeed_on_a_success_status() {
    let git = GitCommand::new(true);
    assert_eq!(git.init_bare("repo.git", "main", |_| ended(true, b"ignored", b"warning")), Ok(()));
    assert_eq!(git.worktree_add("../main", "main", |_| ended(true, b"", b"")), Ok(()));
    assert_eq!(git.worktree_add_orphan("../x", "x", |_| ended(true, b"", b"")), Ok(()));
    assert_eq!(git.worktree_remove("../x", true, |_| ended(true, b"", b"")), Ok(()));
    assert_eq!(git.fetch("origin", true, |_| ended(true, b"", b"")), Ok(()));
    assert_eq!(git.fetch_refspec("origin", "main:main", |_| ended(true, b"", b"")), Ok(()));
    assert_eq!(git.push_set_upstream("origin", "x", |_| ended(true, b"", b"")), Ok(()));
    assert_eq!(git.set_upstream("origin", "x", |_| ended(true, b"", b"")), Ok(()));
    assert_eq!(git.branch_delete("x", false, |_| ended(true, b"", b"")), Ok(()));
    assert_eq!(git.remote_set_head_auto("origin", |_| ended(true, b"", b"")), Ok(()));
}

#[test]
fn unit_operations_carry_the_standard_error_of_a_failed_command() {
    let git = GitCommand::new(true);
    assert_eq!(
        git.clone_bare("https://example/repo.git", "repo.git", |_| ended(
            false,
            b"",
            b"fatal: repository not found\n"
        )),
        Err(GitError::CommandFailed {
            operation: Operation::CloneBare,
            stderr: "fatal: repository not found\n".to_string(),
        })
    );
    assert_eq!(
        git.branch_delete("topic", false, |_| ended(false, b"", b"error: not fully merged")),
        Err(GitError::CommandFailed {
            operation: Operation::BranchDelete,
            stderr: "error: not fully merged".to_string(),
        })
    );
}

#[test]
fn standard_error_is_decoded_with_replacement_characters() {
    assert_eq!(
        interpret_unit(Operation::Fetch, ended(false, b"", b"bad \xff byte")),
        Err(GitError::CommandFailed {
            operation: Operation::Fetch,
            stderr: "bad \u{fffd} byte".to_string(),
        })
    );
    assert_eq!(
        interpret_unit(Operation::Fetch, ended(false, b"", "d\u{e9}j\u{e0} vu".as_bytes())),
        Err(GitError::CommandFailed {
            operation: Operation::Fetch,
            stderr: "d\u{e9}j\u{e0} vu".to_string(),
        })
    );
}

#[test]
fn a_spawn_failure_is_not_a_command_failure() {
    let git = GitCommand::new(false);
    assert_eq!(
        git.fetch("origin", false, |_| not_started("program not found")),
        Err(GitError::SpawnFailed {
            operation: Operation::Fetch,
            reason: "program not found".to_string(),
        })
    );
    assert_eq!(
        git.worktree_list_porcelain(|_| not_started("program not found")),
        Err(GitError::SpawnFailed {
            operation: Operation::WorktreeListPorcelain,
            reason: "program not found".to_string(),
        })
    );
}

#[test]
fn listings_are_returned_as_they_came() {
    let git = GitCommand::new(false);
    let porcelain =
        "worktree /srv/repo.git\nbare\n\nworktree /srv/main\nHEAD 8f3a\nbranch refs/heads/main\n\n";
    assert_eq!(
        git.worktree_list_porcelain(|_| ended(true, porcelain.as_bytes(), b"")),
        Ok(porcelain.to_string())
    );
    assert_eq!(
        git.branch_list_verbose(|_| ended(true, b"* main 8f3a [origin/main] msg\n", b"")),
        Ok("* main 8f3a [origin/main] msg\n".to_string())
    );
    assert_eq!(
        git.for_each_ref("%(refname)", "refs/heads", |_| ended(true, b"  refs/heads/main \n", b"")),
        Ok("  refs/heads/main \n".to_string())
    );
    assert_eq!(
        git.ls_remote_heads("origin", None, |_| ended(true, b"8f3a\trefs/heads/main\n", b"")),
        Ok("8f3a\trefs/heads/main\n".to_string())
    );
    assert_eq!(
        git.ls_remote_symref("https://example/repo.git", |_| ended(
            true,
            b"ref: refs/heads/main\tHEAD\n8f3a\tHEAD\n",
            b""
        )),
        Ok("ref: refs/heads/main\tHEAD\n8f3a\tHEAD\n".to_string())
    );
}

#[test]
fn single_lines_are_trimmed() {
    let git = GitCommand::new(false);
    assert_eq!(git.get_git_dir(|_| ended(true, b".git\n", b"")), Ok(".git".to_string()));
    assert_eq!(
        git.rev_parse_git_common_dir(|_| ended(true, b"  /srv/repo.git\r\n", b"")),
        Ok("/srv/repo.git".to_string())
    );
    assert_eq!(
        git.symbolic_ref_short_head(|_| ended(true, b"feature/x y\n", b"")),
        Ok("feature/x y".to_string())
    );
    assert_eq!(
        interpret_trimmed_text(Operation::GetGitDir, ended(true, b"\n \n", b"")),
        Ok(String::new())
    );
}

#[test]
fn text_that_is_not_utf8_is_a_decode_failure() {
    assert_eq!(
        interpret_text(Operation::BranchListVerbose, ended(true, b"main \xc3\x28\n", b"")),
        Err(GitError::OutputDecodeFailed { operation: Operation::BranchListVerbose })
    );
    assert_eq!(
        interpret_trimmed_text(Operation::GetGitDir, ended(true, b"\xed\xa0\x80", b"")),
        Err(GitError::OutputDecodeFailed { operation: Operation::GetGitDir })
    );
    assert_eq!(
        interpret_presence(Operation::LsRemoteBranchExists, ended(true, b"\xf8", b"")),
        Err(GitError::OutputDecodeFailed { operation: Operation::LsRemoteBranchExists })
    );
    assert_eq!(
        interpret_count(Operation::RevListCount, ended(true, b"4\x80", b"")),
        Err(GitError::OutputDecodeFailed { operation: Operation::RevListCount })
    );
}

#[test]
fn text_in_utf8_is_decoded_character_for_character() {
    assert_eq!(
        interpret_text(
            Operation::BranchListVerbose,
            ended(true, "* h\u{e9}llo \u{1f980}\n".as_bytes(), b"")
        ),
        Ok("* h\u{e9}llo \u{1f980}\n".to_string())
    );
}

#[test]
fn messages_name_the_operation() {
    let spawn = GitError::SpawnFailed {
        operation: Operation::WorktreeAddOrphan,
        reason: "not found".to_string(),
    };
    assert_eq!(spawn.message(), "Failed to execute git worktree add command");
    assert_eq!(spawn.operation(), Operation::WorktreeAddOrphan);

    let failed = GitError::CommandFailed {
        operation: Operation::FetchRefspec,
        stderr: "fatal: bad refspec".to_string(),
    };
    assert_eq!(failed.message(), "Git fetch with refspec failed: fatal: bad refspec");
    assert_eq!(failed.operation(), Operation::FetchRefspec);

    let upstream = GitError::CommandFailed {
        operation: Operation::SetUpstream,
        stderr: String::new(),
    };
    assert_eq!(upstream.message(), "Git set upstream failed: ");

    let decode = GitError::OutputDecodeFailed { operation: Operation::BranchListVerbose };
    assert_eq!(decode.message(), "Failed to parse git branch output");
    assert_eq!(decode.operation(), Operation::BranchListVerbose);

    let parse = GitError::OutputParseFailed {
        operation: Operation::RevListCount,
        raw: "abc\n".to_string(),
    };
    assert_eq!(parse.message(), "Failed to parse commit count as number");
    assert_eq!(parse.operation(), Operation::RevListCount);
}

#[test]
fn subcommands_and_labels() {
    assert_eq!(Operation::CloneBare.subcommand(), "clone");
    assert_eq!(Operation::CloneBare.label(), "clone");
    assert_eq!(Operation::BranchDelete.subcommand(), "branch");
    assert_eq!(Operation::BranchDelete.label(), "branch delete");
    assert_eq!(Operation::BranchListVerbose.label(), "branch list");
    assert_eq!(Operation::RemoteSetHeadAuto.subcommand(), "remote set-head");
    assert_eq!(Operation::RemoteSetHeadAuto.label(), "remote set-head");
    assert_eq!(Operation::LsRemoteSymref.label(), "ls-remote");
    assert_eq!(Operation::SymbolicRefShortHead.subcommand(), "symbolic-ref");
}
