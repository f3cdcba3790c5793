//! The argument vector of each operation, as a sequence of texts.
//!
//! Each function below is the grammar of one invocation: the words are given
//! in the order in which `git` receives them, after the program's name.

use vstd::prelude::*;

verus! {

/// The one word `flag` where `wanted`, nothing otherwise.
pub open spec fn optional_flag(wanted: bool, flag: Seq<char>) -> Seq<Seq<char>> {
    if wanted {
        seq![flag]
    } else {
        Seq::empty()
    }
}

/// `--quiet` where it was asked for, nothing where it was not.
pub open spec fn quiet_flag(quiet: bool) -> Seq<Seq<char>> {
    optional_flag(quiet, "--quiet"@)
}

/// The ref under which a remote holds `branch`: `refs/heads/<branch>`.
pub open spec fn branch_ref(branch: Seq<char>) -> Seq<char> {
    "refs/heads/"@ + branch
}

/// The ref of the one branch asked for, nothing where none was named.
pub open spec fn optional_ref(branch: Option<Seq<char>>) -> Seq<Seq<char>> {
    match branch {
        Some(name) => seq![branch_ref(name)],
        None => Seq::empty(),
    }
}

/// The remote-tracking name of `branch` on `remote`: `<remote>/<branch>`.
pub open spec fn upstream_ref(remote: Seq<char>, branch: Seq<char>) -> Seq<char> {
    remote + "/"@ + branch
}

/// `clone --bare [--quiet] <url> <dir>`
pub open spec fn clone_bare_argv(
    quiet: bool,
    repo_url: Seq<char>,
    target_dir: Seq<char>,
) -> Seq<Seq<char>> {
    seq!["clone"@, "--bare"@] + quiet_flag(quiet) + seq![repo_url, target_dir]
}

/// `init --bare [--quiet] --initial-branch=<name> <dir>`
pub open spec fn init_bare_argv(
    quiet: bool,
    target_dir: Seq<char>,
    initial_branch: Seq<char>,
) -> Seq<Seq<char>> {
    seq!["init"@, "--bare"@] + quiet_flag(quiet) + seq![
        "--initial-branch="@ + initial_branch,
        target_dir,
    ]
}

/// `worktree add [--quiet] <path> <branch>`
pub open spec fn worktree_add_argv(
    quiet: bool,
    path: Seq<char>,
    branch: Seq<char>,
) -> Seq<Seq<char>> {
    seq!["worktree"@, "add"@] + quiet_flag(quiet) + seq![path, branch]
}

/// `worktree add [--quiet] <path> -b <branch>`
pub open spec fn worktree_add_orphan_argv(
    quiet: bool,
    path: Seq<char>,
    branch_name: Seq<char>,
) -> Seq<Seq<char>> {
    seq!["worktree"@, "add"@] + quiet_flag(quiet) + seq![path, "-b"@, branch_name]
}

/// `worktree add [--quiet] <path> -b <new> <base>`
pub open spec fn worktree_add_new_branch_argv(
    quiet: bool,
    path: Seq<char>,
    new_branch: Seq<char>,
    base_branch: Seq<char>,
) -> Seq<Seq<char>> {
    seq!["worktree"@, "add"@] + quiet_flag(quiet) + seq![path, "-b"@, new_branch, base_branch]
}

/// `worktree remove [--force] <path>`
pub open spec fn worktree_remove_argv(path: Seq<char>, force: bool) -> Seq<Seq<char>> {
    seq!["worktree"@, "remove"@] + optional_flag(force, "--force"@) + seq![path]
}

/// `worktree list --porcelain`
pub open spec fn worktree_list_porcelain_argv() -> Seq<Seq<char>> {
    seq!["worktree"@, "list"@, "--porcelain"@]
}

/// `fetch <remote> [--prune]`
pub open spec fn fetch_argv(remote: Seq<char>, prune: bool) -> Seq<Seq<char>> {
    seq!["fetch"@, remote] + optional_flag(prune, "--prune"@)
}

/// `push --set-upstream <remote> <branch>`
pub open spec fn push_set_upstream_argv(remote: Seq<char>, branch: Seq<char>) -> Seq<Seq<char>> {
    seq!["push"@, "--set-upstream"@, remote, branch]
}

/// `branch --set-upstream-to=<remote>/<branch>`
pub open spec fn set_upstream_argv(remote: Seq<char>, branch: Seq<char>) -> Seq<Seq<char>> {
    seq!["branch"@, "--set-upstream-to="@ + upstream_ref(remote, branch)]
}

/// `branch -d|-D <branch>`
pub open spec fn branch_delete_argv(branch: Seq<char>, force: bool) -> Seq<Seq<char>> {
    seq!["branch"@, if force { "-D"@ } else { "-d"@ }, branch]
}

/// `branch -vv`
pub open spec fn branch_list_verbose_argv() -> Seq<Seq<char>> {
    seq!["branch"@, "-vv"@]
}

/// `for-each-ref --format=<fmt> <pattern>`
pub open spec fn for_each_ref_argv(format: Seq<char>, refs: Seq<char>) -> Seq<Seq<char>> {
    seq!["for-each-ref"@, "--format="@ + format, refs]
}

/// `show-ref --verify --quiet <ref>`
pub open spec fn show_ref_exists_argv(ref_name: Seq<char>) -> Seq<Seq<char>> {
    seq!["show-ref"@, "--verify"@, "--quiet"@, ref_name]
}

/// `ls-remote --heads <remote> [refs/heads/<branch>]`
pub open spec fn ls_remote_heads_argv(
    remote: Seq<char>,
    branch: Option<Seq<char>>,
) -> Seq<Seq<char>> {
    seq!["ls-remote"@, "--heads"@, remote] + optional_ref(branch)
}

/// `rev-parse --git-dir`
pub open spec fn get_git_dir_argv() -> Seq<Seq<char>> {
    seq!["rev-parse"@, "--git-dir"@]
}

/// `remote set-head <remote> --auto`
pub open spec fn remote_set_head_auto_argv(remote: Seq<char>) -> Seq<Seq<char>> {
    seq!["remote"@, "set-head"@, remote, "--auto"@]
}

/// `fetch <remote> <refspec> [--quiet]`
pub open spec fn fetch_refspec_argv(
    quiet: bool,
    remote: Seq<char>,
    refspec: Seq<char>,
) -> Seq<Seq<char>> {
    seq!["fetch"@, remote, refspec] + quiet_flag(quiet)
}

/// `rev-list --count <range>`
pub open spec fn rev_list_count_argv(range: Seq<char>) -> Seq<Seq<char>> {
    seq!["rev-list"@, "--count"@, range]
}

/// `rev-parse --is-inside-work-tree`
pub open spec fn rev_parse_is_inside_work_tree_argv() -> Seq<Seq<char>> {
    seq!["rev-parse"@, "--is-inside-work-tree"@]
}

/// `rev-parse --git-common-dir`
pub open spec fn rev_parse_git_common_dir_argv() -> Seq<Seq<char>> {
    seq!["rev-parse"@, "--git-common-dir"@]
}

/// `symbolic-ref --short HEAD`
pub open spec fn symbolic_ref_short_head_argv() -> Seq<Seq<char>> {
    seq!["symbolic-ref"@, "--short"@, "HEAD"@]
}

/// `ls-remote --symref <url> HEAD`
pub open spec fn ls_remote_symref_argv(remote_url: Seq<char>) -> Seq<Seq<char>> {
    seq!["ls-remote"@, "--symref"@, remote_url, "HEAD"@]
}

/// `ls-remote --heads <remote> refs/heads/<branch>`
pub open spec fn ls_remote_branch_exists_argv(
    remote_name: Seq<char>,
    branch: Seq<char>,
) -> Seq<Seq<char>> {
    seq!["ls-remote"@, "--heads"@, remote_name, branch_ref(branch)]
}

} // verus!
