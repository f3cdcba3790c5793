//! What holds of the argument grammars and of the outcomes, for all inputs.

use crate::argv::{
    branch_delete_argv, clone_bare_argv, fetch_refspec_argv, init_bare_argv,
    worktree_add_argv, worktree_add_new_branch_argv, worktree_add_orphan_argv,
};
use crate::error::{GitErrorView, Operation};
use crate::outcome::{exit_status_outcome, Observed};
use vstd::prelude::*;

verus! {

/// A quiet clone passes `--quiet` right after `clone --bare`; a clone that
/// is not quiet passes the two words, the URL and the directory, and no more.
pub proof fn law_clone_bare_quiet(repo_url: Seq<char>, target_dir: Seq<char>)
    ensures
        clone_bare_argv(true, repo_url, target_dir) == seq![
            "clone"@,
            "--bare"@,
            "--quiet"@,
            repo_url,
            target_dir,
        ],
        clone_bare_argv(false, repo_url, target_dir) == seq![
            "clone"@,
            "--bare"@,
            repo_url,
            target_dir,
        ],
{
    assert(clone_bare_argv(true, repo_url, target_dir) =~= seq![
        "clone"@,
        "--bare"@,
        "--quiet"@,
        repo_url,
        target_dir,
    ]);
    assert(clone_bare_argv(false, repo_url, target_dir) =~= seq![
        "clone"@,
        "--bare"@,
        repo_url,
        target_dir,
    ]);
}

/// A quiet init passes `--quiet` right after `init --bare`, before the
/// initial branch; an init that is not quiet passes no `--quiet` of its own.
pub proof fn law_init_bare_quiet(target_dir: Seq<char>, initial_branch: Seq<char>)
    ensures
        init_bare_argv(true, target_dir, initial_branch) == seq![
            "init"@,
            "--bare"@,
            "--quiet"@,
            "--initial-branch="@ + initial_branch,
            target_dir,
        ],
        init_bare_argv(false, target_dir, initial_branch) == seq![
            "init"@,
            "--bare"@,
            "--initial-branch="@ + initial_branch,
            target_dir,
        ],
{
    assert(init_bare_argv(true, target_dir, initial_branch) =~= seq![
        "init"@,
        "--bare"@,
        "--quiet"@,
        "--initial-branch="@ + initial_branch,
        target_dir,
    ]);
    assert(init_bare_argv(false, target_dir, initial_branch) =~= seq![
        "init"@,
        "--bare"@,
        "--initial-branch="@ + initial_branch,
        target_dir,
    ]);
}

/// In each of the three ways to add a worktree, quiet passes `--quiet` right
/// after `worktree add`, before the path; without quiet the words that the
/// operation itself contributes are `worktree`, `add` and, for a new branch,
/// `-b`.
pub proof fn law_worktree_add_quiet(
    path: Seq<char>,
    branch: Seq<char>,
    base_branch: Seq<char>,
)
    ensures
        worktree_add_argv(true, path, branch) == seq![
            "worktree"@,
            "add"@,
            "--quiet"@,
            path,
            branch,
        ],
        worktree_add_argv(false, path, branch) == seq!["worktree"@, "add"@, path, branch],
        worktree_add_orphan_argv(true, path, branch) == seq![
            "worktree"@,
            "add"@,
            "--quiet"@,
            path,
            "-b"@,
            branch,
        ],
        worktree_add_orphan_argv(false, path, branch) == seq![
            "worktree"@,
            "add"@,
            path,
            "-b"@,
            branch,
        ],
        worktree_add_new_branch_argv(true, path, branch, base_branch) == seq![
            "worktree"@,
            "add"@,
            "--quiet"@,
            path,
            "-b"@,
            branch,
            base_branch,
        ],
        worktree_add_new_branch_argv(false, path, branch, base_branch) == seq![
            "worktree"@,
            "add"@,
            path,
            "-b"@,
            branch,
            base_branch,
        ],
{
    assert(worktree_add_argv(true, path, branch) =~= seq![
        "worktree"@,
        "add"@,
        "--quiet"@,
        path,
        branch,
    ]);
    assert(worktree_add_argv(false, path, branch) =~= seq!["worktree"@, "add"@, path, branch]);
    assert(worktree_add_orphan_argv(true, path, branch) =~= seq![
        "worktree"@,
        "add"@,
        "--quiet"@,
        path,
        "-b"@,
        branch,
    ]);
    assert(worktree_add_orphan_argv(false, path, branch) =~= seq![
        "worktree"@,
        "add"@,
        path,
        "-b"@,
        branch,
    ]);
    assert(worktree_add_new_branch_argv(true, path, branch, base_branch) =~= seq![
        "worktree"@,
        "add"@,
        "--quiet"@,
        path,
        "-b"@,
        branch,
        base_branch,
    ]);
    assert(worktree_add_new_branch_argv(false, path, branch, base_branch) =~= seq![
        "worktree"@,
        "add"@,
        path,
        "-b"@,
        branch,
        base_branch,
    ]);
}

/// A quiet fetch of a refspec passes `--quiet` after the refspec, as the
/// last word; one that is not quiet ends with the refspec.
pub proof fn law_fetch_refspec_quiet(remote: Seq<char>, refspec: Seq<char>)
    ensures
        fetch_refspec_argv(true, remote, refspec) == seq!["fetch"@, remote, refspec, "--quiet"@],
        fetch_refspec_argv(false, remote, refspec) == seq!["fetch"@, remote, refspec],
{
    assert(fetch_refspec_argv(true, remote, refspec) =~= seq![
        "fetch"@,
        remote,
        refspec,
        "--quiet"@,
    ]);
    assert(fetch_refspec_argv(false, remote, refspec) =~= seq!["fetch"@, remote, refspec]);
}

/// A worktree for a new branch always names the branch: whatever the path and
/// the quiet setting, the invocation ends with `-b` and the branch's name.
pub proof fn law_orphan_names_its_branch(quiet: bool, path: Seq<char>, branch_name: Seq<char>)
    ensures
        ({
            let argv = worktree_add_orphan_argv(quiet, path, branch_name);
            &&& argv.len() >= 3
            &&& argv[argv.len() - 3] == path
            &&& argv[argv.len() - 2] == "-b"@
            &&& argv[argv.len() - 1] == branch_name
        }),
{
}

/// Deleting a branch passes `-D` when forced and `-d` when not, and the two
/// flags differ.
pub proof fn law_branch_delete_flag(branch: Seq<char>)
    ensures
        branch_delete_argv(branch, true) == seq!["branch"@, "-D"@, branch],
        branch_delete_argv(branch, false) == seq!["branch"@, "-d"@, branch],
        "-D"@ != "-d"@,
{
    reveal_strlit("-D");
    reveal_strlit("-d");
    assert("-D"@[1] == 'D');
    assert("-d"@[1] == 'd');
}

/// A check that the exit status answers is `true` iff the process reported
/// success, whatever it wrote; it fails only where no process was started,
/// never because of the exit status.
pub proof fn law_exit_status_is_the_answer(operation: Operation, ran: Observed)
    ensures
        ran matches Ok(output) ==> exit_status_outcome(operation, ran) == Ok::<
            bool,
            GitErrorView,
        >(output.success),
        ran matches Err(reason) ==> exit_status_outcome(operation, ran) == Err::<
            bool,
            GitErrorView,
        >(GitErrorView::SpawnFailed { operation, reason }),
        !(exit_status_outcome(operation, ran) matches Err(GitErrorView::CommandFailed { .. })),
{
}

} // verus!
