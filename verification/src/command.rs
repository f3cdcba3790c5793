//! The executor: for each operation one method that builds its argument
//! vector, and one that carries the operation out through a runner that the
//! caller supplies and turns what came back into the operation's value.
//!
//! An operation calls its runner once, with exactly the argument vector of
//! its grammar, and what it returns is decided by what that call gave and by
//! nothing else. All that is asked of the runner is that it can be called
//! with that vector; a closure without a precondition always can.

use crate::argv::{
    branch_delete_argv, branch_list_verbose_argv, clone_bare_argv, fetch_argv, fetch_refspec_argv,
    for_each_ref_argv, get_git_dir_argv, init_bare_argv, ls_remote_branch_exists_argv,
    ls_remote_heads_argv, ls_remote_symref_argv, push_set_upstream_argv, remote_set_head_auto_argv,
    rev_list_count_argv, rev_parse_git_common_dir_argv, rev_parse_is_inside_work_tree_argv,
    set_upstream_argv, show_ref_exists_argv, symbolic_ref_short_head_argv, worktree_add_argv,
    worktree_add_new_branch_argv, worktree_add_orphan_argv, worktree_list_porcelain_argv,
    worktree_remove_argv,
};
use crate::error::{GitError, Operation};
use crate::outcome::{
    count_outcome, exit_status_outcome, interpret_count, interpret_exit_status,
    interpret_presence, interpret_text, interpret_trimmed_text, interpret_unit, observed,
    presence_outcome, text_is, text_outcome, trimmed_text_outcome, unit_outcome, value_is,
    Execution,
};
use crate::runner::{accepts, invoke, returned};
use vstd::prelude::*;

verus! {

/// The name of the binary that every operation runs.
pub const PROGRAM: &'static str = "git";

/// Appends `arg` to `args`.
fn push_arg(args: &mut Vec<String>, arg: &str)
    ensures
        final(args).deep_view() == old(args).deep_view().push(arg@),
{
    args.push(arg.to_owned());
    assert(args.deep_view() =~= old(args).deep_view().push(arg@));
}

/// Appends `name` and `value`, joined into one argument, to `args`.
fn push_joined(args: &mut Vec<String>, name: &str, value: &str)
    ensures
        final(args).deep_view() == old(args).deep_view().push(name@ + value@),
{
    args.push(String::from_str(name).concat(value));
    assert(args.deep_view() =~= old(args).deep_view().push(name@ + value@));
}

/// Plans and carries out `git` invocations; holds the one setting they share.
pub struct GitCommand {
    quiet: bool,
}

impl GitCommand {
    /// Whether operations that support it pass `--quiet` to `git`.
    pub closed spec fn spec_quiet(&self) -> bool {
        self.quiet
    }

    /// An executor that passes `--quiet` iff `quiet`.
    pub fn new(quiet: bool) -> (git: Self)
        ensures
            git.quiet() == quiet,
    {
        GitCommand { quiet }
    }

    /// Whether operations that support it pass `--quiet` to `git`.
    #[verifier::when_used_as_spec(spec_quiet)]
    pub fn quiet(&self) -> (quiet: bool)
        ensures
            quiet == self.spec_quiet(),
    {
        self.quiet
    }

    /// The arguments that clone `repo_url` into a bare repository at `target_dir`.
    pub fn clone_bare_args(&self, repo_url: &str, target_dir: &str) -> (args: Vec<String>)
        ensures
            args.deep_view() == clone_bare_argv(self.quiet(), repo_url@, target_dir@),
    {
        let mut args: Vec<String> = Vec::new();
        push_arg(&mut args, "clone");
        push_arg(&mut args, "--bare");
        if self.quiet {
            push_arg(&mut args, "--quiet");
        }
        push_arg(&mut args, repo_url);
        push_arg(&mut args, target_dir);
        assert(args.deep_view() =~= clone_bare_argv(self.quiet(), repo_url@, target_dir@));
        args
    }

    /// Clones `repo_url` into a bare repository at `target_dir`.
    pub fn clone_bare<R: FnOnce(Vec<String>) -> Execution>(
        &self,
        repo_url: &str,
        target_dir: &str,
        run: R,
    ) -> (r: Result<(), GitError>)
        requires
            accepts(run, clone_bare_argv(self.quiet(), repo_url@, target_dir@)),
        ensures
            exists|ran: Execution|
                {
                    &&& #[trigger] returned(
                        run,
                        clone_bare_argv(self.quiet(), repo_url@, target_dir@),
                        ran,
                    )
                    &&& value_is(r, unit_outcome(Operation::CloneBare, observed(ran)))
                },
    {
        let args = self.clone_bare_args(repo_url, target_dir);
        interpret_unit(Operation::CloneBare, invoke(args, run))
    }

    /// The arguments that create a bare repository at `target_dir` whose first branch is
    /// `initial_branch`.
    pub fn init_bare_args(&self, target_dir: &str, initial_branch: &str) -> (args: Vec<String>)
        ensures
            args.deep_view() == init_bare_argv(self.quiet(), target_dir@, initial_branch@),
    {
        let mut args: Vec<String> = Vec::new();
        push_arg(&mut args, "init");
        push_arg(&mut args, "--bare");
        if self.quiet {
            push_arg(&mut args, "--quiet");
        }
        push_joined(&mut args, "--initial-branch=", initial_branch);
        push_arg(&mut args, target_dir);
        assert(args.deep_view() =~= init_bare_argv(self.quiet(), target_dir@, initial_branch@));
        args
    }

    /// Creates a bare repository at `target_dir` whose first branch is `initial_branch`.
    pub fn init_bare<R: FnOnce(Vec<String>) -> Execution>(
        &self,
        target_dir: &str,
        initial_branch: &str,
        run: R,
    ) -> (r: Result<(), GitError>)
        requires
            accepts(run, init_bare_argv(self.quiet(), target_dir@, initial_branch@)),
        ensures
            exists|ran: Execution|
                {
                    &&& #[trigger] returned(
                        run,
                        init_bare_argv(self.quiet(), target_dir@, initial_branch@),
                        ran,
                    )
                    &&& value_is(r, unit_outcome(Operation::InitBare, observed(ran)))
                },
    {
        let args = self.init_bare_args(target_dir, initial_branch);
        interpret_unit(Operation::InitBare, invoke(args, run))
    }

    /// The arguments that attach a worktree at `path` to the existing `branch`.
    pub fn worktree_add_args(&self, path: &str, branch: &str) -> (args: Vec<String>)
        ensures
            args.deep_view() == worktree_add_argv(self.quiet(), path@, branch@),
    {
        let mut args: Vec<String> = Vec::new();
        push_arg(&mut args, "worktree");
        push_arg(&mut args, "add");
        if self.quiet {
            push_arg(&mut args, "--quiet");
        }
        push_arg(&mut args, path);
        push_arg(&mut args, branch);
        assert(args.deep_view() =~= worktree_add_argv(self.quiet(), path@, branch@));
        args
    }

    /// Attaches a worktree at `path` to the existing `branch`.
    pub fn worktree_add<R: FnOnce(Vec<String>) -> Execution>(
        &self,
        path: &str,
        branch: &str,
        run: R,
    ) -> (r: Result<(), GitError>)
        requires
            accepts(run, worktree_add_argv(self.quiet(), path@, branch@)),
        ensures
            exists|ran: Execution|
                {
                    &&& #[trigger] returned(
                        run,
                        worktree_add_argv(self.quiet(), path@, branch@),
                        ran,
                    )
                    &&& value_is(r, unit_outcome(Operation::WorktreeAdd, observed(ran)))
                },
    {
        let args = self.worktree_add_args(path, branch);
        interpret_unit(Operation::WorktreeAdd, invoke(args, run))
    }

    /// The arguments that attach a worktree at `path` to the new branch `branch_name`.
    /// The branch is always named with `-b`, so `git` never derives it from the path.
    pub fn worktree_add_orphan_args(&self, path: &str, branch_name: &str) -> (args: Vec<String>)
        ensures
            args.deep_view() == worktree_add_orphan_argv(self.quiet(), path@, branch_name@),
    {
        let mut args: Vec<String> = Vec::new();
        push_arg(&mut args, "worktree");
        push_arg(&mut args, "add");
        if self.quiet {
            push_arg(&mut args, "--quiet");
        }
        push_arg(&mut args, path);
        push_arg(&mut args, "-b");
        push_arg(&mut args, branch_name);
        assert(args.deep_view() =~= worktree_add_orphan_argv(self.quiet(), path@, branch_name@));
        args
    }

    /// Attaches a worktree at `path` to the new branch `branch_name`.
    pub fn worktree_add_orphan<R: FnOnce(Vec<String>) -> Execution>(
        &self,
        path: &str,
        branch_name: &str,
        run: R,
    ) -> (r: Result<(), GitError>)
        requires
            accepts(run, worktree_add_orphan_argv(self.quiet(), path@, branch_name@)),
        ensures
            exists|ran: Execution|
                {
                    &&& #[trigger] returned(
                        run,
                        worktree_add_orphan_argv(self.quiet(), path@, branch_name@),
                        ran,
                    )
                    &&& value_is(r, unit_outcome(Operation::WorktreeAddOrphan, observed(ran)))
                },
    {
        let args = self.worktree_add_orphan_args(path, branch_name);
        interpret_unit(Operation::WorktreeAddOrphan, invoke(args, run))
    }

    /// The arguments that attach a worktree at `path` to `new_branch`, created from
    /// `base_branch`.
    pub fn worktree_add_new_branch_args(
        &self,
        path: &str,
        new_branch: &str,
        base_branch: &str,
    ) -> (args: Vec<String>)
        ensures
            args.deep_view() == worktree_add_new_branch_argv(
                self.quiet(),
                path@,
                new_branch@,
                base_branch@,
            ),
    {
        let mut args: Vec<String> = Vec::new();
        push_arg(&mut args, "worktree");
        push_arg(&mut args, "add");
        if self.quiet {
            push_arg(&mut args, "--quiet");
        }
        push_arg(&mut args, path);
        push_arg(&mut args, "-b");
        push_arg(&mut args, new_branch);
        push_arg(&mut args, base_branch);
        assert(args.deep_view() =~= worktree_add_new_branch_argv(
            self.quiet(),
            path@,
            new_branch@,
            base_branch@,
        ));
        args
    }

    /// Attaches a worktree at `path` to `new_branch`, created from `base_branch`.
    pub fn worktree_add_new_branch<R: FnOnce(Vec<String>) -> Execution>(
        &self,
        path: &str,
        new_branch: &str,
        base_branch: &str,
        run: R,
    ) -> (r: Result<(), GitError>)
        requires
            accepts(
                run,
                worktree_add_new_branch_argv(self.quiet(), path@, new_branch@, base_branch@),
            ),
        ensures
            exists|ran: Execution|
                {
                    &&& #[trigger] returned(
                        run,
                        worktree_add_new_branch_argv(
                            self.quiet(),
                            path@,
                            new_branch@,
                            base_branch@,
                        ),
                        ran,
                    )
                    &&& value_is(r, unit_outcome(Operation::WorktreeAddNewBranch, observed(ran)))
                },
    {
        let args = self.worktree_add_new_branch_args(path, new_branch, base_branch);
        interpret_unit(Operation::WorktreeAddNewBranch, invoke(args, run))
    }

    /// The arguments that detach the worktree at `path`, with `--force` iff `force`.
    pub fn worktree_remove_args(&self, path: &str, force: bool) -> (args: Vec<String>)
        ensures
            args.deep_view() == worktree_remove_argv(path@, force),
    {
        let mut args: Vec<String> = Vec::new();
        push_arg(&mut args, "worktree");
        push_arg(&mut args, "remove");
        if force {
            push_arg(&mut args, "--force");
        }
        push_arg(&mut args, path);
        assert(args.deep_view() =~= worktree_remove_argv(path@, force));
        args
    }

    /// Detaches the worktree at `path`.
    pub fn worktree_remove<R: FnOnce(Vec<String>) -> Execution>(
        &self,
        path: &str,
        force: bool,
        run: R,
    ) -> (r: Result<(), GitError>)
        requires
            accepts(run, worktree_remove_argv(path@, force)),
        ensures
            exists|ran: Execution|
                {
                    &&& #[trigger] returned(run, worktree_remove_argv(path@, force), ran)
                    &&& value_is(r, unit_outcome(Operation::WorktreeRemove, observed(ran)))
                },
    {
        let args = self.worktree_remove_args(path, force);
        interpret_unit(Operation::WorktreeRemove, invoke(args, run))
    }

    /// The arguments that list the worktrees in porcelain format.
    pub fn worktree_list_porcelain_args(&self) -> (args: Vec<String>)
        ensures
            args.deep_view() == worktree_list_porcelain_argv(),
    {
        let mut args: Vec<String> = Vec::new();
        push_arg(&mut args, "worktree");
        push_arg(&mut args, "list");
        push_arg(&mut args, "--porcelain");
        assert(args.deep_view() =~= worktree_list_porcelain_argv());
        args
    }

    /// Lists the worktrees in porcelain format; the listing is returned as it came.
    pub fn worktree_list_porcelain<R: FnOnce(Vec<String>) -> Execution>(
        &self,
        run: R,
    ) -> (r: Result<String, GitError>)
        requires
            accepts(run, worktree_list_porcelain_argv()),
        ensures
            exists|ran: Execution|
                {
                    &&& #[trigger] returned(run, worktree_list_porcelain_argv(), ran)
                    &&& text_is(r, text_outcome(Operation::WorktreeListPorcelain, observed(ran)))
                },
    {
        let args = self.worktree_list_porcelain_args();
        interpret_text(Operation::WorktreeListPorcelain, invoke(args, run))
    }

    /// The arguments that fetch from `remote`, with `--prune` iff `prune`.
    pub fn fetch_args(&self, remote: &str, prune: bool) -> (args: Vec<String>)
        ensures
            args.deep_view() == fetch_argv(remote@, prune),
    {
        let mut args: Vec<String> = Vec::new();
        push_arg(&mut args, "fetch");
        push_arg(&mut args, remote);
        if prune {
            push_arg(&mut args, "--prune");
        }
        assert(args.deep_view() =~= fetch_argv(remote@, prune));
        args
    }

    /// Fetches from `remote`.
    pub fn fetch<R: FnOnce(Vec<String>) -> Execution>(
        &self,
        remote: &str,
        prune: bool,
        run: R,
    ) -> (r: Result<(), GitError>)
        requires
            accepts(run, fetch_argv(remote@, prune)),
        ensures
            exists|ran: Execution|
                {
                    &&& #[trigger] returned(run, fetch_argv(remote@, prune), ran)
                    &&& value_is(r, unit_outcome(Operation::Fetch, observed(ran)))
                },
    {
        let args = self.fetch_args(remote, prune);
        interpret_unit(Operation::Fetch, invoke(args, run))
    }

    /// The arguments that push `branch` to `remote` and make it the upstream.
    pub fn push_set_upstream_args(&self, remote: &str, branch: &str) -> (args: Vec<String>)
        ensures
            args.deep_view() == push_set_upstream_argv(remote@, branch@),
    {
        let mut args: Vec<String> = Vec::new();
        push_arg(&mut args, "push");
        push_arg(&mut args, "--set-upstream");
        push_arg(&mut args, remote);
        push_arg(&mut args, branch);
        assert(args.deep_view() =~= push_set_upstream_argv(remote@, branch@));
        args
    }

    /// Pushes `branch` to `remote` and makes it the upstream.
    pub fn push_set_upstream<R: FnOnce(Vec<String>) -> Execution>(
        &self,
        remote: &str,
        branch: &str,
        run: R,
    ) -> (r: Result<(), GitError>)
        requires
            accepts(run, push_set_upstream_argv(remote@, branch@)),
        ensures
            exists|ran: Execution|
                {
                    &&& #[trigger] returned(run, push_set_upstream_argv(remote@, branch@), ran)
                    &&& value_is(r, unit_outcome(Operation::PushSetUpstream, observed(ran)))
                },
    {
        let args = self.push_set_upstream_args(remote, branch);
        interpret_unit(Operation::PushSetUpstream, invoke(args, run))
    }

    /// The arguments that make `<remote>/<branch>` the upstream of the current branch.
    pub fn set_upstream_args(&self, remote: &str, branch: &str) -> (args: Vec<String>)
        ensures
            args.deep_view() == set_upstream_argv(remote@, branch@),
    {
        let mut args: Vec<String> = Vec::new();
        push_arg(&mut args, "branch");
        let upstream = String::from_str(remote).concat("/").concat(branch);
        push_joined(&mut args, "--set-upstream-to=", upstream.as_str());
        assert(args.deep_view() =~= set_upstream_argv(remote@, branch@));
        args
    }

    /// Makes `<remote>/<branch>` the upstream of the current branch.
    pub fn set_upstream<R: FnOnce(Vec<String>) -> Execution>(
        &self,
        remote: &str,
        branch: &str,
        run: R,
    ) -> (r: Result<(), GitError>)
        requires
            accepts(run, set_upstream_argv(remote@, branch@)),
        ensures
            exists|ran: Execution|
                {
                    &&& #[trigger] returned(run, set_upstream_argv(remote@, branch@), ran)
                    &&& value_is(r, unit_outcome(Operation::SetUpstream, observed(ran)))
                },
    {
        let args = self.set_upstream_args(remote, branch);
        interpret_unit(Operation::SetUpstream, invoke(args, run))
    }

    /// The arguments that delete `branch`: with `-D` iff `force`, with `-d` otherwise.
    pub fn branch_delete_args(&self, branch: &str, force: bool) -> (args: Vec<String>)
        ensures
            args.deep_view() == branch_delete_argv(branch@, force),
    {
        let mut args: Vec<String> = Vec::new();
        push_arg(&mut args, "branch");
        if force {
            push_arg(&mut args, "-D");
        } else {
            push_arg(&mut args, "-d");
        }
        push_arg(&mut args, branch);
        assert(args.deep_view() =~= branch_delete_argv(branch@, force));
        args
    }

    /// Deletes `branch`.
    pub fn branch_delete<R: FnOnce(Vec<String>) -> Execution>(
        &self,
        branch: &str,
        force: bool,
        run: R,
    ) -> (r: Result<(), GitError>)
        requires
            accepts(run, branch_delete_argv(branch@, force)),
        ensures
            exists|ran: Execution|
                {
                    &&& #[trigger] returned(run, branch_delete_argv(branch@, force), ran)
                    &&& value_is(r, unit_outcome(Operation::BranchDelete, observed(ran)))
                },
    {
        let args = self.branch_delete_args(branch, force);
        interpret_unit(Operation::BranchDelete, invoke(args, run))
    }

    /// The arguments that list the branches with their upstreams.
    pub fn branch_list_verbose_args(&self) -> (args: Vec<String>)
        ensures
            args.deep_view() == branch_list_verbose_argv(),
    {
        let mut args: Vec<String> = Vec::new();
        push_arg(&mut args, "branch");
        push_arg(&mut args, "-vv");
        assert(args.deep_view() =~= branch_list_verbose_argv());
        args
    }

    /// Lists the branches with their upstreams; the listing is returned as it came.
    pub fn branch_list_verbose<R: FnOnce(Vec<String>) -> Execution>(
        &self,
        run: R,
    ) -> (r: Result<String, GitError>)
        requires
            accepts(run, branch_list_verbose_argv()),
        ensures
            exists|ran: Execution|
                {
                    &&& #[trigger] returned(run, branch_list_verbose_argv(), ran)
                    &&& text_is(r, text_outcome(Operation::BranchListVerbose, observed(ran)))
                },
    {
        let args = self.branch_list_verbose_args();
        interpret_text(Operation::BranchListVerbose, invoke(args, run))
    }

    /// The arguments that print the refs under `refs` in `format`, which is passed on
    /// as it is.
    pub fn for_each_ref_args(&self, format: &str, refs: &str) -> (args: Vec<String>)
        ensures
            args.deep_view() == for_each_ref_argv(format@, refs@),
    {
        let mut args: Vec<String> = Vec::new();
        push_arg(&mut args, "for-each-ref");
        push_joined(&mut args, "--format=", format);
        push_arg(&mut args, refs);
        assert(args.deep_view() =~= for_each_ref_argv(format@, refs@));
        args
    }

    /// Prints the refs under `refs` in `format`; the output is returned as it came.
    pub fn for_each_ref<R: FnOnce(Vec<String>) -> Execution>(
        &self,
        format: &str,
        refs: &str,
        run: R,
    ) -> (r: Result<String, GitError>)
        requires
            accepts(run, for_each_ref_argv(format@, refs@)),
        ensures
            exists|ran: Execution|
                {
                    &&& #[trigger] returned(run, for_each_ref_argv(format@, refs@), ran)
                    &&& text_is(r, text_outcome(Operation::ForEachRef, observed(ran)))
                },
    {
        let args = self.for_each_ref_args(format, refs);
        interpret_text(Operation::ForEachRef, invoke(args, run))
    }

    /// The arguments that ask whether the ref `ref_name` exists.
    pub fn show_ref_exists_args(&self, ref_name: &str) -> (args: Vec<String>)
        ensures
            args.deep_view() == show_ref_exists_argv(ref_name@),
    {
        let mut args: Vec<String> = Vec::new();
        push_arg(&mut args, "show-ref");
        push_arg(&mut args, "--verify");
        push_arg(&mut args, "--quiet");
        push_arg(&mut args, ref_name);
        assert(args.deep_view() =~= show_ref_exists_argv(ref_name@));
        args
    }

    /// Whether the ref `ref_name` exists: the exit status is the answer, whatever the
    /// process wrote.
    pub fn show_ref_exists<R: FnOnce(Vec<String>) -> Execution>(
        &self,
        ref_name: &str,
        run: R,
    ) -> (r: Result<bool, GitError>)
        requires
            accepts(run, show_ref_exists_argv(ref_name@)),
        ensures
            exists|ran: Execution|
                {
                    &&& #[trigger] returned(run, show_ref_exists_argv(ref_name@), ran)
                    &&& value_is(r, exit_status_outcome(Operation::ShowRefExists, observed(ran)))
                },
    {
        let args = self.show_ref_exists_args(ref_name);
        interpret_exit_status(Operation::ShowRefExists, invoke(args, run))
    }

    /// The arguments that list the branches of `remote`, or the one `branch`.
    pub fn ls_remote_heads_args(&self, remote: &str, branch: Option<&str>) -> (args: Vec<String>)
        ensures
            args.deep_view() == ls_remote_heads_argv(remote@, branch.deep_view()),
    {
        let mut args: Vec<String> = Vec::new();
        push_arg(&mut args, "ls-remote");
        push_arg(&mut args, "--heads");
        push_arg(&mut args, remote);
        if let Some(name) = branch {
            push_joined(&mut args, "refs/heads/", name);
        }
        assert(args.deep_view() =~= ls_remote_heads_argv(remote@, branch.deep_view()));
        args
    }

    /// Lists the branches of `remote`, or the one `branch`; the listing is returned as
    /// it came.
    pub fn ls_remote_heads<R: FnOnce(Vec<String>) -> Execution>(
        &self,
        remote: &str,
        branch: Option<&str>,
        run: R,
    ) -> (r: Result<String, GitError>)
        requires
            accepts(run, ls_remote_heads_argv(remote@, branch.deep_view())),
        ensures
            exists|ran: Execution|
                {
                    &&& #[trigger] returned(
                        run,
                        ls_remote_heads_argv(remote@, branch.deep_view()),
                        ran,
                    )
                    &&& text_is(r, text_outcome(Operation::LsRemoteHeads, observed(ran)))
                },
    {
        let args = self.ls_remote_heads_args(remote, branch);
        interpret_text(Operation::LsRemoteHeads, invoke(args, run))
    }

    /// The arguments that ask for the repository directory.
    pub fn get_git_dir_args(&self) -> (args: Vec<String>)
        ensures
            args.deep_view() == get_git_dir_argv(),
    {
        let mut args: Vec<String> = Vec::new();
        push_arg(&mut args, "rev-parse");
        push_arg(&mut args, "--git-dir");
        assert(args.deep_view() =~= get_git_dir_argv());
        args
    }

    /// The repository directory, without the whitespace around it.
    pub fn get_git_dir<R: FnOnce(Vec<String>) -> Execution>(
        &self,
        run: R,
    ) -> (r: Result<String, GitError>)
        requires
            accepts(run, get_git_dir_argv()),
        ensures
            exists|ran: Execution|
                {
                    &&& #[trigger] returned(run, get_git_dir_argv(), ran)
                    &&& text_is(r, trimmed_text_outcome(Operation::GetGitDir, observed(ran)))
                },
    {
        let args = self.get_git_dir_args();
        interpret_trimmed_text(Operation::GetGitDir, invoke(args, run))
    }

    /// The arguments that set the head of `remote` to what the remote says it is.
    pub fn remote_set_head_auto_args(&self, remote: &str) -> (args: Vec<String>)
        ensures
            args.deep_view() == remote_set_head_auto_argv(remote@),
    {
        let mut args: Vec<String> = Vec::new();
        push_arg(&mut args, "remote");
        push_arg(&mut args, "set-head");
        push_arg(&mut args, remote);
        push_arg(&mut args, "--auto");
        assert(args.deep_view() =~= remote_set_head_auto_argv(remote@));
        args
    }

    /// Sets the head of `remote` to what the remote says it is.
    pub fn remote_set_head_auto<R: FnOnce(Vec<String>) -> Execution>(
        &self,
        remote: &str,
        run: R,
    ) -> (r: Result<(), GitError>)
        requires
            accepts(run, remote_set_head_auto_argv(remote@)),
        ensures
            exists|ran: Execution|
                {
                    &&& #[trigger] returned(run, remote_set_head_auto_argv(remote@), ran)
                    &&& value_is(r, unit_outcome(Operation::RemoteSetHeadAuto, observed(ran)))
                },
    {
        let args = self.remote_set_head_auto_args(remote);
        interpret_unit(Operation::RemoteSetHeadAuto, invoke(args, run))
    }

    /// The arguments that fetch `refspec` from `remote`.
    pub fn fetch_refspec_args(&self, remote: &str, refspec: &str) -> (args: Vec<String>)
        ensures
            args.deep_view() == fetch_refspec_argv(self.quiet(), remote@, refspec@),
    {
        let mut args: Vec<String> = Vec::new();
        push_arg(&mut args, "fetch");
        push_arg(&mut args, remote);
        push_arg(&mut args, refspec);
        if self.quiet {
            push_arg(&mut args, "--quiet");
        }
        assert(args.deep_view() =~= fetch_refspec_argv(self.quiet(), remote@, refspec@));
        args
    }

    /// Fetches `refspec` from `remote`.
    pub fn fetch_refspec<R: FnOnce(Vec<String>) -> Execution>(
        &self,
        remote: &str,
        refspec: &str,
        run: R,
    ) -> (r: Result<(), GitError>)
        requires
            accepts(run, fetch_refspec_argv(self.quiet(), remote@, refspec@)),
        ensures
            exists|ran: Execution|
                {
                    &&& #[trigger] returned(
                        run,
                        fetch_refspec_argv(self.quiet(), remote@, refspec@),
                        ran,
                    )
                    &&& value_is(r, unit_outcome(Operation::FetchRefspec, observed(ran)))
                },
    {
        let args = self.fetch_refspec_args(remote, refspec);
        interpret_unit(Operation::FetchRefspec, invoke(args, run))
    }

    /// The arguments that count the commits in `range`.
    pub fn rev_list_count_args(&self, range: &str) -> (args: Vec<String>)
        ensures
            args.deep_view() == rev_list_count_argv(range@),
    {
        let mut args: Vec<String> = Vec::new();
        push_arg(&mut args, "rev-list");
        push_arg(&mut args, "--count");
        push_arg(&mut args, range);
        assert(args.deep_view() =~= rev_list_count_argv(range@));
        args
    }

    /// The number of commits in `range`.
    pub fn rev_list_count<R: FnOnce(Vec<String>) -> Execution>(
        &self,
        range: &str,
        run: R,
    ) -> (r: Result<u32, GitError>)
        requires
            accepts(run, rev_list_count_argv(range@)),
        ensures
            exists|ran: Execution|
                {
                    &&& #[trigger] returned(run, rev_list_count_argv(range@), ran)
                    &&& value_is(r, count_outcome(Operation::RevListCount, observed(ran)))
                },
    {
        let args = self.rev_list_count_args(range);
        interpret_count(Operation::RevListCount, invoke(args, run))
    }

    /// The arguments that ask whether the current directory is inside a work tree.
    pub fn rev_parse_is_inside_work_tree_args(&self) -> (args: Vec<String>)
        ensures
            args.deep_view() == rev_parse_is_inside_work_tree_argv(),
    {
        let mut args: Vec<String> = Vec::new();
        push_arg(&mut args, "rev-parse");
        push_arg(&mut args, "--is-inside-work-tree");
        assert(args.deep_view() =~= rev_parse_is_inside_work_tree_argv());
        args
    }

    /// Whether the current directory is inside a work tree: the exit status is the
    /// answer.
    pub fn rev_parse_is_inside_work_tree<R: FnOnce(Vec<String>) -> Execution>(
        &self,
        run: R,
    ) -> (r: Result<bool, GitError>)
        requires
            accepts(run, rev_parse_is_inside_work_tree_argv()),
        ensures
            exists|ran: Execution|
                {
                    &&& #[trigger] returned(run, rev_parse_is_inside_work_tree_argv(), ran)
                    &&& value_is(
                        r,
                        exit_status_outcome(Operation::RevParseIsInsideWorkTree, observed(ran)),
                    )
                },
    {
        let args = self.rev_parse_is_inside_work_tree_args();
        interpret_exit_status(Operation::RevParseIsInsideWorkTree, invoke(args, run))
    }

    /// The arguments that ask for the directory that all worktrees share.
    pub fn rev_parse_git_common_dir_args(&self) -> (args: Vec<String>)
        ensures
            args.deep_view() == rev_parse_git_common_dir_argv(),
    {
        let mut args: Vec<String> = Vec::new();
        push_arg(&mut args, "rev-parse");
        push_arg(&mut args, "--git-common-dir");
        assert(args.deep_view() =~= rev_parse_git_common_dir_argv());
        args
    }

    /// The directory that all worktrees share, without the whitespace around it.
    pub fn rev_parse_git_common_dir<R: FnOnce(Vec<String>) -> Execution>(
        &self,
        run: R,
    ) -> (r: Result<String, GitError>)
        requires
            accepts(run, rev_parse_git_common_dir_argv()),
        ensures
            exists|ran: Execution|
                {
                    &&& #[trigger] returned(run, rev_parse_git_common_dir_argv(), ran)
                    &&& text_is(
                        r,
                        trimmed_text_outcome(Operation::RevParseGitCommonDir, observed(ran)),
                    )
                },
    {
        let args = self.rev_parse_git_common_dir_args();
        interpret_trimmed_text(Operation::RevParseGitCommonDir, invoke(args, run))
    }

    /// The arguments that ask for the short name of the current branch.
    pub fn symbolic_ref_short_head_args(&self) -> (args: Vec<String>)
        ensures
            args.deep_view() == symbolic_ref_short_head_argv(),
    {
        let mut args: Vec<String> = Vec::new();
        push_arg(&mut args, "symbolic-ref");
        push_arg(&mut args, "--short");
        push_arg(&mut args, "HEAD");
        assert(args.deep_view() =~= symbolic_ref_short_head_argv());
        args
    }

    /// The short name of the current branch, without the whitespace around it.
    pub fn symbolic_ref_short_head<R: FnOnce(Vec<String>) -> Execution>(
        &self,
        run: R,
    ) -> (r: Result<String, GitError>)
        requires
            accepts(run, symbolic_ref_short_head_argv()),
        ensures
            exists|ran: Execution|
                {
                    &&& #[trigger] returned(run, symbolic_ref_short_head_argv(), ran)
                    &&& text_is(
                        r,
                        trimmed_text_outcome(Operation::SymbolicRefShortHead, observed(ran)),
                    )
                },
    {
        let args = self.symbolic_ref_short_head_args();
        interpret_trimmed_text(Operation::SymbolicRefShortHead, invoke(args, run))
    }

    /// The arguments that ask `remote_url` what its head points to.
    pub fn ls_remote_symref_args(&self, remote_url: &str) -> (args: Vec<String>)
        ensures
            args.deep_view() == ls_remote_symref_argv(remote_url@),
    {
        let mut args: Vec<String> = Vec::new();
        push_arg(&mut args, "ls-remote");
        push_arg(&mut args, "--symref");
        push_arg(&mut args, remote_url);
        push_arg(&mut args, "HEAD");
        assert(args.deep_view() =~= ls_remote_symref_argv(remote_url@));
        args
    }

    /// Asks `remote_url` what its head points to; the answer is returned as it came.
    pub fn ls_remote_symref<R: FnOnce(Vec<String>) -> Execution>(
        &self,
        remote_url: &str,
        run: R,
    ) -> (r: Result<String, GitError>)
        requires
            accepts(run, ls_remote_symref_argv(remote_url@)),
        ensures
            exists|ran: Execution|
                {
                    &&& #[trigger] returned(run, ls_remote_symref_argv(remote_url@), ran)
                    &&& text_is(r, text_outcome(Operation::LsRemoteSymref, observed(ran)))
                },
    {
        let args = self.ls_remote_symref_args(remote_url);
        interpret_text(Operation::LsRemoteSymref, invoke(args, run))
    }

    /// The arguments that ask `remote_name` for its branch `branch`.
    pub fn ls_remote_branch_exists_args(
        &self,
        remote_name: &str,
        branch: &str,
    ) -> (args: Vec<String>)
        ensures
            args.deep_view() == ls_remote_branch_exists_argv(remote_name@, branch@),
    {
        let mut args: Vec<String> = Vec::new();
        push_arg(&mut args, "ls-remote");
        push_arg(&mut args, "--heads");
        push_arg(&mut args, remote_name);
        push_joined(&mut args, "refs/heads/", branch);
        assert(args.deep_view() =~= ls_remote_branch_exists_argv(remote_name@, branch@));
        args
    }

    /// Whether `remote_name` has the branch `branch`: it has iff anything but
    /// whitespace is listed.
    pub fn ls_remote_branch_exists<R: FnOnce(Vec<String>) -> Execution>(
        &self,
        remote_name: &str,
        branch: &str,
        run: R,
    ) -> (r: Result<bool, GitError>)
        requires
            accepts(run, ls_remote_branch_exists_argv(remote_name@, branch@)),
        ensures
            exists|ran: Execution|
                {
                    &&& #[trigger] returned(
                        run,
                        ls_remote_branch_exists_argv(remote_name@, branch@),
                        ran,
                    )
                    &&& value_is(
                        r,
                        presence_outcome(Operation::LsRemoteBranchExists, observed(ran)),
                    )
                },
    {
        let args = self.ls_remote_branch_exists_args(remote_name, branch);
        interpret_presence(Operation::LsRemoteBranchExists, invoke(args, run))
    }
}

} // verus!
