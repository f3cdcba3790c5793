use git_command::command::PROGRAM;
use git_command::{CommandOutput, GitCommand, SpawnError};

fn success() -> Result<CommandOutput, SpawnError> {
    Ok(CommandOutput { success: true, stdout: Vec::new(), stderr: Vec::new() })
}

#[test]
fn test_git_command_new() {
    let git = GitCommand::new(true);
    assert!(git.quiet());

    let git = GitCommand::new(false);
    assert!(!git.quiet());
}

#[test]
fn program_is_git() {
    assert_eq!(PROGRAM, "git");
}

#[test]
fn clone_bare_quiet_hands_the_runner_its_arguments_in_order() {
    let git = GitCommand::new(true);
    let mut recorded: Vec<Vec<String>> = Vec::new();
    let result = git.clone_bare("https://example/repo.git", "/srv/repo.git", |args| {
        recorded.push(args);
        success()
    });
    assert_eq!(result, Ok(()));
    assert_eq!(recorded.len(), 1);
    assert_eq!(
        recorded[0],
        vec!["clone", "--bare", "--quiet", "https://example/repo.git", "/srv/repo.git"]
    );
}

#[test]
fn every_operation_calls_the_runner_once_with_its_own_arguments() {
    let git = GitCommand::new(false);
    let mut calls: usize = 0;
    let mut recorded: Vec<String> = Vec::new();
    let result = git.worktree_add_new_branch("../wt", "topic", "main", |args| {
        calls += 1;
        recorded = args;
        success()
    });
    assert_eq!(result, Ok(()));
    assert_eq!(calls, 1);
    assert_eq!(recorded, git.worktree_add_new_branch_args("../wt", "topic", "main"));
}

#[test]
fn clone_bare_args_with_and_without_quiet() {
    assert_eq!(
        GitCommand::new(true).clone_bare_args("https://example/repo.git", "repo.git"),
        vec!["clone", "--bare", "--quiet", "https://example/repo.git", "repo.git"]
    );
    assert_eq!(
        GitCommand::new(false).clone_bare_args("https://example/repo.git", "repo.git"),
        vec!["clone", "--bare", "https://example/repo.git", "repo.git"]
    );
}

#[test]
fn init_bare_args_with_and_without_quiet() {
    assert_eq!(
        GitCommand::new(true).init_bare_args("repo.git", "main"),
        vec!["init", "--bare", "--quiet", "--initial-branch=main", "repo.git"]
    );
    assert_eq!(
        GitCommand::new(false).init_bare_args("repo.git", "trunk"),
        vec!["init", "--bare", "--initial-branch=trunk", "repo.git"]
    );
}

#[test]
fn worktree_add_args_with_and_without_quiet() {
    assert_eq!(
        GitCommand::new(true).worktree_add_args("../main", "main"),
        vec!["worktree", "add", "--quiet", "../main", "main"]
    );
    assert_eq!(
        GitCommand::new(false).worktree_add_args("../main", "main"),
        vec!["worktree", "add", "../main", "main"]
    );
}

#[test]
fn worktree_add_orphan_always_names_the_branch() {
    assert_eq!(
        GitCommand::new(false).worktree_add_orphan_args("../some/other-name", "feature-x"),
        vec!["worktree", "add", "../some/other-name", "-b", "feature-x"]
    );
    assert_eq!(
        GitCommand::new(true).worktree_add_orphan_args("feature-x", "feature-x"),
        vec!["worktree", "add", "--quiet", "feature-x", "-b", "feature-x"]
    );
}

#[test]
fn worktree_add_new_branch_args_with_and_without_quiet() {
    assert_eq!(
        GitCommand::new(true).worktree_add_new_branch_args("../topic", "topic", "main"),
        vec!["worktree", "add", "--quiet", "../topic", "-b", "topic", "main"]
    );
    assert_eq!(
        GitCommand::new(false).worktree_add_new_branch_args("../topic", "topic", "main"),
        vec!["worktree", "add", "../topic", "-b", "topic", "main"]
    );
}

#[test]
fn worktree_remove_args_force_and_not() {
    let git = GitCommand::new(true);
    assert_eq!(
        git.worktree_remove_args("../topic", true),
        vec!["worktree", "remove", "--force", "../topic"]
    );
    assert_eq!(git.worktree_remove_args("../topic", false), vec!["worktree", "remove", "../topic"]);
}

#[test]
fn fetch_args_prune_and_not_never_quiet() {
    let git = GitCommand::new(true);
    assert_eq!(git.fetch_args("origin", true), vec!["fetch", "origin", "--prune"]);
    assert_eq!(git.fetch_args("origin", false), vec!["fetch", "origin"]);
}

#[test]
fn fetch_refspec_args_put_quiet_last() {
    assert_eq!(
        GitCommand::new(true).fetch_refspec_args("origin", "+refs/heads/*:refs/remotes/origin/*"),
        vec!["fetch", "origin", "+refs/heads/*:refs/remotes/origin/*", "--quiet"]
    );
    assert_eq!(
        GitCommand::new(false).fetch_refspec_args("origin", "main:main"),
        vec!["fetch", "origin", "main:main"]
    );
}

#[test]
fn push_set_upstream_args_never_quiet() {
    assert_eq!(
        GitCommand::new(true).push_set_upstream_args("origin", "topic"),
        vec!["push", "--set-upstream", "origin", "topic"]
    );
}

#[test]
fn set_upstream_joins_remote_and_branch_with_a_slash() {
    assert_eq!(
        GitCommand::new(true).set_upstream_args("origin", "main"),
        vec!["branch", "--set-upstream-to=origin/main"]
    );
    assert_eq!(
        GitCommand::new(false).set_upstream_args("up stream", "feat/x y"),
        vec!["branch", "--set-upstream-to=up stream/feat/x y"]
    );
}

#[test]
fn branch_delete_emits_capital_d_iff_forced() {
    let git = GitCommand::new(true);
    assert_eq!(git.branch_delete_args("topic", true), vec!["branch", "-D", "topic"]);
    assert_eq!(git.branch_delete_args("topic", false), vec!["branch", "-d", "topic"]);
}

#[test]
fn listing_and_query_args_are_fixed() {
    let git = GitCommand::new(true);
    assert_eq!(git.worktree_list_porcelain_args(), vec!["worktree", "list", "--porcelain"]);
    assert_eq!(git.branch_list_verbose_args(), vec!["branch", "-vv"]);
    assert_eq!(git.get_git_dir_args(), vec!["rev-parse", "--git-dir"]);
    assert_eq!(
        git.rev_parse_is_inside_work_tree_args(),
        vec!["rev-parse", "--is-inside-work-tree"]
    );
    assert_eq!(git.rev_parse_git_common_dir_args(), vec!["rev-parse", "--git-common-dir"]);
    assert_eq!(git.symbolic_ref_short_head_args(), vec!["symbolic-ref", "--short", "HEAD"]);
}

#[test]
fn for_each_ref_passes_the_format_on_as_it_is() {
    assert_eq!(
        GitCommand::new(false).for_each_ref_args("%(refname:short) %(upstream)", "refs/heads"),
        vec!["for-each-ref", "--format=%(refname:short) %(upstream)", "refs/heads"]
    );
}

#[test]
fn show_ref_exists_args_are_always_quiet() {
    assert_eq!(
        GitCommand::new(false).show_ref_exists_args("refs/heads/main"),
        vec!["show-ref", "--verify", "--quiet", "refs/heads/main"]
    );
}

#[test]
fn ls_remote_heads_args_with_and_without_branch() {
    let git = GitCommand::new(true);
    assert_eq!(git.ls_remote_heads_args("origin", None), vec!["ls-remote", "--heads", "origin"]);
    assert_eq!(
        git.ls_remote_heads_args("origin", Some("main")),
        vec!["ls-remote", "--heads", "origin", "refs/heads/main"]
    );
}

#[test]
fn remote_and_count_args() {
    let git = GitCommand::new(true);
    assert_eq!(
        git.remote_set_head_auto_args("origin"),
        vec!["remote", "set-head", "origin", "--auto"]
    );
    assert_eq!(git.rev_list_count_args("main..topic"), vec!["rev-list", "--count", "main..topic"]);
    assert_eq!(
        git.ls_remote_symref_args("https://example/repo.git"),
        vec!["ls-remote", "--symref", "https://example/repo.git", "HEAD"]
    );
    assert_eq!(
        git.ls_remote_branch_exists_args("origin", "main"),
        vec!["ls-remote", "--heads", "origin", "refs/heads/main"]
    );
}

#[test]
fn arguments_are_passed_on_without_escaping() {
    assert_eq!(
        GitCommand::new(false).worktree_add_args("dir with space", "--quiet"),
        vec!["worktree", "add", "dir with space", "--quiet"]
    );
    assert_eq!(GitCommand::new(false).fetch_args("", false), vec!["fetch", ""]);
}
