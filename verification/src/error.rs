//! The operations this crate plans and the ways in which one of them fails.

use vstd::prelude::*;

verus! {

/// The operations, each of which is one invocation of `git`.
#[derive(Clone, Copy, Debug, PartialEq, Eq, Structural)]
pub enum Operation {
    CloneBare,
    InitBare,
    WorktreeAdd,
    WorktreeAddOrphan,
    WorktreeAddNewBranch,
    WorktreeRemove,
    WorktreeListPorcelain,
    Fetch,
    PushSetUpstream,
    SetUpstream,
    BranchDelete,
    BranchListVerbose,
    ForEachRef,
    ShowRefExists,
    LsRemoteHeads,
    GetGitDir,
    RemoteSetHeadAuto,
    FetchRefspec,
    RevListCount,
    RevParseIsInsideWorkTree,
    RevParseGitCommonDir,
    SymbolicRefShortHead,
    LsRemoteSymref,
    LsRemoteBranchExists,
}

/// The `git` subcommand that an operation runs, as it is named in messages.
pub open spec fn subcommand_text(operation: Operation) -> Seq<char> {
    match operation {
        Operation::CloneBare => "clone"@,
        Operation::InitBare => "init"@,
        Operation::WorktreeAdd => "worktree add"@,
        Operation::WorktreeAddOrphan => "worktree add"@,
        Operation::WorktreeAddNewBranch => "worktree add"@,
        Operation::WorktreeRemove => "worktree remove"@,
        Operation::WorktreeListPorcelain => "worktree list"@,
        Operation::Fetch => "fetch"@,
        Operation::PushSetUpstream => "push"@,
        Operation::SetUpstream => "branch"@,
        Operation::BranchDelete => "branch"@,
        Operation::BranchListVerbose => "branch"@,
        Operation::ForEachRef => "for-each-ref"@,
        Operation::ShowRefExists => "show-ref"@,
        Operation::LsRemoteHeads => "ls-remote"@,
        Operation::GetGitDir => "rev-parse"@,
        Operation::RemoteSetHeadAuto => "remote set-head"@,
        Operation::FetchRefspec => "fetch"@,
        Operation::RevListCount => "rev-list"@,
        Operation::RevParseIsInsideWorkTree => "rev-parse"@,
        Operation::RevParseGitCommonDir => "rev-parse"@,
        Operation::SymbolicRefShortHead => "symbolic-ref"@,
        Operation::LsRemoteSymref => "ls-remote"@,
        Operation::LsRemoteBranchExists => "ls-remote"@,
    }
}

/// What an operation is called when it is reported as failed.
pub open spec fn label_text(operation: Operation) -> Seq<char> {
    match operation {
        Operation::SetUpstream => "set upstream"@,
        Operation::BranchDelete => "branch delete"@,
        Operation::BranchListVerbose => "branch list"@,
        Operation::FetchRefspec => "fetch with refspec"@,
        _ => subcommand_text(operation),
    }
}

impl Operation {
    /// The `git` subcommand that this operation runs, as it is named in messages.
    pub fn subcommand(self) -> (name: &'static str)
        ensures
            name@ == subcommand_text(self),
    {
        match self {
            Operation::CloneBare => "clone",
            Operation::InitBare => "init",
            Operation::WorktreeAdd => "worktree add",
            Operation::WorktreeAddOrphan => "worktree add",
            Operation::WorktreeAddNewBranch => "worktree add",
            Operation::WorktreeRemove => "worktree remove",
            Operation::WorktreeListPorcelain => "worktree list",
            Operation::Fetch => "fetch",
            Operation::PushSetUpstream => "push",
            Operation::SetUpstream => "branch",
            Operation::BranchDelete => "branch",
            Operation::BranchListVerbose => "branch",
            Operation::ForEachRef => "for-each-ref",
            Operation::ShowRefExists => "show-ref",
            Operation::LsRemoteHeads => "ls-remote",
            Operation::GetGitDir => "rev-parse",
            Operation::RemoteSetHeadAuto => "remote set-head",
            Operation::FetchRefspec => "fetch",
            Operation::RevListCount => "rev-list",
            Operation::RevParseIsInsideWorkTree => "rev-parse",
            Operation::RevParseGitCommonDir => "rev-parse",
            Operation::SymbolicRefShortHead => "symbolic-ref",
            Operation::LsRemoteSymref => "ls-remote",
            Operation::LsRemoteBranchExists => "ls-remote",
        }
    }

    /// What this operation is called when it is reported as failed.
    pub fn label(self) -> (name: &'static str)
        ensures
            name@ == label_text(self),
    {
        match self {
            Operation::SetUpstream => "set upstream",
            Operation::BranchDelete => "branch delete",
            Operation::BranchListVerbose => "branch list",
            Operation::FetchRefspec => "fetch with refspec",
            _ => self.subcommand(),
        }
    }
}

/// Why an operation did not produce its value.
#[derive(Clone, Debug, PartialEq, Eq)]
pub enum GitError {
    /// The binary could not be started.
    SpawnFailed { operation: Operation, reason: String },
    /// The process ran and exited with a failure status.
    CommandFailed { operation: Operation, stderr: String },
    /// The process succeeded, but its standard output is not valid UTF-8.
    OutputDecodeFailed { operation: Operation },
    /// The process succeeded, but its output does not have the expected shape.
    OutputParseFailed { operation: Operation, raw: String },
}

/// A `GitError` with its texts as character sequences.
pub enum GitErrorView {
    SpawnFailed { operation: Operation, reason: Seq<char> },
    CommandFailed { operation: Operation, stderr: Seq<char> },
    OutputDecodeFailed { operation: Operation },
    OutputParseFailed { operation: Operation, raw: Seq<char> },
}

impl View for GitError {
    type V = GitErrorView;

    open spec fn view(&self) -> GitErrorView {
        match self {
            GitError::SpawnFailed { operation, reason } => GitErrorView::SpawnFailed {
                operation: *operation,
                reason: reason@,
            },
            GitError::CommandFailed { operation, stderr } => GitErrorView::CommandFailed {
                operation: *operation,
                stderr: stderr@,
            },
            GitError::OutputDecodeFailed { operation } => GitErrorView::OutputDecodeFailed {
                operation: *operation,
            },
            GitError::OutputParseFailed { operation, raw } => GitErrorView::OutputParseFailed {
                operation: *operation,
                raw: raw@,
            },
        }
    }
}

impl GitErrorView {
    /// The operation that failed.
    pub open spec fn operation(self) -> Operation {
        match self {
            GitErrorView::SpawnFailed { operation, .. } => operation,
            GitErrorView::CommandFailed { operation, .. } => operation,
            GitErrorView::OutputDecodeFailed { operation } => operation,
            GitErrorView::OutputParseFailed { operation, .. } => operation,
        }
    }

    /// The one-line description of the failure.
    pub open spec fn message(self) -> Seq<char> {
        match self {
            GitErrorView::SpawnFailed { operation, .. } => "Failed to execute git "@
                + subcommand_text(operation) + " command"@,
            GitErrorView::CommandFailed { operation, stderr } => "Git "@ + label_text(operation)
                + " failed: "@ + stderr,
            GitErrorView::OutputDecodeFailed { operation } => "Failed to parse git "@
                + subcommand_text(operation) + " output"@,
            GitErrorView::OutputParseFailed { .. } => "Failed to parse commit count as number"@,
        }
    }
}

impl GitError {
    /// The operation that failed.
    pub fn operation(&self) -> (operation: Operation)
        ensures
            operation == self@.operation(),
    {
        match self {
            GitError::SpawnFailed { operation, .. } => *operation,
            GitError::CommandFailed { operation, .. } => *operation,
            GitError::OutputDecodeFailed { operation } => *operation,
            GitError::OutputParseFailed { operation, .. } => *operation,
        }
    }

    /// The one-line description of the failure.
    pub fn message(&self) -> (message: String)
        ensures
            message@ == self@.message(),
    {
        match self {
            GitError::SpawnFailed { operation, .. } => {
                String::from_str("Failed to execute git ").concat(operation.subcommand()).concat(
                    " command",
                )
            },
            GitError::CommandFailed { operation, stderr } => {
                String::from_str("Git ").concat(operation.label()).concat(" failed: ").concat(
                    stderr.as_str(),
                )
            },
            GitError::OutputDecodeFailed { operation } => {
                String::from_str("Failed to parse git ").concat(operation.subcommand()).concat(
                    " output",
                )
            },
            GitError::OutputParseFailed { .. } => String::from_str(
                "Failed to parse commit count as number",
            ),
        }
    }
}

} // verus!
