//! What running a planned invocation gave, and the value each kind of
//! operation makes of it.

use crate::error::{GitError, GitErrorView, Operation};
use crate::text::{
    lossy_text, parse_u32, parsed_u32, string_from_utf8, string_from_utf8_lossy, trim, trimmed,
};
use vstd::prelude::*;
use vstd::utf8::{decode_utf8, valid_utf8};

verus! {

/// What a process left behind when it ended.
#[derive(Clone, Debug, PartialEq, Eq)]
pub struct CommandOutput {
    /// Whether the exit status reports success.
    pub success: bool,
    /// The bytes written to standard output.
    pub stdout: Vec<u8>,
    /// The bytes written to standard error.
    pub stderr: Vec<u8>,
}

/// A `CommandOutput` with its streams as byte sequences.
pub struct OutputView {
    pub success: bool,
    pub stdout: Seq<u8>,
    pub stderr: Seq<u8>,
}

impl View for CommandOutput {
    type V = OutputView;

    open spec fn view(&self) -> OutputView {
        OutputView { success: self.success, stdout: self.stdout@, stderr: self.stderr@ }
    }
}

/// The binary could not be started.
#[derive(Clone, Debug, PartialEq, Eq)]
pub struct SpawnError {
    /// What the operating system said.
    pub reason: String,
}

/// What came of one attempt to run the binary: the output of the process
/// that ran, or the reason why none did.
pub type Execution = Result<CommandOutput, SpawnError>;

/// An `Execution` as contracts see it.
pub type Observed = Result<OutputView, Seq<char>>;

/// What `ran` holds, as contracts see it.
pub open spec fn observed(ran: Execution) -> Observed {
    match ran {
        Ok(output) => Ok(output@),
        Err(error) => Err(error.reason@),
    }
}

/// Whether `r` is the value, or holds the error, that `expected` describes.
pub open spec fn value_is<T>(r: Result<T, GitError>, expected: Result<T, GitErrorView>) -> bool {
    match expected {
        Ok(value) => r == Ok::<T, GitError>(value),
        Err(error) => r matches Err(e) && e@ == error,
    }
}

/// Whether `r` holds the text, or the error, that `expected` describes.
pub open spec fn text_is(r: Result<String, GitError>, expected: Result<Seq<char>, GitErrorView>)
    -> bool {
    match expected {
        Ok(text) => r matches Ok(s) && s@ == text,
        Err(error) => r matches Err(e) && e@ == error,
    }
}

/// The output of a process that was started and reported success; the error
/// that says which of the two it failed at otherwise.
pub open spec fn completed(operation: Operation, ran: Observed) -> Result<
    OutputView,
    GitErrorView,
> {
    match ran {
        Err(reason) => Err(GitErrorView::SpawnFailed { operation, reason }),
        Ok(output) => if output.success {
            Ok(output)
        } else {
            Err(GitErrorView::CommandFailed { operation, stderr: lossy_text(output.stderr) })
        },
    }
}

/// For an operation without a value: success iff the process ran and
/// reported success.
pub open spec fn unit_outcome(operation: Operation, ran: Observed) -> Result<(), GitErrorView> {
    match completed(operation, ran) {
        Ok(_) => Ok(()),
        Err(error) => Err(error),
    }
}

/// For an operation that yields text: the standard output of the successful
/// process, which must be valid UTF-8, character for character.
pub open spec fn text_outcome(operation: Operation, ran: Observed) -> Result<
    Seq<char>,
    GitErrorView,
> {
    match completed(operation, ran) {
        Ok(output) => if valid_utf8(output.stdout) {
            Ok(decode_utf8(output.stdout))
        } else {
            Err(GitErrorView::OutputDecodeFailed { operation })
        },
        Err(error) => Err(error),
    }
}

/// For an operation that yields one line: the text without the whitespace
/// around it.
pub open spec fn trimmed_text_outcome(operation: Operation, ran: Observed) -> Result<
    Seq<char>,
    GitErrorView,
> {
    match text_outcome(operation, ran) {
        Ok(text) => Ok(trimmed(text)),
        Err(error) => Err(error),
    }
}

/// For a check that the exit status answers: the status itself. A failure
/// status is the answer `false`, never an error.
pub open spec fn exit_status_outcome(operation: Operation, ran: Observed) -> Result<
    bool,
    GitErrorView,
> {
    match ran {
        Err(reason) => Err(GitErrorView::SpawnFailed { operation, reason }),
        Ok(output) => Ok(output.success),
    }
}

/// For a check that the listing answers: whether anything but whitespace was
/// listed.
pub open spec fn presence_outcome(operation: Operation, ran: Observed) -> Result<
    bool,
    GitErrorView,
> {
    match text_outcome(operation, ran) {
        Ok(text) => Ok(trimmed(text).len() > 0),
        Err(error) => Err(error),
    }
}

/// For an operation that yields a count: the number that the trimmed text
/// writes in base ten; text that writes none is a parse failure that holds
/// the text as it came.
pub open spec fn count_outcome(operation: Operation, ran: Observed) -> Result<u32, GitErrorView> {
    match text_outcome(operation, ran) {
        Ok(text) => match parsed_u32(trimmed(text)) {
            Some(count) => Ok(count),
            None => Err(GitErrorView::OutputParseFailed { operation, raw: text }),
        },
        Err(error) => Err(error),
    }
}

/// Tells a process that ran and reported success from the two ways of failing.
fn require_success(operation: Operation, ran: Execution) -> (r: Result<CommandOutput, GitError>)
    ensures
        match completed(operation, observed(ran)) {
            Ok(output) => r matches Ok(o) && o@ == output,
            Err(error) => r matches Err(e) && e@ == error,
        },
{
    match ran {
        Err(error) => Err(GitError::SpawnFailed { operation, reason: error.reason }),
        Ok(output) => {
            if output.success {
                Ok(output)
            } else {
                let stderr = string_from_utf8_lossy(output.stderr.as_slice());
                Err(GitError::CommandFailed { operation, stderr })
            }
        },
    }
}

/// The outcome of an operation that yields no value.
pub fn interpret_unit(operation: Operation, ran: Execution) -> (r: Result<(), GitError>)
    ensures
        value_is(r, unit_outcome(operation, observed(ran))),
{
    match require_success(operation, ran) {
        Ok(_) => Ok(()),
        Err(error) => Err(error),
    }
}

/// The outcome of an operation that yields its standard output as text.
pub fn interpret_text(operation: Operation, ran: Execution) -> (r: Result<String, GitError>)
    ensures
        text_is(r, text_outcome(operation, observed(ran))),
{
    match require_success(operation, ran) {
        Ok(output) => match string_from_utf8(output.stdout) {
            Ok(text) => Ok(text),
            Err(_) => Err(GitError::OutputDecodeFailed { operation }),
        },
        Err(error) => Err(error),
    }
}

/// The outcome of an operation that yields one line of text.
pub fn interpret_trimmed_text(operation: Operation, ran: Execution) -> (r: Result<
    String,
    GitError,
>)
    ensures
        text_is(r, trimmed_text_outcome(operation, observed(ran))),
{
    match interpret_text(operation, ran) {
        Ok(text) => Ok(trim(text.as_str()).to_owned()),
        Err(error) => Err(error),
    }
}

/// The outcome of a check that the exit status answers.
pub fn interpret_exit_status(operation: Operation, ran: Execution) -> (r: Result<bool, GitError>)
    ensures
        value_is(r, exit_status_outcome(operation, observed(ran))),
{
    match ran {
        Err(error) => Err(GitError::SpawnFailed { operation, reason: error.reason }),
        Ok(output) => Ok(output.success),
    }
}

/// The outcome of a check that the listing answers.
pub fn interpret_presence(operation: Operation, ran: Execution) -> (r: Result<bool, GitError>)
    ensures
        value_is(r, presence_outcome(operation, observed(ran))),
{
    match interpret_text(operation, ran) {
        Ok(text) => {
            let line = trim(text.as_str());
            Ok(!line.is_empty())
        },
        Err(error) => Err(error),
    }
}

/// The outcome of an operation that yields a count.
pub fn interpret_count(operation: Operation, ran: Execution) -> (r: Result<u32, GitError>)
    ensures
        value_is(r, count_outcome(operation, observed(ran))),
{
    match interpret_text(operation, ran) {
        Ok(text) => match parse_u32(trim(text.as_str())) {
            Some(count) => Ok(count),
            None => Err(GitError::OutputParseFailed { operation, raw: text }),
        },
        Err(error) => Err(error),
    }
}

} // verus!
