//! The one capability that the operations need from their caller: something
//! that runs `git` once with given arguments and reports what came of it.

use crate::outcome::Execution;
use vstd::prelude::*;

verus! {

/// Whether `run` may be called with the argument vector `argv`.
pub open spec fn accepts<R: FnOnce(Vec<String>) -> Execution>(
    run: R,
    argv: Seq<Seq<char>>,
) -> bool {
    forall|args: Vec<String>| args.deep_view() == argv ==> #[trigger] call_requires(run, (args,))
}

/// Whether `ran` is what a call of `run` with the argument vector `argv` gave.
pub open spec fn returned<R: FnOnce(Vec<String>) -> Execution>(
    run: R,
    argv: Seq<Seq<char>>,
    ran: Execution,
) -> bool {
    exists|args: Vec<String>| args.deep_view() == argv && #[trigger] call_ensures(run, (args,), ran)
}

/// Runs `git` once, with `args`.
pub(crate) fn invoke<R: FnOnce(Vec<String>) -> Execution>(
    args: Vec<String>,
    run: R,
) -> (ran: Execution)
    requires
        accepts(run, args.deep_view()),
    ensures
        returned(run, args.deep_view(), ran),
{
    run(args)
}

} // verus!
