//! The instruction logic of the frogwifcat program.
//!
//! The program has a single instruction, `initialize`. Its account context
//! names no account; the instruction changes nothing and always succeeds.

use core::convert::Infallible;
use vstd::prelude::*;

verus! {

/// The account context of `initialize`: the accounts that the instruction may
/// read or write. It names none, so it has no field and holds no state.
#[derive(Clone, Copy, Debug, PartialEq, Eq, Structural)]
pub struct Initialize {}

/// One run of `initialize` on a context in the state `before`: the state
/// that the run leaves behind, and what it returns.
pub open spec fn initialize_spec(before: Initialize) -> (Initialize, Result<(), Infallible>) {
    (before, Ok(()))
}

/// Runs the `initialize` instruction on `ctx`.
///
/// The instruction has no failure path: it returns `Ok(())` on every context
/// and leaves the context as it found it.
pub fn initialize(ctx: &mut Initialize) -> (res: Result<(), Infallible>)
    ensures
        res is Ok,
        *final(ctx) == *old(ctx),
        (*final(ctx), res) == initialize_spec(*old(ctx)),
{
    Ok(())
}

/// Running `initialize` again changes nothing: a second run on the state
/// that a first run left behind leaves that same state and returns the same
/// result, so any number of runs amounts to one.
pub proof fn lemma_initialize_idempotent(before: Initialize)
    ensures
        initialize_spec(initialize_spec(before).0) == initialize_spec(before),
{
}

} // verus!
