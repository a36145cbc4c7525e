//! Capability tokens: unforgeable witnesses of an access-pattern proof.
//!
//! Neither token carries any observable state.  Each is manufactured by a
//! single attestation call whose precondition is not checkable here: the
//! caller (the scheduler that owns phase separation) attests that the current
//! phase makes the attested access pattern safe.  Violating that precondition
//! is a data race in the surrounding system, not an error this primitive can
//! detect or report.

use core::marker::PhantomData;
use std::rc::Rc;
use vstd::prelude::*;

verus! {

/// Witness of the exclusive-mutation phase.
///
/// Holding one grants the right to request checked mutable or immutable
/// borrows from any cell.  The `PhantomData<Rc<()>>` member keeps the token
/// confined to the thread that attested it: the type is neither `Send` nor
/// `Sync`, so it can never be moved to, or observed from, another thread.
pub struct SingleThreadToken {
    thread_confined: PhantomData<Rc<()>>,
}

impl SingleThreadToken {
    /// Returns a token that is safe to use if:
    ///
    /// * no other thread is using a `SingleThreadToken` at the same time, and
    /// * no `ReadOnlyToken` is used on any thread
    ///
    /// ... with the same `StyleRefCell`s.  The caller attests that both hold;
    /// nothing here can check them, and violating either is a data race.
    pub fn attest() -> Self {
        SingleThreadToken { thread_confined: PhantomData }
    }
}

/// Witness of the shared-read phase.
///
/// Freely transferable and shareable: any number of threads may hold and use
/// read-only tokens at the same time.  Holding one grants the right to obtain
/// a direct, uncounted immutable reference into a cell's payload.
pub struct ReadOnlyToken {
    shareable: (),
}

impl ReadOnlyToken {
    /// Returns a token that is safe to use if no `SingleThreadToken` is used
    /// on any thread at the same time with the same `StyleRefCell`s.
    ///
    /// It is however safe for multiple threads to use `ReadOnlyToken` at the
    /// same time.  The caller attests the absence of a concurrent exclusive
    /// token; nothing here can check it.
    pub fn attest() -> Self {
        ReadOnlyToken { shareable: () }
    }
}

} // verus!
