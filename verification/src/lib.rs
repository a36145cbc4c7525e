//! A capability-token-gated shared mutable cell.
//!
//! Worker code that can argue, by the construction of its surrounding
//! scheduler, that a whole phase of the computation is free of conflicting
//! access may manufacture a capability token attesting to that pattern.  The
//! cell trusts the token: it performs no locking and no atomic bookkeeping,
//! only a per-cell reentrancy counter that rules out conflicting nested
//! borrows taken under an exclusive token on one thread.

pub mod cell;
pub mod gates;
pub mod token;

pub use cell::MutGuard;
pub use cell::ReadGuard;
pub use cell::StyleRefCell;
pub use gates::set_heap_sizing_thread_local_flag;
pub use gates::set_unit_testing_thread_local_flag;
pub use gates::DebugGates;
pub use token::ReadOnlyToken;
pub use token::SingleThreadToken;
