//! Debug-gate registry: opt-in flags that unlock the two diagnostic-only
//! operations on a cell (payload equality and heap-size accounting).
//!
//! The flags gate capabilities whose safety is asserted for the process as a
//! whole, so a single registry value is meant to be created once by a trusted
//! harness, enabled around the diagnostic calls, and reset afterwards.  The
//! registry is passed explicitly to the operations it gates; embedding code
//! that wants ambient flags keeps the single value in storage of its own.

use vstd::prelude::*;

verus! {

/// The two process-wide diagnostic flags, both initially disabled.
pub struct DebugGates {
    unit_testing: bool,
    heap_sizing: bool,
}

impl DebugGates {
    /// Whether the payload-equality diagnostic is unlocked.
    pub closed spec fn unit_testing_enabled(&self) -> bool {
        self.unit_testing
    }

    /// Whether the heap-size-accounting diagnostic is unlocked.
    pub closed spec fn heap_sizing_enabled(&self) -> bool {
        self.heap_sizing
    }

    /// Reads the payload-equality gate.
    pub fn is_unit_testing_enabled(&self) -> (r: bool)
        ensures
            r == self.unit_testing_enabled(),
    {
        self.unit_testing
    }

    /// Reads the heap-size-accounting gate.
    pub fn is_heap_sizing_enabled(&self) -> (r: bool)
        ensures
            r == self.heap_sizing_enabled(),
    {
        self.heap_sizing
    }

    /// A registry with both gates disabled.
    pub fn new() -> (gates: Self)
        ensures
            !gates.unit_testing_enabled(),
            !gates.heap_sizing_enabled(),
    {
        DebugGates { unit_testing: false, heap_sizing: false }
    }
}

impl Default for DebugGates {
    fn default() -> (gates: Self)
        ensures
            !gates.unit_testing_enabled(),
            !gates.heap_sizing_enabled(),
    {
        DebugGates::new()
    }
}

/// Setting this flag allows `StyleRefCell::debug_equality` to be used.
/// (It is only meant for unit testing.)
///
/// Doing so is safe when using `SingleThreadToken` is.
pub fn set_unit_testing_thread_local_flag(gates: &mut DebugGates, value: bool)
    ensures
        final(gates).unit_testing_enabled() == value,
        final(gates).heap_sizing_enabled() == old(gates).heap_sizing_enabled(),
{
    gates.unit_testing = value;
}

/// Setting this flag allows `StyleRefCell::heap_size_of_children` to be used.
///
/// Doing so is safe when using `SingleThreadToken` is.
pub fn set_heap_sizing_thread_local_flag(gates: &mut DebugGates, value: bool)
    ensures
        final(gates).heap_sizing_enabled() == value,
        final(gates).unit_testing_enabled() == old(gates).unit_testing_enabled(),
{
    gates.heap_sizing = value;
}

} // verus!
