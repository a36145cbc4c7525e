//! The shared mutable cell and its borrow guards.
//!
//! A cell holds exactly one payload value together with a reentrancy counter,
//! a single non-atomic integer.  The counter only ever reflects borrows taken
//! under an exclusive token from a single thread; the read-only-token path
//! bypasses it entirely.  A count of `u64::MAX` marks an outstanding mutable
//! borrow; any smaller count is the number of outstanding immutable borrows.
//!
//! Conflicting nested borrows (mutable overlapping anything, or immutable
//! overlapping mutable) are ruled out before the fact: the checked borrow
//! operations demand a conflict-free counter as a precondition, and the
//! `try_` forms report a conflict as `None` instead of a value.  Releasing a
//! guard hands it back to the cell, which decrements the counter.

use crate::gates::DebugGates;
use crate::token::ReadOnlyToken;
use crate::token::SingleThreadToken;
use vstd::prelude::*;
use vstd::std_specs::cmp::PartialEqSpec;
use vstd::string::StringExecFns;

verus! {

/// A shared mutable cell: one payload value and the reentrancy counter.
pub struct StyleRefCell<T> {
    value: T,
    borrows: u64,
}

/// Witness of an outstanding mutable borrow.
///
/// It grants access to the payload of the cell it was borrowed from, and must
/// be handed back to that same cell (and no other) via `release_mut`; the
/// cell cannot tell guards of distinct cells apart, any more than the tokens
/// can be checked against the phase they attest.
pub struct MutGuard {
    witness: (),
}

/// Witness of one outstanding immutable borrow, to be handed back via
/// `release_read` to the same cell it was borrowed from.
pub struct ReadGuard {
    witness: (),
}

impl<T> View for StyleRefCell<T> {
    type V = T;

    /// The payload the cell currently holds.
    closed spec fn view(&self) -> T {
        self.value
    }
}

impl<T> StyleRefCell<T> {
    /// Whether a mutable-borrow guard is outstanding.
    pub closed spec fn is_writing(&self) -> bool {
        self.borrows == u64::MAX
    }

    /// How many immutable-borrow guards are outstanding.
    pub closed spec fn reader_count(&self) -> u64 {
        if self.borrows == u64::MAX {
            0
        } else {
            self.borrows
        }
    }

    /// No guard of either kind is outstanding: the counter is at rest.
    pub open spec fn is_idle(&self) -> bool {
        !self.is_writing() && self.reader_count() == 0
    }

    /// A mutable borrow conflicts with every outstanding guard, so it may be
    /// taken only from an idle cell.
    pub open spec fn can_borrow_mut(&self) -> bool {
        self.is_idle()
    }

    /// An immutable borrow conflicts with an outstanding mutable guard only;
    /// further immutable guards are welcome while the counter has room.
    pub open spec fn can_borrow(&self) -> bool {
        !self.is_writing() && self.reader_count() < u64::MAX - 1
    }

    /// Whether a mutable-borrow guard is outstanding, as a runtime answer,
    /// for embedding code that must test a conflict before risking one.
    pub fn is_mutably_borrowed(&self) -> (r: bool)
        ensures
            r == self.is_writing(),
    {
        self.borrows == u64::MAX
    }

    /// A new cell owning `value`, with no borrow outstanding.
    pub fn new(value: T) -> (cell: Self)
        ensures
            cell@ == value,
            cell.is_idle(),
    {
        StyleRefCell { value, borrows: 0 }
    }

    /// Takes the mutable-borrow guard.  Conflicting reentrant borrows are
    /// excluded up front by the precondition; `try_borrow_mut` is the total
    /// form that reports a conflict instead.
    pub fn borrow_mut(&mut self, _token: &SingleThreadToken) -> (guard: MutGuard)
        requires
            old(self).can_borrow_mut(),
        ensures
            borrow_mut_step(*old(self), *final(self)),
    {
        self.borrows = u64::MAX;
        MutGuard { witness: () }
    }

    /// The total form of `borrow_mut`: hands out the guard exactly when no
    /// conflicting borrow is outstanding, and otherwise reports the conflict
    /// as `None` and leaves the cell untouched.
    pub fn try_borrow_mut(&mut self, _token: &SingleThreadToken) -> (guard: Option<MutGuard>)
        ensures
            guard is Some <==> old(self).can_borrow_mut(),
            guard is Some ==> borrow_mut_step(*old(self), *final(self)),
            guard is None ==> *final(self) == *old(self),
    {
        if self.borrows == 0 {
            self.borrows = u64::MAX;
            Some(MutGuard { witness: () })
        } else {
            None
        }
    }

    /// Takes one immutable-borrow guard.  An outstanding mutable guard is a
    /// conflict, excluded up front; `try_borrow` is the total form.
    pub fn borrow(&mut self, _token: &SingleThreadToken) -> (guard: ReadGuard)
        requires
            old(self).can_borrow(),
        ensures
            borrow_step(*old(self), *final(self)),
    {
        self.borrows = self.borrows + 1;
        ReadGuard { witness: () }
    }

    /// The total form of `borrow`: hands out a guard exactly when no mutable
    /// guard is outstanding (and the counter has room), and otherwise reports
    /// the conflict as `None` and leaves the cell untouched.
    pub fn try_borrow(&mut self, _token: &SingleThreadToken) -> (guard: Option<ReadGuard>)
        ensures
            guard is Some <==> old(self).can_borrow(),
            guard is Some ==> borrow_step(*old(self), *final(self)),
            guard is None ==> *final(self) == *old(self),
    {
        if self.borrows < u64::MAX - 1 {
            self.borrows = self.borrows + 1;
            Some(ReadGuard { witness: () })
        } else {
            None
        }
    }

    /// Releases the mutable-borrow guard, resetting the counter.
    pub fn release_mut(&mut self, guard: MutGuard)
        requires
            old(self).is_writing(),
        ensures
            release_mut_step(*old(self), *final(self)),
    {
        let MutGuard { witness: _ } = guard;
        self.borrows = 0;
    }

    /// Releases one immutable-borrow guard, decrementing the counter.
    pub fn release_read(&mut self, guard: ReadGuard)
        requires
            !old(self).is_writing(),
            old(self).reader_count() > 0,
        ensures
            release_read_step(*old(self), *final(self)),
    {
        let ReadGuard { witness: _ } = guard;
        self.borrows = self.borrows - 1;
    }

    /// A direct immutable reference into the payload, gated by the read-only
    /// token and bypassing the counter entirely.  The precondition restates
    /// what the token already attests: no mutable borrow is outstanding.
    pub fn borrow_read_only(&self, _token: &ReadOnlyToken) -> (r: &T)
        requires
            !self.is_writing(),
        ensures
            *r == self@,
    {
        &self.value
    }
}

impl MutGuard {
    /// Stores `value` as the payload of the cell this guard was borrowed
    /// from.
    pub fn set<T>(&self, cell: &mut StyleRefCell<T>, value: T)
        requires
            old(cell).is_writing(),
        ensures
            set_step(*old(cell), *final(cell), value),
    {
        cell.value = value;
    }

    /// Reads the payload of the cell this guard was borrowed from.
    pub fn get<'a, T>(&self, cell: &'a StyleRefCell<T>) -> (r: &'a T)
        requires
            cell.is_writing(),
        ensures
            *r == cell@,
    {
        &cell.value
    }
}

impl ReadGuard {
    /// Reads the payload of the cell this guard was borrowed from.
    pub fn get<'a, T>(&self, cell: &'a StyleRefCell<T>) -> (r: &'a T)
        requires
            !cell.is_writing(),
            cell.reader_count() > 0,
        ensures
            *r == cell@,
    {
        &cell.value
    }
}

impl<T> StyleRefCell<T> {
    /// Renders the fixed diagnostic label.  It never touches the payload and
    /// has no precondition, so diagnostic formatting of a structure holding
    /// cells never itself takes a borrow, even while a mutable guard is
    /// outstanding.
    pub fn debug_print(&self) -> (label: String)
        ensures
            label@ == "StyleRefCell"@,
    {
        String::from_str("StyleRefCell")
    }
}

impl<T: PartialEq> StyleRefCell<T> {
    /// Compares the payloads of two cells, momentarily borrowing both.  A
    /// diagnostic-only operation: the payload-equality gate must have been
    /// enabled, and no mutable guard may be outstanding on either cell.
    /// `try_debug_equality` is the total form that reports a closed gate.
    pub fn debug_equality(&self, other: &Self, gates: &DebugGates) -> (r: bool)
        requires
            gates.unit_testing_enabled(),
            !self.is_writing(),
            !other.is_writing(),
        ensures
            T::obeys_eq_spec() ==> r == self@.eq_spec(&other@),
    {
        self.value == other.value
    }

    /// The total form of `debug_equality`: compares the payloads exactly when
    /// the payload-equality gate is enabled, and otherwise reports the closed
    /// gate as `None`.
    pub fn try_debug_equality(&self, other: &Self, gates: &DebugGates) -> (r: Option<bool>)
        requires
            !self.is_writing(),
            !other.is_writing(),
        ensures
            r is Some <==> gates.unit_testing_enabled(),
            gates.unit_testing_enabled() && T::obeys_eq_spec() ==> r == Some(
                self@.eq_spec(&other@),
            ),
    {
        if gates.is_unit_testing_enabled() {
            Some(self.debug_equality(other, gates))
        } else {
            None
        }
    }
}

/// Relies on heapsize::HeapSizeOf::heap_size_of_children: it measures the
/// heap-allocated structures hanging off the value by asking the allocator
/// for its block sizes, so nothing can be promised of the number it returns.
#[verifier::external_body]
fn payload_heap_size<T: heapsize::HeapSizeOf>(value: &T) -> usize {
    value.heap_size_of_children()
}

impl<T: heapsize::HeapSizeOf> StyleRefCell<T> {
    /// Measures the heap size of the payload's children, momentarily
    /// borrowing the payload.  A diagnostic-only operation: the heap-size-
    /// accounting gate must have been enabled, and no mutable guard may be
    /// outstanding.  `try_heap_size_of_children` is the total form.  The
    /// number comes from the allocator, so no more is stated of it.
    pub fn heap_size_of_children(&self, gates: &DebugGates) -> usize
        requires
            gates.heap_sizing_enabled(),
            !self.is_writing(),
    {
        payload_heap_size(&self.value)
    }

    /// The total form of `heap_size_of_children`: measures the payload's
    /// children exactly when the heap-size-accounting gate is enabled, and
    /// otherwise reports the closed gate as `None`.
    pub fn try_heap_size_of_children(&self, gates: &DebugGates) -> (r: Option<usize>)
        requires
            !self.is_writing(),
        ensures
            r is Some <==> gates.heap_sizing_enabled(),
    {
        if gates.is_heap_sizing_enabled() {
            Some(self.heap_size_of_children(gates))
        } else {
            None
        }
    }
}

/// What taking the mutable-borrow guard does to a cell.
pub open spec fn borrow_mut_step<T>(pre: StyleRefCell<T>, post: StyleRefCell<T>) -> bool {
    &&& pre.can_borrow_mut()
    &&& post.is_writing()
    &&& post@ == pre@
}

/// What taking one immutable-borrow guard does to a cell.
pub open spec fn borrow_step<T>(pre: StyleRefCell<T>, post: StyleRefCell<T>) -> bool {
    &&& pre.can_borrow()
    &&& !post.is_writing()
    &&& post.reader_count() == pre.reader_count() + 1
    &&& post@ == pre@
}

/// What storing `value` under an outstanding mutable guard does to a cell.
pub open spec fn set_step<T>(pre: StyleRefCell<T>, post: StyleRefCell<T>, value: T) -> bool {
    &&& pre.is_writing()
    &&& post.is_writing()
    &&& post@ == value
}

/// What releasing the mutable-borrow guard does to a cell.
pub open spec fn release_mut_step<T>(pre: StyleRefCell<T>, post: StyleRefCell<T>) -> bool {
    &&& pre.is_writing()
    &&& post.is_idle()
    &&& post@ == pre@
}

/// What releasing one immutable-borrow guard does to a cell.
pub open spec fn release_read_step<T>(pre: StyleRefCell<T>, post: StyleRefCell<T>) -> bool {
    &&& !pre.is_writing()
    &&& pre.reader_count() > 0
    &&& !post.is_writing()
    &&& post.reader_count() == pre.reader_count() - 1
    &&& post@ == pre@
}

/// Law: while the mutable-borrow guard is outstanding, taking a second
/// mutable borrow, or an immutable borrow, is a conflict: the cell admits
/// neither, and the `try_` borrow forms return `None`.
pub proof fn lemma_mutable_guard_excludes_borrows<T>(cell: StyleRefCell<T>)
    requires
        cell.is_writing(),
    ensures
        !cell.can_borrow_mut(),
        !cell.can_borrow(),
{
}

/// Law: while at least one immutable-borrow guard is outstanding, taking a
/// mutable borrow is a conflict: the cell does not admit it, and
/// `try_borrow_mut` returns `None`.
pub proof fn lemma_read_guards_exclude_mutable_borrow<T>(cell: StyleRefCell<T>)
    requires
        !cell.is_writing(),
        cell.reader_count() > 0,
    ensures
        !cell.can_borrow_mut(),
{
}

/// Law: sequential consistency on one thread.  For any payload, taking the
/// mutable-borrow guard, storing `value` through it, releasing it, and taking
/// a fresh immutable-borrow guard leaves the cell holding `value`, which is
/// therefore what `ReadGuard::get` observes.
pub proof fn lemma_write_then_read_observes_write<T>(
    c0: StyleRefCell<T>,
    c1: StyleRefCell<T>,
    c2: StyleRefCell<T>,
    c3: StyleRefCell<T>,
    c4: StyleRefCell<T>,
    value: T,
)
    requires
        borrow_mut_step(c0, c1),
        set_step(c1, c2, value),
        release_mut_step(c2, c3),
        borrow_step(c3, c4),
    ensures
        c4@ == value,
        !c4.is_writing(),
{
}

/// Law: once the exclusive phase is over (the mutable guard that stored the
/// last value has been released), no mutable borrow is outstanding, so
/// `borrow_read_only` is admitted for any number of readers, and each
/// observes that last-written value, the cell's payload.
pub proof fn lemma_shared_readers_observe_last_write<T>(
    c1: StyleRefCell<T>,
    c2: StyleRefCell<T>,
    c3: StyleRefCell<T>,
    value: T,
)
    requires
        set_step(c1, c2, value),
        release_mut_step(c2, c3),
    ensures
        !c3.is_writing(),
        c3@ == value,
{
}

/// Law: the diagnostic label is one fixed word.  Whatever payloads two cells
/// hold, and whatever their borrow states (`debug_print` has no precondition
/// and names neither), any labels `debug_print` can render for them are
/// identical.
pub proof fn lemma_debug_print_is_payload_independent<T>(
    cell_a: StyleRefCell<T>,
    cell_b: StyleRefCell<T>,
    label_a: String,
    label_b: String,
)
    requires
        call_ensures(StyleRefCell::<T>::debug_print, (&cell_a,), label_a),
        call_ensures(StyleRefCell::<T>::debug_print, (&cell_b,), label_b),
    ensures
        label_a@ == label_b@,
{
}

} // verus!
