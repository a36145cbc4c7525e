use style_ref_cell::DebugGates;
use style_ref_cell::ReadOnlyToken;
use style_ref_cell::SingleThreadToken;
use style_ref_cell::StyleRefCell;
use style_ref_cell::{set_heap_sizing_thread_local_flag, set_unit_testing_thread_local_flag};

#[test]
fn write_then_read_observes_write() {
    // An exclusive phase on one thread: a value stored under the mutable
    // guard is what a fresh immutable borrow observes.
    let token = SingleThreadToken::attest();
    let mut cell = StyleRefCell::new(10u64);
    let guard = cell.borrow_mut(&token);
    guard.set(&mut cell, 20u64);
    assert_eq!(*guard.get(&cell), 20u64);
    cell.release_mut(guard);
    let reader = cell.borrow(&token);
    assert_eq!(*reader.get(&cell), 20u64);
    cell.release_read(reader);
}

#[test]
fn second_mutable_borrow_is_a_conflict() {
    let token = SingleThreadToken::attest();
    let mut cell = StyleRefCell::new(1u64);
    let guard = cell.borrow_mut(&token);
    assert!(cell.try_borrow_mut(&token).is_none());
    cell.release_mut(guard);
    assert!(cell.try_borrow_mut(&token).is_some());
}

#[test]
fn immutable_borrow_conflicts_with_mutable_guard() {
    let token = SingleThreadToken::attest();
    let mut cell = StyleRefCell::new(1u64);
    let guard = cell.borrow_mut(&token);
    assert!(cell.try_borrow(&token).is_none());
    cell.release_mut(guard);
    let reader = cell.try_borrow(&token).unwrap();
    // The symmetric conflict: a mutable borrow while a reader is outstanding.
    assert!(cell.try_borrow_mut(&token).is_none());
    cell.release_read(reader);
    assert!(cell.try_borrow_mut(&token).is_some());
}

#[test]
fn many_immutable_borrows_coexist() {
    let token = SingleThreadToken::attest();
    let mut cell = StyleRefCell::new(7u64);
    let first = cell.borrow(&token);
    let second = cell.borrow(&token);
    let third = cell.borrow(&token);
    assert_eq!(*first.get(&cell), 7u64);
    assert_eq!(*second.get(&cell), 7u64);
    assert_eq!(*third.get(&cell), 7u64);
    cell.release_read(first);
    cell.release_read(second);
    // One reader is still outstanding: a mutable borrow stays a conflict.
    assert!(cell.try_borrow_mut(&token).is_none());
    cell.release_read(third);
    assert!(cell.try_borrow_mut(&token).is_some());
}

#[test]
fn read_only_references_observe_last_written_value() {
    // An exclusive phase writes; after it ends, read-only tokens (one per
    // simulated reader) all observe the last-written value.
    let mut cell = StyleRefCell::new(0u64);
    {
        let token = SingleThreadToken::attest();
        let guard = cell.borrow_mut(&token);
        guard.set(&mut cell, 42u64);
        cell.release_mut(guard);
    }
    let token_a = ReadOnlyToken::attest();
    let token_b = ReadOnlyToken::attest();
    let token_c = ReadOnlyToken::attest();
    let seen_a = *cell.borrow_read_only(&token_a);
    let seen_b = *cell.borrow_read_only(&token_b);
    let seen_c = *cell.borrow_read_only(&token_c);
    assert_eq!(seen_a, 42u64);
    assert_eq!(seen_b, 42u64);
    assert_eq!(seen_c, 42u64);
}

#[test]
fn read_only_reference_coexists_with_read_guards() {
    let token = SingleThreadToken::attest();
    let read_only = ReadOnlyToken::attest();
    let mut cell = StyleRefCell::new(5u64);
    let reader = cell.borrow(&token);
    assert_eq!(*cell.borrow_read_only(&read_only), 5u64);
    cell.release_read(reader);
}

#[test]
fn debug_equality_is_gated() {
    let mut gates = DebugGates::new();
    let equal_a = StyleRefCell::new(3u64);
    let equal_b = StyleRefCell::new(3u64);
    let different = StyleRefCell::new(4u64);
    // With the flag still off, no comparison is answered.
    assert_eq!(equal_a.try_debug_equality(&equal_b, &gates), None);
    set_unit_testing_thread_local_flag(&mut gates, true);
    assert_eq!(equal_a.try_debug_equality(&equal_b, &gates), Some(true));
    assert_eq!(equal_a.try_debug_equality(&different, &gates), Some(false));
    assert!(equal_a.debug_equality(&equal_b, &gates));
    assert!(!equal_a.debug_equality(&different, &gates));
    // Turning the flag back off locks the comparison once more.
    set_unit_testing_thread_local_flag(&mut gates, false);
    assert_eq!(equal_a.try_debug_equality(&equal_b, &gates), None);
}

#[test]
fn heap_size_accounting_is_gated() {
    let mut gates = DebugGates::new();
    let cell = StyleRefCell::new(9u64);
    assert_eq!(cell.try_heap_size_of_children(&gates), None);
    set_heap_sizing_thread_local_flag(&mut gates, true);
    // A plain integer owns nothing on the heap.
    assert_eq!(cell.try_heap_size_of_children(&gates), Some(0));
    assert_eq!(cell.heap_size_of_children(&gates), 0);
    set_heap_sizing_thread_local_flag(&mut gates, false);
    assert_eq!(cell.try_heap_size_of_children(&gates), None);
}

#[test]
fn heap_size_accounting_sees_heap_children() {
    let mut gates = DebugGates::new();
    set_heap_sizing_thread_local_flag(&mut gates, true);
    let cell = StyleRefCell::new(vec![0u8; 64]);
    // The payload owns a 64-byte heap buffer; the allocator reports at least
    // that much for it.
    assert!(cell.heap_size_of_children(&gates) >= 64);
}

#[test]
fn gate_flags_are_independent() {
    let mut gates = DebugGates::default();
    set_unit_testing_thread_local_flag(&mut gates, true);
    let cell = StyleRefCell::new(1u64);
    assert_eq!(cell.try_heap_size_of_children(&gates), None);
    assert!(gates.is_unit_testing_enabled());
    assert!(!gates.is_heap_sizing_enabled());
    set_heap_sizing_thread_local_flag(&mut gates, true);
    set_unit_testing_thread_local_flag(&mut gates, false);
    assert!(!gates.is_unit_testing_enabled());
    assert!(gates.is_heap_sizing_enabled());
}

#[test]
fn debug_print_is_one_fixed_label() {
    let token = SingleThreadToken::attest();
    let mut numbers = StyleRefCell::new(123u64);
    let words = StyleRefCell::new(String::from("anything at all"));
    // Different payload types and values, one label.
    assert_eq!(numbers.debug_print(), "StyleRefCell");
    assert_eq!(words.debug_print(), "StyleRefCell");
    assert_eq!(numbers.debug_print(), words.debug_print());
    // Rendering never takes a borrow: it also succeeds while a mutable guard
    // is outstanding on the cell.
    let guard = numbers.borrow_mut(&token);
    assert_eq!(numbers.debug_print(), "StyleRefCell");
    numbers.release_mut(guard);
}
