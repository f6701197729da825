//! Scenario tests for the transfer protocol on concrete states.

use mlua_tree_sitter::errors::TypeMismatch;
use mlua_tree_sitter::handle::{HandleState, Owner};
use mlua_tree_sitter::protocol::{Boundary, NodePos, ScriptValue};

const CODE: &[u8] = b"\n          def double(x):\n              return x * 2\n        ";

#[test]
fn round_trip_recovers_source_and_structure() {
    let mut b = Boundary::new();
    let h = b.new_tree();
    let v = b.to_script(h, CODE);
    assert_eq!(b.handle_state(h), HandleState::Owned(Owner::Script));
    let back = b.from_script_tree(&v).unwrap();
    assert_eq!(back.src, CODE.to_vec());
    assert_eq!(b.handle_state(back.handle), HandleState::Owned(Owner::Host));
    assert_eq!(b.handle_structure(back.handle), b.handle_structure(h));
    // The original handle stays with the script-side wrapper.
    assert_eq!(b.handle_state(h), HandleState::Owned(Owner::Script));
    assert_ne!(back.handle, h);
}

#[test]
fn outbound_value_names_the_new_wrapper() {
    let mut b = Boundary::new();
    let h = b.new_tree();
    assert_eq!(b.wrapper_count(), 0);
    let v = b.to_script(h, CODE);
    assert_eq!(b.wrapper_count(), 1);
    match v {
        ScriptValue::TreeWrapper(w) => assert_eq!(w, 0),
        _ => panic!("outbound transfer must return a tree wrapper"),
    }
}

#[test]
fn registration_is_idempotent() {
    let mut b = Boundary::new();
    assert!(!b.is_module_loaded());
    b.open_module();
    assert!(b.is_module_loaded());
    let handles = b.handle_count();
    let wrappers = b.wrapper_count();
    b.open_module();
    assert!(b.is_module_loaded());
    assert_eq!(b.handle_count(), handles);
    assert_eq!(b.wrapper_count(), wrappers);
}

#[test]
fn plain_values_are_rejected() {
    let mut b = Boundary::new();
    assert_eq!(b.from_script_tree(&ScriptValue::Integer(7)).unwrap_err(), TypeMismatch);
    assert_eq!(b.from_script_tree(&ScriptValue::Nil).unwrap_err(), TypeMismatch);
    assert_eq!(b.from_script_tree(&ScriptValue::Boolean(true)).unwrap_err(), TypeMismatch);
    assert_eq!(
        b.from_script_tree(&ScriptValue::Bytes(CODE.to_vec())).unwrap_err(),
        TypeMismatch,
    );
    assert_eq!(b.from_script_node(&ScriptValue::Integer(7)).unwrap_err(), TypeMismatch);
    assert_eq!(b.from_script_node(&ScriptValue::Nil).unwrap_err(), TypeMismatch);
}

#[test]
fn wrong_reference_kind_is_rejected() {
    let mut b = Boundary::new();
    let h = b.new_tree();
    let v = b.to_script(h, CODE);
    // A tree wrapper is not a node reference, and the other way round.
    assert_eq!(b.from_script_node(&v).unwrap_err(), TypeMismatch);
    let node = ScriptValue::NodeRef(NodePos { wrapper: 0, byte_offset: 0 });
    assert_eq!(b.from_script_tree(&node).unwrap_err(), TypeMismatch);
}

#[test]
fn check_tree_arg_identifies_live_wrappers() {
    let mut b = Boundary::new();
    let h = b.new_tree();
    let v = b.to_script(h, CODE);
    assert_eq!(b.check_tree_arg(&v).unwrap(), 0);
    assert_eq!(b.check_tree_arg(&ScriptValue::Integer(3)).unwrap_err(), TypeMismatch);
    b.collect(0);
    assert_eq!(b.check_tree_arg(&v).unwrap_err(), TypeMismatch);
}

#[test]
fn node_reference_round_trips_unchanged() {
    let mut b = Boundary::new();
    let h = b.new_tree();
    let _v = b.to_script(h, CODE);
    let pos = NodePos { wrapper: 0, byte_offset: 11 };
    let got = b.from_script_node(&ScriptValue::NodeRef(pos)).unwrap();
    assert_eq!(got, pos);
    // No ownership changed hands.
    assert_eq!(b.handle_state(h), HandleState::Owned(Owner::Script));
}

#[test]
fn stale_wrapper_is_rejected_after_collection() {
    let mut b = Boundary::new();
    let h = b.new_tree();
    let v = b.to_script(h, CODE);
    b.collect(0);
    // The wrapper's handle was released by its finalizer, exactly once.
    assert_eq!(b.handle_state(h), HandleState::Freed);
    // A stale reference no longer reaches any tree.
    assert_eq!(b.from_script_tree(&v).unwrap_err(), TypeMismatch);
    assert_eq!(
        b.from_script_node(&ScriptValue::NodeRef(NodePos { wrapper: 0, byte_offset: 0 }))
            .unwrap_err(),
        TypeMismatch,
    );
}

#[test]
fn host_frees_only_what_it_still_owns() {
    let mut b = Boundary::new();
    let h = b.new_tree();
    assert_eq!(b.handle_state(h), HandleState::Owned(Owner::Host));
    b.host_free(h);
    assert_eq!(b.handle_state(h), HandleState::Freed);
    // A transferred handle is script-owned, not host-owned: `host_free`
    // is enabled for host-owned handles only.
    let h2 = b.new_tree();
    let _v = b.to_script(h2, CODE);
    assert_eq!(b.handle_state(h2), HandleState::Owned(Owner::Script));
}

#[test]
fn duplicates_are_independent_handles() {
    let mut b = Boundary::new();
    let h = b.new_tree();
    let v = b.to_script(h, CODE);
    let first = b.from_script_tree(&v).unwrap();
    let second = b.from_script_tree(&v).unwrap();
    assert_ne!(first.handle, second.handle);
    assert_eq!(b.handle_structure(first.handle), b.handle_structure(second.handle));
    // Freeing one duplicate leaves the other and the wrapper untouched.
    b.host_free(first.handle);
    assert_eq!(b.handle_state(first.handle), HandleState::Freed);
    assert_eq!(b.handle_state(second.handle), HandleState::Owned(Owner::Host));
    assert_eq!(b.handle_state(h), HandleState::Owned(Owner::Script));
}
