use rui::state_store::{Runtime, StateHandle, StateHolder};

#[test]
fn state_handle() {
    let mut runtime = Runtime::new();
    let handle = StateHandle::new(&mut runtime, 0, 42);

    let value = handle.value(&runtime);
    assert_eq!(*value, 42);
}

#[test]
fn writes_under_other_ids_leave_a_value_alone() {
    let mut runtime = Runtime::new();
    let a = StateHandle::new(&mut runtime, 1, "one");
    let b = StateHandle::new(&mut runtime, 2, "two");
    assert_eq!(*a.value(&runtime), "one");
    assert_eq!(*b.value(&runtime), "two");
    let a2 = StateHandle::new(&mut runtime, 1, "uno");
    assert_eq!(*a2.value(&runtime), "uno");
    assert_eq!(*b.value(&runtime), "two");
}

#[test]
fn new_holder_is_clean() {
    let h = StateHolder::new(7u8);
    assert_eq!(h.value, 7);
    assert!(!h.dirty);
}
