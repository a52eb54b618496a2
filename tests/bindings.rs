use dominator::bindings::{FlagBinding, OptionBinding, Update};

#[test]
fn optional_value_binding_sequence() {
    let mut b = OptionBinding::new();
    let mut calls = Vec::new();
    for v in [Some("a"), Some("a"), None, None, Some("b")] {
        if let Some(call) = b.update(v) {
            calls.push(call);
        }
    }
    assert_eq!(calls, vec![Update::Assign("a"), Update::Assign("a"), Update::Clear, Update::Assign("b")]);
}

#[test]
fn optional_value_binding_never_clears_unset() {
    let mut b = OptionBinding::new();
    assert_eq!(b.update::<String>(None), None);
    assert_eq!(b.update(Some("x".to_string())), Some(Update::Assign("x".to_string())));
    assert_eq!(b.update::<String>(None), Some(Update::Clear));
    assert_eq!(b.update::<String>(None), None);
}

#[test]
fn boolean_flag_binding_sequence() {
    let mut b = FlagBinding::new();
    let mut calls = Vec::new();
    for v in [false, false, true, true, false] {
        if let Some(call) = b.update(v) {
            calls.push(call);
        }
    }
    assert_eq!(calls, vec![true, false]);
}

#[test]
fn boolean_flag_binding_first_true_turns_on() {
    let mut b = FlagBinding::new();
    assert_eq!(b.update(true), Some(true));
    assert_eq!(b.update(true), None);
    assert_eq!(b.update(false), Some(false));
    assert_eq!(b.update(true), Some(true));
}
