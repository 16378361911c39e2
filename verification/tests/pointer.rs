use paint::pointer_state::PointerState;

#[test]
fn pointer_starts_released() {
    let state = PointerState::new();
    assert!(!state.pressed());
}

#[test]
fn pointer_follows_set_pressed() {
    let mut state = PointerState::new();
    state.set_pressed(true);
    assert!(state.pressed());
    state.set_pressed(true);
    assert!(state.pressed());
    state.set_pressed(false);
    assert!(!state.pressed());
    state.set_pressed(false);
    assert!(!state.pressed());
}
