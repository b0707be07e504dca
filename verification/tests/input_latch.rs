use breakout::input::{DeviceTilt, KeyState, KeyType, OrientationType, TiltState};

#[test]
fn dispatch_is_invisible_until_begin_frame() {
    let mut keys = KeyState::new();
    keys.dispatch(KeyType::Left, true);
    assert!(!keys.held(KeyType::Left));
    keys.begin_frame();
    assert!(keys.held(KeyType::Left));
}

#[test]
fn begin_frame_latches_every_key_at_once() {
    let mut keys = KeyState::new();
    keys.dispatch(KeyType::Left, true);
    keys.dispatch(KeyType::S, true);
    keys.dispatch(KeyType::A, true);
    keys.dispatch(KeyType::A, false);
    keys.begin_frame();
    assert!(keys.held(KeyType::Left));
    assert!(keys.held(KeyType::S));
    assert!(!keys.held(KeyType::A));
    assert!(!keys.held(KeyType::Right));
    assert!(!keys.held(KeyType::Enter));
    assert!(!keys.held(KeyType::FullScreen));
    // A later write stays invisible to the same frame.
    keys.dispatch(KeyType::Right, true);
    assert!(!keys.held(KeyType::Right));
}

#[test]
fn edge_fires_on_the_transition_frame_only() {
    let mut keys = KeyState::new();
    keys.dispatch(KeyType::Enter, true);
    keys.begin_frame();
    assert!(keys.edge_pressed(KeyType::Enter));
    keys.commit_frame();
    // Still held on the next frame: no edge.
    keys.begin_frame();
    assert!(keys.held(KeyType::Enter));
    assert!(!keys.edge_pressed(KeyType::Enter));
    keys.commit_frame();
    // Released, then pressed again: a fresh edge.
    keys.dispatch(KeyType::Enter, false);
    keys.begin_frame();
    keys.commit_frame();
    keys.dispatch(KeyType::Enter, true);
    keys.begin_frame();
    assert!(keys.edge_pressed(KeyType::Enter));
}

#[test]
fn tilt_latch_holds_three_generations() {
    let mut tilt = TiltState::new();
    assert!(!tilt.active);
    assert!(tilt.orient == OrientationType::Unknown);
    tilt.active = true;
    tilt.live = DeviceTilt { abs: 1, alpha: 2, beta: 3, gamma: 4 };
    assert_eq!(tilt.current.beta, 0);
    tilt.begin_frame();
    assert_eq!(tilt.current.beta, 3);
    assert_eq!(tilt.previous.beta, 0);
    tilt.commit_frame();
    assert_eq!(tilt.previous.beta, 3);
}
