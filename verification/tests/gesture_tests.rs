use air_keys::gesture::{
    classify_hook_event, GestureDetector, KeyEdge, KeyResponse, KeyTransition, MSG_KEY_DOWN,
    MSG_SYS_KEY_DOWN, VK_ALT, VK_ALT_LEFT, VK_ALT_RIGHT,
};

fn alt_down(time_ms: u64) -> KeyTransition {
    KeyTransition { is_alt: true, edge: KeyEdge::Down, time_ms }
}

fn alt_up(time_ms: u64) -> KeyTransition {
    KeyTransition { is_alt: true, edge: KeyEdge::Up, time_ms }
}

fn other_key(time_ms: u64) -> KeyTransition {
    KeyTransition { is_alt: false, edge: KeyEdge::Down, time_ms }
}

#[test]
fn fresh_press_arms_timer_with_bumped_token() {
    let mut d = GestureDetector::new();
    assert_eq!(
        d.on_key_transition(alt_down(100)),
        KeyResponse::ArmHoldTimer { seq: 1 }
    );
    assert_eq!(d.on_key_transition(alt_up(150)), KeyResponse::Quiet);
    assert_eq!(
        d.on_key_transition(alt_down(1000)),
        KeyResponse::ArmHoldTimer { seq: 2 }
    );
}

#[test]
fn isolated_taps_never_confirm() {
    // Gaps above 400 ms between every release and the next press.
    let mut d = GestureDetector::new();
    let mut t = 0u64;
    for _ in 0..5 {
        assert!(matches!(
            d.on_key_transition(alt_down(t)),
            KeyResponse::ArmHoldTimer { .. }
        ));
        assert_eq!(d.on_key_transition(alt_up(t + 50)), KeyResponse::Quiet);
        t += 50 + 401;
    }
}

#[test]
fn double_tap_confirms_exactly_once() {
    let mut d = GestureDetector::new();
    let mut taps = 0;
    for r in [
        d.on_key_transition(alt_down(0)),
        d.on_key_transition(alt_up(100)),
        d.on_key_transition(alt_down(300)),
        d.on_key_transition(alt_up(500)), // 400 ms after the first release
    ] {
        if r == KeyResponse::TapConfirmed {
            taps += 1;
        }
    }
    assert_eq!(taps, 1);
}

#[test]
fn third_tap_starts_a_fresh_window() {
    let mut d = GestureDetector::new();
    d.on_key_transition(alt_down(0));
    d.on_key_transition(alt_up(100));
    d.on_key_transition(alt_down(200));
    assert_eq!(d.on_key_transition(alt_up(300)), KeyResponse::TapConfirmed);
    // The pair was consumed: a third release close behind confirms nothing.
    d.on_key_transition(alt_down(400));
    assert_eq!(d.on_key_transition(alt_up(500)), KeyResponse::Quiet);
}

#[test]
fn late_second_release_confirms_nothing() {
    let mut d = GestureDetector::new();
    d.on_key_transition(alt_down(0));
    d.on_key_transition(alt_up(100));
    d.on_key_transition(alt_down(200));
    // 401 ms after the first release: one past the window.
    assert_eq!(d.on_key_transition(alt_up(501)), KeyResponse::Quiet);
}

#[test]
fn foreign_key_between_releases_suppresses_tap() {
    let mut d = GestureDetector::new();
    d.on_key_transition(alt_down(0));
    d.on_key_transition(alt_up(100));
    assert_eq!(d.on_key_transition(other_key(150)), KeyResponse::Quiet);
    d.on_key_transition(alt_down(200));
    assert_eq!(d.on_key_transition(alt_up(300)), KeyResponse::Quiet);
}

#[test]
fn foreign_key_during_second_press_suppresses_tap() {
    let mut d = GestureDetector::new();
    d.on_key_transition(alt_down(0));
    d.on_key_transition(alt_up(100));
    d.on_key_transition(alt_down(200));
    d.on_key_transition(other_key(250));
    assert_eq!(d.on_key_transition(alt_up(300)), KeyResponse::Quiet);
}

#[test]
fn held_press_cancels_once_and_release_is_silent() {
    let mut d = GestureDetector::new();
    let seq = match d.on_key_transition(alt_down(0)) {
        KeyResponse::ArmHoldTimer { seq } => seq,
        r => panic!("expected an armed timer, got {:?}", r),
    };
    // The timer elapses while Alt is still held: the hold cancel fires.
    assert!(d.on_hold_timer(seq));
    // The trailing release produces no further gesture.
    assert_eq!(d.on_key_transition(alt_up(600)), KeyResponse::Quiet);
    // And a release soon after a cancelled hold is no half of a tap pair.
    d.on_key_transition(alt_down(700));
    assert_eq!(d.on_key_transition(alt_up(800)), KeyResponse::Quiet);
}

#[test]
fn released_before_timer_elapses_means_no_cancel() {
    let mut d = GestureDetector::new();
    let seq = match d.on_key_transition(alt_down(0)) {
        KeyResponse::ArmHoldTimer { seq } => seq,
        r => panic!("expected an armed timer, got {:?}", r),
    };
    d.on_key_transition(alt_up(100));
    assert!(!d.on_hold_timer(seq));
}

#[test]
fn repressed_key_makes_pending_timer_stale() {
    let mut d = GestureDetector::new();
    let first = match d.on_key_transition(alt_down(0)) {
        KeyResponse::ArmHoldTimer { seq } => seq,
        r => panic!("expected an armed timer, got {:?}", r),
    };
    d.on_key_transition(alt_up(100));
    let second = match d.on_key_transition(alt_down(200)) {
        KeyResponse::ArmHoldTimer { seq } => seq,
        r => panic!("expected an armed timer, got {:?}", r),
    };
    assert_ne!(first, second);
    // The first press's timer elapses during the second press: stale.
    assert!(!d.on_hold_timer(first));
    // The second press's own timer is still current.
    assert!(d.on_hold_timer(second));
}

#[test]
fn auto_repeat_downs_are_ignored() {
    let mut d = GestureDetector::new();
    assert_eq!(
        d.on_key_transition(alt_down(0)),
        KeyResponse::ArmHoldTimer { seq: 1 }
    );
    // OS key repeat: no new timer, no token bump.
    for t in [30u64, 60, 90, 120] {
        assert_eq!(d.on_key_transition(alt_down(t)), KeyResponse::Quiet);
    }
    // The originally armed timer is still the current one.
    assert!(d.on_hold_timer(1));
}

#[test]
fn classify_recognises_alt_keys_and_edges() {
    for vk in [VK_ALT, VK_ALT_LEFT, VK_ALT_RIGHT] {
        let t = classify_hook_event(vk, MSG_KEY_DOWN, 5);
        assert!(t.is_alt);
        assert_eq!(t.edge, KeyEdge::Down);
        assert_eq!(t.time_ms, 5);
    }
    let t = classify_hook_event(VK_ALT, MSG_SYS_KEY_DOWN, 6);
    assert!(t.is_alt);
    assert_eq!(t.edge, KeyEdge::Down);
    // Any other keyboard message is a release.
    let t = classify_hook_event(VK_ALT_LEFT, 0x101, 7);
    assert!(t.is_alt);
    assert_eq!(t.edge, KeyEdge::Up);
    // A letter key is not Alt.
    let t = classify_hook_event(0x41, MSG_KEY_DOWN, 8);
    assert!(!t.is_alt);
}
