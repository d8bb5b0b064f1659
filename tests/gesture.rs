use cmdcc::gesture::{GestureState, KeyAction, KeyEvent, KeyKind};

fn press(key: KeyKind, time_ms: u64) -> KeyEvent {
    KeyEvent { action: KeyAction::Press, key, time_ms }
}

fn release(key: KeyKind, time_ms: u64) -> KeyEvent {
    KeyEvent { action: KeyAction::Release, key, time_ms }
}

fn feed(state: &mut GestureState, events: &[KeyEvent]) -> Vec<bool> {
    events.iter().map(|e| state.on_key_event(*e)).collect()
}

#[test]
fn single_press_with_modifier_does_not_fire() {
    let mut s = GestureState::new();
    let fired = feed(&mut s, &[press(KeyKind::Modifier, 0), press(KeyKind::Letter, 10)]);
    assert_eq!(fired, vec![false, false]);
    assert_eq!(s.last_press_ms, Some(10));
    assert!(s.modifier_held);
}

#[test]
fn double_press_within_window_fires_once() {
    let mut s = GestureState::new();
    let fired = feed(
        &mut s,
        &[press(KeyKind::Modifier, 0), press(KeyKind::Letter, 100), press(KeyKind::Letter, 400)],
    );
    assert_eq!(fired, vec![false, false, true]);
    assert_eq!(s.last_press_ms, None);
}

#[test]
fn third_rapid_press_does_not_refire() {
    let mut s = GestureState::new();
    let fired = feed(
        &mut s,
        &[
            press(KeyKind::Modifier, 0),
            press(KeyKind::Letter, 100),
            press(KeyKind::Letter, 200),
            press(KeyKind::Letter, 300),
            press(KeyKind::Letter, 850),
            press(KeyKind::Letter, 900),
            press(KeyKind::Letter, 1600),
            press(KeyKind::Letter, 1700),
        ],
    );
    assert_eq!(fired, vec![false, false, true, false, true, false, false, true]);
}

#[test]
fn window_boundary_is_inclusive() {
    let mut s = GestureState::new();
    let fired = feed(
        &mut s,
        &[press(KeyKind::Modifier, 0), press(KeyKind::Letter, 1000), press(KeyKind::Letter, 1600)],
    );
    assert_eq!(fired, vec![false, false, true]);
}

#[test]
fn presses_too_far_apart_rearm_instead() {
    let mut s = GestureState::new();
    let fired = feed(
        &mut s,
        &[
            press(KeyKind::Modifier, 0),
            press(KeyKind::Letter, 1000),
            press(KeyKind::Letter, 1601),
            press(KeyKind::Letter, 1700),
        ],
    );
    assert_eq!(fired, vec![false, false, false, true]);
}

#[test]
fn release_between_presses_blocks_firing() {
    let mut s = GestureState::new();
    let fired = feed(
        &mut s,
        &[
            press(KeyKind::Modifier, 0),
            press(KeyKind::Letter, 100),
            release(KeyKind::Modifier, 150),
            press(KeyKind::Letter, 200),
        ],
    );
    assert_eq!(fired, vec![false, false, false, false]);
    assert!(!s.modifier_held);
    assert_eq!(s.last_press_ms, Some(100));
}

#[test]
fn press_without_modifier_is_ignored() {
    let mut s = GestureState::new();
    let fired = feed(&mut s, &[press(KeyKind::Letter, 5), press(KeyKind::Letter, 10)]);
    assert_eq!(fired, vec![false, false]);
    assert_eq!(s, GestureState::new());
}

#[test]
fn other_keys_and_letter_release_are_no_ops() {
    let mut s = GestureState::new();
    let fired = feed(
        &mut s,
        &[
            press(KeyKind::Modifier, 0),
            press(KeyKind::Letter, 100),
            press(KeyKind::Other, 120),
            release(KeyKind::Letter, 130),
            release(KeyKind::Other, 140),
            press(KeyKind::Letter, 200),
        ],
    );
    assert_eq!(fired, vec![false, false, false, false, false, true]);
}

#[test]
fn clock_going_backwards_counts_as_no_time() {
    let mut s = GestureState::new();
    let fired = feed(
        &mut s,
        &[press(KeyKind::Modifier, 0), press(KeyKind::Letter, 5000), press(KeyKind::Letter, 10)],
    );
    assert_eq!(fired, vec![false, false, true]);
}
