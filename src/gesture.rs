use vstd::prelude::*;

verus! {

/// Longest gap, in milliseconds, between two presses that still form a double press.
pub const DOUBLE_PRESS_WINDOW_MS: u64 = 600;

/// The keys the detector tells apart.
#[derive(Clone, Copy, Debug, PartialEq, Eq, Structural)]
pub enum KeyKind {
    /// The modifier that must be held (either Control key).
    Modifier,
    /// The letter key that is pressed twice.
    Letter,
    /// Any other key.
    Other,
}

/// Whether a key went down or came up.
#[derive(Clone, Copy, Debug, PartialEq, Eq, Structural)]
pub enum KeyAction {
    Press,
    Release,
}

/// One key transition, with its arrival time in milliseconds on a monotonic clock.
#[derive(Clone, Copy, Debug, PartialEq, Eq, Structural)]
pub struct KeyEvent {
    pub action: KeyAction,
    pub key: KeyKind,
    pub time_ms: u64,
}

/// The detector's state: whether the modifier is down, and the time of the last
/// press of the letter that still waits for its partner.
#[derive(Clone, Copy, Debug, PartialEq, Eq, Structural)]
pub struct GestureState {
    pub modifier_held: bool,
    pub last_press_ms: Option<u64>,
}

/// A press that counts towards a double press at time `now`, given one at `prev`.
/// A clock that went backwards counts as no time elapsed.
pub open spec fn within_window(prev: u64, now: u64) -> bool {
    now as int - prev as int <= DOUBLE_PRESS_WINDOW_MS as int
}

/// One transition of the detector: the next state, and whether the gesture fired.
pub open spec fn step(s: GestureState, e: KeyEvent) -> (GestureState, bool) {
    match (e.action, e.key) {
        (KeyAction::Press, KeyKind::Modifier) => (GestureState { modifier_held: true, ..s }, false),
        (KeyAction::Release, KeyKind::Modifier) => (
            GestureState { modifier_held: false, ..s },
            false,
        ),
        (KeyAction::Press, KeyKind::Letter) => {
            if !s.modifier_held {
                (s, false)
            } else {
                match s.last_press_ms {
                    Some(prev) if within_window(prev, e.time_ms) => (
                        GestureState { last_press_ms: None, ..s },
                        true,
                    ),
                    _ => (GestureState { last_press_ms: Some(e.time_ms), ..s }, false),
                }
            }
        },
        _ => (s, false),
    }
}

/// Feeds `events` in order from state `s`: the final state and how many times
/// the gesture fired.
pub open spec fn run(s: GestureState, events: Seq<KeyEvent>) -> (GestureState, nat)
    decreases events.len(),
{
    if events.len() == 0 {
        (s, 0)
    } else {
        let (s1, fired) = step(s, events[0]);
        let (s2, n) = run(s1, events.drop_first());
        (s2, if fired { n + 1 } else { n })
    }
}

pub open spec fn is_letter_press(e: KeyEvent) -> bool {
    e.action == KeyAction::Press && e.key == KeyKind::Letter
}

/// How many presses of the letter `events` holds.
pub open spec fn letter_presses(events: Seq<KeyEvent>) -> nat
    decreases events.len(),
{
    if events.len() == 0 {
        0
    } else {
        letter_presses(events.drop_first()) + if is_letter_press(events[0]) {
            1nat
        } else {
            0nat
        }
    }
}

impl GestureState {
    /// The state at start-up: modifier up, no press pending.
    pub fn new() -> (r: GestureState)
        ensures
            !r.modifier_held,
            r.last_press_ms is None,
    {
        GestureState { modifier_held: false, last_press_ms: None }
    }

    /// Feeds one key transition to the detector; returns whether the double
    /// press fired on it.
    pub fn on_key_event(&mut self, e: KeyEvent) -> (fired: bool)
        ensures
            (*final(self), fired) == step(*old(self), e),
    {
        match (e.action, e.key) {
            (KeyAction::Press, KeyKind::Modifier) => {
                self.modifier_held = true;
                false
            },
            (KeyAction::Release, KeyKind::Modifier) => {
                self.modifier_held = false;
                false
            },
            (KeyAction::Press, KeyKind::Letter) => {
                if !self.modifier_held {
                    return false;
                }
                if let Some(prev) = self.last_press_ms {
                    if e.time_ms <= prev || e.time_ms - prev <= DOUBLE_PRESS_WINDOW_MS {
                        self.last_press_ms = None;
                        return true;
                    }
                }
                self.last_press_ms = Some(e.time_ms);
                false
            },
            _ => false,
        }
    }
}

/// From any state, events that hold no press of the letter never fire the gesture
/// and leave the pending press as it was.
pub proof fn lemma_no_letter_press_no_fire(s: GestureState, events: Seq<KeyEvent>)
    requires
        letter_presses(events) == 0,
    ensures
        run(s, events).1 == 0,
        run(s, events).0.last_press_ms == s.last_press_ms,
    decreases events.len(),
{
    if events.len() > 0 {
        lemma_no_letter_press_no_fire(step(s, events[0]).0, events.drop_first());
    }
}

/// With no press pending, a sequence of events that holds at most one press of
/// the letter never fires the gesture, whatever else it holds.
pub proof fn lemma_single_press_never_fires(s: GestureState, events: Seq<KeyEvent>)
    requires
        s.last_press_ms is None,
        letter_presses(events) <= 1,
    ensures
        run(s, events).1 == 0,
    decreases events.len(),
{
    if events.len() > 0 {
        let s1 = step(s, events[0]).0;
        if is_letter_press(events[0]) {
            lemma_no_letter_press_no_fire(s1, events.drop_first());
        } else {
            lemma_single_press_never_fires(s1, events.drop_first());
        }
    }
}

/// With the modifier held and no press pending, two presses of the letter at most
/// the window apart fire the gesture exactly once, on the second press, and leave
/// no press pending; a third press right after does not fire again but waits for
/// a partner of its own, and a fourth within the window of the third fires.
pub proof fn lemma_double_press_fires_once(s: GestureState, t1: u64, t2: u64, t3: u64, t4: u64)
    requires
        s.modifier_held,
        s.last_press_ms is None,
        t1 <= t2,
        t2 - t1 <= DOUBLE_PRESS_WINDOW_MS,
        t3 <= t4,
        t4 - t3 <= DOUBLE_PRESS_WINDOW_MS,
    ensures
        ({
            let p1 = KeyEvent { action: KeyAction::Press, key: KeyKind::Letter, time_ms: t1 };
            let p2 = KeyEvent { action: KeyAction::Press, key: KeyKind::Letter, time_ms: t2 };
            let p3 = KeyEvent { action: KeyAction::Press, key: KeyKind::Letter, time_ms: t3 };
            let p4 = KeyEvent { action: KeyAction::Press, key: KeyKind::Letter, time_ms: t4 };
            &&& run(s, seq![p1, p2]).1 == 1
            &&& run(s, seq![p1, p2]).0.last_press_ms is None
            &&& !step(step(step(s, p1).0, p2).0, p3).1
            &&& step(step(step(s, p1).0, p2).0, p3).0.last_press_ms == Some(t3)
            &&& run(s, seq![p1, p2, p3]).1 == 1
            &&& run(s, seq![p1, p2, p3, p4]).1 == 2
        }),
{
    let p1 = KeyEvent { action: KeyAction::Press, key: KeyKind::Letter, time_ms: t1 };
    let p2 = KeyEvent { action: KeyAction::Press, key: KeyKind::Letter, time_ms: t2 };
    let p3 = KeyEvent { action: KeyAction::Press, key: KeyKind::Letter, time_ms: t3 };
    let p4 = KeyEvent { action: KeyAction::Press, key: KeyKind::Letter, time_ms: t4 };
    assert(seq![p1, p2].drop_first() =~= seq![p2]);
    assert(seq![p2].drop_first() =~= Seq::<KeyEvent>::empty());
    assert(seq![p1, p2, p3].drop_first() =~= seq![p2, p3]);
    assert(seq![p2, p3].drop_first() =~= seq![p3]);
    assert(seq![p3].drop_first() =~= Seq::<KeyEvent>::empty());
    assert(seq![p1, p2, p3, p4].drop_first() =~= seq![p2, p3, p4]);
    assert(seq![p2, p3, p4].drop_first() =~= seq![p3, p4]);
    assert(seq![p3, p4].drop_first() =~= seq![p4]);
    assert(seq![p4].drop_first() =~= Seq::<KeyEvent>::empty());
    reveal_with_fuel(run, 5);
}

/// Releasing the modifier between two presses of the letter keeps the second
/// press from firing the gesture: it is ignored, and the first stays pending.
pub proof fn lemma_release_between_presses_blocks(
    s: GestureState,
    t1: u64,
    t_release: u64,
    t2: u64,
)
    requires
        s.modifier_held,
        s.last_press_ms is None,
    ensures
        ({
            let p1 = KeyEvent { action: KeyAction::Press, key: KeyKind::Letter, time_ms: t1 };
            let r = KeyEvent { action: KeyAction::Release, key: KeyKind::Modifier, time_ms: t_release };
            let p2 = KeyEvent { action: KeyAction::Press, key: KeyKind::Letter, time_ms: t2 };
            &&& run(s, seq![p1, r, p2]).1 == 0
            &&& !run(s, seq![p1, r, p2]).0.modifier_held
            &&& run(s, seq![p1, r, p2]).0.last_press_ms == Some(t1)
        }),
{
    let p1 = KeyEvent { action: KeyAction::Press, key: KeyKind::Letter, time_ms: t1 };
    let r = KeyEvent { action: KeyAction::Release, key: KeyKind::Modifier, time_ms: t_release };
    let p2 = KeyEvent { action: KeyAction::Press, key: KeyKind::Letter, time_ms: t2 };
    assert(seq![p1, r, p2].drop_first() =~= seq![r, p2]);
    assert(seq![r, p2].drop_first() =~= seq![p2]);
    assert(seq![p2].drop_first() =~= Seq::<KeyEvent>::empty());
    reveal_with_fuel(run, 4);
}

/// A press of the letter while the modifier is up changes nothing and never fires.
pub proof fn lemma_press_without_modifier_ignored(s: GestureState, e: KeyEvent)
    requires
        !s.modifier_held,
        is_letter_press(e),
    ensures
        step(s, e) == (s, false),
{
}

} // verus!
