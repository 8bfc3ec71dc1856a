//! Detection of Alt-key gestures from raw key transitions.
//!
//! The detector is a pure state machine: the platform hook feeds it one
//! [`KeyTransition`] per physical key edge (auto-repeat edges included) and
//! carries out whatever the detector answers — arm a one-shot hold timer,
//! emit a confirmed double tap, or nothing. When an armed timer elapses the
//! hook reports that back through [`GestureDetector::on_hold_timer`]; the
//! sequence token decides whether the timer is still current or has been
//! superseded by a release or a fresh press.
//!
//! Every transition is mirrored by a specification function
//! ([`gesture_step`]) so that whole event sequences can be reasoned about;
//! the lemmas at the end of this module state the gesture-level guarantees:
//! isolated taps never confirm, a close pair always confirms exactly once,
//! an intervening foreign key suppresses the pair, a completed hold cancels
//! exactly once and swallows its trailing release, and auto-repeat is inert.

use vstd::prelude::*;

verus! {

use crate::DOUBLE_TAP_THRESHOLD_MS;

/// Virtual-key code of the generic Alt key in low-level hook events.
pub const VK_ALT: u32 = 0x12;

/// Virtual-key code of the left Alt key.
pub const VK_ALT_LEFT: u32 = 0xA4;

/// Virtual-key code of the right Alt key.
pub const VK_ALT_RIGHT: u32 = 0xA5;

/// Message code of a plain key-press event.
pub const MSG_KEY_DOWN: u32 = 0x100;

/// Message code of a system key-press event (Alt held).
pub const MSG_SYS_KEY_DOWN: u32 = 0x104;

/// Which way a key moved.
#[derive(Clone, Copy, PartialEq, Eq, Structural, Debug)]
pub enum KeyEdge {
    Down,
    Up,
}

/// One key transition as the platform hook reports it.
#[derive(Clone, Copy, PartialEq, Eq, Structural, Debug)]
pub struct KeyTransition {
    /// Whether the key is one of the Alt keys.
    pub is_alt: bool,
    /// Press or release.
    pub edge: KeyEdge,
    /// Hook-thread clock at the transition, in milliseconds.
    pub time_ms: u64,
}

/// What the hook must do in response to one key transition.
#[derive(Clone, Copy, PartialEq, Eq, Structural, Debug)]
pub enum KeyResponse {
    /// Nothing beyond passing the event through to the OS.
    Quiet,
    /// A fresh Alt press: arm a one-shot hold-cancel timer carrying `seq`.
    ArmHoldTimer { seq: u64 },
    /// A double tap was completed: start or stop dictation.
    TapConfirmed,
}

/// A high-level gesture signal emitted by the detector.
#[derive(Clone, Copy, PartialEq, Eq, Structural, Debug)]
pub enum Gesture {
    TapConfirmed,
    HoldCancelTriggered,
}

/// Everything the detector can observe: a key transition, or an armed
/// hold-cancel timer elapsing. Each armed timer elapses exactly once; a
/// timer made stale by a release or a fresh press still elapses, and the
/// sequence token turns its action into a no-op.
#[derive(Clone, Copy, PartialEq, Eq, Structural, Debug)]
pub enum GestureEvent {
    Key(KeyTransition),
    HoldTimerFired { seq: u64 },
}

/// State of the gesture detector. The platform hook owns exactly one value
/// of this type under a single lock for the lifetime of the process.
#[derive(Clone, Copy, PartialEq, Eq, Structural, Debug)]
pub struct GestureDetector {
    /// Whether an Alt key is currently held.
    pub alt_is_down: bool,
    /// When the current Alt press began, if one is in progress.
    pub last_alt_down: Option<u64>,
    /// When the first half of a candidate tap pair was released.
    pub last_alt_up: Option<u64>,
    /// Sequence token: bumped on every fresh Alt press, so an elapsed
    /// hold-cancel timer can tell whether it has been superseded.
    pub hold_seq: u64,
    /// Whether the current press already triggered a hold cancel; its
    /// release must then produce no further gesture.
    pub hold_consumed: bool,
    /// Whether a non-Alt key was seen: poisons the pending tap window.
    /// Cleared whenever an Alt release opens a fresh candidate window (or
    /// closes a consumed one), so each tap pair is judged on the keys seen
    /// between its two releases.
    pub saw_non_alt: bool,
}

/// The sequence token after a fresh Alt press: one more, saturating.
pub open spec fn next_hold_seq(seq: u64) -> u64 {
    if seq == u64::MAX {
        seq
    } else {
        (seq + 1) as u64
    }
}

/// Whether a release at `now` closes a double tap whose first release was
/// at `prev`.
pub open spec fn tap_window_hit(prev: u64, now: u64) -> bool {
    prev <= now && now - prev <= DOUBLE_TAP_THRESHOLD_MS
}

/// What one key transition answers, before any state is updated.
pub open spec fn key_response_spec(s: GestureDetector, t: KeyTransition) -> KeyResponse {
    if !t.is_alt {
        KeyResponse::Quiet
    } else if t.edge is Down {
        if s.alt_is_down {
            // OS auto-repeat while Alt is held: ignored entirely.
            KeyResponse::Quiet
        } else {
            KeyResponse::ArmHoldTimer { seq: next_hold_seq(s.hold_seq) }
        }
    } else if s.hold_consumed || s.saw_non_alt {
        KeyResponse::Quiet
    } else {
        match s.last_alt_up {
            Some(prev) => {
                if tap_window_hit(prev, t.time_ms) {
                    KeyResponse::TapConfirmed
                } else {
                    KeyResponse::Quiet
                }
            },
            None => KeyResponse::Quiet,
        }
    }
}

/// Whether an elapsed hold timer carrying `seq` is still current and
/// therefore triggers the hold-cancel gesture.
pub open spec fn hold_fire_spec(s: GestureDetector, seq: u64) -> bool {
    s.alt_is_down && s.hold_seq == seq
}

/// The detector state after one event.
pub open spec fn gesture_step(s: GestureDetector, e: GestureEvent) -> GestureDetector {
    match e {
        GestureEvent::Key(t) => {
            if !t.is_alt {
                GestureDetector { saw_non_alt: true, ..s }
            } else if t.edge is Down {
                if s.alt_is_down {
                    s
                } else {
                    GestureDetector {
                        alt_is_down: true,
                        last_alt_down: Some(t.time_ms),
                        hold_seq: next_hold_seq(s.hold_seq),
                        hold_consumed: false,
                        ..s
                    }
                }
            } else {
                let cleared = GestureDetector { alt_is_down: false, last_alt_down: None, ..s };
                if s.hold_consumed {
                    // Tail of an already-cancelled hold: no gesture, window reset.
                    GestureDetector { hold_consumed: false, last_alt_up: None, saw_non_alt: false, ..cleared }
                } else if !s.saw_non_alt {
                    match s.last_alt_up {
                        Some(prev) => {
                            if tap_window_hit(prev, t.time_ms) {
                                // Pair consumed; a third tap starts afresh.
                                GestureDetector { last_alt_up: None, saw_non_alt: false, ..cleared }
                            } else {
                                GestureDetector { last_alt_up: Some(t.time_ms), ..cleared }
                            }
                        },
                        None => GestureDetector { last_alt_up: Some(t.time_ms), ..cleared },
                    }
                } else {
                    GestureDetector { last_alt_up: Some(t.time_ms), saw_non_alt: false, ..cleared }
                }
            }
        },
        GestureEvent::HoldTimerFired { seq } => {
            if hold_fire_spec(s, seq) {
                GestureDetector { hold_consumed: true, last_alt_up: None, saw_non_alt: false, ..s }
            } else {
                s
            }
        },
    }
}

/// The gesture one event emits, if any.
pub open spec fn gesture_emitted(s: GestureDetector, e: GestureEvent) -> Option<Gesture> {
    match e {
        GestureEvent::Key(t) => {
            if key_response_spec(s, t) is TapConfirmed {
                Some(Gesture::TapConfirmed)
            } else {
                None
            }
        },
        GestureEvent::HoldTimerFired { seq } => {
            if hold_fire_spec(s, seq) {
                Some(Gesture::HoldCancelTriggered)
            } else {
                None
            }
        },
    }
}

impl GestureDetector {
    /// The state a freshly started listener begins in.
    pub open spec fn initial() -> GestureDetector {
        GestureDetector {
            alt_is_down: false,
            last_alt_down: None,
            last_alt_up: None,
            hold_seq: 0,
            hold_consumed: false,
            saw_non_alt: false,
        }
    }

    /// A held Alt key always has a recorded press time.
    pub open spec fn wf(self) -> bool {
        self.alt_is_down ==> self.last_alt_down is Some
    }

    pub fn new() -> (d: GestureDetector)
        ensures
            d == GestureDetector::initial(),
            d.wf(),
    {
        GestureDetector {
            alt_is_down: false,
            last_alt_down: None,
            last_alt_up: None,
            hold_seq: 0,
            hold_consumed: false,
            saw_non_alt: false,
        }
    }

    /// Digest one key transition; the caller performs the returned response.
    ///
    /// The hook thread must never block here: the body is a handful of
    /// comparisons and assignments, and the actual timer and gesture
    /// handling is handed off through the return value.
    pub fn on_key_transition(&mut self, t: KeyTransition) -> (r: KeyResponse)
        requires
            old(self).wf(),
        ensures
            final(self).wf(),
            *final(self) == gesture_step(*old(self), GestureEvent::Key(t)),
            r == key_response_spec(*old(self), t),
            gesture_emitted(*old(self), GestureEvent::Key(t)) is Some <==> r is TapConfirmed,
    {
        if !t.is_alt {
            self.saw_non_alt = true;
            KeyResponse::Quiet
        } else if matches!(t.edge, KeyEdge::Down) {
            if self.alt_is_down {
                // Keyboard auto-repeat while Alt is held: ignored.
                KeyResponse::Quiet
            } else {
                self.alt_is_down = true;
                self.last_alt_down = Some(t.time_ms);
                self.hold_consumed = false;
                self.hold_seq = if self.hold_seq == u64::MAX {
                    self.hold_seq
                } else {
                    self.hold_seq + 1
                };
                KeyResponse::ArmHoldTimer { seq: self.hold_seq }
            }
        } else {
            self.alt_is_down = false;
            self.last_alt_down = None;
            if self.hold_consumed {
                self.hold_consumed = false;
                self.last_alt_up = None;
                self.saw_non_alt = false;
                KeyResponse::Quiet
            } else if !self.saw_non_alt {
                match self.last_alt_up {
                    Some(prev) => {
                        if prev <= t.time_ms && t.time_ms - prev <= DOUBLE_TAP_THRESHOLD_MS {
                            self.last_alt_up = None;
                            self.saw_non_alt = false;
                            KeyResponse::TapConfirmed
                        } else {
                            self.last_alt_up = Some(t.time_ms);
                            KeyResponse::Quiet
                        }
                    },
                    None => {
                        self.last_alt_up = Some(t.time_ms);
                        KeyResponse::Quiet
                    },
                }
            } else {
                self.last_alt_up = Some(t.time_ms);
                self.saw_non_alt = false;
                KeyResponse::Quiet
            }
        }
    }

    /// An armed hold-cancel timer elapsed. Returns whether the hold-cancel
    /// gesture fires: only if Alt is still held *and* the token matches,
    /// which guards against the key having been released, or released and
    /// pressed again, while the timer was pending.
    pub fn on_hold_timer(&mut self, seq: u64) -> (triggered: bool)
        requires
            old(self).wf(),
        ensures
            final(self).wf(),
            *final(self) == gesture_step(*old(self), GestureEvent::HoldTimerFired { seq }),
            triggered == hold_fire_spec(*old(self), seq),
            gesture_emitted(*old(self), GestureEvent::HoldTimerFired { seq })
                == (if triggered { Some(Gesture::HoldCancelTriggered) } else { None::<Gesture> }),
    {
        if self.alt_is_down && self.hold_seq == seq {
            self.hold_consumed = true;
            self.last_alt_up = None;
            self.saw_non_alt = false;
            true
        } else {
            false
        }
    }
}

/// The detector state after folding `evs` from `s`.
pub open spec fn run_events(s: GestureDetector, evs: Seq<GestureEvent>) -> GestureDetector
    decreases evs.len(),
{
    if evs.len() == 0 {
        s
    } else {
        run_events(gesture_step(s, evs[0]), evs.drop_first())
    }
}

/// How many times gesture `g` is emitted while `evs` runs from `s`.
pub open spec fn count_emitted(s: GestureDetector, evs: Seq<GestureEvent>, g: Gesture) -> nat
    decreases evs.len(),
{
    if evs.len() == 0 {
        0
    } else {
        (if gesture_emitted(s, evs[0]) == Some(g) {
            1nat
        } else {
            0nat
        }) + count_emitted(gesture_step(s, evs[0]), evs.drop_first(), g)
    }
}

/// Running a concatenation runs the halves in order, and emission counts
/// add up.
pub proof fn lemma_run_append(
    s: GestureDetector,
    a: Seq<GestureEvent>,
    b: Seq<GestureEvent>,
    g: Gesture,
)
    ensures
        run_events(s, a + b) == run_events(run_events(s, a), b),
        count_emitted(s, a + b, g) == count_emitted(s, a, g) + count_emitted(
            run_events(s, a),
            b,
            g,
        ),
    decreases a.len(),
{
    if a.len() == 0 {
        assert(a + b =~= b);
    } else {
        assert((a + b)[0] == a[0]);
        assert((a + b).drop_first() =~= a.drop_first() + b);
        lemma_run_append(gesture_step(s, a[0]), a.drop_first(), b, g);
    }
}

/// Running no events changes nothing and emits nothing.
pub proof fn lemma_run_nil(s: GestureDetector, g: Gesture)
    ensures
        run_events(s, Seq::<GestureEvent>::empty()) == s,
        count_emitted(s, Seq::<GestureEvent>::empty(), g) == 0,
{
}

/// Peeling the first event off a run: the rest runs from the stepped
/// state, and the count grows by one exactly when that event emits `g`.
pub proof fn lemma_run_cons(s: GestureDetector, e: GestureEvent, rest: Seq<GestureEvent>, g: Gesture)
    ensures
        run_events(s, seq![e] + rest) == run_events(gesture_step(s, e), rest),
        count_emitted(s, seq![e] + rest, g) == (if gesture_emitted(s, e) == Some(g) {
            1nat
        } else {
            0nat
        }) + count_emitted(gesture_step(s, e), rest, g),
{
    assert((seq![e] + rest)[0] == e);
    assert((seq![e] + rest).drop_first() =~= rest);
}

/// A run of nothing but foreign-key transitions emits no gesture at all;
/// its only effect on the detector is to set the poison flag.
pub proof fn lemma_foreign_keys_only_poison(s: GestureDetector, mid: Seq<GestureEvent>)
    requires
        forall|i: int|
            0 <= i < mid.len() ==> (#[trigger] mid[i] matches GestureEvent::Key(t) && !t.is_alt),
    ensures
        run_events(s, mid) == (if mid.len() == 0 {
            s
        } else {
            GestureDetector { saw_non_alt: true, ..s }
        }),
        forall|g: Gesture| #[trigger] count_emitted(s, mid, g) == 0,
    decreases mid.len(),
{
    if mid.len() > 0 {
        assert(mid[0] matches GestureEvent::Key(t) && !t.is_alt);
        let s1 = gesture_step(s, mid[0]);
        lemma_foreign_keys_only_poison(s1, mid.drop_first());
        assert forall|g: Gesture| #[trigger] count_emitted(s, mid, g) == 0 by {
            assert(count_emitted(s1, mid.drop_first(), g) == 0);
        }
    }
}

/// The key events of a sequence of complete Alt taps: each pair is one
/// press and its release.
pub open spec fn tap_pair_events(pairs: Seq<(u64, u64)>) -> Seq<GestureEvent>
    decreases pairs.len(),
{
    if pairs.len() == 0 {
        Seq::empty()
    } else {
        seq![
            GestureEvent::Key(
                KeyTransition { is_alt: true, edge: KeyEdge::Down, time_ms: pairs[0].0 },
            ),
            GestureEvent::Key(
                KeyTransition { is_alt: true, edge: KeyEdge::Up, time_ms: pairs[0].1 },
            ),
        ] + tap_pair_events(pairs.drop_first())
    }
}

/// Each press precedes its release, and every release is separated from
/// the next press by more than the double-tap window.
pub open spec fn isolated_pairs(pairs: Seq<(u64, u64)>) -> bool {
    &&& forall|i: int| 0 <= i < pairs.len() ==> #[trigger] pairs[i].0 <= pairs[i].1
    &&& forall|i: int|
        0 <= i < pairs.len() - 1 ==> #[trigger] pairs[i].1 + DOUBLE_TAP_THRESHOLD_MS < pairs[
            i + 1
        ].0
}

/// Alt taps separated by more than the double-tap window never confirm:
/// each tap is isolated. Holds from any state whose press is over and
/// whose pending window, if any, is likewise out of range of the first
/// press.
pub proof fn lemma_isolated_taps_never_confirm(s: GestureDetector, pairs: Seq<(u64, u64)>)
    requires
        !s.alt_is_down,
        !s.hold_consumed,
        !s.saw_non_alt,
        isolated_pairs(pairs),
        pairs.len() > 0 ==> (s.last_alt_up matches Some(p) ==> p + DOUBLE_TAP_THRESHOLD_MS
            < pairs[0].0),
    ensures
        count_emitted(s, tap_pair_events(pairs), Gesture::TapConfirmed) == 0,
    decreases pairs.len(),
{
    if pairs.len() > 0 {
        let d = pairs[0].0;
        let u = pairs[0].1;
        let e1 = GestureEvent::Key(KeyTransition { is_alt: true, edge: KeyEdge::Down, time_ms: d });
        let e2 = GestureEvent::Key(KeyTransition { is_alt: true, edge: KeyEdge::Up, time_ms: u });
        let rest = tap_pair_events(pairs.drop_first());
        let evs = tap_pair_events(pairs);
        assert(evs =~= seq![e1, e2] + rest);
        let s1 = gesture_step(s, e1);
        let s2 = gesture_step(s1, e2);

        // The press emits nothing; the release is out of every window.
        assert(pairs[0].0 <= pairs[0].1);
        assert(gesture_emitted(s, e1) is None);
        assert(gesture_emitted(s1, e2) is None);
        assert(!s2.alt_is_down && !s2.hold_consumed && !s2.saw_non_alt);
        assert(s2.last_alt_up == Some(u));

        assert(isolated_pairs(pairs.drop_first())) by {
            assert forall|i: int| 0 <= i < pairs.drop_first().len() implies #[trigger] pairs.drop_first()[i].0
                <= pairs.drop_first()[i].1 by {
                assert(pairs.drop_first()[i] == pairs[i + 1]);
                assert(pairs[i + 1].0 <= pairs[i + 1].1);
            }
            assert forall|i: int| 0 <= i < pairs.drop_first().len() - 1 implies #[trigger] pairs.drop_first()[i].1
                + DOUBLE_TAP_THRESHOLD_MS < pairs.drop_first()[i + 1].0 by {
                assert(pairs.drop_first()[i] == pairs[i + 1]);
                assert(pairs.drop_first()[i + 1] == pairs[i + 2]);
                assert(pairs[i + 1].1 + DOUBLE_TAP_THRESHOLD_MS < pairs[i + 2].0);
            }
        }
        if pairs.drop_first().len() > 0 {
            assert(pairs.drop_first()[0] == pairs[1]);
            assert(pairs[0].1 + DOUBLE_TAP_THRESHOLD_MS < pairs[1].0);
        }
        lemma_isolated_taps_never_confirm(s2, pairs.drop_first());

        assert(evs[0] == e1);
        assert(evs.drop_first() =~= seq![e2] + rest);
        assert(count_emitted(s, evs, Gesture::TapConfirmed) == count_emitted(
            s1,
            seq![e2] + rest,
            Gesture::TapConfirmed,
        ));
        assert((seq![e2] + rest)[0] == e2);
        assert((seq![e2] + rest).drop_first() =~= rest);
        assert(count_emitted(s1, seq![e2] + rest, Gesture::TapConfirmed) == count_emitted(
            s2,
            rest,
            Gesture::TapConfirmed,
        ));
    }
}

/// Two Alt taps whose releases fall within the double-tap window, with no
/// foreign key in between, confirm exactly one tap — and leave the
/// detector with the pair consumed, so a third tap starts a fresh window.
pub proof fn lemma_double_tap_confirms_once(
    s: GestureDetector,
    d1: u64,
    u1: u64,
    d2: u64,
    u2: u64,
)
    requires
        !s.alt_is_down,
        !s.hold_consumed,
        !s.saw_non_alt,
        s.last_alt_up is None,
        d1 <= u1 <= d2 <= u2,
        u2 - u1 <= DOUBLE_TAP_THRESHOLD_MS,
    ensures
        count_emitted(s, double_tap_events(d1, u1, d2, u2), Gesture::TapConfirmed) == 1,
        count_emitted(s, double_tap_events(d1, u1, d2, u2), Gesture::HoldCancelTriggered) == 0,
        run_events(s, double_tap_events(d1, u1, d2, u2)).last_alt_up is None,
        !run_events(s, double_tap_events(d1, u1, d2, u2)).alt_is_down,
{
    let e1 = GestureEvent::Key(KeyTransition { is_alt: true, edge: KeyEdge::Down, time_ms: d1 });
    let e2 = GestureEvent::Key(KeyTransition { is_alt: true, edge: KeyEdge::Up, time_ms: u1 });
    let e3 = GestureEvent::Key(KeyTransition { is_alt: true, edge: KeyEdge::Down, time_ms: d2 });
    let e4 = GestureEvent::Key(KeyTransition { is_alt: true, edge: KeyEdge::Up, time_ms: u2 });
    let evs = double_tap_events(d1, u1, d2, u2);
    let s1 = gesture_step(s, e1);
    let s2 = gesture_step(s1, e2);
    let s3 = gesture_step(s2, e3);
    let s4 = gesture_step(s3, e4);
    assert(gesture_emitted(s, e1) is None);
    assert(gesture_emitted(s1, e2) is None);
    assert(s2.last_alt_up == Some(u1));
    assert(gesture_emitted(s2, e3) is None);
    assert(gesture_emitted(s3, e4) == Some(Gesture::TapConfirmed));
    assert(s4.last_alt_up is None && !s4.alt_is_down);
    assert(evs =~= seq![e1] + seq![e2, e3, e4]);
    assert(seq![e2, e3, e4] =~= seq![e2] + seq![e3, e4]);
    assert(seq![e3, e4] =~= seq![e3] + seq![e4]);
    assert(seq![e4] =~= seq![e4] + Seq::<GestureEvent>::empty());
    let tap = Gesture::TapConfirmed;
    let hold = Gesture::HoldCancelTriggered;
    lemma_run_cons(s, e1, seq![e2, e3, e4], tap);
    lemma_run_cons(s1, e2, seq![e3, e4], tap);
    lemma_run_cons(s2, e3, seq![e4], tap);
    lemma_run_cons(s3, e4, Seq::<GestureEvent>::empty(), tap);
    lemma_run_nil(s4, tap);
    lemma_run_cons(s, e1, seq![e2, e3, e4], hold);
    lemma_run_cons(s1, e2, seq![e3, e4], hold);
    lemma_run_cons(s2, e3, seq![e4], hold);
    lemma_run_cons(s3, e4, Seq::<GestureEvent>::empty(), hold);
    lemma_run_nil(s4, hold);
    assert(run_events(s, evs) == s4);
}

/// The four key events of a double tap.
pub open spec fn double_tap_events(d1: u64, u1: u64, d2: u64, u2: u64) -> Seq<GestureEvent> {
    seq![
        GestureEvent::Key(KeyTransition { is_alt: true, edge: KeyEdge::Down, time_ms: d1 }),
        GestureEvent::Key(KeyTransition { is_alt: true, edge: KeyEdge::Up, time_ms: u1 }),
        GestureEvent::Key(KeyTransition { is_alt: true, edge: KeyEdge::Down, time_ms: d2 }),
        GestureEvent::Key(KeyTransition { is_alt: true, edge: KeyEdge::Up, time_ms: u2 }),
    ]
}

/// A foreign key anywhere between the two Alt releases — after the first
/// release or during the second press — suppresses the tap the pair would
/// otherwise confirm, however close the releases are.
pub proof fn lemma_foreign_key_suppresses_tap(
    s: GestureDetector,
    d1: u64,
    u1: u64,
    mid1: Seq<GestureEvent>,
    d2: u64,
    mid2: Seq<GestureEvent>,
    u2: u64,
)
    requires
        !s.alt_is_down,
        !s.hold_consumed,
        !s.saw_non_alt,
        s.last_alt_up is None,
        forall|i: int|
            0 <= i < mid1.len() ==> (#[trigger] mid1[i] matches GestureEvent::Key(t) && !t.is_alt),
        forall|i: int|
            0 <= i < mid2.len() ==> (#[trigger] mid2[i] matches GestureEvent::Key(t) && !t.is_alt),
        mid1.len() + mid2.len() >= 1,
    ensures
        count_emitted(
            s,
            seq![
                GestureEvent::Key(
                    KeyTransition { is_alt: true, edge: KeyEdge::Down, time_ms: d1 },
                ),
                GestureEvent::Key(KeyTransition { is_alt: true, edge: KeyEdge::Up, time_ms: u1 }),
            ] + mid1 + seq![
                GestureEvent::Key(
                    KeyTransition { is_alt: true, edge: KeyEdge::Down, time_ms: d2 },
                ),
            ] + mid2 + seq![
                GestureEvent::Key(KeyTransition { is_alt: true, edge: KeyEdge::Up, time_ms: u2 }),
            ],
            Gesture::TapConfirmed,
        ) == 0,
{
    let e1 = GestureEvent::Key(KeyTransition { is_alt: true, edge: KeyEdge::Down, time_ms: d1 });
    let e2 = GestureEvent::Key(KeyTransition { is_alt: true, edge: KeyEdge::Up, time_ms: u1 });
    let e3 = GestureEvent::Key(KeyTransition { is_alt: true, edge: KeyEdge::Down, time_ms: d2 });
    let e4 = GestureEvent::Key(KeyTransition { is_alt: true, edge: KeyEdge::Up, time_ms: u2 });
    let tap = Gesture::TapConfirmed;
    let s1 = gesture_step(s, e1);
    let s2 = gesture_step(s1, e2);
    assert(gesture_emitted(s, e1) is None);
    assert(gesture_emitted(s1, e2) is None);
    lemma_foreign_keys_only_poison(s2, mid1);
    let s3 = run_events(s2, mid1);
    let s4 = gesture_step(s3, e3);
    assert(gesture_emitted(s3, e3) is None);
    lemma_foreign_keys_only_poison(s4, mid2);
    let s5 = run_events(s4, mid2);
    // At least one of the two stretches poisoned the window, and a press
    // never clears the poison flag.
    assert(s5.saw_non_alt);
    assert(gesture_emitted(s5, e4) is None);

    let head = seq![e1, e2];
    let evs = head + mid1 + seq![e3] + mid2 + seq![e4];
    lemma_run_append(s, head + mid1 + seq![e3] + mid2, seq![e4], tap);
    lemma_run_append(s, head + mid1 + seq![e3], mid2, tap);
    lemma_run_append(s, head + mid1, seq![e3], tap);
    lemma_run_append(s, head, mid1, tap);
    assert(head =~= seq![e1] + seq![e2]);
    assert(seq![e2] =~= seq![e2] + Seq::<GestureEvent>::empty());
    lemma_run_cons(s, e1, seq![e2], tap);
    lemma_run_cons(s1, e2, Seq::<GestureEvent>::empty(), tap);
    lemma_run_nil(s2, tap);
    assert(run_events(s, head) == s2);
    assert(count_emitted(s, head, tap) == 0);
    assert(seq![e3] =~= seq![e3] + Seq::<GestureEvent>::empty());
    lemma_run_cons(s3, e3, Seq::<GestureEvent>::empty(), tap);
    lemma_run_nil(s4, tap);
    assert(run_events(s3, seq![e3]) == s4);
    assert(count_emitted(s3, seq![e3], tap) == 0);
    assert(seq![e4] =~= seq![e4] + Seq::<GestureEvent>::empty());
    lemma_run_cons(s5, e4, Seq::<GestureEvent>::empty(), tap);
    lemma_run_nil(gesture_step(s5, e4), tap);
    assert(count_emitted(s5, seq![e4], tap) == 0);
    assert(count_emitted(s, evs, tap) == 0);
}

/// A press held past the hold threshold cancels exactly once: the elapsed
/// timer still carries the current token, so the hold fires, and the
/// trailing release is the tail of a cancelled hold and produces no
/// further gesture. (Each armed timer elapses exactly once, so no second
/// fire of the same token exists.)
pub proof fn lemma_held_press_cancels_once(s: GestureDetector, d: u64, u: u64)
    requires
        !s.alt_is_down,
        d + crate::HOLD_CANCEL_THRESHOLD_MS <= u,
    ensures
        count_emitted(s, held_press_events(s, d, u), Gesture::HoldCancelTriggered) == 1,
        count_emitted(s, held_press_events(s, d, u), Gesture::TapConfirmed) == 0,
        !run_events(s, held_press_events(s, d, u)).alt_is_down,
        !run_events(s, held_press_events(s, d, u)).hold_consumed,
        run_events(s, held_press_events(s, d, u)).last_alt_up is None,
{
    let e1 = GestureEvent::Key(KeyTransition { is_alt: true, edge: KeyEdge::Down, time_ms: d });
    let e2 = GestureEvent::HoldTimerFired { seq: next_hold_seq(s.hold_seq) };
    let e3 = GestureEvent::Key(KeyTransition { is_alt: true, edge: KeyEdge::Up, time_ms: u });
    let evs = held_press_events(s, d, u);
    let s1 = gesture_step(s, e1);
    let s2 = gesture_step(s1, e2);
    let s3 = gesture_step(s2, e3);
    assert(gesture_emitted(s, e1) is None);
    assert(hold_fire_spec(s1, next_hold_seq(s.hold_seq)));
    assert(gesture_emitted(s1, e2) == Some(Gesture::HoldCancelTriggered));
    assert(s2.hold_consumed);
    assert(gesture_emitted(s2, e3) is None);
    assert(!s3.alt_is_down && !s3.hold_consumed && s3.last_alt_up is None);
    assert(evs =~= seq![e1] + seq![e2, e3]);
    assert(seq![e2, e3] =~= seq![e2] + seq![e3]);
    assert(seq![e3] =~= seq![e3] + Seq::<GestureEvent>::empty());
    let tap = Gesture::TapConfirmed;
    let hold = Gesture::HoldCancelTriggered;
    lemma_run_cons(s, e1, seq![e2, e3], tap);
    lemma_run_cons(s1, e2, seq![e3], tap);
    lemma_run_cons(s2, e3, Seq::<GestureEvent>::empty(), tap);
    lemma_run_nil(s3, tap);
    lemma_run_cons(s, e1, seq![e2, e3], hold);
    lemma_run_cons(s1, e2, seq![e3], hold);
    lemma_run_cons(s2, e3, Seq::<GestureEvent>::empty(), hold);
    lemma_run_nil(s3, hold);
    assert(run_events(s, evs) == s3);
}

/// The events of a press held past the hold threshold: the press, its
/// armed timer elapsing while the key is still down, and the release.
pub open spec fn held_press_events(s: GestureDetector, d: u64, u: u64) -> Seq<GestureEvent> {
    seq![
        GestureEvent::Key(KeyTransition { is_alt: true, edge: KeyEdge::Down, time_ms: d }),
        GestureEvent::HoldTimerFired { seq: next_hold_seq(s.hold_seq) },
        GestureEvent::Key(KeyTransition { is_alt: true, edge: KeyEdge::Up, time_ms: u }),
    ]
}

/// An elapsed hold timer whose token no longer matches — the key was
/// released, or released and pressed afresh, while the timer was pending —
/// changes nothing and emits nothing.
pub proof fn lemma_stale_hold_timer_is_inert(s: GestureDetector, seq: u64)
    requires
        !hold_fire_spec(s, seq),
    ensures
        gesture_step(s, GestureEvent::HoldTimerFired { seq }) == s,
        gesture_emitted(s, GestureEvent::HoldTimerFired { seq }) is None,
{
}

/// An auto-repeat press for an already-held Alt is inert: the state is
/// unchanged — in particular the sequence token is not bumped, so the
/// pending hold timer is not re-armed — and nothing is emitted.
pub proof fn lemma_auto_repeat_is_inert(s: GestureDetector, t: KeyTransition)
    requires
        s.alt_is_down,
        t.is_alt,
        t.edge is Down,
    ensures
        gesture_step(s, GestureEvent::Key(t)) == s,
        gesture_emitted(s, GestureEvent::Key(t)) is None,
        key_response_spec(s, t) is Quiet,
{
}

/// Turn one raw hook event into the key-transition shape the detector reads:
/// any of the three Alt virtual keys counts as Alt, the two key-down message
/// codes count as a press, and every other keyboard message is a release.
pub fn classify_hook_event(vk_code: u32, message: u32, time_ms: u64) -> (t: KeyTransition)
    ensures
        t.is_alt == (vk_code == VK_ALT || vk_code == VK_ALT_LEFT || vk_code == VK_ALT_RIGHT),
        t.edge is Down <==> (message == MSG_KEY_DOWN || message == MSG_SYS_KEY_DOWN),
        t.time_ms == time_ms,
{
    let is_alt = vk_code == VK_ALT || vk_code == VK_ALT_LEFT || vk_code == VK_ALT_RIGHT;
    let edge = if message == MSG_KEY_DOWN || message == MSG_SYS_KEY_DOWN {
        KeyEdge::Down
    } else {
        KeyEdge::Up
    };
    KeyTransition { is_alt, edge, time_ms }
}

} // verus!
