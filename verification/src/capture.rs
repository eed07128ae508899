//! The capture state machine: raw keyboard and pointer input in, a
//! deduplicated and rate-limited stream of logical events out.
//!
//! Time is a count of nanoseconds on a monotonic clock. Keys and buttons are
//! known by their identifiers; pointer coordinates arrive already rendered as
//! text, since the machine only ever prints them.

use vstd::prelude::*;
use vstd::string::StringExecFns;
use crate::bus::{grew_by, EventBus, PublishOutcome};
use crate::clock::local_timestamp;
use crate::event::{CapturedEvent, CapturedEventView, EventKind};
use crate::text::{decimal_int, push_signed_decimal};

verus! {

/// The throttle interval that a fresh state machine starts with: 50 ms, in
/// nanoseconds.
pub const DEFAULT_MOUSE_MOVE_INTERVAL_NANOS: u64 = 50_000_000;

/// One raw input event as the input source delivers it.
#[derive(Debug)]
pub enum RawEvent {
    KeyPress(String),
    KeyRelease(String),
    ButtonPress(String),
    ButtonRelease(String),
    MouseMove { x: String, y: String },
    Wheel { delta_x: i64, delta_y: i64 },
}

/// What a `RawEvent` is, as plain values.
pub enum RawEventView {
    KeyPress(Seq<char>),
    KeyRelease(Seq<char>),
    ButtonPress(Seq<char>),
    ButtonRelease(Seq<char>),
    MouseMove { x: Seq<char>, y: Seq<char> },
    Wheel { delta_x: i64, delta_y: i64 },
}

impl View for RawEvent {
    type V = RawEventView;

    open spec fn view(&self) -> RawEventView {
        match self {
            RawEvent::KeyPress(key) => RawEventView::KeyPress(key@),
            RawEvent::KeyRelease(key) => RawEventView::KeyRelease(key@),
            RawEvent::ButtonPress(button) => RawEventView::ButtonPress(button@),
            RawEvent::ButtonRelease(button) => RawEventView::ButtonRelease(button@),
            RawEvent::MouseMove { x, y } => RawEventView::MouseMove { x: x@, y: y@ },
            RawEvent::Wheel { delta_x, delta_y } => RawEventView::Wheel {
                delta_x: *delta_x,
                delta_y: *delta_y,
            },
        }
    }
}

/// The description that an event carries: the key or button identifier, the
/// coordinate pair `x,y`, or the delta pair `dx=..,dy=..`.
pub open spec fn details_text(event: RawEventView) -> Seq<char> {
    match event {
        RawEventView::KeyPress(key) => key,
        RawEventView::KeyRelease(key) => key,
        RawEventView::ButtonPress(button) => button,
        RawEventView::ButtonRelease(button) => button,
        RawEventView::MouseMove { x, y } => x + ","@ + y,
        RawEventView::Wheel { delta_x, delta_y } => "dx="@ + decimal_int(delta_x as int) + ",dy="@
            + decimal_int(delta_y as int),
    }
}

/// Renders the payload of `event` as the details string of the logical event.
pub fn format_event_details(event: &RawEvent) -> (details: String)
    ensures
        details@ == details_text(event@),
{
    match event {
        RawEvent::KeyPress(key) => key.clone(),
        RawEvent::KeyRelease(key) => key.clone(),
        RawEvent::ButtonPress(button) => button.clone(),
        RawEvent::ButtonRelease(button) => button.clone(),
        RawEvent::MouseMove { x, y } => {
            let mut details = x.clone();
            details.append(",");
            details.append(y.as_str());
            details
        },
        RawEvent::Wheel { delta_x, delta_y } => {
            let mut details = String::from_str("dx=");
            assert(details@ =~= Seq::<char>::empty() + "dx="@);
            push_signed_decimal(&mut details, *delta_x);
            details.append(",dy=");
            push_signed_decimal(&mut details, *delta_y);
            details
        },
    }
}

/// The state of the machine, as plain values: the keys and buttons that are
/// held, the throttle interval, and when a pointer move was last accepted.
pub struct CaptureStateView {
    pub keys: Set<Seq<char>>,
    pub buttons: Set<Seq<char>>,
    pub interval: u64,
    pub last_move: Option<u64>,
}

/// The time from `since` to `now`, zero where the clock stepped back.
pub open spec fn elapsed(since: u64, now: u64) -> int {
    if now >= since {
        now - since
    } else {
        0
    }
}

/// Whether a pointer move at `now` passes the throttle: none was accepted
/// before, or at least `interval` has passed since the last accepted one.
pub open spec fn move_accepted(last_move: Option<u64>, now: u64, interval: u64) -> bool {
    match last_move {
        None => true,
        Some(since) => elapsed(since, now) >= interval,
    }
}

/// One transition of the machine: the state after `event` arrives at `now`,
/// and the kind of the logical event that is emitted, if any.
///
/// While capture is off the event is dropped and the state stays as it is. A
/// press emits only where the key or button is not yet held; a release always
/// emits and always clears; a move emits where the throttle accepts it; a
/// wheel event always emits.
pub open spec fn step(state: CaptureStateView, capturing: bool, event: RawEventView, now: u64) -> (
    CaptureStateView,
    Option<EventKind>,
) {
    if !capturing {
        (state, None)
    } else {
        match event {
            RawEventView::KeyPress(key) => (
                CaptureStateView { keys: state.keys.insert(key), ..state },
                if state.keys.contains(key) {
                    None
                } else {
                    Some(EventKind::KeyPress)
                },
            ),
            RawEventView::KeyRelease(key) => (
                CaptureStateView { keys: state.keys.remove(key), ..state },
                Some(EventKind::KeyRelease),
            ),
            RawEventView::ButtonPress(button) => (
                CaptureStateView { buttons: state.buttons.insert(button), ..state },
                if state.buttons.contains(button) {
                    None
                } else {
                    Some(EventKind::MouseButtonPress)
                },
            ),
            RawEventView::ButtonRelease(button) => (
                CaptureStateView { buttons: state.buttons.remove(button), ..state },
                Some(EventKind::MouseButtonRelease),
            ),
            RawEventView::MouseMove { x, y } => if move_accepted(
                state.last_move,
                now,
                state.interval,
            ) {
                (CaptureStateView { last_move: Some(now), ..state }, Some(EventKind::MouseMove))
            } else {
                (state, None)
            },
            RawEventView::Wheel { delta_x, delta_y } => (state, Some(EventKind::MouseWheel)),
        }
    }
}

/// The logical event that `step` emits for `event`, stamped `timestamp`.
pub open spec fn emitted_event(
    state: CaptureStateView,
    capturing: bool,
    event: RawEventView,
    now: u64,
    timestamp: Seq<char>,
) -> Option<CapturedEventView> {
    match step(state, capturing, event, now).1 {
        Some(kind) => Some(
            CapturedEventView { name: kind, timestamp, details: details_text(event) },
        ),
        None => None,
    }
}

/// The identifiers that `held` holds.
spec fn labels(held: Seq<String>) -> Set<Seq<char>> {
    Set::new(|label: Seq<char>| exists|i: int| 0 <= i < held.len() && #[trigger] held[i]@ == label)
}

/// No identifier occurs twice in `held`.
spec fn distinct(held: Seq<String>) -> bool {
    forall|i: int, j: int| 0 <= i < j < held.len() ==> #[trigger] held[i]@ != #[trigger] held[j]@
}

fn position_of(held: &Vec<String>, label: &String) -> (found: Option<usize>)
    ensures
        match found {
            Some(i) => i < held.len() && held[i as int]@ == label@,
            None => !labels(held@).contains(label@),
        },
{
    let mut i: usize = 0;
    while i < held.len()
        invariant
            i <= held.len(),
            forall|j: int| 0 <= j < i ==> #[trigger] held[j]@ != label@,
        decreases held.len() - i,
    {
        if held[i] == *label {
            return Some(i);
        }
        i += 1;
    }
    None
}

fn insert_label(held: &mut Vec<String>, label: &String) -> (added: bool)
    requires
        distinct(old(held)@),
    ensures
        distinct(final(held)@),
        labels(final(held)@) == labels(old(held)@).insert(label@),
        added == !labels(old(held)@).contains(label@),
{
    match position_of(held, label) {
        Some(i) => {
            assert(labels(held@) =~= labels(held@).insert(label@));
            false
        },
        None => {
            let ghost before = held@;
            held.push(label.clone());
            assert forall|l: Seq<char>| #[trigger]
                labels(held@).contains(l) == labels(before).insert(label@).contains(l) by {
                if labels(held@).contains(l) {
                    let i = choose|i: int| 0 <= i < held@.len() && #[trigger] held@[i]@ == l;
                    if i < before.len() {
                        assert(before[i]@ == l);
                    }
                } else if l == label@ {
                    assert(held@[before.len() as int]@ == l);
                } else if labels(before).contains(l) {
                    let i = choose|i: int| 0 <= i < before.len() && #[trigger] before[i]@ == l;
                    assert(held@[i]@ == l);
                }
            }
            assert(labels(held@) =~= labels(before).insert(label@));
            assert forall|i: int, j: int| 0 <= i < j < held@.len() implies #[trigger] held@[i]@
                != #[trigger] held@[j]@ by {
                if j == before.len() {
                    assert(before[i]@ == held@[i]@);
                }
            }
            true
        },
    }
}

fn remove_label(held: &mut Vec<String>, label: &String)
    requires
        distinct(old(held)@),
    ensures
        distinct(final(held)@),
        labels(final(held)@) == labels(old(held)@).remove(label@),
{
    match position_of(held, label) {
        Some(at) => {
            let ghost before = held@;
            held.remove(at);
            assert(held@ == before.remove(at as int));
            assert forall|l: Seq<char>| #[trigger]
                labels(held@).contains(l) == labels(before).remove(label@).contains(l) by {
                if labels(held@).contains(l) {
                    let i = choose|i: int| 0 <= i < held@.len() && #[trigger] held@[i]@ == l;
                    if i < at {
                        assert(before[i]@ == l);
                    } else {
                        assert(before[i + 1]@ == l);
                    }
                } else if l != label@ && labels(before).contains(l) {
                    let i = choose|i: int| 0 <= i < before.len() && #[trigger] before[i]@ == l;
                    if i < at {
                        assert(held@[i]@ == l);
                    } else {
                        assert(held@[i - 1]@ == l);
                    }
                }
            }
            assert(labels(held@) =~= labels(before).remove(label@));
            assert forall|i: int, j: int| 0 <= i < j < held@.len() implies #[trigger] held@[i]@
                != #[trigger] held@[j]@ by {
                let bi = if i < at { i } else { i + 1 };
                let bj = if j < at { j } else { j + 1 };
                assert(before[bi]@ == held@[i]@);
                assert(before[bj]@ == held@[j]@);
            }
        },
        None => {
            assert(labels(held@) =~= labels(held@).remove(label@));
        },
    }
}

/// The state that the capture thread owns: which keys and pointer buttons
/// are held, the throttle interval, and the time of the last accepted move.
///
/// A key or button is marked held from the press that was emitted for it
/// until its release. Turning capture off and on again does not reset the
/// marks: a key that stays down across the pause gives no second press.
pub struct CaptureState {
    pressed_keys: Vec<String>,
    pressed_buttons: Vec<String>,
    move_interval: u64,
    last_move: Option<u64>,
}

impl View for CaptureState {
    type V = CaptureStateView;

    closed spec fn view(&self) -> CaptureStateView {
        CaptureStateView {
            keys: labels(self.pressed_keys@),
            buttons: labels(self.pressed_buttons@),
            interval: self.move_interval,
            last_move: self.last_move,
        }
    }
}

impl CaptureState {
    #[verifier::type_invariant]
    spec fn well_formed(&self) -> bool {
        distinct(self.pressed_keys@) && distinct(self.pressed_buttons@)
    }

    /// A machine with nothing held, no move accepted yet, and the default
    /// throttle interval.
    pub fn new() -> (state: Self)
        ensures
            state@ == (CaptureStateView {
                keys: Set::empty(),
                buttons: Set::empty(),
                interval: DEFAULT_MOUSE_MOVE_INTERVAL_NANOS,
                last_move: None,
            }),
    {
        let state = CaptureState {
            pressed_keys: Vec::new(),
            pressed_buttons: Vec::new(),
            move_interval: DEFAULT_MOUSE_MOVE_INTERVAL_NANOS,
            last_move: None,
        };
        assert(labels(state.pressed_keys@) =~= Set::empty());
        assert(labels(state.pressed_buttons@) =~= Set::empty());
        state
    }

    /// Sets the minimum spacing between accepted pointer moves.
    pub fn set_move_interval(&mut self, interval: u64)
        ensures
            final(self)@ == (CaptureStateView { interval, ..old(self)@ }),
    {
        proof {
            use_type_invariant(&*self);
        }
        self.move_interval = interval;
    }

    /// The minimum spacing between accepted pointer moves.
    pub fn move_interval(&self) -> (interval: u64)
        ensures
            interval == self@.interval,
    {
        self.move_interval
    }

    /// When a pointer move was last accepted.
    pub fn last_move(&self) -> (at: Option<u64>)
        ensures
            at == self@.last_move,
    {
        self.last_move
    }

    /// Whether `key` is marked held.
    pub fn is_key_pressed(&self, key: &String) -> (held: bool)
        ensures
            held == self@.keys.contains(key@),
    {
        position_of(&self.pressed_keys, key).is_some()
    }

    /// Whether `button` is marked held.
    pub fn is_button_pressed(&self, button: &String) -> (held: bool)
        ensures
            held == self@.buttons.contains(button@),
    {
        position_of(&self.pressed_buttons, button).is_some()
    }

    fn take(&mut self) -> (taken: Self)
        ensures
            taken@ == old(self)@,
            final(self).move_interval == old(self).move_interval,
            final(self).last_move == old(self).last_move,
    {
        let mut taken = CaptureState {
            pressed_keys: Vec::new(),
            pressed_buttons: Vec::new(),
            move_interval: self.move_interval,
            last_move: self.last_move,
        };
        core::mem::swap(self, &mut taken);
        taken
    }

    /// Takes one raw event at time `now` and says which logical event, if
    /// any, it gives rise to.
    pub fn classify(&mut self, capturing: bool, event: &RawEvent, now: u64) -> (emitted: Option<
        EventKind,
    >)
        ensures
            final(self)@ == step(old(self)@, capturing, event@, now).0,
            emitted == step(old(self)@, capturing, event@, now).1,
    {
        if !capturing {
            return None;
        }
        let taken = self.take();
        proof {
            use_type_invariant(&taken);
        }
        let CaptureState {
            pressed_keys: mut keys,
            pressed_buttons: mut buttons,
            move_interval,
            last_move: mut last,
        } = taken;
        let emitted = match event {
            RawEvent::KeyPress(key) => {
                if insert_label(&mut keys, key) {
                    Some(EventKind::KeyPress)
                } else {
                    None
                }
            },
            RawEvent::KeyRelease(key) => {
                remove_label(&mut keys, key);
                Some(EventKind::KeyRelease)
            },
            RawEvent::ButtonPress(button) => {
                if insert_label(&mut buttons, button) {
                    Some(EventKind::MouseButtonPress)
                } else {
                    None
                }
            },
            RawEvent::ButtonRelease(button) => {
                remove_label(&mut buttons, button);
                Some(EventKind::MouseButtonRelease)
            },
            RawEvent::MouseMove { x, y } => {
                let accepted = match last {
                    None => true,
                    Some(since) => {
                        let gap: u64 = if now >= since {
                            now - since
                        } else {
                            0
                        };
                        gap >= move_interval
                    },
                };
                if accepted {
                    last = Some(now);
                    Some(EventKind::MouseMove)
                } else {
                    None
                }
            },
            RawEvent::Wheel { delta_x, delta_y } => Some(EventKind::MouseWheel),
        };
        *self = CaptureState {
            pressed_keys: keys,
            pressed_buttons: buttons,
            move_interval,
            last_move: last,
        };
        emitted
    }

    /// Takes one raw event at time `now` and builds the logical event that
    /// it gives rise to, stamped `timestamp` and described by its payload.
    pub fn on_raw_event(
        &mut self,
        capturing: bool,
        event: &RawEvent,
        now: u64,
        timestamp: String,
    ) -> (emitted: Option<CapturedEvent>)
        ensures
            final(self)@ == step(old(self)@, capturing, event@, now).0,
            match emitted {
                Some(e) => emitted_event(old(self)@, capturing, event@, now, timestamp@) == Some(
                    e@,
                ),
                None => emitted_event(old(self)@, capturing, event@, now, timestamp@).is_none(),
            },
    {
        match self.classify(capturing, event, now) {
            Some(kind) => Some(CapturedEvent::new(kind, timestamp, format_event_details(event))),
            None => None,
        }
    }
    /// Takes one raw event at time `now` and publishes the logical event
    /// that it gives rise to, stamped with the local time of the call. Says
    /// what became of the event, or `None` where none was emitted; nothing
    /// is handed to the bus then.
    pub fn capture(&mut self, bus: &mut EventBus, capturing: bool, event: &RawEvent, now: u64) -> (
        published: Option<PublishOutcome>)
        ensures
            final(self)@ == step(old(self)@, capturing, event@, now).0,
            final(bus).channel() == old(bus).channel(),
            match step(old(self)@, capturing, event@, now).1 {
                Some(kind) => published.is_some() && grew_by(
                    old(bus).log(),
                    final(bus).log(),
                    kind,
                    details_text(event@),
                ),
                None => published.is_none() && final(bus).log() == old(bus).log(),
            },
    {
        match self.on_raw_event(capturing, event, now, local_timestamp()) {
            Some(emitted) => {
                let outcome = bus.publish(emitted);
                assert(bus.log().drop_last() =~= old(bus).log());
                Some(outcome)
            },
            None => None,
        }
    }
}

/// One raw event together with the circumstances of its arrival: whether
/// capture was on, and the time.
pub struct Arrival {
    pub capturing: bool,
    pub event: RawEventView,
    pub at: u64,
}

/// What subscribers see of one emitted event, its timestamp aside.
pub struct Emission {
    pub kind: EventKind,
    pub details: Seq<char>,
}

/// The state after all of `arrivals` went through the machine in order, and
/// the events emitted on the way.
pub open spec fn run(state: CaptureStateView, arrivals: Seq<Arrival>) -> (
    CaptureStateView,
    Seq<Emission>,
)
    decreases arrivals.len(),
{
    if arrivals.len() == 0 {
        (state, Seq::empty())
    } else {
        let first = arrivals[0];
        let (next, emitted) = step(state, first.capturing, first.event, first.at);
        let (last, later) = run(next, arrivals.drop_first());
        match emitted {
            Some(kind) => (
                last,
                seq![Emission { kind, details: details_text(first.event) }] + later,
            ),
            None => (last, later),
        }
    }
}

/// `arrival` is a press of `key` while capture is on.
pub open spec fn is_press_of(arrival: Arrival, key: Seq<char>) -> bool {
    arrival.capturing && arrival.event == RawEventView::KeyPress(key)
}

/// `arrival` is a pointer move while capture is on.
pub open spec fn is_move(arrival: Arrival) -> bool {
    arrival.capturing && arrival.event is MouseMove
}

/// Presses of a key that is already held emit nothing and change nothing.
pub proof fn presses_of_held_key_are_suppressed(
    state: CaptureStateView,
    key: Seq<char>,
    presses: Seq<Arrival>,
)
    requires
        state.keys.contains(key),
        forall|i: int| 0 <= i < presses.len() ==> is_press_of(#[trigger] presses[i], key),
    ensures
        run(state, presses) == (state, Seq::<Emission>::empty()),
    decreases presses.len(),
{
    if presses.len() > 0 {
        assert(is_press_of(presses[0], key));
        assert(state.keys.insert(key) =~= state.keys);
        let rest = presses.drop_first();
        assert forall|i: int| 0 <= i < rest.len() implies is_press_of(#[trigger] rest[i], key) by {
            assert(rest[i] == presses[i + 1]);
        }
        presses_of_held_key_are_suppressed(state, key, rest);
    }
}

/// However often a key goes down without coming up in between, one press is
/// emitted for it: the first.
pub proof fn repeated_key_press_emits_once(
    state: CaptureStateView,
    key: Seq<char>,
    presses: Seq<Arrival>,
)
    requires
        !state.keys.contains(key),
        presses.len() > 0,
        forall|i: int| 0 <= i < presses.len() ==> is_press_of(#[trigger] presses[i], key),
    ensures
        run(state, presses).1 == seq![Emission { kind: EventKind::KeyPress, details: key }],
        run(state, presses).0 == (CaptureStateView { keys: state.keys.insert(key), ..state }),
{
    assert(is_press_of(presses[0], key));
    let held = CaptureStateView { keys: state.keys.insert(key), ..state };
    let rest = presses.drop_first();
    assert forall|i: int| 0 <= i < rest.len() implies is_press_of(#[trigger] rest[i], key) by {
        assert(rest[i] == presses[i + 1]);
    }
    presses_of_held_key_are_suppressed(held, key, rest);
    assert(seq![Emission { kind: EventKind::KeyPress, details: key }] + Seq::<Emission>::empty()
        =~= seq![Emission { kind: EventKind::KeyPress, details: key }]);
}

/// A key release is always emitted and always clears the mark, whether or
/// not the key was marked held.
pub proof fn key_release_always_emits(state: CaptureStateView, key: Seq<char>, now: u64)
    ensures
        step(state, true, RawEventView::KeyRelease(key), now).1 == Some(EventKind::KeyRelease),
        !step(state, true, RawEventView::KeyRelease(key), now).0.keys.contains(key),
        run(state, seq![Arrival { capturing: true, event: RawEventView::KeyRelease(key), at: now }]).1
            == seq![Emission { kind: EventKind::KeyRelease, details: key }],
{
    let release = Arrival { capturing: true, event: RawEventView::KeyRelease(key), at: now };
    let next = step(state, true, RawEventView::KeyRelease(key), now).0;
    assert(seq![release].drop_first() =~= Seq::<Arrival>::empty());
    assert(run(next, seq![release].drop_first()).1 =~= Seq::<Emission>::empty());
    assert(seq![Emission { kind: EventKind::KeyRelease, details: key }] + Seq::<Emission>::empty()
        =~= seq![Emission { kind: EventKind::KeyRelease, details: key }]);
}

/// A button release is always emitted and always clears the mark.
pub proof fn button_release_always_emits(state: CaptureStateView, button: Seq<char>, now: u64)
    ensures
        step(state, true, RawEventView::ButtonRelease(button), now).1 == Some(
            EventKind::MouseButtonRelease,
        ),
        !step(state, true, RawEventView::ButtonRelease(button), now).0.buttons.contains(button),
{
}

/// Pointer moves that arrive less than the interval after the last accepted
/// one are dropped, and leave the state as it was.
pub proof fn moves_inside_window_are_dropped(
    state: CaptureStateView,
    since: u64,
    moves: Seq<Arrival>,
)
    requires
        state.last_move == Some(since),
        forall|i: int|
            0 <= i < moves.len() ==> is_move(#[trigger] moves[i]) && elapsed(since, moves[i].at)
                < state.interval,
    ensures
        run(state, moves) == (state, Seq::<Emission>::empty()),
    decreases moves.len(),
{
    if moves.len() > 0 {
        assert(is_move(moves[0]));
        let rest = moves.drop_first();
        assert forall|i: int| 0 <= i < rest.len() implies is_move(#[trigger] rest[i]) && elapsed(
            since,
            rest[i].at,
        ) < state.interval by {
            assert(rest[i] == moves[i + 1]);
        }
        moves_inside_window_are_dropped(state, since, rest);
    }
}

/// Of pointer moves that all arrive within one interval of an accepted
/// move, only that first one is emitted.
pub proof fn only_first_move_of_window_emits(
    state: CaptureStateView,
    first: Arrival,
    later: Seq<Arrival>,
)
    requires
        is_move(first),
        move_accepted(state.last_move, first.at, state.interval),
        forall|i: int|
            0 <= i < later.len() ==> is_move(#[trigger] later[i]) && elapsed(first.at, later[i].at)
                < state.interval,
    ensures
        run(state, seq![first] + later).1 == seq![
            Emission { kind: EventKind::MouseMove, details: details_text(first.event) },
        ],
{
    let opened = CaptureStateView { last_move: Some(first.at), ..state };
    assert((seq![first] + later).drop_first() =~= later);
    moves_inside_window_are_dropped(opened, first.at, later);
    assert(seq![Emission { kind: EventKind::MouseMove, details: details_text(first.event) }]
        + Seq::<Emission>::empty() =~= seq![
        Emission { kind: EventKind::MouseMove, details: details_text(first.event) },
    ]);
}

/// The emissions of a run in which every arrival emits a pointer move.
pub open spec fn move_emissions(moves: Seq<Arrival>) -> Seq<Emission> {
    Seq::new(
        moves.len(),
        |i: int| Emission { kind: EventKind::MouseMove, details: details_text(moves[i].event) },
    )
}

/// Pointer moves that are spaced at least one interval apart are all
/// emitted, in order.
pub proof fn spaced_moves_all_emit(state: CaptureStateView, moves: Seq<Arrival>)
    requires
        forall|i: int| 0 <= i < moves.len() ==> is_move(#[trigger] moves[i]),
        moves.len() > 0 ==> move_accepted(state.last_move, moves[0].at, state.interval),
        forall|i: int|
            0 < i < moves.len() ==> elapsed(moves[i - 1].at, (#[trigger] moves[i]).at)
                >= state.interval,
    ensures
        run(state, moves).1 == move_emissions(moves),
    decreases moves.len(),
{
    if moves.len() == 0 {
        assert(move_emissions(moves) =~= Seq::<Emission>::empty());
    } else {
        assert(is_move(moves[0]));
        let next = CaptureStateView { last_move: Some(moves[0].at), ..state };
        let rest = moves.drop_first();
        assert forall|i: int| 0 <= i < rest.len() implies is_move(#[trigger] rest[i]) by {
            assert(rest[i] == moves[i + 1]);
        }
        if rest.len() > 0 {
            assert(rest[0] == moves[1]);
            assert(elapsed(moves[0].at, moves[1].at) >= state.interval);
        }
        assert forall|i: int| 0 < i < rest.len() implies elapsed(
            rest[i - 1].at,
            (#[trigger] rest[i]).at,
        ) >= next.interval by {
            assert(rest[i] == moves[i + 1]);
            assert(rest[i - 1] == moves[i]);
        }
        spaced_moves_all_emit(next, rest);
        assert(seq![Emission { kind: EventKind::MouseMove, details: details_text(moves[0].event) }]
            + move_emissions(rest) =~= move_emissions(moves));
    }
}

/// While capture is off nothing is emitted and the state stays as it was.
pub proof fn nothing_emitted_while_stopped(state: CaptureStateView, arrivals: Seq<Arrival>)
    requires
        forall|i: int| 0 <= i < arrivals.len() ==> !(#[trigger] arrivals[i]).capturing,
    ensures
        run(state, arrivals) == (state, Seq::<Emission>::empty()),
    decreases arrivals.len(),
{
    if arrivals.len() > 0 {
        assert(!arrivals[0].capturing);
        let rest = arrivals.drop_first();
        assert forall|i: int| 0 <= i < rest.len() implies !(#[trigger] rest[i]).capturing by {
            assert(rest[i] == arrivals[i + 1]);
        }
        nothing_emitted_while_stopped(state, rest);
    }
}

/// A run over `before` and then `after` is the run over `after` from the
/// state that `before` leaves, with the emissions of both in order.
pub proof fn run_in_two_parts(state: CaptureStateView, before: Seq<Arrival>, after: Seq<Arrival>)
    ensures
        run(state, before + after).0 == run(run(state, before).0, after).0,
        run(state, before + after).1 == run(state, before).1 + run(run(state, before).0, after).1,
    decreases before.len(),
{
    if before.len() == 0 {
        assert(before + after =~= after);
        assert(Seq::<Emission>::empty() + run(state, after).1 =~= run(state, after).1);
    } else {
        let first = before[0];
        let next = step(state, first.capturing, first.event, first.at).0;
        assert((before + after)[0] == first);
        assert((before + after).drop_first() =~= before.drop_first() + after);
        run_in_two_parts(next, before.drop_first(), after);
        let tail = run(next, before.drop_first());
        let rest = run(tail.0, after);
        match step(state, first.capturing, first.event, first.at).1 {
            Some(kind) => {
                let head = seq![Emission { kind, details: details_text(first.event) }];
                assert(head + (tail.1 + rest.1) =~= (head + tail.1) + rest.1);
            },
            None => {},
        }
    }
}

/// A key that was held when capture was turned off, and is still down when
/// capture is turned on again, gives no second press: whatever arrives
/// during the pause, the marks are kept.
pub proof fn held_key_gives_no_second_press_after_pause(
    state: CaptureStateView,
    key: Seq<char>,
    paused: Seq<Arrival>,
    now: u64,
)
    requires
        state.keys.contains(key),
        forall|i: int| 0 <= i < paused.len() ==> !(#[trigger] paused[i]).capturing,
    ensures
        run(
            state,
            paused + seq![Arrival { capturing: true, event: RawEventView::KeyPress(key), at: now }],
        ) == (state, Seq::<Emission>::empty()),
{
    let press = seq![Arrival { capturing: true, event: RawEventView::KeyPress(key), at: now }];
    nothing_emitted_while_stopped(state, paused);
    run_in_two_parts(state, paused, press);
    presses_of_held_key_are_suppressed(state, key, press);
    assert(Seq::<Emission>::empty() + Seq::<Emission>::empty() =~= Seq::<Emission>::empty());
}

} // verus!
