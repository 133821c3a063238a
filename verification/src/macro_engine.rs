//! Macro recording and side-button dispatch: the recorder's state machine, the
//! builder of recorded key sequences, and the decision taken for each intercepted
//! input event. Time is a millisecond clock that the caller reads.
use crate::config::{
    action_views, clone_actions, empty_action, empty_action_view, lemma_action_views_push, Action,
    ActionView, MacroBinding,
};
use crate::macro_keys::{
    button_to_key, combo_name, modifier_mask_for_keycode, modifier_names, spec_button_key,
    spec_combo_name, spec_modifier_mask_for_keycode, spec_modifier_names, MODIFIER_MASK,
    flags_from_modifiers, parse_combo, spec_flags_of, spec_parse_combo,
};
use crate::named_map::NamedMap;
use crate::text::{dec_digits, decimal, string_views};
use vstd::prelude::*;

verus! {

/// Event types of the input event tap.
pub const EVENT_KEY_DOWN: u64 = 10;
pub const EVENT_KEY_UP: u64 = 11;
pub const EVENT_FLAGS_CHANGED: u64 = 12;
pub const EVENT_OTHER_MOUSE_DOWN: u64 = 25;
pub const EVENT_OTHER_MOUSE_UP: u64 = 26;
/// The tap was switched off by the system because a callback took too long.
pub const EVENT_TAP_DISABLED_BY_TIMEOUT: u64 = 0xFFFF_FFFE;
/// The tap was switched off by user input.
pub const EVENT_TAP_DISABLED_BY_USER_INPUT: u64 = 0xFFFF_FFFF;
/// Marks the events that macro playback posts, so that the tap lets them through.
pub const PLAYBACK_EVENT_TAG: i64 = 0x4750_3530_3248;
/// How long a recording waits for the mouse button to bind.
pub const AWAIT_MOUSE_TIMEOUT_MS: u64 = 20_000;
/// How long a shortcut recording waits for its key combination.
pub const SHORTCUT_TIMEOUT_MS: u64 = 30_000;
/// How long a key sequence recording may stay idle.
pub const SEQUENCE_IDLE_TIMEOUT_MS: u64 = 120_000;

#[derive(Debug, Clone, Copy, PartialEq, Eq, Structural)]
pub enum RecordingKind {
    Shortcut,
    Sequence,
}

/// What the recorder is doing, as shown to the user.
#[derive(Debug, Clone, Copy, PartialEq, Eq, Structural)]
pub enum RecordingPhase {
    Idle,
    AwaitMouse(RecordingKind),
    Shortcut { button: u32 },
    Sequence { button: u32, events: usize },
}

/// A finished recording: the button it binds and the actions it plays.
#[derive(Debug, Clone)]
pub struct RecordingResult {
    pub button: u32,
    pub kind: RecordingKind,
    pub label: String,
    pub actions: Vec<Action>,
}

#[derive(Debug, Clone)]
pub enum RecordingOutcome {
    Completed(RecordingResult),
    Cancelled(String),
}

/// The recorder's state; times are readings of the caller's millisecond clock.
#[derive(Debug)]
pub enum RecordingState {
    Idle,
    AwaitMouse { kind: RecordingKind, started: u64 },
    Shortcut {
        button: u32,
        started: u64,
        pending: Option<(u16, u64)>,
        completed: Option<RecordingResult>,
        mouse_up_pending: bool,
    },
    Sequence { button: u32, last_event: u64, actions: Vec<Action>, mouse_up_pending: bool },
}

/// A recording result as plain values.
pub struct ResultView {
    pub button: u32,
    pub kind: RecordingKind,
    pub label: Seq<char>,
    pub actions: Seq<ActionView>,
}

pub enum OutcomeView {
    Completed(ResultView),
    Cancelled(Seq<char>),
}

pub enum StateView {
    Idle,
    AwaitMouse { kind: RecordingKind, started: u64 },
    Shortcut {
        button: u32,
        started: u64,
        pending: Option<(u16, u64)>,
        completed: Option<ResultView>,
        mouse_up_pending: bool,
    },
    Sequence { button: u32, last_event: u64, actions: Seq<ActionView>, mouse_up_pending: bool },
}

impl View for RecordingResult {
    type V = ResultView;

    open spec fn view(&self) -> ResultView {
        ResultView {
            button: self.button,
            kind: self.kind,
            label: self.label@,
            actions: action_views(self.actions@),
        }
    }
}

impl View for RecordingOutcome {
    type V = OutcomeView;

    open spec fn view(&self) -> OutcomeView {
        match self {
            RecordingOutcome::Completed(r) => OutcomeView::Completed(r@),
            RecordingOutcome::Cancelled(s) => OutcomeView::Cancelled(s@),
        }
    }
}

pub open spec fn opt_result_view(r: Option<RecordingResult>) -> Option<ResultView> {
    match r {
        Some(x) => Some(x@),
        None => None,
    }
}

pub open spec fn opt_outcome_view(o: Option<RecordingOutcome>) -> Option<OutcomeView> {
    match o {
        Some(x) => Some(x@),
        None => None,
    }
}

impl View for RecordingState {
    type V = StateView;

    open spec fn view(&self) -> StateView {
        match self {
            RecordingState::Idle => StateView::Idle,
            RecordingState::AwaitMouse { kind, started } => StateView::AwaitMouse {
                kind: *kind,
                started: *started,
            },
            RecordingState::Shortcut { button, started, pending, completed, mouse_up_pending } =>
                StateView::Shortcut {
                button: *button,
                started: *started,
                pending: *pending,
                completed: opt_result_view(*completed),
                mouse_up_pending: *mouse_up_pending,
            },
            RecordingState::Sequence { button, last_event, actions, mouse_up_pending } =>
                StateView::Sequence {
                button: *button,
                last_event: *last_event,
                actions: action_views(actions@),
                mouse_up_pending: *mouse_up_pending,
            },
        }
    }
}

/// The macro engine's state: the bindings it dispatches, whether the event tap runs,
/// the recorder, the last recording outcome, a counter that changes whenever the
/// recording changes, and the number of the last mouse button seen (-1 for none).
#[derive(Debug)]
pub struct MacroTap {
    pub bindings: NamedMap<MacroBinding>,
    pub running: bool,
    pub recording: RecordingState,
    pub outcome: Option<RecordingOutcome>,
    pub serial: u64,
    pub last_button: i64,
}

/// The serial number that follows `s`, wrapping as an atomic counter does.
pub open spec fn next_serial(s: u64) -> u64 {
    if s == u64::MAX {
        0
    } else {
        (s + 1) as u64
    }
}

fn bump(s: u64) -> (r: u64)
    ensures
        r == next_serial(s),
{
    if s == u64::MAX {
        0
    } else {
        s + 1
    }
}

/// The last mouse button seen, when there is one.
pub open spec fn spec_last_button(b: i64) -> Option<u32> {
    if b >= 0 {
        Some(b as u32)
    } else {
        None
    }
}

/// The number of key events (actions with a key code) among `s`.
pub open spec fn spec_event_count(s: Seq<ActionView>) -> nat
    decreases s.len(),
{
    if s.len() == 0 {
        0
    } else {
        spec_event_count(s.drop_last()) + if s.last().keycode is Some {
            1nat
        } else {
            0nat
        }
    }
}

proof fn lemma_event_count_bound(s: Seq<ActionView>)
    ensures
        spec_event_count(s) <= s.len(),
    decreases s.len(),
{
    if s.len() > 0 {
        lemma_event_count_bound(s.drop_last());
    }
}

/// Counts the key events of a list of actions.
pub fn event_count(actions: &Vec<Action>) -> (r: usize)
    ensures
        r == spec_event_count(action_views(actions@)),
{
    let ghost views = action_views(actions@);
    let mut n: usize = 0;
    let mut i: usize = 0;
    while i < actions.len()
        invariant
            i <= actions@.len(),
            views == action_views(actions@),
            n == spec_event_count(views.take(i as int)),
        decreases actions@.len() - i,
    {
        proof {
            assert(views.take(i + 1).drop_last() =~= views.take(i as int));
            lemma_event_count_bound(views.take(i as int));
        }
        if actions[i].keycode.is_some() {
            n = n + 1;
        }
        i += 1;
    }
    assert(views.take(actions@.len() as int) =~= views);
    n
}

/// The phase of a recorder state.
pub open spec fn spec_phase(st: StateView) -> RecordingPhase {
    match st {
        StateView::Idle => RecordingPhase::Idle,
        StateView::AwaitMouse { kind, .. } => RecordingPhase::AwaitMouse(kind),
        StateView::Shortcut { button, .. } => RecordingPhase::Shortcut { button },
        StateView::Sequence { button, actions, .. } => RecordingPhase::Sequence {
            button,
            events: spec_event_count(actions) as usize,
        },
    }
}

/// Replaces the outcome of a recording and advances the serial number.
fn set_recording_outcome(tap: &mut MacroTap, outcome: RecordingOutcome)
    ensures
        final(tap).outcome == Some(outcome),
        final(tap).serial == next_serial(old(tap).serial),
        final(tap).bindings == old(tap).bindings,
        final(tap).running == old(tap).running,
        final(tap).recording == old(tap).recording,
        final(tap).last_button == old(tap).last_button,
{
    tap.outcome = Some(outcome);
    tap.serial = bump(tap.serial);
}

/// The number of the last mouse button seen.
pub fn last_button(tap: &MacroTap) -> (r: Option<u32>)
    ensures
        r == spec_last_button(tap.last_button),
{
    if tap.last_button >= 0 {
        Some(tap.last_button as u32)
    } else {
        None
    }
}

/// What the recorder is doing.
pub fn recording_phase(tap: &MacroTap) -> (r: RecordingPhase)
    ensures
        r == spec_phase(tap.recording@),
{
    match &tap.recording {
        RecordingState::Idle => RecordingPhase::Idle,
        RecordingState::AwaitMouse { kind, .. } => RecordingPhase::AwaitMouse(*kind),
        RecordingState::Shortcut { button, .. } => RecordingPhase::Shortcut { button: *button },
        RecordingState::Sequence { button, actions, .. } => RecordingPhase::Sequence {
            button: *button,
            events: event_count(actions),
        },
    }
}

/// Whether a recording outcome waits to be taken.
pub fn recording_outcome_pending(tap: &MacroTap) -> (r: bool)
    ensures
        r == tap.outcome is Some,
{
    tap.outcome.is_some()
}

/// Takes the waiting recording outcome, if any.
pub fn take_recording_outcome(tap: &mut MacroTap) -> (r: Option<RecordingOutcome>)
    ensures
        r == old(tap).outcome,
        final(tap).outcome is None,
        final(tap).serial == old(tap).serial,
        final(tap).bindings == old(tap).bindings,
        final(tap).running == old(tap).running,
        final(tap).recording == old(tap).recording,
        final(tap).last_button == old(tap).last_button,
{
    tap.outcome.take()
}

/// The serial number of the recording, which changes whenever the recording does.
pub fn recording_serial(tap: &MacroTap) -> (r: u64)
    ensures
        r == tap.serial,
{
    tap.serial
}

/// Replaces the macro bindings.
pub fn update_bindings(tap: &mut MacroTap, new_bindings: NamedMap<MacroBinding>)
    ensures
        final(tap).bindings == new_bindings,
        final(tap).running == old(tap).running,
        final(tap).recording == old(tap).recording,
        final(tap).outcome == old(tap).outcome,
        final(tap).serial == old(tap).serial,
        final(tap).last_button == old(tap).last_button,
{
    tap.bindings = new_bindings;
}

/// A pause of `ms` milliseconds.
pub open spec fn delay_view(ms: u64) -> ActionView {
    ActionView { delay_ms: Some(ms), ..empty_action_view() }
}

/// A key going down or up with the modifiers of `flags`.
pub open spec fn key_event_view(code: u16, flags: u64, down: bool) -> ActionView {
    ActionView {
        keycode: Some(code as u32),
        key_down: Some(down),
        modifiers: spec_modifier_names(flags),
        ..empty_action_view()
    }
}

/// A recorded sequence after one more key event at time `now`: the pause since the
/// previous event, when there was one and time has passed, then the event.
pub open spec fn spec_sequence_event(
    actions: Seq<ActionView>,
    last: u64,
    now: u64,
    code: u16,
    flags: u64,
    down: bool,
) -> Seq<ActionView> {
    let with_delay = if actions.len() > 0 && now > last {
        actions.push(delay_view((now - last) as u64))
    } else {
        actions
    };
    with_delay.push(key_event_view(code, flags, down))
}

/// Appends a key event to a recorded sequence, preceded by the pause since the last
/// event.
pub fn sequence_event(
    actions: &mut Vec<Action>,
    last_event: &mut u64,
    now: u64,
    code: u16,
    flags: u64,
    down: bool,
)
    ensures
        action_views(final(actions)@) == spec_sequence_event(
            action_views(old(actions)@),
            *old(last_event),
            now,
            code,
            flags,
            down,
        ),
        *final(last_event) == now,
{
    if actions.len() > 0 && now > *last_event {
        let mut pause = empty_action();
        pause.delay_ms = Some(now - *last_event);
        proof {
            lemma_action_views_push(actions@, pause);
        }
        actions.push(pause);
    }
    let mut action = empty_action();
    action.keycode = Some(code as u32);
    action.key_down = Some(down);
    action.modifiers = modifier_names(flags);
    proof {
        lemma_action_views_push(actions@, action);
    }
    actions.push(action);
    *last_event = now;
}

/// Whether the last event of key `code` in `s` leaves it held down.
pub open spec fn spec_is_key_pressed(s: Seq<ActionView>, code: u32) -> bool
    decreases s.len(),
{
    if s.len() == 0 {
        false
    } else if s.last().keycode == Some(code) {
        s.last().key_down != Some(false)
    } else {
        spec_is_key_pressed(s.drop_last(), code)
    }
}

/// Whether key `code` is held down after the recorded actions.
pub fn is_key_pressed(actions: &Vec<Action>, code: u16) -> (r: bool)
    ensures
        r == spec_is_key_pressed(action_views(actions@), code as u32),
{
    let ghost views = action_views(actions@);
    let c = code as u32;
    let mut i: usize = actions.len();
    proof {
        assert(views.take(i as int) =~= views);
    }
    while i > 0
        invariant
            i <= actions@.len(),
            views == action_views(actions@),
            c == code as u32,
            spec_is_key_pressed(views, c) == spec_is_key_pressed(views.take(i as int), c),
        decreases i,
    {
        let a = &actions[i - 1];
        proof {
            assert(views.take(i as int).drop_last() =~= views.take(i - 1));
            assert(views.take(i as int).last() == a@);
        }
        match a.keycode {
            Some(k) => {
                if k == c {
                    proof {
                        assert(views.take(i as int).last().keycode == Some(c));
                    }
                    let held = match a.key_down {
                        Some(false) => false,
                        _ => true,
                    };
                    return held;
                }
            },
            None => {},
        }
        i -= 1;
    }
    false
}

/// The keys held down after `s`, each with the modifiers of its last press.
pub open spec fn spec_pressed(s: Seq<ActionView>) -> Map<u32, Seq<Seq<char>>>
    decreases s.len(),
{
    if s.len() == 0 {
        Map::empty()
    } else {
        let m = spec_pressed(s.drop_last());
        let a = s.last();
        match (a.keycode, a.key_down) {
            (Some(c), Some(true)) => m.insert(c, a.modifiers),
            (Some(c), Some(false)) => m.remove(c),
            _ => m,
        }
    }
}

/// The release of key `code` with the given modifiers.
pub open spec fn release_view(code: u32, mods: Seq<Seq<char>>) -> ActionView {
    ActionView { keycode: Some(code), key_down: Some(false), modifiers: mods, ..empty_action_view() }
}

/// `rel` releases each key of `m` once, with its modifiers, in increasing key order.
pub open spec fn releases_in_order(m: Map<u32, Seq<Seq<char>>>, rel: Seq<ActionView>) -> bool {
    &&& forall|j: int|
        0 <= j < rel.len() ==> (#[trigger] rel[j]).keycode is Some && m.contains_key(
            rel[j].keycode->0,
        ) && rel[j] == release_view(rel[j].keycode->0, m[rel[j].keycode->0])
    &&& forall|i: int, j: int|
        0 <= i < j < rel.len() ==> (#[trigger] rel[i]).keycode->0 < (#[trigger] rel[j]).keycode->0
    &&& forall|c: u32|
        #[trigger] m.contains_key(c) ==> exists|j: int|
            0 <= j < rel.len() && (#[trigger] rel[j]).keycode == Some(c)
}

/// Every key event of `s` says whether the key goes down or up.
pub open spec fn all_directed(s: Seq<ActionView>) -> bool {
    forall|j: int| 0 <= j < s.len() && (#[trigger] s[j]).keycode is Some ==> s[j].key_down is Some
}

/// The held keys, kept in increasing key order, as the map `m`.
spec fn held_matches(p: Seq<(u32, Vec<String>)>, m: Map<u32, Seq<Seq<char>>>) -> bool {
    &&& forall|a: int, b: int| 0 <= a < b < p.len() ==> (#[trigger] p[a]).0 < (#[trigger] p[b]).0
    &&& forall|j: int|
        0 <= j < p.len() ==> m.contains_key((#[trigger] p[j]).0) && m[p[j].0] == string_views(
            p[j].1@,
        )
    &&& forall|c: u32|
        #[trigger] m.contains_key(c) ==> exists|j: int| 0 <= j < p.len() && (#[trigger] p[j]).0 == c
}

/// The first position whose key is not below `c`.
fn find_slot(p: &Vec<(u32, Vec<String>)>, c: u32) -> (r: usize)
    requires
        forall|a: int, b: int| 0 <= a < b < p@.len() ==> (#[trigger] p@[a]).0 < (#[trigger] p@[b]).0,
    ensures
        r <= p@.len(),
        forall|j: int| 0 <= j < r ==> (#[trigger] p@[j]).0 < c,
        forall|j: int| r <= j < p@.len() ==> (#[trigger] p@[j]).0 >= c,
{
    let mut i: usize = 0;
    while i < p.len()
        invariant
            i <= p@.len(),
            forall|j: int| 0 <= j < i ==> (#[trigger] p@[j]).0 < c,
            forall|a: int, b: int| 0 <= a < b < p@.len() ==> (#[trigger] p@[a]).0 < (#[trigger] p@[b]).0,
        decreases p@.len() - i,
    {
        if p[i].0 >= c {
            proof {
                assert forall|j: int| i <= j < p@.len() implies (#[trigger] p@[j]).0 >= c by {
                    if j > i {
                        assert(p@[i as int].0 < p@[j].0);
                    }
                }
            }
            return i;
        }
        i += 1;
    }
    i
}

/// Records that key `c` went down with `mods`.
fn hold_key(p: &mut Vec<(u32, Vec<String>)>, c: u32, mods: Vec<String>, Ghost(m): Ghost<Map<u32, Seq<Seq<char>>>>)
    requires
        held_matches(old(p)@, m),
    ensures
        held_matches(final(p)@, m.insert(c, string_views(mods@))),
{
    let pos = find_slot(p, c);
    let ghost m2 = m.insert(c, string_views(mods@));
    let ghost mv = string_views(mods@);
    if pos < p.len() && p[pos].0 == c {
        let ghost before = p@;
        p[pos] = (c, mods);
        proof {
            assert(p@ == before.update(pos as int, (c, mods)));
            assert forall|j: int| 0 <= j < p@.len() implies m2.contains_key((#[trigger] p@[j]).0)
                && m2[p@[j].0] == string_views(p@[j].1@) by {
                if j != pos {
                    assert(p@[j] == before[j]);
                    assert(before[j].0 != c) by {
                        if j < pos {
                            assert(before[j].0 < before[pos as int].0);
                        } else {
                            assert(before[pos as int].0 < before[j].0);
                        }
                    }
                }
            }
            assert forall|k: u32| #[trigger] m2.contains_key(k) implies exists|j: int|
                0 <= j < p@.len() && (#[trigger] p@[j]).0 == k by {
                if k == c {
                    assert(p@[pos as int].0 == c);
                } else {
                    assert(m.contains_key(k));
                    let j = choose|j: int| 0 <= j < before.len() && (#[trigger] before[j]).0 == k;
                    assert(p@[j] == before[j]);
                }
            }
            assert forall|a: int, b: int| 0 <= a < b < p@.len() implies (#[trigger] p@[a]).0 < (
            #[trigger] p@[b]).0 by {
                assert(before[a].0 < before[b].0);
            }
        }
    } else {
        let ghost before = p@;
        p.insert(pos, (c, mods));
        proof {
            before.insert_ensures(pos as int, (c, mods));
            assert forall|j: int| 0 <= j < p@.len() implies m2.contains_key((#[trigger] p@[j]).0)
                && m2[p@[j].0] == string_views(p@[j].1@) by {
                if j < pos {
                    assert(p@[j] == before[j]);
                } else if j > pos {
                    assert(p@[j] == before[j - 1]);
                    assert(before[j - 1].0 != c);
                }
            }
            assert forall|k: u32| #[trigger] m2.contains_key(k) implies exists|j: int|
                0 <= j < p@.len() && (#[trigger] p@[j]).0 == k by {
                if k == c {
                    assert(p@[pos as int].0 == c);
                } else {
                    assert(m.contains_key(k));
                    let j = choose|j: int| 0 <= j < before.len() && (#[trigger] before[j]).0 == k;
                    if j < pos {
                        assert(p@[j] == before[j]);
                    } else {
                        assert(p@[j + 1] == before[j]);
                    }
                }
            }
            assert forall|a: int, b: int| 0 <= a < b < p@.len() implies (#[trigger] p@[a]).0 < (
            #[trigger] p@[b]).0 by {
                if b < pos {
                    assert(before[a].0 < before[b].0);
                } else if b == pos {
                    assert(p@[a] == before[a]);
                } else if a < pos {
                    assert(p@[b] == before[b - 1]);
                    assert(p@[a] == before[a]);
                } else if a == pos {
                    assert(p@[b] == before[b - 1]);
                    assert(before[b - 1].0 >= c);
                } else {
                    assert(before[a - 1].0 < before[b - 1].0);
                }
            }
        }
    }
}

/// Records that key `c` went up.
fn release_key(p: &mut Vec<(u32, Vec<String>)>, c: u32, Ghost(m): Ghost<Map<u32, Seq<Seq<char>>>>)
    requires
        held_matches(old(p)@, m),
    ensures
        held_matches(final(p)@, m.remove(c)),
{
    let pos = find_slot(p, c);
    let ghost m2 = m.remove(c);
    let ghost before = p@;
    if pos < p.len() && p[pos].0 == c {
        p.remove(pos);
        proof {
            before.remove_ensures(pos as int);
            assert forall|j: int| 0 <= j < p@.len() implies m2.contains_key((#[trigger] p@[j]).0)
                && m2[p@[j].0] == string_views(p@[j].1@) by {
                if j < pos {
                    assert(p@[j] == before[j]);
                    assert(before[j].0 < before[pos as int].0);
                } else {
                    assert(p@[j] == before[j + 1]);
                    assert(before[pos as int].0 < before[j + 1].0);
                }
            }
            assert forall|k: u32| #[trigger] m2.contains_key(k) implies exists|j: int|
                0 <= j < p@.len() && (#[trigger] p@[j]).0 == k by {
                assert(m.contains_key(k));
                let j = choose|j: int| 0 <= j < before.len() && (#[trigger] before[j]).0 == k;
                if j < pos {
                    assert(p@[j] == before[j]);
                } else {
                    assert(j != pos);
                    assert(p@[j - 1] == before[j]);
                }
            }
            assert forall|a: int, b: int| 0 <= a < b < p@.len() implies (#[trigger] p@[a]).0 < (
            #[trigger] p@[b]).0 by {
                if b < pos {
                    assert(before[a].0 < before[b].0);
                } else if a < pos {
                    assert(p@[a] == before[a]);
                    assert(p@[b] == before[b + 1]);
                    assert(before[a].0 < before[b + 1].0);
                } else {
                    assert(before[a + 1].0 < before[b + 1].0);
                }
            }
        }
    } else {
        proof {
            assert forall|k: u32| #[trigger] m.contains_key(k) && k == c implies false by {
                let j = choose|j: int| 0 <= j < before.len() && (#[trigger] before[j]).0 == k;
                if j < pos {
                    assert(before[j].0 < c);
                } else if j > pos {
                    assert(pos < before.len());
                    assert(before[pos as int].0 != c);
                    assert(before[pos as int].0 >= c);
                    assert(before[pos as int].0 < before[j].0);
                }
            }
            assert(m2 =~= m);
        }
    }
}

proof fn lemma_held_iff_pressed(s: Seq<ActionView>, c: u32)
    requires
        all_directed(s),
    ensures
        spec_is_key_pressed(s, c) == spec_pressed(s).contains_key(c),
    decreases s.len(),
{
    if s.len() > 0 {
        let init = s.drop_last();
        assert forall|j: int| 0 <= j < init.len() && (#[trigger] init[j]).keycode is Some implies init[j].key_down is Some by {
            assert(init[j] == s[j]);
        }
        lemma_held_iff_pressed(init, c);
        assert(s[s.len() - 1] == s.last());
    }
}

proof fn lemma_pressed_untouched(s: Seq<ActionView>, t: Seq<ActionView>, c: u32)
    requires
        forall|j: int| 0 <= j < t.len() ==> (#[trigger] t[j]).keycode != Some(c),
    ensures
        spec_is_key_pressed(s + t, c) == spec_is_key_pressed(s, c),
    decreases t.len(),
{
    if t.len() == 0 {
        assert(s + t =~= s);
    } else {
        let t0 = t.drop_last();
        assert forall|j: int| 0 <= j < t0.len() implies (#[trigger] t0[j]).keycode != Some(c) by {
            assert(t0[j] == t[j]);
        }
        lemma_pressed_untouched(s, t0, c);
        assert((s + t).drop_last() =~= s + t0);
        assert((s + t).last() == t[t.len() - 1]);
    }
}

proof fn lemma_released_last(s: Seq<ActionView>, t: Seq<ActionView>, c: u32, j: int)
    requires
        0 <= j < t.len(),
        t[j].keycode == Some(c),
        t[j].key_down == Some(false),
        forall|k: int| j < k < t.len() ==> (#[trigger] t[k]).keycode != Some(c),
    ensures
        !spec_is_key_pressed(s + t, c),
    decreases t.len(),
{
    let t0 = t.drop_last();
    assert((s + t).drop_last() =~= s + t0);
    assert((s + t).last() == t[t.len() - 1]);
    if j < t.len() - 1 {
        assert forall|k: int| j < k < t0.len() implies (#[trigger] t0[k]).keycode != Some(c) by {
            assert(t0[k] == t[k]);
        }
        lemma_released_last(s, t0, c, j);
    }
}

/// After closing, a sequence whose key events all say down or up holds no key.
proof fn lemma_closed_holds_nothing(s: Seq<ActionView>, rel: Seq<ActionView>, c: u32)
    requires
        all_directed(s),
        releases_in_order(spec_pressed(s), rel),
    ensures
        !spec_is_key_pressed(s + rel, c),
{
    let m = spec_pressed(s);
    lemma_held_iff_pressed(s, c);
    if m.contains_key(c) {
        let j = choose|j: int| 0 <= j < rel.len() && (#[trigger] rel[j]).keycode == Some(c);
        assert(rel[j] == release_view(c, m[c]));
        assert forall|k: int| j < k < rel.len() implies (#[trigger] rel[k]).keycode != Some(c) by {
            assert(rel[j].keycode->0 < rel[k].keycode->0);
        }
        lemma_released_last(s, rel, c, j);
    } else {
        assert forall|k: int| 0 <= k < rel.len() implies (#[trigger] rel[k]).keycode != Some(c) by {
            assert(m.contains_key(rel[k].keycode->0));
        }
        lemma_pressed_untouched(s, rel, c);
    }
}

/// Appends a release for every key the actions leave held down, in increasing key
/// order and with the modifiers of the key's last press, so that playing the
/// sequence leaves no key stuck.
pub fn close_pressed_keys(actions: &mut Vec<Action>)
    ensures
        final(actions)@.len() >= old(actions)@.len(),
        action_views(final(actions)@).subrange(0, old(actions)@.len() as int) == action_views(
            old(actions)@,
        ),
        releases_in_order(
            spec_pressed(action_views(old(actions)@)),
            action_views(final(actions)@).skip(old(actions)@.len() as int),
        ),
        all_directed(action_views(old(actions)@)) ==> forall|c: u32|
            !spec_is_key_pressed(action_views(final(actions)@), c),
{
    let ghost views = action_views(actions@);
    let mut held: Vec<(u32, Vec<String>)> = Vec::new();
    let mut i: usize = 0;
    proof {
        assert(views.take(0) =~= Seq::<ActionView>::empty());
    }
    while i < actions.len()
        invariant
            i <= actions@.len(),
            views == action_views(actions@),
            held_matches(held@, spec_pressed(views.take(i as int))),
        decreases actions@.len() - i,
    {
        let ghost m = spec_pressed(views.take(i as int));
        proof {
            assert(views.take(i + 1).drop_last() =~= views.take(i as int));
            assert(views.take(i + 1).last() == actions@[i as int]@);
        }
        let a = &actions[i];
        match (a.keycode, a.key_down) {
            (Some(code), Some(true)) => {
                let mods = crate::config::clone_strings(&a.modifiers);
                hold_key(&mut held, code, mods, Ghost(m));
            },
            (Some(code), Some(false)) => {
                release_key(&mut held, code, Ghost(m));
            },
            _ => {},
        }
        i += 1;
    }
    proof {
        assert(views.take(actions@.len() as int) =~= views);
    }
    let ghost m = spec_pressed(views);
    let ghost n = actions@.len();
    let mut j: usize = 0;
    while j < held.len()
        invariant
            j <= held@.len(),
            n == old(actions)@.len(),
            views == action_views(old(actions)@),
            m == spec_pressed(views),
            held_matches(held@, m),
            actions@.len() == n + j,
            action_views(actions@).subrange(0, n as int) == views,
            forall|k: int|
                0 <= k < j ==> action_views(actions@)[n + k] == release_view(
                    #[trigger] held@[k].0,
                    string_views(held@[k].1@),
                ),
        decreases held@.len() - j,
    {
        let mut release = empty_action();
        release.keycode = Some(held[j].0);
        release.key_down = Some(false);
        release.modifiers = crate::config::clone_strings(&held[j].1);
        let ghost before = actions@;
        proof {
            lemma_action_views_push(actions@, release);
            assert(release@ == release_view(held@[j as int].0, string_views(held@[j as int].1@)));
        }
        actions.push(release);
        proof {
            assert(action_views(actions@).subrange(0, n as int) =~= action_views(before).subrange(
                0,
                n as int,
            ));
        }
        j += 1;
    }
    proof {
        let rel = action_views(actions@).skip(n as int);
        assert forall|k: int| 0 <= k < rel.len() implies rel[k] == release_view(
            held@[k].0,
            string_views(held@[k].1@),
        ) by {
            assert(rel[k] == action_views(actions@)[n + k]);
            assert(held@[k].0 == held@[k].0);
        }
        assert forall|a: int, b: int| 0 <= a < b < rel.len() implies (#[trigger] rel[a]).keycode->0
            < (#[trigger] rel[b]).keycode->0 by {
            assert(held@[a].0 < held@[b].0);
        }
        assert forall|c: u32| #[trigger] m.contains_key(c) implies exists|k: int|
            0 <= k < rel.len() && (#[trigger] rel[k]).keycode == Some(c) by {
            let k = choose|k: int| 0 <= k < held@.len() && (#[trigger] held@[k]).0 == c;
            assert(rel[k].keycode == Some(c));
        }
        assert(action_views(actions@) =~= views + rel);
        if all_directed(views) {
            assert forall|c: u32| !spec_is_key_pressed(action_views(actions@), c) by {
                lemma_closed_holds_nothing(views, rel, c);
            }
        }
    }
}

/// The result of a shortcut recording: the key combination when the key has a name,
/// else the raw key code with its modifiers.
pub open spec fn spec_shortcut_result(button: u32, code: u16, flags: u64) -> ResultView {
    match spec_combo_name(flags, code) {
        Some(combo) => ResultView {
            button,
            kind: RecordingKind::Shortcut,
            label: combo,
            actions: seq![ActionView { keys: Some(combo), ..empty_action_view() }],
        },
        None => ResultView {
            button,
            kind: RecordingKind::Shortcut,
            label: "keycode "@ + dec_digits(code as nat),
            actions: seq![
                ActionView {
                    keycode: Some(code as u32),
                    modifiers: spec_modifier_names(flags),
                    ..empty_action_view()
                },
            ],
        },
    }
}

/// The label of a finished key sequence with `n` key events.
pub open spec fn sequence_label(n: nat) -> Seq<char> {
    "按键序列（"@ + dec_digits(n) + " 个事件）"@
}

/// A mouse button event seen by the recorder: the next state, whether the event is
/// kept from the system, and whether the recording serial advances.
pub open spec fn spec_record_mouse(st: StateView, button: u32, is_down: bool, now: u64) -> (
    StateView,
    bool,
    bool,
) {
    match st {
        StateView::Idle => (st, false, false),
        StateView::AwaitMouse { kind, .. } => if is_down {
            (
                match kind {
                    RecordingKind::Shortcut => StateView::Shortcut {
                        button,
                        started: now,
                        pending: None,
                        completed: None,
                        mouse_up_pending: true,
                    },
                    RecordingKind::Sequence => StateView::Sequence {
                        button,
                        last_event: now,
                        actions: Seq::empty(),
                        mouse_up_pending: true,
                    },
                },
                true,
                true,
            )
        } else {
            (st, true, false)
        },
        StateView::Shortcut { button: selected, started, pending, completed, mouse_up_pending } =>
            if !is_down && button == selected && mouse_up_pending {
            (
                StateView::Shortcut {
                    button: selected,
                    started,
                    pending,
                    completed,
                    mouse_up_pending: false,
                },
                true,
                false,
            )
        } else {
            (st, true, false)
        },
        StateView::Sequence { button: selected, last_event, actions, mouse_up_pending } =>
            if !is_down && button == selected && mouse_up_pending {
            (
                StateView::Sequence {
                    button: selected,
                    last_event,
                    actions,
                    mouse_up_pending: false,
                },
                true,
                false,
            )
        } else {
            (st, true, false)
        },
    }
}

/// A keyboard event seen by the recorder: the next state, the outcome it sets (if
/// any), whether the recording serial advances, and whether the event is kept from
/// the system.
pub open spec fn spec_record_keyboard(st: StateView, etype: u64, code: u16, flags: u64, now: u64) -> (
    StateView,
    Option<OutcomeView>,
    bool,
    bool,
) {
    match st {
        StateView::Shortcut { button, started, pending, completed, mouse_up_pending } => if etype
            == EVENT_KEY_DOWN {
            (
                StateView::Shortcut {
                    button,
                    started,
                    pending: if pending is None {
                        Some((code, flags))
                    } else {
                        pending
                    },
                    completed,
                    mouse_up_pending,
                },
                None,
                false,
                true,
            )
        } else if etype == EVENT_KEY_UP {
            match pending {
                Some((pending_code, pending_flags)) => if pending_code == code {
                    let result = spec_shortcut_result(button, pending_code, pending_flags);
                    if flags & MODIFIER_MASK == 0 {
                        (StateView::Idle, Some(OutcomeView::Completed(result)), true, true)
                    } else {
                        (
                            StateView::Shortcut {
                                button,
                                started,
                                pending,
                                completed: Some(result),
                                mouse_up_pending,
                            },
                            None,
                            false,
                            true,
                        )
                    }
                } else {
                    (st, None, false, true)
                },
                None => (st, None, false, true),
            }
        } else if etype == EVENT_FLAGS_CHANGED {
            match completed {
                Some(result) => if flags & MODIFIER_MASK == 0 {
                    (StateView::Idle, Some(OutcomeView::Completed(result)), true, true)
                } else {
                    (st, None, false, true)
                },
                None => (st, None, false, true),
            }
        } else {
            (st, None, false, false)
        },
        StateView::Sequence { button, last_event, actions, mouse_up_pending } => if etype
            == EVENT_KEY_DOWN || etype == EVENT_KEY_UP {
            let down = etype == EVENT_KEY_DOWN;
            if down && spec_is_key_pressed(actions, code as u32) {
                (st, None, false, true)
            } else {
                (
                    StateView::Sequence {
                        button,
                        last_event: now,
                        actions: spec_sequence_event(actions, last_event, now, code, flags, down),
                        mouse_up_pending,
                    },
                    None,
                    true,
                    true,
                )
            }
        } else if etype == EVENT_FLAGS_CHANGED {
            let mask = spec_modifier_mask_for_keycode(code);
            if mask != 0 {
                (
                    StateView::Sequence {
                        button,
                        last_event: now,
                        actions: spec_sequence_event(
                            actions,
                            last_event,
                            now,
                            code,
                            flags,
                            flags & mask != 0,
                        ),
                        mouse_up_pending,
                    },
                    None,
                    true,
                    true,
                )
            } else {
                (st, None, false, true)
            }
        } else {
            (st, None, false, false)
        },
        _ => (st, None, false, false),
    }
}

/// While a key sequence is recorded, a modifier key that changes state is recorded
/// as a key event of that key: going down when the event's flags hold the key's own
/// modifier (Command 0x100000 for 54/55, Shift 0x20000 for 56/60, Option 0x80000 for
/// 58/61, Control 0x40000 for 59/62), going up when they do not. The event is kept
/// from the system and ends nothing.
pub proof fn lemma_modifier_press_recorded(
    button: u32,
    last_event: u64,
    actions: Seq<ActionView>,
    mouse_up_pending: bool,
    code: u16,
    flags: u64,
    now: u64,
)
    requires
        code == 54 || code == 55 || code == 56 || code == 60 || code == 58 || code == 61 || code
            == 59 || code == 62,
    ensures
        ({
            let own: u64 = if code == 54 || code == 55 {
                0x100000
            } else if code == 56 || code == 60 {
                0x20000
            } else if code == 58 || code == 61 {
                0x80000
            } else {
                0x40000
            };
            let st = StateView::Sequence { button, last_event, actions, mouse_up_pending };
            let (next, outcome, advance, consumed) = spec_record_keyboard(
                st,
                EVENT_FLAGS_CHANGED,
                code,
                flags,
                now,
            );
            &&& next matches StateView::Sequence { actions: recorded, .. } && recorded.len() > 0
                && recorded.last().keycode == Some(code as u32) && recorded.last().key_down == Some(
                flags & own != 0)
            &&& outcome is None
            &&& consumed
        }),
{
    crate::macro_keys::lemma_modifier_key_flags(code);
}

/// Builds the result of a shortcut recording.
fn shortcut_result(button: u32, code: u16, flags: u64) -> (r: RecordingResult)
    ensures
        r@ == spec_shortcut_result(button, code, flags),
{
    let mut action = empty_action();
    let label = match combo_name(flags, code) {
        Some(combo) => {
            action.keys = Some(combo.clone());
            combo
        },
        None => {
            action.keycode = Some(code as u32);
            action.modifiers = modifier_names(flags);
            let mut l = String::from_str("keycode ");
            let digits = decimal(code as u64);
            l.append(digits.as_str());
            l
        },
    };
    let ghost av = action@;
    let actions = vec![action];
    proof {
        assert(action_views(actions@) =~= seq![av]);
    }
    RecordingResult { button, kind: RecordingKind::Shortcut, label, actions }
}

/// Moves the recorder's state out, leaving it idle.
fn take_state(tap: &mut MacroTap) -> (r: RecordingState)
    ensures
        r == old(tap).recording,
        final(tap).recording@ is Idle,
        final(tap).bindings == old(tap).bindings,
        final(tap).running == old(tap).running,
        final(tap).outcome == old(tap).outcome,
        final(tap).serial == old(tap).serial,
        final(tap).last_button == old(tap).last_button,
{
    let mut st = RecordingState::Idle;
    core::mem::swap(&mut st, &mut tap.recording);
    st
}

/// Feeds a mouse button event to the recorder. While it waits for the button to
/// bind, a press selects the button; while it records, events are kept from the
/// system. Returns whether the event is kept from the system.
pub fn record_mouse(tap: &mut MacroTap, button: u32, is_down: bool, now: u64) -> (r: bool)
    ensures
        ({
            let (st, consumed, advance) = spec_record_mouse(old(tap).recording@, button, is_down, now);
            &&& final(tap).recording@ == st
            &&& r == consumed
            &&& final(tap).serial == if advance {
                next_serial(old(tap).serial)
            } else {
                old(tap).serial
            }
        }),
        final(tap).outcome == old(tap).outcome,
        final(tap).bindings == old(tap).bindings,
        final(tap).running == old(tap).running,
        final(tap).last_button == old(tap).last_button,
{
    let st = take_state(tap);
    match st {
        RecordingState::Idle => false,
        RecordingState::AwaitMouse { kind, started } => {
            if is_down {
                tap.recording = match kind {
                    RecordingKind::Shortcut => RecordingState::Shortcut {
                        button,
                        started: now,
                        pending: None,
                        completed: None,
                        mouse_up_pending: true,
                    },
                    RecordingKind::Sequence => {
                        let actions: Vec<Action> = Vec::new();
                        proof {
                            assert(action_views(actions@) =~= Seq::<ActionView>::empty());
                        }
                        RecordingState::Sequence {
                            button,
                            last_event: now,
                            actions,
                            mouse_up_pending: true,
                        }
                    },
                };
                tap.serial = bump(tap.serial);
            } else {
                tap.recording = RecordingState::AwaitMouse { kind, started };
            }
            true
        },
        RecordingState::Shortcut { button: selected, started, pending, completed, mouse_up_pending } => {
            let still = if !is_down && button == selected && mouse_up_pending {
                false
            } else {
                mouse_up_pending
            };
            tap.recording = RecordingState::Shortcut {
                button: selected,
                started,
                pending,
                completed,
                mouse_up_pending: still,
            };
            true
        },
        RecordingState::Sequence { button: selected, last_event, actions, mouse_up_pending } => {
            let still = if !is_down && button == selected && mouse_up_pending {
                false
            } else {
                mouse_up_pending
            };
            tap.recording = RecordingState::Sequence {
                button: selected,
                last_event,
                actions,
                mouse_up_pending: still,
            };
            true
        },
    }
}

/// Feeds a keyboard event (key down, key up or modifier change) to the recorder.
/// A shortcut recording keeps the first key pressed and completes when it is
/// released with no modifier held, or when the modifiers are released afterwards.
/// A sequence recording appends every key event and modifier change, with the
/// pauses between them, skipping the repeats of a held key. Returns whether the
/// event is kept from the system.
pub fn record_keyboard(tap: &mut MacroTap, etype: u64, code: u16, flags: u64, now: u64) -> (r: bool)
    ensures
        ({
            let (st, outcome, advance, consumed) = spec_record_keyboard(
                old(tap).recording@,
                etype,
                code,
                flags,
                now,
            );
            &&& final(tap).recording@ == st
            &&& r == consumed
            &&& final(tap).serial == if advance {
                next_serial(old(tap).serial)
            } else {
                old(tap).serial
            }
            &&& match outcome {
                Some(o) => opt_outcome_view(final(tap).outcome) == Some(o),
                None => final(tap).outcome == old(tap).outcome,
            }
        }),
        final(tap).bindings == old(tap).bindings,
        final(tap).running == old(tap).running,
        final(tap).last_button == old(tap).last_button,
{
    let st = take_state(tap);
    match st {
        RecordingState::Shortcut { button, started, pending, completed, mouse_up_pending } => {
            if etype == EVENT_KEY_DOWN {
                let pending = match pending {
                    None => Some((code, flags)),
                    Some(p) => Some(p),
                };
                tap.recording = RecordingState::Shortcut {
                    button,
                    started,
                    pending,
                    completed,
                    mouse_up_pending,
                };
                return true;
            }
            if etype == EVENT_KEY_UP {
                match pending {
                    Some((pending_code, pending_flags)) => {
                        if pending_code == code {
                            let result = shortcut_result(button, pending_code, pending_flags);
                            if flags & MODIFIER_MASK == 0 {
                                set_recording_outcome(tap, RecordingOutcome::Completed(result));
                            } else {
                                tap.recording = RecordingState::Shortcut {
                                    button,
                                    started,
                                    pending,
                                    completed: Some(result),
                                    mouse_up_pending,
                                };
                            }
                            return true;
                        }
                    },
                    None => {},
                }
                tap.recording = RecordingState::Shortcut {
                    button,
                    started,
                    pending,
                    completed,
                    mouse_up_pending,
                };
                return true;
            }
            if etype == EVENT_FLAGS_CHANGED {
                match completed {
                    Some(result) => {
                        if flags & MODIFIER_MASK == 0 {
                            set_recording_outcome(tap, RecordingOutcome::Completed(result));
                        } else {
                            tap.recording = RecordingState::Shortcut {
                                button,
                                started,
                                pending,
                                completed: Some(result),
                                mouse_up_pending,
                            };
                        }
                    },
                    None => {
                        tap.recording = RecordingState::Shortcut {
                            button,
                            started,
                            pending,
                            completed: None,
                            mouse_up_pending,
                        };
                    },
                }
                return true;
            }
            tap.recording = RecordingState::Shortcut {
                button,
                started,
                pending,
                completed,
                mouse_up_pending,
            };
            false
        },
        RecordingState::Sequence { button, last_event, actions, mouse_up_pending } => {
            let mut actions = actions;
            let mut last_event = last_event;
            let mut consumed = false;
            if etype == EVENT_KEY_DOWN || etype == EVENT_KEY_UP {
                let down = etype == EVENT_KEY_DOWN;
                consumed = true;
                if !(down && is_key_pressed(&actions, code)) {
                    sequence_event(&mut actions, &mut last_event, now, code, flags, down);
                    tap.serial = bump(tap.serial);
                }
            } else if etype == EVENT_FLAGS_CHANGED {
                consumed = true;
                let mask = modifier_mask_for_keycode(code);
                if mask != 0 {
                    sequence_event(&mut actions, &mut last_event, now, code, flags, flags & mask != 0);
                    tap.serial = bump(tap.serial);
                }
            }
            tap.recording = RecordingState::Sequence { button, last_event, actions, mouse_up_pending };
            consumed
        },
        RecordingState::Idle => false,
        RecordingState::AwaitMouse { kind, started } => {
            tap.recording = RecordingState::AwaitMouse { kind, started };
            false
        },
    }
}

/// An input event as the event tap sees it: its type, the tag playback puts on the
/// events it posts, and the key code, modifier flags and mouse button it carries.
#[derive(Debug, Clone, Copy)]
pub struct TapEvent {
    pub etype: u32,
    pub user_data: i64,
    pub keycode: i64,
    pub flags: u64,
    pub button: i64,
}

/// What the event tap does with an event.
#[derive(Debug)]
pub enum TapVerdict {
    /// The tap was switched off: switch it on again and let the event through.
    Reenable,
    /// Let the event through.
    Pass,
    /// Keep the event from the system.
    Swallow,
    /// Keep the event from the system and play these actions.
    Play(Vec<Action>),
}

/// Whether an event type is a keyboard event.
pub open spec fn is_keyboard_event(t: u64) -> bool {
    t == EVENT_KEY_DOWN || t == EVENT_KEY_UP || t == EVENT_FLAGS_CHANGED
}

/// The actions bound to a mouse button and enabled, if any.
pub open spec fn spec_bound_actions(bindings: Map<Seq<char>, MacroBinding>, button: i64) -> Option<
    Seq<ActionView>,
> {
    match spec_button_key(button) {
        Some(key) => if bindings.contains_key(key) && bindings[key].enabled {
            Some(action_views(bindings[key].actions@))
        } else {
            None
        },
        None => None,
    }
}

impl MacroTap {
    /// Ends a key sequence recording: the recorder goes idle whatever it was doing.
    /// A sequence with events becomes the result, with a release appended for every
    /// key left held down; an empty one, or no sequence at all, is refused.
    pub fn finish_sequence(&mut self) -> (r: Result<RecordingResult, String>)
        ensures
            final(self).recording@ is Idle,
            final(self).outcome == old(self).outcome,
            final(self).bindings == old(self).bindings,
            final(self).running == old(self).running,
            final(self).last_button == old(self).last_button,
            match old(self).recording@ {
                StateView::Sequence { button, actions, .. } => {
                    &&& final(self).serial == next_serial(old(self).serial)
                    &&& actions.len() == 0 ==> (r matches Err(m) && m@ == "未录到键盘事件"@)
                    &&& actions.len() > 0 ==> (r matches Ok(res) && {
                        &&& res.button == button
                        &&& res.kind == RecordingKind::Sequence
                        &&& res@.actions.len() >= actions.len()
                        &&& res@.actions.subrange(0, actions.len() as int) == actions
                        &&& releases_in_order(spec_pressed(actions), res@.actions.skip(actions.len() as int))
                        &&& res.label@ == sequence_label(spec_event_count(res@.actions))
                    })
                },
                _ => final(self).serial == old(self).serial && (r matches Err(m) && m@
                    == "当前没有正在录制的按键序列"@),
            },
    {
        let st = take_state(self);
        match st {
            RecordingState::Sequence { button, actions, .. } => {
                self.serial = bump(self.serial);
                if actions.len() == 0 {
                    return Err(String::from_str("未录到键盘事件"));
                }
                let mut actions = actions;
                close_pressed_keys(&mut actions);
                let n = event_count(&actions);
                let mut label = String::from_str("按键序列（");
                let digits = decimal(n as u64);
                label.append(digits.as_str());
                label.append(" 个事件）");
                Ok(RecordingResult { button, kind: RecordingKind::Sequence, label, actions })
            },
            _ => Err(String::from_str("当前没有正在录制的按键序列")),
        }
    }
}

/// Decides what the event tap does with an event, updating the recorder and the last
/// mouse button seen. A switched-off tap is switched on again; events posted by
/// playback pass; keyboard events go to the recorder, which keeps those it records;
/// other-mouse-button events are remembered, go to the recorder, and otherwise run
/// the enabled macro bound to the button: a press plays it, both press and release
/// are kept from the system. Everything else passes.
pub fn handle_event(tap: &mut MacroTap, event: TapEvent, now: u64) -> (r: TapVerdict)
    ensures
        final(tap).bindings == old(tap).bindings,
        final(tap).running == old(tap).running,
        ({
            let t = event.etype as u64;
            if t == EVENT_TAP_DISABLED_BY_TIMEOUT || t == EVENT_TAP_DISABLED_BY_USER_INPUT {
                r is Reenable && *final(tap) == *old(tap)
            } else if event.user_data == PLAYBACK_EVENT_TAG {
                r is Pass && *final(tap) == *old(tap)
            } else if is_keyboard_event(t) {
                let (st, outcome, advance, consumed) = spec_record_keyboard(
                    old(tap).recording@,
                    t,
                    event.keycode as u16,
                    event.flags,
                    now,
                );
                &&& final(tap).recording@ == st
                &&& (if consumed { r is Swallow } else { r is Pass })
                &&& final(tap).serial == if advance {
                    next_serial(old(tap).serial)
                } else {
                    old(tap).serial
                }
                &&& match outcome {
                    Some(o) => opt_outcome_view(final(tap).outcome) == Some(o),
                    None => final(tap).outcome == old(tap).outcome,
                }
                &&& final(tap).last_button == old(tap).last_button
            } else if t != EVENT_OTHER_MOUSE_DOWN && t != EVENT_OTHER_MOUSE_UP {
                r is Pass && *final(tap) == *old(tap)
            } else {
                let is_down = t == EVENT_OTHER_MOUSE_DOWN;
                let (st, consumed, advance) = spec_record_mouse(
                    old(tap).recording@,
                    event.button as u32,
                    is_down,
                    now,
                );
                &&& final(tap).last_button == event.button
                &&& final(tap).outcome == old(tap).outcome
                &&& if event.button >= 0 && consumed {
                    &&& r is Swallow
                    &&& final(tap).recording@ == st
                    &&& final(tap).serial == if advance {
                        next_serial(old(tap).serial)
                    } else {
                        old(tap).serial
                    }
                } else {
                    &&& final(tap).recording@ == old(tap).recording@
                    &&& final(tap).serial == old(tap).serial
                    &&& match spec_bound_actions(old(tap).bindings.view(), event.button) {
                        Some(actions) => if is_down {
                            r matches TapVerdict::Play(v) && action_views(v@) == actions
                        } else {
                            r is Swallow
                        },
                        None => r is Pass,
                    }
                }
            }
        }),
{
    let t = event.etype as u64;
    if t == EVENT_TAP_DISABLED_BY_TIMEOUT || t == EVENT_TAP_DISABLED_BY_USER_INPUT {
        return TapVerdict::Reenable;
    }
    if event.user_data == PLAYBACK_EVENT_TAG {
        return TapVerdict::Pass;
    }
    if t == EVENT_KEY_DOWN || t == EVENT_KEY_UP || t == EVENT_FLAGS_CHANGED {
        let code = event.keycode as u16;
        return if record_keyboard(tap, t, code, event.flags, now) {
            TapVerdict::Swallow
        } else {
            TapVerdict::Pass
        };
    }
    let is_down = t == EVENT_OTHER_MOUSE_DOWN;
    let is_up = t == EVENT_OTHER_MOUSE_UP;
    if !is_down && !is_up {
        return TapVerdict::Pass;
    }
    let button = event.button;
    tap.last_button = button;
    if button >= 0 {
        let ghost before = *tap;
        if record_mouse(tap, button as u32, is_down, now) {
            return TapVerdict::Swallow;
        }
        assert(before.recording@ is Idle);
    }
    let key = match button_to_key(button) {
        Some(k) => k,
        None => return TapVerdict::Pass,
    };
    let binding = match tap.bindings.get(key) {
        Some(b) => b,
        None => return TapVerdict::Pass,
    };
    if !binding.enabled {
        return TapVerdict::Pass;
    }
    if is_down {
        TapVerdict::Play(clone_actions(&binding.actions))
    } else {
        TapVerdict::Swallow
    }
}

/// One step of macro playback.
#[derive(Debug)]
pub enum PlaybackStep {
    /// Wait this many milliseconds.
    Pause(u64),
    /// Press and release a key with modifiers.
    Combo { flags: u64, code: u16 },
    /// Type this text.
    Text(String),
    /// Post a key event with modifiers: down, up, or (when `down` is `None`) both.
    Keys { code: u16, flags: u64, down: Option<bool> },
}

/// What playing one action does: a delay waits, a key combination is pressed and
/// released (an unreadable one stops the playback with an error), a text is typed
/// (an empty one does nothing), a raw key event is posted; an action with none of
/// these does nothing. The first field present, in that order, decides.
pub fn playback_step(action: &Action) -> (r: Result<Option<PlaybackStep>, String>)
    ensures
        match action.delay_ms {
            Some(ms) => r matches Ok(Some(PlaybackStep::Pause(p))) && p == ms,
            None => match action.keys {
                Some(k) => match spec_parse_combo(k@) {
                    Some((f, c)) => r matches Ok(Some(PlaybackStep::Combo { flags, code }))
                        && flags == f && code == c,
                    None => r matches Err(m) && m@ == "无法解析按键: "@ + k@,
                },
                None => match action.text {
                    Some(t) => if t@.len() == 0 {
                        r matches Ok(None)
                    } else {
                        r matches Ok(Some(PlaybackStep::Text(x))) && x@ == t@
                    },
                    None => match action.keycode {
                        Some(kc) => r matches Ok(Some(PlaybackStep::Keys { code, flags, down }))
                            && code == kc as u16 && flags == spec_flags_of(action@.modifiers)
                            && down == action.key_down,
                        None => r matches Ok(None),
                    },
                },
            },
        },
{
    if let Some(ms) = action.delay_ms {
        return Ok(Some(PlaybackStep::Pause(ms)));
    }
    if let Some(keys) = &action.keys {
        return match parse_combo(keys.as_str()) {
            Ok((flags, code)) => Ok(Some(PlaybackStep::Combo { flags, code })),
            Err(e) => Err(e),
        };
    }
    if let Some(text) = &action.text {
        if text.as_str().unicode_len() == 0 {
            return Ok(None);
        }
        return Ok(Some(PlaybackStep::Text(text.clone())));
    }
    if let Some(kc) = action.keycode {
        let flags = flags_from_modifiers(action.modifiers.as_slice());
        return Ok(Some(PlaybackStep::Keys { code: kc as u16, flags, down: action.key_down }));
    }
    Ok(None)
}

/// The reason a recording is given up after waiting, if it has waited too long.
pub open spec fn spec_expiry(st: StateView, now: u64) -> Option<Seq<char>> {
    match st {
        StateView::AwaitMouse { started, .. } => if now >= started && now - started
            >= AWAIT_MOUSE_TIMEOUT_MS {
            Some("等待鼠标按键超时；该按键可能未暴露给主机"@)
        } else {
            None
        },
        StateView::Shortcut { started, .. } => if now >= started && now - started
            >= SHORTCUT_TIMEOUT_MS {
            Some("等待快捷键超时"@)
        } else {
            None
        },
        StateView::Sequence { last_event, .. } => if now >= last_event && now - last_event
            >= SEQUENCE_IDLE_TIMEOUT_MS {
            Some("按键序列录制空闲超时"@)
        } else {
            None
        },
        StateView::Idle => None,
    }
}

impl MacroTap {
    /// A stopped engine with the given bindings, nothing recorded, no button seen.
    pub fn new(bindings: NamedMap<MacroBinding>) -> (r: Self)
        ensures
            r.bindings == bindings,
            !r.running,
            r.recording@ == StateView::Idle,
            r.outcome is None,
            r.serial == 0,
            r.last_button == -1,
    {
        MacroTap {
            bindings,
            running: false,
            recording: RecordingState::Idle,
            outcome: None,
            serial: 0,
            last_button: -1,
        }
    }

    /// The macro bindings.
    pub fn bindings(&self) -> (r: &NamedMap<MacroBinding>)
        ensures
            *r == self.bindings,
    {
        &self.bindings
    }

    /// Replaces the macro bindings.
    pub fn update_bindings(&mut self, new_bindings: NamedMap<MacroBinding>)
        ensures
            final(self).bindings == new_bindings,
            final(self).running == old(self).running,
            final(self).recording == old(self).recording,
            final(self).outcome == old(self).outcome,
            final(self).serial == old(self).serial,
            final(self).last_button == old(self).last_button,
    {
        self.bindings = new_bindings;
    }

    /// The number of the last mouse button seen.
    pub fn last_button(&self) -> (r: Option<u32>)
        ensures
            r == spec_last_button(self.last_button),
    {
        last_button(self)
    }

    /// Whether the event tap runs.
    pub fn is_running(&self) -> (r: bool)
        ensures
            r == self.running,
    {
        self.running
    }

    /// Starts a recording of the given kind: the recorder waits for the mouse button
    /// to bind, any earlier outcome is dropped. Refused while the tap does not run.
    pub fn begin_recording(&mut self, kind: RecordingKind, now: u64) -> (r: Result<(), String>)
        ensures
            old(self).running ==> r is Ok && final(self).recording@ == (StateView::AwaitMouse {
                kind,
                started: now,
            }) && final(self).outcome is None && final(self).serial == next_serial(
                old(self).serial,
            ),
            !old(self).running ==> (r matches Err(m) && m@ == "宏引擎尚未运行"@),
            !old(self).running ==> final(self).recording == old(self).recording
                && final(self).outcome == old(self).outcome && final(self).serial == old(self).serial,
            final(self).bindings == old(self).bindings,
            final(self).running == old(self).running,
            final(self).last_button == old(self).last_button,
    {
        if !self.running {
            return Err(String::from_str("宏引擎尚未运行"));
        }
        self.recording = RecordingState::AwaitMouse { kind, started: now };
        self.outcome = None;
        self.serial = bump(self.serial);
        Ok(())
    }

    /// Gives up a running recording with a reason, which becomes its outcome. An idle
    /// recorder is left alone.
    pub fn cancel_recording(&mut self, reason: String)
        ensures
            old(self).recording@ is Idle ==> final(self).recording == old(self).recording
                && final(self).outcome == old(self).outcome && final(self).serial == old(
                self,
            ).serial,
            !(old(self).recording@ is Idle) ==> final(self).recording@ is Idle
                && final(self).outcome == Some(RecordingOutcome::Cancelled(reason))
                && final(self).serial == next_serial(old(self).serial),
            final(self).bindings == old(self).bindings,
            final(self).running == old(self).running,
            final(self).last_button == old(self).last_button,
    {
        match self.recording {
            RecordingState::Idle => {},
            _ => {
                self.recording = RecordingState::Idle;
                set_recording_outcome(self, RecordingOutcome::Cancelled(reason));
            },
        }
    }

    /// Gives up a recording that has waited too long: 20 s for the mouse button,
    /// 30 s for a shortcut, 120 s without a key in a sequence.
    pub fn expire_recording(&mut self, now: u64)
        ensures
            match spec_expiry(old(self).recording@, now) {
                Some(reason) => final(self).recording@ is Idle && (final(self).outcome matches Some(
                    RecordingOutcome::Cancelled(m),
                ) && m@ == reason) && final(self).serial == next_serial(old(self).serial),
                None => final(self).recording == old(self).recording && final(self).outcome == old(
                    self,
                ).outcome && final(self).serial == old(self).serial,
            },
            final(self).bindings == old(self).bindings,
            final(self).running == old(self).running,
            final(self).last_button == old(self).last_button,
    {
        let reason: Option<&str> = match &self.recording {
            RecordingState::AwaitMouse { started, .. } => if now >= *started && now - *started
                >= AWAIT_MOUSE_TIMEOUT_MS {
                Some("等待鼠标按键超时；该按键可能未暴露给主机")
            } else {
                None
            },
            RecordingState::Shortcut { started, .. } => if now >= *started && now - *started
                >= SHORTCUT_TIMEOUT_MS {
                Some("等待快捷键超时")
            } else {
                None
            },
            RecordingState::Sequence { last_event, .. } => if now >= *last_event && now
                - *last_event >= SEQUENCE_IDLE_TIMEOUT_MS {
                Some("按键序列录制空闲超时")
            } else {
                None
            },
            RecordingState::Idle => None,
        };
        if let Some(reason) = reason {
            self.cancel_recording(String::from_str(reason));
        }
    }
}

} // verus!
