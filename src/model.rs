use vstd::prelude::*;

use std::collections::HashMap;

use crate::key::{Key, KEY_COUNT};
use crate::layout::{
    prepare_layout, table_in_bounds, table_rows, KeyboardLayout, KeyboardLayouts,
};

verus! {

/// Symbolic width of a key, in quarter-unit steps from half a unit to 6.75 units.
#[derive(Clone, Copy, Debug, PartialEq, Eq, Structural)]
pub enum KeySize {
    U05,
    U1,
    U15,
    U175,
    U2,
    U225,
    U250,
    U275,
    U4,
    U675,
}

impl KeySize {
    /// Width of a key of this size in terminal cells (one unit is about five cells).
    pub open spec fn cells(self) -> int {
        match self {
            KeySize::U05 => 2,
            KeySize::U1 => 5,
            KeySize::U15 => 7,
            KeySize::U175 => 8,
            KeySize::U2 => 10,
            KeySize::U225 => 11,
            KeySize::U250 => 12,
            KeySize::U275 => 14,
            KeySize::U4 => 20,
            KeySize::U675 => 34,
        }
    }

    pub fn static_len(&self) -> (r: i16)
        ensures
            r as int == self.cells(),
    {
        match self {
            KeySize::U05 => 2,
            KeySize::U1 => 5,
            KeySize::U15 => 7,
            KeySize::U175 => 8,
            KeySize::U2 => 10,
            KeySize::U225 => 11,
            KeySize::U250 => 12,
            KeySize::U275 => 14,
            KeySize::U4 => 20,
            KeySize::U675 => 34,
        }
    }
}

/// Which half of a key drawn as two stacked cells a cell stands for.
#[derive(Clone, Copy, Debug, PartialEq, Eq, Structural)]
pub enum VerticalKeyPart {
    TOP,
    BOTTOM,
}

/// One cell of a layout row: a key, its symbolic width, an optional signed
/// correction in terminal cells, and an optional vertical half.
#[derive(Clone, Copy, Debug, PartialEq, Eq, Structural)]
pub struct KeyUI {
    pub key: Key,
    pub size: KeySize,
    pub size_correction: Option<i16>,
    pub vertical_key_part: Option<VerticalKeyPart>,
}

/// What the size-selection menu hands back.
#[derive(Clone, Copy, Debug, PartialEq, Eq, Structural)]
pub enum MenuResult {
    KeyboardSelected(KeyboardSize),
    Terminate,
}

/// Display state of one key.
#[derive(Clone, Copy, Debug, PartialEq, Eq, Structural)]
pub enum KeyState {
    Pressed,
    Released,
    Untouched,
}

/// A key transition reported by an input backend.
#[derive(Clone, Copy, Debug, PartialEq, Eq, Structural)]
pub enum KeyEventType {
    KeyPressed(Key),
    KeyReleased(Key),
}

/// A request from the control listener.
#[derive(Clone, Copy, Debug, PartialEq, Eq, Structural)]
pub enum ControlEventType {
    Terminate,
    Reset,
}

/// Everything the main loop receives on its event channel.
#[derive(Clone, Copy, Debug, PartialEq, Eq, Structural)]
pub enum AppEvent {
    KeyEvent(KeyEventType),
    ControlEvent(ControlEventType),
    ScreenResize,
}

/// Keyboard form factor.
#[derive(Clone, Copy, Debug, PartialEq, Eq, Structural)]
pub enum KeyboardSize {
    Keyboard60,
    Keyboard80,
    Keyboard100,
}

impl KeyboardSize {
    pub open spec fn spec_label(self) -> Seq<char> {
        match self {
            KeyboardSize::Keyboard60 => "60% layout"@,
            KeyboardSize::Keyboard80 => "80% layout"@,
            KeyboardSize::Keyboard100 => "100% layout"@,
        }
    }

    /// Menu text for this form factor.
    pub fn label(&self) -> (r: &'static str)
        ensures
            r@ == self.spec_label(),
    {
        match self {
            KeyboardSize::Keyboard60 => "60% layout",
            KeyboardSize::Keyboard80 => "80% layout",
            KeyboardSize::Keyboard100 => "100% layout",
        }
    }
}

/// An error with a human-readable message.
#[derive(Debug)]
pub struct KbtError {
    pub message: String,
}

/// The declarative row tables of the three form factors.
pub struct Rows {
    pub rows_60: Vec<Vec<KeyUI>>,
    pub rows_80: Vec<Vec<KeyUI>>,
    pub rows_100: Vec<Vec<KeyUI>>,
}

/// What the main loop does after handling an event.
#[derive(Clone, Copy, Debug, PartialEq, Eq, Structural)]
pub enum LoopControl {
    Continue,
    Exit,
}

/// State of `k` in a key-state map; a key that is absent is untouched.
pub open spec fn state_of(m: Map<Key, KeyState>, k: Key) -> KeyState {
    if m.contains_key(k) {
        m[k]
    } else {
        KeyState::Untouched
    }
}

/// The key-state map after one event: a press marks the key pressed, a release
/// marks it released only where it was pressed, a reset empties the map, and
/// every other event leaves it as it is.
pub open spec fn next_states(m: Map<Key, KeyState>, e: AppEvent) -> Map<Key, KeyState> {
    match e {
        AppEvent::KeyEvent(KeyEventType::KeyPressed(k)) => m.insert(k, KeyState::Pressed),
        AppEvent::KeyEvent(KeyEventType::KeyReleased(k)) => if state_of(m, k)
            == KeyState::Pressed {
            m.insert(k, KeyState::Released)
        } else {
            m
        },
        AppEvent::ControlEvent(ControlEventType::Reset) => Map::empty(),
        _ => m,
    }
}

/// The key-state map after a sequence of events, applied in order.
pub open spec fn replay(m: Map<Key, KeyState>, events: Seq<AppEvent>) -> Map<Key, KeyState>
    decreases events.len(),
{
    if events.len() == 0 {
        m
    } else {
        next_states(replay(m, events.drop_last()), events.last())
    }
}

/// A release leaves the key states as they are unless the key's state just
/// before it is pressed; where it is, the key becomes released.
pub proof fn lemma_release_needs_press(m: Map<Key, KeyState>, events: Seq<AppEvent>, k: Key)
    ensures
        ({
            let before = replay(m, events);
            let after = replay(m, events.push(AppEvent::KeyEvent(KeyEventType::KeyReleased(k))));
            &&& state_of(before, k) == KeyState::Pressed ==> after == before.insert(
                k,
                KeyState::Released,
            )
            &&& state_of(before, k) != KeyState::Pressed ==> after == before
        }),
{
    let e = AppEvent::KeyEvent(KeyEventType::KeyReleased(k));
    assert(events.push(e).drop_last() == events);
}

/// A reset empties the key states, whatever they held.
pub proof fn lemma_reset_empties(m: Map<Key, KeyState>)
    ensures
        next_states(m, AppEvent::ControlEvent(ControlEventType::Reset)) == Map::<
            Key,
            KeyState,
        >::empty(),
{
}

/// A press of a key followed by its release leaves the key released, from any
/// key states.
pub proof fn lemma_press_then_release(m: Map<Key, KeyState>, k: Key)
    ensures
        replay(
            m,
            seq![
                AppEvent::KeyEvent(KeyEventType::KeyPressed(k)),
                AppEvent::KeyEvent(KeyEventType::KeyReleased(k)),
            ],
        ) == m.insert(k, KeyState::Released),
{
    let s = seq![
        AppEvent::KeyEvent(KeyEventType::KeyPressed(k)),
        AppEvent::KeyEvent(KeyEventType::KeyReleased(k)),
    ];
    assert(s.drop_last().drop_last() == Seq::<AppEvent>::empty());
    assert(replay(m, s.drop_last().drop_last()) == m);
    assert(replay(m, s.drop_last()) == m.insert(k, KeyState::Pressed));
    assert(m.insert(k, KeyState::Pressed).insert(k, KeyState::Released) =~= m.insert(
        k,
        KeyState::Released,
    ));
}

/// Starting with no key touched, a key has an entry only if it was pressed
/// after the last reset, and every entry is a press or a release.
pub proof fn lemma_entries_come_from_presses(events: Seq<AppEvent>, k: Key)
    requires
        replay(Map::empty(), events).contains_key(k),
    ensures
        replay(Map::empty(), events)[k] != KeyState::Untouched,
        exists|i: int|
            0 <= i < events.len() && #[trigger] events[i] == AppEvent::KeyEvent(
                KeyEventType::KeyPressed(k),
            ) && forall|j: int|
                i < j < events.len() ==> #[trigger] events[j] != AppEvent::ControlEvent(
                    ControlEventType::Reset,
                ),
    decreases events.len(),
{
    let pressed = AppEvent::KeyEvent(KeyEventType::KeyPressed(k));
    let reset = AppEvent::ControlEvent(ControlEventType::Reset);
    let n = events.len() as int;
    let rest = events.drop_last();
    let before = replay(Map::empty(), rest);
    let last = events.last();
    if last == pressed {
        assert(events[n - 1] == pressed);
    } else {
        assert(last != reset);
        assert(before.contains_key(k));
        lemma_entries_come_from_presses(rest, k);
        let i = choose|i: int|
            0 <= i < rest.len() && #[trigger] rest[i] == pressed && forall|j: int|
                i < j < rest.len() ==> #[trigger] rest[j] != reset;
        assert(events[i] == pressed);
        assert forall|j: int| i < j < events.len() implies #[trigger] events[j] != reset by {
            if j < n - 1 {
                assert(events[j] == rest[j]);
            }
        }
    }
}

/// Process state: the state of every key that was touched since the last
/// reset (keyed by `Key::index`), the selected form factor and the prepared
/// layouts. The main loop is its only writer.
pub struct App {
    pub key_states: HashMap<u8, KeyState>,
    pub keyboard_size: KeyboardSize,
    pub layouts: KeyboardLayouts,
}

impl App {
    /// The state of each touched key; untouched keys are absent.
    pub open spec fn states(&self) -> Map<Key, KeyState> {
        Map::new(
            |k: Key| self.key_states@.contains_key(k.spec_index()),
            |k: Key| self.key_states@[k.spec_index()],
        )
    }

    /// Every entry belongs to a key and records a press or a release.
    pub open spec fn wf(&self) -> bool {
        forall|i: u8| #[trigger]
            self.key_states@.contains_key(i) ==> i < KEY_COUNT && (self.key_states@[i]
                == KeyState::Pressed || self.key_states@[i] == KeyState::Released)
    }

    /// The layout of the selected form factor.
    pub open spec fn spec_layout(&self) -> KeyboardLayout {
        match self.keyboard_size {
            KeyboardSize::Keyboard60 => self.layouts.layout_60,
            KeyboardSize::Keyboard80 => self.layouts.layout_80,
            KeyboardSize::Keyboard100 => self.layouts.layout_100,
        }
    }

    /// A fresh state for the selected form factor: no key touched, and the
    /// layouts prepared from the row tables.
    pub fn new(keyboard_size: KeyboardSize, rows: Rows) -> (r: App)
        requires
            table_in_bounds(table_rows(rows.rows_60@)),
            table_in_bounds(table_rows(rows.rows_80@)),
            table_in_bounds(table_rows(rows.rows_100@)),
        ensures
            r.wf(),
            r.states() == Map::<Key, KeyState>::empty(),
            r.keyboard_size == keyboard_size,
            r.layouts.layout_60.wf(),
            r.layouts.layout_80.wf(),
            r.layouts.layout_100.wf(),
            r.layouts.layout_60.key_rows() == table_rows(rows.rows_60@),
            r.layouts.layout_80.key_rows() == table_rows(rows.rows_80@),
            r.layouts.layout_100.key_rows() == table_rows(rows.rows_100@),
    {
        let r = App {
            key_states: HashMap::new(),
            keyboard_size,
            layouts: KeyboardLayouts {
                layout_60: prepare_layout(rows.rows_60),
                layout_80: prepare_layout(rows.rows_80),
                layout_100: prepare_layout(rows.rows_100),
            },
        };
        assert(r.states() =~= Map::<Key, KeyState>::empty());
        r
    }

    /// Forgets every key: all keys are untouched again.
    pub fn reset(&mut self)
        ensures
            final(self).wf(),
            final(self).states() == Map::<Key, KeyState>::empty(),
            final(self).keyboard_size == old(self).keyboard_size,
            final(self).layouts == old(self).layouts,
    {
        self.key_states = HashMap::new();
        assert(self.states() =~= Map::<Key, KeyState>::empty());
    }

    /// The state of one key.
    pub fn key_state(&self, key: Key) -> (r: KeyState)
        ensures
            r == state_of(self.states(), key),
    {
        broadcast use vstd::std_specs::hash::group_hash_axioms;

        let idx = key.index();
        match self.key_states.get(&idx) {
            Some(s) => *s,
            None => KeyState::Untouched,
        }
    }

    /// Number of keys pressed or released since the last reset.
    pub fn touched_count(&self) -> (r: usize)
        requires
            self.wf(),
        ensures
            r == self.states().dom().len(),
    {
        broadcast use vstd::std_specs::hash::group_hash_axioms;

        proof {
            let d = self.key_states@.dom();
            let f = |i: u8| Key::from_index(i);
            assert forall|i: u8, j: u8|
                d.contains(i) && d.contains(j) && #[trigger] f(i) == #[trigger] f(j) implies i
                == j by {
                Key::lemma_from_index_round_trip(i);
                Key::lemma_from_index_round_trip(j);
            }
            assert forall|k: Key| #[trigger]
                self.states().dom().contains(k) == d.map(f).contains(k) by {
                k.lemma_index_round_trip();
                if d.map(f).contains(k) {
                    let i = choose|i: u8| d.contains(i) && f(i) == k;
                    Key::lemma_from_index_round_trip(i);
                }
                if self.states().dom().contains(k) {
                    assert(d.contains(k.spec_index()) && f(k.spec_index()) == k);
                }
            }
            assert(self.states().dom() =~= d.map(f));
            vstd::set_lib::lemma_map_size(d, d.map(f), f);
        }
        self.key_states.len()
    }

    /// Applies one event to the key states, and says whether the main loop
    /// goes on: it stops on a terminate request only.
    pub fn handle_event(&mut self, event: AppEvent) -> (r: LoopControl)
        requires
            old(self).wf(),
        ensures
            final(self).wf(),
            final(self).states() == next_states(old(self).states(), event),
            final(self).keyboard_size == old(self).keyboard_size,
            final(self).layouts == old(self).layouts,
            r == (if event == AppEvent::ControlEvent(ControlEventType::Terminate) {
                LoopControl::Exit
            } else {
                LoopControl::Continue
            }),
    {
        broadcast use vstd::std_specs::hash::group_hash_axioms;

        proof {
            Key::lemma_index_injective();
        }
        match event {
            AppEvent::KeyEvent(KeyEventType::KeyPressed(key)) => {
                let idx = key.index();
                self.key_states.insert(idx, KeyState::Pressed);
                assert(self.states() =~= old(self).states().insert(key, KeyState::Pressed));
                LoopControl::Continue
            },
            AppEvent::KeyEvent(KeyEventType::KeyReleased(key)) => {
                let current = self.key_state(key);
                if current == KeyState::Pressed {
                    let idx = key.index();
                    self.key_states.insert(idx, KeyState::Released);
                    assert(self.states() =~= old(self).states().insert(key, KeyState::Released));
                }
                LoopControl::Continue
            },
            AppEvent::ControlEvent(ControlEventType::Terminate) => LoopControl::Exit,
            AppEvent::ControlEvent(ControlEventType::Reset) => {
                self.reset();
                LoopControl::Continue
            },
            AppEvent::ScreenResize => LoopControl::Continue,
        }
    }
}

} // verus!
