//! The keyboard shortcut matcher: the table from logical events to key
//! chords, chord display formatting, and the per-tick edge-triggered
//! matching against the raw key feed.

use vstd::prelude::*;

use crate::events::UiEvent;
use crate::events::ui_event_eq;

verus! {

/// A physical key the shortcut table can name.
#[derive(Clone, Copy, PartialEq, Eq, Structural, Debug, Hash)]
pub enum KeyCode {
    ControlLeft,
    ShiftLeft,
    AltLeft,
    SuperLeft,
    Tab,
    Enter,
    Escape,
    Space,
    F1,
    F2,
    F4,
    F5,
    F11,
    KeyA,
    KeyC,
    KeyN,
    KeyO,
    KeyQ,
    KeyS,
    KeyV,
    KeyW,
    KeyX,
    KeyZ,
}

/// The platform the table is built for; platform-conditional entries are
/// resolved once, at table construction, not per lookup.
#[derive(Clone, Copy, PartialEq, Eq, Structural, Debug)]
pub enum Platform {
    Windows,
    MacOs,
    Linux,
}

/// Holds a chord's keys in a small vector of the `smallvec` crate, inline
/// up to three keys. Verus cannot declare that generic type, so this struct
/// carries it opaquely; [`key_chord`] names what it stores.
#[verifier::external_body]
pub struct KeyChord {
    vec: smallvec::SmallVec<[KeyCode; 3]>,
}

/// The elements a chord vector stores, in order.
pub uninterp spec fn key_chord(v: KeyChord) -> Seq<KeyCode>;

/// Relies on smallvec::SmallVec::new: constructs an empty vector.
#[verifier::external_body]
fn chord_new() -> (r: KeyChord)
    ensures
        key_chord(r) == Seq::<KeyCode>::empty(),
{
    KeyChord { vec: smallvec::SmallVec::new() }
}

/// Relies on smallvec::SmallVec::push: appends one element at the end.
#[verifier::external_body]
fn chord_push(v: &mut KeyChord, key: KeyCode)
    ensures
        key_chord(*final(v)) == key_chord(*old(v)).push(key),
{
    v.vec.push(key)
}

/// Relies on smallvec::SmallVec::len: the number of stored elements.
#[verifier::external_body]
fn chord_len(v: &KeyChord) -> (n: usize)
    ensures
        n == key_chord(*v).len(),
{
    v.vec.len()
}

/// Relies on smallvec::SmallVec's Deref to a slice of the stored elements,
/// in order; indexing that slice reads the element at the position.
#[verifier::external_body]
fn chord_key(v: &KeyChord, i: usize) -> (k: KeyCode)
    requires
        i < key_chord(*v).len(),
    ensures
        k == key_chord(*v)[i as int],
{
    v.vec[i]
}

/// Relies on smallvec::SmallVec's Clone: clones the elements one by one,
/// in order; `KeyCode` is `Copy`, so the clone holds the same elements.
#[verifier::external_body]
fn chord_clone(v: &KeyChord) -> (r: KeyChord)
    ensures
        key_chord(r) == key_chord(*v),
{
    KeyChord { vec: v.vec.clone() }
}

/// An ordered chord of 1 to 3 physical keys bound to one logical event.
pub struct Shortcut {
    pub keys: KeyChord,
}

impl View for Shortcut {
    type V = Seq<KeyCode>;

    open spec fn view(&self) -> Seq<KeyCode> {
        key_chord(self.keys)
    }
}

impl Shortcut {
    /// Builds a chord from its keys, in order.
    pub fn from_keys(keys: &Vec<KeyCode>) -> (r: Shortcut)
        ensures
            r@ == keys@,
    {
        let mut chord = chord_new();
        let mut i: usize = 0;
        while i < keys.len()
            invariant
                0 <= i <= keys@.len(),
                key_chord(chord) == keys@.take(i as int),
            decreases keys@.len() - i,
        {
            chord_push(&mut chord, keys[i]);
            proof {
                assert(keys@.take(i + 1 as int) =~= keys@.take(i as int).push(keys@[i as int]));
            }
            i = i + 1;
        }
        proof {
            assert(keys@.take(keys@.len() as int) =~= keys@);
        }
        Shortcut { keys: chord }
    }

    /// An exact copy of the chord.
    pub fn duplicate(&self) -> (r: Shortcut)
        ensures
            r@ == self@,
    {
        Shortcut { keys: chord_clone(&self.keys) }
    }

    /// The keys of the chord as a plain vector, in order.
    pub fn keys_vec(&self) -> (r: Vec<KeyCode>)
        ensures
            r@ == self@,
    {
        let mut out: Vec<KeyCode> = Vec::new();
        let n = chord_len(&self.keys);
        let mut i: usize = 0;
        while i < n
            invariant
                0 <= i <= n,
                n == self@.len(),
                out@ == self@.take(i as int),
            decreases n - i,
        {
            out.push(chord_key(&self.keys, i));
            proof {
                assert(self@.take(i + 1 as int) =~= self@.take(i as int).push(self@[i as int]));
            }
            i = i + 1;
        }
        proof {
            assert(self@.take(n as int) =~= self@);
        }
        out
    }
}

/// The short display name of a key: modifiers by their conventional short
/// names (the platform decides between `Win` and `Cmd`), letter keys by
/// their bare letter, the rest by their key name.
pub open spec fn spec_key_name(key: KeyCode, platform: Platform) -> Seq<char> {
    match key {
        KeyCode::ControlLeft => "Ctrl"@,
        KeyCode::ShiftLeft => "Shift"@,
        KeyCode::AltLeft => "Alt"@,
        KeyCode::SuperLeft => if platform is Windows { "Win"@ } else { "Cmd"@ },
        KeyCode::Tab => "Tab"@,
        KeyCode::Enter => "Enter"@,
        KeyCode::Escape => "Escape"@,
        KeyCode::Space => "Space"@,
        KeyCode::F1 => "F1"@,
        KeyCode::F2 => "F2"@,
        KeyCode::F4 => "F4"@,
        KeyCode::F5 => "F5"@,
        KeyCode::F11 => "F11"@,
        KeyCode::KeyA => "A"@,
        KeyCode::KeyC => "C"@,
        KeyCode::KeyN => "N"@,
        KeyCode::KeyO => "O"@,
        KeyCode::KeyQ => "Q"@,
        KeyCode::KeyS => "S"@,
        KeyCode::KeyV => "V"@,
        KeyCode::KeyW => "W"@,
        KeyCode::KeyX => "X"@,
        KeyCode::KeyZ => "Z"@,
    }
}

/// Formats one key for display in a menu entry.
pub fn format_keycode(key: KeyCode, platform: Platform) -> (r: String)
    ensures
        r@ == spec_key_name(key, platform),
{
    let name: &str = match key {
        KeyCode::ControlLeft => "Ctrl",
        KeyCode::ShiftLeft => "Shift",
        KeyCode::AltLeft => "Alt",
        KeyCode::SuperLeft => if matches!(platform, Platform::Windows) { "Win" } else { "Cmd" },
        KeyCode::Tab => "Tab",
        KeyCode::Enter => "Enter",
        KeyCode::Escape => "Escape",
        KeyCode::Space => "Space",
        KeyCode::F1 => "F1",
        KeyCode::F2 => "F2",
        KeyCode::F4 => "F4",
        KeyCode::F5 => "F5",
        KeyCode::F11 => "F11",
        KeyCode::KeyA => "A",
        KeyCode::KeyC => "C",
        KeyCode::KeyN => "N",
        KeyCode::KeyO => "O",
        KeyCode::KeyQ => "Q",
        KeyCode::KeyS => "S",
        KeyCode::KeyV => "V",
        KeyCode::KeyW => "W",
        KeyCode::KeyX => "X",
        KeyCode::KeyZ => "Z",
    };
    name.to_owned()
}

/// The display text of a chord: its key names joined with `+`.
pub open spec fn spec_chord_text(chord: Seq<KeyCode>, platform: Platform) -> Seq<char>
    decreases chord.len(),
{
    if chord.len() == 0 {
        Seq::<char>::empty()
    } else if chord.len() == 1 {
        spec_key_name(chord[0], platform)
    } else {
        spec_chord_text(chord.drop_last(), platform) + "+"@ + spec_key_name(chord.last(), platform)
    }
}

impl Shortcut {
    /// Renders the chord for display, e.g. as a menu entry's hint.
    pub fn display_string(&self, platform: Platform) -> (r: String)
        ensures
            r@ == spec_chord_text(self@, platform),
    {
        let n = chord_len(&self.keys);
        let mut out = String::new();
        if n == 0 {
            return out;
        }
        let mut first = format_keycode(chord_key(&self.keys, 0), platform);
        out.append(first.as_str());
        proof {
            assert(self@.take(1) =~= seq![self@[0]]);
            assert(out@ == spec_chord_text(self@.take(1), platform));
        }
        let mut i: usize = 1;
        while i < n
            invariant
                1 <= i <= n,
                n == self@.len(),
                out@ == spec_chord_text(self@.take(i as int), platform),
            decreases n - i,
        {
            out.append("+");
            let name = format_keycode(chord_key(&self.keys, i), platform);
            out.append(name.as_str());
            proof {
                let t = self@.take(i + 1 as int);
                assert(t.drop_last() =~= self@.take(i as int));
                assert(t.last() == self@[i as int]);
            }
            i = i + 1;
        }
        proof {
            assert(self@.take(n as int) =~= self@);
        }
        out
    }
}

/// The table from logical events to key chords; one chord per event,
/// immutable after construction.
pub struct Shortcuts {
    pub shortcuts: Vec<(UiEvent, Shortcut)>,
}

impl Shortcuts {
    /// Event identity is unique — one chord per event — and every chord
    /// holds 1 to 3 keys.
    pub open spec fn wf(self) -> bool {
        &&& forall|i: int, j: int| 0 <= i < j < self.shortcuts@.len()
            ==> !ui_event_eq(self.shortcuts@[i].0, self.shortcuts@[j].0)
        &&& forall|i: int| 0 <= i < self.shortcuts@.len()
            ==> 1 <= (#[trigger] self.shortcuts@[i]).1@.len() <= 3
    }

    /// The chord bound to an event, as a copy, or `None` for an unbound
    /// event.
    pub fn get_shortcut(&self, event: &UiEvent) -> (r: Option<Shortcut>)
        ensures
            match r {
                Some(s) => exists|i: int| 0 <= i < self.shortcuts@.len()
                    && ui_event_eq((#[trigger] self.shortcuts@[i]).0, *event)
                    && s@ == self.shortcuts@[i].1@,
                None => forall|i: int| 0 <= i < self.shortcuts@.len()
                    ==> !ui_event_eq((#[trigger] self.shortcuts@[i]).0, *event),
            },
    {
        let mut i: usize = 0;
        while i < self.shortcuts.len()
            invariant
                0 <= i <= self.shortcuts@.len(),
                forall|j: int| 0 <= j < i
                    ==> !ui_event_eq((#[trigger] self.shortcuts@[j]).0, *event),
            decreases self.shortcuts@.len() - i,
        {
            if self.shortcuts[i].0 == *event {
                return Some(self.shortcuts[i].1.duplicate());
            }
            i = i + 1;
        }
        None
    }
}

fn chord1(a: KeyCode) -> (r: Shortcut)
    ensures
        r@ == seq![a],
{
    let mut c = chord_new();
    chord_push(&mut c, a);
    proof {
        assert(key_chord(c) =~= seq![a]);
    }
    Shortcut { keys: c }
}

fn chord2(a: KeyCode, b: KeyCode) -> (r: Shortcut)
    ensures
        r@ == seq![a, b],
{
    let mut c = chord_new();
    chord_push(&mut c, a);
    chord_push(&mut c, b);
    proof {
        assert(key_chord(c) =~= seq![a, b]);
    }
    Shortcut { keys: c }
}

fn chord3(a: KeyCode, b: KeyCode, c: KeyCode) -> (r: Shortcut)
    ensures
        r@ == seq![a, b, c],
{
    let mut chord = chord_new();
    chord_push(&mut chord, a);
    chord_push(&mut chord, b);
    chord_push(&mut chord, c);
    proof {
        assert(key_chord(chord) =~= seq![a, b, c]);
    }
    Shortcut { keys: chord }
}

/// The bootstrap shortcut table: each entry's event and chord, in table
/// order. The exit chord and the super-key name are the platform-resolved
/// entries.
pub open spec fn spec_default_shortcuts(platform: Platform) -> Seq<(UiEvent, Seq<KeyCode>)> {
    seq![
        (UiEvent::NextTab, seq![KeyCode::ControlLeft, KeyCode::Tab]),
        (UiEvent::PreviousTab, seq![KeyCode::ControlLeft, KeyCode::ShiftLeft, KeyCode::Tab]),
        (UiEvent::FileNew, seq![KeyCode::ControlLeft, KeyCode::KeyN]),
        (UiEvent::FileOpen, seq![KeyCode::ControlLeft, KeyCode::KeyO]),
        (UiEvent::FileSave, seq![KeyCode::ControlLeft, KeyCode::KeyS]),
        (UiEvent::FileSaveAs, seq![KeyCode::ControlLeft, KeyCode::ShiftLeft, KeyCode::KeyS]),
        (UiEvent::FileClose, seq![KeyCode::ControlLeft, KeyCode::KeyW]),
        (
            UiEvent::FileExit,
            if platform is MacOs {
                seq![KeyCode::SuperLeft, KeyCode::KeyQ]
            } else {
                seq![KeyCode::AltLeft, KeyCode::F4]
            },
        ),
        (UiEvent::Undo, seq![KeyCode::ControlLeft, KeyCode::KeyZ]),
        (UiEvent::Redo, seq![KeyCode::ControlLeft, KeyCode::ShiftLeft, KeyCode::KeyZ]),
        (UiEvent::ToggleFullscreen, seq![KeyCode::F11]),
        (UiEvent::ShowHelp, seq![KeyCode::F1]),
    ]
}

impl Shortcuts {
    /// Builds the bootstrap table, resolving platform-conditional entries
    /// once.
    pub fn with_platform(platform: Platform) -> (r: Shortcuts)
        ensures
            r.wf(),
            r.shortcuts@.len() == spec_default_shortcuts(platform).len(),
            forall|i: int| 0 <= i < r.shortcuts@.len()
                ==> (#[trigger] r.shortcuts@[i]).0 == spec_default_shortcuts(platform)[i].0
                    && r.shortcuts@[i].1@ == spec_default_shortcuts(platform)[i].1,
    {
        let mut entries: Vec<(UiEvent, Shortcut)> = Vec::new();
        entries.push((UiEvent::NextTab, chord2(KeyCode::ControlLeft, KeyCode::Tab)));
        entries.push((
            UiEvent::PreviousTab,
            chord3(KeyCode::ControlLeft, KeyCode::ShiftLeft, KeyCode::Tab),
        ));
        entries.push((UiEvent::FileNew, chord2(KeyCode::ControlLeft, KeyCode::KeyN)));
        entries.push((UiEvent::FileOpen, chord2(KeyCode::ControlLeft, KeyCode::KeyO)));
        entries.push((UiEvent::FileSave, chord2(KeyCode::ControlLeft, KeyCode::KeyS)));
        entries.push((
            UiEvent::FileSaveAs,
            chord3(KeyCode::ControlLeft, KeyCode::ShiftLeft, KeyCode::KeyS),
        ));
        entries.push((UiEvent::FileClose, chord2(KeyCode::ControlLeft, KeyCode::KeyW)));
        if matches!(platform, Platform::MacOs) {
            entries.push((UiEvent::FileExit, chord2(KeyCode::SuperLeft, KeyCode::KeyQ)));
        } else {
            entries.push((UiEvent::FileExit, chord2(KeyCode::AltLeft, KeyCode::F4)));
        }
        entries.push((UiEvent::Undo, chord2(KeyCode::ControlLeft, KeyCode::KeyZ)));
        entries.push((
            UiEvent::Redo,
            chord3(KeyCode::ControlLeft, KeyCode::ShiftLeft, KeyCode::KeyZ),
        ));
        entries.push((UiEvent::ToggleFullscreen, chord1(KeyCode::F11)));
        entries.push((UiEvent::ShowHelp, chord1(KeyCode::F1)));
        let r = Shortcuts { shortcuts: entries };
        proof {
            let table = spec_default_shortcuts(platform);
            assert forall|i: int| 0 <= i < r.shortcuts@.len()
                implies (#[trigger] r.shortcuts@[i]).0 == table[i].0
                    && r.shortcuts@[i].1@ == table[i].1 by {
                assert(r.shortcuts@[i].0 == table[i].0 && r.shortcuts@[i].1@ == table[i].1);
            }
        }
        r
    }
}

impl Default for Shortcuts {
    /// The bootstrap table with non-platform-specific entries, as a build
    /// without a platform hint gets.
    fn default() -> (r: Self)
        ensures
            r.wf(),
            r.shortcuts@.len() == spec_default_shortcuts(Platform::Linux).len(),
            forall|i: int| 0 <= i < r.shortcuts@.len()
                ==> (#[trigger] r.shortcuts@[i]).0 == spec_default_shortcuts(Platform::Linux)[i].0
                    && r.shortcuts@[i].1@ == spec_default_shortcuts(Platform::Linux)[i].1,
    {
        Shortcuts::with_platform(Platform::Linux)
    }
}

/// All keys of the chord are currently held down.
pub open spec fn chord_all_held(chord: Seq<KeyCode>, pressed: Seq<KeyCode>) -> bool {
    forall|i: int| 0 <= i < chord.len() ==> pressed.contains(#[trigger] chord[i])
}

/// Some key of the chord transitioned from up to down this very tick.
pub open spec fn chord_any_just_pressed(chord: Seq<KeyCode>, just_pressed: Seq<KeyCode>) -> bool {
    exists|i: int| 0 <= i < chord.len() && just_pressed.contains(#[trigger] chord[i])
}

/// A chord fires when its whole chord is held and at least one of its keys
/// was just pressed; the edge condition keeps a held chord from re-firing
/// every tick.
pub open spec fn chord_fires(
    chord: Seq<KeyCode>,
    pressed: Seq<KeyCode>,
    just_pressed: Seq<KeyCode>,
) -> bool {
    chord_all_held(chord, pressed) && chord_any_just_pressed(chord, just_pressed)
}

fn key_in(keys: &Vec<KeyCode>, key: KeyCode) -> (r: bool)
    ensures
        r == keys@.contains(key),
{
    let mut i: usize = 0;
    while i < keys.len()
        invariant
            0 <= i <= keys@.len(),
            forall|j: int| 0 <= j < i ==> keys@[j] != key,
        decreases keys@.len() - i,
    {
        if keys[i] == key {
            return true;
        }
        i = i + 1;
    }
    false
}

/// Whether this chord fires against the tick's key feed.
pub fn shortcut_fires(
    shortcut: &Shortcut,
    pressed: &Vec<KeyCode>,
    just_pressed: &Vec<KeyCode>,
) -> (r: bool)
    ensures
        r == chord_fires(shortcut@, pressed@, just_pressed@),
{
    let n = chord_len(&shortcut.keys);
    let mut i: usize = 0;
    while i < n
        invariant
            0 <= i <= n,
            n == shortcut@.len(),
            forall|j: int| 0 <= j < i ==> pressed@.contains(#[trigger] shortcut@[j]),
        decreases n - i,
    {
        if !key_in(pressed, chord_key(&shortcut.keys, i)) {
            return false;
        }
        i = i + 1;
    }
    let mut k: usize = 0;
    while k < n
        invariant
            0 <= k <= n,
            n == shortcut@.len(),
            chord_all_held(shortcut@, pressed@),
            forall|j: int| 0 <= j < k ==> !just_pressed@.contains(#[trigger] shortcut@[j]),
        decreases n - k,
    {
        if key_in(just_pressed, chord_key(&shortcut.keys, k)) {
            return true;
        }
        k = k + 1;
    }
    false
}

/// The events the table emits for a tick's key feed: one per entry whose
/// chord fires, in table order.
pub open spec fn spec_fired_events(
    entries: Seq<(UiEvent, Shortcut)>,
    pressed: Seq<KeyCode>,
    just_pressed: Seq<KeyCode>,
) -> Seq<UiEvent>
    decreases entries.len(),
{
    if entries.len() == 0 {
        Seq::<UiEvent>::empty()
    } else {
        let rest = spec_fired_events(entries.drop_last(), pressed, just_pressed);
        if chord_fires(entries.last().1@, pressed, just_pressed) {
            rest.push(entries.last().0)
        } else {
            rest
        }
    }
}

/// One pass of the matcher: emits, for every table entry whose whole chord
/// is held and of which at least one key was just pressed, that entry's
/// event, exactly once.
pub fn handle_shortcuts(
    shortcuts: &Shortcuts,
    pressed: &Vec<KeyCode>,
    just_pressed: &Vec<KeyCode>,
) -> (out: Vec<UiEvent>)
    ensures
        out@ == spec_fired_events(shortcuts.shortcuts@, pressed@, just_pressed@),
{
    let mut out: Vec<UiEvent> = Vec::new();
    let mut i: usize = 0;
    while i < shortcuts.shortcuts.len()
        invariant
            0 <= i <= shortcuts.shortcuts@.len(),
            out@ == spec_fired_events(shortcuts.shortcuts@.take(i as int), pressed@, just_pressed@),
        decreases shortcuts.shortcuts@.len() - i,
    {
        let entry = &shortcuts.shortcuts[i];
        if shortcut_fires(&entry.1, pressed, just_pressed) {
            out.push(entry.0.duplicate());
        }
        proof {
            let t = shortcuts.shortcuts@.take(i + 1 as int);
            assert(t.drop_last() =~= shortcuts.shortcuts@.take(i as int));
            assert(t.last() == shortcuts.shortcuts@[i as int]);
        }
        i = i + 1;
    }
    proof {
        assert(shortcuts.shortcuts@.take(shortcuts.shortcuts@.len() as int)
            =~= shortcuts.shortcuts@);
    }
    out
}

/// How many events of the batch are the given event.
pub open spec fn count_matching(events: Seq<UiEvent>, event: UiEvent) -> int
    decreases events.len(),
{
    if events.len() == 0 {
        0
    } else {
        count_matching(events.drop_last(), event) + if ui_event_eq(events.last(), event) {
            1int
        } else {
            0int
        }
    }
}

/// While a chord stays held, ticks on which no key at all was just pressed
/// emit nothing: matching is edge-triggered, not level-triggered.
pub proof fn lemma_no_edge_no_event(
    entries: Seq<(UiEvent, Shortcut)>,
    pressed: Seq<KeyCode>,
    just_pressed: Seq<KeyCode>,
)
    requires
        just_pressed.len() == 0,
    ensures
        spec_fired_events(entries, pressed, just_pressed) == Seq::<UiEvent>::empty(),
    decreases entries.len(),
{
    if entries.len() > 0 {
        lemma_no_edge_no_event(entries.drop_last(), pressed, just_pressed);
        assert(!chord_any_just_pressed(entries.last().1@, just_pressed));
    }
}

proof fn lemma_count_absent(
    entries: Seq<(UiEvent, Shortcut)>,
    pressed: Seq<KeyCode>,
    just_pressed: Seq<KeyCode>,
    event: UiEvent,
)
    requires
        forall|j: int| 0 <= j < entries.len()
            ==> !ui_event_eq((#[trigger] entries[j]).0, event),
    ensures
        count_matching(spec_fired_events(entries, pressed, just_pressed), event) == 0,
    decreases entries.len(),
{
    if entries.len() > 0 {
        let rest = entries.drop_last();
        assert forall|j: int| 0 <= j < rest.len()
            implies !ui_event_eq((#[trigger] rest[j]).0, event) by {
            assert(rest[j] == entries[j]);
        }
        lemma_count_absent(rest, pressed, just_pressed, event);
        let rest_fired = spec_fired_events(rest, pressed, just_pressed);
        if chord_fires(entries.last().1@, pressed, just_pressed) {
            let fired = rest_fired.push(entries.last().0);
            assert(fired.drop_last() =~= rest_fired);
            assert(fired.last() == entries.last().0);
            assert(!ui_event_eq(entries[entries.len() - 1].0, event));
        }
    }
}

/// On one tick, an entry's event is emitted exactly once when its chord
/// fires and not at all when it does not — never twice, whatever the rest
/// of the table does — provided event identities in the table are unique.
pub proof fn lemma_fired_exactly_once(
    entries: Seq<(UiEvent, Shortcut)>,
    pressed: Seq<KeyCode>,
    just_pressed: Seq<KeyCode>,
    k: int,
)
    requires
        0 <= k < entries.len(),
        forall|i: int, j: int| 0 <= i < j < entries.len()
            ==> !ui_event_eq((#[trigger] entries[i]).0, (#[trigger] entries[j]).0),
    ensures
        count_matching(spec_fired_events(entries, pressed, just_pressed), entries[k].0)
            == if chord_fires(entries[k].1@, pressed, just_pressed) { 1int } else { 0int },
    decreases entries.len(),
{
    let rest = entries.drop_last();
    let rest_fired = spec_fired_events(rest, pressed, just_pressed);
    let last = entries.last();
    let fires_last = chord_fires(last.1@, pressed, just_pressed);
    if fires_last {
        let fired = rest_fired.push(last.0);
        assert(fired.drop_last() =~= rest_fired);
        assert(fired.last() == last.0);
    }
    if k == entries.len() - 1 {
        assert forall|j: int| 0 <= j < rest.len()
            implies !ui_event_eq((#[trigger] rest[j]).0, entries[k].0) by {
            assert(rest[j] == entries[j]);
        }
        lemma_count_absent(rest, pressed, just_pressed, entries[k].0);
        if fires_last {
            lemma_ui_event_eq_reflexive(entries[k].0);
        }
    } else {
        assert forall|i: int, j: int| 0 <= i < j < rest.len()
            implies !ui_event_eq((#[trigger] rest[i]).0, (#[trigger] rest[j]).0) by {
            assert(rest[i] == entries[i] && rest[j] == entries[j]);
        }
        lemma_fired_exactly_once(rest, pressed, just_pressed, k);
        assert(rest[k] == entries[k]);
        if fires_last {
            assert(!ui_event_eq(entries[k].0, entries[entries.len() - 1].0));
            lemma_ui_event_eq_symmetric(entries[k].0, entries[entries.len() - 1].0);
            assert(!ui_event_eq(last.0, entries[k].0));
        }
    }
}

/// Event value equality is reflexive.
pub proof fn lemma_ui_event_eq_reflexive(a: UiEvent)
    ensures
        ui_event_eq(a, a),
{
}

/// Event value equality is symmetric.
pub proof fn lemma_ui_event_eq_symmetric(a: UiEvent, b: UiEvent)
    ensures
        ui_event_eq(a, b) == ui_event_eq(b, a),
{
}

} // verus!
