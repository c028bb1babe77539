//! The fullscreen reducer: a binary mode, flipped by `ToggleFullscreen`
//! events, and the continuous consumer that applies a node's dual display
//! declaration to its display attribute.

use vstd::prelude::*;

use crate::events::UiEvent;

verus! {

/// How a node is laid out; `Hidden` is the display value that removes the
/// node from layout entirely.
#[derive(Clone, Copy, PartialEq, Eq, Structural, Debug)]
pub enum DisplayMode {
    Flex,
    Block,
    Hidden,
}

/// Whether the editor overlay fills the window.
#[derive(Clone, Copy, PartialEq, Eq, Structural, Debug, Hash)]
pub enum FullscreenState {
    Normal,
    Fullscreen,
}

impl Default for FullscreenState {
    /// The editor starts windowed.
    fn default() -> (r: Self)
        ensures
            r == FullscreenState::Normal,
    {
        FullscreenState::Normal
    }
}

/// A node's dual display declaration: the display value it takes in each
/// fullscreen mode.
#[derive(Clone, Copy, PartialEq, Eq, Structural, Debug)]
pub struct NodeFullscreenDisplay {
    pub normal_display: DisplayMode,
    pub fullscreen_display: DisplayMode,
}

impl NodeFullscreenDisplay {
    /// Declares the display value per mode.
    pub fn new(normal_display: DisplayMode, fullscreen_display: DisplayMode) -> (r: Self)
        ensures
            r == (NodeFullscreenDisplay { normal_display, fullscreen_display }),
    {
        NodeFullscreenDisplay { normal_display, fullscreen_display }
    }
}

/// The display value a dual declaration selects under a mode.
pub open spec fn spec_display_for(decl: NodeFullscreenDisplay, state: FullscreenState) -> DisplayMode {
    match state {
        FullscreenState::Normal => decl.normal_display,
        FullscreenState::Fullscreen => decl.fullscreen_display,
    }
}

/// Overwrites each node's display attribute with the value its declaration
/// selects under the current mode. Runs off the current state every tick,
/// not off the toggle event, so a late-joining node is corrected on its
/// first tick without having observed the transition.
pub fn update_node_fullscreen_display(
    nodes: &mut Vec<(NodeFullscreenDisplay, DisplayMode)>,
    state: FullscreenState,
)
    ensures
        final(nodes)@.len() == old(nodes)@.len(),
        forall|i: int| 0 <= i < final(nodes)@.len()
            ==> (#[trigger] final(nodes)@[i]).0 == old(nodes)@[i].0
                && final(nodes)@[i].1 == spec_display_for(old(nodes)@[i].0, state),
{
    let mut i: usize = 0;
    while i < nodes.len()
        invariant
            0 <= i <= nodes@.len(),
            nodes@.len() == old(nodes)@.len(),
            forall|j: int| i <= j < nodes@.len()
                ==> #[trigger] nodes@[j] == old(nodes)@[j],
            forall|j: int| 0 <= j < i
                ==> (#[trigger] nodes@[j]).0 == old(nodes)@[j].0
                    && nodes@[j].1 == spec_display_for(old(nodes)@[j].0, state),
        decreases nodes@.len() - i,
    {
        let decl = nodes[i].0;
        let display = match state {
            FullscreenState::Normal => decl.normal_display,
            FullscreenState::Fullscreen => decl.fullscreen_display,
        };
        nodes.set(i, (decl, display));
        i = i + 1;
    }
}

/// The mode after one flip.
pub open spec fn spec_toggle_fullscreen(state: FullscreenState) -> FullscreenState {
    match state {
        FullscreenState::Normal => FullscreenState::Fullscreen,
        FullscreenState::Fullscreen => FullscreenState::Normal,
    }
}

/// Flips the mode once.
pub fn toggle_fullscreen(state: FullscreenState) -> (r: FullscreenState)
    ensures
        r == spec_toggle_fullscreen(state),
        r != state,
{
    match state {
        FullscreenState::Normal => FullscreenState::Fullscreen,
        FullscreenState::Fullscreen => FullscreenState::Normal,
    }
}

/// The mode after a tick's event batch: each `ToggleFullscreen` flips it,
/// every other event leaves it alone.
pub open spec fn spec_fullscreen_after(state: FullscreenState, events: Seq<UiEvent>) -> FullscreenState
    decreases events.len(),
{
    if events.len() == 0 {
        state
    } else {
        let prev = spec_fullscreen_after(state, events.drop_last());
        if events.last() is ToggleFullscreen {
            spec_toggle_fullscreen(prev)
        } else {
            prev
        }
    }
}

/// The fullscreen reducer: folds a tick's events over the current mode.
pub fn handle_toggle_fullscreen(state: FullscreenState, events: &Vec<UiEvent>) -> (r: FullscreenState)
    ensures
        r == spec_fullscreen_after(state, events@),
{
    let mut current = state;
    let mut i: usize = 0;
    while i < events.len()
        invariant
            0 <= i <= events@.len(),
            current == spec_fullscreen_after(state, events@.take(i as int)),
        decreases events@.len() - i,
    {
        if matches!(events[i], UiEvent::ToggleFullscreen) {
            current = toggle_fullscreen(current);
        }
        proof {
            let t = events@.take(i + 1 as int);
            assert(t.drop_last() =~= events@.take(i as int));
            assert(t.last() == events@[i as int]);
        }
        i = i + 1;
    }
    proof {
        assert(events@.take(events@.len() as int) =~= events@);
    }
    current
}

/// Two flips return the mode to its original value.
pub proof fn lemma_toggle_roundtrip(state: FullscreenState)
    ensures
        spec_toggle_fullscreen(spec_toggle_fullscreen(state)) == state,
{
}

/// Appending two `ToggleFullscreen` events to any batch leaves the reduced
/// mode where the batch alone left it: the toggle round-trips.
pub proof fn lemma_fullscreen_roundtrip(state: FullscreenState, events: Seq<UiEvent>)
    ensures
        spec_fullscreen_after(state, events.push(UiEvent::ToggleFullscreen).push(UiEvent::ToggleFullscreen))
            == spec_fullscreen_after(state, events),
{
    let once = events.push(UiEvent::ToggleFullscreen);
    let twice = once.push(UiEvent::ToggleFullscreen);
    assert(twice.drop_last() =~= once);
    assert(once.drop_last() =~= events);
    assert(twice.last() == UiEvent::ToggleFullscreen);
    assert(once.last() == UiEvent::ToggleFullscreen);
    assert(spec_fullscreen_after(state, twice)
        == spec_toggle_fullscreen(spec_fullscreen_after(state, once)));
    assert(spec_fullscreen_after(state, once)
        == spec_toggle_fullscreen(spec_fullscreen_after(state, events)));
    lemma_toggle_roundtrip(spec_fullscreen_after(state, events));
}

} // verus!
