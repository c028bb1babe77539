//! Event dispatch and the independent state reducers. Each reducer
//! consumes the same tick's event batch, filters for the variants it cares
//! about, and mutates its own disjoint piece of state; unknown events are
//! ignored, out-of-range input is clamped, never an error.

use vstd::prelude::*;

use vstd::arithmetic::div_mod::lemma_add_mod_noop;
use vstd::arithmetic::div_mod::lemma_mod_bound;
use vstd::arithmetic::div_mod::lemma_small_mod;

use crate::colors::Interaction;
use crate::elements::MenuBarDropdown;
use crate::elements::Tab;
use crate::elements::ToolButton;
use crate::events::ClickAction;
use crate::events::Tool;
use crate::events::UiEvent;

verus! {

/// The authoritative tab selection: the index of the active tab, unset
/// until a tab event arrives (or seeded by the bootstrap).
#[derive(Clone, Copy)]
pub struct CurrentTab(pub Option<usize>);

impl Default for CurrentTab {
    /// No tab selected.
    fn default() -> (r: Self)
        ensures
            r.0 is None,
    {
        CurrentTab(None)
    }
}

/// The index a tab event starts from: the current selection, or the first
/// tab when nothing is selected yet.
pub open spec fn spec_tab_index_or_zero(current: Option<usize>) -> int {
    match current {
        Some(i) => i as int,
        None => 0,
    }
}

/// The selection after one event. `NextTab` and `PreviousTab` wrap around;
/// `SelectTab` clamps to the strip; with no tabs the selection stays
/// unset — never a division by zero or a panic; every other event leaves
/// the selection alone.
pub open spec fn spec_tab_after(current: Option<usize>, tab_count: usize, event: UiEvent) -> Option<
    usize,
> {
    match event {
        UiEvent::NextTab => if tab_count == 0 {
            None
        } else {
            Some(((spec_tab_index_or_zero(current) + 1) % (tab_count as int)) as usize)
        },
        UiEvent::PreviousTab => if tab_count == 0 {
            None
        } else {
            Some(
                ((spec_tab_index_or_zero(current) + tab_count - 1) % (tab_count as int)) as usize,
            )
        },
        UiEvent::SelectTab(i) => if tab_count == 0 {
            None
        } else if i < tab_count {
            Some(i)
        } else {
            Some((tab_count - 1) as usize)
        },
        _ => current,
    }
}

/// Applies one event to the tab selection.
pub fn apply_tab_event(current: Option<usize>, tab_count: usize, event: &UiEvent) -> (r: Option<
    usize,
>)
    ensures
        r == spec_tab_after(current, tab_count, *event),
{
    match event {
        UiEvent::NextTab => {
            if tab_count == 0 {
                None
            } else {
                let c = match current {
                    Some(i) => i,
                    None => 0,
                };
                proof {
                    lemma_mod_bound(c as int, tab_count as int);
                }
                let r = (c % tab_count + 1) % tab_count;
                proof {
                    lemma_add_mod_noop(c as int, 1, tab_count as int);
                    if tab_count == 1 {
                        lemma_mod_bound((c as int % 1) + 1, 1);
                        lemma_mod_bound(c as int + 1, 1);
                    } else {
                        lemma_small_mod(1, tab_count as nat);
                    }
                }
                Some(r)
            }
        },
        UiEvent::PreviousTab => {
            if tab_count == 0 {
                None
            } else {
                let c = match current {
                    Some(i) => i,
                    None => 0,
                };
                proof {
                    lemma_mod_bound(c as int, tab_count as int);
                }
                let t: u128 = (c % tab_count) as u128 + tab_count as u128 - 1;
                let r128: u128 = t % (tab_count as u128);
                proof {
                    lemma_add_mod_noop(c as int, tab_count as int - 1, tab_count as int);
                    lemma_small_mod((tab_count - 1) as nat, tab_count as nat);
                    lemma_mod_bound(t as int, tab_count as int);
                }
                Some(r128 as usize)
            }
        },
        UiEvent::SelectTab(i) => {
            if tab_count == 0 {
                None
            } else if *i < tab_count {
                Some(*i)
            } else {
                Some(tab_count - 1)
            }
        },
        _ => current,
    }
}

/// The selection after a tick's whole event batch, applied in order.
pub open spec fn spec_tab_fold(
    current: Option<usize>,
    tab_count: usize,
    events: Seq<UiEvent>,
) -> Option<usize>
    decreases events.len(),
{
    if events.len() == 0 {
        current
    } else {
        spec_tab_after(spec_tab_fold(current, tab_count, events.drop_last()), tab_count, events.last())
    }
}

/// The tab reducer: folds a tick's events over the selection.
pub fn handle_tab_events(current_tab: &mut CurrentTab, tab_count: usize, events: &Vec<UiEvent>)
    ensures
        final(current_tab).0 == spec_tab_fold(old(current_tab).0, tab_count, events@),
{
    let mut i: usize = 0;
    while i < events.len()
        invariant
            0 <= i <= events@.len(),
            current_tab.0 == spec_tab_fold(old(current_tab).0, tab_count, events@.take(i as int)),
        decreases events@.len() - i,
    {
        current_tab.0 = apply_tab_event(current_tab.0, tab_count, &events[i]);
        proof {
            let t = events@.take(i + 1 as int);
            assert(t.drop_last() =~= events@.take(i as int));
            assert(t.last() == events@[i as int]);
        }
        i = i + 1;
    }
    proof {
        assert(events@.take(events@.len() as int) =~= events@);
    }
}

/// A selection points into the strip, or is unset.
pub open spec fn spec_tab_selection_in_range(current: Option<usize>, tab_count: usize) -> bool {
    match current {
        Some(i) => i < tab_count,
        None => true,
    }
}

/// The tab reducer keeps the selection inside the strip: from an in-range
/// selection, any event yields an in-range selection.
pub proof fn lemma_tab_after_in_range(current: Option<usize>, tab_count: usize, event: UiEvent)
    requires
        spec_tab_selection_in_range(current, tab_count),
    ensures
        spec_tab_selection_in_range(spec_tab_after(current, tab_count, event), tab_count),
{
    if tab_count > 0 {
        lemma_mod_bound(spec_tab_index_or_zero(current) + 1, tab_count as int);
        lemma_mod_bound(spec_tab_index_or_zero(current) + tab_count - 1, tab_count as int);
    }
}

/// In-range selection is preserved across a whole event batch.
pub proof fn lemma_tab_fold_in_range(current: Option<usize>, tab_count: usize, events: Seq<UiEvent>)
    requires
        spec_tab_selection_in_range(current, tab_count),
    ensures
        spec_tab_selection_in_range(spec_tab_fold(current, tab_count, events), tab_count),
    decreases events.len(),
{
    if events.len() > 0 {
        lemma_tab_fold_in_range(current, tab_count, events.drop_last());
        lemma_tab_after_in_range(
            spec_tab_fold(current, tab_count, events.drop_last()),
            tab_count,
            events.last(),
        );
    }
}

/// Whether a node is drawn.
#[derive(Clone, Copy, PartialEq, Eq, Structural, Debug)]
pub enum Visibility {
    Visible,
    Hidden,
}

/// The dropdown ids of a dropdown list, in order.
pub open spec fn spec_dropdown_ids(dropdowns: Seq<(MenuBarDropdown, Visibility)>) -> Seq<Seq<char>> {
    dropdowns.map_values(|p: (MenuBarDropdown, Visibility)| p.0.id@)
}

/// The visibilities of a dropdown list, in order.
pub open spec fn spec_dropdown_vis(dropdowns: Seq<(MenuBarDropdown, Visibility)>) -> Seq<Visibility> {
    dropdowns.map_values(|p: (MenuBarDropdown, Visibility)| p.1)
}

/// One event's effect on the dropdowns: `OpenMenu` shows exactly the
/// dropdown whose id matches and hides all others; every other event hides
/// them all.
pub open spec fn spec_dropdown_step(ids: Seq<Seq<char>>, event: UiEvent) -> Seq<Visibility> {
    match event {
        UiEvent::OpenMenu { id } => Seq::new(
            ids.len(),
            |i: int| if ids[i] == id@ { Visibility::Visible } else { Visibility::Hidden },
        ),
        _ => Seq::new(ids.len(), |i: int| Visibility::Hidden),
    }
}

/// The dropdown visibilities after a tick's event batch.
pub open spec fn spec_dropdown_fold(
    ids: Seq<Seq<char>>,
    initial: Seq<Visibility>,
    events: Seq<UiEvent>,
) -> Seq<Visibility>
    decreases events.len(),
{
    if events.len() == 0 {
        initial
    } else {
        spec_dropdown_step(ids, events.last())
    }
}

/// The menu-open reducer: replays a tick's events over the dropdowns'
/// visibility. Ids are left untouched; only the last event matters, since
/// every event rewrites every visibility.
pub fn update_menu_dropdown_visibility(
    dropdowns: &mut Vec<(MenuBarDropdown, Visibility)>,
    events: &Vec<UiEvent>,
)
    ensures
        final(dropdowns)@.len() == old(dropdowns)@.len(),
        forall|i: int| 0 <= i < final(dropdowns)@.len()
            ==> (#[trigger] final(dropdowns)@[i]).0 == old(dropdowns)@[i].0,
        spec_dropdown_vis(final(dropdowns)@) == spec_dropdown_fold(
            spec_dropdown_ids(old(dropdowns)@),
            spec_dropdown_vis(old(dropdowns)@),
            events@,
        ),
{
    let ghost ids = spec_dropdown_ids(old(dropdowns)@);
    let mut i: usize = 0;
    while i < events.len()
        invariant
            0 <= i <= events@.len(),
            dropdowns@.len() == old(dropdowns)@.len(),
            forall|k: int| 0 <= k < dropdowns@.len()
                ==> (#[trigger] dropdowns@[k]).0 == old(dropdowns)@[k].0,
            ids == spec_dropdown_ids(old(dropdowns)@),
            spec_dropdown_vis(dropdowns@) == spec_dropdown_fold(
                ids,
                spec_dropdown_vis(old(dropdowns)@),
                events@.take(i as int),
            ),
        decreases events@.len() - i,
    {
        let ghost before = dropdowns@;
        match &events[i] {
            UiEvent::OpenMenu { id } => {
                let mut j: usize = 0;
                while j < dropdowns.len()
                    invariant
                        0 <= j <= dropdowns@.len(),
                        dropdowns@.len() == before.len(),
                        forall|k: int| 0 <= k < dropdowns@.len()
                            ==> (#[trigger] dropdowns@[k]).0 == before[k].0,
                        forall|k: int| 0 <= k < j ==> (#[trigger] dropdowns@[k]).1 == (
                        if before[k].0.id@ == id@ {
                            Visibility::Visible
                        } else {
                            Visibility::Hidden
                        }),
                    decreases dropdowns@.len() - j,
                {
                    let visible = dropdowns[j].0.id.eq(id);
                    let p = &mut dropdowns[j];
                    p.1 = if visible { Visibility::Visible } else { Visibility::Hidden };
                    j = j + 1;
                }
            },
            _ => {
                let mut j: usize = 0;
                while j < dropdowns.len()
                    invariant
                        0 <= j <= dropdowns@.len(),
                        dropdowns@.len() == before.len(),
                        forall|k: int| 0 <= k < dropdowns@.len()
                            ==> (#[trigger] dropdowns@[k]).0 == before[k].0,
                        forall|k: int| 0 <= k < j
                            ==> (#[trigger] dropdowns@[k]).1 == Visibility::Hidden,
                    decreases dropdowns@.len() - j,
                {
                    let p = &mut dropdowns[j];
                    p.1 = Visibility::Hidden;
                    j = j + 1;
                }
            },
        }
        proof {
            let t = events@.take(i + 1 as int);
            assert(t.drop_last() =~= events@.take(i as int));
            assert(t.last() == events@[i as int]);
            assert(spec_dropdown_vis(dropdowns@) =~= spec_dropdown_step(ids, events@[i as int]));
        }
        i = i + 1;
    }
    proof {
        assert(events@.take(events@.len() as int) =~= events@);
    }
}

/// Menu exclusivity: after a non-empty batch, either the last event was
/// `OpenMenu` and a dropdown is visible exactly when its id matches, or it
/// was anything else and every dropdown is hidden.
pub proof fn lemma_menu_exclusivity(
    ids: Seq<Seq<char>>,
    initial: Seq<Visibility>,
    events: Seq<UiEvent>,
)
    requires
        events.len() > 0,
    ensures
        spec_dropdown_fold(ids, initial, events).len() == ids.len(),
        events.last() matches UiEvent::OpenMenu { id } ==> forall|i: int|
            0 <= i < ids.len()
                ==> ((#[trigger] spec_dropdown_fold(ids, initial, events)[i]) is Visible
                    <==> ids[i] == id@),
        !(events.last() is OpenMenu) ==> forall|i: int|
            0 <= i < ids.len()
                ==> (#[trigger] spec_dropdown_fold(ids, initial, events)[i]) is Hidden,
{
}

/// With unique dropdown ids, at most one dropdown is ever visible after a
/// non-empty batch.
pub proof fn lemma_menu_at_most_one_open(
    ids: Seq<Seq<char>>,
    initial: Seq<Visibility>,
    events: Seq<UiEvent>,
)
    requires
        events.len() > 0,
        forall|i: int, j: int| 0 <= i < j < ids.len() ==> ids[i] != ids[j],
    ensures
        forall|i: int, j: int|
            0 <= i < ids.len() && 0 <= j < ids.len()
                && (#[trigger] spec_dropdown_fold(ids, initial, events)[i]) is Visible
                && (#[trigger] spec_dropdown_fold(ids, initial, events)[j]) is Visible ==> i == j,
{
    let after = spec_dropdown_fold(ids, initial, events);
    lemma_menu_exclusivity(ids, initial, events);
    assert forall|i: int, j: int|
        0 <= i < ids.len() && 0 <= j < ids.len() && (#[trigger] after[i]) is Visible
            && (#[trigger] after[j]) is Visible implies i == j by {
        if i != j {
            match events.last() {
                UiEvent::OpenMenu { id } => {
                    assert(ids[i] == id@ && ids[j] == id@);
                    if i < j {
                        assert(ids[i] != ids[j]);
                    } else {
                        assert(ids[j] != ids[i]);
                    }
                },
                _ => {},
            }
        }
    }
}

/// One event's effect on the tool palette: `SelectTool` makes each
/// button's active flag the comparison of its tool with the selected one —
/// a full-scan broadcast.
pub open spec fn spec_select_tool(buttons: Seq<ToolButton>, tool: Tool) -> Seq<ToolButton> {
    Seq::new(
        buttons.len(),
        |i: int| ToolButton {
            action: buttons[i].action,
            is_active: buttons[i].action == tool,
            icon: buttons[i].icon,
        },
    )
}

/// The palette after a tick's event batch.
pub open spec fn spec_tools_fold(buttons: Seq<ToolButton>, events: Seq<UiEvent>) -> Seq<ToolButton>
    decreases events.len(),
{
    if events.len() == 0 {
        buttons
    } else {
        let prev = spec_tools_fold(buttons, events.drop_last());
        match events.last() {
            UiEvent::SelectTool(tool) => spec_select_tool(prev, tool),
            _ => prev,
        }
    }
}

/// The tool reducer: replays a tick's events over every button's active
/// flag.
pub fn update_selected_tool_button(buttons: &mut Vec<ToolButton>, events: &Vec<UiEvent>)
    ensures
        final(buttons)@ == spec_tools_fold(old(buttons)@, events@),
{
    let mut i: usize = 0;
    while i < events.len()
        invariant
            0 <= i <= events@.len(),
            buttons@ == spec_tools_fold(old(buttons)@, events@.take(i as int)),
        decreases events@.len() - i,
    {
        let ghost before = buttons@;
        match &events[i] {
            UiEvent::SelectTool(tool) => {
                let selected = *tool;
                let mut j: usize = 0;
                while j < buttons.len()
                    invariant
                        0 <= j <= buttons@.len(),
                        buttons@.len() == before.len(),
                        forall|k: int| j <= k < buttons@.len()
                            ==> #[trigger] buttons@[k] == before[k],
                        forall|k: int| 0 <= k < j
                            ==> #[trigger] buttons@[k] == (ToolButton {
                                action: before[k].action,
                                is_active: before[k].action == selected,
                                icon: before[k].icon,
                            }),
                    decreases buttons@.len() - j,
                {
                    let b = buttons[j];
                    buttons.set(
                        j,
                        ToolButton {
                            action: b.action,
                            is_active: b.action == selected,
                            icon: b.icon,
                        },
                    );
                    j = j + 1;
                }
                proof {
                    assert(buttons@ =~= spec_select_tool(before, selected));
                }
            },
            _ => {},
        }
        proof {
            let t = events@.take(i + 1 as int);
            assert(t.drop_last() =~= events@.take(i as int));
            assert(t.last() == events@[i as int]);
        }
        i = i + 1;
    }
    proof {
        assert(events@.take(events@.len() as int) =~= events@);
    }
}

/// How many palette buttons are active.
pub open spec fn spec_count_active(buttons: Seq<ToolButton>) -> int
    decreases buttons.len(),
{
    if buttons.len() == 0 {
        0
    } else {
        spec_count_active(buttons.drop_last()) + if buttons.last().is_active {
            1int
        } else {
            0int
        }
    }
}

/// How many palette buttons carry the given tool.
pub open spec fn spec_count_action(buttons: Seq<ToolButton>, tool: Tool) -> int
    decreases buttons.len(),
{
    if buttons.len() == 0 {
        0
    } else {
        spec_count_action(buttons.drop_last(), tool) + if buttons.last().action == tool {
            1int
        } else {
            0int
        }
    }
}

/// The tool reducer never changes which tool a button selects, nor its
/// icon, nor the button count — only the active flags.
pub proof fn lemma_tools_fold_preserves_actions(buttons: Seq<ToolButton>, events: Seq<UiEvent>)
    ensures
        spec_tools_fold(buttons, events).len() == buttons.len(),
        forall|i: int| 0 <= i < buttons.len()
            ==> (#[trigger] spec_tools_fold(buttons, events)[i]).action == buttons[i].action
                && spec_tools_fold(buttons, events)[i].icon == buttons[i].icon,
    decreases events.len(),
{
    if events.len() > 0 {
        lemma_tools_fold_preserves_actions(buttons, events.drop_last());
    }
}

proof fn lemma_count_action_congruent(s1: Seq<ToolButton>, s2: Seq<ToolButton>, tool: Tool)
    requires
        s1.len() == s2.len(),
        forall|i: int| 0 <= i < s1.len() ==> (#[trigger] s1[i]).action == s2[i].action,
    ensures
        spec_count_action(s1, tool) == spec_count_action(s2, tool),
    decreases s1.len(),
{
    if s1.len() > 0 {
        assert forall|i: int| 0 <= i < s1.drop_last().len()
            implies (#[trigger] s1.drop_last()[i]).action == s2.drop_last()[i].action by {
            assert(s1.drop_last()[i] == s1[i] && s2.drop_last()[i] == s2[i]);
        }
        lemma_count_action_congruent(s1.drop_last(), s2.drop_last(), tool);
    }
}

proof fn lemma_count_active_when_selected(s: Seq<ToolButton>, tool: Tool)
    requires
        forall|i: int| 0 <= i < s.len()
            ==> ((#[trigger] s[i]).is_active <==> s[i].action == tool),
    ensures
        spec_count_active(s) == spec_count_action(s, tool),
    decreases s.len(),
{
    if s.len() > 0 {
        assert forall|i: int| 0 <= i < s.drop_last().len()
            implies ((#[trigger] s.drop_last()[i]).is_active <==> s.drop_last()[i].action
                == tool) by {
            assert(s.drop_last()[i] == s[i]);
        }
        lemma_count_active_when_selected(s.drop_last(), tool);
    }
}

/// Mutual exclusion of the tool palette: after any event batch that ends
/// in `SelectTool`, a button is active exactly when it carries the selected
/// tool; and when exactly one button carries that tool, exactly one button
/// is active. (With two buttons for one tool, both light up: the count
/// premise is necessary.)
pub proof fn lemma_tool_mutual_exclusion(buttons: Seq<ToolButton>, events: Seq<UiEvent>, tool: Tool)
    requires
        events.len() > 0,
        events.last() == UiEvent::SelectTool(tool),
        spec_count_action(buttons, tool) == 1,
    ensures
        spec_tools_fold(buttons, events).len() == buttons.len(),
        forall|i: int| 0 <= i < buttons.len()
            ==> ((#[trigger] spec_tools_fold(buttons, events)[i]).is_active
                <==> spec_tools_fold(buttons, events)[i].action == tool),
        spec_count_active(spec_tools_fold(buttons, events)) == 1,
{
    let prev = spec_tools_fold(buttons, events.drop_last());
    let after = spec_tools_fold(buttons, events);
    lemma_tools_fold_preserves_actions(buttons, events.drop_last());
    lemma_tools_fold_preserves_actions(buttons, events);
    assert(after =~= spec_select_tool(prev, tool));
    lemma_count_action_congruent(after, buttons, tool);
    lemma_count_active_when_selected(after, tool);
}

/// Interaction dispatch: for every clickable whose interaction state
/// changed this tick into `Pressed`, the bound event, in feed order —
/// edge-triggered, not level-triggered.
pub open spec fn spec_click_events(sources: Seq<(ClickAction, Interaction, bool)>) -> Seq<UiEvent>
    decreases sources.len(),
{
    if sources.len() == 0 {
        Seq::<UiEvent>::empty()
    } else {
        let rest = spec_click_events(sources.drop_last());
        if sources.last().2 && sources.last().1 is Pressed {
            rest.push(sources.last().0.0)
        } else {
            rest
        }
    }
}

/// Converts press interactions into logical events. Each source is the
/// clickable's bound action, its interaction state, and whether that state
/// changed this tick.
pub fn handle_click_action(sources: &Vec<(ClickAction, Interaction, bool)>) -> (out: Vec<UiEvent>)
    ensures
        out@ == spec_click_events(sources@),
{
    let mut out: Vec<UiEvent> = Vec::new();
    let mut i: usize = 0;
    while i < sources.len()
        invariant
            0 <= i <= sources@.len(),
            out@ == spec_click_events(sources@.take(i as int)),
        decreases sources@.len() - i,
    {
        if sources[i].2 && matches!(sources[i].1, Interaction::Pressed) {
            out.push(sources[i].0.0.duplicate());
        }
        proof {
            let t = sources@.take(i + 1 as int);
            assert(t.drop_last() =~= sources@.take(i as int));
            assert(t.last() == sources@[i as int]);
        }
        i = i + 1;
    }
    proof {
        assert(sources@.take(sources@.len() as int) =~= sources@);
    }
    out
}

/// The application-exit reducer: whether this tick's batch requests
/// process exit, which it does exactly when it holds `FileExit`.
pub fn handle_close_app(events: &Vec<UiEvent>) -> (exit: bool)
    ensures
        exit == exists|i: int| 0 <= i < events@.len() && (#[trigger] events@[i]) is FileExit,
{
    let mut i: usize = 0;
    while i < events.len()
        invariant
            0 <= i <= events@.len(),
            forall|j: int| 0 <= j < i ==> !((#[trigger] events@[j]) is FileExit),
        decreases events@.len() - i,
    {
        if matches!(events[i], UiEvent::FileExit) {
            return true;
        }
        i = i + 1;
    }
    false
}

/// Whether a tab should be the active one under a selection.
pub open spec fn spec_tab_should_be_active(tab: Tab, current: Option<usize>) -> bool {
    current matches Some(c) && tab.index == c
}

/// Synchronizes every tab's active flag with the authoritative selection.
/// A tab is written only when its flag actually changes, so an unchanged
/// tab triggers no spurious rebuild; the returned flags say which tabs
/// were written.
pub fn update_current_tab(tabs: &mut Vec<Tab>, current: Option<usize>) -> (written: Vec<bool>)
    ensures
        final(tabs)@.len() == old(tabs)@.len(),
        written@.len() == old(tabs)@.len(),
        forall|i: int| 0 <= i < old(tabs)@.len()
            ==> (#[trigger] final(tabs)@[i]).index == old(tabs)@[i].index
                && final(tabs)@[i].name == old(tabs)@[i].name
                && final(tabs)@[i].is_active == spec_tab_should_be_active(old(tabs)@[i], current),
        forall|i: int| 0 <= i < old(tabs)@.len()
            ==> written@[i] == (old(tabs)@[i].is_active != spec_tab_should_be_active(
                old(tabs)@[i],
                current,
            )),
        forall|i: int| 0 <= i < old(tabs)@.len() && !written@[i]
            ==> #[trigger] final(tabs)@[i] == old(tabs)@[i],
{
    let mut written: Vec<bool> = Vec::new();
    let mut i: usize = 0;
    while i < tabs.len()
        invariant
            0 <= i <= tabs@.len(),
            tabs@.len() == old(tabs)@.len(),
            written@.len() == i,
            forall|j: int| i <= j < tabs@.len() ==> #[trigger] tabs@[j] == old(tabs)@[j],
            forall|j: int| 0 <= j < i
                ==> (#[trigger] tabs@[j]).index == old(tabs)@[j].index
                    && tabs@[j].name == old(tabs)@[j].name
                    && tabs@[j].is_active == spec_tab_should_be_active(old(tabs)@[j], current),
            forall|j: int| 0 <= j < i
                ==> written@[j] == (old(tabs)@[j].is_active != spec_tab_should_be_active(
                    old(tabs)@[j],
                    current,
                )),
            forall|j: int| 0 <= j < i && !written@[j] ==> #[trigger] tabs@[j] == old(tabs)@[j],
        decreases tabs@.len() - i,
    {
        let should_be_active = match current {
            Some(c) => tabs[i].index == c,
            None => false,
        };
        if should_be_active != tabs[i].is_active {
            let t = &mut tabs[i];
            t.is_active = should_be_active;
            written.push(true);
        } else {
            written.push(false);
        }
        i = i + 1;
    }
    written
}

/// With unique tab indexes, synchronization leaves at most one tab active.
pub proof fn lemma_at_most_one_tab_active(tabs: Seq<Tab>, current: Option<usize>)
    requires
        forall|i: int, j: int| 0 <= i < j < tabs.len()
            ==> (#[trigger] tabs[i]).index != (#[trigger] tabs[j]).index,
        forall|i: int| 0 <= i < tabs.len()
            ==> (#[trigger] tabs[i]).is_active == spec_tab_should_be_active(tabs[i], current),
    ensures
        forall|i: int, j: int|
            0 <= i < tabs.len() && 0 <= j < tabs.len() && (#[trigger] tabs[i]).is_active
                && (#[trigger] tabs[j]).is_active ==> i == j,
{
    assert forall|i: int, j: int|
        0 <= i < tabs.len() && 0 <= j < tabs.len() && (#[trigger] tabs[i]).is_active
            && (#[trigger] tabs[j]).is_active implies i == j by {
        if i < j {
            assert(tabs[i].index != tabs[j].index);
        } else if j < i {
            assert(tabs[j].index != tabs[i].index);
        }
    }
}

} // verus!
