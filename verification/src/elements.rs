//! The reactive element rebuilder: the data components that are the single
//! source of truth for each widget, the description of a rendered subtree,
//! and the builders that regenerate a widget's subtree from its data
//! component — a pure function of the component's value, so convergence is
//! idempotent.

use vstd::prelude::*;

use crate::colors::EditorBackgroundColor;
use crate::colors::EditorColor;
use crate::colors::EditorTextColor;
use crate::colors::Rgba;
use crate::events::ClickAction;
use crate::events::Tool;
use crate::events::UiEvent;
use crate::events::ui_event_eq;
use crate::fullscreen::DisplayMode;
use crate::shortcuts::Platform;
use crate::shortcuts::Shortcuts;
use crate::shortcuts::spec_chord_text;

verus! {

/// An opaque, comparable token standing for a loaded image asset.
#[derive(Clone, Copy, PartialEq, Eq, Structural, Debug, Hash)]
pub struct IconHandle(pub u64);

/// One rendered node of a widget's subtree: the components the rebuilder
/// puts on it. Only what the data components influence is described;
/// static layout detail (padding, alignment) is the renderer's.
#[derive(Debug, PartialEq)]
pub struct UiNode {
    pub display: DisplayMode,
    pub width_px: Option<u32>,
    pub height_px: Option<u32>,
    pub text: Option<String>,
    pub text_color: Option<EditorTextColor>,
    pub background: Option<EditorBackgroundColor>,
    pub flat_background: Option<Rgba>,
    pub click: Option<UiEvent>,
    pub icon: Option<IconHandle>,
    pub is_button: bool,
}

/// A rendered child of a widget, with its own children (at most one level
/// deeper: the deepest bootstrap widget is three nodes tall).
#[derive(Debug, PartialEq)]
pub struct ChildNode {
    pub node: UiNode,
    pub children: Vec<UiNode>,
}

/// A widget's whole rendered subtree: the components on the widget entity
/// itself and its regenerated children.
#[derive(Debug, PartialEq)]
pub struct WidgetSubtree {
    pub node: UiNode,
    pub children: Vec<ChildNode>,
}

/// Two optional texts hold the same characters.
pub open spec fn text_opt_matches(a: Option<String>, b: Option<String>) -> bool {
    match (a, b) {
        (Some(x), Some(y)) => x@ == y@,
        (None, None) => true,
        _ => false,
    }
}

/// Two optional click bindings carry equal events.
pub open spec fn event_opt_matches(a: Option<UiEvent>, b: Option<UiEvent>) -> bool {
    match (a, b) {
        (Some(x), Some(y)) => ui_event_eq(x, y),
        (None, None) => true,
        _ => false,
    }
}

/// Structural identity of two rendered nodes: same components, with texts
/// compared by characters and events by value.
pub open spec fn node_matches(a: UiNode, b: UiNode) -> bool {
    &&& a.display == b.display
    &&& a.width_px == b.width_px
    &&& a.height_px == b.height_px
    &&& text_opt_matches(a.text, b.text)
    &&& a.text_color == b.text_color
    &&& a.background == b.background
    &&& a.flat_background == b.flat_background
    &&& event_opt_matches(a.click, b.click)
    &&& a.icon == b.icon
    &&& a.is_button == b.is_button
}

/// Structural identity of two rendered children: same node, same child
/// count, same children in the same order.
pub open spec fn child_matches(a: ChildNode, b: ChildNode) -> bool {
    &&& node_matches(a.node, b.node)
    &&& a.children@.len() == b.children@.len()
    &&& forall|i: int| 0 <= i < a.children@.len()
        ==> node_matches(#[trigger] a.children@[i], b.children@[i])
}

/// Structural identity of two whole subtrees.
pub open spec fn subtree_matches(a: WidgetSubtree, b: WidgetSubtree) -> bool {
    &&& node_matches(a.node, b.node)
    &&& a.children@.len() == b.children@.len()
    &&& forall|i: int| 0 <= i < a.children@.len()
        ==> child_matches(#[trigger] a.children@[i], b.children@[i])
}

/// A node with nothing on it: flex display, no components.
pub open spec fn is_blank_node(n: UiNode) -> bool {
    &&& n.display == DisplayMode::Flex
    &&& n.width_px is None
    &&& n.height_px is None
    &&& n.text is None
    &&& n.text_color is None
    &&& n.background is None
    &&& n.flat_background is None
    &&& n.click is None
    &&& n.icon is None
    &&& !n.is_button
}

fn blank_node() -> (n: UiNode)
    ensures
        is_blank_node(n),
{
    UiNode {
        display: DisplayMode::Flex,
        width_px: None,
        height_px: None,
        text: None,
        text_color: None,
        background: None,
        flat_background: None,
        click: None,
        icon: None,
        is_button: false,
    }
}

/// A pure text node: the given characters in the given role, everything
/// else blank.
pub open spec fn is_text_node(
    n: UiNode,
    text: Seq<char>,
    color: EditorColor,
    display: DisplayMode,
) -> bool {
    &&& n.display == display
    &&& n.width_px is None
    &&& n.height_px is None
    &&& n.text matches Some(s) && s@ == text
    &&& n.text_color == Some(EditorTextColor(color, None, None))
    &&& n.background is None
    &&& n.flat_background is None
    &&& n.click is None
    &&& n.icon is None
    &&& !n.is_button
}

/// The decimal digits of a non-negative number, most significant first.
pub open spec fn spec_decimal_digits(n: int) -> Seq<char>
    decreases n,
{
    if n < 10 {
        spec_digit_char(n)
    } else {
        spec_decimal_digits(n / 10) + spec_digit_char(n % 10)
    }
}

/// One decimal digit as text.
pub open spec fn spec_digit_char(d: int) -> Seq<char> {
    if d == 0 { "0"@ }
    else if d == 1 { "1"@ }
    else if d == 2 { "2"@ }
    else if d == 3 { "3"@ }
    else if d == 4 { "4"@ }
    else if d == 5 { "5"@ }
    else if d == 6 { "6"@ }
    else if d == 7 { "7"@ }
    else if d == 8 { "8"@ }
    else { "9"@ }
}

fn digit_str(d: u32) -> (s: &'static str)
    requires
        d < 10,
    ensures
        s@ == spec_digit_char(d as int),
{
    match d {
        0 => "0",
        1 => "1",
        2 => "2",
        3 => "3",
        4 => "4",
        5 => "5",
        6 => "6",
        7 => "7",
        8 => "8",
        _ => "9",
    }
}

/// Renders a number in decimal, as the FPS readout shows it.
pub fn u32_to_decimal(n: u32) -> (s: String)
    ensures
        s@ == spec_decimal_digits(n as int),
    decreases n,
{
    if n < 10 {
        digit_str(n).to_owned()
    } else {
        let mut s = u32_to_decimal(n / 10);
        s.append(digit_str(n % 10));
        s
    }
}

/// Data component of one menu-bar button: the single source of truth for
/// its rendered label, shortcut hint and styling.
#[derive(Debug, PartialEq)]
pub struct MenuBarButton {
    pub text: String,
    pub shortcut_text: Option<String>,
    pub is_in_submenu: bool,
    pub is_dropdown: bool,
}

impl MenuBarButton {
    /// A submenu entry bound to an event, its shortcut hint looked up in
    /// the table once, at construction.
    pub fn new(text: String, event: UiEvent, shortcuts: &Shortcuts, platform: Platform) -> (r: (
        MenuBarButton,
        ClickAction,
    ))
        ensures
            r.0.text == text,
            r.0.is_in_submenu,
            !r.0.is_dropdown,
            r.1.0 == event,
            r.0.shortcut_text matches Some(s) ==> exists|i: int|
                0 <= i < shortcuts.shortcuts@.len()
                    && ui_event_eq((#[trigger] shortcuts.shortcuts@[i]).0, event)
                    && s@ == spec_chord_text(shortcuts.shortcuts@[i].1@, platform),
            r.0.shortcut_text is None ==> forall|i: int|
                0 <= i < shortcuts.shortcuts@.len()
                    ==> !ui_event_eq((#[trigger] shortcuts.shortcuts@[i]).0, event),
    {
        let shortcut_text = match shortcuts.get_shortcut(&event) {
            Some(shortcut) => Some(shortcut.display_string(platform)),
            None => None,
        };
        (
            MenuBarButton { text, shortcut_text, is_in_submenu: true, is_dropdown: false },
            ClickAction(event),
        )
    }
}

/// Data component of one tab in the tab strip.
#[derive(Debug, PartialEq)]
pub struct Tab {
    pub index: usize,
    pub name: String,
    pub is_active: bool,
}

impl Tab {
    /// A tab at a strip position.
    pub fn new(index: usize, name: String, is_active: bool) -> (r: Self)
        ensures
            r.index == index,
            r.name == name,
            r.is_active == is_active,
    {
        Tab { index, name, is_active }
    }

    /// An exact copy of the tab.
    pub fn duplicate(&self) -> (r: Tab)
        ensures
            r == *self,
    {
        Tab { index: self.index, name: self.name.clone(), is_active: self.is_active }
    }
}

/// Data component of one tool-palette button.
#[derive(Clone, Copy, PartialEq, Eq, Structural, Debug)]
pub struct ToolButton {
    pub action: Tool,
    pub is_active: bool,
    pub icon: IconHandle,
}

impl ToolButton {
    /// A palette button selecting a tool, showing an icon.
    pub fn new(action: Tool, is_active: bool, icon: IconHandle) -> (r: Self)
        ensures
            r == (ToolButton { action, is_active, icon }),
    {
        ToolButton { action, is_active, icon }
    }
}

/// Data component of the status bar.
#[derive(Debug, PartialEq)]
pub struct StatusBar {
    pub text: String,
}

/// Data component of the FPS readout; the sample is absent until the
/// frame-time feed has one.
#[derive(Debug, PartialEq)]
pub struct FpsCounter {
    pub fps: Option<u32>,
}

/// Marker for the camera-preview panel.
pub struct CameraPreview;

/// Marker for the root of the editor overlay.
pub struct EditorUi;

/// Marker for the menu bar container.
pub struct MenuBar;

/// Marker for the anchor node a dropdown hangs under.
pub struct MenuBarDropdownRoot;

/// A dropdown pane; its id ties `OpenMenu` events to it.
#[derive(Debug, PartialEq)]
pub struct MenuBarDropdown {
    pub id: String,
}

/// Marker for the tab strip container.
pub struct TabBar;

/// Marker for the tool bar row.
pub struct ToolBar;

/// Marker for the cluster of tool button groups.
pub struct ToolButtons;

/// Marker for one visual group of tool buttons.
pub struct ToolButtonGroup;

/// Marker for the thin separator between tool buttons.
pub struct ToolButtonSeparator;

/// Marker carried by every overlay node so the driver can route it to the
/// editor's render layer.
pub struct EditorUiElement;

/// Marker for the overlay's own camera, the one camera that draws the
/// overlay layer.
pub struct EditorUiCamera;

/// The hint text a menu button shows: the shortcut's rendering, or nothing.
pub open spec fn spec_hint_text(shortcut_text: Option<String>) -> Seq<char> {
    match shortcut_text {
        Some(s) => s@,
        None => Seq::<char>::empty(),
    }
}

/// The hint node is laid out only when there is a hint to show.
pub open spec fn spec_hint_display(shortcut_text: Option<String>) -> DisplayMode {
    match shortcut_text {
        Some(_) => DisplayMode::Flex,
        None => DisplayMode::Hidden,
    }
}

/// The rendered subtree a menu-bar button's data component determines: a
/// button node with the label and the shortcut hint as its two children.
pub open spec fn is_menu_bar_button_subtree(b: MenuBarButton, t: WidgetSubtree) -> bool {
    &&& t.node.display == DisplayMode::Flex
    &&& t.node.width_px is None
    &&& t.node.height_px == Some(if b.is_in_submenu { 26u32 } else { 29u32 })
    &&& t.node.text is None
    &&& t.node.text_color is None
    &&& t.node.background == Some(EditorBackgroundColor(
        if b.is_in_submenu { EditorColor::Background } else { EditorColor::MenuBar },
        Some(EditorColor::MenuBarButtonHover),
        None,
    ))
    &&& t.node.flat_background is None
    &&& t.node.click is None
    &&& t.node.icon is None
    &&& t.node.is_button
    &&& t.children@.len() == 2
    &&& t.children@[0].children@.len() == 0
    &&& is_text_node(t.children@[0].node, b.text@, EditorColor::Text, DisplayMode::Flex)
    &&& t.children@[1].children@.len() == 0
    &&& is_text_node(
        t.children@[1].node,
        spec_hint_text(b.shortcut_text),
        EditorColor::FadedText,
        spec_hint_display(b.shortcut_text),
    )
}

/// Regenerates a menu-bar button's subtree from its data component.
pub fn build_menu_bar_button(b: &MenuBarButton) -> (t: WidgetSubtree)
    ensures
        is_menu_bar_button_subtree(*b, t),
{
    let mut root = blank_node();
    root.height_px = Some(if b.is_in_submenu { 26 } else { 29 });
    root.background = Some(EditorBackgroundColor(
        if b.is_in_submenu { EditorColor::Background } else { EditorColor::MenuBar },
        Some(EditorColor::MenuBarButtonHover),
        None,
    ));
    root.is_button = true;
    let mut label = blank_node();
    label.text = Some(b.text.clone());
    label.text_color = Some(EditorTextColor(EditorColor::Text, None, None));
    let mut hint = blank_node();
    match &b.shortcut_text {
        Some(s) => {
            hint.text = Some(s.clone());
        },
        None => {
            hint.text = Some(String::new());
            hint.display = DisplayMode::Hidden;
        },
    }
    hint.text_color = Some(EditorTextColor(EditorColor::FadedText, None, None));
    let mut children: Vec<ChildNode> = Vec::new();
    children.push(ChildNode { node: label, children: Vec::new() });
    children.push(ChildNode { node: hint, children: Vec::new() });
    WidgetSubtree { node: root, children }
}

/// The fixed color of the little status dot in a tab.
pub open spec fn spec_tab_dot_color() -> Rgba {
    Rgba { red: 0x37, green: 0x8D, blue: 0x09, alpha: 0xFF }
}

/// The rendered subtree a tab's data component determines: a clickable tab
/// node with a status dot, the name, and a close button whose visibility
/// and the tab's background pair both follow the active flag — one
/// rebuild, not independent sub-updates.
pub open spec fn is_tab_subtree(b: Tab, t: WidgetSubtree) -> bool {
    &&& t.node.display == DisplayMode::Flex
    &&& t.node.width_px is None
    &&& t.node.height_px == Some(38u32)
    &&& t.node.text is None
    &&& t.node.text_color is None
    &&& t.node.background == Some(EditorBackgroundColor(
        if b.is_active { EditorColor::TabActive } else { EditorColor::TabBar },
        Some(if b.is_active { EditorColor::TabActive } else { EditorColor::TabHover }),
        None,
    ))
    &&& t.node.flat_background is None
    &&& t.node.click matches Some(e) && e == UiEvent::SelectTab(b.index)
    &&& t.node.icon is None
    &&& t.node.is_button
    &&& t.children@.len() == 3
    // the status dot
    &&& t.children@[0].children@.len() == 0
    &&& t.children@[0].node.display == DisplayMode::Flex
    &&& t.children@[0].node.width_px == Some(18u32)
    &&& t.children@[0].node.height_px == Some(18u32)
    &&& t.children@[0].node.text matches Some(s) && s@ == "o"@
    &&& t.children@[0].node.text_color is None
    &&& t.children@[0].node.background is None
    &&& t.children@[0].node.flat_background == Some(spec_tab_dot_color())
    &&& t.children@[0].node.click is None
    &&& t.children@[0].node.icon is None
    &&& !t.children@[0].node.is_button
    // the name
    &&& t.children@[1].children@.len() == 0
    &&& is_text_node(t.children@[1].node, b.name@, EditorColor::Text, DisplayMode::Flex)
    // the close button, shown only on the active tab
    &&& t.children@[2].node.display == (if b.is_active { DisplayMode::Flex } else {
        DisplayMode::Hidden
    })
    &&& t.children@[2].node.width_px == Some(18u32)
    &&& t.children@[2].node.height_px == Some(18u32)
    &&& t.children@[2].node.text is None
    &&& t.children@[2].node.text_color is None
    &&& t.children@[2].node.background is None
    &&& t.children@[2].node.flat_background is None
    &&& t.children@[2].node.click matches Some(e) && e == UiEvent::CloseTab(b.index)
    &&& t.children@[2].node.icon is None
    &&& t.children@[2].node.is_button
    &&& t.children@[2].children@.len() == 1
    &&& is_text_node(t.children@[2].children@[0], "x"@, EditorColor::Text, DisplayMode::Flex)
}

/// Regenerates a tab's subtree from its data component.
pub fn build_tab(b: &Tab) -> (t: WidgetSubtree)
    ensures
        is_tab_subtree(*b, t),
{
    let mut root = blank_node();
    root.height_px = Some(38);
    root.background = Some(EditorBackgroundColor(
        if b.is_active { EditorColor::TabActive } else { EditorColor::TabBar },
        Some(if b.is_active { EditorColor::TabActive } else { EditorColor::TabHover }),
        None,
    ));
    root.click = Some(UiEvent::SelectTab(b.index));
    root.is_button = true;
    let mut dot = blank_node();
    dot.width_px = Some(18);
    dot.height_px = Some(18);
    dot.text = Some("o".to_owned());
    dot.flat_background = Some(Rgba { red: 0x37, green: 0x8D, blue: 0x09, alpha: 0xFF });
    let mut name = blank_node();
    name.text = Some(b.name.clone());
    name.text_color = Some(EditorTextColor(EditorColor::Text, None, None));
    let mut close = blank_node();
    close.display = if b.is_active { DisplayMode::Flex } else { DisplayMode::Hidden };
    close.width_px = Some(18);
    close.height_px = Some(18);
    close.click = Some(UiEvent::CloseTab(b.index));
    close.is_button = true;
    let mut cross = blank_node();
    cross.text = Some("x".to_owned());
    cross.text_color = Some(EditorTextColor(EditorColor::Text, None, None));
    let mut close_children: Vec<UiNode> = Vec::new();
    close_children.push(cross);
    let mut children: Vec<ChildNode> = Vec::new();
    children.push(ChildNode { node: dot, children: Vec::new() });
    children.push(ChildNode { node: name, children: Vec::new() });
    children.push(ChildNode { node: close, children: close_children });
    WidgetSubtree { node: root, children }
}

/// The rendered subtree a tool button's data component determines: a
/// clickable square whose background follows the active flag, holding the
/// tool's icon.
pub open spec fn is_tool_button_subtree(b: ToolButton, t: WidgetSubtree) -> bool {
    &&& t.node.display == DisplayMode::Flex
    &&& t.node.width_px == Some(25u32)
    &&& t.node.height_px == Some(25u32)
    &&& t.node.text is None
    &&& t.node.text_color is None
    &&& t.node.background == Some(EditorBackgroundColor(
        if b.is_active { EditorColor::Background } else { EditorColor::Button },
        Some(EditorColor::Background),
        None,
    ))
    &&& t.node.flat_background is None
    &&& t.node.click matches Some(e) && e == UiEvent::SelectTool(b.action)
    &&& t.node.icon is None
    &&& t.node.is_button
    &&& t.children@.len() == 1
    &&& t.children@[0].children@.len() == 0
    &&& t.children@[0].node.display == DisplayMode::Flex
    &&& t.children@[0].node.width_px == Some(20u32)
    &&& t.children@[0].node.height_px == Some(20u32)
    &&& t.children@[0].node.text is None
    &&& t.children@[0].node.text_color is None
    &&& t.children@[0].node.background is None
    &&& t.children@[0].node.flat_background is None
    &&& t.children@[0].node.click is None
    &&& t.children@[0].node.icon == Some(b.icon)
    &&& !t.children@[0].node.is_button
}

/// Regenerates a tool button's subtree from its data component.
pub fn build_tool_button(b: &ToolButton) -> (t: WidgetSubtree)
    ensures
        is_tool_button_subtree(*b, t),
{
    let mut root = blank_node();
    root.width_px = Some(25);
    root.height_px = Some(25);
    root.background = Some(EditorBackgroundColor(
        if b.is_active { EditorColor::Background } else { EditorColor::Button },
        Some(EditorColor::Background),
        None,
    ));
    root.click = Some(UiEvent::SelectTool(b.action));
    root.is_button = true;
    let mut icon = blank_node();
    icon.width_px = Some(20);
    icon.height_px = Some(20);
    icon.icon = Some(b.icon);
    let mut children: Vec<ChildNode> = Vec::new();
    children.push(ChildNode { node: icon, children: Vec::new() });
    WidgetSubtree { node: root, children }
}

/// The rendered subtree the status bar's data component determines.
pub open spec fn is_status_bar_subtree(b: StatusBar, t: WidgetSubtree) -> bool {
    &&& t.node.display == DisplayMode::Flex
    &&& t.node.width_px is None
    &&& t.node.height_px == Some(20u32)
    &&& t.node.text is None
    &&& t.node.text_color is None
    &&& t.node.background == Some(EditorBackgroundColor(EditorColor::Background, None, None))
    &&& t.node.flat_background is None
    &&& t.node.click is None
    &&& t.node.icon is None
    &&& !t.node.is_button
    &&& t.children@.len() == 1
    &&& t.children@[0].children@.len() == 0
    &&& is_text_node(
        t.children@[0].node,
        "Status: "@ + b.text@,
        EditorColor::Text,
        DisplayMode::Flex,
    )
}

/// Regenerates the status bar's subtree from its data component.
pub fn build_status_bar(b: &StatusBar) -> (t: WidgetSubtree)
    ensures
        is_status_bar_subtree(*b, t),
{
    let mut root = blank_node();
    root.height_px = Some(20);
    root.background = Some(EditorBackgroundColor(EditorColor::Background, None, None));
    let mut line = blank_node();
    let mut text = "Status: ".to_owned();
    text.append(b.text.as_str());
    line.text = Some(text);
    line.text_color = Some(EditorTextColor(EditorColor::Text, None, None));
    let mut children: Vec<ChildNode> = Vec::new();
    children.push(ChildNode { node: line, children: Vec::new() });
    WidgetSubtree { node: root, children }
}

/// The FPS readout's text: the sample truncated to a whole number, or a
/// placeholder while no sample is available.
pub open spec fn spec_fps_text(fps: Option<u32>) -> Seq<char> {
    match fps {
        Some(n) => "FPS: "@ + spec_decimal_digits(n as int),
        None => "FPS: "@ + "--"@,
    }
}

/// The rendered subtree the FPS counter's data component determines: one
/// text node, no children.
pub open spec fn is_fps_counter_subtree(b: FpsCounter, t: WidgetSubtree) -> bool {
    &&& t.node.display == DisplayMode::Flex
    &&& t.node.width_px is None
    &&& t.node.height_px == Some(20u32)
    &&& t.node.text matches Some(s) && s@ == spec_fps_text(b.fps)
    &&& t.node.text_color is None
    &&& t.node.background is None
    &&& t.node.flat_background is None
    &&& t.node.click is None
    &&& t.node.icon is None
    &&& !t.node.is_button
    &&& t.children@.len() == 0
}

/// Regenerates the FPS readout's subtree from its data component.
pub fn build_fps_counter(b: &FpsCounter) -> (t: WidgetSubtree)
    ensures
        is_fps_counter_subtree(*b, t),
{
    let mut root = blank_node();
    root.height_px = Some(20);
    let mut text = "FPS: ".to_owned();
    match b.fps {
        Some(n) => {
            let digits = u32_to_decimal(n);
            text.append(digits.as_str());
        },
        None => {
            text.append("--");
        },
    }
    root.text = Some(text);
    WidgetSubtree { node: root, children: Vec::new() }
}

/// The rendered subtree of the camera-preview panel: a bare stretching
/// node the viewport synchronizer measures.
pub open spec fn is_camera_preview_subtree(t: WidgetSubtree) -> bool {
    &&& is_blank_node(t.node)
    &&& t.children@.len() == 0
}

/// Regenerates the camera-preview panel's subtree.
pub fn build_camera_preview(_b: &CameraPreview) -> (t: WidgetSubtree)
    ensures
        is_camera_preview_subtree(t),
{
    WidgetSubtree { node: blank_node(), children: Vec::new() }
}

/// A live widget entity: its data component and its currently rendered
/// subtree. A rebuild discards the subtree and regenerates it from the
/// data alone.
pub struct Widget<D> {
    pub data: D,
    pub rendered: WidgetSubtree,
}

/// Rebuilds every menu-bar button whose data component changed this tick,
/// as the change-detection feed flags them; unflagged widgets are left
/// untouched.
pub fn reactive_menu_bar_button(widgets: &mut Vec<Widget<MenuBarButton>>, changed: &Vec<bool>)
    requires
        old(widgets)@.len() == changed@.len(),
    ensures
        final(widgets)@.len() == old(widgets)@.len(),
        forall|i: int| 0 <= i < old(widgets)@.len() && changed@[i]
            ==> (#[trigger] final(widgets)@[i]).data == old(widgets)@[i].data
                && is_menu_bar_button_subtree(old(widgets)@[i].data, final(widgets)@[i].rendered),
        forall|i: int| 0 <= i < old(widgets)@.len() && !changed@[i]
            ==> #[trigger] final(widgets)@[i] == old(widgets)@[i],
{
    let mut i: usize = 0;
    while i < widgets.len()
        invariant
            0 <= i <= widgets@.len(),
            widgets@.len() == old(widgets)@.len(),
            old(widgets)@.len() == changed@.len(),
            forall|j: int| i <= j < widgets@.len()
                ==> #[trigger] widgets@[j] == old(widgets)@[j],
            forall|j: int| 0 <= j < i && changed@[j]
                ==> (#[trigger] widgets@[j]).data == old(widgets)@[j].data
                    && is_menu_bar_button_subtree(old(widgets)@[j].data, widgets@[j].rendered),
            forall|j: int| 0 <= j < i && !changed@[j]
                ==> #[trigger] widgets@[j] == old(widgets)@[j],
        decreases widgets@.len() - i,
    {
        if changed[i] {
            let subtree = build_menu_bar_button(&widgets[i].data);
            let w = &mut widgets[i];
            w.rendered = subtree;
        }
        i = i + 1;
    }
}

/// Rebuilds every tab whose data component changed this tick.
pub fn reactive_tab(widgets: &mut Vec<Widget<Tab>>, changed: &Vec<bool>)
    requires
        old(widgets)@.len() == changed@.len(),
    ensures
        final(widgets)@.len() == old(widgets)@.len(),
        forall|i: int| 0 <= i < old(widgets)@.len() && changed@[i]
            ==> (#[trigger] final(widgets)@[i]).data == old(widgets)@[i].data
                && is_tab_subtree(old(widgets)@[i].data, final(widgets)@[i].rendered),
        forall|i: int| 0 <= i < old(widgets)@.len() && !changed@[i]
            ==> #[trigger] final(widgets)@[i] == old(widgets)@[i],
{
    let mut i: usize = 0;
    while i < widgets.len()
        invariant
            0 <= i <= widgets@.len(),
            widgets@.len() == old(widgets)@.len(),
            old(widgets)@.len() == changed@.len(),
            forall|j: int| i <= j < widgets@.len()
                ==> #[trigger] widgets@[j] == old(widgets)@[j],
            forall|j: int| 0 <= j < i && changed@[j]
                ==> (#[trigger] widgets@[j]).data == old(widgets)@[j].data
                    && is_tab_subtree(old(widgets)@[j].data, widgets@[j].rendered),
            forall|j: int| 0 <= j < i && !changed@[j]
                ==> #[trigger] widgets@[j] == old(widgets)@[j],
        decreases widgets@.len() - i,
    {
        if changed[i] {
            let subtree = build_tab(&widgets[i].data);
            let w = &mut widgets[i];
            w.rendered = subtree;
        }
        i = i + 1;
    }
}

/// Rebuilds every tool button whose data component changed this tick.
pub fn reactive_tool_button(widgets: &mut Vec<Widget<ToolButton>>, changed: &Vec<bool>)
    requires
        old(widgets)@.len() == changed@.len(),
    ensures
        final(widgets)@.len() == old(widgets)@.len(),
        forall|i: int| 0 <= i < old(widgets)@.len() && changed@[i]
            ==> (#[trigger] final(widgets)@[i]).data == old(widgets)@[i].data
                && is_tool_button_subtree(old(widgets)@[i].data, final(widgets)@[i].rendered),
        forall|i: int| 0 <= i < old(widgets)@.len() && !changed@[i]
            ==> #[trigger] final(widgets)@[i] == old(widgets)@[i],
{
    let mut i: usize = 0;
    while i < widgets.len()
        invariant
            0 <= i <= widgets@.len(),
            widgets@.len() == old(widgets)@.len(),
            old(widgets)@.len() == changed@.len(),
            forall|j: int| i <= j < widgets@.len()
                ==> #[trigger] widgets@[j] == old(widgets)@[j],
            forall|j: int| 0 <= j < i && changed@[j]
                ==> (#[trigger] widgets@[j]).data == old(widgets)@[j].data
                    && is_tool_button_subtree(old(widgets)@[j].data, widgets@[j].rendered),
            forall|j: int| 0 <= j < i && !changed@[j]
                ==> #[trigger] widgets@[j] == old(widgets)@[j],
        decreases widgets@.len() - i,
    {
        if changed[i] {
            let subtree = build_tool_button(&widgets[i].data);
            let w = &mut widgets[i];
            w.rendered = subtree;
        }
        i = i + 1;
    }
}

/// Rebuilds the status bar when its data component changed this tick.
pub fn reactive_status_bar(widget: &mut Widget<StatusBar>, data_changed: bool)
    ensures
        final(widget).data == old(widget).data,
        data_changed ==> is_status_bar_subtree(old(widget).data, final(widget).rendered),
        !data_changed ==> *final(widget) == *old(widget),
{
    if data_changed {
        let subtree = build_status_bar(&widget.data);
        widget.rendered = subtree;
    }
}

/// Rebuilds the FPS readout when its data component changed this tick.
pub fn reactive_fps_counter(widget: &mut Widget<FpsCounter>, data_changed: bool)
    ensures
        final(widget).data == old(widget).data,
        data_changed ==> is_fps_counter_subtree(old(widget).data, final(widget).rendered),
        !data_changed ==> *final(widget) == *old(widget),
{
    if data_changed {
        let subtree = build_fps_counter(&widget.data);
        widget.rendered = subtree;
    }
}

/// Rebuilds the camera-preview panel when its marker was re-inserted.
pub fn reactive_camera_preview(widget: &mut Widget<CameraPreview>, data_changed: bool)
    ensures
        data_changed ==> is_camera_preview_subtree(final(widget).rendered),
        !data_changed ==> *final(widget) == *old(widget),
{
    if data_changed {
        let subtree = build_camera_preview(&widget.data);
        widget.rendered = subtree;
    }
}

/// Rebuilding a menu-bar button twice from one unchanged data value yields
/// structurally identical subtrees: same child count, order and
/// components — no drift, no duplicate children.
pub proof fn lemma_menu_bar_button_rebuild_idempotent(
    b: MenuBarButton,
    t1: WidgetSubtree,
    t2: WidgetSubtree,
)
    requires
        is_menu_bar_button_subtree(b, t1),
        is_menu_bar_button_subtree(b, t2),
    ensures
        subtree_matches(t1, t2),
{
    assert(child_matches(t1.children@[0], t2.children@[0]));
    assert(child_matches(t1.children@[1], t2.children@[1]));
    assert forall|i: int| 0 <= i < t1.children@.len()
        implies child_matches(#[trigger] t1.children@[i], t2.children@[i]) by {
        assert(i == 0 || i == 1);
    }
}

/// Rebuilding a tab twice from one unchanged data value yields
/// structurally identical subtrees.
pub proof fn lemma_tab_rebuild_idempotent(b: Tab, t1: WidgetSubtree, t2: WidgetSubtree)
    requires
        is_tab_subtree(b, t1),
        is_tab_subtree(b, t2),
    ensures
        subtree_matches(t1, t2),
{
    assert(child_matches(t1.children@[0], t2.children@[0]));
    assert(child_matches(t1.children@[1], t2.children@[1]));
    assert(child_matches(t1.children@[2], t2.children@[2])) by {
        assert(node_matches(t1.children@[2].children@[0], t2.children@[2].children@[0]));
        assert forall|i: int| 0 <= i < t1.children@[2].children@.len()
            implies node_matches(
                #[trigger] t1.children@[2].children@[i],
                t2.children@[2].children@[i],
            ) by {
            assert(i == 0);
        }
    }
    assert forall|i: int| 0 <= i < t1.children@.len()
        implies child_matches(#[trigger] t1.children@[i], t2.children@[i]) by {
        assert(i == 0 || i == 1 || i == 2);
    }
}

/// Rebuilding a tool button twice from one unchanged data value yields
/// structurally identical subtrees.
pub proof fn lemma_tool_button_rebuild_idempotent(b: ToolButton, t1: WidgetSubtree, t2: WidgetSubtree)
    requires
        is_tool_button_subtree(b, t1),
        is_tool_button_subtree(b, t2),
    ensures
        subtree_matches(t1, t2),
{
    assert(child_matches(t1.children@[0], t2.children@[0]));
    assert forall|i: int| 0 <= i < t1.children@.len()
        implies child_matches(#[trigger] t1.children@[i], t2.children@[i]) by {
        assert(i == 0);
    }
}

/// Rebuilding the status bar twice from one unchanged data value yields
/// structurally identical subtrees.
pub proof fn lemma_status_bar_rebuild_idempotent(b: StatusBar, t1: WidgetSubtree, t2: WidgetSubtree)
    requires
        is_status_bar_subtree(b, t1),
        is_status_bar_subtree(b, t2),
    ensures
        subtree_matches(t1, t2),
{
    assert(child_matches(t1.children@[0], t2.children@[0]));
    assert forall|i: int| 0 <= i < t1.children@.len()
        implies child_matches(#[trigger] t1.children@[i], t2.children@[i]) by {
        assert(i == 0);
    }
}

/// Rebuilding the FPS readout twice from one unchanged data value yields
/// structurally identical subtrees.
pub proof fn lemma_fps_counter_rebuild_idempotent(b: FpsCounter, t1: WidgetSubtree, t2: WidgetSubtree)
    requires
        is_fps_counter_subtree(b, t1),
        is_fps_counter_subtree(b, t2),
    ensures
        subtree_matches(t1, t2),
{
}

/// Rebuilding the camera-preview panel twice yields structurally identical
/// subtrees.
pub proof fn lemma_camera_preview_rebuild_idempotent(t1: WidgetSubtree, t2: WidgetSubtree)
    requires
        is_camera_preview_subtree(t1),
        is_camera_preview_subtree(t2),
    ensures
        subtree_matches(t1, t2),
{
}

} // verus!
