//! The hardcoded bootstrap data the editor overlay starts from: the menu
//! structure, the tab list, the tool palette, and the startup resources.
//! All state is re-derived from this at every process start; nothing is
//! persisted.

use vstd::prelude::*;

use crate::elements::CameraPreview;
use crate::elements::FpsCounter;
use crate::elements::IconHandle;
use crate::elements::MenuBarButton;
use crate::elements::MenuBarDropdown;
use crate::elements::StatusBar;
use crate::elements::Tab;
use crate::elements::ToolButton;
use crate::events::ClickAction;
use crate::events::Tool;
use crate::events::UiEvent;
use crate::events::ui_event_eq;
use crate::shortcuts::Platform;
use crate::shortcuts::Shortcuts;
use crate::shortcuts::spec_chord_text;

verus! {

/// How many tabs the bootstrap strip has.
pub const TAB_COUNT: usize = 3;

/// The loaded icons of the tool palette, one opaque handle per tool.
#[derive(Clone, Copy, PartialEq, Eq, Structural, Debug)]
pub struct ToolButtonIcons {
    pub pointer: IconHandle,
    pub move_: IconHandle,
    pub rotate: IconHandle,
    pub scale: IconHandle,
    pub add_entity: IconHandle,
    pub add_prefab: IconHandle,
}

/// The render layer the overlay's nodes and camera share, so that only
/// the overlay camera draws them.
#[derive(Clone, Copy, PartialEq, Eq, Structural, Debug)]
pub struct EditorRenderLayer(pub usize);

/// Configuration of the overlay: which render layer it claims.
#[derive(Clone, Copy, PartialEq, Eq, Structural, Debug)]
pub struct UiPlugin {
    pub editor_render_layer: usize,
}

impl Default for UiPlugin {
    /// A high layer no scene content plausibly uses.
    fn default() -> (r: Self)
        ensures
            r.editor_render_layer == 999,
    {
        UiPlugin { editor_render_layer: 999 }
    }
}

/// One menu of the bar: the dropdown's button, the action that opens it,
/// the dropdown pane, and its entries.
pub struct MenuDropdownDef {
    pub button: MenuBarButton,
    pub open_action: ClickAction,
    pub dropdown: MenuBarDropdown,
    pub items: Vec<(MenuBarButton, ClickAction)>,
}

/// Builds one dropdown of the menu bar: a bar button labelled `text` that
/// opens the dropdown `id`, over the given entries.
pub fn menu_bar_dropdown(text: String, id: String, items: Vec<(MenuBarButton, ClickAction)>) -> (r:
    MenuDropdownDef)
    ensures
        r.button.text == text,
        r.button.shortcut_text is None,
        r.button.is_dropdown,
        !r.button.is_in_submenu,
        r.open_action.0 == (UiEvent::OpenMenu { id }),
        r.dropdown.id == id,
        r.items == items,
{
    let dropdown_id = id.clone();
    MenuDropdownDef {
        button: MenuBarButton {
            text,
            shortcut_text: None,
            is_in_submenu: false,
            is_dropdown: true,
        },
        open_action: ClickAction(UiEvent::OpenMenu { id }),
        dropdown: MenuBarDropdown { id: dropdown_id },
        items,
    }
}

/// A well-formed submenu entry: the given label, bound to the given
/// event, with a shortcut hint exactly when the table binds that event —
/// then rendering that chord.
pub open spec fn is_menu_item(
    item: (MenuBarButton, ClickAction),
    label: Seq<char>,
    event: UiEvent,
    shortcuts: Shortcuts,
    platform: Platform,
) -> bool {
    &&& item.0.text@ == label
    &&& item.0.is_in_submenu
    &&& !item.0.is_dropdown
    &&& ui_event_eq(item.1.0, event)
    &&& item.0.shortcut_text matches Some(s) ==> exists|k: int|
        0 <= k < shortcuts.shortcuts@.len()
            && ui_event_eq((#[trigger] shortcuts.shortcuts@[k]).0, event)
            && s@ == spec_chord_text(shortcuts.shortcuts@[k].1@, platform)
    &&& item.0.shortcut_text is None ==> forall|k: int|
        0 <= k < shortcuts.shortcuts@.len()
            ==> !ui_event_eq((#[trigger] shortcuts.shortcuts@[k]).0, event)
}

/// A well-formed dropdown: the given label and id, its button opening
/// exactly that dropdown.
pub open spec fn is_menu_dropdown(m: MenuDropdownDef, label: Seq<char>, id: Seq<char>) -> bool {
    &&& m.button.text@ == label
    &&& m.button.shortcut_text is None
    &&& m.button.is_dropdown
    &&& !m.button.is_in_submenu
    &&& m.open_action.0 matches UiEvent::OpenMenu { id: open_id } && open_id@ == id
    &&& m.dropdown.id@ == id
}

/// The whole declarative tree of the overlay, as the bootstrap constructs
/// it once at startup.
pub struct EditorUiDef {
    pub close_menus: ClickAction,
    pub menus: Vec<MenuDropdownDef>,
    pub tabs: Vec<Tab>,
    pub tool_groups: Vec<Vec<ToolButton>>,
    pub fps: FpsCounter,
    pub camera_preview: CameraPreview,
    pub status: StatusBar,
}

/// Constructs the bootstrap UI: five menus with their shortcut-hinted
/// entries, three tabs with the first active, two tool groups with the
/// pointer selected, an empty FPS readout, the camera preview and the
/// status line. The root itself closes the menus when clicked.
pub fn setup_ui(shortcuts: &Shortcuts, platform: Platform, icons: &ToolButtonIcons) -> (r:
    EditorUiDef)
    ensures
        r.close_menus.0 == UiEvent::CloseMenus,
        r.menus@.len() == 5,
        is_menu_dropdown(r.menus@[0], "File"@, "file"@),
        r.menus@[0].items@.len() == 6,
        is_menu_item(r.menus@[0].items@[0], "New"@, UiEvent::FileNew, *shortcuts, platform),
        is_menu_item(r.menus@[0].items@[1], "Open"@, UiEvent::FileOpen, *shortcuts, platform),
        is_menu_item(r.menus@[0].items@[2], "Save"@, UiEvent::FileSave, *shortcuts, platform),
        is_menu_item(r.menus@[0].items@[3], "Save As"@, UiEvent::FileSaveAs, *shortcuts, platform),
        is_menu_item(r.menus@[0].items@[4], "Close"@, UiEvent::FileClose, *shortcuts, platform),
        is_menu_item(r.menus@[0].items@[5], "Exit"@, UiEvent::FileExit, *shortcuts, platform),
        is_menu_dropdown(r.menus@[1], "Edit"@, "edit"@),
        r.menus@[1].items@.len() == 2,
        is_menu_item(r.menus@[1].items@[0], "Undo"@, UiEvent::Undo, *shortcuts, platform),
        is_menu_item(r.menus@[1].items@[1], "Redo"@, UiEvent::Redo, *shortcuts, platform),
        is_menu_dropdown(r.menus@[2], "View"@, "view"@),
        r.menus@[2].items@.len() == 3,
        is_menu_item(
            r.menus@[2].items@[0],
            "Toggle Fullscreen"@,
            UiEvent::ToggleFullscreen,
            *shortcuts,
            platform,
        ),
        is_menu_item(r.menus@[2].items@[1], "Next Tab"@, UiEvent::NextTab, *shortcuts, platform),
        is_menu_item(
            r.menus@[2].items@[2],
            "Previous Tab"@,
            UiEvent::PreviousTab,
            *shortcuts,
            platform,
        ),
        is_menu_dropdown(r.menus@[3], "Camera"@, "camera"@),
        r.menus@[3].items@.len() == 0,
        is_menu_dropdown(r.menus@[4], "Help"@, "help"@),
        r.menus@[4].items@.len() == 1,
        is_menu_item(r.menus@[4].items@[0], "Show Help"@, UiEvent::ShowHelp, *shortcuts, platform),
        r.tabs@.len() == TAB_COUNT,
        r.tabs@[0].index == 0 && r.tabs@[0].name@ == "Tab 1"@ && r.tabs@[0].is_active,
        r.tabs@[1].index == 1 && r.tabs@[1].name@ == "Tab 2"@ && !r.tabs@[1].is_active,
        r.tabs@[2].index == 2 && r.tabs@[2].name@ == "Tab 3"@ && !r.tabs@[2].is_active,
        r.tool_groups@.len() == 2,
        r.tool_groups@[0]@.len() == 4,
        r.tool_groups@[0]@[0] == (ToolButton {
            action: Tool::Pointer,
            is_active: true,
            icon: icons.pointer,
        }),
        r.tool_groups@[0]@[1] == (ToolButton {
            action: Tool::Move,
            is_active: false,
            icon: icons.move_,
        }),
        r.tool_groups@[0]@[2] == (ToolButton {
            action: Tool::Rotate,
            is_active: false,
            icon: icons.rotate,
        }),
        r.tool_groups@[0]@[3] == (ToolButton {
            action: Tool::Scale,
            is_active: false,
            icon: icons.scale,
        }),
        r.tool_groups@[1]@.len() == 2,
        r.tool_groups@[1]@[0] == (ToolButton {
            action: Tool::AddEntity,
            is_active: false,
            icon: icons.add_entity,
        }),
        r.tool_groups@[1]@[1] == (ToolButton {
            action: Tool::ImportFile,
            is_active: false,
            icon: icons.add_prefab,
        }),
        r.fps.fps is None,
        r.status.text@ == "Some status"@,
{
    let mut file_items: Vec<(MenuBarButton, ClickAction)> = Vec::new();
    file_items.push(MenuBarButton::new("New".to_owned(), UiEvent::FileNew, shortcuts, platform));
    file_items.push(MenuBarButton::new("Open".to_owned(), UiEvent::FileOpen, shortcuts, platform));
    file_items.push(MenuBarButton::new("Save".to_owned(), UiEvent::FileSave, shortcuts, platform));
    file_items.push(
        MenuBarButton::new("Save As".to_owned(), UiEvent::FileSaveAs, shortcuts, platform),
    );
    file_items.push(
        MenuBarButton::new("Close".to_owned(), UiEvent::FileClose, shortcuts, platform),
    );
    file_items.push(MenuBarButton::new("Exit".to_owned(), UiEvent::FileExit, shortcuts, platform));
    let mut edit_items: Vec<(MenuBarButton, ClickAction)> = Vec::new();
    edit_items.push(MenuBarButton::new("Undo".to_owned(), UiEvent::Undo, shortcuts, platform));
    edit_items.push(MenuBarButton::new("Redo".to_owned(), UiEvent::Redo, shortcuts, platform));
    let mut view_items: Vec<(MenuBarButton, ClickAction)> = Vec::new();
    view_items.push(
        MenuBarButton::new(
            "Toggle Fullscreen".to_owned(),
            UiEvent::ToggleFullscreen,
            shortcuts,
            platform,
        ),
    );
    view_items.push(
        MenuBarButton::new("Next Tab".to_owned(), UiEvent::NextTab, shortcuts, platform),
    );
    view_items.push(
        MenuBarButton::new("Previous Tab".to_owned(), UiEvent::PreviousTab, shortcuts, platform),
    );
    let camera_items: Vec<(MenuBarButton, ClickAction)> = Vec::new();
    let mut help_items: Vec<(MenuBarButton, ClickAction)> = Vec::new();
    help_items.push(
        MenuBarButton::new("Show Help".to_owned(), UiEvent::ShowHelp, shortcuts, platform),
    );

    let mut menus: Vec<MenuDropdownDef> = Vec::new();
    menus.push(menu_bar_dropdown("File".to_owned(), "file".to_owned(), file_items));
    menus.push(menu_bar_dropdown("Edit".to_owned(), "edit".to_owned(), edit_items));
    menus.push(menu_bar_dropdown("View".to_owned(), "view".to_owned(), view_items));
    menus.push(menu_bar_dropdown("Camera".to_owned(), "camera".to_owned(), camera_items));
    menus.push(menu_bar_dropdown("Help".to_owned(), "help".to_owned(), help_items));

    let mut tabs: Vec<Tab> = Vec::new();
    tabs.push(Tab::new(0, "Tab 1".to_owned(), true));
    tabs.push(Tab::new(1, "Tab 2".to_owned(), false));
    tabs.push(Tab::new(2, "Tab 3".to_owned(), false));

    let mut group_one: Vec<ToolButton> = Vec::new();
    group_one.push(ToolButton::new(Tool::Pointer, true, icons.pointer));
    group_one.push(ToolButton::new(Tool::Move, false, icons.move_));
    group_one.push(ToolButton::new(Tool::Rotate, false, icons.rotate));
    group_one.push(ToolButton::new(Tool::Scale, false, icons.scale));
    let mut group_two: Vec<ToolButton> = Vec::new();
    group_two.push(ToolButton::new(Tool::AddEntity, false, icons.add_entity));
    group_two.push(ToolButton::new(Tool::ImportFile, false, icons.add_prefab));
    let mut tool_groups: Vec<Vec<ToolButton>> = Vec::new();
    tool_groups.push(group_one);
    tool_groups.push(group_two);

    EditorUiDef {
        close_menus: ClickAction(UiEvent::CloseMenus),
        menus,
        tabs,
        tool_groups,
        fps: FpsCounter { fps: None },
        camera_preview: CameraPreview,
        status: StatusBar { text: "Some status".to_owned() },
    }
}

} // verus!
