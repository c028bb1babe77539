use editor_ui::bootstrap::setup_ui;
use editor_ui::bootstrap::EditorRenderLayer;
use editor_ui::bootstrap::ToolButtonIcons;
use editor_ui::bootstrap::UiPlugin;
use editor_ui::bootstrap::TAB_COUNT;
use editor_ui::elements::IconHandle;
use editor_ui::events::Tool;
use editor_ui::events::UiEvent;
use editor_ui::shortcuts::Platform;
use editor_ui::shortcuts::Shortcuts;

fn icons() -> ToolButtonIcons {
    ToolButtonIcons {
        pointer: IconHandle(1),
        move_: IconHandle(2),
        rotate: IconHandle(3),
        scale: IconHandle(4),
        add_entity: IconHandle(5),
        add_prefab: IconHandle(6),
    }
}

#[test]
fn bootstrap_menus_have_the_five_dropdowns() {
    let table = Shortcuts::with_platform(Platform::Linux);
    let ui = setup_ui(&table, Platform::Linux, &icons());
    assert_eq!(ui.close_menus.0, UiEvent::CloseMenus);
    assert_eq!(ui.menus.len(), 5);
    let labels: Vec<&str> = ui.menus.iter().map(|m| m.button.text.as_str()).collect();
    assert_eq!(labels, vec!["File", "Edit", "View", "Camera", "Help"]);
    let ids: Vec<&str> = ui.menus.iter().map(|m| m.dropdown.id.as_str()).collect();
    assert_eq!(ids, vec!["file", "edit", "view", "camera", "help"]);
    for m in &ui.menus {
        assert!(m.button.is_dropdown && !m.button.is_in_submenu);
        assert_eq!(m.open_action.0, UiEvent::OpenMenu { id: m.dropdown.id.clone() });
    }
}

#[test]
fn bootstrap_file_menu_entries_and_hints() {
    let table = Shortcuts::with_platform(Platform::Linux);
    let ui = setup_ui(&table, Platform::Linux, &icons());
    let file = &ui.menus[0];
    assert_eq!(file.items.len(), 6);
    let labels: Vec<&str> = file.items.iter().map(|i| i.0.text.as_str()).collect();
    assert_eq!(labels, vec!["New", "Open", "Save", "Save As", "Close", "Exit"]);
    assert_eq!(file.items[0].1 .0, UiEvent::FileNew);
    assert_eq!(file.items[5].1 .0, UiEvent::FileExit);
    assert_eq!(file.items[0].0.shortcut_text, Some("Ctrl+N".to_string()));
    assert_eq!(file.items[3].0.shortcut_text, Some("Ctrl+Shift+S".to_string()));
    assert_eq!(file.items[5].0.shortcut_text, Some("Alt+F4".to_string()));
}

#[test]
fn bootstrap_exit_hint_follows_the_platform() {
    let table = Shortcuts::with_platform(Platform::MacOs);
    let ui = setup_ui(&table, Platform::MacOs, &icons());
    assert_eq!(ui.menus[0].items[5].0.shortcut_text, Some("Cmd+Q".to_string()));
}

#[test]
fn bootstrap_other_menus() {
    let table = Shortcuts::with_platform(Platform::Linux);
    let ui = setup_ui(&table, Platform::Linux, &icons());
    assert_eq!(ui.menus[1].items.len(), 2);
    assert_eq!(ui.menus[1].items[0].1 .0, UiEvent::Undo);
    assert_eq!(ui.menus[1].items[1].1 .0, UiEvent::Redo);
    assert_eq!(ui.menus[2].items.len(), 3);
    assert_eq!(ui.menus[2].items[0].1 .0, UiEvent::ToggleFullscreen);
    assert_eq!(ui.menus[2].items[0].0.shortcut_text, Some("F11".to_string()));
    assert_eq!(ui.menus[3].items.len(), 0);
    assert_eq!(ui.menus[4].items.len(), 1);
    assert_eq!(ui.menus[4].items[0].1 .0, UiEvent::ShowHelp);
    assert_eq!(ui.menus[4].items[0].0.shortcut_text, Some("F1".to_string()));
}

#[test]
fn bootstrap_tabs_and_tools() {
    let table = Shortcuts::with_platform(Platform::Linux);
    let ui = setup_ui(&table, Platform::Linux, &icons());
    assert_eq!(ui.tabs.len(), TAB_COUNT);
    assert_eq!(ui.tabs[0].name, "Tab 1");
    assert!(ui.tabs[0].is_active);
    assert_eq!(ui.tabs[1].name, "Tab 2");
    assert!(!ui.tabs[1].is_active);
    assert_eq!(ui.tabs[2].index, 2);
    assert_eq!(ui.tool_groups.len(), 2);
    let first: Vec<Tool> = ui.tool_groups[0].iter().map(|b| b.action).collect();
    assert_eq!(first, vec![Tool::Pointer, Tool::Move, Tool::Rotate, Tool::Scale]);
    let second: Vec<Tool> = ui.tool_groups[1].iter().map(|b| b.action).collect();
    assert_eq!(second, vec![Tool::AddEntity, Tool::ImportFile]);
    assert!(ui.tool_groups[0][0].is_active);
    assert!(ui.tool_groups[0].iter().skip(1).all(|b| !b.is_active));
    assert_eq!(ui.tool_groups[0][2].icon, IconHandle(3));
    assert_eq!(ui.tool_groups[1][1].icon, IconHandle(6));
    assert_eq!(ui.fps.fps, None);
    assert_eq!(ui.status.text, "Some status");
}

#[test]
fn plugin_defaults_to_the_reserved_layer() {
    assert_eq!(UiPlugin::default().editor_render_layer, 999);
    assert_eq!(EditorRenderLayer(7).0, 7);
}
