use editor_ui::colors::EditorBackgroundColor;
use editor_ui::colors::EditorColor;
use editor_ui::colors::Rgba;
use editor_ui::elements::build_fps_counter;
use editor_ui::elements::build_menu_bar_button;
use editor_ui::elements::build_status_bar;
use editor_ui::elements::build_tab;
use editor_ui::elements::build_tool_button;
use editor_ui::elements::reactive_tab;
use editor_ui::elements::u32_to_decimal;
use editor_ui::elements::CameraPreview;
use editor_ui::elements::FpsCounter;
use editor_ui::elements::IconHandle;
use editor_ui::elements::MenuBarButton;
use editor_ui::elements::StatusBar;
use editor_ui::elements::Tab;
use editor_ui::elements::ToolButton;
use editor_ui::elements::Widget;
use editor_ui::elements::build_camera_preview;
use editor_ui::events::Tool;
use editor_ui::events::UiEvent;
use editor_ui::fullscreen::DisplayMode;
use editor_ui::shortcuts::Platform;
use editor_ui::shortcuts::Shortcuts;

#[test]
fn rebuild_is_idempotent_for_every_widget_kind() {
    // the same data component yields a structurally identical subtree,
    // twice over: no drift, no duplicate children
    let tab = Tab::new(1, "Scene".to_string(), true);
    assert_eq!(build_tab(&tab), build_tab(&tab));

    let button = MenuBarButton {
        text: "Open".to_string(),
        shortcut_text: Some("Ctrl+O".to_string()),
        is_in_submenu: true,
        is_dropdown: false,
    };
    assert_eq!(build_menu_bar_button(&button), build_menu_bar_button(&button));

    let tool = ToolButton::new(Tool::Scale, false, IconHandle(9));
    assert_eq!(build_tool_button(&tool), build_tool_button(&tool));

    let status = StatusBar { text: "Ready".to_string() };
    assert_eq!(build_status_bar(&status), build_status_bar(&status));

    let fps = FpsCounter { fps: Some(144) };
    assert_eq!(build_fps_counter(&fps), build_fps_counter(&fps));

    assert_eq!(build_camera_preview(&CameraPreview), build_camera_preview(&CameraPreview));
}

#[test]
fn active_tab_subtree_shows_its_close_button() {
    let tree = build_tab(&Tab::new(2, "Game".to_string(), true));
    assert!(tree.node.is_button);
    assert_eq!(tree.node.click, Some(UiEvent::SelectTab(2)));
    assert_eq!(
        tree.node.background,
        Some(EditorBackgroundColor(
            EditorColor::TabActive,
            Some(EditorColor::TabActive),
            None,
        ))
    );
    assert_eq!(tree.children.len(), 3);
    // the dot
    assert_eq!(tree.children[0].node.text, Some("o".to_string()));
    assert_eq!(
        tree.children[0].node.flat_background,
        Some(Rgba { red: 0x37, green: 0x8D, blue: 0x09, alpha: 0xFF })
    );
    // the name
    assert_eq!(tree.children[1].node.text, Some("Game".to_string()));
    // the close button, laid out because the tab is active
    assert_eq!(tree.children[2].node.display, DisplayMode::Flex);
    assert_eq!(tree.children[2].node.click, Some(UiEvent::CloseTab(2)));
    assert_eq!(tree.children[2].children.len(), 1);
    assert_eq!(tree.children[2].children[0].text, Some("x".to_string()));
}

#[test]
fn inactive_tab_subtree_hides_its_close_button() {
    // toggling the active flag swaps the close-button visibility and the
    // background pair in one rebuild
    let tree = build_tab(&Tab::new(0, "Game".to_string(), false));
    assert_eq!(tree.children[2].node.display, DisplayMode::Hidden);
    assert_eq!(
        tree.node.background,
        Some(EditorBackgroundColor(
            EditorColor::TabBar,
            Some(EditorColor::TabHover),
            None,
        ))
    );
}

#[test]
fn menu_button_subtree_shows_its_hint_only_when_bound() {
    let hinted = build_menu_bar_button(&MenuBarButton {
        text: "New".to_string(),
        shortcut_text: Some("Ctrl+N".to_string()),
        is_in_submenu: true,
        is_dropdown: false,
    });
    assert_eq!(hinted.node.height_px, Some(26));
    assert_eq!(hinted.children.len(), 2);
    assert_eq!(hinted.children[0].node.text, Some("New".to_string()));
    assert_eq!(hinted.children[1].node.text, Some("Ctrl+N".to_string()));
    assert_eq!(hinted.children[1].node.display, DisplayMode::Flex);

    let bare = build_menu_bar_button(&MenuBarButton {
        text: "Camera".to_string(),
        shortcut_text: None,
        is_in_submenu: false,
        is_dropdown: true,
    });
    assert_eq!(bare.node.height_px, Some(29));
    assert_eq!(bare.children[1].node.text, Some(String::new()));
    assert_eq!(bare.children[1].node.display, DisplayMode::Hidden);
}

#[test]
fn menu_button_new_takes_its_hint_from_the_table() {
    let table = Shortcuts::with_platform(Platform::Linux);
    let (button, action) =
        MenuBarButton::new("New".to_string(), UiEvent::FileNew, &table, Platform::Linux);
    assert_eq!(button.shortcut_text, Some("Ctrl+N".to_string()));
    assert_eq!(action.0, UiEvent::FileNew);
    let (unbound, _) = MenuBarButton::new(
        "Close Tab".to_string(),
        UiEvent::CloseTab(0),
        &table,
        Platform::Linux,
    );
    assert_eq!(unbound.shortcut_text, None);
}

#[test]
fn tool_button_subtree_carries_its_icon_and_action() {
    let tree = build_tool_button(&ToolButton::new(Tool::Rotate, true, IconHandle(42)));
    assert_eq!(tree.node.click, Some(UiEvent::SelectTool(Tool::Rotate)));
    assert_eq!(
        tree.node.background,
        Some(EditorBackgroundColor(
            EditorColor::Background,
            Some(EditorColor::Background),
            None,
        ))
    );
    assert_eq!(tree.children.len(), 1);
    assert_eq!(tree.children[0].node.icon, Some(IconHandle(42)));
}

#[test]
fn status_bar_text_is_prefixed() {
    let tree = build_status_bar(&StatusBar { text: "Some status".to_string() });
    assert_eq!(tree.children.len(), 1);
    assert_eq!(tree.children[0].node.text, Some("Status: Some status".to_string()));
}

#[test]
fn fps_text_shows_the_sample_or_a_placeholder() {
    let absent = build_fps_counter(&FpsCounter { fps: None });
    assert_eq!(absent.node.text, Some("FPS: --".to_string()));
    let present = build_fps_counter(&FpsCounter { fps: Some(60) });
    assert_eq!(present.node.text, Some("FPS: 60".to_string()));
    let large = build_fps_counter(&FpsCounter { fps: Some(1234) });
    assert_eq!(large.node.text, Some("FPS: 1234".to_string()));
}

#[test]
fn decimal_rendering_is_exact() {
    assert_eq!(u32_to_decimal(0), "0");
    assert_eq!(u32_to_decimal(7), "7");
    assert_eq!(u32_to_decimal(10), "10");
    assert_eq!(u32_to_decimal(905), "905");
    assert_eq!(u32_to_decimal(4294967295), "4294967295");
}

#[test]
fn reactive_rebuild_touches_only_flagged_widgets() {
    let stale = build_tab(&Tab::new(9, "Stale".to_string(), false));
    let mut widgets = vec![
        Widget { data: Tab::new(0, "One".to_string(), true), rendered: build_camera_preview(&CameraPreview) },
        Widget { data: Tab::new(1, "Two".to_string(), false), rendered: stale },
    ];
    reactive_tab(&mut widgets, &vec![true, false]);
    // the flagged widget was regenerated from its data component
    assert_eq!(widgets[0].rendered, build_tab(&Tab::new(0, "One".to_string(), true)));
    // the unflagged widget kept its old subtree, stale or not
    assert_eq!(widgets[1].rendered, build_tab(&Tab::new(9, "Stale".to_string(), false)));
}
