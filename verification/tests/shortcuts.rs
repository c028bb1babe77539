use editor_ui::events::UiEvent;
use editor_ui::shortcuts::format_keycode;
use editor_ui::shortcuts::handle_shortcuts;
use editor_ui::shortcuts::shortcut_fires;
use editor_ui::shortcuts::KeyCode;
use editor_ui::shortcuts::Platform;
use editor_ui::shortcuts::Shortcut;
use editor_ui::shortcuts::Shortcuts;

#[test]
fn table_binds_the_bootstrap_chords() {
    let table = Shortcuts::with_platform(Platform::Linux);
    let new_file = table.get_shortcut(&UiEvent::FileNew).expect("bound");
    assert_eq!(new_file.keys_vec(), vec![KeyCode::ControlLeft, KeyCode::KeyN]);
    let previous = table.get_shortcut(&UiEvent::PreviousTab).expect("bound");
    assert_eq!(
        previous.keys_vec(),
        vec![KeyCode::ControlLeft, KeyCode::ShiftLeft, KeyCode::Tab]
    );
    let help = table.get_shortcut(&UiEvent::ShowHelp).expect("bound");
    assert_eq!(help.keys_vec(), vec![KeyCode::F1]);
}

#[test]
fn exit_chord_is_platform_resolved() {
    let linux = Shortcuts::with_platform(Platform::Linux);
    let exit = linux.get_shortcut(&UiEvent::FileExit).expect("bound");
    assert_eq!(exit.keys_vec(), vec![KeyCode::AltLeft, KeyCode::F4]);
    assert_eq!(exit.display_string(Platform::Linux), "Alt+F4");

    let mac = Shortcuts::with_platform(Platform::MacOs);
    let exit = mac.get_shortcut(&UiEvent::FileExit).expect("bound");
    assert_eq!(exit.keys_vec(), vec![KeyCode::SuperLeft, KeyCode::KeyQ]);
    assert_eq!(exit.display_string(Platform::MacOs), "Cmd+Q");
}

#[test]
fn unbound_events_have_no_shortcut() {
    let table = Shortcuts::with_platform(Platform::Linux);
    assert!(table.get_shortcut(&UiEvent::OpenMenu { id: "file".to_string() }).is_none());
    assert!(table.get_shortcut(&UiEvent::CloseTab(0)).is_none());
    assert!(table.get_shortcut(&UiEvent::SelectTab(1)).is_none());
}

#[test]
fn keycode_display_names() {
    assert_eq!(format_keycode(KeyCode::ControlLeft, Platform::Linux), "Ctrl");
    assert_eq!(format_keycode(KeyCode::ShiftLeft, Platform::Linux), "Shift");
    assert_eq!(format_keycode(KeyCode::AltLeft, Platform::Linux), "Alt");
    assert_eq!(format_keycode(KeyCode::SuperLeft, Platform::Windows), "Win");
    assert_eq!(format_keycode(KeyCode::SuperLeft, Platform::MacOs), "Cmd");
    assert_eq!(format_keycode(KeyCode::SuperLeft, Platform::Linux), "Cmd");
    assert_eq!(format_keycode(KeyCode::KeyN, Platform::Linux), "N");
    assert_eq!(format_keycode(KeyCode::F11, Platform::Linux), "F11");
    assert_eq!(format_keycode(KeyCode::Tab, Platform::Linux), "Tab");
}

#[test]
fn chord_display_joins_with_plus() {
    let table = Shortcuts::with_platform(Platform::Linux);
    let save_as = table.get_shortcut(&UiEvent::FileSaveAs).expect("bound");
    assert_eq!(save_as.display_string(Platform::Linux), "Ctrl+Shift+S");
    let fullscreen = table.get_shortcut(&UiEvent::ToggleFullscreen).expect("bound");
    assert_eq!(fullscreen.display_string(Platform::Linux), "F11");
}

#[test]
fn from_keys_round_trips() {
    let chord = Shortcut::from_keys(&vec![KeyCode::ControlLeft, KeyCode::KeyZ]);
    assert_eq!(chord.keys_vec(), vec![KeyCode::ControlLeft, KeyCode::KeyZ]);
    let copy = chord.duplicate();
    assert_eq!(copy.keys_vec(), vec![KeyCode::ControlLeft, KeyCode::KeyZ]);
    assert_eq!(copy.display_string(Platform::Linux), "Ctrl+Z");
    let empty = Shortcut::from_keys(&Vec::new());
    assert_eq!(empty.keys_vec(), Vec::<KeyCode>::new());
    assert_eq!(empty.display_string(Platform::Linux), "");
}

#[test]
fn chord_fires_needs_all_held_and_an_edge() {
    let chord = Shortcut::from_keys(&vec![KeyCode::ControlLeft, KeyCode::KeyN]);
    // held but no key just pressed: no fire
    assert!(!shortcut_fires(
        &chord,
        &vec![KeyCode::ControlLeft, KeyCode::KeyN],
        &Vec::new()
    ));
    // edge present but chord not fully held: no fire
    assert!(!shortcut_fires(&chord, &vec![KeyCode::KeyN], &vec![KeyCode::KeyN]));
    // fully held with an edge: fires, whichever chord key completed it
    assert!(shortcut_fires(
        &chord,
        &vec![KeyCode::ControlLeft, KeyCode::KeyN],
        &vec![KeyCode::KeyN]
    ));
    assert!(shortcut_fires(
        &chord,
        &vec![KeyCode::KeyN, KeyCode::ControlLeft],
        &vec![KeyCode::ControlLeft]
    ));
}

#[test]
fn holding_ctrl_then_pressing_n_emits_file_new_once() {
    let table = Shortcuts::with_platform(Platform::Linux);
    // tick 1: Ctrl goes down alone
    let tick1 = handle_shortcuts(&table, &vec![KeyCode::ControlLeft], &vec![KeyCode::ControlLeft]);
    assert_eq!(tick1, Vec::<UiEvent>::new());
    // tick 2: N goes down while Ctrl is held: FileNew, exactly once
    let tick2 = handle_shortcuts(
        &table,
        &vec![KeyCode::ControlLeft, KeyCode::KeyN],
        &vec![KeyCode::KeyN],
    );
    assert_eq!(tick2, vec![UiEvent::FileNew]);
    // tick 3 and later: both keys stay held, no new edge: nothing more
    let tick3 = handle_shortcuts(
        &table,
        &vec![KeyCode::ControlLeft, KeyCode::KeyN],
        &Vec::new(),
    );
    assert_eq!(tick3, Vec::<UiEvent>::new());
}

#[test]
fn independent_chords_fire_in_the_same_tick() {
    let table = Shortcuts::with_platform(Platform::Linux);
    let out = handle_shortcuts(
        &table,
        &vec![KeyCode::ControlLeft, KeyCode::ShiftLeft, KeyCode::Tab],
        &vec![KeyCode::Tab],
    );
    // both the two-key and the three-key tab chord are fully held and
    // share the just-pressed key
    assert_eq!(out, vec![UiEvent::NextTab, UiEvent::PreviousTab]);
}
