use editor_ui::colors::add_colors;
use editor_ui::colors::resolve_role;
use editor_ui::colors::rgba_from_hex;
use editor_ui::colors::update_background_colors;
use editor_ui::colors::update_colors;
use editor_ui::colors::EditorBackgroundColor;
use editor_ui::colors::EditorColor;
use editor_ui::colors::EditorTextColor;
use editor_ui::colors::Interaction;
use editor_ui::colors::Rgba;
use editor_ui::colors::UiColors;

fn rgb(red: u8, green: u8, blue: u8) -> Rgba {
    Rgba { red, green, blue, alpha: 0xFF }
}

#[test]
fn default_theme_concrete_values() {
    let theme = UiColors::default_theme();
    assert_eq!(theme.color(EditorColor::MenuBar), rgb(0x3B, 0x3B, 0x3B));
    assert_eq!(theme.color(EditorColor::MenuBarButtonHover), rgb(0x2C, 0x2C, 0x2C));
    assert_eq!(theme.color(EditorColor::TabBar), rgb(0x2B, 0x2B, 0x2B));
    assert_eq!(theme.color(EditorColor::Background), rgb(0x1B, 0x1B, 0x1B));
    assert_eq!(theme.color(EditorColor::Text), rgb(0xFF, 0xFF, 0xFF));
    assert_eq!(theme.color(EditorColor::TabHover), rgb(0x35, 0x35, 0x35));
    assert_eq!(theme.color(EditorColor::TabActive), rgb(0x1B, 0x1B, 0x1B));
    assert_eq!(theme.color(EditorColor::HeadingText), rgb(0x00, 0x00, 0x00));
    assert_eq!(theme.color(EditorColor::Button), rgb(0x0C, 0x0C, 0x0C));
}

#[test]
fn default_trait_matches_default_theme() {
    let a = UiColors::default();
    let b = UiColors::default_theme();
    assert_eq!(a.color(EditorColor::MenuBar), b.color(EditorColor::MenuBar));
    assert_eq!(a.color(EditorColor::InputFieldText), b.color(EditorColor::InputFieldText));
}

#[test]
fn hex_parses_six_digit_form() {
    assert_eq!(rgba_from_hex(b"#3B3B3B"), Some(rgb(0x3B, 0x3B, 0x3B)));
    assert_eq!(rgba_from_hex(b"378D09"), Some(rgb(0x37, 0x8D, 0x09)));
    assert_eq!(rgba_from_hex(b"#ffffff"), Some(rgb(0xFF, 0xFF, 0xFF)));
}

#[test]
fn hex_parses_short_and_alpha_forms() {
    assert_eq!(rgba_from_hex(b"#FFF"), Some(rgb(0xFF, 0xFF, 0xFF)));
    assert_eq!(rgba_from_hex(b"#abc"), Some(rgb(0xAA, 0xBB, 0xCC)));
    assert_eq!(
        rgba_from_hex(b"#12345678"),
        Some(Rgba { red: 0x12, green: 0x34, blue: 0x56, alpha: 0x78 })
    );
    assert_eq!(
        rgba_from_hex(b"1234"),
        Some(Rgba { red: 0x11, green: 0x22, blue: 0x33, alpha: 0x44 })
    );
}

#[test]
fn hex_rejects_malformed_strings() {
    assert_eq!(rgba_from_hex(b""), None);
    assert_eq!(rgba_from_hex(b"#"), None);
    assert_eq!(rgba_from_hex(b"#12345"), None);
    assert_eq!(rgba_from_hex(b"#GGHHII"), None);
    assert_eq!(rgba_from_hex(b"#3B3B3G"), None);
    assert_eq!(rgba_from_hex(b"not a color"), None);
}

#[test]
fn theme_from_hex_builds_a_full_table() {
    let rows: Vec<Vec<u8>> = vec![
        b"#3B3B3B".to_vec(),
        b"#FFFFFF".to_vec(),
        b"#2C2C2C".to_vec(),
        b"#FFFFFF".to_vec(),
        b"#2B2B2B".to_vec(),
        b"#1B1B1B".to_vec(),
        b"#FFFFFF".to_vec(),
        b"#9B9B9B".to_vec(),
        b"#353535".to_vec(),
        b"#1B1B1B".to_vec(),
        b"#FFFFFF".to_vec(),
        b"#000000".to_vec(),
        b"#0C0C0C".to_vec(),
        b"#FFFFFF".to_vec(),
        b"#000000".to_vec(),
    ];
    let theme = UiColors::theme_from_hex(&rows).expect("palette parses");
    let reference = UiColors::default_theme();
    for role in [
        EditorColor::MenuBar,
        EditorColor::MenuBarButtonText,
        EditorColor::MenuBarButtonHover,
        EditorColor::MenuBarButtonHoverText,
        EditorColor::TabBar,
        EditorColor::Background,
        EditorColor::Text,
        EditorColor::FadedText,
        EditorColor::TabHover,
        EditorColor::TabActive,
        EditorColor::Heading,
        EditorColor::HeadingText,
        EditorColor::Button,
        EditorColor::InputField,
        EditorColor::InputFieldText,
    ] {
        assert_eq!(theme.color(role), reference.color(role));
    }
}

#[test]
fn theme_from_hex_is_fatal_on_one_bad_row() {
    let mut rows: Vec<Vec<u8>> = Vec::new();
    for _ in 0..15 {
        rows.push(b"#123456".to_vec());
    }
    rows[7] = b"#nothex".to_vec();
    assert!(UiColors::theme_from_hex(&rows).is_none());
}

#[test]
fn theme_from_hex_is_fatal_on_wrong_row_count() {
    let rows: Vec<Vec<u8>> = vec![b"#123456".to_vec(); 14];
    assert!(UiColors::theme_from_hex(&rows).is_none());
    let rows: Vec<Vec<u8>> = vec![b"#123456".to_vec(); 16];
    assert!(UiColors::theme_from_hex(&rows).is_none());
}

#[test]
fn set_color_rebinds_one_role_only() {
    let mut theme = UiColors::default_theme();
    let red = Rgba { red: 0xFF, green: 0, blue: 0, alpha: 0xFF };
    theme.set_color(EditorColor::MenuBar, red);
    assert_eq!(theme.color(EditorColor::MenuBar), red);
    assert_eq!(theme.color(EditorColor::TabBar), rgb(0x2B, 0x2B, 0x2B));
}

#[test]
fn precedence_pressed_with_pressed_role() {
    let role = resolve_role(
        EditorColor::Background,
        Some(EditorColor::MenuBarButtonHover),
        Some(EditorColor::Button),
        Interaction::Pressed,
    );
    assert_eq!(role, EditorColor::Button);
}

#[test]
fn precedence_pressed_falls_back_to_hover() {
    // base set, hover set, pressed unset, interaction pressed: the hover
    // role's concrete value wins.
    let role = resolve_role(
        EditorColor::Background,
        Some(EditorColor::MenuBarButtonHover),
        None,
        Interaction::Pressed,
    );
    assert_eq!(role, EditorColor::MenuBarButtonHover);
    let theme = UiColors::default_theme();
    assert_eq!(theme.color(role), rgb(0x2C, 0x2C, 0x2C));
}

#[test]
fn precedence_hovered_takes_hover_role() {
    let role = resolve_role(
        EditorColor::TabBar,
        Some(EditorColor::TabHover),
        Some(EditorColor::Button),
        Interaction::Hovered,
    );
    assert_eq!(role, EditorColor::TabHover);
}

#[test]
fn precedence_idle_or_no_overrides_takes_base() {
    assert_eq!(
        resolve_role(
            EditorColor::TabBar,
            Some(EditorColor::TabHover),
            Some(EditorColor::Button),
            Interaction::Idle,
        ),
        EditorColor::TabBar
    );
    assert_eq!(
        resolve_role(EditorColor::TabBar, None, None, Interaction::Pressed),
        EditorColor::TabBar
    );
    assert_eq!(
        resolve_role(EditorColor::TabBar, None, None, Interaction::Hovered),
        EditorColor::TabBar
    );
}

#[test]
fn update_colors_resolves_each_node() {
    let theme = UiColors::default_theme();
    let nodes = vec![
        (
            EditorTextColor(EditorColor::Text, None, None),
            Some(Interaction::Hovered),
        ),
        (
            EditorTextColor(EditorColor::Text, Some(EditorColor::HeadingText), None),
            Some(Interaction::Pressed),
        ),
        (EditorTextColor(EditorColor::FadedText, None, None), None),
    ];
    let out = update_colors(&theme, &nodes);
    assert_eq!(out, vec![
        rgb(0xFF, 0xFF, 0xFF),
        rgb(0x00, 0x00, 0x00),
        rgb(0x9B, 0x9B, 0x9B),
    ]);
}

#[test]
fn update_background_colors_resolves_each_node() {
    let theme = UiColors::default_theme();
    let nodes = vec![
        (
            EditorBackgroundColor(EditorColor::TabBar, Some(EditorColor::TabHover), None),
            Some(Interaction::Hovered),
        ),
        (
            EditorBackgroundColor(EditorColor::TabBar, Some(EditorColor::TabHover), None),
            Some(Interaction::Idle),
        ),
    ];
    let out = update_background_colors(&theme, &nodes);
    assert_eq!(out, vec![rgb(0x35, 0x35, 0x35), rgb(0x2B, 0x2B, 0x2B)]);
}

#[test]
fn add_colors_paints_base_roles() {
    let theme = UiColors::default_theme();
    let (text, background) = add_colors(
        &theme,
        &vec![EditorColor::Text, EditorColor::HeadingText],
        &vec![EditorColor::MenuBar],
    );
    assert_eq!(text, vec![rgb(0xFF, 0xFF, 0xFF), rgb(0x00, 0x00, 0x00)]);
    assert_eq!(background, vec![rgb(0x3B, 0x3B, 0x3B)]);
}
