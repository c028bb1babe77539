//! The theme resolver: semantic color roles, the role-to-color table, and
//! the precedence rules that pick a role from a node's `(base, hover,
//! pressed)` triple and its live interaction state.

use vstd::prelude::*;

verus! {

/// A semantic color role. Themed nodes name roles, never concrete colors;
/// the [`UiColors`] table maps each role to a concrete color.
#[derive(Clone, Copy, PartialEq, Eq, Structural, Debug, Hash)]
pub enum EditorColor {
    MenuBar,
    MenuBarButtonText,
    MenuBarButtonHover,
    MenuBarButtonHoverText,
    TabBar,
    Background,
    Text,
    FadedText,
    TabHover,
    TabActive,
    Heading,
    HeadingText,
    Button,
    InputField,
    InputFieldText,
}

/// How many color roles exist.
pub const COLOR_ROLE_COUNT: usize = 15;

/// A concrete color: non-premultiplied 8-bit sRGB channels plus alpha.
#[derive(Clone, Copy, PartialEq, Eq, Structural, Debug)]
pub struct Rgba {
    pub red: u8,
    pub green: u8,
    pub blue: u8,
    pub alpha: u8,
}

/// The position of a role in the color table.
pub open spec fn spec_role_index(role: EditorColor) -> int {
    match role {
        EditorColor::MenuBar => 0,
        EditorColor::MenuBarButtonText => 1,
        EditorColor::MenuBarButtonHover => 2,
        EditorColor::MenuBarButtonHoverText => 3,
        EditorColor::TabBar => 4,
        EditorColor::Background => 5,
        EditorColor::Text => 6,
        EditorColor::FadedText => 7,
        EditorColor::TabHover => 8,
        EditorColor::TabActive => 9,
        EditorColor::Heading => 10,
        EditorColor::HeadingText => 11,
        EditorColor::Button => 12,
        EditorColor::InputField => 13,
        EditorColor::InputFieldText => 14,
    }
}

fn role_index(role: EditorColor) -> (i: usize)
    ensures
        i == spec_role_index(role),
        i < COLOR_ROLE_COUNT,
{
    match role {
        EditorColor::MenuBar => 0,
        EditorColor::MenuBarButtonText => 1,
        EditorColor::MenuBarButtonHover => 2,
        EditorColor::MenuBarButtonHoverText => 3,
        EditorColor::TabBar => 4,
        EditorColor::Background => 5,
        EditorColor::Text => 6,
        EditorColor::FadedText => 7,
        EditorColor::TabHover => 8,
        EditorColor::TabActive => 9,
        EditorColor::Heading => 10,
        EditorColor::HeadingText => 11,
        EditorColor::Button => 12,
        EditorColor::InputField => 13,
        EditorColor::InputFieldText => 14,
    }
}

/// The value of one hexadecimal digit, if the byte is one.
pub open spec fn spec_hex_digit(b: u8) -> Option<u8> {
    if 48 <= b <= 57 { Some((b - 48) as u8) }
    else if 97 <= b <= 102 { Some((b - 87) as u8) }
    else if 65 <= b <= 70 { Some((b - 55) as u8) }
    else { None }
}

/// The byte written as the two hexadecimal digits `hi`, `lo`.
pub open spec fn spec_hex_pair(hi: u8, lo: u8) -> Option<u8> {
    match (spec_hex_digit(hi), spec_hex_digit(lo)) {
        (Some(h), Some(l)) => Some((16 * h + l) as u8),
        _ => None,
    }
}

/// The byte written as the single hexadecimal digit `d` repeated twice,
/// as in the short `#RGB` color form where `F` stands for `FF`.
pub open spec fn spec_hex_single(d: u8) -> Option<u8> {
    match spec_hex_digit(d) {
        Some(h) => Some((17 * h) as u8),
        _ => None,
    }
}

/// The color denoted by a hex string: an optional `#`, then 3, 4, 6 or 8
/// hex digits (`RGB`, `RGBA`, `RRGGBB`, `RRGGBBAA`); alpha defaults to 255.
pub open spec fn spec_hex_color(s: Seq<u8>) -> Option<Rgba> {
    let t = if s.len() > 0 && s[0] == 35 { s.skip(1) } else { s };
    if t.len() == 3 {
        match (spec_hex_single(t[0]), spec_hex_single(t[1]), spec_hex_single(t[2])) {
            (Some(r), Some(g), Some(b)) => Some(Rgba { red: r, green: g, blue: b, alpha: 255 }),
            _ => None,
        }
    } else if t.len() == 4 {
        match (spec_hex_single(t[0]), spec_hex_single(t[1]), spec_hex_single(t[2]), spec_hex_single(t[3])) {
            (Some(r), Some(g), Some(b), Some(a)) => Some(Rgba { red: r, green: g, blue: b, alpha: a }),
            _ => None,
        }
    } else if t.len() == 6 {
        match (spec_hex_pair(t[0], t[1]), spec_hex_pair(t[2], t[3]), spec_hex_pair(t[4], t[5])) {
            (Some(r), Some(g), Some(b)) => Some(Rgba { red: r, green: g, blue: b, alpha: 255 }),
            _ => None,
        }
    } else if t.len() == 8 {
        match (spec_hex_pair(t[0], t[1]), spec_hex_pair(t[2], t[3]), spec_hex_pair(t[4], t[5]), spec_hex_pair(t[6], t[7])) {
            (Some(r), Some(g), Some(b), Some(a)) => Some(Rgba { red: r, green: g, blue: b, alpha: a }),
            _ => None,
        }
    } else {
        None
    }
}

fn hex_digit(b: u8) -> (r: Option<u8>)
    ensures
        r == spec_hex_digit(b),
{
    if 48 <= b && b <= 57 {
        Some(b - 48)
    } else if 97 <= b && b <= 102 {
        Some(b - 87)
    } else if 65 <= b && b <= 70 {
        Some(b - 55)
    } else {
        None
    }
}

fn hex_pair(hi: u8, lo: u8) -> (r: Option<u8>)
    ensures
        r == spec_hex_pair(hi, lo),
{
    match (hex_digit(hi), hex_digit(lo)) {
        (Some(h), Some(l)) => Some(16 * h + l),
        _ => None,
    }
}

fn hex_single(d: u8) -> (r: Option<u8>)
    ensures
        r == spec_hex_single(d),
{
    match hex_digit(d) {
        Some(h) => Some(17 * h),
        _ => None,
    }
}

/// Parses a static hex color string, the format the theme table is
/// configured with. Malformed strings yield `None`, which theme
/// construction treats as fatal.
pub fn rgba_from_hex(s: &[u8]) -> (r: Option<Rgba>)
    ensures
        r == spec_hex_color(s@),
{
    let offset: usize = if s.len() > 0 && s[0] == 35 { 1 } else { 0 };
    let n = s.len() - offset;
    proof {
        let t = if s@.len() > 0 && s@[0] == 35 { s@.skip(1) } else { s@ };
        assert(t =~= s@.subrange(offset as int, s@.len() as int));
    }
    if n == 3 {
        match (hex_single(s[offset]), hex_single(s[offset + 1]), hex_single(s[offset + 2])) {
            (Some(r), Some(g), Some(b)) => Some(Rgba { red: r, green: g, blue: b, alpha: 255 }),
            _ => None,
        }
    } else if n == 4 {
        match (hex_single(s[offset]), hex_single(s[offset + 1]), hex_single(s[offset + 2]), hex_single(s[offset + 3])) {
            (Some(r), Some(g), Some(b), Some(a)) => Some(Rgba { red: r, green: g, blue: b, alpha: a }),
            _ => None,
        }
    } else if n == 6 {
        match (hex_pair(s[offset], s[offset + 1]), hex_pair(s[offset + 2], s[offset + 3]), hex_pair(s[offset + 4], s[offset + 5])) {
            (Some(r), Some(g), Some(b)) => Some(Rgba { red: r, green: g, blue: b, alpha: 255 }),
            _ => None,
        }
    } else if n == 8 {
        match (hex_pair(s[offset], s[offset + 1]), hex_pair(s[offset + 2], s[offset + 3]), hex_pair(s[offset + 4], s[offset + 5]), hex_pair(s[offset + 6], s[offset + 7])) {
            (Some(r), Some(g), Some(b), Some(a)) => Some(Rgba { red: r, green: g, blue: b, alpha: a }),
            _ => None,
        }
    } else {
        None
    }
}

/// The mapping from color roles to concrete colors. Replaceable as a unit;
/// every bound node picks up a replacement on its next resolution.
pub struct UiColors {
    colors: Vec<Rgba>,
}

/// The concrete color each role carries in the default (startup) theme.
pub open spec fn spec_default_color(role: EditorColor) -> Rgba {
    match role {
        EditorColor::MenuBar => Rgba { red: 0x3B, green: 0x3B, blue: 0x3B, alpha: 0xFF },
        EditorColor::MenuBarButtonText => Rgba { red: 0xFF, green: 0xFF, blue: 0xFF, alpha: 0xFF },
        EditorColor::MenuBarButtonHover => Rgba { red: 0x2C, green: 0x2C, blue: 0x2C, alpha: 0xFF },
        EditorColor::MenuBarButtonHoverText => Rgba { red: 0xFF, green: 0xFF, blue: 0xFF, alpha: 0xFF },
        EditorColor::TabBar => Rgba { red: 0x2B, green: 0x2B, blue: 0x2B, alpha: 0xFF },
        EditorColor::Background => Rgba { red: 0x1B, green: 0x1B, blue: 0x1B, alpha: 0xFF },
        EditorColor::Text => Rgba { red: 0xFF, green: 0xFF, blue: 0xFF, alpha: 0xFF },
        EditorColor::FadedText => Rgba { red: 0x9B, green: 0x9B, blue: 0x9B, alpha: 0xFF },
        EditorColor::TabHover => Rgba { red: 0x35, green: 0x35, blue: 0x35, alpha: 0xFF },
        EditorColor::TabActive => Rgba { red: 0x1B, green: 0x1B, blue: 0x1B, alpha: 0xFF },
        EditorColor::Heading => Rgba { red: 0xFF, green: 0xFF, blue: 0xFF, alpha: 0xFF },
        EditorColor::HeadingText => Rgba { red: 0x00, green: 0x00, blue: 0x00, alpha: 0xFF },
        EditorColor::Button => Rgba { red: 0x0C, green: 0x0C, blue: 0x0C, alpha: 0xFF },
        EditorColor::InputField => Rgba { red: 0xFF, green: 0xFF, blue: 0xFF, alpha: 0xFF },
        EditorColor::InputFieldText => Rgba { red: 0x00, green: 0x00, blue: 0x00, alpha: 0xFF },
    }
}

impl UiColors {
    /// A table is well formed when it has one entry per role.
    pub closed spec fn wf(self) -> bool {
        self.colors@.len() == COLOR_ROLE_COUNT
    }

    /// The concrete color the table assigns to a role.
    pub closed spec fn spec_color(self, role: EditorColor) -> Rgba {
        self.colors@[spec_role_index(role)]
    }

    /// Looks a role up. Every role is registered in a well-formed table,
    /// so the lookup is total; an unregistered role cannot be expressed.
    pub fn color(&self, role: EditorColor) -> (c: Rgba)
        requires
            self.wf(),
        ensures
            c == self.spec_color(role),
    {
        let i = role_index(role);
        self.colors[i]
    }

    /// Rebinds one role; the next resolution of every bound node sees it.
    pub fn set_color(&mut self, role: EditorColor, color: Rgba)
        requires
            old(self).wf(),
        ensures
            final(self).wf(),
            final(self).spec_color(role) == color,
            forall|other: EditorColor| other != role
                ==> final(self).spec_color(other) == old(self).spec_color(other),
    {
        let i = role_index(role);
        self.colors.set(i, color);
        proof {
            assert forall|other: EditorColor| other != role
                implies self.spec_color(other) == old(self).spec_color(other) by {
                assert(spec_role_index(other) != spec_role_index(role));
            }
        }
    }

    /// Builds a table from one hex string per role, in role order. Yields
    /// `None` — fatal at startup — as soon as one string is malformed or
    /// the row count is wrong.
    pub fn theme_from_hex(rows: &Vec<Vec<u8>>) -> (r: Option<UiColors>)
        ensures
            r is Some <==> rows@.len() == COLOR_ROLE_COUNT
                && forall|i: int| 0 <= i < rows@.len() ==> spec_hex_color(rows@[i]@) is Some,
            r matches Some(t) ==> t.wf()
                && forall|role: EditorColor| #[trigger] t.spec_color(role)
                    == spec_hex_color(rows@[spec_role_index(role)]@)->0,
    {
        if rows.len() != COLOR_ROLE_COUNT {
            return None;
        }
        let mut colors: Vec<Rgba> = Vec::new();
        let mut i: usize = 0;
        while i < rows.len()
            invariant
                0 <= i <= rows@.len(),
                rows@.len() == COLOR_ROLE_COUNT,
                colors@.len() == i,
                forall|j: int| 0 <= j < i ==> spec_hex_color(rows@[j]@) is Some,
                forall|j: int| 0 <= j < i ==> colors@[j] == spec_hex_color(rows@[j]@)->0,
            decreases rows@.len() - i,
        {
            match rgba_from_hex(rows[i].as_slice()) {
                Some(c) => colors.push(c),
                None => {
                    return None;
                },
            }
            i = i + 1;
        }
        Some(UiColors { colors })
    }

    /// The theme the editor starts with.
    pub fn default_theme() -> (r: UiColors)
        ensures
            r.wf(),
            forall|role: EditorColor| #[trigger] r.spec_color(role) == spec_default_color(role),
    {
        let mut colors: Vec<Rgba> = Vec::new();
        colors.push(Rgba { red: 0x3B, green: 0x3B, blue: 0x3B, alpha: 0xFF });
        colors.push(Rgba { red: 0xFF, green: 0xFF, blue: 0xFF, alpha: 0xFF });
        colors.push(Rgba { red: 0x2C, green: 0x2C, blue: 0x2C, alpha: 0xFF });
        colors.push(Rgba { red: 0xFF, green: 0xFF, blue: 0xFF, alpha: 0xFF });
        colors.push(Rgba { red: 0x2B, green: 0x2B, blue: 0x2B, alpha: 0xFF });
        colors.push(Rgba { red: 0x1B, green: 0x1B, blue: 0x1B, alpha: 0xFF });
        colors.push(Rgba { red: 0xFF, green: 0xFF, blue: 0xFF, alpha: 0xFF });
        colors.push(Rgba { red: 0x9B, green: 0x9B, blue: 0x9B, alpha: 0xFF });
        colors.push(Rgba { red: 0x35, green: 0x35, blue: 0x35, alpha: 0xFF });
        colors.push(Rgba { red: 0x1B, green: 0x1B, blue: 0x1B, alpha: 0xFF });
        colors.push(Rgba { red: 0xFF, green: 0xFF, blue: 0xFF, alpha: 0xFF });
        colors.push(Rgba { red: 0x00, green: 0x00, blue: 0x00, alpha: 0xFF });
        colors.push(Rgba { red: 0x0C, green: 0x0C, blue: 0x0C, alpha: 0xFF });
        colors.push(Rgba { red: 0xFF, green: 0xFF, blue: 0xFF, alpha: 0xFF });
        colors.push(Rgba { red: 0x00, green: 0x00, blue: 0x00, alpha: 0xFF });
        let r = UiColors { colors };
        proof {
            assert forall|role: EditorColor| #[trigger] r.spec_color(role)
                == spec_default_color(role) by {
                match role {
                    EditorColor::MenuBar => {},
                    EditorColor::MenuBarButtonText => {},
                    EditorColor::MenuBarButtonHover => {},
                    EditorColor::MenuBarButtonHoverText => {},
                    EditorColor::TabBar => {},
                    EditorColor::Background => {},
                    EditorColor::Text => {},
                    EditorColor::FadedText => {},
                    EditorColor::TabHover => {},
                    EditorColor::TabActive => {},
                    EditorColor::Heading => {},
                    EditorColor::HeadingText => {},
                    EditorColor::Button => {},
                    EditorColor::InputField => {},
                    EditorColor::InputFieldText => {},
                }
            }
        }
        r
    }
}

impl Default for UiColors {
    /// The default theme; same table as [`UiColors::default_theme`].
    fn default() -> (r: Self)
        ensures
            r.wf(),
            forall|role: EditorColor| #[trigger] r.spec_color(role) == spec_default_color(role),
    {
        UiColors::default_theme()
    }
}

/// The pointer's relation to a node this tick, as the interaction feed
/// reports it.
#[derive(Clone, Copy, PartialEq, Eq, Structural, Debug)]
pub enum Interaction {
    /// The pointer is pressing the node.
    Pressed,
    /// The pointer rests over the node without pressing it.
    Hovered,
    /// The pointer is elsewhere.
    Idle,
}

/// Role triple for a node's text: `(base, hover, pressed)`; the hover and
/// pressed overrides are optional and independent of the background's.
#[derive(Clone, Copy, PartialEq, Eq, Debug)]
pub struct EditorTextColor(pub EditorColor, pub Option<EditorColor>, pub Option<EditorColor>);

/// Role triple for a node's background: `(base, hover, pressed)`.
#[derive(Clone, Copy, PartialEq, Eq, Debug)]
pub struct EditorBackgroundColor(pub EditorColor, pub Option<EditorColor>, pub Option<EditorColor>);

/// The role a `(base, hover, pressed)` triple resolves to under an
/// interaction state:
/// pressed with a pressed override wins; pressed without one falls back to
/// the hover override; hovered takes the hover override; otherwise the
/// base role stands.
pub open spec fn spec_resolve_role(
    base: EditorColor,
    hover: Option<EditorColor>,
    pressed: Option<EditorColor>,
    interaction: Interaction,
) -> EditorColor {
    if interaction is Pressed && pressed is Some {
        pressed->0
    } else if interaction is Pressed && hover is Some {
        hover->0
    } else if interaction is Hovered && hover is Some {
        hover->0
    } else {
        base
    }
}

/// Resolution of a node that may lack an interaction component: such a
/// node always shows its base role.
pub open spec fn spec_resolve_role_opt(
    base: EditorColor,
    hover: Option<EditorColor>,
    pressed: Option<EditorColor>,
    interaction: Option<Interaction>,
) -> EditorColor {
    match interaction {
        Some(i) => spec_resolve_role(base, hover, pressed, i),
        None => base,
    }
}

/// Picks the role a themed node shows under the given interaction state.
pub fn resolve_role(
    base: EditorColor,
    hover: Option<EditorColor>,
    pressed: Option<EditorColor>,
    interaction: Interaction,
) -> (role: EditorColor)
    ensures
        role == spec_resolve_role(base, hover, pressed, interaction),
        interaction is Pressed && pressed is Some ==> role == pressed->0,
        interaction is Pressed && pressed is None && hover is Some ==> role == hover->0,
        interaction is Hovered && hover is Some ==> role == hover->0,
        interaction is Idle || (hover is None && pressed is None) ==> role == base,
{
    match (interaction, hover, pressed) {
        (Interaction::Pressed, _, Some(clicked_role)) => clicked_role,
        (Interaction::Pressed, Some(hover_role), None) => hover_role,
        (Interaction::Hovered, Some(hover_role), _) => hover_role,
        _ => base,
    }
}

/// Repaints every text node whose role triple or interaction state changed
/// this tick: entry `i` of the result is the concrete color for node `i`.
pub fn update_colors(
    ui_colors: &UiColors,
    text_nodes: &Vec<(EditorTextColor, Option<Interaction>)>,
) -> (out: Vec<Rgba>)
    requires
        ui_colors.wf(),
    ensures
        out@.len() == text_nodes@.len(),
        forall|i: int| 0 <= i < out@.len() ==> out@[i] == ui_colors.spec_color(
            spec_resolve_role_opt(
                text_nodes@[i].0.0,
                text_nodes@[i].0.1,
                text_nodes@[i].0.2,
                text_nodes@[i].1,
            ),
        ),
{
    let mut out: Vec<Rgba> = Vec::new();
    let mut i: usize = 0;
    while i < text_nodes.len()
        invariant
            0 <= i <= text_nodes@.len(),
            out@.len() == i,
            ui_colors.wf(),
            forall|j: int| 0 <= j < i ==> out@[j] == ui_colors.spec_color(
                spec_resolve_role_opt(
                    text_nodes@[j].0.0,
                    text_nodes@[j].0.1,
                    text_nodes@[j].0.2,
                    text_nodes@[j].1,
                ),
            ),
        decreases text_nodes@.len() - i,
    {
        let triple = &text_nodes[i].0;
        let role = match text_nodes[i].1 {
            Some(interaction) => resolve_role(triple.0, triple.1, triple.2, interaction),
            None => triple.0,
        };
        out.push(ui_colors.color(role));
        i = i + 1;
    }
    out
}

/// Repaints every background node whose role triple or interaction state
/// changed this tick, under the same precedence as text.
pub fn update_background_colors(
    ui_colors: &UiColors,
    background_nodes: &Vec<(EditorBackgroundColor, Option<Interaction>)>,
) -> (out: Vec<Rgba>)
    requires
        ui_colors.wf(),
    ensures
        out@.len() == background_nodes@.len(),
        forall|i: int| 0 <= i < out@.len() ==> out@[i] == ui_colors.spec_color(
            spec_resolve_role_opt(
                background_nodes@[i].0.0,
                background_nodes@[i].0.1,
                background_nodes@[i].0.2,
                background_nodes@[i].1,
            ),
        ),
{
    let mut out: Vec<Rgba> = Vec::new();
    let mut i: usize = 0;
    while i < background_nodes.len()
        invariant
            0 <= i <= background_nodes@.len(),
            out@.len() == i,
            ui_colors.wf(),
            forall|j: int| 0 <= j < i ==> out@[j] == ui_colors.spec_color(
                spec_resolve_role_opt(
                    background_nodes@[j].0.0,
                    background_nodes@[j].0.1,
                    background_nodes@[j].0.2,
                    background_nodes@[j].1,
                ),
            ),
        decreases background_nodes@.len() - i,
    {
        let triple = &background_nodes[i].0;
        let role = match background_nodes[i].1 {
            Some(interaction) => resolve_role(triple.0, triple.1, triple.2, interaction),
            None => triple.0,
        };
        out.push(ui_colors.color(role));
        i = i + 1;
    }
    out
}

/// First paint of freshly themed nodes: each gets its base role's color,
/// before any interaction has been seen.
pub fn add_colors(
    ui_colors: &UiColors,
    text_roles: &Vec<EditorColor>,
    background_roles: &Vec<EditorColor>,
) -> (out: (Vec<Rgba>, Vec<Rgba>))
    requires
        ui_colors.wf(),
    ensures
        out.0@.len() == text_roles@.len(),
        out.1@.len() == background_roles@.len(),
        forall|i: int| 0 <= i < out.0@.len()
            ==> out.0@[i] == ui_colors.spec_color(text_roles@[i]),
        forall|i: int| 0 <= i < out.1@.len()
            ==> out.1@[i] == ui_colors.spec_color(background_roles@[i]),
{
    let mut text_out: Vec<Rgba> = Vec::new();
    let mut i: usize = 0;
    while i < text_roles.len()
        invariant
            0 <= i <= text_roles@.len(),
            text_out@.len() == i,
            ui_colors.wf(),
            forall|j: int| 0 <= j < i ==> text_out@[j] == ui_colors.spec_color(text_roles@[j]),
        decreases text_roles@.len() - i,
    {
        text_out.push(ui_colors.color(text_roles[i]));
        i = i + 1;
    }
    let mut background_out: Vec<Rgba> = Vec::new();
    let mut k: usize = 0;
    while k < background_roles.len()
        invariant
            0 <= k <= background_roles@.len(),
            background_out@.len() == k,
            ui_colors.wf(),
            forall|j: int| 0 <= j < k
                ==> background_out@[j] == ui_colors.spec_color(background_roles@[j]),
        decreases background_roles@.len() - k,
    {
        background_out.push(ui_colors.color(background_roles[k]));
        k = k + 1;
    }
    (text_out, background_out)
}

} // verus!
