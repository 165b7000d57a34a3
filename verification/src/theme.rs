//! Themes: the light/dark mode selector and its parser, the fixed list of
//! named accent colors every request uses, and the trusted call into the
//! Material color library that derives a theme from a source color.
use crate::color::PaletteError;
use material_colors::color::Argb;
use material_colors::theme::{ColorGroup, CustomColor, ThemeBuilder};
use vstd::prelude::*;
use vstd::string::StringExecFns;

verus! {

/// The two modes a theme can be rendered for. The query tokens are the
/// literal words `Dark` and `Light`, case-sensitive.
#[derive(Clone, Copy, Debug, PartialEq, Eq, Structural)]
pub enum ThemeType {
    Dark,
    Light,
}

/// The custom color type of the outside Material color library: a named ARGB
/// value and a flag that asks for it to be harmonized toward the source
/// color. Its fields are public, so Verus reads and builds values of it
/// directly; no behavior of the outside crate is assumed by this declaration.
#[verifier::external_type_specification]
pub struct ExCustomColor(material_colors::theme::CustomColor);

/// What parsing `theme_type` yields: exactly the token `Dark` or `Light`,
/// anything else rejected.
pub open spec fn spec_parse_theme_type(s: Seq<char>) -> Result<ThemeType, PaletteError> {
    if s == "Dark"@ {
        Ok(ThemeType::Dark)
    } else if s == "Light"@ {
        Ok(ThemeType::Light)
    } else {
        Err(PaletteError::InvalidThemeType)
    }
}

/// Parses the theme mode: the literal token `Dark` or `Light`, nothing else.
pub fn parse_theme_type(s: &str) -> (r: Result<ThemeType, PaletteError>)
    ensures
        r == spec_parse_theme_type(s@),
{
    proof {
        reveal_strlit("Dark");
        reveal_strlit("Light");
        broadcast use vstd::string::is_ascii_spec_bytes;

    }
    if !s.is_ascii() {
        proof {
            lemma_tokens_are_ascii(s@);
        }
        return Err(PaletteError::InvalidThemeType);
    }
    let b = s.as_bytes();
    if b.len() == 4 && b[0] == 68 && b[1] == 97 && b[2] == 114 && b[3] == 107 {
        proof {
            assert(s@ =~= "Dark"@);
        }
        Ok(ThemeType::Dark)
    } else if b.len() == 5 && b[0] == 76 && b[1] == 105 && b[2] == 103 && b[3] == 104 && b[4]
        == 116 {
        proof {
            assert(s@ =~= "Light"@);
        }
        Ok(ThemeType::Light)
    } else {
        proof {
            if s@ == "Dark"@ {
                assert(b@[0] == 'D' as u8 && b@[1] == 'a' as u8 && b@[2] == 'r' as u8 && b@[3]
                    == 'k' as u8);
            }
            if s@ == "Light"@ {
                assert(b@[0] == 'L' as u8 && b@[1] == 'i' as u8 && b@[2] == 'g' as u8 && b@[3]
                    == 'h' as u8 && b@[4] == 't' as u8);
            }
        }
        Err(PaletteError::InvalidThemeType)
    }
}

/// A string with a non-ASCII character is neither `Dark` nor `Light`.
proof fn lemma_tokens_are_ascii(s: Seq<char>)
    requires
        !vstd::utf8::is_ascii_chars(s),
    ensures
        spec_parse_theme_type(s) == Err::<ThemeType, PaletteError>(PaletteError::InvalidThemeType),
{
    reveal_strlit("Dark");
    reveal_strlit("Light");
    if s == "Dark"@ || s == "Light"@ {
        assert(vstd::utf8::is_ascii_chars(s)) by {
            assert forall|i: int| 0 <= i < s.len() implies '\0' <= #[trigger] s[i]
                <= '\u{7f}' by {}
        }
    }
}

/// What the library reads of a custom color: its name, value and blend flag.
pub ghost struct AccentSpec {
    pub name: Seq<char>,
    pub value: Argb,
    pub blend: bool,
}

/// What one custom color of the outside library denotes.
pub open spec fn accent_view(c: CustomColor) -> AccentSpec {
    AccentSpec { name: c.name@, value: c.value, blend: c.blend }
}

/// What a list of custom colors of the outside library denotes.
pub open spec fn accents_view(s: Seq<CustomColor>) -> Seq<AccentSpec> {
    s.map_values(|c: CustomColor| accent_view(c))
}

/// The fixed accent colors every palette request carries: red, green, blue,
/// yellow, purple, cyan and orange, with yellow and orange kept unblended.
pub open spec fn spec_default_accents() -> Seq<AccentSpec> {
    seq![
        AccentSpec {
            name: "red"@,
            value: (Argb { alpha: 255, red: 255, green: 118, blue: 118 }),
            blend: true,
        },
        AccentSpec {
            name: "green"@,
            value: (Argb { alpha: 255, red: 89, green: 235, blue: 92 }),
            blend: true,
        },
        AccentSpec {
            name: "blue"@,
            value: (Argb { alpha: 255, red: 0, green: 0, blue: 255 }),
            blend: true,
        },
        AccentSpec {
            name: "yellow"@,
            value: (Argb { alpha: 255, red: 248, green: 247, blue: 112 }),
            blend: false,
        },
        AccentSpec {
            name: "purple"@,
            value: (Argb { alpha: 255, red: 186, green: 100, blue: 242 }),
            blend: true,
        },
        AccentSpec {
            name: "cyan"@,
            value: (Argb { alpha: 255, red: 97, green: 209, blue: 250 }),
            blend: true,
        },
        AccentSpec {
            name: "orange"@,
            value: (Argb { alpha: 255, red: 230, green: 158, blue: 80 }),
            blend: false,
        },
    ]
}

/// Builds the fixed accent color list.
pub fn default_accent_colors() -> (r: Vec<CustomColor>)
    ensures
        accents_view(r@) == spec_default_accents(),
{
    let mut v: Vec<CustomColor> = Vec::new();
    v.push(
        CustomColor {
            value: Argb { alpha: 255, red: 255, green: 118, blue: 118 },
            name: String::from_str("red"),
            blend: true,
        },
    );
    v.push(
        CustomColor {
            value: Argb { alpha: 255, red: 89, green: 235, blue: 92 },
            name: String::from_str("green"),
            blend: true,
        },
    );
    v.push(
        CustomColor {
            value: Argb { alpha: 255, red: 0, green: 0, blue: 255 },
            name: String::from_str("blue"),
            blend: true,
        },
    );
    v.push(
        CustomColor {
            value: Argb { alpha: 255, red: 248, green: 247, blue: 112 },
            name: String::from_str("yellow"),
            blend: false,
        },
    );
    v.push(
        CustomColor {
            value: Argb { alpha: 255, red: 186, green: 100, blue: 242 },
            name: String::from_str("purple"),
            blend: true,
        },
    );
    v.push(
        CustomColor {
            value: Argb { alpha: 255, red: 97, green: 209, blue: 250 },
            name: String::from_str("cyan"),
            blend: true,
        },
    );
    v.push(
        CustomColor {
            value: Argb { alpha: 255, red: 230, green: 158, blue: 80 },
            name: String::from_str("orange"),
            blend: false,
        },
    );
    proof {
        assert(accents_view(v@) =~= spec_default_accents());
    }
    v
}

/// The four role variants a theme gives each custom color, for one mode.
pub struct AccentRoles {
    pub color: Argb,
    pub color_container: Argb,
    pub on_color: Argb,
    pub on_color_container: Argb,
}

/// A generated theme, reduced to what the service renders: the scheme colors
/// of each mode in the scheme's own role order, and the four role variants of
/// each custom color for each mode.
pub struct GeneratedTheme {
    pub light: Vec<Argb>,
    pub dark: Vec<Argb>,
    pub light_accents: Vec<AccentRoles>,
    pub dark_accents: Vec<AccentRoles>,
}

/// The mathematical content of a generated theme.
pub ghost struct ThemeView {
    pub light: Seq<Argb>,
    pub dark: Seq<Argb>,
    pub light_accents: Seq<AccentRoles>,
    pub dark_accents: Seq<AccentRoles>,
}

impl View for GeneratedTheme {
    type V = ThemeView;

    open spec fn view(&self) -> ThemeView {
        ThemeView {
            light: self.light@,
            dark: self.dark@,
            light_accents: self.light_accents@,
            dark_accents: self.dark_accents@,
        }
    }
}

/// The number of named roles in one scheme of the Material color library.
pub const SCHEME_ROLES: usize = 49;

/// The number of fixed accent colors.
pub const ACCENT_COLORS: usize = 7;

/// The theme the Material color library derives from a source color and a
/// list of custom colors. The derivation is involved color science, but it is
/// a function of these arguments alone, so it only gets a name here.
pub uninterp spec fn theme_of(source: Argb, accents: Seq<AccentSpec>) -> ThemeView;

/// Relies on `material_colors::theme::ThemeBuilder` (`with_source`,
/// `custom_colors`, `build`) and on the iterator of
/// `material_colors::scheme::Scheme`: the theme is computed from the source
/// color and the custom colors alone; each scheme iterates exactly 49 named
/// roles; the theme carries one color group per custom color, in input order,
/// with four role variants per mode.
#[verifier::external_body]
pub(crate) fn build_theme(source: Argb, accents: Vec<CustomColor>) -> (t: GeneratedTheme)
    ensures
        t@ == theme_of(source, accents_view(accents@)),
        t@.light.len() == SCHEME_ROLES,
        t@.dark.len() == SCHEME_ROLES,
        t@.light_accents.len() == accents@.len(),
        t@.dark_accents.len() == accents@.len(),
{
    let theme = ThemeBuilder::with_source(source).custom_colors(accents).build();
    let roles = |g: &ColorGroup| AccentRoles {
        color: g.color,
        color_container: g.color_container,
        on_color: g.on_color,
        on_color_container: g.on_color_container,
    };
    GeneratedTheme {
        light: theme.schemes.light.into_iter().map(|p| p.1).collect(),
        dark: theme.schemes.dark.into_iter().map(|p| p.1).collect(),
        light_accents: theme.custom_colors.iter().map(|g| roles(&g.light)).collect(),
        dark_accents: theme.custom_colors.iter().map(|g| roles(&g.dark)).collect(),
    }
}

} // verus!
