use std::str::FromStr;

use material_colors::color::Argb;
use material_colors::theme::{CustomColor, ThemeBuilder};
use palette_service::color::{parse_color, PaletteError};
use palette_service::palette::{get_palette, hello_world, palette_reply};
use palette_service::theme::{default_accent_colors, parse_theme_type, ThemeType};

fn accent_fixture() -> Vec<CustomColor> {
    let names = [
        ("FF7676", "red", true),
        ("59EB5C", "green", true),
        ("0000FF", "blue", true),
        ("F8F770", "yellow", false),
        ("BA64F2", "purple", true),
        ("61D1FA", "cyan", true),
        ("E69E50", "orange", false),
    ];
    let mut v = Vec::new();
    for (hex, name, blend) in names {
        v.push(CustomColor {
            value: Argb::from_str(hex).unwrap(),
            name: name.to_string(),
            blend,
        });
    }
    v
}

/// The string the service is expected to produce, computed directly with the
/// Material color library the way a straightforward client would.
fn expected_palette(base: &str, dark: bool) -> String {
    let theme = ThemeBuilder::with_source(Argb::from_str(base).unwrap())
        .custom_colors(accent_fixture())
        .build();
    let scheme = if dark {
        theme.schemes.dark
    } else {
        theme.schemes.light
    };
    let mut out: String = scheme
        .into_iter()
        .map(|x| x.1.to_hex())
        .collect::<Vec<_>>()
        .join("");
    for group in &theme.custom_colors {
        let g = if dark { &group.dark } else { &group.light };
        out.push_str(&g.color.to_hex());
        out.push_str(&g.color_container.to_hex());
        out.push_str(&g.on_color.to_hex());
        out.push_str(&g.on_color_container.to_hex());
    }
    out
}

#[test]
fn parse_color_six_digits() {
    let c = parse_color("FF0000").unwrap();
    assert_eq!(c, Argb::from_str("FF0000").unwrap());
    assert_eq!((c.alpha, c.red, c.green, c.blue), (255, 255, 0, 0));
}

#[test]
fn parse_color_matches_library_parser() {
    for s in [
        "abc", "#abc", "AABBCC", "#aabbcc", "aabbccdd", "#AABBCCDD", "000000", "ffffff",
    ] {
        assert_eq!(parse_color(s).unwrap(), Argb::from_str(s).unwrap(), "{s}");
    }
}

#[test]
fn parse_color_rejects_what_the_library_rejects() {
    for s in ["", "not-a-color", "zzzzzz", "12345", "FFF0000", "#", "##aabbcc", "aabbcc "] {
        assert_eq!(parse_color(s), Err(PaletteError::InvalidColor), "{s}");
        assert!(Argb::from_str(s).is_err(), "{s}");
    }
}

#[test]
fn parse_color_rejects_non_ascii() {
    assert_eq!(parse_color("ééé"), Err(PaletteError::InvalidColor));
}

#[test]
fn parse_theme_type_tokens() {
    assert_eq!(parse_theme_type("Dark"), Ok(ThemeType::Dark));
    assert_eq!(parse_theme_type("Light"), Ok(ThemeType::Light));
    for s in ["dark", "light", "Purple", "", "DARK", " Light"] {
        assert_eq!(parse_theme_type(s), Err(PaletteError::InvalidThemeType), "{s}");
    }
}

#[test]
fn accent_colors_match_the_original_constants() {
    let ours = default_accent_colors();
    let fixture = accent_fixture();
    assert_eq!(ours.len(), fixture.len());
    for (a, b) in ours.iter().zip(fixture.iter()) {
        assert_eq!(a.value, b.value);
        assert_eq!(a.name, b.name);
        assert_eq!(a.blend, b.blend);
    }
}

#[test]
fn palette_body_is_hex_of_fixed_length() {
    let body = get_palette("0000FF", "Dark").unwrap();
    assert_eq!(body.len(), 6 * (49 + 4 * 7));
    assert!(body.chars().all(|c| c.is_ascii_hexdigit()));
}

#[test]
fn palette_matches_direct_library_use() {
    let body = get_palette("FF0000", "Light").unwrap();
    assert_eq!(body, expected_palette("FF0000", false));
    let body = get_palette("#59EB5C", "Dark").unwrap();
    assert_eq!(body, expected_palette("#59EB5C", true));
}

#[test]
fn red_light_palette_begins_with_primary() {
    let theme = ThemeBuilder::with_source(Argb::from_str("FF0000").unwrap())
        .custom_colors(accent_fixture())
        .build();
    let body = get_palette("FF0000", "Light").unwrap();
    assert_eq!(body.len(), 462);
    assert!(body.chars().all(|c| c.is_ascii_hexdigit()));
    assert!(body.starts_with(&theme.schemes.light.primary.to_hex()));
    assert_eq!(body, expected_palette("FF0000", false));
}

#[test]
fn identical_requests_get_identical_bodies() {
    let a = get_palette("12ab34", "Dark").unwrap();
    let b = get_palette("12ab34", "Dark").unwrap();
    assert_eq!(a, b);
    let ra = palette_reply("12ab34", "Dark");
    let rb = palette_reply("12ab34", "Dark");
    assert_eq!(ra.status, rb.status);
    assert_eq!(ra.body, rb.body);
}

#[test]
fn bad_base_color_is_a_uniform_failure() {
    for s in ["not-a-color", "", "12345"] {
        let reply = palette_reply(s, "Light");
        assert_eq!(reply.status, 500, "{s}");
        assert!(reply.body.starts_with("Something went wrong:"), "{s}");
    }
}

#[test]
fn bad_theme_type_is_a_uniform_failure() {
    for s in ["dark", "Purple", "LIGHT", ""] {
        let reply = palette_reply("FF0000", s);
        assert_eq!(reply.status, 500, "{s}");
        assert!(reply.body.starts_with("Something went wrong:"), "{s}");
    }
}

#[test]
fn zzzzzz_light_gets_the_parser_message() {
    let reply = palette_reply("zzzzzz", "Light");
    assert_eq!(reply.status, 500);
    assert_eq!(reply.body, "Something went wrong: provided string was not RGB-like");
}

#[test]
fn greeting_is_fixed() {
    assert_eq!(hello_world(), "Hello, world!");
}

#[test]
fn successful_reply_carries_the_palette() {
    let reply = palette_reply("FF0000", "Light");
    assert_eq!(reply.status, 200);
    assert_eq!(reply.body, get_palette("FF0000", "Light").unwrap());
}
