//! Colors: the ARGB color type of the Material color library, declared with
//! its four byte fields visible, a verified parser for hex color strings in
//! the exact dialect that library accepts, and the lower-case six-digit hex
//! rendering it uses.
use crate::hex::{hex_digit_val, hex_pair, is_hex_digit, push_hex_pair};
use vstd::prelude::*;

verus! {

/// The color type of the outside Material color library. Its four fields are
/// public bytes, so Verus reads and builds values of it directly; no behavior
/// of the outside crate is assumed by this declaration.
#[verifier::external_type_specification]
pub struct ExArgb(material_colors::color::Argb);

/// The errors of this library, every one of which the service reports the
/// same way.
#[derive(Clone, Copy, Debug, PartialEq, Eq, Structural)]
pub enum PaletteError {
    /// `base_color` is not a hex color the Material library would accept.
    InvalidColor,
    /// `theme_type` is neither `Dark` nor `Light`.
    InvalidThemeType,
}

/// A hex color string: at most one leading `#`, then exactly 3, 6 or 8 hex
/// digits. These are the strings the Material library's color parser accepts.
pub open spec fn strip_hash(s: Seq<char>) -> Seq<char> {
    if s.len() > 0 && s[0] == '#' {
        s.skip(1)
    } else {
        s
    }
}

/// Every character of `s` is a hex digit.
pub open spec fn all_hex(s: Seq<char>) -> bool {
    forall|i: int| 0 <= i < s.len() ==> is_hex_digit(#[trigger] s[i])
}

/// Strings of hex digits stay all-hex under concatenation.
pub proof fn lemma_all_hex_concat(a: Seq<char>, b: Seq<char>)
    requires
        all_hex(a),
        all_hex(b),
    ensures
        all_hex(a + b),
{
    assert forall|i: int| 0 <= i < (a + b).len() implies is_hex_digit(#[trigger] (a + b)[i]) by {
        if i < a.len() {
            assert((a + b)[i] == a[i]);
        } else {
            assert((a + b)[i] == b[i - a.len()]);
        }
    }
}

/// The color a 3-digit shorthand denotes: each digit doubled, alpha opaque.
pub open spec fn color_of_3(h: Seq<char>) -> material_colors::color::Argb
    recommends
        h.len() == 3,
{
    material_colors::color::Argb {
        alpha: 255,
        red: (17 * hex_digit_val(h[0])) as u8,
        green: (17 * hex_digit_val(h[1])) as u8,
        blue: (17 * hex_digit_val(h[2])) as u8,
    }
}

/// The color six digits denote: `rrggbb`, alpha opaque.
pub open spec fn color_of_6(h: Seq<char>) -> material_colors::color::Argb
    recommends
        h.len() == 6,
{
    material_colors::color::Argb {
        alpha: 255,
        red: (16 * hex_digit_val(h[0]) + hex_digit_val(h[1])) as u8,
        green: (16 * hex_digit_val(h[2]) + hex_digit_val(h[3])) as u8,
        blue: (16 * hex_digit_val(h[4]) + hex_digit_val(h[5])) as u8,
    }
}

/// The color eight digits denote: `aarrggbb`.
pub open spec fn color_of_8(h: Seq<char>) -> material_colors::color::Argb
    recommends
        h.len() == 8,
{
    material_colors::color::Argb {
        alpha: (16 * hex_digit_val(h[0]) + hex_digit_val(h[1])) as u8,
        red: (16 * hex_digit_val(h[2]) + hex_digit_val(h[3])) as u8,
        green: (16 * hex_digit_val(h[4]) + hex_digit_val(h[5])) as u8,
        blue: (16 * hex_digit_val(h[6]) + hex_digit_val(h[7])) as u8,
    }
}

/// What parsing a color string yields: after stripping at most one leading
/// `#`, exactly 3, 6 or 8 hex digits denote a color; everything else is
/// rejected.
pub open spec fn spec_parse_color(s: Seq<char>) -> Result<
    material_colors::color::Argb,
    PaletteError,
> {
    let h = strip_hash(s);
    if h.len() == 3 && all_hex(h) {
        Ok(color_of_3(h))
    } else if h.len() == 6 && all_hex(h) {
        Ok(color_of_6(h))
    } else if h.len() == 8 && all_hex(h) {
        Ok(color_of_8(h))
    } else {
        Err(PaletteError::InvalidColor)
    }
}

/// The six lower-case hex digits that render a color: red, green, blue, two
/// digits each, the alpha byte left out. This is the rendering the Material
/// library's own hex formatting produces.
pub open spec fn spec_hex6(c: material_colors::color::Argb) -> Seq<char> {
    hex_pair(c.red) + hex_pair(c.green) + hex_pair(c.blue)
}

/// A rendered color is six hex digits.
pub proof fn lemma_hex6_shape(c: material_colors::color::Argb)
    ensures
        spec_hex6(c).len() == 6,
        all_hex(spec_hex6(c)),
{
    let s = spec_hex6(c);
    assert forall|i: int| 0 <= i < s.len() implies is_hex_digit(#[trigger] s[i]) by {
        crate::hex::lemma_nibble_char_round_trip((c.red / 16) as u8);
        crate::hex::lemma_nibble_char_round_trip((c.red % 16) as u8);
        crate::hex::lemma_nibble_char_round_trip((c.green / 16) as u8);
        crate::hex::lemma_nibble_char_round_trip((c.green % 16) as u8);
        crate::hex::lemma_nibble_char_round_trip((c.blue / 16) as u8);
        crate::hex::lemma_nibble_char_round_trip((c.blue % 16) as u8);
    }
}

/// Appends the six-digit rendering of `c` to `out`.
pub fn push_hex6(out: &mut String, c: &material_colors::color::Argb)
    ensures
        final(out)@ == old(out)@ + spec_hex6(*c),
{
    push_hex_pair(out, c.red);
    push_hex_pair(out, c.green);
    push_hex_pair(out, c.blue);
    proof {
        assert(out@ =~= old(out)@ + spec_hex6(*c));
    }
}

/// The numeric value of one hex-digit byte, or `None` where the byte is no
/// hex digit.
fn hex_byte_val(b: u8) -> (r: Option<u8>)
    ensures
        (b as nat) < 128 ==> r == (if is_hex_digit(b as char) {
            Some(hex_digit_val(b as char))
        } else {
            None::<u8>
        }),
        (b as nat) >= 128 ==> r is None,
        r is Some ==> r->0 < 16,
{
    if 48 <= b && b <= 57 {
        Some(b - 48)
    } else if 97 <= b && b <= 102 {
        Some(b - 87)
    } else if 65 <= b && b <= 70 {
        Some(b - 55)
    } else {
        None
    }
}

/// Parses a hex color string exactly as the Material library's `Argb` parser
/// reads it: at most one leading `#`, then 3 doubled digits, 6 digits with an
/// opaque alpha, or 8 digits with the alpha leading.
pub fn parse_color(s: &str) -> (r: Result<material_colors::color::Argb, PaletteError>)
    ensures
        r == spec_parse_color(s@),
{
    if !s.is_ascii() {
        proof {
            lemma_non_ascii_rejected(s@);
        }
        return Err(PaletteError::InvalidColor);
    }
    proof {
        broadcast use vstd::string::is_ascii_spec_bytes;

    }
    let b = s.as_bytes();
    let ghost cs = s@;
    assert(b@.len() == cs.len());
    assert(forall|i: int| 0 <= i < cs.len() ==> b@[i] == #[trigger] cs[i] as u8);
    let (start, n): (usize, usize) = if b.len() > 0 && b[0] == 35 {
        assert(cs[0] == '#');
        (1, b.len() - 1)
    } else {
        assert(!(cs.len() > 0 && cs[0] == '#')) by {
            if cs.len() > 0 && cs[0] == '#' {
                assert(b@[0] == '#' as u8);
            }
        }
        (0, b.len())
    };
    let ghost h = strip_hash(cs);
    assert(h.len() == n);
    assert(forall|i: int| 0 <= i < h.len() ==> b@[start + i] == #[trigger] h[i] as u8);
    if n == 3 {
        let d0 = hex_byte_val(b[start]);
        let d1 = hex_byte_val(b[start + 1]);
        let d2 = hex_byte_val(b[start + 2]);
        if let (Some(v0), Some(v1), Some(v2)) = (d0, d1, d2) {
            assert(all_hex(h));
            Ok(
                material_colors::color::Argb {
                    alpha: 255,
                    red: 17 * v0,
                    green: 17 * v1,
                    blue: 17 * v2,
                },
            )
        } else {
            assert(!all_hex(h));
            Err(PaletteError::InvalidColor)
        }
    } else if n == 6 {
        let d0 = hex_byte_val(b[start]);
        let d1 = hex_byte_val(b[start + 1]);
        let d2 = hex_byte_val(b[start + 2]);
        let d3 = hex_byte_val(b[start + 3]);
        let d4 = hex_byte_val(b[start + 4]);
        let d5 = hex_byte_val(b[start + 5]);
        if let (Some(v0), Some(v1), Some(v2), Some(v3), Some(v4), Some(v5)) = (
            d0,
            d1,
            d2,
            d3,
            d4,
            d5,
        ) {
            assert(all_hex(h));
            Ok(
                material_colors::color::Argb {
                    alpha: 255,
                    red: 16 * v0 + v1,
                    green: 16 * v2 + v3,
                    blue: 16 * v4 + v5,
                },
            )
        } else {
            assert(!all_hex(h));
            Err(PaletteError::InvalidColor)
        }
    } else if n == 8 {
        let d0 = hex_byte_val(b[start]);
        let d1 = hex_byte_val(b[start + 1]);
        let d2 = hex_byte_val(b[start + 2]);
        let d3 = hex_byte_val(b[start + 3]);
        let d4 = hex_byte_val(b[start + 4]);
        let d5 = hex_byte_val(b[start + 5]);
        let d6 = hex_byte_val(b[start + 6]);
        let d7 = hex_byte_val(b[start + 7]);
        if let (
            Some(v0),
            Some(v1),
            Some(v2),
            Some(v3),
            Some(v4),
            Some(v5),
            Some(v6),
            Some(v7),
        ) = (d0, d1, d2, d3, d4, d5, d6, d7) {
            assert(all_hex(h));
            Ok(
                material_colors::color::Argb {
                    alpha: 16 * v0 + v1,
                    red: 16 * v2 + v3,
                    green: 16 * v4 + v5,
                    blue: 16 * v6 + v7,
                },
            )
        } else {
            assert(!all_hex(h));
            Err(PaletteError::InvalidColor)
        }
    } else {
        Err(PaletteError::InvalidColor)
    }
}

/// A string with a non-ASCII character never denotes a color: hex digits and
/// `#` are all ASCII.
proof fn lemma_non_ascii_rejected(s: Seq<char>)
    requires
        !vstd::utf8::is_ascii_chars(s),
    ensures
        spec_parse_color(s) == Err::<material_colors::color::Argb, PaletteError>(
            PaletteError::InvalidColor,
        ),
{
    let h = strip_hash(s);
    if all_hex(h) && (h.len() == 3 || h.len() == 6 || h.len() == 8) {
        crate::hex::lemma_hex_digits_are_ascii(h);
        assert(vstd::utf8::is_ascii_chars(s)) by {
            assert forall|i: int| 0 <= i < s.len() implies '\0' <= #[trigger] s[i]
                <= '\u{7f}' by {
                if s.len() > 0 && s[0] == '#' {
                    if i > 0 {
                        assert(s[i] == h[i - 1]);
                    }
                } else {
                    assert(s[i] == h[i]);
                }
            }
        }
    }
}

} // verus!
