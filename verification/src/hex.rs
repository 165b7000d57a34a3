//! Hexadecimal digits: what counts as one, its numeric value, and the
//! lower-case hex rendering of a byte.
use vstd::prelude::*;
use vstd::string::StringExecFns;

verus! {

/// A character that `u32::from_str_radix(_, 16)` accepts as one digit.
pub open spec fn is_hex_digit(c: char) -> bool {
    ('0' <= c && c <= '9') || ('a' <= c && c <= 'f') || ('A' <= c && c <= 'F')
}

/// The numeric value of a hex digit.
pub open spec fn hex_digit_val(c: char) -> u8
    recommends
        is_hex_digit(c),
{
    if '0' <= c && c <= '9' {
        (c as u8 - 48) as u8
    } else if 'a' <= c && c <= 'f' {
        (c as u8 - 87) as u8
    } else {
        (c as u8 - 55) as u8
    }
}

/// Every string of hex digits is made of ASCII characters.
pub proof fn lemma_hex_digits_are_ascii(s: Seq<char>)
    requires
        forall|i: int| 0 <= i < s.len() ==> is_hex_digit(#[trigger] s[i]),
    ensures
        vstd::utf8::is_ascii_chars(s),
{
}

/// The lower-case hex digit that renders a value below 16.
pub open spec fn nibble_char(n: u8) -> char
    recommends
        n < 16,
{
    if n < 10 {
        (48 + n) as char
    } else {
        (87 + n) as char
    }
}

/// Two lower-case hex digits rendering a byte, high nibble first.
pub open spec fn hex_pair(b: u8) -> Seq<char> {
    seq![nibble_char(b / 16), nibble_char(b % 16)]
}

/// A rendered nibble is itself a hex digit of the same value.
pub proof fn lemma_nibble_char_round_trip(n: u8)
    requires
        n < 16,
    ensures
        is_hex_digit(nibble_char(n)),
        hex_digit_val(nibble_char(n)) == n,
{
}

/// The single-character string that renders a value below 16 in lower case.
fn nibble_str(n: u8) -> (r: &'static str)
    requires
        n < 16,
    ensures
        r@ =~= seq![nibble_char(n)],
{
    proof {
        reveal_strlit("0");
        reveal_strlit("1");
        reveal_strlit("2");
        reveal_strlit("3");
        reveal_strlit("4");
        reveal_strlit("5");
        reveal_strlit("6");
        reveal_strlit("7");
        reveal_strlit("8");
        reveal_strlit("9");
        reveal_strlit("a");
        reveal_strlit("b");
        reveal_strlit("c");
        reveal_strlit("d");
        reveal_strlit("e");
        reveal_strlit("f");
    }
    match n {
        0 => "0",
        1 => "1",
        2 => "2",
        3 => "3",
        4 => "4",
        5 => "5",
        6 => "6",
        7 => "7",
        8 => "8",
        9 => "9",
        10 => "a",
        11 => "b",
        12 => "c",
        13 => "d",
        14 => "e",
        _ => "f",
    }
}

/// Appends the two lower-case hex digits of `b` to `out`.
pub fn push_hex_pair(out: &mut String, b: u8)
    ensures
        final(out)@ == old(out)@ + hex_pair(b),
{
    let hi = b / 16;
    let lo = b % 16;
    out.append(nibble_str(hi));
    out.append(nibble_str(lo));
    proof {
        assert(out@ =~= old(out)@ + hex_pair(b));
    }
}

} // verus!
