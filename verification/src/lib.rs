//! A small palette service: it parses a base color and a theme mode, asks the
//! Material color library for a theme derived from that color together with a
//! fixed list of named accent colors, and renders the chosen scheme as one
//! string of lower-case hex digits.
pub mod color;
pub mod hex;
pub mod palette;
pub mod theme;
