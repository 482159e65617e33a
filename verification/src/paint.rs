//! Trusted boundary to the two outside crates the engine leans on:
//! `unicode_width` for display-width measurement and `ansi_term` for
//! wrapping text in styling escape codes.

use vstd::prelude::*;
use crate::block::Color;

verus! {

/// The display width that `unicode_width` assigns to a character sequence.
pub uninterp spec fn display_width(s: Seq<char>) -> nat;

/// Relies on `unicode_width::UnicodeWidthStr::width`: the width is a pure
/// function of the characters (a table lookup per UAX #11 plus fixed ligature
/// rules), and no character contributes more than three columns, the crate's
/// documented per-character maximum.
#[verifier::external_body]
pub(crate) fn text_width(s: &str) -> (r: usize)
    ensures
        r as nat == display_width(s@),
        r as nat <= 3 * s@.len(),
{
    unicode_width::UnicodeWidthStr::width(s)
}

/// The character sequence `ansi_term` produces when it paints `text` in the
/// given foreground and background colours, bold or not.
pub uninterp spec fn styled(fg: Color, bg: Color, bold: bool, text: Seq<char>) -> Seq<char>;

/// `ansi_term`'s colour enum, opaque to the verifier; it is only carried
/// from the conversion below into the paint calls.
#[verifier::external_type_specification]
#[verifier::external_body]
pub struct ExColour(ansi_term::Colour);

/// Converts a palette colour to `ansi_term`'s colour enum, variant for
/// variant: an RGB triple to `RGB`, an indexed entry to `Fixed`.
#[verifier::external_body]
fn to_ansi(c: &Color) -> ansi_term::Colour {
    match c {
        Color::Rgb(r, g, b) => ansi_term::Colour::RGB(*r, *g, *b),
        Color::EightBit(n) => ansi_term::Colour::Fixed(*n),
    }
}

/// Relies on `ansi_term::Style::paint` (and `to_string` on its result): the
/// output is a deterministic function of the colours and the text, the text
/// wrapped in the style's escape codes.
#[verifier::external_body]
pub(crate) fn paint_plain(fg: &Color, bg: &Color, text: &str) -> (r: String)
    ensures
        r@ == styled(*fg, *bg, false, text@),
{
    ansi_term::Style::new().fg(to_ansi(fg)).on(to_ansi(bg)).paint(text).to_string()
}

/// Relies on `ansi_term::Style::paint` with the bold attribute set: as
/// `paint_plain`, deterministic in the colours and the text.
#[verifier::external_body]
pub(crate) fn paint_bold(fg: &Color, bg: &Color, text: &str) -> (r: String)
    ensures
        r@ == styled(*fg, *bg, true, text@),
{
    ansi_term::Style::new().fg(to_ansi(fg)).on(to_ansi(bg)).bold().paint(text).to_string()
}

} // verus!
