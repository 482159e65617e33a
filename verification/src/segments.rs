//! The synthesized segments: neutral filler, the spacer between the
//! left-aligned and right-aligned content, and the overflow warning.

use vstd::prelude::*;
use crate::block::{Block, BlockModel, Theme};
use crate::paint::{display_width, paint_bold, paint_plain, styled, text_width};

verus! {

/// A sequence of `n` spaces.
pub open spec fn spaces(n: nat) -> Seq<char> {
    Seq::new(n, |i: int| ' ')
}

/// The model of a neutral filler block of width `n`.
pub open spec fn bg_model(n: nat, th: Theme) -> BlockModel {
    BlockModel { body: styled(th.fg, th.bg, false, spaces(n)), len: n, tab_index: None }
}

/// The model of the overflow warning block for message `msg`.
pub open spec fn error_model(msg: Seq<char>, th: Theme) -> BlockModel {
    BlockModel { body: styled(th.white, th.red, true, msg), len: display_width(msg), tab_index: None }
}

/// Provider of neutral filler: `cols` spaces in the theme's foreground and
/// background colours.
pub struct Bg;

impl Bg {
    /// A filler block occupying exactly `cols` columns, with no tab
    /// association.
    pub fn render(cols: usize, theme: &Theme) -> (r: Block)
        ensures
            r@ == bg_model(cols as nat, *theme),
    {
        let mut text = String::new();
        let mut i: usize = 0;
        proof {
            assert(text@ =~= spaces(0));
        }
        while i < cols
            invariant
                i <= cols,
                text@ == spaces(i as nat),
            decreases cols - i,
        {
            text.append(" ");
            proof {
                reveal_strlit(" ");
                assert(text@ =~= spaces((i + 1) as nat));
            }
            i += 1;
        }
        let body = paint_plain(&theme.fg, &theme.bg, text.as_str());
        Block { body, len: cols, tab_index: None }
    }
}

/// Provider of the overflow warning: a fixed message painted bold, white on
/// red, measured by Unicode display-width rules.
pub struct Error;

impl Error {
    /// The warning block: its width is the message's display width, never
    /// more than three columns per character.
    pub fn render(message: &str, theme: &Theme) -> (r: Block)
        ensures
            r@ == error_model(message@, *theme),
            r.len as nat <= 3 * message@.len(),
    {
        let len = text_width(message);
        let body = paint_bold(&theme.white, &theme.red, message);
        Block { body, len, tab_index: None }
    }
}

/// The outcome of the spacer calculation: one filler block, or none when the
/// fixed content already takes the full width or more.
pub struct Spacer {
    pub space: Option<Block>,
}

/// The width of the spacer between left and right content in a line of
/// `total_len` columns: the positive remainder, if any.
pub open spec fn spacer_room(total_len: nat, left_len: nat, right_len: nat) -> Option<nat> {
    if left_len + right_len < total_len {
        Some((total_len - left_len - right_len) as nat)
    } else {
        None
    }
}

/// The spacer outcome as a function of the widths and the theme alone:
/// recomputing with identical inputs yields the identical outcome.
pub open spec fn spacer_outcome(
    total_len: nat,
    left_len: nat,
    right_len: nat,
    th: Theme,
) -> Option<BlockModel> {
    match spacer_room(total_len, left_len, right_len) {
        Some(w) => Some(bg_model(w, th)),
        None => None,
    }
}

impl Spacer {
    /// For `total_len > left_len + right_len` the spacer is a neutral filler
    /// of exactly the remaining width; otherwise no spacer is produced and
    /// the line is left to fill or exceed the width as it stands. The
    /// outcome is a function of the three widths and the theme alone.
    pub fn render(total_len: usize, left_len: usize, right_len: usize, theme: &Theme) -> (r: Spacer)
        ensures
            r.space is Some <==> spacer_room(total_len as nat, left_len as nat, right_len as nat) is Some,
            r.space matches Some(b) ==> b@ == bg_model(
                spacer_room(total_len as nat, left_len as nat, right_len as nat)->Some_0,
                *theme,
            ),
            (match r.space {
                Some(b) => Some(b@),
                None => None,
            }) == spacer_outcome(total_len as nat, left_len as nat, right_len as nat, *theme),
    {
        if left_len < total_len && right_len < total_len - left_len {
            let room = total_len - left_len - right_len;
            Spacer { space: Some(Bg::render(room, theme)) }
        } else {
            Spacer { space: None }
        }
    }
}

} // verus!
