//! The line composer and click router: orders the rendered sections,
//! detects overflow, inserts the spacer, concatenates the blocks into one
//! styled line, resolves a pending click, and builds the row-terminating
//! background fill.

use vstd::prelude::*;
use crate::block::{
    Block, BlockModel, Color, Section, Theme, ThemeHue, lemma_total_width_concat,
    lemma_total_width_take_bound, lemma_total_width_take_step, models, total_width,
};
use crate::paint::display_width;
use crate::segments::{Bg, Error, Spacer, bg_model, error_model, spacer_room};

verus! {

/// The fixed warning shown in place of the tab list when the line would
/// overflow the terminal width.
pub open spec fn overflow_msg() -> Seq<char> {
    "WHOA, YOU LIKE TABS DON'T YOU. IT'S TIME TO HANDLE IT."@
}

/// The width the line would occupy with the full tab list: the five
/// sections plus one padding column.
pub open spec fn occupied_width(
    m: Seq<BlockModel>,
    l: Seq<BlockModel>,
    t: Seq<BlockModel>,
    s: Seq<BlockModel>,
    d: Seq<BlockModel>,
) -> nat {
    total_width(m) + total_width(l) + total_width(s) + total_width(t) + total_width(d) + 1
}

/// The overflow decision: a function of the terminal width and the section
/// widths alone, with no dependence on prior render state.
pub open spec fn line_overflows(
    cols: nat,
    m: Seq<BlockModel>,
    l: Seq<BlockModel>,
    t: Seq<BlockModel>,
    s: Seq<BlockModel>,
    d: Seq<BlockModel>,
) -> bool {
    occupied_width(m, l, t, s, d) > cols
}

/// The middle of the line: the full tab list, or the overflow warning when
/// the tab list does not fit.
pub open spec fn middle_models(
    cols: nat,
    th: Theme,
    m: Seq<BlockModel>,
    l: Seq<BlockModel>,
    t: Seq<BlockModel>,
    s: Seq<BlockModel>,
    d: Seq<BlockModel>,
) -> Seq<BlockModel> {
    if line_overflows(cols, m, l, t, s, d) {
        seq![error_model(overflow_msg(), th)]
    } else {
        t
    }
}

/// The width of the chosen middle content.
pub open spec fn middle_width(
    cols: nat,
    m: Seq<BlockModel>,
    l: Seq<BlockModel>,
    t: Seq<BlockModel>,
    s: Seq<BlockModel>,
    d: Seq<BlockModel>,
) -> nat {
    if line_overflows(cols, m, l, t, s, d) {
        display_width(overflow_msg())
    } else {
        total_width(t)
    }
}

/// The spacer outcome for the chosen path: everything left of the spacer
/// against everything right of it.
pub open spec fn line_spacer_room(
    cols: nat,
    m: Seq<BlockModel>,
    l: Seq<BlockModel>,
    t: Seq<BlockModel>,
    s: Seq<BlockModel>,
    d: Seq<BlockModel>,
) -> Option<nat> {
    spacer_room(
        cols,
        total_width(m) + total_width(l) + 1 + middle_width(cols, m, l, t, s, d),
        total_width(s) + total_width(d),
    )
}

/// The spacer as a run of blocks: one filler, or nothing.
pub open spec fn spacer_models(room: Option<nat>, th: Theme) -> Seq<BlockModel> {
    match room {
        Some(w) => seq![bg_model(w, th)],
        None => Seq::<BlockModel>::empty(),
    }
}

/// The fully composed line, left to right: mode, layout, one padding
/// column, the tab list or the overflow warning, the spacer if any, the
/// session name, the clock.
pub open spec fn composed_line(
    cols: nat,
    th: Theme,
    m: Seq<BlockModel>,
    l: Seq<BlockModel>,
    t: Seq<BlockModel>,
    s: Seq<BlockModel>,
    d: Seq<BlockModel>,
) -> Seq<BlockModel> {
    m + l + seq![bg_model(1, th)] + middle_models(cols, th, m, l, t, s, d)
        + spacer_models(line_spacer_room(cols, m, l, t, s, d), th) + s + d
}

/// Orders the sections into the final sequence of blocks. The middle is the
/// full tab list, or the overflow warning when the occupied width exceeds
/// the terminal's; the spacer fills the positive remainder, if any. Nothing
/// is ever truncated.
pub fn compose(
    cols: usize,
    theme: &Theme,
    mode: Section,
    layout: Section,
    tabs: Section,
    session: Section,
    datetime: Section,
) -> (out: Vec<Block>)
    requires
        mode.wf(),
        layout.wf(),
        tabs.wf(),
        session.wf(),
        datetime.wf(),
        mode.len + layout.len + tabs.len + session.len + datetime.len + 1 + 3
            * overflow_msg().len() <= usize::MAX,
    ensures
        models(out@) == composed_line(
            cols as nat,
            *theme,
            models(mode.blocks@),
            models(layout.blocks@),
            models(tabs.blocks@),
            models(session.blocks@),
            models(datetime.blocks@),
        ),
        total_width(models(out@)) <= usize::MAX,
{
    let ghost gm = models(mode.blocks@);
    let ghost gl = models(layout.blocks@);
    let ghost gt = models(tabs.blocks@);
    let ghost gs = models(session.blocks@);
    let ghost gd = models(datetime.blocks@);

    let Section { blocks: mut mode_blocks, len: mode_len } = mode;
    let Section { blocks: mut layout_blocks, len: layout_len } = layout;
    let Section { blocks: mut tabs_blocks, len: tabs_len } = tabs;
    let Section { blocks: mut session_blocks, len: session_len } = session;
    let Section { blocks: mut datetime_blocks, len: datetime_len } = datetime;

    let pad = Bg::render(1, theme);
    let occupied = mode_len + layout_len + session_len + tabs_len + datetime_len + 1;

    let mut out: Vec<Block> = Vec::new();
    out.append(&mut mode_blocks);
    out.append(&mut layout_blocks);
    out.push(pad);

    let ghost room = line_spacer_room(cols as nat, gm, gl, gt, gs, gd);
    if occupied > cols {
        let error = Error::render("WHOA, YOU LIKE TABS DON'T YOU. IT'S TIME TO HANDLE IT.", theme);
        let left = mode_len + layout_len + 1 + error.len;
        let right = session_len + datetime_len;
        let spacer = Spacer::render(cols, left, right, theme);
        out.push(error);
        match spacer.space {
            Some(sp) => out.push(sp),
            None => {}
        }
    } else {
        let left = mode_len + layout_len + 1 + tabs_len;
        let right = session_len + datetime_len;
        let spacer = Spacer::render(cols, left, right, theme);
        out.append(&mut tabs_blocks);
        match spacer.space {
            Some(sp) => out.push(sp),
            None => {}
        }
    }
    out.append(&mut session_blocks);
    out.append(&mut datetime_blocks);

    proof {
        assert(models(out@) =~= composed_line(cols as nat, *theme, gm, gl, gt, gs, gd));
        lemma_composed_width(cols as nat, *theme, gm, gl, gt, gs, gd);
    }
    out
}

/// The composed width, exactly: the full terminal width whenever a spacer
/// is produced, and the chosen content's own width otherwise.
pub proof fn lemma_composed_width(
    cols: nat,
    th: Theme,
    m: Seq<BlockModel>,
    l: Seq<BlockModel>,
    t: Seq<BlockModel>,
    s: Seq<BlockModel>,
    d: Seq<BlockModel>,
)
    ensures
        total_width(composed_line(cols, th, m, l, t, s, d)) == match line_spacer_room(
            cols,
            m,
            l,
            t,
            s,
            d,
        ) {
            Some(w) => cols,
            None => total_width(m) + total_width(l) + 1 + middle_width(cols, m, l, t, s, d)
                + total_width(s) + total_width(d),
        },
{
    let pad = seq![bg_model(1, th)];
    let mid = middle_models(cols, th, m, l, t, s, d);
    let spc = spacer_models(line_spacer_room(cols, m, l, t, s, d), th);
    lemma_total_width_singleton(bg_model(1, th));
    if line_overflows(cols, m, l, t, s, d) {
        lemma_total_width_singleton(error_model(overflow_msg(), th));
        assert(mid == seq![error_model(overflow_msg(), th)]);
    }
    match line_spacer_room(cols, m, l, t, s, d) {
        Some(w) => {
            lemma_total_width_singleton(bg_model(w, th));
            assert(spc == seq![bg_model(w, th)]);
        }
        None => {}
    }
    lemma_total_width_concat(m, l);
    lemma_total_width_concat(m + l, pad);
    lemma_total_width_concat(m + l + pad, mid);
    lemma_total_width_concat(m + l + pad + mid, spc);
    lemma_total_width_concat(m + l + pad + mid + spc, s);
    lemma_total_width_concat(m + l + pad + mid + spc + s, d);
}

/// A run of one block is as wide as that block.
pub proof fn lemma_total_width_singleton(x: BlockModel)
    ensures
        total_width(seq![x]) == x.len,
{
    reveal_with_fuel(total_width, 2);
    assert(seq![x].drop_first() =~= Seq::<BlockModel>::empty());
}

/// Whenever a spacer is produced the widths add up exactly: left content,
/// spacer, and right content together fill the terminal width.
pub proof fn lemma_spacer_fills_line(
    cols: nat,
    th: Theme,
    m: Seq<BlockModel>,
    l: Seq<BlockModel>,
    t: Seq<BlockModel>,
    s: Seq<BlockModel>,
    d: Seq<BlockModel>,
)
    requires
        line_spacer_room(cols, m, l, t, s, d) is Some,
    ensures
        total_width(composed_line(cols, th, m, l, t, s, d)) == cols,
        total_width(composed_line(cols, th, m, l, t, s, d)) == (total_width(m) + total_width(l)
            + 1 + middle_width(cols, m, l, t, s, d)) + line_spacer_room(
            cols,
            m,
            l,
            t,
            s,
            d,
        )->Some_0 + (total_width(s) + total_width(d)),
{
    lemma_composed_width(cols, th, m, l, t, s, d);
}

/// With no spacer produced, the composed line is no wider than the occupied
/// width of the full-tab-list computation, provided the chosen middle is no
/// wider than the tab list. (With a spacer the line is widened to the full
/// terminal width, which may exceed the occupied width.)
pub proof fn lemma_line_within_occupied(
    cols: nat,
    th: Theme,
    m: Seq<BlockModel>,
    l: Seq<BlockModel>,
    t: Seq<BlockModel>,
    s: Seq<BlockModel>,
    d: Seq<BlockModel>,
)
    requires
        line_spacer_room(cols, m, l, t, s, d) is None,
        middle_width(cols, m, l, t, s, d) <= total_width(t),
    ensures
        total_width(composed_line(cols, th, m, l, t, s, d)) <= occupied_width(m, l, t, s, d),
{
    lemma_composed_width(cols, th, m, l, t, s, d);
}

/// The overflow decision has no hidden hysteresis: two compositions with the
/// same terminal width and the same section widths make the same choice,
/// whatever the blocks hold and whatever was rendered before.
pub proof fn lemma_overflow_depends_on_widths_only(
    cols: nat,
    m1: Seq<BlockModel>,
    l1: Seq<BlockModel>,
    t1: Seq<BlockModel>,
    s1: Seq<BlockModel>,
    d1: Seq<BlockModel>,
    m2: Seq<BlockModel>,
    l2: Seq<BlockModel>,
    t2: Seq<BlockModel>,
    s2: Seq<BlockModel>,
    d2: Seq<BlockModel>,
)
    requires
        total_width(m1) == total_width(m2),
        total_width(l1) == total_width(l2),
        total_width(t1) == total_width(t2),
        total_width(s1) == total_width(s2),
        total_width(d1) == total_width(d2),
    ensures
        line_overflows(cols, m1, l1, t1, s1, d1) == line_overflows(cols, m2, l2, t2, s2, d2),
{
}

/// Every tab tag in the run leaves room for the host's 1-based `u32`
/// numbering.
pub open spec fn tab_tags_bounded(s: Seq<BlockModel>) -> bool {
    forall|i: int|
        0 <= i < s.len() ==> match #[trigger] s[i].tab_index {
            Some(x) => x < u32::MAX,
            None => true,
        }
}

/// Composition invents no tab tags: with every section's tags in range, the
/// composed line's tags are in range, the synthesized padding, warning, and
/// spacer blocks carrying none.
pub proof fn lemma_composed_tags_bounded(
    cols: nat,
    th: Theme,
    m: Seq<BlockModel>,
    l: Seq<BlockModel>,
    t: Seq<BlockModel>,
    s: Seq<BlockModel>,
    d: Seq<BlockModel>,
)
    requires
        tab_tags_bounded(m),
        tab_tags_bounded(l),
        tab_tags_bounded(t),
        tab_tags_bounded(s),
        tab_tags_bounded(d),
    ensures
        tab_tags_bounded(composed_line(cols, th, m, l, t, s, d)),
{
    let c = composed_line(cols, th, m, l, t, s, d);
    let mid = middle_models(cols, th, m, l, t, s, d);
    let spc = spacer_models(line_spacer_room(cols, m, l, t, s, d), th);
    let pad = seq![bg_model(1, th)];
    let n0 = m.len() as int;
    let n1 = n0 + l.len();
    let n2 = n1 + 1;
    let n3 = n2 + mid.len();
    let n4 = n3 + spc.len();
    let n5 = n4 + s.len();
    assert forall|i: int|
        0 <= i < c.len() implies match #[trigger] c[i].tab_index {
        Some(x) => x < u32::MAX,
        None => true,
    } by {
        if i < n0 {
            assert(c[i] == m[i]);
        } else if i < n1 {
            assert(c[i] == l[i - n0]);
        } else if i < n2 {
            assert(c[i] == bg_model(1, th));
        } else if i < n3 {
            assert(c[i] == mid[i - n2]);
            if line_overflows(cols, m, l, t, s, d) {
                assert(mid[i - n2] == error_model(overflow_msg(), th));
            } else {
                assert(mid[i - n2] == t[i - n2]);
            }
        } else if i < n4 {
            match line_spacer_room(cols, m, l, t, s, d) {
                Some(w) => {
                    assert(c[i] == bg_model(w, th));
                }
                None => {
                    assert(false);
                }
            }
        } else if i < n5 {
            assert(c[i] == s[i - n4]);
        } else {
            assert(c[i] == d[i - n5]);
        }
    }
}

/// The 1-based tab switch a render issues: only with the pending flag
/// armed, and only when the click resolved to a tab block.
pub open spec fn click_action(armed: bool, hit: Option<usize>) -> Option<u32> {
    if armed {
        match hit {
            Some(x) => Some((x + 1) as u32),
            None => None,
        }
    } else {
        None
    }
}

/// Where a click at column `col` lands: the 0-based tab tag of the block
/// whose half-open column range `[cursor, cursor + len)` contains `col`.
pub open spec fn spec_hit(s: Seq<BlockModel>, col: int) -> Option<usize>
    decreases s.len(),
{
    if s.len() == 0 {
        None
    } else if s[0].tab_index is Some && 0 <= col < s[0].len {
        s[0].tab_index
    } else {
        spec_hit(s.drop_first(), col - s[0].len)
    }
}

/// A resolved click names a tab tag that some block carries.
pub proof fn lemma_spec_hit_found(s: Seq<BlockModel>, col: int, t: usize)
    requires
        spec_hit(s, col) == Some(t),
    ensures
        exists|i: int| 0 <= i < s.len() && s[i].tab_index == Some(t),
    decreases s.len(),
{
    if s.len() == 0 {
    } else if s[0].tab_index is Some && 0 <= col < s[0].len {
        assert(s[0].tab_index == Some(t));
    } else {
        lemma_spec_hit_found(s.drop_first(), col - s[0].len, t);
        let i = choose|i: int|
            0 <= i < s.drop_first().len() && s.drop_first()[i].tab_index == Some(t);
        assert(s[i + 1].tab_index == Some(t));
    }
}

/// Walks the composed blocks, accumulating column offsets, and resolves
/// which tab block a click at column `col` struck, if any.
pub fn route_click(blocks: &Vec<Block>, col: usize) -> (r: Option<usize>)
    requires
        total_width(models(blocks@)) <= usize::MAX,
    ensures
        r == spec_hit(models(blocks@), col as int),
{
    let ghost all = models(blocks@);
    let mut cursor: usize = 0;
    let mut i: usize = 0;
    proof {
        assert(all.skip(0) =~= all);
        assert(all.take(0) =~= Seq::<BlockModel>::empty());
    }
    while i < blocks.len()
        invariant
            i <= blocks.len(),
            all == models(blocks@),
            total_width(all) <= usize::MAX,
            cursor as nat == total_width(all.take(i as int)),
            spec_hit(all, col as int) == spec_hit(all.skip(i as int), col - cursor),
        decreases blocks.len() - i,
    {
        proof {
            lemma_total_width_take_step(all, i as int);
            lemma_total_width_take_bound(all, i as int + 1);
            assert(all.skip(i as int).drop_first() =~= all.skip(i as int + 1));
            assert(all.skip(i as int)[0] == all[i as int]);
        }
        let b_len = blocks[i].len;
        match blocks[i].tab_index {
            Some(idx) => {
                if col >= cursor && col - cursor < b_len {
                    return Some(idx);
                }
            }
            None => {}
        }
        cursor = cursor + b_len;
        i += 1;
    }
    proof {
        assert(all.skip(i as int) =~= Seq::<BlockModel>::empty());
    }
    None
}

/// The bodies of a run of blocks, in order.
pub open spec fn bodies_of(s: Seq<BlockModel>) -> Seq<char>
    decreases s.len(),
{
    if s.len() == 0 {
        Seq::<char>::empty()
    } else {
        s[0].body + bodies_of(s.drop_first())
    }
}

/// Extending a run by one block appends that block's body.
pub proof fn lemma_bodies_take_step(s: Seq<BlockModel>, i: int)
    requires
        0 <= i < s.len(),
    ensures
        bodies_of(s.take(i + 1)) == bodies_of(s.take(i)) + s[i].body,
    decreases i,
{
    if i == 0 {
        assert(s.take(1).drop_first() =~= Seq::<BlockModel>::empty());
        assert(s.take(0) =~= Seq::<BlockModel>::empty());
        assert(bodies_of(s.take(1)) =~= bodies_of(s.take(0)) + s[0].body);
    } else {
        assert(s.take(i + 1).drop_first() =~= s.drop_first().take(i));
        assert(s.take(i).drop_first() =~= s.drop_first().take(i - 1));
        lemma_bodies_take_step(s.drop_first(), i - 1);
        assert(bodies_of(s.take(i + 1)) =~= bodies_of(s.take(i)) + s[i].body);
    }
}

/// Concatenates the blocks' bodies, in order, into one styled line.
pub fn concat_bodies(blocks: &Vec<Block>) -> (r: String)
    ensures
        r@ == bodies_of(models(blocks@)),
{
    let ghost all = models(blocks@);
    let mut bar = String::new();
    let mut i: usize = 0;
    proof {
        assert(all.take(0) =~= Seq::<BlockModel>::empty());
    }
    while i < blocks.len()
        invariant
            i <= blocks.len(),
            all == models(blocks@),
            bar@ == bodies_of(all.take(i as int)),
        decreases blocks.len() - i,
    {
        proof {
            lemma_bodies_take_step(all, i as int);
        }
        bar.append(blocks[i].body.as_str());
        i += 1;
    }
    proof {
        assert(all.take(blocks@.len() as int) =~= all);
    }
    bar
}

/// The decimal digit character for `d`.
pub open spec fn digit_char(d: int) -> char {
    if d == 0 {
        '0'
    } else if d == 1 {
        '1'
    } else if d == 2 {
        '2'
    } else if d == 3 {
        '3'
    } else if d == 4 {
        '4'
    } else if d == 5 {
        '5'
    } else if d == 6 {
        '6'
    } else if d == 7 {
        '7'
    } else if d == 8 {
        '8'
    } else {
        '9'
    }
}

/// The decimal digits of `n`, most significant first.
pub open spec fn dec_of(n: int) -> Seq<char>
    decreases n,
{
    if n < 10 {
        seq![digit_char(n)]
    } else {
        dec_of(n / 10).push(digit_char(n % 10))
    }
}

/// Appends the single digit `d` to `s`.
fn push_digit(s: &mut String, d: u8)
    requires
        d < 10,
    ensures
        final(s)@ == old(s)@ + seq![digit_char(d as int)],
{
    let ds: &str = if d == 0 {
        "0"
    } else if d == 1 {
        "1"
    } else if d == 2 {
        "2"
    } else if d == 3 {
        "3"
    } else if d == 4 {
        "4"
    } else if d == 5 {
        "5"
    } else if d == 6 {
        "6"
    } else if d == 7 {
        "7"
    } else if d == 8 {
        "8"
    } else {
        "9"
    };
    proof {
        reveal_strlit("0");
        reveal_strlit("1");
        reveal_strlit("2");
        reveal_strlit("3");
        reveal_strlit("4");
        reveal_strlit("5");
        reveal_strlit("6");
        reveal_strlit("7");
        reveal_strlit("8");
        reveal_strlit("9");
        assert(ds@ =~= seq![digit_char(d as int)]);
    }
    s.append(ds);
}

/// Appends the decimal representation of `n` to `s`.
fn append_dec_u8(s: &mut String, n: u8)
    ensures
        final(s)@ == old(s)@ + dec_of(n as int),
{
    let ghost start = s@;
    if n >= 100 {
        proof {
            reveal_with_fuel(dec_of, 4);
            vstd::arithmetic::div_mod::lemma_div_denominator(n as int, 10, 10);
        }
        push_digit(s, n / 100);
        push_digit(s, (n / 10) % 10);
        push_digit(s, n % 10);
        proof {
            reveal_with_fuel(dec_of, 4);
            assert(dec_of((n / 10) as int) == dec_of((n / 100) as int).push(
                digit_char((n / 10) as int % 10),
            ));
            assert(s@ =~= start + dec_of(n as int));
        }
    } else if n >= 10 {
        push_digit(s, n / 10);
        push_digit(s, n % 10);
        proof {
            reveal_with_fuel(dec_of, 4);
            assert(s@ =~= start + dec_of(n as int));
        }
    } else {
        push_digit(s, n);
        proof {
            reveal_with_fuel(dec_of, 4);
            assert(s@ =~= start + dec_of(n as int));
        }
    }
}

/// The neutral fill colour for the theme: its dark colour on a dark theme,
/// its light colour on a light one.
pub open spec fn fill_color(th: Theme) -> Color {
    match th.hue {
        ThemeHue::Dark => th.black,
        ThemeHue::Light => th.white,
    }
}

/// The row-terminating escape sequence: set the background to `c`, then
/// clear to the end of the row.
pub open spec fn fill_of(c: Color) -> Seq<char> {
    match c {
        Color::Rgb(r, g, b) => "\u{1b}[48;2;"@ + dec_of(r as int) + ";"@ + dec_of(g as int) + ";"@
            + dec_of(b as int) + "m\u{1b}[0K"@,
        Color::EightBit(n) => "\u{1b}[48;5;"@ + dec_of(n as int) + "m\u{1b}[0K"@,
    }
}

/// Builds the background fill that clears the remainder of the row in the
/// theme's neutral colour, in the colour representation the theme uses.
pub fn fill_suffix(theme: &Theme) -> (r: String)
    ensures
        r@ == fill_of(fill_color(*theme)),
{
    let c = match theme.hue {
        ThemeHue::Dark => theme.black,
        ThemeHue::Light => theme.white,
    };
    let mut out = String::new();
    match c {
        Color::Rgb(red, green, blue) => {
            out.append("\u{1b}[48;2;");
            append_dec_u8(&mut out, red);
            out.append(";");
            append_dec_u8(&mut out, green);
            out.append(";");
            append_dec_u8(&mut out, blue);
            out.append("m\u{1b}[0K");
            proof {
                assert(out@ =~= fill_of(c));
            }
        }
        Color::EightBit(n) => {
            out.append("\u{1b}[48;5;");
            append_dec_u8(&mut out, n);
            out.append("m\u{1b}[0K");
            proof {
                assert(out@ =~= fill_of(c));
            }
        }
    }
    out
}

} // verus!
