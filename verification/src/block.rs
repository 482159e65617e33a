//! The segment model: colours, blocks, and runs of blocks.

use vstd::prelude::*;

verus! {

/// How the host's theme names one terminal colour: a direct RGB triple or an
/// indexed palette entry.
#[derive(Clone, Copy, Debug, PartialEq, Eq, Structural)]
pub enum Color {
    Rgb(u8, u8, u8),
    EightBit(u8),
}

/// Whether the active theme counts as dark or light; it picks the neutral
/// colour of the trailing row fill.
#[derive(Clone, Copy, Debug, PartialEq, Eq, Structural)]
pub enum ThemeHue {
    Dark,
    Light,
}

/// The palette entries the status line reads, held as plain values.
#[derive(Clone, Copy, Debug, PartialEq, Eq, Structural)]
pub struct Theme {
    pub fg: Color,
    pub bg: Color,
    pub black: Color,
    pub red: Color,
    pub white: Color,
    pub hue: ThemeHue,
}

/// A `Block` as the contracts see it: the styled body as a character
/// sequence, its display width in columns, and the optional tab tag.
#[verifier::ext_equal]
pub ghost struct BlockModel {
    pub body: Seq<char>,
    pub len: nat,
    pub tab_index: Option<usize>,
}

/// One pre-styled piece of the line. `body` carries the styling escape codes;
/// `len` is the display width in terminal columns of the body with the
/// styling stripped, computed by Unicode display rules (not byte or
/// code-point count). `tab_index` is present exactly on blocks that stand for
/// a clickable tab, 0-based.
#[derive(Clone, Debug)]
pub struct Block {
    pub body: String,
    pub len: usize,
    pub tab_index: Option<usize>,
}

impl View for Block {
    type V = BlockModel;

    open spec fn view(&self) -> BlockModel {
        BlockModel { body: self.body@, len: self.len as nat, tab_index: self.tab_index }
    }
}

impl Default for Block {
    /// The empty block: empty body, width zero, no tab association.
    fn default() -> (r: Block)
        ensures
            r@.body == Seq::<char>::empty(),
            r@.len == 0,
            r@.tab_index is None,
    {
        Block { body: String::new(), len: 0, tab_index: None }
    }
}

/// The models of a run of blocks, in order.
pub open spec fn models(s: Seq<Block>) -> Seq<BlockModel> {
    s.map_values(|b: Block| b@)
}

/// The combined display width of a run of blocks.
pub open spec fn total_width(s: Seq<BlockModel>) -> nat
    decreases s.len(),
{
    if s.len() == 0 {
        0
    } else {
        s[0].len + total_width(s.drop_first())
    }
}

/// An ordered run of blocks with its precomputed total width.
pub struct Section {
    pub blocks: Vec<Block>,
    pub len: usize,
}

impl Section {
    /// The precomputed width is the sum of the blocks' widths; every
    /// composition step trusts it only under this invariant.
    pub open spec fn wf(&self) -> bool {
        self.len as nat == total_width(models(self.blocks@))
    }

    /// A run with no blocks at all.
    pub fn empty() -> (r: Section)
        ensures
            r.wf(),
            r.blocks@ == Seq::<Block>::empty(),
            r.len == 0,
    {
        let r = Section { blocks: Vec::new(), len: 0 };
        proof {
            assert(models(r.blocks@) =~= Seq::<BlockModel>::empty());
        }
        r
    }

    /// Packs a run of blocks with its summed width; `None` when the widths
    /// together exceed what a machine word holds.
    pub fn from_blocks(blocks: Vec<Block>) -> (r: Option<Section>)
        ensures
            r is Some <==> total_width(models(blocks@)) <= usize::MAX,
            r matches Some(s) ==> s.wf() && s.blocks@ == blocks@
                && s.len as nat == total_width(models(blocks@)),
    {
        let ghost all = models(blocks@);
        let mut acc: usize = 0;
        let mut i: usize = 0;
        proof {
            assert(all.take(0) =~= Seq::<BlockModel>::empty());
        }
        while i < blocks.len()
            invariant
                i <= blocks.len(),
                all == models(blocks@),
                acc as nat == total_width(all.take(i as int)),
            decreases blocks.len() - i,
        {
            proof {
                lemma_total_width_take_step(all, i as int);
            }
            match acc.checked_add(blocks[i].len) {
                Some(next) => {
                    acc = next;
                }
                None => {
                    proof {
                        lemma_total_width_take_bound(all, i + 1);
                    }
                    return None;
                }
            }
            i += 1;
        }
        proof {
            assert(all.take(blocks@.len() as int) =~= all);
        }
        Some(Section { blocks, len: acc })
    }
}

/// Extending a run by one block adds that block's width.
pub proof fn lemma_total_width_take_step(s: Seq<BlockModel>, i: int)
    requires
        0 <= i < s.len(),
    ensures
        total_width(s.take(i + 1)) == total_width(s.take(i)) + s[i].len,
    decreases i,
{
    if i == 0 {
        assert(s.take(1).drop_first() =~= Seq::<BlockModel>::empty());
        assert(s.take(0) =~= Seq::<BlockModel>::empty());
    } else {
        assert(s.take(i + 1).drop_first() =~= s.drop_first().take(i));
        assert(s.take(i).drop_first() =~= s.drop_first().take(i - 1));
        lemma_total_width_take_step(s.drop_first(), i - 1);
    }
}

/// A prefix of a run is no wider than the whole run.
pub proof fn lemma_total_width_take_bound(s: Seq<BlockModel>, i: int)
    requires
        0 <= i <= s.len(),
    ensures
        total_width(s.take(i)) <= total_width(s),
    decreases i,
{
    if i == 0 {
        assert(s.take(0) =~= Seq::<BlockModel>::empty());
    } else {
        lemma_total_width_take_step(s, i - 1);
        lemma_total_width_take_bound(s, i - 1);
        lemma_total_width_split(s, i);
    }
}

/// The width of a whole run splits at any point into prefix and suffix.
proof fn lemma_total_width_split(s: Seq<BlockModel>, i: int)
    requires
        0 <= i <= s.len(),
    ensures
        total_width(s) == total_width(s.take(i)) + total_width(s.skip(i)),
    decreases i,
{
    if i == 0 {
        assert(s.take(0) =~= Seq::<BlockModel>::empty());
        assert(s.skip(0) =~= s);
    } else {
        lemma_total_width_take_step(s, i - 1);
        lemma_total_width_split(s, i - 1);
        assert(s.skip(i - 1).drop_first() =~= s.skip(i));
        assert(s.skip(i - 1)[0] == s[i - 1]);
    }
}

/// Width distributes over concatenation of runs.
pub proof fn lemma_total_width_concat(a: Seq<BlockModel>, b: Seq<BlockModel>)
    ensures
        total_width(a + b) == total_width(a) + total_width(b),
    decreases a.len(),
{
    if a.len() == 0 {
        assert(a + b =~= b);
    } else {
        assert((a + b).drop_first() =~= a.drop_first() + b);
        lemma_total_width_concat(a.drop_first(), b);
    }
}

} // verus!
