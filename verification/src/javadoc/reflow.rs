//! A whole `/* … */` or `/** … */` comment reflowed: its body read into blocks, the blocks
//! written within the comment's width, block-tag descriptions lined up under their columns.

use vstd::prelude::*;

use crate::config::{Comments, Layout, TagAlignment};
use crate::javadoc::reindent::{code_indent_spec, CodeIndent};
use crate::ir::{lemma_utf16_width_bound, utf16_width, Width};
use crate::javadoc::blocks::{
    aligned_with, blocks_view, head_fits, head_width, is_group_widest, join_from, join_inline_tags,
    opt_view, same_run, tag_columns, tag_columns_ok, tag_name_of, Block, BlockView,
};
use crate::javadoc::comment::{
    sat_sub, shift, shift_spec, spaces, to_line_comments, to_line_comments_spec,
};
use crate::javadoc::measure::{block_ready, block_weight_of, blocks_ready, lemma_tt_nonneg};
use crate::javadoc::parse::{parse, parse_spec};
use crate::javadoc::render::{
    body, body_spec, lemma_body_len, line_out, lines_out, max_int, push_indented, push_line,
    push_tag, push_tag_spec, render_line, render_line_spec, tag_continuation,
    tag_continuation_spec,
};
use crate::javadoc::tokens::{
    fill_two, fill_two_spec, lemma_fill_lines_len, lines_view, text_total, words_view,
};
use crate::javadoc::{lexes_cleanly, lexes_cleanly_spec};
use crate::strs::{chars_of, push_all, slice_vec};

verus! {

/// The delimiter a comment opens with: `/**` for Javadoc, `/*` otherwise.
pub open spec fn opener(doc: bool) -> Seq<char> {
    if doc {
        "/**"@
    } else {
        "/*"@
    }
}

/// The description columns the tags are written at: the one assignment [`tag_columns_ok`]
/// allows.
pub open spec fn tag_columns_spec(bs: Seq<BlockView>, mode: TagAlignment) -> Seq<Option<usize>> {
    choose|r: Seq<Option<usize>>| tag_columns_ok(bs, mode, r)
}

/// A group has one widest head.
proof fn lemma_widest_unique(bs: Seq<BlockView>, mode: TagAlignment, i: int, w1: int, w2: int)
    requires
        is_group_widest(bs, mode, i, w1),
        is_group_widest(bs, mode, i, w2),
    ensures
        w1 == w2,
{
    reveal(is_group_widest);
    let j1 = choose|j: int| #[trigger] aligned_with(bs, mode, i, j) && head_width(bs[j]) == w1;
    let j2 = choose|j: int| #[trigger] aligned_with(bs, mode, i, j) && head_width(bs[j]) == w2;
    assert(head_width(bs[j2]) <= w1);
    assert(head_width(bs[j1]) <= w2);
}

/// One assignment of description columns at most satisfies [`tag_columns_ok`]: the widest head
/// of a group is one width.
pub proof fn lemma_tag_columns_unique(bs: Seq<BlockView>, mode: TagAlignment, r: Seq<Option<usize>>)
    requires
        tag_columns_ok(bs, mode, r),
    ensures
        tag_columns_spec(bs, mode) == r,
{
    let c = tag_columns_spec(bs, mode);
    assert(tag_columns_ok(bs, mode, c));
    assert forall|i: int| 0 <= i < bs.len() implies c[i] == r[i] by {
        if mode != TagAlignment::Unaligned && bs[i] is Tag {
            match (c[i], r[i]) {
                (Some(w1), Some(w2)) => {
                    lemma_widest_unique(bs, mode, i, w1 as int, w2 as int);
                },
                _ => {},
            }
        }
    }
    assert(c =~= r);
}

/// Tags of one run stand in one run with every tag of it.
proof fn lemma_same_run_joins(bs: Seq<BlockView>, i: int, j: int, k: int)
    requires
        same_run(bs, i, j),
        same_run(bs, i, k) || same_run(bs, j, k),
    ensures
        same_run(bs, i, k),
        same_run(bs, j, k),
{
    reveal(same_run);
    assert(tag_name_of(bs[j]) == tag_name_of(bs[i]));
    if same_run(bs, i, k) {
        assert(tag_name_of(bs[k]) == tag_name_of(bs[i]));
        assert forall|m: int|
            (if j <= k {
                j <= m <= k
            } else {
                k <= m <= j
            }) && #[trigger] bs[m] is Tag implies tag_name_of(bs[m]) == tag_name_of(bs[j]) by {
            if !(if i <= j {
                i <= m <= j
            } else {
                j <= m <= i
            }) {
                assert(if i <= k {
                    i <= m <= k
                } else {
                    k <= m <= i
                });
            }
        }
    } else {
        assert(tag_name_of(bs[k]) == tag_name_of(bs[j]));
        assert forall|m: int|
            (if i <= k {
                i <= m <= k
            } else {
                k <= m <= i
            }) && #[trigger] bs[m] is Tag implies tag_name_of(bs[m]) == tag_name_of(bs[i]) by {
            if !(if i <= j {
                i <= m <= j
            } else {
                j <= m <= i
            }) {
                assert(if j <= k {
                    j <= m <= k
                } else {
                    k <= m <= j
                });
            }
        }
    }
}

/// Tags whose descriptions are aligned together are written at one column: under `all` every
/// tag of the comment, under `grouped` every tag of a run of same-named tags, shares the widest
/// head among them.
pub proof fn law_aligned_tags_share_a_column(
    bs: Seq<BlockView>,
    mode: TagAlignment,
    r: Seq<Option<usize>>,
    i: int,
    j: int,
)
    requires
        tag_columns_ok(bs, mode, r),
        aligned_with(bs, mode, i, j),
    ensures
        r[i] is Some,
        r[i] == r[j],
{
    reveal(same_run);
    assert(0 <= i < bs.len() && bs[i] is Tag && 0 <= j < bs.len() && bs[j] is Tag);
    let wi = r[i]->0;
    let wj = r[j]->0;
    assert(is_group_widest(bs, mode, i, wi as int));
    assert(is_group_widest(bs, mode, j, wj as int));
    assert forall|k: int| #[trigger] aligned_with(bs, mode, j, k) <==> aligned_with(bs, mode, i, k) by {
        if mode == TagAlignment::Grouped {
            if aligned_with(bs, mode, j, k) || aligned_with(bs, mode, i, k) {
                lemma_same_run_joins(bs, i, j, k);
            }
        }
    }
    reveal(is_group_widest);
    let m = choose|m: int| #[trigger] aligned_with(bs, mode, i, m) && head_width(bs[m]) == wi as int;
    assert(aligned_with(bs, mode, j, m));
    assert(is_group_widest(bs, mode, j, wi as int));
    lemma_widest_unique(bs, mode, j, wi as int, wj as int);
}

/// A description column is no wider than a head can be, two columns a character.
proof fn lemma_column_bound(bs: Seq<BlockView>, mode: TagAlignment, r: Seq<Option<usize>>, w: int, ib: int)
    requires
        tag_columns_ok(bs, mode, r),
        blocks_ready(bs, w, ib),
    ensures
        forall|k: int| 0 <= k < r.len() ==> (#[trigger] r[k] matches Some(c) ==> c <= 2 * w + 1),
{
    assert forall|k: int| 0 <= k < r.len() implies (#[trigger] r[k] matches Some(c) ==> c <= 2 * w + 1) by {
        match r[k] {
            Some(c) => {
                assert(mode != TagAlignment::Unaligned && bs[k] is Tag);
                reveal(is_group_widest);
                assert(is_group_widest(bs, mode, k, c as int));
                let j = choose|j: int| #[trigger] aligned_with(bs, mode, k, j) && head_width(bs[j]) == c as int;
                reveal(same_run);
                assert(0 <= j < bs.len() && bs[j] is Tag);
                assert(block_ready(bs[j], w, ib));
                match bs[j] {
                    BlockView::Tag(n, a, ws) => {
                        lemma_utf16_width_bound(n);
                        lemma_tt_nonneg(ws, ws.len() as int);
                        match a {
                            Some(x) => {
                                lemma_utf16_width_bound(x);
                            },
                            None => {},
                        }
                    },
                    _ => {},
                }
            },
            None => {},
        }
    }
}

/// A block with the inline tags of its words fused, as [`join_from`] fuses them.
pub open spec fn join_block(b: BlockView, budget: int) -> BlockView {
    match b {
        BlockView::Prose(ws, f, r) => BlockView::Prose(join_from(ws, 0, budget), f, r),
        BlockView::Tag(n, a, ws) => BlockView::Tag(n, a, join_from(ws, 0, budget)),
        _ => b,
    }
}

/// Every block with its inline tags fused.
pub open spec fn joined(bs: Seq<BlockView>, budget: int) -> Seq<BlockView> {
    bs.map_values(|b: BlockView| join_block(b, budget))
}

/// Lines with `first` columns of extra indent on the first and `rest` on each after it.
pub open spec fn padded_lines(lines: Seq<Seq<char>>, first: nat, rest: nat) -> Seq<Seq<char>> {
    Seq::new(
        lines.len(),
        |i: int|
            spaces(
                if i == 0 {
                    first
                } else {
                    rest
                },
            ) + lines[i],
    )
}

/// How far writing a comment's blocks has got: the text so far, whether a block tag has been
/// written, whether the last line written is blank, and the column the description of the tag
/// last opened continues at.
#[verifier::ext_equal]
pub struct Rendered {
    /// The text so far.
    pub out: Seq<char>,
    /// Whether a block tag has been written.
    pub seen_tag: bool,
    /// Whether the last line written is blank.
    pub blank_written: bool,
    /// The column the open tag's description continues at.
    pub tag_pad: int,
}

/// Write block `at`.
///
/// A blank line is kept before the first block tag when blank lines are preserved or a block
/// asked for it; among the tags, when blank lines between tags are kept or it was asked for and
/// a tag follows. Prose is refilled within what the budget leaves after its indent (never under
/// sixteen columns); lines kept as written keep their shape, the first moved by its indent. Both
/// are moved out to the open tag's description column. The first block tag after anything else
/// is set off by a blank line when tags ask for one and none was just written; each tag then
/// sets the description column the blocks after it continue at.
pub open spec fn render_step(
    st: Rendered,
    bs: Seq<BlockView>,
    at: int,
    cols: Seq<Option<usize>>,
    cfg: Comments,
    budget: int,
    continuation_cols: usize,
) -> Rendered {
    let asterisks = cfg.leading_asterisks;
    match bs[at] {
        BlockView::Blank(requested) => {
            let before_tag = at + 1 < bs.len() && bs[at + 1] is Tag;
            let keep = if st.seen_tag {
                cfg.blank_lines_between_tags || (requested && before_tag)
            } else {
                cfg.preserve_blank_lines || requested
            };
            Rendered {
                out: if keep {
                    st.out + line_out(Seq::empty(), asterisks)
                } else {
                    st.out
                },
                blank_written: keep,
                ..st
            }
        },
        BlockView::Prose(ws, f, r) => {
            let first = f + st.tag_pad;
            let rest = r + st.tag_pad;
            let lines = fill_two_spec(ws, max_int(sat_sub(budget, first), 16), max_int(sat_sub(budget, rest), 16));
            Rendered {
                out: st.out + lines_out(padded_lines(lines, first as nat, rest as nat), asterisks),
                blank_written: false,
                ..st
            }
        },
        BlockView::Verbatim(lines, f) => Rendered {
            out: st.out + lines_out(padded_lines(lines, (f + st.tag_pad) as nat, 0), asterisks),
            blank_written: false,
            ..st
        },
        BlockView::Tag(n, a, ws) => {
            let separate = !st.seen_tag && cfg.blank_line_before_tags && at > 0 && !st.blank_written;
            let out1 = if separate {
                st.out + line_out(Seq::empty(), asterisks)
            } else {
                st.out
            };
            let pad = tag_continuation_spec(cols[at], cfg.indent_tag_description, continuation_cols);
            Rendered {
                out: out1 + push_tag_spec(n, a, ws, budget, cols[at], asterisks, pad),
                seen_tag: true,
                blank_written: false,
                tag_pad: pad,
            }
        },
    }
}

/// The first `k` blocks written after the opening delimiter.
pub open spec fn render_upto(
    bs: Seq<BlockView>,
    k: int,
    open: Seq<char>,
    cols: Seq<Option<usize>>,
    cfg: Comments,
    budget: int,
    continuation_cols: usize,
) -> Rendered
    decreases k,
{
    if k <= 0 {
        Rendered { out: open, seen_tag: false, blank_written: false, tag_pad: 0 }
    } else {
        render_step(render_upto(bs, k - 1, open, cols, cfg, budget, continuation_cols), bs, k - 1, cols, cfg, budget, continuation_cols)
    }
}

/// The comment as one line, `/** text */`, when it may collapse — Javadoc unless its delimiters
/// keep lines of their own, a block comment unless they do and it has a line of its own — and
/// it is one paragraph without indent that refills to one non-empty line fitting the width.
pub open spec fn collapsed(bs: Seq<BlockView>, doc: bool, indent: int, own_line: bool, cfg: Comments, width: int) -> Option<Seq<char>> {
    let collapses = if doc {
        !cfg.javadoc_boundaries_on_own_lines
    } else {
        !cfg.block_boundaries_on_own_lines || !own_line
    };
    if collapses && bs.len() == 1 {
        match bs[0] {
            BlockView::Prose(ws, first, _) => {
                let lines = fill_two_spec(ws, usize::MAX as int, usize::MAX as int);
                if first == 0 && lines.len() == 1 && lines[0].len() > 0 && indent + utf16_width(opener(doc))
                    + utf16_width(lines[0]) + 4 <= width {
                    Some(opener(doc) + seq![' '] + lines[0] + " */"@)
                } else {
                    None
                }
            },
            _ => None,
        }
    } else {
        None
    }
}

/// The columns a comment's lines may fill after its indent and prefix, never under sixteen.
pub open spec fn comment_budget(indent: int, cfg: Comments, width: int) -> int {
    max_int(
        sat_sub(
            width,
            indent + if cfg.leading_asterisks {
                3int
            } else {
                1int
            },
        ),
        16,
    )
}

/// The blocks written between the delimiters, each tag's description at its column.
pub open spec fn written(bs: Seq<BlockView>, doc: bool, cfg: Comments, budget: int, continuation_cols: usize) -> Seq<char> {
    let cols = tag_columns_spec(bs, cfg.tag_alignment);
    render_upto(bs, bs.len() as int, opener(doc), cols, cfg, budget, continuation_cols).out + seq!['\n'] + (if cfg.leading_asterisks {
        seq![' ']
    } else {
        Seq::empty()
    }) + "*/"@
}

/// A comment reflowed: as written when its delimiters are not there; moved to its column when
/// it is Javadoc that does not lex and unclosed HTML is not to be reflowed; `/** */` or `/* */`
/// when its body holds nothing; one line when it collapses; otherwise its blocks — with their
/// inline tags fused unless lines may break inside them — written within the budget.
pub open spec fn render_block_spec(
    text: Seq<char>,
    doc: bool,
    indent: int,
    column: int,
    own_line: bool,
    cfg: Comments,
    code: Option<CodeIndent>,
    width: int,
    continuation_cols: usize,
) -> Seq<char> {
    match body_spec(text, doc) {
        None => text,
        Some(b) => if doc && !cfg.reflow_unclosed_html && !lexes_cleanly_spec(b) {
            shift_spec(text, indent, column)
        } else {
            let bs = parse_spec(b, cfg, code);
            if bs.len() == 0 {
                if doc {
                    "/** */"@
                } else {
                    "/* */"@
                }
            } else {
                match collapsed(bs, doc, indent, own_line, cfg, width) {
                    Some(line) => line,
                    None => {
                        let budget = comment_budget(indent, cfg, width);
                        let bs2 = if cfg.break_inside_inline_tags {
                            bs
                        } else {
                            joined(bs, budget)
                        };
                        written(bs2, doc, cfg, budget, continuation_cols)
                    },
                }
            }
        },
    }
}

/// Lines written one after another, with extra indent on the first and on the rest.
fn push_padded(out: &mut Vec<char>, lines: &Vec<Vec<char>>, first: usize, rest: usize, asterisks: bool)
    ensures
        final(out)@ == old(out)@ + lines_out(padded_lines(lines_view(lines@), first as nat, rest as nat), asterisks),
{
    let ghost ls = padded_lines(lines_view(lines@), first as nat, rest as nat);
    let ghost start = out@;
    let mut i: usize = 0;
    while i < lines.len()
        invariant
            i <= lines@.len(),
            ls == padded_lines(lines_view(lines@), first as nat, rest as nat),
            out@ == start + lines_out(ls.take(i as int), asterisks),
        decreases lines@.len() - i,
    {
        let pad = if i == 0 {
            first
        } else {
            rest
        };
        let ghost before = out@;
        push_indented(out, &lines[i], pad, asterisks);
        proof {
            assert(ls[i as int] == spaces(pad as nat) + lines@[i as int]@);
            assert(ls.take(i + 1).drop_last() =~= ls.take(i as int));
            assert(ls.take(i + 1).last() == ls[i as int]);
            assert(out@ =~= start + lines_out(ls.take(i + 1), asterisks));
        }
        i += 1;
    }
    assert(ls.take(lines@.len() as int) =~= ls);
}

/// A comment being written.
pub struct Writer {
    /// The text so far.
    pub out: Vec<char>,
    /// Whether a block tag has been written.
    pub seen_tag: bool,
    /// Whether the last line written is blank.
    pub blank_written: bool,
    /// The column the open tag's description continues at.
    pub tag_pad: usize,
}

impl View for Writer {
    type V = Rendered;

    open spec fn view(&self) -> Rendered {
        Rendered {
            out: self.out@,
            seen_tag: self.seen_tag,
            blank_written: self.blank_written,
            tag_pad: self.tag_pad as int,
        }
    }
}

impl Writer {
    /// Write block `at`.
    #[verifier::rlimit(60)]
    fn write_block(
        &mut self,
        blocks: &Vec<Block>,
        at: usize,
        cols: &Vec<Option<usize>>,
        cfg: &Comments,
        budget: usize,
        continuation_cols: usize,
        Ghost(w): Ghost<int>,
        Ghost(ib): Ghost<int>,
    )
        requires
            at < blocks@.len(),
            cols@.len() == blocks@.len(),
            forall|k: int| 0 <= k < cols@.len() ==> (#[trigger] cols@[k] matches Some(c) ==> c <= 2 * w + 1),
            blocks_ready(blocks_view(blocks@), w, ib),
            0 <= w,
            0 <= ib,
            old(self).tag_pad <= 2 * w + 2 + continuation_cols,
            6 * w + 12 <= usize::MAX,
            ib + 2 * w + 2 + continuation_cols <= usize::MAX,
        ensures
            final(self)@ == render_step(old(self)@, blocks_view(blocks@), at as int, cols@, *cfg, budget as int, continuation_cols),
            final(self).tag_pad <= 2 * w + 2 + continuation_cols,
    {
        let ghost bs = blocks_view(blocks@);
        let ghost st = self@;
        assert(bs[at as int] == blocks@[at as int]@);
        assert(block_ready(bs[at as int], w, ib));
        match &blocks[at] {
            Block::Blank { requested } => {
                let before_tag = at < blocks.len() - 1 && matches!(blocks[at + 1], Block::Tag { .. });
                proof {
                    if at + 1 < blocks@.len() {
                        assert(bs[at + 1] == blocks@[at + 1]@);
                    }
                }
                let keep = if self.seen_tag {
                    cfg.blank_lines_between_tags || (*requested && before_tag)
                } else {
                    cfg.preserve_blank_lines || *requested
                };
                if keep {
                    let empty: Vec<char> = Vec::new();
                    push_line(&mut self.out, &empty, cfg.leading_asterisks);
                    assert(empty@ =~= Seq::<char>::empty());
                }
                self.blank_written = keep;
            },
            Block::Prose { words, first, rest } => {
                proof {
                    lemma_tt_nonneg(words_view(words@), words@.len() as int);
                }
                let f = *first + self.tag_pad;
                let r = *rest + self.tag_pad;
                let room_first = budget.saturating_sub(f);
                let room_rest = budget.saturating_sub(r);
                let lines = fill_two(
                    words,
                    if room_first >= 16 {
                        room_first
                    } else {
                        16
                    },
                    if room_rest >= 16 {
                        room_rest
                    } else {
                        16
                    },
                );
                push_padded(&mut self.out, &lines, f, r, cfg.leading_asterisks);
                self.blank_written = false;
            },
            Block::Verbatim { lines, first } => {
                let f = *first + self.tag_pad;
                push_padded(&mut self.out, lines, f, 0, cfg.leading_asterisks);
                self.blank_written = false;
            },
            Block::Tag { name, argument, words } => {
                proof {
                    lemma_tt_nonneg(words_view(words@), words@.len() as int);
                    assert(cols@[at as int] matches Some(c) ==> c <= 2 * w + 1);
                }
                if !self.seen_tag && cfg.blank_line_before_tags && at > 0 && !self.blank_written {
                    let empty: Vec<char> = Vec::new();
                    push_line(&mut self.out, &empty, cfg.leading_asterisks);
                    assert(empty@ =~= Seq::<char>::empty());
                }
                self.blank_written = false;
                self.seen_tag = true;
                let column = cols[at];
                self.tag_pad = tag_continuation(column, cfg, continuation_cols);
                push_tag(&mut self.out, name, argument, words, budget, column, cfg, continuation_cols);
            },
        }
    }
}

/// Fuse the inline tags of every block's words.
fn join_all(blocks: &mut Vec<Block>, budget: usize, Ghost(w): Ghost<int>, Ghost(ib): Ghost<int>)
    requires
        blocks_ready(blocks_view(old(blocks)@), w, ib),
        w <= i32::MAX,
    ensures
        blocks_view(final(blocks)@) == joined(blocks_view(old(blocks)@), budget as int),
        blocks_ready(blocks_view(final(blocks)@), w, ib),
{
    let ghost b0 = blocks_view(blocks@);
    let mut k: usize = 0;
    while k < blocks.len()
        invariant
            k <= blocks@.len(),
            blocks@.len() == b0.len(),
            w <= i32::MAX,
            forall|j: int| 0 <= j < k ==> #[trigger] blocks@[j]@ == join_block(b0[j], budget as int),
            forall|j: int| k <= j < b0.len() ==> #[trigger] blocks@[j]@ == b0[j],
            blocks_ready(blocks_view(blocks@), w, ib),
        decreases blocks@.len() - k,
    {
        let ghost bs = blocks_view(blocks@);
        assert(bs[k as int] == blocks@[k as int]@);
        assert(block_ready(bs[k as int], w, ib));
        let mut taken = Block::Blank { requested: false };
        blocks.set_and_swap(k, &mut taken);
        let put = match taken {
            Block::Prose { mut words, first, rest } => {
                proof {
                    lemma_tt_nonneg(words_view(words@), words@.len() as int);
                }
                join_inline_tags(&mut words, budget);
                Block::Prose { words, first, rest }
            },
            Block::Tag { name, argument, mut words } => {
                proof {
                    lemma_tt_nonneg(words_view(words@), words@.len() as int);
                }
                join_inline_tags(&mut words, budget);
                Block::Tag { name, argument, words }
            },
            other => other,
        };
        let ghost p = put@;
        blocks.set(k, put);
        proof {
            assert forall|j: int| 0 <= j < blocks@.len() implies block_ready(#[trigger] blocks_view(blocks@)[j], w, ib) by {
                if j != k {
                    assert(blocks_view(blocks@)[j] == bs[j]);
                } else {
                    assert(blocks_view(blocks@)[j] == p);
                }
            }
        }
        k += 1;
    }
    assert(blocks_view(blocks@) =~= joined(b0, budget as int));
}

/// The comment as one line, when it collapses.
fn collapse(
    blocks: &Vec<Block>,
    doc: bool,
    indent: usize,
    own_line: bool,
    cfg: &Comments,
    width: usize,
    Ghost(w): Ghost<int>,
    Ghost(ib): Ghost<int>,
) -> (r: Option<Vec<char>>)
    requires
        blocks_ready(blocks_view(blocks@), w, ib),
        2 * w + 16 <= usize::MAX,
    ensures
        opt_view(r) == collapsed(blocks_view(blocks@), doc, indent as int, own_line, *cfg, width as int),
{
    let ghost bs = blocks_view(blocks@);
    let collapses = if doc {
        !cfg.javadoc_boundaries_on_own_lines
    } else {
        !cfg.block_boundaries_on_own_lines || !own_line
    };
    if !(collapses && blocks.len() == 1) {
        return None;
    }
    assert(bs[0] == blocks@[0]@);
    assert(block_ready(bs[0], w, ib));
    match &blocks[0] {
        Block::Prose { words, first, .. } => {
            if *first != 0 {
                return None;
            }
            let ghost ws = words_view(words@);
            proof {
                lemma_tt_nonneg(ws, ws.len() as int);
            }
            let lines = fill_two(words, usize::MAX, usize::MAX);
            if lines.len() != 1 {
                return None;
            }
            proof {
                lemma_fill_lines_len(ws, usize::MAX as int, usize::MAX as int);
                assert(lines_view(lines@)[0] == lines@[0]@);
                lemma_utf16_width_bound(lines@[0]@);
            }
            let inline = &lines[0];
            if inline.len() == 0 {
                return None;
            }
            let iw = Width::utf16_chars(inline);
            let open = if doc {
                "/**"
            } else {
                "/*"
            };
            proof {
                reveal_strlit("/**");
                reveal_strlit("/*");
            }
            let ow = Width::utf16(open);
            assert(open@.len() <= 3);
            proof {
                lemma_utf16_width_bound(open@);
            }
            let need = iw + ow + 4;
            if need > width || indent > width - need {
                return None;
            }
            let mut out = chars_of(open);
            out.push(' ');
            push_all(&mut out, inline);
            out.push(' ');
            out.push('*');
            out.push('/');
            proof {
                reveal_strlit(" */");
                assert(out@ =~= opener(doc) + seq![' '] + lines@[0]@ + " */"@);
            }
            Some(out)
        },
        _ => None,
    }
}

/// Reflow a `/* … */` or `/** … */` comment at `indent`, within `width` columns, a tag's
/// description continuing `continuation_cols` in when descriptions are indented.
#[verifier::rlimit(80)]
pub fn render_block(
    text: &[char],
    doc: bool,
    indent: usize,
    column: usize,
    own_line: bool,
    cfg: &Comments,
    layout: &Layout,
    width: usize,
    continuation_cols: usize,
) -> (r: Vec<char>)
    requires
        4 * text@.len() + 4 <= i32::MAX,
        32 * text@.len() + continuation_cols + 64 <= usize::MAX,
        cfg.format_source_in_comments ==> layout.tab_width > 0,
    ensures
        r@ == render_block_spec(
            text@,
            doc,
            indent as int,
            column as int,
            own_line,
            *cfg,
            code_indent_spec(*cfg, *layout),
            width as int,
            continuation_cols,
        ),
{
    let b = match body(text, doc) {
        None => {
            assert(text@.subrange(0, text@.len() as int) =~= text@);
            return slice_vec(text, 0, text.len());
        },
        Some(b) => b,
    };
    proof {
        lemma_body_len(text@, doc);
    }
    if doc && !cfg.reflow_unclosed_html && !lexes_cleanly(&b) {
        return shift(text, indent, column);
    }
    let mut blocks = parse(&b, cfg, layout);
    let ghost w: int = 4 * (b@.len() as int) + 4;
    let ghost ib: int = 24 * (b@.len() as int);
    if blocks.len() == 0 {
        return if doc {
            chars_of("/** */")
        } else {
            chars_of("/* */")
        };
    }
    match collapse(&blocks, doc, indent, own_line, cfg, width, Ghost(w), Ghost(ib)) {
        Some(line) => {
            return line;
        },
        None => {},
    }
    let prefix: usize = if cfg.leading_asterisks {
        3
    } else {
        1
    };
    let room = width.saturating_sub(indent.saturating_add(prefix));
    let budget = if room >= 16 {
        room
    } else {
        16
    };
    assert(budget as int == comment_budget(indent as int, *cfg, width as int));
    let ghost bs = blocks_view(blocks@);
    if !cfg.break_inside_inline_tags {
        join_all(&mut blocks, budget, Ghost(w), Ghost(ib));
    }
    let ghost bs2 = blocks_view(blocks@);
    assert(bs2 == if cfg.break_inside_inline_tags {
        bs
    } else {
        joined(bs, budget as int)
    });
    proof {
        assert forall|k: int| 0 <= k < blocks@.len() implies head_fits(#[trigger] blocks@[k]@) by {
            assert(bs2[k] == blocks@[k]@);
            assert(block_ready(bs2[k], w, ib));
            match bs2[k] {
                BlockView::Tag(n, a, ws) => {
                    lemma_tt_nonneg(ws, ws.len() as int);
                },
                _ => {},
            }
        }
    }
    let cols = tag_columns(&blocks, cfg.tag_alignment);
    proof {
        lemma_tag_columns_unique(bs2, cfg.tag_alignment, cols@);
        lemma_column_bound(bs2, cfg.tag_alignment, cols@, w, ib);
    }
    let open = if doc {
        "/**"
    } else {
        "/*"
    };
    let mut writer = Writer { out: chars_of(open), seen_tag: false, blank_written: false, tag_pad: 0 };
    let ghost cols_s = cols@;
    let mut at: usize = 0;
    while at < blocks.len()
        invariant
            at <= blocks@.len(),
            bs2 == blocks_view(blocks@),
            cols@ == cols_s,
            cols_s.len() == blocks@.len(),
            forall|k: int| 0 <= k < cols_s.len() ==> (#[trigger] cols_s[k] matches Some(c) ==> c <= 2 * w + 1),
            blocks_ready(bs2, w, ib),
            0 <= w,
            0 <= ib,
            6 * w + 12 <= usize::MAX,
            ib + 2 * w + 2 + continuation_cols <= usize::MAX,
            writer.tag_pad <= 2 * w + 2 + continuation_cols,
            writer@ == render_upto(bs2, at as int, opener(doc), cols_s, *cfg, budget as int, continuation_cols),
        decreases blocks@.len() - at,
    {
        writer.write_block(&blocks, at, &cols, cfg, budget, continuation_cols, Ghost(w), Ghost(ib));
        at += 1;
    }
    let mut out = writer.out;
    out.push('\n');
    if cfg.leading_asterisks {
        out.push(' ');
    }
    out.push('*');
    out.push('/');
    proof {
        reveal_strlit("*/");
        assert(out@ =~= written(bs2, doc, *cfg, budget as int, continuation_cols));
    }
    out
}

/// Which comment a comment is.
#[derive(Debug, Clone, Copy, PartialEq, Eq, Structural)]
pub enum CommentKind {
    /// A `//` comment.
    Line,
    /// A `/* … */` comment.
    Block,
    /// A `/** … */` Javadoc comment.
    Doc,
}

/// Where the comment being rendered sits.
///
/// `own_line` is about the output being built, `alone_on_line` about the source as written: a
/// rule that read the wrong one would turn a `/* x */` written mid-expression into a line
/// comment and push the code after it down a line.
#[derive(Debug, Clone, Copy)]
pub struct Placement {
    /// The comment stands in the file's header region, before any declaration.
    pub is_header: bool,
    /// The output gives the comment a line of its own.
    pub own_line: bool,
    /// The source gave the comment a line of its own, with nothing else on it.
    pub alone_on_line: bool,
}

/// The text a comment is emitted as: an own-line block comment as line comments when block
/// comments are normalised; as written, moved to its column, when reflow of its kind is off or
/// it is the file's header and headers are not reflowed; otherwise a `//` comment wrapped at
/// `width` and a block or Javadoc comment reflowed.
pub open spec fn render_spec(
    text: Seq<char>,
    kind: CommentKind,
    indent: int,
    column: int,
    at: Placement,
    cfg: Comments,
    code: Option<CodeIndent>,
    width: int,
    continuation_cols: usize,
) -> Seq<char> {
    if kind == CommentKind::Block && at.alone_on_line && cfg.normalize_block_comments {
        to_line_comments_spec(text, indent as nat)
    } else {
        let enabled = match kind {
            CommentKind::Line => cfg.format_line,
            CommentKind::Block => cfg.format_block,
            CommentKind::Doc => cfg.format_javadoc,
        };
        if !enabled || (at.is_header && !cfg.format_header) {
            shift_spec(text, indent, column)
        } else if kind == CommentKind::Line {
            render_line_spec(text, indent, width)
        } else {
            render_block_spec(text, kind == CommentKind::Doc, indent, column, at.own_line, cfg, code, width, continuation_cols)
        }
    }
}

/// The text to emit for a comment at `indent`, reflowed when the rule for its kind is on.
/// `width` is the comment width at that indent; `continuation_cols` the step a tag's
/// description continues at when descriptions are indented.
pub fn render(
    text: &[char],
    kind: CommentKind,
    indent: usize,
    column: usize,
    at: Placement,
    cfg: &Comments,
    layout: &Layout,
    width: usize,
    continuation_cols: usize,
) -> (r: Vec<char>)
    requires
        kind == CommentKind::Line ==> indent + 2 * text@.len() + 6 <= usize::MAX,
        kind != CommentKind::Line ==> 4 * text@.len() + 4 <= i32::MAX,
        kind != CommentKind::Line ==> 32 * text@.len() + continuation_cols + 64 <= usize::MAX,
        kind != CommentKind::Line && cfg.format_source_in_comments ==> layout.tab_width > 0,
    ensures
        r@ == render_spec(
            text@,
            kind,
            indent as int,
            column as int,
            at,
            *cfg,
            code_indent_spec(*cfg, *layout),
            width as int,
            continuation_cols,
        ),
{
    if kind == CommentKind::Block && at.alone_on_line && cfg.normalize_block_comments {
        return to_line_comments(text, indent);
    }
    let enabled = match kind {
        CommentKind::Line => cfg.format_line,
        CommentKind::Block => cfg.format_block,
        CommentKind::Doc => cfg.format_javadoc,
    };
    if !enabled || (at.is_header && !cfg.format_header) {
        return shift(text, indent, column);
    }
    match kind {
        CommentKind::Line => render_line(text, indent, width),
        _ => render_block(text, kind == CommentKind::Doc, indent, column, at.own_line, cfg, layout, width, continuation_cols),
    }
}

/// Whether a `/* */` comment is reflowed turns on `format_block` alone: unless it becomes line
/// comments, a block comment is reflowed — as a block comment, not as Javadoc — exactly when
/// `format_block` is on and it is not a header held back; otherwise it is only moved to its
/// column, whatever `format_javadoc` and `format_line` say.
pub proof fn law_a_block_comment_answers_to_format_block(
    text: Seq<char>,
    indent: int,
    column: int,
    at: Placement,
    cfg: Comments,
    code: Option<CodeIndent>,
    width: int,
    continuation_cols: usize,
)
    requires
        !(at.alone_on_line && cfg.normalize_block_comments),
    ensures
        !cfg.format_block ==> render_spec(text, CommentKind::Block, indent, column, at, cfg, code, width, continuation_cols)
            == shift_spec(text, indent, column),
        cfg.format_block && !(at.is_header && !cfg.format_header) ==> render_spec(
            text,
            CommentKind::Block,
            indent,
            column,
            at,
            cfg,
            code,
            width,
            continuation_cols,
        ) == render_block_spec(text, false, indent, column, at.own_line, cfg, code, width, continuation_cols),
{
}

/// Whether a Javadoc comment is reflowed turns on `format_javadoc` alone: it is reflowed as
/// Javadoc exactly when `format_javadoc` is on and it is not a header held back; otherwise it is
/// only moved to its column, whatever `format_block` and `format_line` say.
pub proof fn law_a_javadoc_answers_to_format_javadoc(
    text: Seq<char>,
    indent: int,
    column: int,
    at: Placement,
    cfg: Comments,
    code: Option<CodeIndent>,
    width: int,
    continuation_cols: usize,
)
    ensures
        !cfg.format_javadoc ==> render_spec(text, CommentKind::Doc, indent, column, at, cfg, code, width, continuation_cols)
            == shift_spec(text, indent, column),
        cfg.format_javadoc && !(at.is_header && !cfg.format_header) ==> render_spec(
            text,
            CommentKind::Doc,
            indent,
            column,
            at,
            cfg,
            code,
            width,
            continuation_cols,
        ) == render_block_spec(text, true, indent, column, at.own_line, cfg, code, width, continuation_cols),
{
}

/// Whether a `//` comment is wrapped turns on `format_line` alone: it is wrapped exactly when
/// `format_line` is on and it is not a header held back; otherwise it is only moved to its
/// column, whatever `format_block` and `format_javadoc` say.
pub proof fn law_a_line_comment_answers_to_format_line(
    text: Seq<char>,
    indent: int,
    column: int,
    at: Placement,
    cfg: Comments,
    code: Option<CodeIndent>,
    width: int,
    continuation_cols: usize,
)
    ensures
        !cfg.format_line ==> render_spec(text, CommentKind::Line, indent, column, at, cfg, code, width, continuation_cols)
            == shift_spec(text, indent, column),
        cfg.format_line && !(at.is_header && !cfg.format_header) ==> render_spec(
            text,
            CommentKind::Line,
            indent,
            column,
            at,
            cfg,
            code,
            width,
            continuation_cols,
        ) == render_line_spec(text, indent, width),
{
}

} // verus!
