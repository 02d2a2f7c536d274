//! How much prose a comment body can make: every token is no longer than the text it came
//! from, so the tokens a line turns into weigh at most twice the line. The reader's arithmetic
//! stays inside its integer types because of it.

use vstd::prelude::*;

use crate::javadoc::tokens::{
    is_known_tag_spec, known_tags, lemma_tokenize_last, lemma_tokenize_step, lemma_ws_runs_step,
    run_len, standardize_tag_spec, tag_inside, tag_name, text_total, tokenize_rest, tokenize_spec,
    tokens_fold, ws_runs, strip_leading,
};
use crate::config::{Comments, ParagraphTags};
use crate::javadoc::blocks::{block_tag_spec, paragraph_line_spec, request_blank_spec, tokenize_all, BlockView};
use crate::javadoc::lines::{
    list_depth_spec, list_tags, paragraph_open_spec, split_html_comment_spec,
};
use crate::javadoc::parse::{
    fence_parts, fence_step, flush_st, line_step, open_fence, open_fence_prep, open_fence_region,
    push_st, release_st, request_st, st_close_list, st_comment, st_empty, st_heading, st_html_block,
    st_indents, st_para, st_quote, st_tag, st_words, step, tokens_of_spec, words_fold, ReadState,
};
use crate::strs::{find_char_from, lemma_find_char_props, lower, starts_with, trim, trim_end, trim_start};

verus! {

/// The weight of tokens: each token's length and one more.
pub open spec fn tt(ws: Seq<(Seq<char>, bool)>) -> int {
    text_total(ws, ws.len() as int)
}

/// A total over a prefix depends on that prefix alone.
pub proof fn lemma_total_agree(a: Seq<(Seq<char>, bool)>, b: Seq<(Seq<char>, bool)>, k: int)
    requires
        0 <= k <= a.len(),
        k <= b.len(),
        forall|i: int| 0 <= i < k ==> a[i] == b[i],
    ensures
        text_total(a, k) == text_total(b, k),
    decreases k,
{
    if k > 0 {
        lemma_total_agree(a, b, k - 1);
    }
}

/// The weight of two runs of tokens is the sum of theirs.
pub proof fn lemma_tt_concat(a: Seq<(Seq<char>, bool)>, b: Seq<(Seq<char>, bool)>)
    ensures
        tt(a + b) == tt(a) + tt(b),
{
    lemma_tt_concat_upto(a, b, b.len() as int);
}

/// The weight of `a` and the first `k` tokens of `b`.
proof fn lemma_tt_concat_upto(a: Seq<(Seq<char>, bool)>, b: Seq<(Seq<char>, bool)>, k: int)
    requires
        0 <= k <= b.len(),
    ensures
        text_total(a + b, a.len() + k) == tt(a) + text_total(b, k),
    decreases k,
{
    if k > 0 {
        lemma_tt_concat_upto(a, b, k - 1);
        assert((a + b)[a.len() + k - 1] == b[k - 1]);
    } else {
        lemma_total_agree(a + b, a, a.len() as int);
    }
}

/// One token weighs its length and one more.
pub proof fn lemma_tt_single(x: (Seq<char>, bool))
    ensures
        tt(seq![x]) == x.0.len() + 1,
{
    assert(text_total(seq![x], 0) == 0);
    assert(seq![x][0] == x);
}

/// A weight is never negative.
pub proof fn lemma_tt_nonneg(ws: Seq<(Seq<char>, bool)>, k: int)
    ensures
        text_total(ws, k) >= 0,
    decreases k,
{
    if k > 0 {
        lemma_tt_nonneg(ws, k - 1);
    }
}

/// The tag names the lexer knows are all non-empty.
proof fn lemma_known_tags_nonempty()
    ensures
        forall|i: int| 0 <= i < known_tags().len() ==> known_tags()[i]@.len() > 0,
{
    reveal_strlit("pre");
    reveal_strlit("code");
    reveal_strlit("table");
    reveal_strlit("ul");
    reveal_strlit("ol");
    reveal_strlit("dl");
    reveal_strlit("li");
    reveal_strlit("dt");
    reveal_strlit("dd");
    reveal_strlit("p");
    reveal_strlit("blockquote");
    reveal_strlit("br");
    reveal_strlit("a");
    assert forall|i: int| 0 <= i < known_tags().len() implies known_tags()[i]@.len() > 0 by {
        if i == 0 {
        }
    }
}

/// A tag the lexer knows has something inside its brackets.
pub proof fn lemma_known_tag_nonempty(x: Seq<char>)
    ensures
        is_known_tag_spec(x) ==> x.len() > 0,
{
    if x.len() == 0 {
        assert(trim_start(x) == x);
        assert(trim_end(x) == x);
        assert(trim(x) =~= Seq::<char>::empty());
        assert(strip_leading(Seq::<char>::empty(), '/') == Seq::<char>::empty());
        assert(trim_start(Seq::<char>::empty()) == Seq::<char>::empty());
        assert(tag_name(Seq::<char>::empty()) == Seq::<char>::empty());
        assert(lower(Seq::<char>::empty()) =~= Seq::<char>::empty());
        lemma_known_tags_nonempty();
        if is_known_tag_spec(x) {
            let i = choose|i: int| 0 <= i < known_tags().len() && lower(Seq::<char>::empty()) == known_tags()[i]@;
            assert(known_tags()[i]@.len() > 0);
        }
    }
}

/// A tag in its canonical spelling weighs no more than twice the text it was written as.
proof fn lemma_standardize_size(seg: Seq<char>)
    requires
        seg.len() >= 3,
    ensures
        standardize_tag_spec(seg).len() + 1 <= 2 * seg.len(),
{
    reveal_strlit("br");
    reveal_strlit("p");
}

/// The tokens of a run weigh no more than twice the run.
pub proof fn lemma_tokenize_rest_size(rest: Seq<char>, space: bool)
    ensures
        tt(tokenize_rest(rest, space)) <= 2 * rest.len(),
    decreases rest.len(),
{
    lemma_find_char_props(rest, '<', 0);
    match find_char_from(rest, '<', 0) {
        None => {
            lemma_tokenize_last(rest, space);
            if rest.len() > 0 {
                lemma_tt_single((rest, space));
            }
        },
        Some(at) => {
            lemma_find_char_props(rest, '>', at);
            if rest.len() > 0 {
                lemma_tt_single((rest, space));
            }
            match find_char_from(rest, '>', at) {
                None => {
                    lemma_tokenize_last(rest, space);
                },
                Some(close) => {
                    if !is_known_tag_spec(rest.subrange(at + 1, close)) {
                        lemma_tokenize_last(rest, space);
                    } else {
                        lemma_tokenize_step(rest, space, at, close);
                        lemma_known_tag_nonempty(rest.subrange(at + 1, close));
                        let seg = rest.subrange(at, close + 1);
                        let tag = standardize_tag_spec(seg);
                        lemma_standardize_size(seg);
                        let next = if crate::javadoc::tokens::is_item_tag_spec(tag) {
                            trim_start(rest.skip(close + 1))
                        } else {
                            rest.skip(close + 1)
                        };
                        crate::strs::lemma_trim_start_len(rest.skip(close + 1));
                        lemma_tokenize_rest_size(next, false);
                        let pre: Seq<(Seq<char>, bool)> = if at > 0 {
                            seq![(rest.take(at), space)]
                        } else {
                            Seq::empty()
                        };
                        let mid = seq![(tag, at == 0 && space)];
                        lemma_tt_concat(pre, mid);
                        lemma_tt_concat(pre + mid, tokenize_rest(next, false));
                        lemma_tt_single((tag, at == 0 && space));
                        if at > 0 {
                            lemma_tt_single((rest.take(at), space));
                        } else {
                            assert(text_total(pre, 0) == 0);
                        }
                    }
                },
            }
        },
    }
}

/// The tokens of a run weigh no more than twice the run.
pub proof fn lemma_tokenize_size(run: Seq<char>, space: bool)
    ensures
        tt(tokenize_spec(run, space)) <= 2 * run.len(),
{
    if starts_with(run, "{@"@) {
        reveal_strlit("{@");
        lemma_tt_single((run, space));
    } else {
        lemma_tokenize_rest_size(run, space);
    }
}

/// The total length of some runs.
pub open spec fn runs_len(runs: Seq<Seq<char>>) -> int
    decreases runs.len(),
{
    if runs.len() == 0 {
        0
    } else {
        runs[0].len() + runs_len(runs.drop_first())
    }
}

/// The runs of a line are no longer than the line.
pub proof fn lemma_ws_runs_len(s: Seq<char>)
    ensures
        runs_len(ws_runs(s)) <= s.len(),
    decreases s.len(),
{
    lemma_ws_runs_step(s);
    crate::strs::lemma_trim_start_len(s);
    let t = trim_start(s);
    if t.len() > 0 {
        crate::strs::lemma_trim_start_no_ws(s);
        crate::javadoc::tokens::lemma_run_len(t);
        let k = run_len(t) as int;
        lemma_ws_runs_len(t.skip(k));
        let runs = seq![t.take(k)] + ws_runs(t.skip(k));
        assert(runs.drop_first() =~= ws_runs(t.skip(k)));
    }
}

/// Tokens added run by run weigh no more than twice the runs.
pub proof fn lemma_tokens_fold_size(acc: Seq<(Seq<char>, bool)>, runs: Seq<Seq<char>>)
    ensures
        tt(tokens_fold(acc, runs)) <= tt(acc) + 2 * runs_len(runs),
    decreases runs.len(),
{
    if runs.len() > 0 {
        let space = !(acc.len() > 0 && crate::javadoc::tokens::is_item_tag_spec(acc.last().0));
        lemma_tokenize_size(runs[0], space);
        lemma_tt_concat(acc, tokenize_spec(runs[0], space));
        lemma_tokens_fold_size(acc + tokenize_spec(runs[0], space), runs.drop_first());
    }
}

/// The tokens of a line, after some others, weigh no more than twice the line.
pub proof fn lemma_tokens_of_size(acc: Seq<(Seq<char>, bool)>, line: Seq<char>)
    ensures
        tt(tokens_fold(acc, ws_runs(line))) <= tt(acc) + 2 * line.len(),
{
    lemma_tokens_fold_size(acc, ws_runs(line));
    lemma_ws_runs_len(line);
}


/// The weight of a block's tokens, and of a block tag's name and argument.
pub open spec fn block_weight_of(b: BlockView) -> int {
    match b {
        BlockView::Prose(ws, _, _) => tt(ws),
        BlockView::Tag(n, a, ws) => tt(ws) + n.len() + match a {
            Some(x) => x.len() as int,
            None => 0int,
        },
        _ => 0,
    }
}

/// The weight of the tokens of some blocks.
pub open spec fn blocks_weight(bs: Seq<BlockView>) -> int
    decreases bs.len(),
{
    if bs.len() == 0 {
        0
    } else {
        blocks_weight(bs.drop_last()) + block_weight_of(bs.last())
    }
}

/// `|x|`.
pub open spec fn abs(x: int) -> int {
    if x < 0 {
        -x
    } else {
        x
    }
}

/// What a reader's state weighs: its tokens, twice a waiting `<p>`, its list depth and its
/// brace depth.
pub open spec fn weight(st: ReadState) -> int {
    blocks_weight(st.blocks) + tt(st.prose) + match st.pending {
        Some(g) => 2 * g.len(),
        None => 0,
    } + st.depth + abs(st.brace_depth)
}

/// A block's weight is never negative.
pub proof fn lemma_block_weight_nonneg(b: BlockView)
    ensures
        block_weight_of(b) >= 0,
{
    match b {
        BlockView::Prose(ws, _, _) => lemma_tt_nonneg(ws, ws.len() as int),
        BlockView::Tag(_, _, ws) => lemma_tt_nonneg(ws, ws.len() as int),
        _ => {},
    }
}

/// The weight of some blocks is never negative, and bounds each of theirs.
pub proof fn lemma_blocks_weight_bounds(bs: Seq<BlockView>)
    ensures
        blocks_weight(bs) >= 0,
        forall|k: int| 0 <= k < bs.len() ==> block_weight_of(#[trigger] bs[k]) <= blocks_weight(bs),
    decreases bs.len(),
{
    if bs.len() > 0 {
        lemma_blocks_weight_bounds(bs.drop_last());
        lemma_block_weight_nonneg(bs.last());
        assert forall|k: int| 0 <= k < bs.len() implies block_weight_of(#[trigger] bs[k]) <= blocks_weight(bs) by {
            if k < bs.len() - 1 {
                assert(bs[k] == bs.drop_last()[k]);
            }
        }
    }
}

/// A pushed block adds its weight.
pub proof fn lemma_push_weight(bs: Seq<BlockView>, b: BlockView)
    ensures
        blocks_weight(bs.push(b)) == blocks_weight(bs) + block_weight_of(b),
{
    assert(bs.push(b).drop_last() =~= bs);
}

/// Asking for a blank line weighs nothing.
pub proof fn lemma_request_weight(st: ReadState)
    ensures
        weight(request_st(st)) == weight(st),
{
    let bs = st.blocks;
    if bs.len() > 0 {
        if bs.last() is Blank {
            assert(bs.update(bs.len() - 1, BlockView::Blank(true)).drop_last() =~= bs.drop_last());
        } else {
            lemma_push_weight(bs, BlockView::Blank(true));
        }
    }
}

/// Flushing the prose moves its weight into the blocks.
pub proof fn lemma_flush_weight(st: ReadState)
    ensures
        weight(flush_st(st)) == weight(st),
{
    if st.prose.len() > 0 {
        lemma_push_weight(st.blocks, BlockView::Prose(st.prose, st.first, st.rest));
        assert(tt(Seq::<(Seq<char>, bool)>::empty()) == 0);
    }
}

/// Handing back a waiting `<p>` weighs no more than it did waiting.
pub proof fn lemma_release_weight(st: ReadState)
    ensures
        weight(release_st(st)) <= weight(st),
{
    match st.pending {
        Some(g) => {
            lemma_tokenize_size(g, true);
            lemma_tt_concat(st.prose, tokenize_spec(g, true));
        },
        None => {},
    }
}

/// A pushed block adds its weight to the state.
pub proof fn lemma_push_st_weight(st: ReadState, b: BlockView)
    ensures
        weight(push_st(st, b)) == weight(st) + block_weight_of(b),
{
    lemma_push_weight(st.blocks, b);
}

/// Words added run by run weigh no more than twice the runs.
pub proof fn lemma_words_fold_weight(st: ReadState, runs: Seq<Seq<char>>)
    ensures
        weight(words_fold(st, runs)) <= weight(st) + 2 * runs_len(runs),
    decreases runs.len(),
{
    if runs.len() > 0 {
        let space = !(st.prose.len() > 0 && crate::javadoc::tokens::is_item_tag_spec(st.prose.last().0));
        match st.pending {
            Some(g) => {
                lemma_tokenize_size(g + runs[0], space);
                lemma_tt_concat(st.prose, tokenize_spec(g + runs[0], space));
            },
            None => {
                lemma_tokenize_size(runs[0], space);
                lemma_tt_concat(st.prose, tokenize_spec(runs[0], space));
            },
        }
        let next = match st.pending {
            Some(g) => ReadState { prose: st.prose + tokenize_spec(g + runs[0], space), pending: None, ..st },
            None => ReadState { prose: st.prose + tokenize_spec(runs[0], space), ..st },
        };
        lemma_words_fold_weight(next, runs.drop_first());
    }
}

/// A line's words weigh no more than twice the line.
pub proof fn lemma_st_words_weight(st: ReadState, line: Seq<char>)
    ensures
        weight(st_words(st, line)) <= weight(st) + 2 * line.len(),
{
    lemma_ws_runs_len(line);
    if st.blocks.len() > 0 && st.blocks.last() is Tag && st.prose.len() == 0 {
        match st.blocks.last() {
            BlockView::Tag(n, a, ws) => {
                let bs = st.blocks;
                let nb = BlockView::Tag(n, a, tokens_fold(ws, ws_runs(line)));
                assert(bs.update(bs.len() - 1, nb).drop_last() =~= bs.drop_last());
                lemma_tokens_of_size(ws, line);
            },
            _ => {},
        }
    } else {
        lemma_words_fold_weight(st, ws_runs(line));
    }
}

/// The list depth grows by no more than the line.
pub proof fn lemma_list_depth_growth(depth: int, line: Seq<char>)
    requires
        depth >= 0,
    ensures
        0 <= list_depth_spec(depth, line) <= depth + line.len(),
{
    lemma_list_tags_count(lower(line), line.len() as int);
}

/// The list tags counted before `upto` are no more than `upto`, and never negative.
pub proof fn lemma_list_tags_count(l: Seq<char>, upto: int)
    ensures
        0 <= list_tags(l, upto).0 <= if upto < 0 {
            0
        } else {
            upto
        },
        0 <= list_tags(l, upto).1,
    decreases upto,
{
    if upto > 0 {
        lemma_list_tags_count(l, upto - 1);
    }
}

/// The indents a line moves through, and its words, weigh no more than three times the line.
pub proof fn lemma_st_indents_weight(st: ReadState, line: Seq<char>, cfg: Comments)
    ensures
        weight(st_indents(st, line, cfg)) <= weight(st) + 3 * line.len(),
{
    if cfg.format_html {
        lemma_list_depth_growth(st.depth as int, line);
        let (f, r) = if st.prose.len() == 0 {
            if cfg.set_off_html_lists {
                crate::javadoc::lines::list_indents_spec(st.depth as int, line)
            } else {
                (0int, 0int)
            }
        } else {
            (st.first as int, st.rest as int)
        };
        let st2 = ReadState { first: f as nat, rest: r as nat, depth: list_depth_spec(st.depth as int, line) as nat, ..st };
        lemma_st_words_weight(st2, line);
    } else {
        lemma_st_words_weight(st, line);
    }
}

/// A block of a line's tokens, between requested blank lines, weighs no more than twice the
/// line.
proof fn lemma_standalone_weight(st: ReadState, line: Seq<char>)
    ensures
        weight(request_st(push_st(request_st(flush_st(release_st(st))), BlockView::Prose(tokens_of_spec(line), 0, 0))))
            <= weight(st) + 2 * line.len(),
{
    lemma_release_weight(st);
    lemma_flush_weight(release_st(st));
    lemma_request_weight(flush_st(release_st(st)));
    let st1 = request_st(flush_st(release_st(st)));
    lemma_push_st_weight(st1, BlockView::Prose(tokens_of_spec(line), 0, 0));
    lemma_request_weight(push_st(st1, BlockView::Prose(tokens_of_spec(line), 0, 0)));
    lemma_tokens_of_size(Seq::empty(), line);
    assert(tt(Seq::<(Seq<char>, bool)>::empty()) == 0);
}

/// A heading, or the rules after it, weigh no more than three times the line.
pub proof fn lemma_st_heading_weight(st: ReadState, line: Seq<char>, cfg: Comments)
    ensures
        weight(st_heading(st, line, cfg)) <= weight(st) + 3 * line.len(),
{
    if cfg.format_html && crate::javadoc::lines::is_heading_spec(line) {
        lemma_standalone_weight(st, line);
    } else {
        lemma_st_indents_weight(st, line, cfg);
    }
}

/// An HTML block element, and the rules after it, weigh no more than three times the line.
pub proof fn lemma_st_html_block_weight(st: ReadState, line: Seq<char>, cfg: Comments)
    ensures
        weight(st_html_block(st, line, cfg)) <= weight(st) + 3 * line.len(),
{
    if cfg.format_html && crate::javadoc::lines::is_html_block_spec(line, cfg.tables_are_preformatted) {
        lemma_flush_weight(st);
        let st1 = flush_st(st);
        lemma_request_weight(st1);
        if cfg.set_off_html_lists && st1.depth == 0 && crate::javadoc::lines::opens_list_spec(line) {
            lemma_st_heading_weight(request_st(st1), line, cfg);
        } else {
            lemma_st_heading_weight(st1, line, cfg);
        }
    } else {
        lemma_st_heading_weight(st, line, cfg);
    }
}

/// A list's closing tag, or the rules after it, weigh no more than three times the line.
pub proof fn lemma_st_close_list_weight(st: ReadState, line: Seq<char>, cfg: Comments)
    ensures
        weight(st_close_list(st, line, cfg)) <= weight(st) + 3 * line.len(),
{
    if cfg.format_html && cfg.set_off_html_lists && crate::javadoc::lines::closes_list_spec(line) {
        lemma_release_weight(st);
        lemma_flush_weight(release_st(st));
        let st1 = flush_st(release_st(st));
        let (lf, lr) = crate::javadoc::lines::list_indents_spec(st1.depth as int, line);
        let depth = list_depth_spec(st1.depth as int, line) as nat;
        lemma_list_depth_growth(st1.depth as int, line);
        let b = BlockView::Prose(tokens_of_spec(line), lf as nat, lr as nat);
        lemma_push_st_weight(st1, b);
        lemma_tokens_of_size(Seq::empty(), line);
        assert(tt(Seq::<(Seq<char>, bool)>::empty()) == 0);
        let st2 = ReadState { depth, ..push_st(st1, b) };
        lemma_request_weight(st2);
    } else {
        lemma_st_html_block_weight(st, line, cfg);
    }
}

/// A blockquote tag, or the rules after it, weigh no more than three times the line.
pub proof fn lemma_st_quote_weight(st: ReadState, line: Seq<char>, cfg: Comments)
    ensures
        weight(st_quote(st, line, cfg)) <= weight(st) + 3 * line.len(),
{
    if cfg.format_html && crate::javadoc::lines::is_blockquote_spec(line) {
        lemma_standalone_weight(st, line);
    } else {
        lemma_st_close_list_weight(st, line, cfg);
    }
}

/// What follows a leading `<p>` is three characters shorter than the line at least.
pub proof fn lemma_paragraph_open_len(line: Seq<char>)
    ensures
        paragraph_open_spec(line) matches Some(after) ==> after.len() + 3 <= line.len(),
{
    if line.len() >= 2 {
        let a = trim_start(line.skip(2));
        crate::strs::lemma_trim_start_len(line.skip(2));
        let b = if a.len() > 0 && a[0] == '/' {
            a.skip(1)
        } else {
            a
        };
        crate::strs::lemma_trim_start_len(b);
        let c = trim_start(b);
        if c.len() > 0 {
            crate::strs::lemma_trim_start_len(c.skip(1));
        }
    }
}

/// A leading `<p>`, or the rules after it, weigh no more than four times the line.
pub proof fn lemma_st_para_weight(st: ReadState, line: Seq<char>, cfg: Comments)
    ensures
        weight(st_para(st, line, cfg)) <= weight(st) + 4 * line.len(),
{
    if cfg.format_html && cfg.paragraph_tags == ParagraphTags::Leading && paragraph_open_spec(line) is Some {
        let after = paragraph_open_spec(line)->0;
        lemma_paragraph_open_len(line);
        lemma_flush_weight(st);
        let st1 = flush_st(st);
        let st2 = if exists|i: int| 0 <= i < st1.blocks.len() && !(#[trigger] st1.blocks[i] is Blank) {
            let st3 = if st1.depth == 0 {
                request_st(st1)
            } else {
                st1
            };
            lemma_request_weight(st1);
            let st4 = if st3.pending is Some {
                push_st(st3, paragraph_line_spec(st3.first))
            } else {
                st3
            };
            lemma_push_st_weight(st3, paragraph_line_spec(st3.first));
            reveal_strlit("<p>");
            lemma_tt_single(("<p>"@, false));
            assert(weight(ReadState { pending: Some("<p>"@), ..st4 }) <= weight(st) + 12);
            ReadState { pending: Some("<p>"@), ..st4 }
        } else {
            st1
        };
        if after.len() > 0 {
            lemma_st_quote_weight(st2, after, cfg);
        }
    } else {
        lemma_st_quote_weight(st, line, cfg);
    }
}

/// The runs of a line after its first are no longer than it.
proof fn lemma_runs_skip_len(runs: Seq<Seq<char>>, k: int)
    requires
        0 <= k <= runs.len(),
    ensures
        runs_len(runs.skip(k)) <= runs_len(runs),
    decreases k,
{
    if k > 0 {
        lemma_runs_skip_len(runs.drop_first(), k - 1);
        assert(runs.drop_first().skip(k - 1) =~= runs.skip(k));
        assert(runs_len(runs) == runs[0].len() + runs_len(runs.drop_first()));
    } else {
        assert(runs.skip(0) =~= runs);
    }
}

/// The first two runs, and the runs after them, are no longer than all the runs.
proof fn lemma_runs_prefix(runs: Seq<Seq<char>>)
    ensures
        runs.len() >= 1 ==> runs[0].len() + runs_len(runs.skip(1)) <= runs_len(runs),
        runs.len() >= 2 ==> runs[0].len() + runs[1].len() + runs_len(runs.skip(2)) <= runs_len(runs),
{
    if runs.len() >= 1 {
        assert(runs.skip(1) =~= runs.drop_first());
        if runs.len() >= 2 {
            assert(runs.drop_first().skip(1) =~= runs.skip(2));
            assert(runs.drop_first().drop_first() =~= runs.skip(2));
            assert(runs_len(runs.drop_first()) == runs[1].len() + runs_len(runs.drop_first().drop_first()));
        }
    }
}

/// Tokens of spaced runs weigh no more than twice the runs.
proof fn lemma_tokenize_all_size(runs: Seq<Seq<char>>)
    ensures
        tt(tokenize_all(runs)) <= 2 * runs_len(runs),
    decreases runs.len(),
{
    if runs.len() > 0 {
        lemma_tokenize_size(runs[0], true);
        lemma_tokenize_all_size(runs.drop_first());
        lemma_tt_concat(tokenize_spec(runs[0], true), tokenize_all(runs.drop_first()));
    }
}

/// A block tag, or the rules after it, weigh no more than four times the line.
pub proof fn lemma_st_tag_weight(st: ReadState, line: Seq<char>, cfg: Comments)
    ensures
        weight(st_tag(st, line, cfg)) <= weight(st) + 4 * line.len(),
{
    match block_tag_spec(line) {
        Some((n, a, ws)) => {
            lemma_release_weight(st);
            lemma_flush_weight(release_st(st));
            lemma_push_st_weight(flush_st(release_st(st)), BlockView::Tag(n, a, ws));
            let runs = ws_runs(line.skip(1));
            lemma_ws_runs_len(line.skip(1));
            let from: int = if crate::javadoc::blocks::takes_argument(runs[0]) && runs.len() > 1 {
                2
            } else {
                1
            };
            lemma_runs_skip_len(runs, from);
            lemma_tokenize_all_size(runs.skip(from));
            lemma_runs_prefix(runs);
        },
        None => lemma_st_para_weight(st, line, cfg),
    }
}

/// A blank line, or the rules after it, weigh no more than four times the line.
pub proof fn lemma_st_empty_weight(st: ReadState, line: Seq<char>, cfg: Comments)
    ensures
        weight(st_empty(st, line, cfg)) <= weight(st) + 4 * line.len(),
{
    if line.len() == 0 {
        lemma_flush_weight(st);
        lemma_push_st_weight(flush_st(st), BlockView::Blank(false));
    } else {
        lemma_st_tag_weight(st, line, cfg);
    }
}

/// The three parts of a line split at an HTML comment are no longer than the line, and the
/// comment is not empty.
pub proof fn lemma_split_html_comment_len(line: Seq<char>)
    ensures
        split_html_comment_spec(line) matches Some((b, c, a)) ==> b.len() + c.len() + a.len() <= line.len() && c.len()
            >= 1,
{
    crate::strs::lemma_find_from_props(line, "<!--"@, 0);
    match crate::strs::find_from(line, "<!--"@, 0) {
        Some(open) => {
            crate::strs::lemma_find_from_props(line, "-->"@, open);
            reveal_strlit("-->");
            match crate::strs::find_from(line, "-->"@, open) {
                Some(c) => {
                    let close = c + 3;
                    crate::javadoc::render::lemma_trim_end_len(line.take(open));
                    crate::strs::lemma_trim_start_len(line.skip(close));
                },
                None => {},
            }
        },
        None => {},
    }
}

/// An HTML comment, or the rules after it, weigh no more than four times the line.
pub proof fn lemma_st_comment_weight(st: ReadState, line: Seq<char>, cfg: Comments)
    ensures
        weight(st_comment(st, line, cfg)) <= weight(st) + 4 * line.len(),
{
    if cfg.format_html && split_html_comment_spec(line) is Some {
        let (before, comment, after) = split_html_comment_spec(line)->0;
        lemma_split_html_comment_len(line);
        let st1 = if before.len() > 0 {
            ReadState { prose: tokens_fold(st.prose, ws_runs(before)), ..st }
        } else {
            st
        };
        lemma_tokens_of_size(st.prose, before);
        lemma_flush_weight(st1);
        let st2 = flush_st(st1);
        lemma_push_st_weight(st2, BlockView::Prose(seq![(comment, false)], st2.first, st2.rest));
        lemma_tt_single((comment, false));
        let st3 = push_st(st2, BlockView::Prose(seq![(comment, false)], st2.first, st2.rest));
        if after.len() > 0 {
            lemma_st_empty_weight(st3, after, cfg);
        }
    } else {
        lemma_st_empty_weight(st, line, cfg);
    }
}

/// The parts of a line that opens a region are no longer than the line.
pub proof fn lemma_fence_parts_len(line0: Seq<char>, tables: bool)
    ensures
        fence_parts(line0, tables).0.len() + fence_parts(line0, tables).1.len() + fence_parts(line0, tables).2.len()
            <= line0.len(),
{
    match crate::javadoc::parse::pre_element(line0, tables) {
        Some((open, close)) => {
            let l = lower(line0);
            crate::strs::lemma_find_from_props(l, "<pre>"@, 0);
            crate::strs::lemma_rfind_props(l, "</pre>"@);
            reveal_strlit("</pre>");
            crate::javadoc::render::lemma_trim_end_len(line0.subrange(open, close + 6));
            crate::javadoc::render::lemma_trim_end_len(line0.take(open));
            crate::strs::lemma_trim_start_len(line0.skip(close + 6));
        },
        None => {},
    }
}

/// Getting ready for a region weighs no more than twice the prose before it.
pub proof fn lemma_open_fence_prep_weight(st: ReadState, before: Seq<char>)
    ensures
        weight(open_fence_prep(st, before)) <= weight(st) + 2 * before.len(),
{
    lemma_release_weight(st);
    let s0 = release_st(st);
    let s1 = if before.len() > 0 {
        ReadState { prose: tokens_fold(s0.prose, ws_runs(before)), ..s0 }
    } else {
        s0
    };
    lemma_tokens_of_size(s0.prose, before);
    lemma_flush_weight(s1);
    lemma_request_weight(flush_st(s1));
}

/// A region opening weighs no more than its line and twice the prose after it.
pub proof fn lemma_open_fence_region_weight(st: ReadState, line: Seq<char>, trailing: Seq<char>, element: bool, tables: bool)
    ensures
        weight(open_fence_region(st, line, trailing, element, tables)) <= weight(st) + line.len() + 2 * trailing.len(),
{
    if crate::javadoc::lines::self_closing_fence_spec(line, tables) {
        lemma_push_st_weight(st, BlockView::Verbatim(seq![line], st.fence_indent));
        let s5 = push_st(st, BlockView::Verbatim(seq![line], st.fence_indent));
        lemma_request_weight(s5);
        let s6 = if s5.depth == 0 && element {
            request_st(s5)
        } else {
            s5
        };
        lemma_tokens_of_size(s6.prose, trailing);
    } else {
        crate::javadoc::blocks::lemma_brace_delta_bound(line);
    }
}

/// A line that opens a region weighs no more than three times the line.
pub proof fn lemma_open_fence_weight(st: ReadState, line0: Seq<char>, cfg: Comments)
    ensures
        weight(open_fence(st, line0, cfg)) <= weight(st) + 3 * line0.len(),
{
    let tables = cfg.tables_are_preformatted;
    let (line, before, trailing) = fence_parts(line0, tables);
    lemma_fence_parts_len(line0, tables);
    lemma_open_fence_prep_weight(st, before);
    lemma_open_fence_region_weight(
        open_fence_prep(st, before),
        line,
        trailing,
        crate::javadoc::parse::pre_element(line0, tables) is Some,
        tables,
    );
}

/// A line of a region weighs no more than itself.
#[verifier::rlimit(60)]
pub proof fn lemma_fence_step_weight(st: ReadState, raw: Seq<char>, cfg: Comments)
    requires
        st.fence is Some,
    ensures
        weight(fence_step(st, raw, cfg).0) <= weight(st) + match st.fence {
            Some((_, true)) => raw.len() as int,
            _ => 0int,
        },
{
    reveal(fence_step);
    let line = trim(raw);
    crate::javadoc::render::lemma_trim_len(raw);
    crate::javadoc::blocks::lemma_brace_delta_bound(line);
    let (lines, braced) = st.fence->0;
    let r = fence_step(st, raw, cfg);
    let bd = if braced {
        st.brace_depth + crate::javadoc::lines::brace_delta_spec(line)
    } else {
        st.brace_depth
    };
    let v0 = trim_end(
        if raw.len() > 0 && raw[0] == ' ' {
            raw.skip(1)
        } else {
            raw
        },
    );
    let closed = if braced {
        bd <= 0
    } else {
        crate::javadoc::lines::closes_fence_spec(line, cfg.tables_are_preformatted)
    };
    if closed {
        let split = if closed && !braced {
            crate::javadoc::lines::split_after_fence_close_spec(v0, cfg.tables_are_preformatted)
        } else {
            None
        };
        let verbatim = match split {
            Some((h, t)) => h,
            None => v0,
        };
        let lines2 = lines.push(verbatim);
        let st1 = ReadState {
            blocks: st.blocks.push(BlockView::Verbatim(crate::javadoc::parse::closed_region(lines2, st.code), st.fence_indent)),
            fence: None,
            brace_depth: bd,
            ..st
        };
        lemma_push_weight(st.blocks, BlockView::Verbatim(crate::javadoc::parse::closed_region(lines2, st.code), st.fence_indent));
        lemma_request_weight(st1);
    }
}

/// A line that does not continue a region: what the state gains, and what goes back to the
/// queue, weigh no more than four times the line.
pub proof fn lemma_line_step_weight(st: ReadState, line0: Seq<char>, cfg: Comments)
    ensures
        weight(line_step(st, line0, cfg).0) + 4 * match line_step(st, line0, cfg).1 {
            Some(t) => t.len() as int,
            None => 0int,
        } <= weight(st) + 4 * line0.len(),
{
    reveal(line_step);
    let dropped = cfg.format_html && cfg.paragraph_tags == ParagraphTags::Leading
        && crate::javadoc::lines::has_paragraph_close_spec(line0);
    let line1 = if dropped {
        trim(crate::javadoc::lines::drop_paragraph_close_spec(line0))
    } else {
        line0
    };
    crate::javadoc::parse::lemma_drop_close_len(line0);
    crate::javadoc::render::lemma_trim_len(crate::javadoc::lines::drop_paragraph_close_spec(line0));
    if !(dropped && line1.len() == 0) {
        let split = if cfg.format_html {
            crate::javadoc::lines::split_block_tag_spec(line1)
        } else {
            None
        };
        crate::javadoc::parse::lemma_split_block_len(line1);
        let (line, tail) = match split {
            Some((tag, t)) => (tag, Some(t)),
            None => (line1, None),
        };
        if crate::javadoc::lines::opens_fence_spec(line, cfg.tables_are_preformatted) {
            lemma_open_fence_weight(st, line, cfg);
        } else {
            lemma_st_comment_weight(st, line, cfg);
        }
    }
}

/// A line of the queue read: what the state gains, and what goes back to the queue, weigh no
/// more than four times the line.
pub proof fn lemma_step_weight(st: ReadState, raw: Seq<char>, cfg: Comments)
    ensures
        weight(step(st, raw, cfg).0) + 4 * match step(st, raw, cfg).1 {
            Some(t) => t.len() as int,
            None => 0int,
        } <= weight(st) + 4 * raw.len(),
{
    crate::javadoc::parse::lemma_step_tail(st, raw, cfg);
    if st.fence is Some {
        lemma_fence_step_weight(st, raw, cfg);
        let (lines, braced) = st.fence->0;
        if braced {
            reveal(fence_step);
            assert(step(st, raw, cfg).1 is None);
        }
    } else {
        crate::javadoc::render::lemma_trim_len(raw);
        lemma_line_step_weight(st, trim(raw), cfg);
    }
}


/// Whether a block's indents are within `bound`.
pub open spec fn block_indents_ok(b: BlockView, bound: int) -> bool {
    match b {
        BlockView::Prose(_, f, r) => f <= bound && r <= bound,
        BlockView::Verbatim(_, f) => f <= bound,
        _ => true,
    }
}

/// Whether every block's indents are within `bound`.
pub open spec fn all_indents_ok(bs: Seq<BlockView>, bound: int) -> bool {
    forall|k: int| 0 <= k < bs.len() ==> block_indents_ok(#[trigger] bs[k], bound)
}

/// Whether a reader's indents, and its blocks', are within `bound`.
pub open spec fn indents_ok(st: ReadState, bound: int) -> bool {
    &&& st.first <= bound
    &&& st.rest <= bound
    &&& st.fence_indent <= bound
    &&& all_indents_ok(st.blocks, bound)
}

/// A block within bounds keeps the blocks within them.
pub proof fn lemma_push_indents(bs: Seq<BlockView>, b: BlockView, bound: int)
    requires
        all_indents_ok(bs, bound),
        block_indents_ok(b, bound),
    ensures
        all_indents_ok(bs.push(b), bound),
{
    assert forall|k: int| 0 <= k < bs.push(b).len() implies block_indents_ok(#[trigger] bs.push(b)[k], bound) by {
        if k < bs.len() {
            assert(bs.push(b)[k] == bs[k]);
        }
    }
}

/// Asking for a blank line keeps the indents within bounds.
pub proof fn lemma_request_indents(st: ReadState, bound: int)
    requires
        indents_ok(st, bound),
    ensures
        indents_ok(request_st(st), bound),
{
    let bs = st.blocks;
    if bs.len() > 0 {
        if bs.last() is Blank {
            let nb = bs.update(bs.len() - 1, BlockView::Blank(true));
            assert forall|k: int| 0 <= k < nb.len() implies block_indents_ok(#[trigger] nb[k], bound) by {
                if k < bs.len() - 1 {
                    assert(nb[k] == bs[k]);
                }
            }
        } else {
            lemma_push_indents(bs, BlockView::Blank(true), bound);
        }
    }
}

/// Flushing the prose keeps the indents within bounds.
pub proof fn lemma_flush_indents(st: ReadState, bound: int)
    requires
        indents_ok(st, bound),
    ensures
        indents_ok(flush_st(st), bound),
{
    if st.prose.len() > 0 {
        lemma_push_indents(st.blocks, BlockView::Prose(st.prose, st.first, st.rest), bound);
    }
}

/// A list's indents are at most six columns a level.
pub proof fn lemma_list_indents_bound(depth: int, line: Seq<char>)
    requires
        depth >= 0,
    ensures
        0 <= crate::javadoc::lines::list_indents_spec(depth, line).0 <= 6 * depth,
        0 <= crate::javadoc::lines::list_indents_spec(depth, line).1 <= 6 * depth,
{
}

/// The rules that follow the paragraph rule keep the indents within bounds.
pub proof fn lemma_st_quote_indents(st: ReadState, line: Seq<char>, cfg: Comments, bound: int)
    requires
        indents_ok(st, bound),
        6 * st.depth <= bound,
    ensures
        indents_ok(st_quote(st, line, cfg), bound),
{
    if cfg.format_html && crate::javadoc::lines::is_blockquote_spec(line) {
        lemma_standalone_indents(st, line, bound);
    } else if cfg.format_html && cfg.set_off_html_lists && crate::javadoc::lines::closes_list_spec(line) {
        lemma_flush_indents(release_st(st), bound);
        let st1 = flush_st(release_st(st));
        lemma_list_indents_bound(st1.depth as int, line);
        let (lf, lr) = crate::javadoc::lines::list_indents_spec(st1.depth as int, line);
        lemma_push_indents(st1.blocks, BlockView::Prose(tokens_of_spec(line), lf as nat, lr as nat), bound);
        let depth = list_depth_spec(st1.depth as int, line) as nat;
        let st2 = ReadState { depth, ..push_st(st1, BlockView::Prose(tokens_of_spec(line), lf as nat, lr as nat)) };
        lemma_request_indents(st2, bound);
    } else {
        let st2 = if cfg.format_html && crate::javadoc::lines::is_html_block_spec(line, cfg.tables_are_preformatted) {
            lemma_flush_indents(st, bound);
            let st1 = flush_st(st);
            lemma_request_indents(st1, bound);
            if cfg.set_off_html_lists && st1.depth == 0 && crate::javadoc::lines::opens_list_spec(line) {
                request_st(st1)
            } else {
                st1
            }
        } else {
            st
        };
        assert(st_html_block(st, line, cfg) == st_heading(st2, line, cfg));
        if cfg.format_html && crate::javadoc::lines::is_heading_spec(line) {
            lemma_standalone_indents(st2, line, bound);
        } else {
            lemma_list_indents_bound(st2.depth as int, line);
            let (f, r) = if st2.prose.len() == 0 {
                if cfg.set_off_html_lists {
                    crate::javadoc::lines::list_indents_spec(st2.depth as int, line)
                } else {
                    (0int, 0int)
                }
            } else {
                (st2.first as int, st2.rest as int)
            };
            let st3 = if cfg.format_html {
                ReadState { first: f as nat, rest: r as nat, depth: list_depth_spec(st2.depth as int, line) as nat, ..st2 }
            } else {
                st2
            };
            assert(indents_ok(st3, bound));
            lemma_st_words_indents(st3, line, bound);
        }
    }
}

/// A block of a line's tokens, between requested blank lines, keeps the indents within bounds.
proof fn lemma_standalone_indents(st: ReadState, line: Seq<char>, bound: int)
    requires
        indents_ok(st, bound),
        bound >= 0,
    ensures
        indents_ok(
            request_st(push_st(request_st(flush_st(release_st(st))), BlockView::Prose(tokens_of_spec(line), 0, 0))),
            bound,
        ),
{
    lemma_flush_indents(release_st(st), bound);
    lemma_request_indents(flush_st(release_st(st)), bound);
    let st1 = request_st(flush_st(release_st(st)));
    lemma_push_indents(st1.blocks, BlockView::Prose(tokens_of_spec(line), 0, 0), bound);
    lemma_request_indents(push_st(st1, BlockView::Prose(tokens_of_spec(line), 0, 0)), bound);
}

/// A line's words keep the indents within bounds.
pub proof fn lemma_st_words_indents(st: ReadState, line: Seq<char>, bound: int)
    requires
        indents_ok(st, bound),
    ensures
        indents_ok(st_words(st, line), bound),
{
    if st.blocks.len() > 0 && st.blocks.last() is Tag && st.prose.len() == 0 {
        match st.blocks.last() {
            BlockView::Tag(n, a, ws) => {
                let bs = st.blocks;
                let nb = bs.update(bs.len() - 1, BlockView::Tag(n, a, tokens_fold(ws, ws_runs(line))));
                assert forall|k: int| 0 <= k < nb.len() implies block_indents_ok(#[trigger] nb[k], bound) by {
                    if k < bs.len() - 1 {
                        assert(nb[k] == bs[k]);
                    }
                }
            },
            _ => {},
        }
    } else {
        lemma_words_fold_indents(st, ws_runs(line), bound);
    }
}

/// Words added run by run keep the indents within bounds.
proof fn lemma_words_fold_indents(st: ReadState, runs: Seq<Seq<char>>, bound: int)
    requires
        indents_ok(st, bound),
    ensures
        indents_ok(words_fold(st, runs), bound),
        words_fold(st, runs).blocks == st.blocks,
    decreases runs.len(),
{
    if runs.len() > 0 {
        let space = !(st.prose.len() > 0 && crate::javadoc::tokens::is_item_tag_spec(st.prose.last().0));
        let next = match st.pending {
            Some(g) => ReadState { prose: st.prose + tokenize_spec(g + runs[0], space), pending: None, ..st },
            None => ReadState { prose: st.prose + tokenize_spec(runs[0], space), ..st },
        };
        lemma_words_fold_indents(next, runs.drop_first(), bound);
    }
}

/// Every rule for a line that does not continue a region keeps the indents within bounds.
pub proof fn lemma_st_comment_indents(st: ReadState, line: Seq<char>, cfg: Comments, bound: int)
    requires
        indents_ok(st, bound),
        6 * st.depth <= bound,
    ensures
        indents_ok(st_comment(st, line, cfg), bound),
    decreases line.len(),
{
    if cfg.format_html && split_html_comment_spec(line) is Some {
        let (before, comment, after) = split_html_comment_spec(line)->0;
        lemma_split_html_comment_len(line);
        let st1 = if before.len() > 0 {
            ReadState { prose: tokens_fold(st.prose, ws_runs(before)), ..st }
        } else {
            st
        };
        lemma_flush_indents(st1, bound);
        let st2 = flush_st(st1);
        lemma_push_indents(st2.blocks, BlockView::Prose(seq![(comment, false)], st2.first, st2.rest), bound);
        let st3 = push_st(st2, BlockView::Prose(seq![(comment, false)], st2.first, st2.rest));
        if after.len() > 0 {
            lemma_st_empty_indents(st3, after, cfg, bound);
        }
    } else {
        lemma_st_empty_indents(st, line, cfg, bound);
    }
}

/// A blank line, a block tag, a leading `<p>`, or the rules after them keep the indents within
/// bounds.
pub proof fn lemma_st_empty_indents(st: ReadState, line: Seq<char>, cfg: Comments, bound: int)
    requires
        indents_ok(st, bound),
        6 * st.depth <= bound,
    ensures
        indents_ok(st_empty(st, line, cfg), bound),
{
    if line.len() == 0 {
        lemma_flush_indents(st, bound);
        lemma_push_indents(flush_st(st).blocks, BlockView::Blank(false), bound);
    } else {
        match block_tag_spec(line) {
            Some((n, a, ws)) => {
                lemma_flush_indents(release_st(st), bound);
                lemma_push_indents(flush_st(release_st(st)).blocks, BlockView::Tag(n, a, ws), bound);
            },
            None => {
                if cfg.format_html && cfg.paragraph_tags == ParagraphTags::Leading && paragraph_open_spec(line) is Some {
                    let after = paragraph_open_spec(line)->0;
                    lemma_flush_indents(st, bound);
                    let st1 = flush_st(st);
                    lemma_request_indents(st1, bound);
                    let st3 = if st1.depth == 0 {
                        request_st(st1)
                    } else {
                        st1
                    };
                    lemma_push_indents(st3.blocks, paragraph_line_spec(st3.first), bound);
                    lemma_st_quote_indents(st1, after, cfg, bound);
                    let st2 = if exists|i: int| 0 <= i < st1.blocks.len() && !(#[trigger] st1.blocks[i] is Blank) {
                        let st4 = if st3.pending is Some {
                            push_st(st3, paragraph_line_spec(st3.first))
                        } else {
                            st3
                        };
                        ReadState { pending: Some("<p>"@), ..st4 }
                    } else {
                        st1
                    };
                    assert(indents_ok(st2, bound));
                    if after.len() > 0 {
                        lemma_st_quote_indents(st2, after, cfg, bound);
                    }
                } else {
                    lemma_st_quote_indents(st, line, cfg, bound);
                }
            },
        }
    }
}

/// Getting ready for a region keeps the indents within bounds.
proof fn lemma_open_fence_prep_indents(st: ReadState, before: Seq<char>, bound: int)
    requires
        indents_ok(st, bound),
    ensures
        indents_ok(open_fence_prep(st, before), bound),
{
    let s0 = release_st(st);
    let s1 = if before.len() > 0 {
        ReadState { prose: tokens_fold(s0.prose, ws_runs(before)), ..s0 }
    } else {
        s0
    };
    lemma_flush_indents(s1, bound);
    lemma_request_indents(flush_st(s1), bound);
}

/// A region opening keeps the indents within bounds.
proof fn lemma_open_fence_region_indents(st: ReadState, line: Seq<char>, trailing: Seq<char>, element: bool, tables: bool, bound: int)
    requires
        indents_ok(st, bound),
    ensures
        indents_ok(open_fence_region(st, line, trailing, element, tables), bound),
{
    if crate::javadoc::lines::self_closing_fence_spec(line, tables) {
        lemma_push_indents(st.blocks, BlockView::Verbatim(seq![line], st.fence_indent), bound);
        lemma_request_indents(push_st(st, BlockView::Verbatim(seq![line], st.fence_indent)), bound);
    }
}

/// A line that opens a region keeps the indents within bounds.
pub proof fn lemma_open_fence_indents(st: ReadState, line0: Seq<char>, cfg: Comments, bound: int)
    requires
        indents_ok(st, bound),
    ensures
        indents_ok(open_fence(st, line0, cfg), bound),
{
    let tables = cfg.tables_are_preformatted;
    let (line, before, trailing) = fence_parts(line0, tables);
    lemma_open_fence_prep_indents(st, before, bound);
    lemma_open_fence_region_indents(
        open_fence_prep(st, before),
        line,
        trailing,
        crate::javadoc::parse::pre_element(line0, tables) is Some,
        tables,
        bound,
    );
}

/// A line of the queue keeps the indents within bounds.
pub proof fn lemma_step_indents(st: ReadState, raw: Seq<char>, cfg: Comments, bound: int)
    requires
        indents_ok(st, bound),
        6 * st.depth <= bound,
    ensures
        indents_ok(step(st, raw, cfg).0, bound),
{
    reveal(fence_step);
    reveal(line_step);
    if st.fence is Some {
        let (lines, braced) = st.fence->0;
        let line = trim(raw);
        let bd = if braced {
            st.brace_depth + crate::javadoc::lines::brace_delta_spec(line)
        } else {
            st.brace_depth
        };
        let v0 = trim_end(
            if raw.len() > 0 && raw[0] == ' ' {
                raw.skip(1)
            } else {
                raw
            },
        );
        let closed = if braced {
            bd <= 0
        } else {
            crate::javadoc::lines::closes_fence_spec(line, cfg.tables_are_preformatted)
        };
        let split = if closed && !braced {
            crate::javadoc::lines::split_after_fence_close_spec(v0, cfg.tables_are_preformatted)
        } else {
            None
        };
        let verbatim = match split {
            Some((h, t)) => h,
            None => v0,
        };
        let lines2 = lines.push(verbatim);
        let b = BlockView::Verbatim(crate::javadoc::parse::closed_region(lines2, st.code), st.fence_indent);
        lemma_push_indents(st.blocks, b, bound);
        let st1 = ReadState { blocks: st.blocks.push(b), fence: None, brace_depth: bd, ..st };
        lemma_request_indents(st1, bound);
    } else {
        let line0 = trim(raw);
        let dropped = cfg.format_html && cfg.paragraph_tags == ParagraphTags::Leading
            && crate::javadoc::lines::has_paragraph_close_spec(line0);
        let line1 = if dropped {
            trim(crate::javadoc::lines::drop_paragraph_close_spec(line0))
        } else {
            line0
        };
        if !(dropped && line1.len() == 0) {
            let split = if cfg.format_html {
                crate::javadoc::lines::split_block_tag_spec(line1)
            } else {
                None
            };
            let line = match split {
                Some((tag, t)) => tag,
                None => line1,
            };
            lemma_open_fence_indents(st, line, cfg, bound);
            lemma_st_comment_indents(st, line, cfg, bound);
        }
    }
}


/// Whether a block is small enough to be written: its weight within `w` and its indents within
/// `i`.
pub open spec fn block_ready(b: BlockView, w: int, i: int) -> bool {
    block_weight_of(b) <= w && block_indents_ok(b, i)
}

/// Whether every block is small enough to be written.
pub open spec fn blocks_ready(bs: Seq<BlockView>, w: int, i: int) -> bool {
    forall|k: int| 0 <= k < bs.len() ==> block_ready(#[trigger] bs[k], w, i)
}

/// Splitting paragraphs at their `<p>` tags keeps every block ready.
pub proof fn lemma_split_from_ready(bs: Seq<BlockView>, at: int, w: int, i: int)
    requires
        blocks_ready(bs, w, i),
        0 <= at,
    ensures
        blocks_ready(crate::javadoc::blocks::split_from(bs, at), w, i),
    decreases crate::javadoc::blocks::weight(bs.skip(at)),
{
    if at >= bs.len() {
        crate::javadoc::blocks::lemma_split_end(bs, at);
    } else {
        crate::javadoc::blocks::lemma_split_step(bs, at);
        match bs[at] {
            BlockView::Prose(ws, f, r) => match crate::javadoc::blocks::p_cut(ws) {
                Some(cut) => {
                    crate::javadoc::blocks::lemma_find_open_p_range(ws, 0);
                    let next = bs.update(at, BlockView::Prose(ws.take(cut), f, r)).insert(at + 1, BlockView::Prose(ws.skip(cut), r, r));
                    crate::javadoc::blocks::lemma_split_weight(bs, at, ws, f, r, cut);
                    crate::javadoc::blocks::lemma_text_total_split(ws, cut, ws.len() as int);
                    lemma_tt_nonneg(ws, cut);
                    lemma_tt_nonneg(ws.skip(cut), ws.len() - cut);
                    assert(block_ready(bs[at], w, i));
                    assert forall|k: int| 0 <= k < next.len() implies block_ready(#[trigger] next[k], w, i) by {
                        if k < at {
                            assert(next[k] == bs[k]);
                        } else if k > at + 1 {
                            assert(next[k] == bs[k - 1]);
                        } else if k == at {
                            assert(tt(ws.take(cut)) == text_total(ws, cut));
                        } else {
                            assert(ws.skip(cut).len() == ws.len() - cut);
                        }
                    }
                    lemma_split_from_ready(next, at + 1, w, i);
                },
                None => {
                    crate::javadoc::blocks::lemma_skip_weight(bs, at);
                    lemma_split_from_ready(bs, at + 1, w, i);
                },
            },
            _ => {
                crate::javadoc::blocks::lemma_skip_weight(bs, at);
                lemma_split_from_ready(bs, at + 1, w, i);
            },
        }
    }
}

/// Inferring `<p>` tags keeps every block ready, within four more characters of weight.
pub proof fn lemma_infer_ready(bs: Seq<BlockView>, k: int, own_line: bool, w: int, i: int)
    requires
        forall|j: int| 0 <= j < bs.len() && j <= k ==> block_ready(#[trigger] bs[j], w, i),
        forall|j: int| 0 <= j < bs.len() && j > k ==> block_ready(#[trigger] bs[j], w + 4, i),
        w >= 0,
        i >= 0,
    ensures
        blocks_ready(crate::javadoc::blocks::infer_down(bs, k, own_line), w + 4, i),
    decreases k,
{
    if k < 2 {
        assert forall|j: int| 0 <= j < bs.len() implies block_ready(#[trigger] bs[j], w + 4, i) by {
            if j <= k {
                assert(block_ready(bs[j], w, i));
            }
        }
    } else {
        let next = crate::javadoc::blocks::infer_at(bs, k, own_line);
        if crate::javadoc::blocks::owes_paragraph_tag(bs, k) {
            reveal_strlit("<p>");
            if own_line {
                lemma_tt_single(("<p>"@, false));
                assert forall|j: int| 0 <= j < next.len() && j <= k - 1 implies block_ready(#[trigger] next[j], w, i) by {
                    assert(next[j] == bs[j]);
                }
                assert forall|j: int| 0 <= j < next.len() && j > k - 1 implies block_ready(#[trigger] next[j], w + 4, i) by {
                    if j > k {
                        assert(next[j] == bs[j - 1]);
                        if j - 1 <= k {
                            assert(block_ready(bs[j - 1], w, i));
                        }
                    }
                }
                lemma_infer_ready(next, k - 1, own_line, w, i);
            } else {
                match bs[k] {
                    BlockView::Prose(ws, f, r) => {
                        let nws = ws.update(0, ("<p>"@ + ws[0].0, ws[0].1));
                        lemma_tt_update_first(ws, "<p>"@);
                        assert(block_ready(bs[k], w, i));
                        assert forall|j: int| 0 <= j < next.len() && j <= k - 1 implies block_ready(#[trigger] next[j], w, i) by {
                            assert(next[j] == bs[j]);
                        }
                        assert forall|j: int| 0 <= j < next.len() && j > k - 1 implies block_ready(#[trigger] next[j], w + 4, i) by {
                            if j != k {
                                assert(next[j] == bs[j]);
                            } else {
                                assert(next[k] == BlockView::Prose(nws, f, r));
                            }
                        }
                        lemma_infer_ready(next, k - 1, own_line, w, i);
                    },
                    _ => {},
                }
            }
        } else {
            assert(next == bs);
            assert forall|j: int| 0 <= j < bs.len() && j > k - 1 implies block_ready(#[trigger] bs[j], w + 4, i) by {
                if j <= k {
                    assert(block_ready(bs[j], w, i));
                }
            }
            lemma_infer_ready(next, k - 1, own_line, w, i);
        }
    }
}

/// Putting text before the first token adds its length to the weight.
pub proof fn lemma_tt_update_first(ws: Seq<(Seq<char>, bool)>, pre: Seq<char>)
    requires
        ws.len() > 0,
    ensures
        tt(ws.update(0, (pre + ws[0].0, ws[0].1))) == tt(ws) + pre.len(),
{
    let nws = ws.update(0, (pre + ws[0].0, ws[0].1));
    lemma_tt_concat(seq![ws[0]], ws.skip(1));
    lemma_tt_concat(seq![nws[0]], nws.skip(1));
    assert(seq![ws[0]] + ws.skip(1) =~= ws);
    assert(seq![nws[0]] + nws.skip(1) =~= nws);
    assert(nws.skip(1) =~= ws.skip(1));
    lemma_tt_single(ws[0]);
    lemma_tt_single(nws[0]);
}

} // verus!
