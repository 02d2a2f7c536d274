//! Reading a comment body into blocks: a line at a time, carrying what the lines before it left
//! open — a region kept as written, prose waiting to be refilled, a `<p>` waiting for the word it
//! introduces, the HTML list depth and the indents the prose belongs at.
//!
//! A line that glues two block-level tags together is two lines to the Javadoc writer, so the
//! part after the first tag goes back to the front of the queue and meets the same decisions.

use vstd::prelude::*;

use crate::config::{Comments, ParagraphTags};
use crate::javadoc::blocks::{
    block_tag, block_tag_spec, blocks_view, flush, infer_paragraph_tags, infer_paragraph_tags_spec,
    paragraph_line, paragraph_line_spec, release_pending, request_blank, request_blank_spec,
    split_from, split_paragraph_tags, Block, BlockView,
};
use crate::javadoc::code::{drop_trailing_blank, normalize_pre_code_block, normalize_pre_spec};
use crate::javadoc::reindent::{code_indent, code_indent_spec, reindent_code_region, reindent_spec, CodeIndent};
use crate::config::Layout;
use crate::javadoc::ascii_lower;
use crate::javadoc::lines::{
    brace_delta, brace_fence, closes_fence, closes_list, drop_paragraph_close, has_paragraph_close,
    is_blockquote, is_heading, is_html_block, list_depth, list_indents, list_level, opens_fence,
    opens_list, paragraph_open, self_closing_fence, split_after_fence_close, split_block_tag,
    split_html_comment, ITEM_INDENT, LIST_INDENT,
};
use crate::javadoc::tokens::is_item_tag;
use crate::javadoc::tokens::{lines_view, runs_of, tokenize, tokens_of, words_view, Word};
use crate::strs::{chars_of, find_seq_from, rfind_seq, slice_vec, trimmed, trimmed_end, trimmed_start};
use crate::javadoc::lines::{
    brace_delta_spec, brace_fence_spec, closes_fence_spec, closes_list_spec, drop_paragraph_close_spec,
    has_paragraph_close_spec, is_blockquote_spec, is_heading_spec, is_html_block_spec, list_depth_spec,
    list_indents_spec, opens_fence_spec, opens_list_spec, paragraph_open_spec, self_closing_fence_spec,
    split_after_fence_close_spec, split_block_tag_spec, split_html_comment_spec,
};
use crate::javadoc::tokens::{is_item_tag_spec, tokenize_spec, tokens_fold, ws_runs};
use crate::strs::{find_char_from, find_from, lemma_find_char_props, lower, rfind, trim, trim_end, trim_start};

verus! {

/// What the reader of a comment body carries from one line to the next.
#[verifier::ext_equal]
pub struct ReadState {
    /// The blocks read so far.
    pub blocks: Seq<BlockView>,
    /// Prose read since the last block, waiting to be refilled.
    pub prose: Seq<(Seq<char>, bool)>,
    /// The region being collected as written, and whether it ends at a balancing `}`.
    pub fence: Option<(Seq<Seq<char>>, bool)>,
    /// A `<p>` waiting for the word it introduces.
    pub pending: Option<Seq<char>>,
    /// The HTML list nesting depth.
    pub depth: nat,
    /// The indent of the prose's first line.
    pub first: nat,
    /// The indent of the prose's later lines.
    pub rest: nat,
    /// The indent the region being collected opened at.
    pub fence_indent: nat,
    /// The brace depth of a region that ends at a balancing `}`.
    pub brace_depth: int,
    /// How closed regions of code are re-indented, if they are.
    pub code: Option<CodeIndent>,
}

/// Nothing read yet, closed regions of code to be re-indented as `code` says.
pub open spec fn start_state(code: Option<CodeIndent>) -> ReadState {
    ReadState {
        blocks: Seq::empty(),
        prose: Seq::empty(),
        fence: None,
        pending: None,
        depth: 0,
        first: 0,
        rest: 0,
        fence_indent: 0,
        brace_depth: 0,
        code,
    }
}

/// A closed region as it becomes a block: put in the `<pre>{@code` shape, then re-indented when
/// `code` asks for it.
pub open spec fn closed_region(lines: Seq<Seq<char>>, code: Option<CodeIndent>) -> Seq<Seq<char>> {
    match code {
        Some(c) => reindent_spec(normalize_pre_spec(lines), c),
        None => normalize_pre_spec(lines),
    }
}

/// The prose read so far moved into a block at the current indents.
pub open spec fn flush_st(st: ReadState) -> ReadState {
    if st.prose.len() > 0 {
        ReadState { blocks: st.blocks.push(BlockView::Prose(st.prose, st.first, st.rest)), prose: Seq::empty(), ..st }
    } else {
        st
    }
}

/// A waiting `<p>` handed back to the prose as a spaced run.
pub open spec fn release_st(st: ReadState) -> ReadState {
    match st.pending {
        Some(g) => ReadState { prose: st.prose + tokenize_spec(g, true), pending: None, ..st },
        None => st,
    }
}

/// A blank line asked for.
pub open spec fn request_st(st: ReadState) -> ReadState {
    ReadState { blocks: request_blank_spec(st.blocks), ..st }
}

/// A block appended.
pub open spec fn push_st(st: ReadState, b: BlockView) -> ReadState {
    ReadState { blocks: st.blocks.push(b), ..st }
}

/// The tokens of every run of a line.
pub open spec fn tokens_of_spec(line: Seq<char>) -> Seq<(Seq<char>, bool)> {
    tokens_fold(Seq::empty(), ws_runs(line))
}

/// A line of a region kept as written: the region takes the line (its single leading space and
/// its trailing whitespace gone); a region that ends at a closing tag ends on a line that
/// closes it, and what follows that tag goes back to the queue; a region that ends at a
/// balancing `}` ends when the braces balance. A closed region is put in the `<pre>{@code`
/// shape, re-indented when the state asks for it, and becomes a block, asking for a blank line
/// after it outside a list.
#[verifier::opaque]
pub open spec fn fence_step(st: ReadState, raw: Seq<char>, cfg: Comments) -> (ReadState, Option<Seq<char>>) {
    let tables = cfg.tables_are_preformatted;
    let line = trim(raw);
    let (lines, braced) = st.fence->0;
    let bd = if braced {
        st.brace_depth + brace_delta_spec(line)
    } else {
        st.brace_depth
    };
    let v0 = trim_end(
        if raw.len() > 0 && raw[0] == ' ' {
            raw.skip(1)
        } else {
            raw
        },
    );
    let closed = if braced {
        bd <= 0
    } else {
        closes_fence_spec(line, tables)
    };
    let split = if closed && !braced {
        split_after_fence_close_spec(v0, tables)
    } else {
        None
    };
    let (verbatim, tail) = match split {
        Some((h, t)) => (h, Some(t)),
        None => (v0, None),
    };
    let lines2 = lines.push(verbatim);
    if closed {
        let st1 = ReadState {
            blocks: st.blocks.push(BlockView::Verbatim(closed_region(lines2, st.code), st.fence_indent)),
            fence: None,
            brace_depth: bd,
            ..st
        };
        (if st.depth == 0 {
            request_st(st1)
        } else {
            st1
        }, tail)
    } else {
        (ReadState { fence: Some((lines2, braced)), brace_depth: bd, ..st }, None)
    }
}

/// Where the `<pre>…</pre>` element written inside a sentence lies on a line: the first
/// `<pre>` and the last `</pre>`, when the line opens and closes a region and the close comes
/// after the open.
pub open spec fn pre_element(line: Seq<char>, tables: bool) -> Option<(int, int)> {
    let l = lower(line);
    if !self_closing_fence_spec(line, tables) {
        None
    } else {
        match (find_from(l, "<pre>"@, 0), rfind(l, "</pre>"@)) {
            (Some(open), Some(close)) => if close > open {
                Some((open, close))
            } else {
                None
            },
            _ => None,
        }
    }
}

/// A line that opens a region, split around a `<pre>…</pre>` element written inside it: the
/// region's own line, the prose before it, and the prose after it.
pub open spec fn fence_parts(line0: Seq<char>, tables: bool) -> (Seq<char>, Seq<char>, Seq<char>) {
    match pre_element(line0, tables) {
        Some((open, close)) => (
            trim_end(line0.subrange(open, close + "</pre>"@.len())),
            trim_end(line0.take(open)),
            trim_start(line0.skip(close + "</pre>"@.len())),
        ),
        None => (line0, Seq::empty(), Seq::empty()),
    }
}

/// Before a region opens: a waiting `<p>` stays where it was written, the prose before a
/// `<pre>` element joins the prose, the prose is flushed, a blank line is asked for outside a
/// list, and the region opens at the prose's continuation indent.
pub open spec fn open_fence_prep(st0: ReadState, before: Seq<char>) -> ReadState {
    let st = release_st(st0);
    let st1 = if before.len() > 0 {
        ReadState { prose: tokens_fold(st.prose, ws_runs(before)), ..st }
    } else {
        st
    };
    let st2 = flush_st(st1);
    let st3 = if st2.depth == 0 {
        request_st(st2)
    } else {
        st2
    };
    ReadState { fence_indent: st3.rest, ..st3 }
}

/// A region opening: a line that also closes it is a block of its own (a `<pre>` element
/// split out of a sentence asking for a blank line after it outside a list, and the prose after
/// it following); otherwise the region starts collecting, a region that ends at a balancing
/// `}` counting the line's braces.
pub open spec fn open_fence_region(st4: ReadState, line: Seq<char>, trailing: Seq<char>, element: bool, tables: bool) -> ReadState {
    if self_closing_fence_spec(line, tables) {
        let st5 = push_st(st4, BlockView::Verbatim(seq![line], st4.fence_indent));
        let st6 = if st5.depth == 0 && element {
            request_st(st5)
        } else {
            st5
        };
        if trailing.len() > 0 {
            ReadState { prose: tokens_fold(st6.prose, ws_runs(trailing)), ..st6 }
        } else {
            st6
        }
    } else {
        let braced = brace_fence_spec(line);
        ReadState {
            fence: Some((seq![line], braced)),
            brace_depth: if braced {
                brace_delta_spec(line)
            } else {
                st4.brace_depth
            },
            ..st4
        }
    }
}

/// A line that opens a region kept as written.
pub open spec fn open_fence(st0: ReadState, line0: Seq<char>, cfg: Comments) -> ReadState {
    let tables = cfg.tables_are_preformatted;
    let (line, before, trailing) = fence_parts(line0, tables);
    open_fence_region(open_fence_prep(st0, before), line, trailing, pre_element(line0, tables) is Some, tables)
}

/// The runs of a line added to the prose: each is spaced unless the token before it hugs its
/// successor, and a waiting `<p>` is glued to the first of them.
pub open spec fn words_fold(st: ReadState, runs: Seq<Seq<char>>) -> ReadState
    decreases runs.len(),
{
    if runs.len() == 0 {
        st
    } else {
        let space = !(st.prose.len() > 0 && is_item_tag_spec(st.prose.last().0));
        let next = match st.pending {
            Some(g) => ReadState { prose: st.prose + tokenize_spec(g + runs[0], space), pending: None, ..st },
            None => ReadState { prose: st.prose + tokenize_spec(runs[0], space), ..st },
        };
        words_fold(next, runs.drop_first())
    }
}

/// The last stage: a line continues the description of the block tag before it when no prose
/// is waiting, and otherwise joins the prose.
pub open spec fn st_words(st: ReadState, line: Seq<char>) -> ReadState {
    if st.blocks.len() > 0 && st.blocks.last() is Tag && st.prose.len() == 0 {
        match st.blocks.last() {
            BlockView::Tag(n, a, ws) => ReadState {
                blocks: st.blocks.update(st.blocks.len() - 1, BlockView::Tag(n, a, tokens_fold(ws, ws_runs(line)))),
                ..st
            },
            _ => st,
        }
    } else {
        words_fold(st, ws_runs(line))
    }
}

/// Under HTML formatting, the indents of prose that starts on this line come from the list
/// depth before it, and the depth moves past the line's list tags.
pub open spec fn st_indents(st: ReadState, line: Seq<char>, cfg: Comments) -> ReadState {
    let st2 = if cfg.format_html {
        let (f, r) = if st.prose.len() == 0 {
            if cfg.set_off_html_lists {
                list_indents_spec(st.depth as int, line)
            } else {
                (0int, 0int)
            }
        } else {
            (st.first as int, st.rest as int)
        };
        ReadState { first: f as nat, rest: r as nat, depth: list_depth_spec(st.depth as int, line) as nat, ..st }
    } else {
        st
    };
    st_words(st2, line)
}

/// A heading stands alone between blank lines.
pub open spec fn st_heading(st: ReadState, line: Seq<char>, cfg: Comments) -> ReadState {
    if cfg.format_html && is_heading_spec(line) {
        let st1 = request_st(flush_st(release_st(st)));
        request_st(push_st(st1, BlockView::Prose(tokens_of_spec(line), 0, 0)))
    } else {
        st_indents(st, line, cfg)
    }
}

/// An HTML block element starts a new paragraph; a list opening outside a list asks for a
/// blank line before it.
pub open spec fn st_html_block(st: ReadState, line: Seq<char>, cfg: Comments) -> ReadState {
    let st2 = if cfg.format_html && is_html_block_spec(line, cfg.tables_are_preformatted) {
        let st1 = flush_st(st);
        if cfg.set_off_html_lists && st1.depth == 0 && opens_list_spec(line) {
            request_st(st1)
        } else {
            st1
        }
    } else {
        st
    };
    st_heading(st2, line, cfg)
}

/// A list's closing tag ends the prose, is a block of its own at the level it closes out of,
/// and — when it closes the outermost list — asks for a blank line after it.
pub open spec fn st_close_list(st: ReadState, line: Seq<char>, cfg: Comments) -> ReadState {
    if cfg.format_html && cfg.set_off_html_lists && closes_list_spec(line) {
        let st1 = flush_st(release_st(st));
        let (lf, lr) = list_indents_spec(st1.depth as int, line);
        let depth = list_depth_spec(st1.depth as int, line) as nat;
        let st2 = ReadState { depth, ..push_st(st1, BlockView::Prose(tokens_of_spec(line), lf as nat, lr as nat)) };
        let st3 = if depth == 0 {
            request_st(st2)
        } else {
            st2
        };
        ReadState { first: 0, rest: 0, ..st3 }
    } else {
        st_html_block(st, line, cfg)
    }
}

/// A blockquote tag stands alone between blank lines.
pub open spec fn st_quote(st: ReadState, line: Seq<char>, cfg: Comments) -> ReadState {
    if cfg.format_html && is_blockquote_spec(line) {
        let st1 = request_st(flush_st(release_st(st)));
        request_st(push_st(st1, BlockView::Prose(tokens_of_spec(line), 0, 0)))
    } else {
        st_close_list(st, line, cfg)
    }
}

/// A leading `<p>` opens a paragraph: the prose is flushed, and — once anything but blank lines
/// has been read — a blank line is asked for outside a list and the tag waits for the word it
/// introduces (one already waiting gets a line of its own); before that the tag is dropped.
pub open spec fn st_para(st: ReadState, line: Seq<char>, cfg: Comments) -> ReadState {
    if cfg.format_html && cfg.paragraph_tags == ParagraphTags::Leading && paragraph_open_spec(line) is Some {
        let after = paragraph_open_spec(line)->0;
        let st1 = flush_st(st);
        let st2 = if exists|i: int| 0 <= i < st1.blocks.len() && !(#[trigger] st1.blocks[i] is Blank) {
            let st3 = if st1.depth == 0 {
                request_st(st1)
            } else {
                st1
            };
            let st4 = if st3.pending is Some {
                push_st(st3, paragraph_line_spec(st3.first))
            } else {
                st3
            };
            ReadState { pending: Some("<p>"@), ..st4 }
        } else {
            st1
        };
        if after.len() == 0 {
            st2
        } else {
            st_quote(st2, after, cfg)
        }
    } else {
        st_quote(st, line, cfg)
    }
}

/// A line that starts a block tag ends the prose and is a block of its own; what follows it is
/// its description, at the description's own column.
pub open spec fn st_tag(st: ReadState, line: Seq<char>, cfg: Comments) -> ReadState {
    match block_tag_spec(line) {
        Some((n, a, ws)) => {
            let st1 = push_st(flush_st(release_st(st)), BlockView::Tag(n, a, ws));
            ReadState { first: 0, rest: 0, ..st1 }
        },
        None => st_para(st, line, cfg),
    }
}

/// A blank line ends the prose and, outside a list, is one blank block however many the author
/// wrote — among block tags only under `blank-lines-between-tags`.
pub open spec fn st_empty(st: ReadState, line: Seq<char>, cfg: Comments) -> ReadState {
    if line.len() == 0 {
        let st1 = flush_st(st);
        let last_tag = st1.blocks.len() > 0 && st1.blocks.last() is Tag;
        let last_blank = st1.blocks.len() > 0 && st1.blocks.last() is Blank;
        if st1.depth == 0 && !last_blank && (!last_tag || cfg.blank_lines_between_tags) {
            push_st(st1, BlockView::Blank(false))
        } else {
            st1
        }
    } else {
        st_tag(st, line, cfg)
    }
}

/// An HTML comment stands on a line of its own: the prose before it ends, the comment is one
/// token of its own, and what follows it carries on.
pub open spec fn st_comment(st: ReadState, line: Seq<char>, cfg: Comments) -> ReadState {
    if cfg.format_html && split_html_comment_spec(line) is Some {
        let (before, comment, after) = split_html_comment_spec(line)->0;
        let st1 = if before.len() > 0 {
            ReadState { prose: tokens_fold(st.prose, ws_runs(before)), ..st }
        } else {
            st
        };
        let st2 = flush_st(st1);
        let st3 = push_st(st2, BlockView::Prose(seq![(comment, false)], st2.first, st2.rest));
        if after.len() == 0 {
            st3
        } else {
            st_empty(st3, after, cfg)
        }
    } else {
        st_empty(st, line, cfg)
    }
}

/// A line that does not continue a region: a paragraph close that carries nothing is dropped;
/// a tag that wants a line of its own splits the line, its tail going back to the queue; then
/// the line either opens a region or goes through the remaining rules.
#[verifier::opaque]
pub open spec fn line_step(st: ReadState, line0: Seq<char>, cfg: Comments) -> (ReadState, Option<Seq<char>>) {
    let dropped = cfg.format_html && cfg.paragraph_tags == ParagraphTags::Leading && has_paragraph_close_spec(line0);
    let line1 = if dropped {
        trim(drop_paragraph_close_spec(line0))
    } else {
        line0
    };
    if dropped && line1.len() == 0 {
        (st, None)
    } else {
        let split = if cfg.format_html {
            split_block_tag_spec(line1)
        } else {
            None
        };
        let (line, tail) = match split {
            Some((tag, t)) => (tag, Some(t)),
            None => (line1, None),
        };
        if opens_fence_spec(line, cfg.tables_are_preformatted) {
            (open_fence(st, line, cfg), tail)
        } else {
            (st_comment(st, line, cfg), tail)
        }
    }
}

/// One line of the queue read: inside a region it belongs to the region, otherwise its trimmed
/// text goes through the rules. How code regions are re-indented stays as it was.
pub open spec fn step(st: ReadState, raw: Seq<char>, cfg: Comments) -> (ReadState, Option<Seq<char>>) {
    let (next, tail) = if st.fence is Some {
        fence_step(st, raw, cfg)
    } else {
        line_step(st, trim(raw), cfg)
    };
    (ReadState { code: st.code, ..next }, tail)
}

/// The total length of the lines in a queue.
pub open spec fn queue_len(q: Seq<Seq<char>>) -> nat
    decreases q.len(),
{
    if q.len() == 0 {
        0
    } else {
        q[0].len() + queue_len(q.drop_first())
    }
}


/// A queue with a line in front.
pub proof fn lemma_queue_len_push_front(t: Seq<char>, q: Seq<Seq<char>>)
    ensures
        queue_len(seq![t] + q) == t.len() + queue_len(q),
{
    assert((seq![t] + q).drop_first() =~= q);
}

/// Trimming the start never grows a sequence.
pub proof fn lemma_trim_start_len(s: Seq<char>)
    ensures
        trim_start(s).len() <= s.len(),
{
    crate::strs::lemma_trim_start_len(s);
}

/// The scan for a tag that wants a line of its own finds one inside the line.
pub proof fn lemma_block_split_scan_range(l: Seq<char>, i: int, d: int)
    ensures
        crate::javadoc::lines::block_split_scan(l, i, d) matches Some(a) ==> 0 <= i <= a < l.len(),
    decreases l.len() - i,
{
    if 0 <= i < l.len() {
        if l[i] == '{' {
            lemma_block_split_scan_range(l, i + 1, d + 1);
        } else if l[i] == '}' {
            lemma_block_split_scan_range(l, i + 1, d - 1);
        } else {
            lemma_block_split_scan_range(l, i + 1, d);
        }
    }
}

/// Splitting at a tag that wants a line of its own leaves a shorter tail, and no more than the
/// line between the two parts.
pub proof fn lemma_split_block_len(line: Seq<char>)
    ensures
        split_block_tag_spec(line) matches Some((h, t)) ==> h.len() + t.len() <= line.len() && t.len() < line.len(),
{
    let l = lower(line);
    lemma_block_split_scan_range(l, 0, 0);
    lemma_find_char_props(l, '>', 0);
    match crate::javadoc::lines::block_split_scan(l, 0, 0) {
        Some(at) => {
            if at > 0 {
                crate::javadoc::render::lemma_trim_end_len(line.take(at));
                lemma_trim_start_len(line.skip(at));
            } else {
                match find_char_from(l, '>', 0) {
                    Some(k) => {
                        crate::javadoc::render::lemma_trim_end_len(line.take(k + 1));
                        lemma_trim_start_len(line.skip(k + 1));
                    },
                    None => {},
                }
            }
        },
        None => {},
    }
}

/// Splitting after a region's closing tag leaves a shorter tail, and no more than the line
/// between the two parts.
pub proof fn lemma_split_after_len(line: Seq<char>, tables: bool)
    ensures
        split_after_fence_close_spec(line, tables) matches Some((h, t)) ==> h.len() + t.len() <= line.len() && t.len()
            < line.len(),
{
    let l = lower(line);
    reveal_strlit("</pre>");
    reveal_strlit("</table>");
    crate::strs::lemma_rfind_props(l, "</pre>"@);
    crate::strs::lemma_rfind_props(l, "</table>"@);
    match crate::javadoc::lines::fence_close_end(l, tables) {
        Some(end) => {
            assert(1 <= end <= line.len());
            crate::javadoc::render::lemma_trim_end_len(line.take(end));
            lemma_trim_start_len(line.skip(end));
        },
        None => {},
    }
}

/// Dropping paragraph closes never grows a line.
pub proof fn lemma_drop_close_len(s: Seq<char>)
    ensures
        drop_paragraph_close_spec(s).len() <= s.len(),
    decreases s.len(),
{
    crate::strs::lemma_find_from_props(s, "</"@, 0);
    match find_from(s, "</"@, 0) {
        None => {
            crate::javadoc::lines::lemma_drop_none(s);
        },
        Some(at) => {
            lemma_find_char_props(s, '>', at);
            match find_char_from(s, '>', at) {
                None => {
                    crate::javadoc::lines::lemma_drop_none(s);
                },
                Some(close) => {
                    crate::javadoc::lines::lemma_drop_step(s, at, close);
                    lemma_drop_close_len(s.skip(close + 1));
                },
            }
        },
    }
}

/// A line read from the queue gives back a tail shorter than itself, and together with what it
/// consumed no longer than itself.
pub proof fn lemma_step_tail(st: ReadState, raw: Seq<char>, cfg: Comments)
    ensures
        step(st, raw, cfg).1 matches Some(t) ==> t.len() < raw.len(),
{
    reveal(fence_step);
    reveal(line_step);
    if st.fence is Some {
        let v0 = trim_end(
            if raw.len() > 0 && raw[0] == ' ' {
                raw.skip(1)
            } else {
                raw
            },
        );
        crate::javadoc::render::lemma_trim_end_len(
            if raw.len() > 0 && raw[0] == ' ' {
                raw.skip(1)
            } else {
                raw
            },
        );
        lemma_split_after_len(v0, cfg.tables_are_preformatted);
    } else {
        let line0 = trim(raw);
        crate::javadoc::render::lemma_trim_len(raw);
        lemma_drop_close_len(line0);
        crate::javadoc::render::lemma_trim_len(drop_paragraph_close_spec(line0));
        lemma_split_block_len(line0);
        lemma_split_block_len(trim(drop_paragraph_close_spec(line0)));
    }
}

/// The queue read to its end, a line at a time, each tail read next.
#[verifier::opaque]
pub open spec fn read_lines(st: ReadState, q: Seq<Seq<char>>, cfg: Comments) -> ReadState
    decreases queue_len(q), q.len(),
{
    if q.len() == 0 {
        st
    } else {
        let (st2, tail) = step(st, q[0], cfg);
        proof {
            lemma_step_tail(st, q[0], cfg);
        }
        match tail {
            Some(t) => {
                proof {
                    lemma_queue_len_push_front(t, q.drop_first());
                }
                read_lines(st2, seq![t] + q.drop_first(), cfg)
            },
            None => read_lines(st2, q.drop_first(), cfg),
        }
    }
}

/// One line of the queue read.
pub proof fn lemma_read_step(st: ReadState, q: Seq<Seq<char>>, cfg: Comments)
    requires
        q.len() > 0,
    ensures
        read_lines(st, q, cfg) == match step(st, q[0], cfg).1 {
            Some(t) => read_lines(step(st, q[0], cfg).0, seq![t] + q.drop_first(), cfg),
            None => read_lines(step(st, q[0], cfg).0, q.drop_first(), cfg),
        },
{
    reveal(read_lines);
}

/// Nothing left to read.
pub proof fn lemma_read_end(st: ReadState, q: Seq<Seq<char>>, cfg: Comments)
    requires
        q.len() == 0,
    ensures
        read_lines(st, q, cfg) == st,
{
    reveal(read_lines);
}

/// The pieces of `s` between its newlines (`str::split('\n')`).
#[verifier::opaque]
pub open spec fn split_lines(s: Seq<char>) -> Seq<Seq<char>>
    decreases s.len(),
{
    match find_char_from(s, '\n', 0) {
        None => seq![s],
        Some(k) => {
            proof {
                lemma_find_char_props(s, '\n', 0);
            }
            seq![s.take(k)] + split_lines(s.skip(k + 1))
        },
    }
}

/// The last piece.
pub proof fn lemma_split_lines_last(s: Seq<char>)
    requires
        find_char_from(s, '\n', 0) is None,
    ensures
        split_lines(s) == seq![s],
{
    reveal(split_lines);
}

/// A piece and the pieces after it.
pub proof fn lemma_split_lines_step(s: Seq<char>, k: int)
    requires
        find_char_from(s, '\n', 0) == Some(k),
    ensures
        split_lines(s) == seq![s.take(k)] + split_lines(s.skip(k + 1)),
{
    reveal(split_lines);
}

/// Blocks without the blank lines they end with.
pub open spec fn drop_trailing_blank_blocks(bs: Seq<BlockView>) -> Seq<BlockView>
    decreases bs.len(),
{
    if bs.len() > 0 && bs.last() is Blank {
        drop_trailing_blank_blocks(bs.drop_last())
    } else {
        bs
    }
}

/// Blocks without the blank lines they start with.
pub open spec fn drop_leading_blank_blocks(bs: Seq<BlockView>) -> Seq<BlockView>
    decreases bs.len(),
{
    if bs.len() > 0 && bs[0] is Blank {
        drop_leading_blank_blocks(bs.drop_first())
    } else {
        bs
    }
}

/// What the reader leaves once every line is read: a waiting `<p>` goes back to the prose, a
/// region that never closed is a block without its trailing blank lines, the prose is flushed,
/// blank blocks at either end go, and the paragraph-tag rules run.
pub open spec fn finish(st: ReadState, cfg: Comments) -> Seq<BlockView> {
    let st1 = release_st(st);
    let blocks1 = match st1.fence {
        Some((lines, _)) => st1.blocks.push(BlockView::Verbatim(drop_trailing_blank(lines), st1.fence_indent)),
        None => st1.blocks,
    };
    let st2 = flush_st(ReadState { blocks: blocks1, ..st1 });
    let b4 = drop_leading_blank_blocks(drop_trailing_blank_blocks(st2.blocks));
    let b5 = if cfg.format_html && cfg.paragraph_tags != ParagraphTags::Leading {
        split_from(b4, 0)
    } else {
        b4
    };
    if cfg.format_html && cfg.paragraph_tags != ParagraphTags::Authored {
        infer_paragraph_tags_spec(b5, cfg.paragraph_tags == ParagraphTags::OwnLine)
    } else {
        b5
    }
}

/// A comment body read into blocks: prose paragraphs, regions kept as written, block tags and
/// blank lines.
pub open spec fn parse_spec(body: Seq<char>, cfg: Comments, code: Option<CodeIndent>) -> Seq<BlockView> {
    finish(read_lines(start_state(code), split_lines(body), cfg), cfg)
}


/// The reader of a comment body.
pub struct BodyReader {
    /// The blocks read so far.
    pub blocks: Vec<Block>,
    /// Prose read since the last block.
    pub prose: Vec<Word>,
    /// The region being collected as written, and whether it ends at a balancing `}`.
    pub fence: Option<(Vec<Vec<char>>, bool)>,
    /// A `<p>` waiting for the word it introduces.
    pub pending: Option<Vec<char>>,
    /// The HTML list nesting depth.
    pub depth: usize,
    /// The indent of the prose's first line.
    pub first: usize,
    /// The indent of the prose's later lines.
    pub rest: usize,
    /// The indent the region being collected opened at.
    pub fence_indent: usize,
    /// The brace depth of a region that ends at a balancing `}`.
    pub brace_depth: i32,
    /// How closed regions of code are re-indented, if they are.
    pub code: Option<CodeIndent>,
}

/// A region being collected, viewed.
pub open spec fn fence_view(f: Option<(Vec<Vec<char>>, bool)>) -> Option<(Seq<Seq<char>>, bool)> {
    match f {
        Some((l, b)) => Some((lines_view(l@), b)),
        None => None,
    }
}

/// An optional line, viewed.
pub open spec fn line_view(o: Option<Vec<char>>) -> Option<Seq<char>> {
    match o {
        Some(v) => Some(v@),
        None => None,
    }
}

/// Where the `<pre>…</pre>` element written inside a line lies.
pub fn pre_element_at(line: &[char], tables: bool) -> (r: Option<(usize, usize)>)
    ensures
        match r {
            Some((o, c)) => pre_element(line@, tables) == Some((o as int, c as int)) && o < c && c + 6 <= line@.len(),
            None => pre_element(line@, tables) is None,
        },
{
    if !self_closing_fence(line, tables) {
        return None;
    }
    let l = ascii_lower(line);
    let open = match find_seq_from(&l, &chars_of("<pre>"), 0) {
        Some(o) => o,
        None => return None,
    };
    let shut = chars_of("</pre>");
    let close = match rfind_seq(&l, &shut) {
        Some(c) => c,
        None => return None,
    };
    proof {
        reveal_strlit("</pre>");
    }
    if close > open {
        Some((open, close))
    } else {
        None
    }
}

/// A line that opens a region, split around a `<pre>…</pre>` element written inside it.
pub fn fence_parts_at(line0: &[char], tables: bool) -> (r: (Vec<char>, Vec<char>, Vec<char>, bool))
    ensures
        (r.0@, r.1@, r.2@) == fence_parts(line0@, tables),
        r.3 == pre_element(line0@, tables) is Some,
        r.0@.len() <= line0@.len(),
{
    let n = line0.len();
    match pre_element_at(line0, tables) {
        Some((open, close)) => {
            let end = close + 6;
            let mid = slice_vec(line0, open, end);
            let head = slice_vec(line0, 0, open);
            let after = slice_vec(line0, end, n);
            proof {
                reveal_strlit("</pre>");
                assert(head@ == line0@.take(open as int));
                assert(after@ == line0@.skip(end as int));
                crate::javadoc::render::lemma_trim_end_len(mid@);
            }
            (trimmed_end(&mid), trimmed_end(&head), trimmed_start(&after), true)
        },
        None => {
            let line = slice_vec(line0, 0, n);
            assert(line@ == line0@);
            let none: Vec<char> = Vec::new();
            assert(none@ =~= Seq::<char>::empty());
            (line, Vec::new(), Vec::new(), false)
        },
    }
}

impl View for BodyReader {
    type V = ReadState;

    open spec fn view(&self) -> ReadState {
        ReadState {
            blocks: blocks_view(self.blocks@),
            prose: words_view(self.prose@),
            fence: fence_view(self.fence),
            pending: line_view(self.pending),
            depth: self.depth as nat,
            first: self.first as nat,
            rest: self.rest as nat,
            fence_indent: self.fence_indent as nat,
            brace_depth: self.brace_depth as int,
            code: self.code,
        }
    }
}

impl BodyReader {
    /// Nothing read yet.
    pub fn new(code: Option<CodeIndent>) -> (r: BodyReader)
        ensures
            r@ == start_state(code),
    {
        let r = BodyReader {
            blocks: Vec::new(),
            prose: Vec::new(),
            fence: None,
            pending: None,
            depth: 0,
            first: 0,
            rest: 0,
            fence_indent: 0,
            brace_depth: 0,
            code,
        };
        assert(r@ =~= start_state(code));
        r
    }

    /// Move the prose into a block.
    pub fn flush_prose(&mut self)
        ensures
            final(self)@ == flush_st(old(self)@),
    {
        flush(&mut self.prose, &mut self.blocks, self.first, self.rest);
        assert(self@ =~= flush_st(old(self)@));
    }

    /// Hand a waiting `<p>` back to the prose.
    pub fn release(&mut self)
        ensures
            final(self)@ == release_st(old(self)@),
    {
        release_pending(&mut self.pending, &mut self.prose);
        assert(self@ =~= release_st(old(self)@));
    }

    /// Ask for a blank line.
    pub fn request(&mut self)
        ensures
            final(self)@ == request_st(old(self)@),
    {
        request_blank(&mut self.blocks);
        assert(self@ =~= request_st(old(self)@));
    }

    /// Read a line of a region kept as written.
    #[verifier::rlimit(100)]
    pub fn fence_step(&mut self, raw: &[char], cfg: &Comments) -> (r: Option<Vec<char>>)
        requires
            old(self).fence is Some,
            old(self).code matches Some(c) ==> c.tab_width > 0,
            raw@.len() <= i32::MAX,
            old(self).brace_depth + raw@.len() <= i32::MAX,
            old(self).brace_depth - raw@.len() >= i32::MIN,
        ensures
            (final(self)@, line_view(r)) == fence_step(old(self)@, raw@, *cfg),
    {
        reveal(fence_step);
        let tables = cfg.tables_are_preformatted;
        let line = trimmed(raw);
        proof {
            crate::javadoc::render::lemma_trim_len(raw@);
            crate::javadoc::blocks::lemma_brace_delta_bound(line@);
        }
        let mut taken: Option<(Vec<Vec<char>>, bool)> = None;
        std::mem::swap(&mut taken, &mut self.fence);
        let (mut lines, braced) = match taken {
            Some(f) => f,
            None => {
                assert(false);
                return None;
            },
        };
        if braced {
            self.brace_depth = self.brace_depth + brace_delta(&line);
        }
        let n = raw.len();
        let shifted = if n > 0 && raw[0] == ' ' {
            slice_vec(raw, 1, n)
        } else {
            slice_vec(raw, 0, n)
        };
        proof {
            if n > 0 && raw@[0] == ' ' {
                assert(shifted@ == raw@.skip(1));
            } else {
                assert(shifted@ == raw@);
            }
        }
        let v0 = trimmed_end(&shifted);
        let closed = if braced {
            self.brace_depth <= 0
        } else {
            closes_fence(&line, tables)
        };
        let split = if closed && !braced {
            split_after_fence_close(&v0, tables)
        } else {
            None
        };
        let (verbatim, tail) = match split {
            Some((h, t)) => (h, Some(t)),
            None => (v0, None),
        };
        let ghost before = lines_view(lines@);
        lines.push(verbatim);
        assert(lines_view(lines@) =~= before.push(verbatim@));
        if closed {
            normalize_pre_code_block(&mut lines);
            match self.code {
                Some(c) => reindent_code_region(&mut lines, &c),
                None => {},
            }
            let fi = self.fence_indent;
            self.push(Block::Verbatim { lines, first: fi });
            if self.depth == 0 {
                self.request();
            }
            tail
        } else {
            self.fence = Some((lines, braced));
            assert(self@ =~= fence_step(old(self)@, raw@, *cfg).0);
            None
        }
    }

    /// Get ready for a region to open.
    pub fn open_fence_prep(&mut self, before: &[char])
        ensures
            final(self)@ == open_fence_prep(old(self)@, before@),
    {
        self.release();
        let ghost st = self@;
        if before.len() > 0 {
            tokens_of(before, &mut self.prose);
        }
        assert(self@ =~= if before@.len() > 0 {
            ReadState { prose: tokens_fold(st.prose, ws_runs(before@)), ..st }
        } else {
            st
        });
        self.flush_prose();
        if self.depth == 0 {
            self.request();
        }
        self.fence_indent = self.rest;
        assert(self@ =~= open_fence_prep(old(self)@, before@));
    }

    /// Open a region.
    #[verifier::rlimit(40)]
    pub fn open_fence_region(&mut self, line: Vec<char>, trailing: &[char], element: bool, tables: bool)
        requires
            line@.len() <= i32::MAX,
        ensures
            final(self)@ == open_fence_region(old(self)@, line@, trailing@, element, tables),
    {
        if self_closing_fence(&line, tables) {
            let fi = self.fence_indent;
            let mut lines: Vec<Vec<char>> = Vec::new();
            let ghost lv = line@;
            lines.push(line);
            assert(lines_view(lines@) =~= seq![lv]);
            self.push(Block::Verbatim { lines, first: fi });
            if self.depth == 0 && element {
                self.request();
            }
            if trailing.len() > 0 {
                tokens_of(trailing, &mut self.prose);
            }
            assert(self@ =~= open_fence_region(old(self)@, lv, trailing@, element, tables));
        } else {
            let braced = brace_fence(&line);
            if braced {
                self.brace_depth = brace_delta(&line);
            }
            let mut lines: Vec<Vec<char>> = Vec::new();
            let ghost lv = line@;
            lines.push(line);
            assert(lines_view(lines@) =~= seq![lv]);
            self.fence = Some((lines, braced));
            assert(self@ =~= open_fence_region(old(self)@, lv, trailing@, element, tables));
        }
    }

    /// Read a line that opens a region kept as written.
    pub fn open_fence(&mut self, line0: &[char], cfg: &Comments)
        requires
            line0@.len() <= i32::MAX,
        ensures
            final(self)@ == open_fence(old(self)@, line0@, *cfg),
    {
        let tables = cfg.tables_are_preformatted;
        let (line, before, trailing, element) = fence_parts_at(line0, tables);
        self.open_fence_prep(&before);
        self.open_fence_region(line, &trailing, element, tables);
    }

    /// The runs of a line added to the prose, or to the description of the block tag before it.
    #[verifier::rlimit(60)]
    pub fn words(&mut self, line: &[char])
        ensures
            final(self)@ == st_words(old(self)@, line@),
    {
        let n = self.blocks.len();
        let last_tag = n > 0 && matches!(self.blocks[n - 1], Block::Tag { .. });
        proof {
            if n > 0 {
                assert(blocks_view(self.blocks@).last() == self.blocks@[n - 1]@);
            }
        }
        if last_tag && self.prose.len() == 0 {
            let mut taken = Block::Blank { requested: false };
            self.blocks.set_and_swap(n - 1, &mut taken);
            match taken {
                Block::Tag { name, argument, mut words } => {
                    tokens_of(line, &mut words);
                    self.blocks.set(n - 1, Block::Tag { name, argument, words });
                    assert(self@ =~= st_words(old(self)@, line@));
                },
                _ => {
                    assert(false);
                },
            }
            return;
        }
        let runs = runs_of(line);
        let ghost rs = lines_view(runs@);
        let mut i: usize = 0;
        assert(rs.skip(0) == rs);
        while i < runs.len()
            invariant
                rs == lines_view(runs@),
                i <= runs@.len(),
                words_fold(self@, rs.skip(i as int)) == words_fold(old(self)@, ws_runs(line@)),
            decreases runs@.len() - i,
        {
            let ghost st = self@;
            proof {
                assert(rs.skip(i as int)[0] == runs@[i as int]@);
                assert(rs.skip(i as int).drop_first() == rs.skip(i + 1));
                if self.prose@.len() > 0 {
                    assert(words_view(self.prose@).last() == self.prose@[self.prose@.len() - 1]@);
                }
            }
            let pl = self.prose.len();
            let space = !(pl > 0 && is_item_tag(&self.prose[pl - 1].text));
            let mut taken: Option<Vec<char>> = None;
            std::mem::swap(&mut taken, &mut self.pending);
            match taken {
                Some(g) => {
                    let mut glued = g;
                    crate::strs::push_all(&mut glued, &runs[i]);
                    tokenize(&glued, space, &mut self.prose);
                },
                None => {
                    tokenize(&runs[i], space, &mut self.prose);
                },
            }
            let ghost next = match st.pending {
                Some(g) => ReadState { prose: st.prose + tokenize_spec(g + rs.skip(i as int)[0], space), pending: None, ..st },
                None => ReadState { prose: st.prose + tokenize_spec(rs.skip(i as int)[0], space), ..st },
            };
            assert(self@ =~= next);
            i += 1;
        }
        assert(rs.skip(i as int) == Seq::<Seq<char>>::empty());
    }

    /// The list indents and depth a line moves through, then its words.
    pub fn indents(&mut self, line: &[char], cfg: &Comments)
        requires
            old(self).depth * (LIST_INDENT + ITEM_INDENT) <= usize::MAX,
        ensures
            final(self)@ == st_indents(old(self)@, line@, *cfg),
    {
        if cfg.format_html {
            proof {
                assert(list_level(self.depth as int, line@) <= self.depth);
                assert(list_level(self.depth as int, line@) * (LIST_INDENT + ITEM_INDENT) <= self.depth * (LIST_INDENT + ITEM_INDENT)) by (nonlinear_arith)
                    requires
                        list_level(self.depth as int, line@) <= self.depth,
                        0 <= list_level(self.depth as int, line@),
                ;
            }
            if self.prose.len() == 0 {
                let (f, r) = if cfg.set_off_html_lists {
                    list_indents(self.depth, line)
                } else {
                    (0, 0)
                };
                self.first = f;
                self.rest = r;
            }
            self.depth = list_depth(self.depth, line);
        }
        let ghost st2 = self@;
        assert(st2 =~= if cfg.format_html {
            let (f, r) = if old(self)@.prose.len() == 0 {
                if cfg.set_off_html_lists {
                    list_indents_spec(old(self)@.depth as int, line@)
                } else {
                    (0int, 0int)
                }
            } else {
                (old(self)@.first as int, old(self)@.rest as int)
            };
            ReadState { first: f as nat, rest: r as nat, depth: list_depth_spec(old(self)@.depth as int, line@) as nat, ..old(self)@ }
        } else {
            old(self)@
        });
        self.words(line);
    }

    /// A heading, or the rules after it.
    pub fn heading(&mut self, line: &[char], cfg: &Comments)
        requires
            old(self).depth * (LIST_INDENT + ITEM_INDENT) <= usize::MAX,
        ensures
            final(self)@ == st_heading(old(self)@, line@, *cfg),
    {
        if cfg.format_html && is_heading(line) {
            self.release();
            self.flush_prose();
            self.request();
            let mut words: Vec<Word> = Vec::new();
            tokens_of(line, &mut words);
            assert(words_view(words@) =~= tokens_of_spec(line@));
            self.push(Block::Prose { words, first: 0, rest: 0 });
            self.request();
        } else {
            self.indents(line, cfg);
        }
    }

    /// An HTML block element, then the rules after it.
    pub fn html_block(&mut self, line: &[char], cfg: &Comments)
        requires
            old(self).depth * (LIST_INDENT + ITEM_INDENT) <= usize::MAX,
        ensures
            final(self)@ == st_html_block(old(self)@, line@, *cfg),
    {
        if cfg.format_html && is_html_block(line, cfg.tables_are_preformatted) {
            self.flush_prose();
            if cfg.set_off_html_lists && self.depth == 0 && opens_list(line) {
                self.request();
            }
        }
        self.heading(line, cfg);
    }

    /// A list's closing tag, or the rules after it.
    pub fn close_list(&mut self, line: &[char], cfg: &Comments)
        requires
            old(self).depth * (LIST_INDENT + ITEM_INDENT) <= usize::MAX,
        ensures
            final(self)@ == st_close_list(old(self)@, line@, *cfg),
    {
        if cfg.format_html && cfg.set_off_html_lists && closes_list(line) {
            self.release();
            self.flush_prose();
            proof {
                assert(list_level(self.depth as int, line@) <= self.depth);
                assert(list_level(self.depth as int, line@) * (LIST_INDENT + ITEM_INDENT) <= self.depth * (LIST_INDENT + ITEM_INDENT)) by (nonlinear_arith)
                    requires
                        list_level(self.depth as int, line@) <= self.depth,
                        0 <= list_level(self.depth as int, line@),
                ;
            }
            let (lf, lr) = list_indents(self.depth, line);
            let depth = list_depth(self.depth, line);
            let mut words: Vec<Word> = Vec::new();
            tokens_of(line, &mut words);
            assert(words_view(words@) =~= tokens_of_spec(line@));
            self.push(Block::Prose { words, first: lf, rest: lr });
            self.depth = depth;
            if depth == 0 {
                self.request();
            }
            self.first = 0;
            self.rest = 0;
            assert(self@ =~= st_close_list(old(self)@, line@, *cfg));
        } else {
            self.html_block(line, cfg);
        }
    }

    /// A blockquote tag, or the rules after it.
    pub fn quote(&mut self, line: &[char], cfg: &Comments)
        requires
            old(self).depth * (LIST_INDENT + ITEM_INDENT) <= usize::MAX,
        ensures
            final(self)@ == st_quote(old(self)@, line@, *cfg),
    {
        if cfg.format_html && is_blockquote(line) {
            self.release();
            self.flush_prose();
            self.request();
            let mut words: Vec<Word> = Vec::new();
            tokens_of(line, &mut words);
            assert(words_view(words@) =~= tokens_of_spec(line@));
            self.push(Block::Prose { words, first: 0, rest: 0 });
            self.request();
        } else {
            self.close_list(line, cfg);
        }
    }

    /// A leading `<p>`, or the rules after it.
    #[verifier::rlimit(40)]
    pub fn para(&mut self, line: &[char], cfg: &Comments)
        requires
            old(self).depth * (LIST_INDENT + ITEM_INDENT) <= usize::MAX,
        ensures
            final(self)@ == st_para(old(self)@, line@, *cfg),
    {
        if cfg.format_html && cfg.paragraph_tags == ParagraphTags::Leading {
            match paragraph_open(line) {
                Some(after) => {
                    self.flush_prose();
                    let ghost st1 = self@;
                    let mut significant = false;
                    let mut k: usize = 0;
                    while k < self.blocks.len()
                        invariant
                            st1 == self@,
                            k <= self.blocks@.len(),
                            significant == exists|i: int| 0 <= i < k && !(#[trigger] st1.blocks[i] is Blank),
                        decreases self.blocks@.len() - k,
                    {
                        assert(st1.blocks[k as int] == self.blocks@[k as int]@);
                        if !matches!(self.blocks[k], Block::Blank { .. }) {
                            significant = true;
                        }
                        k += 1;
                    }
                    if significant {
                        if self.depth == 0 {
                            self.request();
                        }
                        if self.pending.is_some() {
                            let f = self.first;
                            self.push(paragraph_line(f));
                        }
                        self.pending = Some(chars_of("<p>"));
                    }
                    let ghost st2 = self@;
                    assert(st2 =~= if exists|i: int| 0 <= i < st1.blocks.len() && !(#[trigger] st1.blocks[i] is Blank) {
                        let st3 = if st1.depth == 0 {
                            request_st(st1)
                        } else {
                            st1
                        };
                        let st4 = if st3.pending is Some {
                            push_st(st3, paragraph_line_spec(st3.first))
                        } else {
                            st3
                        };
                        ReadState { pending: Some("<p>"@), ..st4 }
                    } else {
                        st1
                    });
                    if after.len() == 0 {
                        return;
                    }
                    self.quote(&after, cfg);
                    return;
                },
                None => {},
            }
        }
        self.quote(line, cfg);
    }

    /// A block tag, or the rules after it.
    pub fn tag(&mut self, line: &[char], cfg: &Comments)
        requires
            old(self).depth * (LIST_INDENT + ITEM_INDENT) <= usize::MAX,
        ensures
            final(self)@ == st_tag(old(self)@, line@, *cfg),
    {
        match block_tag(line) {
            Some(b) => {
                self.release();
                self.flush_prose();
                self.push(b);
                self.first = 0;
                self.rest = 0;
                assert(self@ =~= st_tag(old(self)@, line@, *cfg));
            },
            None => self.para(line, cfg),
        }
    }

    /// A blank line, or the rules after it.
    pub fn empty(&mut self, line: &[char], cfg: &Comments)
        requires
            old(self).depth * (LIST_INDENT + ITEM_INDENT) <= usize::MAX,
        ensures
            final(self)@ == st_empty(old(self)@, line@, *cfg),
    {
        if line.len() == 0 {
            self.flush_prose();
            let n = self.blocks.len();
            let last_tag = n > 0 && matches!(self.blocks[n - 1], Block::Tag { .. });
            let last_blank = n > 0 && matches!(self.blocks[n - 1], Block::Blank { .. });
            proof {
                if n > 0 {
                    assert(blocks_view(self.blocks@).last() == self.blocks@[n - 1]@);
                }
            }
            if self.depth == 0 && !last_blank && (!last_tag || cfg.blank_lines_between_tags) {
                self.push(Block::Blank { requested: false });
            }
        } else {
            self.tag(line, cfg);
        }
    }

    /// An HTML comment, or the rules after it.
    pub fn comment(&mut self, line: &[char], cfg: &Comments)
        requires
            old(self).depth * (LIST_INDENT + ITEM_INDENT) <= usize::MAX,
        ensures
            final(self)@ == st_comment(old(self)@, line@, *cfg),
    {
        if cfg.format_html {
            match split_html_comment(line) {
                Some((before, comment, after)) => {
                    if before.len() > 0 {
                        tokens_of(&before, &mut self.prose);
                    }
                    self.flush_prose();
                    let f = self.first;
                    let r = self.rest;
                    let mut words: Vec<Word> = Vec::new();
                    let ghost cv = comment@;
                    words.push(Word { text: comment, space: false });
                    assert(words_view(words@) =~= seq![(cv, false)]);
                    self.push(Block::Prose { words, first: f, rest: r });
                    if after.len() == 0 {
                        return;
                    }
                    self.empty(&after, cfg);
                    return;
                },
                None => {},
            }
        }
        self.empty(line, cfg);
    }

    /// A line that does not continue a region.
    #[verifier::rlimit(40)]
    pub fn line_step(&mut self, line0: &[char], cfg: &Comments) -> (r: Option<Vec<char>>)
        requires
            old(self).fence is None,
            line0@.len() <= i32::MAX,
            old(self).depth * (LIST_INDENT + ITEM_INDENT) <= usize::MAX,
        ensures
            (final(self)@, line_view(r)) == line_step(old(self)@, line0@, *cfg),
    {
        reveal(line_step);
        let dropped = cfg.format_html && cfg.paragraph_tags == ParagraphTags::Leading && has_paragraph_close(line0);
        let line1 = if dropped {
            trimmed(&drop_paragraph_close(line0))
        } else {
            slice_vec(line0, 0, line0.len())
        };
        proof {
            assert(line0@.subrange(0, line0@.len() as int) == line0@);
            lemma_drop_close_len(line0@);
            crate::javadoc::render::lemma_trim_len(drop_paragraph_close_spec(line0@));
        }
        if dropped && line1.len() == 0 {
            return None;
        }
        let split = if cfg.format_html {
            split_block_tag(&line1)
        } else {
            None
        };
        proof {
            lemma_split_block_len(line1@);
        }
        let (line, tail) = match split {
            Some((tag, t)) => (tag, Some(t)),
            None => (line1, None),
        };
        if opens_fence(&line, cfg.tables_are_preformatted) {
            self.open_fence(&line, cfg);
        } else {
            self.comment(&line, cfg);
        }
        tail
    }

    /// Read one line of the queue.
    pub fn step(&mut self, raw: &[char], cfg: &Comments) -> (r: Option<Vec<char>>)
        requires
            old(self).code matches Some(c) ==> c.tab_width > 0,
            raw@.len() <= i32::MAX,
            old(self).depth * (LIST_INDENT + ITEM_INDENT) <= usize::MAX,
            old(self).brace_depth + raw@.len() <= i32::MAX,
            old(self).brace_depth - raw@.len() >= i32::MIN,
        ensures
            (final(self)@, line_view(r)) == step(old(self)@, raw@, *cfg),
    {
        let code = self.code;
        let r = if self.fence.is_some() {
            self.fence_step(raw, cfg)
        } else {
            let line = trimmed(raw);
            proof {
                crate::javadoc::render::lemma_trim_len(raw@);
            }
            self.line_step(&line, cfg)
        };
        let ghost inner = self@;
        self.code = code;
        assert(self@ =~= ReadState { code: old(self)@.code, ..inner });
        r
    }

    /// Append a block.
    pub fn push(&mut self, b: Block)
        ensures
            final(self)@ == push_st(old(self)@, b@),
    {
        self.blocks.push(b);
        assert(blocks_view(self.blocks@) =~= blocks_view(old(self).blocks@).push(b@));
        assert(self@ =~= push_st(old(self)@, b@));
    }
}


/// The pieces of `s` between its newlines.
pub fn lines_of(s: &[char]) -> (r: Vec<Vec<char>>)
    ensures
        lines_view(r@) == split_lines(s@),
{
    let mut out: Vec<Vec<char>> = Vec::new();
    let mut pos: usize = 0;
    assert(s@.skip(0) == s@);
    assert(lines_view(out@) + split_lines(s@) =~= split_lines(s@));
    loop
        invariant_except_break
            pos <= s@.len(),
            lines_view(out@) + split_lines(s@.skip(pos as int)) == split_lines(s@),
        ensures
            lines_view(out@) == split_lines(s@),
        decreases s@.len() - pos,
    {
        let rest = slice_vec(s, pos, s.len());
        assert(rest@ == s@.skip(pos as int));
        let ghost before = lines_view(out@);
        match crate::strs::find_char(&rest, '\n', 0) {
            None => {
                proof {
                    lemma_split_lines_last(rest@);
                }
                out.push(rest);
                assert(lines_view(out@) =~= before.push(s@.skip(pos as int)));
                break;
            },
            Some(k) => {
                proof {
                    lemma_find_char_props(rest@, '\n', 0);
                    lemma_split_lines_step(rest@, k as int);
                }
                let head = slice_vec(&rest, 0, k);
                assert(head@ == rest@.take(k as int));
                out.push(head);
                assert(lines_view(out@) =~= before.push(rest@.take(k as int)));
                assert(rest@.skip(k + 1) == s@.skip(pos + k + 1));
                assert(lines_view(out@) + split_lines(s@.skip(pos + k + 1)) =~= before + split_lines(rest@));
                pos = pos + k + 1;
            },
        }
    }
    out
}

/// A queue is at least as long as its first line.
pub proof fn lemma_queue_len_first(q: Seq<Seq<char>>)
    requires
        q.len() > 0,
    ensures
        q[0].len() <= queue_len(q),
        queue_len(q) == q[0].len() + queue_len(q.drop_first()),
{
}

/// The lines a body splits into are no longer, together, than the body.
pub proof fn lemma_split_lines_len(s: Seq<char>)
    ensures
        queue_len(split_lines(s)) <= s.len(),
    decreases s.len(),
{
    lemma_find_char_props(s, '\n', 0);
    match find_char_from(s, '\n', 0) {
        None => {
            lemma_split_lines_last(s);
            lemma_queue_len_push_front(s, Seq::empty());
            assert(seq![s] + Seq::<Seq<char>>::empty() =~= seq![s]);
            assert(queue_len(Seq::<Seq<char>>::empty()) == 0);
        },
        Some(k) => {
            lemma_split_lines_step(s, k);
            lemma_split_lines_len(s.skip(k + 1));
            lemma_queue_len_push_front(s.take(k), split_lines(s.skip(k + 1)));
        },
    }
}

/// Every paragraph's tokens weigh no more than the blocks do.
pub proof fn lemma_prose_bounded_from_weight(bs: Seq<BlockView>)
    requires
        crate::javadoc::measure::blocks_weight(bs) <= i32::MAX,
    ensures
        crate::javadoc::blocks::prose_bounded(bs),
{
    crate::javadoc::measure::lemma_blocks_weight_bounds(bs);
    assert forall|k: int| 0 <= k < bs.len() implies (#[trigger] bs[k] matches BlockView::Prose(ws, _, _)
        ==> crate::javadoc::tokens::text_total(ws, ws.len() as int) <= i32::MAX) by {
        assert(crate::javadoc::measure::block_weight_of(bs[k]) <= crate::javadoc::measure::blocks_weight(bs));
    }
}

/// Removing a block keeps every paragraph bounded.
pub proof fn lemma_prose_bounded_drop(bs: Seq<BlockView>)
    requires
        crate::javadoc::blocks::prose_bounded(bs),
        bs.len() > 0,
    ensures
        crate::javadoc::blocks::prose_bounded(bs.drop_last()),
        crate::javadoc::blocks::prose_bounded(bs.drop_first()),
{
    assert forall|k: int| 0 <= k < bs.drop_last().len() implies (#[trigger] bs.drop_last()[k] matches BlockView::Prose(ws, _, _)
        ==> crate::javadoc::tokens::text_total(ws, ws.len() as int) <= i32::MAX) by {
        assert(bs.drop_last()[k] == bs[k]);
    }
    assert forall|k: int| 0 <= k < bs.drop_first().len() implies (#[trigger] bs.drop_first()[k] matches BlockView::Prose(ws, _, _)
        ==> crate::javadoc::tokens::text_total(ws, ws.len() as int) <= i32::MAX) by {
        assert(bs.drop_first()[k] == bs[k + 1]);
    }
}

/// Split a comment body into prose paragraphs, regions kept as written, block tags and blank
/// lines.
#[verifier::rlimit(80)]
pub fn parse(body: &[char], cfg: &Comments, layout: &Layout) -> (r: Vec<Block>)
    requires
        4 * body@.len() <= i32::MAX,
        24 * body@.len() <= usize::MAX,
        cfg.format_source_in_comments ==> layout.tab_width > 0,
    ensures
        blocks_view(r@) == parse_spec(body@, *cfg, code_indent_spec(*cfg, *layout)),
        crate::javadoc::measure::blocks_ready(blocks_view(r@), 4 * (body@.len() as int) + 4, 24 * (body@.len() as int)),
{
    let mut queue = lines_of(body);
    let code = code_indent(cfg, layout);
    let mut reader = BodyReader::new(code);
    let ghost all = split_lines(body@);
    let ghost total = body@.len() as int;
    let mut at: usize = 0;
    proof {
        assert(lines_view(queue@).skip(0) == all);
        lemma_split_lines_len(body@);
    }
    while at < queue.len()
        invariant
            at <= queue@.len(),
            total == body@.len(),
            4 * total <= i32::MAX,
            24 * total <= usize::MAX,
            read_lines(reader@, lines_view(queue@).skip(at as int), *cfg) == read_lines(start_state(code), all, *cfg),
            reader@.code == code,
            code matches Some(c) ==> c.tab_width > 0,
            crate::javadoc::measure::weight(reader@) + 4 * queue_len(lines_view(queue@).skip(at as int)) <= 4 * total,
            crate::javadoc::measure::indents_ok(reader@, 24 * total),
        decreases queue_len(lines_view(queue@).skip(at as int)), queue@.len() - at,
    {
        let ghost q = lines_view(queue@).skip(at as int);
        let ghost st = reader@;
        proof {
            assert(q[0] == queue@[at as int]@);
            lemma_queue_len_first(q);
            crate::javadoc::measure::lemma_blocks_weight_bounds(st.blocks);
            crate::javadoc::measure::lemma_tt_nonneg(st.prose, st.prose.len() as int);
            crate::javadoc::measure::lemma_step_weight(st, q[0], *cfg);
            lemma_read_step(st, q, *cfg);
            lemma_step_tail(st, q[0], *cfg);
            lemma_tail_weight_nonneg(step(st, q[0], *cfg).0);
            lemma_tail_weight_nonneg(st);
            crate::javadoc::measure::lemma_step_indents(st, q[0], *cfg, 24 * total);
        }
        let tail = reader.step(&queue[at], cfg);
        at += 1;
        proof {
            assert(q.drop_first() =~= lines_view(queue@).skip(at as int));
        }
        match tail {
            Some(t) => {
                let ghost tv = t@;
                queue.insert(at, t);
                proof {
                    assert(lines_view(queue@).skip(at as int) =~= seq![tv] + q.drop_first());
                    lemma_queue_len_push_front(tv, q.drop_first());
                }
            },
            None => {},
        }
    }
    proof {
        assert(lines_view(queue@).skip(at as int) =~= Seq::<Seq<char>>::empty());
        lemma_read_end(reader@, lines_view(queue@).skip(at as int), *cfg);
        crate::javadoc::measure::lemma_release_weight(reader@);
    }
    let ghost fin = reader@;
    reader.release();
    let mut region: Option<(Vec<Vec<char>>, bool)> = None;
    std::mem::swap(&mut region, &mut reader.fence);
    match region {
        Some((mut lines, _)) => {
            crate::javadoc::code::drop_trailing_blanks(&mut lines);
            let fi = reader.fence_indent;
            reader.blocks.push(Block::Verbatim { lines, first: fi });
        },
        None => {},
    }
    let ghost st1 = release_st(fin);
    let ghost blocks1 = match st1.fence {
        Some((lines, _)) => st1.blocks.push(BlockView::Verbatim(drop_trailing_blank(lines), st1.fence_indent)),
        None => st1.blocks,
    };
    assert(blocks_view(reader.blocks@) =~= blocks1);
    proof {
        match st1.fence {
            Some((lines, _)) => {
                crate::javadoc::measure::lemma_push_weight(
                    st1.blocks,
                    BlockView::Verbatim(drop_trailing_blank(lines), st1.fence_indent),
                );
            },
            None => {},
        }
    }
    assert(reader@ =~= ReadState { blocks: blocks1, fence: None, ..st1 });
    reader.flush_prose();
    proof {
        crate::javadoc::measure::lemma_flush_weight(ReadState { blocks: blocks1, fence: None, ..st1 });
        assert(flush_st(ReadState { blocks: blocks1, fence: None, ..st1 }).blocks == flush_st(
            ReadState { blocks: blocks1, ..st1 },
        ).blocks);
        crate::javadoc::measure::lemma_blocks_weight_bounds(reader@.blocks);
        crate::javadoc::measure::lemma_tt_nonneg(reader@.prose, reader@.prose.len() as int);
        lemma_tail_weight_nonneg(reader@);
        lemma_prose_bounded_from_weight(reader@.blocks);
        match st1.fence {
            Some((lines, _)) => {
                crate::javadoc::measure::lemma_push_indents(
                    st1.blocks,
                    BlockView::Verbatim(drop_trailing_blank(lines), st1.fence_indent),
                    24 * total,
                );
            },
            None => {},
        }
        crate::javadoc::measure::lemma_flush_indents(ReadState { blocks: blocks1, fence: None, ..st1 }, 24 * total);
        crate::javadoc::measure::lemma_blocks_weight_bounds(reader@.blocks);
        assert(crate::javadoc::measure::blocks_ready(reader@.blocks, 4 * total, 24 * total));
    }
    let mut blocks: Vec<Block> = Vec::new();
    std::mem::swap(&mut blocks, &mut reader.blocks);
    let ghost b2 = blocks_view(blocks@);
    while blocks.len() > 0 && matches!(blocks[blocks.len() - 1], Block::Blank { .. })
        invariant
            crate::javadoc::blocks::prose_bounded(blocks_view(blocks@)),
            crate::javadoc::measure::blocks_ready(blocks_view(blocks@), 4 * total, 24 * total),
            drop_trailing_blank_blocks(blocks_view(blocks@)) == drop_trailing_blank_blocks(b2),
        decreases blocks@.len(),
    {
        let ghost bs = blocks_view(blocks@);
        assert(bs.last() == blocks@[blocks@.len() - 1]@);
        proof {
            lemma_prose_bounded_drop(bs);
        }
        blocks.pop();
        assert(blocks_view(blocks@) =~= bs.drop_last());
        assert forall|k: int| 0 <= k < bs.drop_last().len() implies crate::javadoc::measure::block_ready(
            #[trigger] bs.drop_last()[k],
            4 * total,
            24 * total,
        ) by {
            assert(bs.drop_last()[k] == bs[k]);
        }
    }
    proof {
        let bs = blocks_view(blocks@);
        if bs.len() > 0 {
            assert(bs.last() == blocks@[blocks@.len() - 1]@);
        }
    }
    let ghost b3 = blocks_view(blocks@);
    while blocks.len() > 0 && matches!(blocks[0], Block::Blank { .. })
        invariant
            crate::javadoc::blocks::prose_bounded(blocks_view(blocks@)),
            crate::javadoc::measure::blocks_ready(blocks_view(blocks@), 4 * total, 24 * total),
            drop_leading_blank_blocks(blocks_view(blocks@)) == drop_leading_blank_blocks(b3),
        decreases blocks@.len(),
    {
        let ghost bs = blocks_view(blocks@);
        assert(bs[0] == blocks@[0]@);
        proof {
            lemma_prose_bounded_drop(bs);
        }
        blocks.remove(0);
        assert(blocks_view(blocks@) =~= bs.drop_first());
        assert forall|k: int| 0 <= k < bs.drop_first().len() implies crate::javadoc::measure::block_ready(
            #[trigger] bs.drop_first()[k],
            4 * total,
            24 * total,
        ) by {
            assert(bs.drop_first()[k] == bs[k + 1]);
        }
    }
    proof {
        let bs = blocks_view(blocks@);
        if bs.len() > 0 {
            assert(bs[0] == blocks@[0]@);
        }
    }
    let ghost b4 = blocks_view(blocks@);
    if cfg.format_html && cfg.paragraph_tags != ParagraphTags::Leading {
        split_paragraph_tags(&mut blocks);
        proof {
            crate::javadoc::measure::lemma_split_from_ready(b4, 0, 4 * total, 24 * total);
        }
    }
    let ghost b5 = blocks_view(blocks@);
    if cfg.format_html && cfg.paragraph_tags != ParagraphTags::Authored {
        infer_paragraph_tags(&mut blocks, cfg.paragraph_tags == ParagraphTags::OwnLine);
        proof {
            crate::javadoc::measure::lemma_infer_ready(b5, b5.len() - 1, cfg.paragraph_tags == ParagraphTags::OwnLine, 4 * total, 24 * total);
        }
    } else {
        assert forall|k: int| 0 <= k < b5.len() implies crate::javadoc::measure::block_ready(
            #[trigger] b5[k],
            4 * total + 4,
            24 * total,
        ) by {
            assert(crate::javadoc::measure::block_ready(b5[k], 4 * total, 24 * total));
        }
    }
    blocks
}

/// Each part of a state's weight is bounded by the whole.
pub proof fn lemma_tail_weight_nonneg(st: ReadState)
    ensures
        st.depth <= crate::javadoc::measure::weight(st),
        crate::javadoc::measure::abs(st.brace_depth) <= crate::javadoc::measure::weight(st),
        crate::javadoc::measure::blocks_weight(st.blocks) <= crate::javadoc::measure::weight(st),
        crate::javadoc::measure::weight(st) >= 0,
{
    crate::javadoc::measure::lemma_blocks_weight_bounds(st.blocks);
    crate::javadoc::measure::lemma_tt_nonneg(st.prose, st.prose.len() as int);
}

} // verus!
