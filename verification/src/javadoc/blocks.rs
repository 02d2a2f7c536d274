//! A comment body as blocks — prose to refill, lines kept as written, block tags, blank lines —
//! and the rules that act on blocks rather than on lines.

use vstd::prelude::*;

use crate::javadoc::lines::{brace_delta, brace_delta_spec};
use crate::javadoc::tokens::{
    lines_view, runs_of, text_total, tokenize, tokenize_spec, words_view, ws_runs, Word,
};
use crate::javadoc::ascii_lower;
use crate::javadoc::tokens::is_item_tag_spec;
use crate::javadoc::{html_tag, html_tag_spec};
use crate::config::TagAlignment;
use crate::ir::{lemma_utf16_width_bound, utf16_width, Width};
use crate::strs::{chars_of, lower, push_all, rfind_char, rfind_char_exec, seq_eq, slice_vec, starts_with};

verus! {

/// One logical piece of a comment body.
#[derive(Debug)]
pub enum Block {
    /// Prose to be refilled, with the extra indent its first and continuation lines take.
    Prose {
        /// The tokens to refill.
        words: Vec<Word>,
        /// Columns of extra indent on the first line.
        first: usize,
        /// Columns of extra indent on every line after it.
        rest: usize,
    },
    /// Lines to be emitted exactly as they are — fenced code, `<pre>`, a table.
    Verbatim {
        /// The lines, already stripped of the `*` prefix.
        lines: Vec<Vec<char>>,
        /// Columns of extra indent on the opening line.
        first: usize,
    },
    /// A block tag: its name (`@param`), an optional first argument, and its description words.
    Tag {
        /// The tag itself, `@`-prefixed.
        name: Vec<char>,
        /// The parameter or exception name, for the tags that take one.
        argument: Option<Vec<char>>,
        /// The description, as tokens to refill.
        words: Vec<Word>,
    },
    /// A blank line: one the author wrote, or one a tag asked for.
    Blank {
        /// Whether a tag asked for it.
        requested: bool,
    },
}

/// What a block holds, as sequences.
pub enum BlockView {
    /// Prose: its tokens and indents.
    Prose(Seq<(Seq<char>, bool)>, nat, nat),
    /// Lines kept as written, and the opening line's indent.
    Verbatim(Seq<Seq<char>>, nat),
    /// A block tag: name, argument, description.
    Tag(Seq<char>, Option<Seq<char>>, Seq<(Seq<char>, bool)>),
    /// A blank line, and whether it was asked for.
    Blank(bool),
}

/// An optional sequence, viewed.
pub open spec fn opt_view(o: Option<Vec<char>>) -> Option<Seq<char>> {
    match o {
        Some(v) => Some(v@),
        None => None,
    }
}

impl View for Block {
    type V = BlockView;

    open spec fn view(&self) -> BlockView {
        match self {
            Block::Prose { words, first, rest } => BlockView::Prose(words_view(words@), *first as nat, *rest as nat),
            Block::Verbatim { lines, first } => BlockView::Verbatim(lines_view(lines@), *first as nat),
            Block::Tag { name, argument, words } => BlockView::Tag(name@, opt_view(*argument), words_view(words@)),
            Block::Blank { requested } => BlockView::Blank(*requested),
        }
    }
}

/// The blocks, viewed.
pub open spec fn blocks_view(v: Seq<Block>) -> Seq<BlockView> {
    v.map_values(|b: Block| b@)
}

/// The tokens of each run, in turn, all spaced.
pub open spec fn tokenize_all(runs: Seq<Seq<char>>) -> Seq<(Seq<char>, bool)>
    decreases runs.len(),
{
    if runs.len() == 0 {
        Seq::empty()
    } else {
        tokenize_spec(runs[0], true) + tokenize_all(runs.drop_first())
    }
}

/// Whether a block tag's name is one that takes an argument before its description.
pub open spec fn takes_argument(name: Seq<char>) -> bool {
    name == "param"@ || name == "throws"@ || name == "exception"@
}

/// A line that starts a block tag, read as one: `@` and a word starting with a lowercase ASCII
/// letter is the tag; `@param`, `@throws` and `@exception` take the next run as their argument;
/// the runs after that, tokenized, are the description.
pub open spec fn block_tag_spec(line: Seq<char>) -> Option<(Seq<char>, Option<Seq<char>>, Seq<(Seq<char>, bool)>)> {
    if line.len() == 0 || line[0] != '@' {
        None
    } else {
        let runs = ws_runs(line.skip(1));
        if runs.len() == 0 || runs[0].len() == 0 || !('a' <= runs[0][0] && runs[0][0] <= 'z') {
            None
        } else {
            let name = runs[0];
            let takes = takes_argument(name);
            let argument = if takes && runs.len() > 1 {
                Some(runs[1])
            } else {
                None
            };
            let from: int = if takes && runs.len() > 1 {
                2
            } else {
                1
            };
            Some((seq!['@'] + name, argument, tokenize_all(runs.skip(from))))
        }
    }
}

/// Parse a line that starts a block tag.
pub fn block_tag(line: &[char]) -> (r: Option<Block>)
    ensures
        match r {
            Some(b) => b@ matches BlockView::Tag(n, a, w) && block_tag_spec(line@) == Some((n, a, w)),
            None => block_tag_spec(line@) is None,
        },
{
    if line.len() == 0 || line[0] != '@' {
        return None;
    }
    let after = slice_vec(line, 1, line.len());
    assert(after@ == line@.skip(1));
    let runs = runs_of(&after);
    let ghost rs = lines_view(runs@);
    if runs.len() == 0 || runs[0].len() == 0 || !('a' <= runs[0][0] && runs[0][0] <= 'z') {
        proof {
            if runs@.len() > 0 {
                assert(rs[0] == runs@[0]@);
            }
        }
        return None;
    }
    assert(rs[0] == runs@[0]@);
    let takes = seq_eq(&runs[0], &chars_of("param")) || seq_eq(&runs[0], &chars_of("throws"))
        || seq_eq(&runs[0], &chars_of("exception"));
    let mut name: Vec<char> = Vec::new();
    name.push('@');
    push_all(&mut name, &runs[0]);
    let (argument, from) = if takes && runs.len() > 1 {
        assert(rs[1] == runs@[1]@);
        (Some(slice_vec(&runs[1], 0, runs[1].len())), 2)
    } else {
        (None, 1)
    };
    proof {
        if takes && runs@.len() > 1 {
            assert(runs@[1]@.subrange(0, runs@[1]@.len() as int) == runs@[1]@);
        }
    }
    let mut words: Vec<Word> = Vec::new();
    let mut i: usize = from;
    assert(words_view(words@) + tokenize_all(rs.skip(i as int)) =~= tokenize_all(rs.skip(from as int)));
    while i < runs.len()
        invariant
            rs == lines_view(runs@),
            from <= i <= runs@.len(),
            words_view(words@) + tokenize_all(rs.skip(i as int)) == tokenize_all(rs.skip(from as int)),
        decreases runs@.len() - i,
    {
        proof {
            assert(rs.skip(i as int)[0] == runs@[i as int]@);
            assert(rs.skip(i as int).drop_first() == rs.skip(i + 1));
        }
        tokenize(&runs[i], true, &mut words);
        i += 1;
    }
    assert(rs.skip(i as int) == Seq::<Seq<char>>::empty());
    assert(words_view(words@) + Seq::<(Seq<char>, bool)>::empty() =~= words_view(words@));
    Some(Block::Tag { name, argument, words })
}


/// Ask for a blank line above whatever comes next: a blank line already last is marked as asked
/// for; nothing written yet needs no separation; anything else gets a blank line after it.
pub open spec fn request_blank_spec(bs: Seq<BlockView>) -> Seq<BlockView> {
    if bs.len() == 0 {
        bs
    } else if bs.last() is Blank {
        bs.update(bs.len() - 1, BlockView::Blank(true))
    } else {
        bs.push(BlockView::Blank(true))
    }
}

/// Ask for a blank line above whatever comes next.
pub fn request_blank(blocks: &mut Vec<Block>)
    ensures
        blocks_view(final(blocks)@) == request_blank_spec(blocks_view(old(blocks)@)),
{
    let n = blocks.len();
    if n == 0 {
        return;
    }
    let last_blank = match &blocks[n - 1] {
        Block::Blank { .. } => true,
        _ => false,
    };
    if last_blank {
        blocks.set(n - 1, Block::Blank { requested: true });
        assert(blocks_view(blocks@) =~= request_blank_spec(blocks_view(old(blocks)@)));
    } else {
        blocks.push(Block::Blank { requested: true });
        assert(blocks_view(blocks@) =~= request_blank_spec(blocks_view(old(blocks)@)));
    }
}

/// Hand a deferred `<p>` back to the prose, tokenized as a spaced run.
pub fn release_pending(pending: &mut Option<Vec<char>>, prose: &mut Vec<Word>)
    ensures
        *final(pending) is None,
        words_view(final(prose)@) == words_view(old(prose)@) + match *old(pending) {
            Some(g) => tokenize_spec(g@, true),
            None => Seq::empty(),
        },
{
    let mut taken: Option<Vec<char>> = None;
    std::mem::swap(&mut taken, pending);
    match taken {
        Some(glued) => tokenize(&glued, true, prose),
        None => {
            assert(words_view(prose@) =~= words_view(old(prose)@) + Seq::<(Seq<char>, bool)>::empty());
        },
    }
}

/// Move any accumulated prose into the blocks, at `first` / `rest` columns of extra indent.
pub fn flush(prose: &mut Vec<Word>, blocks: &mut Vec<Block>, first: usize, rest: usize)
    ensures
        final(prose)@.len() == 0,
        blocks_view(final(blocks)@) == if old(prose)@.len() > 0 {
            blocks_view(old(blocks)@).push(BlockView::Prose(words_view(old(prose)@), first as nat, rest as nat))
        } else {
            blocks_view(old(blocks)@)
        },
{
    if prose.len() > 0 {
        let mut words: Vec<Word> = Vec::new();
        std::mem::swap(&mut words, prose);
        blocks.push(Block::Prose { words, first, rest });
        assert(blocks_view(blocks@) =~= blocks_view(old(blocks)@).push(
            BlockView::Prose(words_view(old(prose)@), first as nat, rest as nat),
        ));
    }
}

/// A `<p>` occupying a content line of its own.
pub open spec fn paragraph_line_spec(indent: nat) -> BlockView {
    BlockView::Prose(seq![("<p>"@, false)], indent, indent)
}

/// A `<p>` occupying a content line of its own.
pub fn paragraph_line(indent: usize) -> (r: Block)
    ensures
        r@ == paragraph_line_spec(indent as nat),
{
    let mut words: Vec<Word> = Vec::new();
    words.push(Word { text: chars_of("<p>"), space: false });
    assert(words_view(words@) =~= seq![("<p>"@, false)]);
    Block::Prose { words, first: indent, rest: indent }
}

/// The tag names that are a token of their own at either end.
pub open spec fn block_names() -> Seq<&'static str> {
    seq![
        "h1",
        "h2",
        "h3",
        "h4",
        "h5",
        "h6",
        "blockquote",
        "pre",
        "table",
        "p",
        "ul",
        "ol",
        "dl",
        "li",
        "dt",
        "dd",
    ]
}

/// Whether `rest` is exactly one such tag, opening or closing, from its `<` to its end.
pub open spec fn is_whole_block_tag(rest: Seq<char>) -> bool {
    exists|i: int|
        0 <= i < block_names().len() && (html_tag_spec(rest, block_names()[i]@, false) == Some(rest.len() as int)
            || html_tag_spec(rest, block_names()[i]@, true) == Some(rest.len() as int))
}

/// Whether a block is prose whose last token ends with one of [`block_names`]' tags: from the
/// last `<` of its lower-cased text to its end is exactly such a tag.
pub open spec fn ends_block_tag_spec(b: BlockView) -> bool {
    match b {
        BlockView::Prose(ws, _, _) => ws.len() > 0 && {
            let l = lower(ws.last().0);
            match rfind_char(l, '<') {
                None => false,
                Some(open) => is_whole_block_tag(l.skip(open)),
            }
        },
        _ => false,
    }
}

/// Whether `l[from..]` is exactly one of the block tags.
#[verifier::rlimit(40)]
fn whole_block_tag(l: &[char], from: usize) -> (r: bool)
    requires
        from <= l@.len(),
    ensures
        r == is_whole_block_tag(l@.skip(from as int)),
{
    let names: [&str; 16] = [
        "h1",
        "h2",
        "h3",
        "h4",
        "h5",
        "h6",
        "blockquote",
        "pre",
        "table",
        "p",
        "ul",
        "ol",
        "dl",
        "li",
        "dt",
        "dd",
    ];
    assert(names@ =~= block_names());
    let len = l.len() - from;
    let mut i: usize = 0;
    while i < names.len()
        invariant
            names@ == block_names(),
            from <= l@.len(),
            len == l@.len() - from,
            i <= names@.len(),
            forall|j: int|
                0 <= j < i ==> !(html_tag_spec(l@.skip(from as int), #[trigger] names@[j]@, false) == Some(len as int)
                    || html_tag_spec(l@.skip(from as int), names@[j]@, true) == Some(len as int)),
        decreases names@.len() - i,
    {
        if html_tag(l, from, names[i], false) == Some(len) || html_tag(l, from, names[i], true) == Some(len) {
            return true;
        }
        i += 1;
    }
    false
}

/// Whether a block ends with a tag that is not a literal to the Javadoc lexer.
pub fn ends_block_tag(block: &Block) -> (r: bool)
    ensures
        r == ends_block_tag_spec(block@),
{
    match block {
        Block::Prose { words, .. } => {
            if words.len() == 0 {
                return false;
            }
            let l = ascii_lower(&words[words.len() - 1].text);
            assert(words_view(words@).last() == words@[words@.len() - 1]@);
            match rfind_char_exec(&l, '<') {
                None => false,
                Some(open) => {
                    proof {
                        crate::strs::lemma_rfind_char_props(l@, '<');
                    }
                    whole_block_tag(&l, open)
                },
            }
        },
        _ => false,
    }
}


/// Whether the block at `at` opens a paragraph that a blank line separates from prose before it,
/// and so is owed a `<p>`: a blank line before it, prose before that which does not end with a
/// block-level tag, and the block itself prose at the margin whose first token is not a tag.
pub open spec fn owes_paragraph_tag(bs: Seq<BlockView>, at: int) -> bool {
    &&& 2 <= at < bs.len()
    &&& bs[at - 1] is Blank
    &&& bs[at - 2] is Prose
    &&& !ends_block_tag_spec(bs[at - 2])
    &&& bs[at] matches BlockView::Prose(ws, first, _) && first == 0 && ws.len() > 0 && !starts_with(
        ws[0].0,
        "<"@,
    )
}

/// The `<p>` owed at `at`, if any: a line of its own before the block, or glued to its first
/// token.
pub open spec fn infer_at(bs: Seq<BlockView>, at: int, own_line: bool) -> Seq<BlockView> {
    if owes_paragraph_tag(bs, at) {
        if own_line {
            bs.insert(at, paragraph_line_spec(0))
        } else {
            match bs[at] {
                BlockView::Prose(ws, f, r) => bs.update(
                    at,
                    BlockView::Prose(ws.update(0, ("<p>"@ + ws[0].0, ws[0].1)), f, r),
                ),
                _ => bs,
            }
        }
    } else {
        bs
    }
}

/// The `<p>` tags owed at `k`, `k - 1`, … down to `2`, in that order.
pub open spec fn infer_down(bs: Seq<BlockView>, k: int, own_line: bool) -> Seq<BlockView>
    decreases k,
{
    if k < 2 {
        bs
    } else {
        infer_down(infer_at(bs, k, own_line), k - 1, own_line)
    }
}

/// A `<p>` wherever a blank line separates two runs of prose, examined from the last block back.
pub open spec fn infer_paragraph_tags_spec(bs: Seq<BlockView>, own_line: bool) -> Seq<BlockView> {
    infer_down(bs, bs.len() - 1, own_line)
}

/// Whether the block at `at` is owed a `<p>`.
fn owes_at(blocks: &Vec<Block>, at: usize) -> (r: bool)
    requires
        2 <= at < blocks@.len(),
    ensures
        r == owes_paragraph_tag(blocks_view(blocks@), at as int),
{
    let ghost bs = blocks_view(blocks@);
    assert(bs[at - 1] == blocks@[at - 1]@ && bs[at - 2] == blocks@[at - 2]@ && bs[at as int] == blocks@[at as int]@);
    if !matches!(blocks[at - 1], Block::Blank { .. }) || !matches!(blocks[at - 2], Block::Prose { .. }) {
        return false;
    }
    if ends_block_tag(&blocks[at - 2]) {
        return false;
    }
    match &blocks[at] {
        Block::Prose { words, first, .. } => {
            if *first != 0 || words.len() == 0 {
                return false;
            }
            assert(words_view(words@)[0] == words@[0]@);
            !crate::javadoc::lines::begins(&words[0].text, "<")
        },
        _ => false,
    }
}

/// Insert a `<p>` wherever a blank line separates two runs of prose.
#[verifier::rlimit(40)]
pub fn infer_paragraph_tags(blocks: &mut Vec<Block>, own_line: bool)
    ensures
        blocks_view(final(blocks)@) == infer_paragraph_tags_spec(blocks_view(old(blocks)@), own_line),
{
    let ghost start = blocks_view(blocks@);
    let mut at = blocks.len();
    assert(infer_down(blocks_view(blocks@), at - 1, own_line) == infer_paragraph_tags_spec(start, own_line));
    while at > 2
        invariant
            2 <= at ==> at <= blocks@.len(),
            at < 2 ==> at == blocks@.len(),
            infer_down(blocks_view(blocks@), at - 1, own_line) == infer_paragraph_tags_spec(start, own_line),
        decreases at,
    {
        at -= 1;
        let ghost bs = blocks_view(blocks@);
        if owes_at(blocks, at) {
            if own_line {
                blocks.insert(at, paragraph_line(0));
                assert(blocks_view(blocks@) =~= bs.insert(at as int, paragraph_line_spec(0)));
            } else {
                let mut taken = Block::Blank { requested: false };
                blocks.set_and_swap(at, &mut taken);
                match taken {
                    Block::Prose { mut words, first, rest } => {
                        let ghost ws = words_view(words@);
                        let mut w0 = Word { text: Vec::new(), space: false };
                        words.set_and_swap(0, &mut w0);
                        let mut text = chars_of("<p>");
                        push_all(&mut text, &w0.text);
                        words.set(0, Word { text, space: w0.space });
                        assert(words_view(words@) =~= ws.update(0, ("<p>"@ + ws[0].0, ws[0].1)));
                        blocks.set(at, Block::Prose { words, first, rest });
                        assert(blocks_view(blocks@) =~= infer_at(bs, at as int, own_line));
                    },
                    _ => {
                        assert(false);
                    },
                }
            }
        } else {
            assert(infer_at(bs, at as int, own_line) == bs);
        }
    }
}


/// The net brace count of the first `k` tokens.
pub open spec fn brace_before(ws: Seq<(Seq<char>, bool)>, k: int) -> int
    decreases k,
{
    if k <= 0 {
        0
    } else {
        brace_before(ws, k - 1) + brace_delta_spec(ws[k - 1].0)
    }
}

/// Whether token `k` is a `<p>` outside every inline `{…}` tag.
pub open spec fn is_open_p(ws: Seq<(Seq<char>, bool)>, k: int) -> bool {
    brace_before(ws, k) <= 0 && ws[k].0 == "<p>"@
}

/// The first token at or after `k` that is a `<p>` outside every inline tag.
pub open spec fn find_open_p(ws: Seq<(Seq<char>, bool)>, k: int) -> Option<int>
    decreases ws.len() - k,
{
    if k < 0 || k >= ws.len() {
        None
    } else if is_open_p(ws, k) {
        Some(k)
    } else {
        find_open_p(ws, k + 1)
    }
}

/// A token found by [`find_open_p`] is at or after where the search started.
pub proof fn lemma_find_open_p_range(ws: Seq<(Seq<char>, bool)>, k: int)
    ensures
        find_open_p(ws, k) matches Some(f) ==> k <= f < ws.len(),
    decreases ws.len() - k,
{
    if 0 <= k < ws.len() && !is_open_p(ws, k) {
        lemma_find_open_p_range(ws, k + 1);
    }
}

/// Where a paragraph splits at its first `<p>`: before the tag, or after it when it leads the
/// paragraph; `None` when there is none, or nothing would follow the split.
pub open spec fn p_cut(ws: Seq<(Seq<char>, bool)>) -> Option<int> {
    match find_open_p(ws, 0) {
        None => None,
        Some(found) => {
            let cut = if found == 0 {
                1
            } else {
                found
            };
            if cut >= ws.len() {
                None
            } else {
                Some(cut)
            }
        },
    }
}

/// The number of tokens in a block, and one for the block.
pub open spec fn block_weight(b: BlockView) -> nat {
    match b {
        BlockView::Prose(ws, _, _) => ws.len() + 1,
        _ => 1,
    }
}

/// The total weight of a run of blocks.
pub open spec fn weight(s: Seq<BlockView>) -> nat
    decreases s.len(),
{
    if s.len() == 0 {
        0
    } else {
        block_weight(s[0]) + weight(s.drop_first())
    }
}

/// Every `<p>` in prose from block `at` on given a content line of its own: a paragraph splits
/// at its first `<p>` (see [`p_cut`]), the part after the split becomes prose of its own at the
/// paragraph's continuation indent, and that part is examined next.
#[verifier::opaque]
pub open spec fn split_from(bs: Seq<BlockView>, at: int) -> Seq<BlockView>
    decreases weight(bs.skip(at)),
{
    if at < 0 || at >= bs.len() {
        bs
    } else {
        match bs[at] {
            BlockView::Prose(ws, f, r) => match p_cut(ws) {
                Some(cut) => {
                    let next = bs.update(at, BlockView::Prose(ws.take(cut), f, r)).insert(
                        at + 1,
                        BlockView::Prose(ws.skip(cut), r, r),
                    );
                    proof {
                        lemma_find_open_p_range(ws, 0);
                        lemma_split_weight(bs, at, ws, f, r, cut);
                    }
                    split_from(next, at + 1)
                },
                None => {
                    proof {
                        lemma_skip_weight(bs, at);
                    }
                    split_from(bs, at + 1)
                },
            },
            _ => {
                proof {
                    lemma_skip_weight(bs, at);
                }
                split_from(bs, at + 1)
            },
        }
    }
}

/// Moving past a block lowers the weight ahead.
pub proof fn lemma_skip_weight(bs: Seq<BlockView>, at: int)
    requires
        0 <= at < bs.len(),
    ensures
        weight(bs.skip(at + 1)) < weight(bs.skip(at)),
{
    assert(bs.skip(at).drop_first() == bs.skip(at + 1));
}

/// Splitting a paragraph and moving past its head lowers the weight ahead.
pub proof fn lemma_split_weight(bs: Seq<BlockView>, at: int, ws: Seq<(Seq<char>, bool)>, f: nat, r: nat, cut: int)
    requires
        0 <= at < bs.len(),
        bs[at] == BlockView::Prose(ws, f, r),
        1 <= cut < ws.len(),
    ensures
        weight(
            bs.update(at, BlockView::Prose(ws.take(cut), f, r)).insert(at + 1, BlockView::Prose(ws.skip(cut), r, r)).skip(
                at + 1,
            ),
        ) < weight(bs.skip(at)),
{
    let next = bs.update(at, BlockView::Prose(ws.take(cut), f, r)).insert(at + 1, BlockView::Prose(ws.skip(cut), r, r));
    let tail = next.skip(at + 1);
    assert(tail.drop_first() =~= bs.skip(at + 1));
    assert(bs.skip(at).drop_first() == bs.skip(at + 1));
}

/// One block examined by [`split_from`].
pub proof fn lemma_split_step(bs: Seq<BlockView>, at: int)
    requires
        0 <= at < bs.len(),
    ensures
        split_from(bs, at) == match bs[at] {
            BlockView::Prose(ws, f, r) => match p_cut(ws) {
                Some(cut) => split_from(
                    bs.update(at, BlockView::Prose(ws.take(cut), f, r)).insert(at + 1, BlockView::Prose(ws.skip(cut), r, r)),
                    at + 1,
                ),
                None => split_from(bs, at + 1),
            },
            _ => split_from(bs, at + 1),
        },
{
    reveal(split_from);
}

/// Past the last block there is nothing left to split.
pub proof fn lemma_split_end(bs: Seq<BlockView>, at: int)
    requires
        at >= bs.len(),
    ensures
        split_from(bs, at) == bs,
{
    reveal(split_from);
}

/// Whether every paragraph's tokens fit the brace counter.
pub open spec fn prose_bounded(bs: Seq<BlockView>) -> bool {
    forall|k: int|
        0 <= k < bs.len() ==> (#[trigger] bs[k] matches BlockView::Prose(ws, _, _) ==> text_total(ws, ws.len() as int)
            <= i32::MAX)
}

/// A prefix's total and a suffix's total add up to the whole.
pub proof fn lemma_text_total_split(ws: Seq<(Seq<char>, bool)>, cut: int, n: int)
    requires
        0 <= cut <= n <= ws.len(),
    ensures
        text_total(ws, n) == text_total(ws, cut) + text_total(ws.skip(cut), n - cut),
        text_total(ws.take(cut), cut) == text_total(ws, cut),
    decreases n,
{
    if n > cut {
        lemma_text_total_split(ws, cut, n - 1);
        assert(ws.skip(cut)[n - 1 - cut] == ws[n - 1]);
    } else {
        lemma_text_total_prefix(ws, cut, cut);
    }
}

/// The total of the first `k` tokens is the same read off a longer prefix.
proof fn lemma_text_total_prefix(ws: Seq<(Seq<char>, bool)>, cut: int, k: int)
    requires
        0 <= k <= cut <= ws.len(),
    ensures
        text_total(ws.take(cut), k) == text_total(ws, k),
    decreases k,
{
    if k > 0 {
        lemma_text_total_prefix(ws, cut, k - 1);
    }
}

/// A total is never negative.
proof fn lemma_text_total_nonneg(ws: Seq<(Seq<char>, bool)>, k: int)
    ensures
        text_total(ws, k) >= 0,
    decreases k,
{
    if k > 0 {
        lemma_text_total_nonneg(ws, k - 1);
    }
}

/// A token's length is counted in the total.
proof fn lemma_text_total_word(ws: Seq<(Seq<char>, bool)>, k: int, n: int)
    requires
        0 <= k < n <= ws.len(),
    ensures
        ws[k].0.len() < text_total(ws, n),
        text_total(ws, k) < text_total(ws, n),
    decreases n,
{
    lemma_text_total_nonneg(ws, n - 1);
    if k < n - 1 {
        lemma_text_total_word(ws, k, n - 1);
    }
}

/// The brace count before a token is bounded by the characters before it.
proof fn lemma_brace_before_bound(ws: Seq<(Seq<char>, bool)>, k: int)
    requires
        0 <= k <= ws.len(),
    ensures
        -text_total(ws, k) <= brace_before(ws, k) <= text_total(ws, k),
    decreases k,
{
    if k > 0 {
        lemma_brace_before_bound(ws, k - 1);
        lemma_brace_delta_bound(ws[k - 1].0);
    }
}

/// A net brace count is bounded by the length.
pub proof fn lemma_brace_delta_bound(s: Seq<char>)
    ensures
        -s.len() <= brace_delta_spec(s) <= s.len(),
{
    crate::javadoc::lines::lemma_brace_scan_bound(s, 0);
}

/// Where the paragraph `words` splits at its first `<p>`.
fn find_p_cut(words: &Vec<Word>) -> (r: Option<usize>)
    requires
        text_total(words_view(words@), words@.len() as int) <= i32::MAX,
    ensures
        match r {
            Some(c) => p_cut(words_view(words@)) == Some(c as int),
            None => p_cut(words_view(words@)) is None,
        },
{
    let ghost ws = words_view(words@);
    let mut brace: i32 = 0;
    let mut k: usize = 0;
    let mut found: Option<usize> = None;
    while k < words.len() && found.is_none()
        invariant
            ws == words_view(words@),
            k <= words@.len(),
            text_total(ws, words@.len() as int) <= i32::MAX,
            brace == brace_before(ws, k as int),
            found is None ==> find_open_p(ws, k as int) == find_open_p(ws, 0),
            found matches Some(f) ==> find_open_p(ws, 0) == Some(f as int),
        decreases words@.len() - k,
    {
        proof {
            assert(ws[k as int] == words@[k as int]@);
            lemma_text_total_word(ws, k as int, words@.len() as int);
            lemma_brace_before_bound(ws, k as int);
            lemma_brace_before_bound(ws, k + 1);
            lemma_text_total_word(ws, k as int, words@.len() as int);
            if k + 1 < words@.len() {
                lemma_text_total_word(ws, k + 1, words@.len() as int);
            }
        }
        let outside = brace <= 0;
        let delta = brace_delta(&words[k].text);
        if outside && seq_eq(&words[k].text, &chars_of("<p>")) {
            found = Some(k);
        }
        brace = brace + delta;
        k += 1;
    }
    let found = match found {
        Some(f) => f,
        None => {
            assert(find_open_p(ws, k as int) is None);
            return None;
        },
    };
    let cut = if found == 0 {
        1
    } else {
        found
    };
    if cut >= words.len() {
        None
    } else {
        Some(cut)
    }
}

/// Give every `<p>` a content line of its own, wherever in a paragraph it was written.
#[verifier::rlimit(60)]
pub fn split_paragraph_tags(blocks: &mut Vec<Block>)
    requires
        prose_bounded(blocks_view(old(blocks)@)),
    ensures
        blocks_view(final(blocks)@) == split_from(blocks_view(old(blocks)@), 0),
{
    let ghost start = blocks_view(blocks@);
    let mut at: usize = 0;
    while at < blocks.len()
        invariant
            at <= blocks@.len(),
            prose_bounded(blocks_view(blocks@)),
            split_from(blocks_view(blocks@), at as int) == split_from(start, 0),
        decreases weight(blocks_view(blocks@).skip(at as int)),
    {
        let ghost bs = blocks_view(blocks@);
        proof {
            lemma_split_step(bs, at as int);
            assert(bs[at as int] == blocks@[at as int]@);
        }
        let cut = match &blocks[at] {
            Block::Prose { words, .. } => {
                proof {
                    assert(bs[at as int] matches BlockView::Prose(ws, _, _));
                }
                find_p_cut(words)
            },
            _ => None,
        };
        match cut {
            None => {
                proof {
                    lemma_skip_weight(bs, at as int);
                }
                at += 1;
            },
            Some(cut) => {
                let mut taken = Block::Blank { requested: false };
                blocks.set_and_swap(at, &mut taken);
                match taken {
                    Block::Prose { mut words, first, rest } => {
                        let ghost ws = words_view(words@);
                        let tail = words.split_off(cut);
                        assert(words_view(words@) =~= ws.take(cut as int));
                        assert(words_view(tail@) =~= ws.skip(cut as int));
                        blocks.set(at, Block::Prose { words, first, rest });
                        blocks.insert(at + 1, Block::Prose { words: tail, first: rest, rest });
                        proof {
                            let next = bs.update(at as int, BlockView::Prose(ws.take(cut as int), first as nat, rest as nat)).insert(
                                at + 1,
                                BlockView::Prose(ws.skip(cut as int), rest as nat, rest as nat),
                            );
                            assert(blocks_view(blocks@) =~= next);
                            lemma_split_weight(bs, at as int, ws, first as nat, rest as nat, cut as int);
                            lemma_text_total_split(ws, cut as int, ws.len() as int);
                            lemma_text_total_nonneg(ws, cut as int);
                            lemma_text_total_nonneg(ws.skip(cut as int), ws.len() - cut);
                            assert(bs[at as int] matches BlockView::Prose(w, _, _));
                            assert(text_total(ws, ws.len() as int) <= i32::MAX);
                            assert forall|k: int| 0 <= k < next.len() implies (#[trigger] next[k] matches BlockView::Prose(w, _, _)
                                ==> text_total(w, w.len() as int) <= i32::MAX) by {
                                if k < at {
                                    assert(next[k] == bs[k]);
                                } else if k > at + 1 {
                                    assert(next[k] == bs[k - 1]);
                                }
                            }
                        }
                        at += 1;
                    },
                    _ => {
                        assert(false);
                    },
                }
            },
        }
    }
    proof {
        lemma_split_end(blocks_view(blocks@), at as int);
    }
}


/// The net brace count of tokens `a..b`.
pub open spec fn brace_span(ws: Seq<(Seq<char>, bool)>, a: int, b: int) -> int
    decreases b - a,
{
    if b <= a {
        0
    } else {
        brace_span(ws, a, b - 1) + brace_delta_spec(ws[b - 1].0)
    }
}

/// The first end at or after `e`, and no further than the last token, at which the tokens
/// from `at` have closed every brace they opened.
pub open spec fn close_search(ws: Seq<(Seq<char>, bool)>, at: int, e: int) -> Option<int>
    decreases ws.len() + 1 - e,
{
    if e < 0 || e > ws.len() {
        None
    } else if brace_span(ws, at, e) <= 0 {
        Some(e)
    } else {
        close_search(ws, at, e + 1)
    }
}

/// An end found by [`close_search`] is at or after where it started.
pub proof fn lemma_close_search_range(ws: Seq<(Seq<char>, bool)>, at: int, e: int)
    ensures
        close_search(ws, at, e) matches Some(f) ==> e <= f <= ws.len(),
    decreases ws.len() + 1 - e,
{
    if 0 <= e <= ws.len() && brace_span(ws, at, e) > 0 {
        lemma_close_search_range(ws, at, e + 1);
    }
}

/// Tokens fused into one text: each after the first is preceded by a space when it had one.
pub open spec fn fused(seg: Seq<(Seq<char>, bool)>) -> Seq<char>
    decreases seg.len(),
{
    if seg.len() == 0 {
        Seq::empty()
    } else if seg.len() == 1 {
        seg[0].0
    } else {
        fused(seg.drop_last()) + (if seg.last().1 {
            seq![' ']
        } else {
            Seq::empty()
        }) + seg.last().0
    }
}

/// Whether a token opens an inline tag it does not close: it starts with `{@` and holds more
/// `{` than `}`.
pub open spec fn opens_inline(w: (Seq<char>, bool)) -> bool {
    starts_with(w.0, "{@"@) && brace_delta_spec(w.0) > 0
}

/// Each inline `{@…}` tag from token `at` on fused, with everything up to its closing brace,
/// into one token that keeps the first token's space — unless the brace never closes, or the
/// fused token would be wider than `budget`.
#[verifier::opaque]
pub open spec fn join_from(ws: Seq<(Seq<char>, bool)>, at: int, budget: int) -> Seq<(Seq<char>, bool)>
    decreases ws.len() - at,
{
    if at < 0 || at >= ws.len() {
        ws
    } else if !opens_inline(ws[at]) {
        join_from(ws, at + 1, budget)
    } else {
        match close_search(ws, at, at + 1) {
            None => join_from(ws, at + 1, budget),
            Some(e) => {
                proof {
                    lemma_close_search_range(ws, at, at + 1);
                }
                let j = fused(ws.subrange(at, e));
                if utf16_width(j) > budget {
                    join_from(ws, at + 1, budget)
                } else {
                    join_from(ws.take(at).push((j, ws[at].1)) + ws.skip(e), at + 1, budget)
                }
            },
        }
    }
}

/// One token examined by [`join_from`].
proof fn lemma_join_step(ws: Seq<(Seq<char>, bool)>, at: int, budget: int)
    requires
        0 <= at < ws.len(),
    ensures
        join_from(ws, at, budget) == if !opens_inline(ws[at]) {
            join_from(ws, at + 1, budget)
        } else {
            match close_search(ws, at, at + 1) {
                None => join_from(ws, at + 1, budget),
                Some(e) => if utf16_width(fused(ws.subrange(at, e))) > budget {
                    join_from(ws, at + 1, budget)
                } else {
                    join_from(ws.take(at).push((fused(ws.subrange(at, e)), ws[at].1)) + ws.skip(e), at + 1, budget)
                },
            }
        },
{
    reveal(join_from);
}

/// Past the last token there is nothing left to join.
proof fn lemma_join_end(ws: Seq<(Seq<char>, bool)>, at: int, budget: int)
    requires
        at >= ws.len(),
    ensures
        join_from(ws, at, budget) == ws,
{
    reveal(join_from);
}

/// A span's brace count is bounded by the characters it covers.
proof fn lemma_brace_span_bound(ws: Seq<(Seq<char>, bool)>, a: int, b: int)
    requires
        0 <= a <= b <= ws.len(),
    ensures
        -(text_total(ws, b) - text_total(ws, a)) <= brace_span(ws, a, b) <= text_total(ws, b) - text_total(ws, a),
    decreases b - a,
{
    if b > a {
        lemma_brace_span_bound(ws, a, b - 1);
        lemma_brace_delta_bound(ws[b - 1].0);
    }
}

/// A fused text, and one more character, fit in the total of the tokens it fuses.
proof fn lemma_fused_len(ws: Seq<(Seq<char>, bool)>, a: int, b: int)
    requires
        0 <= a < b <= ws.len(),
    ensures
        fused(ws.subrange(a, b)).len() + 1 <= text_total(ws, b) - text_total(ws, a),
    decreases b - a,
{
    let seg = ws.subrange(a, b);
    if b - a > 1 {
        lemma_fused_len(ws, a, b - 1);
        assert(seg.drop_last() == ws.subrange(a, b - 1));
    }
}

/// The fused text of tokens `a..b` extended by the token at `b`.
proof fn lemma_fused_push(ws: Seq<(Seq<char>, bool)>, a: int, b: int)
    requires
        0 <= a < b < ws.len(),
    ensures
        fused(ws.subrange(a, b + 1)) == fused(ws.subrange(a, b)) + (if ws[b].1 {
            seq![' ']
        } else {
            Seq::empty()
        }) + ws[b].0,
{
    assert(ws.subrange(a, b + 1).drop_last() == ws.subrange(a, b));
}

/// The total of tokens joined into one no larger than before.
proof fn lemma_join_total(ws: Seq<(Seq<char>, bool)>, at: int, e: int)
    requires
        0 <= at < e <= ws.len(),
    ensures
        text_total(
            ws.take(at).push((fused(ws.subrange(at, e)), ws[at].1)) + ws.skip(e),
            ws.len() - (e - at) + 1,
        ) <= text_total(ws, ws.len() as int),
{
    let j = fused(ws.subrange(at, e));
    let next = ws.take(at).push((j, ws[at].1)) + ws.skip(e);
    lemma_fused_len(ws, at, e);
    lemma_text_total_split(ws, e, ws.len() as int);
    lemma_text_total_split(next, at + 1, next.len() as int);
    lemma_text_total_prefix2(ws, next, at);
    assert(next.skip(at + 1) =~= ws.skip(e));
    assert(next[at] == (j, ws[at].1));
}

/// Two sequences agreeing on their first `k` tokens agree on the total of them.
proof fn lemma_text_total_prefix2(a: Seq<(Seq<char>, bool)>, b: Seq<(Seq<char>, bool)>, k: int)
    requires
        0 <= k <= a.len(),
        k <= b.len(),
        forall|i: int| 0 <= i < k ==> a[i] == b[i],
    ensures
        text_total(a, k) == text_total(b, k),
    decreases k,
{
    if k > 0 {
        lemma_text_total_prefix2(a, b, k - 1);
    }
}

/// The space a token was written after, if any.
pub open spec fn gap_of(w: (Seq<char>, bool)) -> Seq<char> {
    if w.1 {
        seq![' ']
    } else {
        Seq::empty()
    }
}

/// Tokens as written: each after the space it had.
pub open spec fn as_written(ws: Seq<(Seq<char>, bool)>) -> Seq<char>
    decreases ws.len(),
{
    if ws.len() == 0 {
        Seq::empty()
    } else {
        as_written(ws.drop_last()) + gap_of(ws.last()) + ws.last().0
    }
}

/// Tokens written one run after another read as the runs written one after the other.
proof fn lemma_as_written_add(a: Seq<(Seq<char>, bool)>, b: Seq<(Seq<char>, bool)>)
    ensures
        as_written(a + b) == as_written(a) + as_written(b),
    decreases b.len(),
{
    if b.len() == 0 {
        assert(a + b =~= a);
        assert(as_written(a) + as_written(b) =~= as_written(a));
    } else {
        lemma_as_written_add(a, b.drop_last());
        assert((a + b).drop_last() =~= a + b.drop_last());
        assert((a + b).last() == b.last());
        assert(as_written(a + b) =~= as_written(a) + as_written(b));
    }
}

/// A fused token, after the space its first token had, reads as the tokens it fuses.
proof fn lemma_fused_as_written(seg: Seq<(Seq<char>, bool)>)
    requires
        seg.len() > 0,
    ensures
        gap_of(seg[0]) + fused(seg) == as_written(seg),
    decreases seg.len(),
{
    if seg.len() == 1 {
        assert(seg.drop_last().len() == 0);
        assert(as_written(seg.drop_last()) =~= Seq::<char>::empty());
        assert(seg.last() == seg[0]);
        assert(as_written(seg) =~= gap_of(seg[0]) + seg[0].0);
    } else {
        lemma_fused_as_written(seg.drop_last());
        assert(seg.drop_last()[0] == seg[0]);
        assert(gap_of(seg[0]) + fused(seg) =~= (gap_of(seg[0]) + fused(seg.drop_last())) + gap_of(seg.last()) + seg.last().0);
    }
}

/// Fusing the tokens from `at` up to `e` into one keeps the text as written.
proof fn lemma_fuse_as_written(ws: Seq<(Seq<char>, bool)>, at: int, e: int)
    requires
        0 <= at < e <= ws.len(),
    ensures
        as_written(ws.take(at).push((fused(ws.subrange(at, e)), ws[at].1)) + ws.skip(e)) == as_written(ws),
{
    let seg = ws.subrange(at, e);
    let one = seq![(fused(seg), ws[at].1)];
    assert(ws.take(at).push((fused(seg), ws[at].1)) =~= ws.take(at) + one);
    assert(ws =~= ws.take(at) + seg + ws.skip(e));
    lemma_as_written_add(ws.take(at) + one, ws.skip(e));
    lemma_as_written_add(ws.take(at), one);
    lemma_as_written_add(ws.take(at) + seg, ws.skip(e));
    lemma_as_written_add(ws.take(at), seg);
    assert(seg[0] == ws[at]);
    lemma_fused_as_written(seg);
    assert(one.drop_last().len() == 0);
    assert(as_written(one.drop_last()) =~= Seq::<char>::empty());
    assert(one.last() == (fused(seg), seg[0].1));
    assert(as_written(one) =~= gap_of(seg[0]) + fused(seg));
}

/// Fusing inline tags from token `at` on keeps the text as written.
proof fn lemma_join_as_written(ws: Seq<(Seq<char>, bool)>, at: int, budget: int)
    requires
        0 <= at,
    ensures
        as_written(join_from(ws, at, budget)) == as_written(ws),
    decreases ws.len() - at,
{
    if at >= ws.len() {
        lemma_join_end(ws, at, budget);
    } else {
        lemma_join_step(ws, at, budget);
        if opens_inline(ws[at]) {
            match close_search(ws, at, at + 1) {
                Some(e) => {
                    lemma_close_search_range(ws, at, at + 1);
                    if utf16_width(fused(ws.subrange(at, e))) > budget {
                        lemma_join_as_written(ws, at + 1, budget);
                    } else {
                        let next = ws.take(at).push((fused(ws.subrange(at, e)), ws[at].1)) + ws.skip(e);
                        lemma_fuse_as_written(ws, at, e);
                        lemma_join_as_written(next, at + 1, budget);
                    }
                },
                None => {
                    lemma_join_as_written(ws, at + 1, budget);
                },
            }
        } else {
            lemma_join_as_written(ws, at + 1, budget);
        }
    }
}

/// Fusing inline tags never changes the text as written: each fused token keeps the spacing
/// its parts were written with, so the tokens read the same, spaces included, before and after.
pub proof fn law_fusing_inline_tags_keeps_the_text(ws: Seq<(Seq<char>, bool)>, budget: int)
    ensures
        as_written(join_from(ws, 0, budget)) == as_written(ws),
{
    lemma_join_as_written(ws, 0, budget);
}

/// Fuse each `{@… }` and everything up to its closing brace into one word, while it fits.
#[verifier::rlimit(80)]
pub fn join_inline_tags(words: &mut Vec<Word>, budget: usize)
    requires
        text_total(words_view(old(words)@), old(words)@.len() as int) <= i32::MAX,
    ensures
        words_view(final(words)@) == join_from(words_view(old(words)@), 0, budget as int),
        text_total(words_view(final(words)@), final(words)@.len() as int) <= text_total(
            words_view(old(words)@),
            old(words)@.len() as int,
        ),
{
    let ghost start = words_view(words@);
    let mut at: usize = 0;
    while at < words.len()
        invariant
            at <= words@.len(),
            text_total(words_view(words@), words@.len() as int) <= i32::MAX,
            text_total(words_view(words@), words@.len() as int) <= text_total(start, start.len() as int),
            join_from(words_view(words@), at as int, budget as int) == join_from(start, 0, budget as int),
        decreases words@.len() - at,
    {
        let ghost ws = words_view(words@);
        proof {
            lemma_join_step(ws, at as int, budget as int);
            assert(ws[at as int] == words@[at as int]@);
            lemma_text_total_word(ws, at as int, ws.len() as int);
        }
        let opens = crate::javadoc::lines::begins(&words[at].text, "{@") && brace_delta(&words[at].text) > 0;
        if !opens {
            at += 1;
            continue;
        }
        let mut depth = brace_delta(&words[at].text);
        let mut end = at + 1;
        proof {
            assert(brace_span(ws, at as int, at as int) == 0);
            assert(brace_span(ws, at as int, at + 1) == brace_delta_spec(ws[at as int].0));
        }
        while end < words.len() && depth > 0
            invariant
                ws == words_view(words@),
                at < end <= words@.len(),
                text_total(ws, ws.len() as int) <= i32::MAX,
                depth == brace_span(ws, at as int, end as int),
                depth > 0 ==> close_search(ws, at as int, at + 1) == close_search(ws, at as int, end as int),
                depth <= 0 ==> close_search(ws, at as int, at + 1) == Some(end as int),
            decreases words@.len() - end,
        {
            proof {
                assert(ws[end as int] == words@[end as int]@);
                lemma_text_total_word(ws, end as int, ws.len() as int);
                lemma_brace_span_bound(ws, at as int, end + 1);
                lemma_text_total_nonneg(ws, at as int);
                lemma_text_total_word(ws, end as int, ws.len() as int);
                if end + 1 < ws.len() {
                    lemma_text_total_word(ws, end + 1, ws.len() as int);
                }
            }
            depth = depth + brace_delta(&words[end].text);
            end += 1;
        }
        if depth > 0 {
            assert(close_search(ws, at as int, end as int + 1) is None);
            at += 1;
            continue;
        }
        let mut joined: Vec<char> = Vec::new();
        let mut k: usize = at;
        while k < end
            invariant
                ws == words_view(words@),
                at <= k <= end <= words@.len(),
                k == at ==> joined@.len() == 0,
                k > at ==> joined@ == fused(ws.subrange(at as int, k as int)),
            decreases end - k,
        {
            proof {
                assert(ws[k as int] == words@[k as int]@);
                if k > at {
                    lemma_fused_push(ws, at as int, k as int);
                } else {
                    assert(ws.subrange(at as int, at + 1).len() == 1);
                }
            }
            if k > at && words[k].space {
                joined.push(' ');
            }
            push_all(&mut joined, &words[k].text);
            k += 1;
        }
        proof {
            lemma_fused_len(ws, at as int, end as int);
            lemma_text_total_nonneg(ws, at as int);
            lemma_text_total_word(ws, (end - 1) as int, ws.len() as int);
            crate::javadoc::tokens::lemma_text_total_mono_pub(ws, end as int, ws.len() as int);
        }
        if Width::utf16_chars(&joined) > budget {
            at += 1;
            continue;
        }
        let space = words[at].space;
        words.set(at, Word { text: joined, space });
        let mut tail = words.split_off(end);
        words.truncate(at + 1);
        words.append(&mut tail);
        proof {
            let next = ws.take(at as int).push((fused(ws.subrange(at as int, end as int)), ws[at as int].1)) + ws.skip(end as int);
            assert(words_view(words@) =~= next);
            lemma_join_total(ws, at as int, end as int);
        }
        at += 1;
    }
    proof {
        lemma_join_end(words_view(words@), at as int, budget as int);
    }
}


/// The width of a block tag's head: its name, and its argument after a space.
pub open spec fn head_width(b: BlockView) -> int {
    match b {
        BlockView::Tag(n, a, _) => utf16_width(n) as int + match a {
            Some(x) => utf16_width(x) as int + 1,
            None => 0int,
        },
        _ => 0,
    }
}

/// A block tag's name; nothing for any other block.
pub open spec fn tag_name_of(b: BlockView) -> Seq<char> {
    match b {
        BlockView::Tag(n, _, _) => n,
        _ => Seq::empty(),
    }
}

/// Whether blocks `i` and `j` are tags of one run: every tag from one to the other, blank lines
/// and other blocks between them aside, has the same name.
#[verifier::opaque]
pub open spec fn same_run(bs: Seq<BlockView>, i: int, j: int) -> bool {
    &&& 0 <= i < bs.len()
    &&& 0 <= j < bs.len()
    &&& bs[i] is Tag
    &&& bs[j] is Tag
    &&& forall|k: int|
        (if i <= j {
            i <= k <= j
        } else {
            j <= k <= i
        }) && #[trigger] bs[k] is Tag ==> tag_name_of(bs[k]) == tag_name_of(bs[i])
}

/// Whether the tag at `j` shares the tag at `i`'s description column: under `all`, every tag
/// does; under `grouped`, the tags of its run; otherwise none.
pub open spec fn aligned_with(bs: Seq<BlockView>, mode: TagAlignment, i: int, j: int) -> bool {
    match mode {
        TagAlignment::All => 0 <= i < bs.len() && 0 <= j < bs.len() && bs[i] is Tag && bs[j] is Tag,
        TagAlignment::Grouped => same_run(bs, i, j),
        TagAlignment::Unaligned => false,
    }
}

/// Whether `w` is the widest head among the tags aligned with block `i`.
#[verifier::opaque]
pub open spec fn is_group_widest(bs: Seq<BlockView>, mode: TagAlignment, i: int, w: int) -> bool {
    &&& forall|j: int| #[trigger] aligned_with(bs, mode, i, j) ==> head_width(bs[j]) <= w
    &&& exists|j: int| #[trigger] aligned_with(bs, mode, i, j) && head_width(bs[j]) == w
}

/// The description columns the blocks are written at: for a tag under alignment, the widest
/// head among the tags it is aligned with; for anything else, none.
pub open spec fn tag_columns_ok(bs: Seq<BlockView>, mode: TagAlignment, r: Seq<Option<usize>>) -> bool {
    &&& r.len() == bs.len()
    &&& forall|i: int|
        0 <= i < bs.len() ==> if mode != TagAlignment::Unaligned && #[trigger] bs[i] is Tag {
            r[i] matches Some(w) && is_group_widest(bs, mode, i, w as int)
        } else {
            r[i] is None
        }
}

/// Whether a tag's head can be measured in a `usize`.
pub open spec fn head_fits(b: BlockView) -> bool {
    match b {
        BlockView::Tag(n, a, _) => 2 * (n.len() + match a {
            Some(x) => x.len() + 1,
            None => 0,
        }) + 2 <= usize::MAX,
        _ => true,
    }
}

/// The width of a tag's head.
fn head_width_of(b: &Block) -> (r: usize)
    requires
        b@ is Tag,
        head_fits(b@),
    ensures
        r == head_width(b@),
{
    match b {
        Block::Tag { name, argument, .. } => {
            proof {
                lemma_utf16_width_bound(name@);
            }
            let n = Width::utf16_chars(name);
            match argument {
                Some(a) => {
                    proof {
                        lemma_utf16_width_bound(a@);
                    }
                    n + Width::utf16_chars(a) + 1
                },
                None => n,
            }
        },
        _ => 0,
    }
}

/// Whether two tags have the same name.
fn same_name(a: &Block, b: &Block) -> (r: bool)
    requires
        a@ is Tag,
        b@ is Tag,
    ensures
        r == (tag_name_of(a@) == tag_name_of(b@)),
{
    match (a, b) {
        (Block::Tag { name: x, .. }, Block::Tag { name: y, .. }) => seq_eq(x, y),
        _ => false,
    }
}

/// The members of a run all share the run's widest head, and no tag outside it: the run is
/// every tag from `s` up to `at`, they share a name, no earlier tag runs into the first, and the
/// tag at `at` (if any) has another name.
proof fn lemma_run_group(bs: Seq<BlockView>, s: int, at: int, k: int, widest: int, wit: int)
    requires
        0 <= s <= k < at <= bs.len(),
        bs[k] is Tag,
        bs[s] is Tag,
        forall|m: int| s <= m < at && #[trigger] bs[m] is Tag ==> tag_name_of(bs[m]) == tag_name_of(bs[s]),
        forall|m: int| s <= m < at && #[trigger] bs[m] is Tag ==> head_width(bs[m]) <= widest,
        s <= wit < at,
        bs[wit] is Tag,
        head_width(bs[wit]) == widest,
        forall|j: int| 0 <= j < s && #[trigger] bs[j] is Tag ==> !same_run(bs, s, j),
        at < bs.len() ==> bs[at] is Tag && tag_name_of(bs[at]) != tag_name_of(bs[s]),
    ensures
        is_group_widest(bs, TagAlignment::Grouped, k, widest),
{
    reveal(is_group_widest);
    reveal(same_run);
    assert forall|j: int| #[trigger] aligned_with(bs, TagAlignment::Grouped, k, j) implies head_width(bs[j]) <= widest by {
        if j < s {
            assert forall|m: int| j <= m <= s && #[trigger] bs[m] is Tag implies tag_name_of(bs[m]) == tag_name_of(bs[s]) by {
                assert(j <= m <= k);
            }
            assert(same_run(bs, s, j));
        } else if j >= at {
            assert(k <= at <= j && bs[at] is Tag);
        }
    }
    assert forall|m: int|
        (if k <= wit {
            k <= m <= wit
        } else {
            wit <= m <= k
        }) && #[trigger] bs[m] is Tag implies tag_name_of(bs[m]) == tag_name_of(bs[k]) by {}
    assert(aligned_with(bs, TagAlignment::Grouped, k, wit));
}

/// Set the column of every tag from block `s` up to `at` to `widest`.
fn close_run(columns: &mut Vec<Option<usize>>, blocks: &Vec<Block>, s: usize, at: usize, widest: usize)
    requires
        s <= at <= blocks@.len(),
        old(columns)@.len() == blocks@.len(),
    ensures
        final(columns)@.len() == old(columns)@.len(),
        forall|k: int|
            0 <= k < old(columns)@.len() ==> #[trigger] final(columns)@[k] == if s <= k < at && blocks_view(blocks@)[k] is Tag {
                Some(widest)
            } else {
                old(columns)@[k]
            },
{
    let ghost bs = blocks_view(blocks@);
    let mut m: usize = s;
    while m < at
        invariant
            s <= m <= at <= blocks@.len(),
            bs == blocks_view(blocks@),
            columns@.len() == old(columns)@.len(),
            old(columns)@.len() == blocks@.len(),
            forall|k: int|
                0 <= k < old(columns)@.len() ==> #[trigger] columns@[k] == if s <= k < m && bs[k] is Tag {
                    Some(widest)
                } else {
                    old(columns)@[k]
                },
        decreases at - m,
    {
        assert(bs[m as int] == blocks@[m as int]@);
        if matches!(blocks[m], Block::Tag { .. }) {
            columns.set(m, Some(widest));
        }
        m += 1;
    }
}

/// The columns under `all`: every tag at the widest head of the comment.
#[verifier::rlimit(40)]
fn all_columns(blocks: &Vec<Block>, columns: &mut Vec<Option<usize>>)
    requires
        forall|k: int| 0 <= k < blocks@.len() ==> head_fits(#[trigger] blocks@[k]@),
        old(columns)@.len() == blocks@.len(),
        forall|i: int| 0 <= i < blocks@.len() ==> old(columns)@[i] is None,
    ensures
        tag_columns_ok(blocks_view(blocks@), TagAlignment::All, final(columns)@),
{
    let ghost bs = blocks_view(blocks@);
    let n = blocks.len();
    let mut widest: Option<usize> = None;
    let ghost mut wit: int = 0;
    let mut k: usize = 0;
    while k < n
        invariant
            n == blocks@.len(),
            bs == blocks_view(blocks@),
            k <= n,
            forall|i: int| 0 <= i < n ==> head_fits(#[trigger] blocks@[i]@),
            widest is None ==> forall|j: int| 0 <= j < k ==> !(#[trigger] bs[j] is Tag),
            widest matches Some(w) ==> 0 <= wit < k && bs[wit] is Tag && head_width(bs[wit]) == w && forall|j: int|
                0 <= j < k && #[trigger] bs[j] is Tag ==> head_width(bs[j]) <= w,
        decreases n - k,
    {
        assert(bs[k as int] == blocks@[k as int]@);
        if matches!(blocks[k], Block::Tag { .. }) {
            let w = head_width_of(&blocks[k]);
            match widest {
                Some(cur) => {
                    if w > cur {
                        widest = Some(w);
                        proof {
                            wit = k as int;
                        }
                    }
                },
                None => {
                    widest = Some(w);
                    proof {
                        wit = k as int;
                    }
                },
            }
        }
        k += 1;
    }
    let mut k: usize = 0;
    while k < n
        invariant
            n == blocks@.len(),
            bs == blocks_view(blocks@),
            k <= n,
            columns@.len() == n,
            widest is None ==> forall|j: int| 0 <= j < n ==> !(#[trigger] bs[j] is Tag),
            widest matches Some(w) ==> 0 <= wit < n && bs[wit] is Tag && head_width(bs[wit]) == w && forall|j: int|
                0 <= j < n && #[trigger] bs[j] is Tag ==> head_width(bs[j]) <= w,
            forall|i: int|
                0 <= i < n ==> if i < k && #[trigger] bs[i] is Tag {
                    columns@[i] matches Some(w) && is_group_widest(bs, TagAlignment::All, i, w as int)
                } else {
                    columns@[i] is None
                },
        decreases n - k,
    {
        assert(bs[k as int] == blocks@[k as int]@);
        if matches!(blocks[k], Block::Tag { .. }) {
            columns.set(k, widest);
            proof {
                reveal(is_group_widest);
                let w = widest->0;
                assert(aligned_with(bs, TagAlignment::All, k as int, wit));
                assert(is_group_widest(bs, TagAlignment::All, k as int, w as int));
            }
        }
        k += 1;
    }
}

/// After closing the run from `s` to `at`, every tag before `at` has its group's column.
proof fn lemma_closed(
    bs: Seq<BlockView>,
    old_cols: Seq<Option<usize>>,
    cols: Seq<Option<usize>>,
    s: int,
    at: int,
    widest: int,
    wit: int,
)
    requires
        0 <= s < at <= bs.len(),
        old_cols.len() == bs.len(),
        cols.len() == bs.len(),
        bs[s] is Tag,
        forall|m: int| s <= m < at && #[trigger] bs[m] is Tag ==> tag_name_of(bs[m]) == tag_name_of(bs[s]),
        forall|m: int| s <= m < at && #[trigger] bs[m] is Tag ==> head_width(bs[m]) <= widest,
        s <= wit < at,
        bs[wit] is Tag,
        head_width(bs[wit]) == widest,
        0 <= widest <= usize::MAX,
        forall|j: int| 0 <= j < s && #[trigger] bs[j] is Tag ==> !same_run(bs, s, j),
        at < bs.len() ==> bs[at] is Tag && tag_name_of(bs[at]) != tag_name_of(bs[s]),
        forall|i: int|
            0 <= i < bs.len() ==> if i < at && #[trigger] bs[i] is Tag && i < s {
                old_cols[i] matches Some(w) && is_group_widest(bs, TagAlignment::Grouped, i, w as int)
            } else {
                old_cols[i] is None
            },
        forall|k: int|
            0 <= k < bs.len() ==> #[trigger] cols[k] == if s <= k < at && bs[k] is Tag {
                Some(widest as usize)
            } else {
                old_cols[k]
            },
    ensures
        forall|i: int|
            0 <= i < bs.len() ==> if i < at && #[trigger] bs[i] is Tag {
                cols[i] matches Some(w) && is_group_widest(bs, TagAlignment::Grouped, i, w as int)
            } else {
                cols[i] is None
            },
{
    assert forall|i: int|
        0 <= i < bs.len() implies if i < at && #[trigger] bs[i] is Tag {
            cols[i] matches Some(w) && is_group_widest(bs, TagAlignment::Grouped, i, w as int)
        } else {
            cols[i] is None
        } by {
        assert(cols[i] == if s <= i < at && bs[i] is Tag {
            Some(widest as usize)
        } else {
            old_cols[i]
        });
        if i < at && bs[i] is Tag && i >= s {
            lemma_run_group(bs, s, at, i, widest, wit);
        }
    }
}

/// A tag whose name differs from the run before it starts a run no earlier tag belongs to.
proof fn lemma_new_run(bs: Seq<BlockView>, s: int, at: int)
    requires
        0 <= s < at < bs.len(),
        bs[s] is Tag,
        bs[at] is Tag,
        tag_name_of(bs[at]) != tag_name_of(bs[s]),
        forall|m: int| s <= m < at && #[trigger] bs[m] is Tag ==> tag_name_of(bs[m]) == tag_name_of(bs[s]),
    ensures
        forall|j: int| 0 <= j < at && #[trigger] bs[j] is Tag ==> !same_run(bs, at, j),
{
    reveal(same_run);
    assert forall|j: int| 0 <= j < at && #[trigger] bs[j] is Tag implies !same_run(bs, at, j) by {
        if j >= s {
            assert(tag_name_of(bs[j]) != tag_name_of(bs[at]));
        } else {
            assert(j <= s <= at && bs[s] is Tag);
        }
    }
}

/// The columns under `grouped`: each tag at the widest head of its run.
#[verifier::rlimit(80)]
fn grouped_columns(blocks: &Vec<Block>, columns: &mut Vec<Option<usize>>)
    requires
        forall|k: int| 0 <= k < blocks@.len() ==> head_fits(#[trigger] blocks@[k]@),
        old(columns)@.len() == blocks@.len(),
        forall|i: int| 0 <= i < blocks@.len() ==> old(columns)@[i] is None,
    ensures
        tag_columns_ok(blocks_view(blocks@), TagAlignment::Grouped, final(columns)@),
{
    let ghost bs = blocks_view(blocks@);
    let n = blocks.len();
    let mut run_first: Option<usize> = None;
    let mut widest: usize = 0;
    let ghost mut wit: int = 0;
    let mut at: usize = 0;
    while at < n
        invariant
            n == blocks@.len(),
            bs == blocks_view(blocks@),
            at <= n,
            columns@.len() == n,
            forall|i: int| 0 <= i < n ==> head_fits(#[trigger] blocks@[i]@),
            run_first is None ==> forall|j: int| 0 <= j < at ==> !(#[trigger] bs[j] is Tag),
            run_first matches Some(s) ==> {
                &&& s < at
                &&& bs[s as int] is Tag
                &&& forall|m: int| s <= m < at && #[trigger] bs[m] is Tag ==> tag_name_of(bs[m]) == tag_name_of(bs[s as int])
                &&& forall|m: int| s <= m < at && #[trigger] bs[m] is Tag ==> head_width(bs[m]) <= widest
                &&& s <= wit < at && bs[wit] is Tag && head_width(bs[wit]) == widest
                &&& forall|j: int| 0 <= j < s && #[trigger] bs[j] is Tag ==> !same_run(bs, s as int, j)
            },
            forall|i: int|
                0 <= i < n ==> if i < at && #[trigger] bs[i] is Tag && (run_first matches Some(s) && i < s) {
                    columns@[i] matches Some(w) && is_group_widest(bs, TagAlignment::Grouped, i, w as int)
                } else {
                    columns@[i] is None
                },
        decreases n - at,
    {
        assert(bs[at as int] == blocks@[at as int]@);
        if !matches!(blocks[at], Block::Tag { .. }) {
            at += 1;
            continue;
        }
        let w = head_width_of(&blocks[at]);
        let same = match run_first {
            Some(s) => {
                assert(bs[s as int] == blocks@[s as int]@);
                same_name(&blocks[s], &blocks[at])
            },
            None => false,
        };
        if !same {
            match run_first {
                Some(s) => {
                    let ghost old_cols = columns@;
                    close_run(columns, blocks, s, at, widest);
                    proof {
                        lemma_closed(bs, old_cols, columns@, s as int, at as int, widest as int, wit);
                        lemma_new_run(bs, s as int, at as int);
                    }
                },
                None => {},
            }
            run_first = Some(at);
            widest = w;
            proof {
                wit = at as int;
            }
        } else if w > widest {
            widest = w;
            proof {
                wit = at as int;
            }
        }
        at += 1;
    }
    match run_first {
        Some(s) => {
            let ghost old_cols = columns@;
            close_run(columns, blocks, s, at, widest);
            proof {
                lemma_closed(bs, old_cols, columns@, s as int, at as int, widest as int, wit);
            }
        },
        None => {},
    }
}

/// The description column each block writes its description at, by index.
pub fn tag_columns(blocks: &Vec<Block>, mode: TagAlignment) -> (r: Vec<Option<usize>>)
    requires
        forall|k: int| 0 <= k < blocks@.len() ==> head_fits(#[trigger] blocks@[k]@),
    ensures
        tag_columns_ok(blocks_view(blocks@), mode, r@),
{
    let n = blocks.len();
    let mut columns: Vec<Option<usize>> = Vec::new();
    let mut k: usize = 0;
    while k < n
        invariant
            n == blocks@.len(),
            k <= n,
            columns@.len() == k,
            forall|i: int| 0 <= i < k ==> columns@[i] is None,
        decreases n - k,
    {
        columns.push(None);
        k += 1;
    }
    match mode {
        TagAlignment::Unaligned => {},
        TagAlignment::All => all_columns(blocks, &mut columns),
        TagAlignment::Grouped => grouped_columns(blocks, &mut columns),
    }
    columns
}

} // verus!
