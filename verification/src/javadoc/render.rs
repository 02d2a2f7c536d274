//! Writing comment lines: one body line with or without its leading `*`, a `//` comment broken
//! to fit, and a block tag with its refilled description.

use vstd::prelude::*;

use crate::config::Comments;
use crate::ir::{lemma_utf16_width_bound, utf16_width, Width};
use crate::javadoc::comment::{
    has_break, sat_sub, space_after_slashes, space_after_slashes_spec, spaces, views, wrap_line, wrapped,
};
use crate::javadoc::blocks::opt_view;
use crate::javadoc::lines::begins;
use crate::javadoc::tokens::{fill_two, fill_two_spec, lines_view, text_total, words_view, Word};
use crate::javadoc::tokens::{strip_leading, strip_trailing, stripped_leading, stripped_trailing};
use crate::strs::{
    chars_of, ends_with, find_char, find_char_from, lemma_find_char_props, push_all, push_n,
    slice_vec, starts_with, trim, trim_start, trimmed, trimmed_start,
};

verus! {

/// One body line as written: a newline, then — with leading asterisks — a `*` and, before text,
/// a space, then the text.
pub open spec fn line_out(text: Seq<char>, asterisks: bool) -> Seq<char> {
    seq!['\n'] + (if asterisks {
        seq!['*'] + if text.len() > 0 {
            seq![' ']
        } else {
            Seq::empty()
        }
    } else {
        Seq::empty()
    }) + text
}

/// Emit one body line, with or without the leading `*`.
pub fn push_line(out: &mut Vec<char>, text: &[char], asterisks: bool)
    ensures
        final(out)@ == old(out)@ + line_out(text@, asterisks),
{
    out.push('\n');
    if asterisks {
        out.push('*');
        if text.len() > 0 {
            out.push(' ');
        }
    }
    push_all(out, text);
    assert(out@ =~= old(out)@ + line_out(text@, asterisks));
}

/// Emit one body line with `pad` columns of extra indent.
pub fn push_indented(out: &mut Vec<char>, text: &[char], pad: usize, asterisks: bool)
    ensures
        final(out)@ == old(out)@ + line_out(spaces(pad as nat) + text@, asterisks),
{
    let mut padded: Vec<char> = Vec::new();
    push_n(&mut padded, ' ', pad);
    push_all(&mut padded, text);
    assert(padded@ =~= spaces(pad as nat) + text@);
    push_line(out, &padded, asterisks);
}

/// Lines joined by newlines.
pub open spec fn joined_lines(ls: Seq<Seq<char>>) -> Seq<char>
    decreases ls.len(),
{
    if ls.len() == 0 {
        Seq::empty()
    } else if ls.len() == 1 {
        ls[0]
    } else {
        joined_lines(ls.drop_last()) + seq!['\n'] + ls.last()
    }
}

/// Lines joined by newlines (`[String]::join("\n")`).
pub fn join_lines(ls: &Vec<Vec<char>>) -> (r: Vec<char>)
    ensures
        r@ == joined_lines(lines_view(ls@)),
{
    let ghost all = lines_view(ls@);
    let mut out: Vec<char> = Vec::new();
    let mut i: usize = 0;
    while i < ls.len()
        invariant
            all == lines_view(ls@),
            i <= ls@.len(),
            out@ == joined_lines(all.take(i as int)),
        decreases ls@.len() - i,
    {
        assert(all.take(i + 1).drop_last() == all.take(i as int));
        assert(all.take(i + 1).last() == ls@[i as int]@);
        if i > 0 {
            out.push('\n');
        }
        push_all(&mut out, &ls[i]);
        i += 1;
    }
    assert(all.take(ls@.len() as int) == all);
    out
}

/// A `//` comment as written: trimmed, a space put after its slashes, and — unless it marks a
/// region another tool owns (`// MOE:`) — broken at whitespace to fit `limit` columns at
/// `indent`, each continuation restarting with `//`.
pub open spec fn render_line_spec(text: Seq<char>, indent: int, limit: int) -> Seq<char> {
    let line = space_after_slashes_spec(trim(text));
    if starts_with(line, "// MOE:"@) {
        line
    } else {
        joined_lines(wrapped(line, indent, limit))
    }
}

/// Wrap a `//` comment to `limit` columns, continuing with further `//` lines. A line comment
/// is never refilled: only the space after the slashes is added and overlong lines broken.
pub fn render_line(text: &[char], indent: usize, limit: usize) -> (r: Vec<char>)
    requires
        indent + 2 * text@.len() + 6 <= usize::MAX,
    ensures
        r@ == render_line_spec(text@, indent as int, limit as int),
{
    let line = space_after_slashes(&trimmed(text));
    proof {
        lemma_trim_len(text@);
        crate::javadoc::comment::lemma_space_after_slashes_len(trim(text@));
    }
    if begins(&line, "// MOE:") {
        return line;
    }
    let lines = wrap_line(&line, indent, limit);
    assert(lines_view(lines@) == views(lines@));
    join_lines(&lines)
}

/// A `//` comment broken to fit fits from the column it is written at: what `render_line`
/// writes is a run of lines, each of which, starting at `indent`, ends within `limit` columns —
/// unless it has nowhere to break within what `indent` leaves of the limit.
pub proof fn law_a_wrapped_line_comment_fits_from_its_column(text: Seq<char>, indent: int, limit: int)
    requires
        !starts_with(space_after_slashes_spec(trim(text)), "// MOE:"@),
    ensures
        exists|ls: Seq<Seq<char>>|
            #[trigger] joined_lines(ls) == render_line_spec(text, indent, limit) && forall|k: int|
                0 <= k < ls.len() ==> indent + utf16_width(#[trigger] ls[k]) <= limit || !has_break(
                    ls[k],
                    sat_sub(limit, indent),
                ),
{
    let ls = wrapped(space_after_slashes_spec(trim(text)), indent, limit);
    crate::javadoc::comment::lemma_wrapped_fits(space_after_slashes_spec(trim(text)), indent, limit);
    assert(joined_lines(ls) == render_line_spec(text, indent, limit));
}

/// Trimming never grows a sequence.
pub proof fn lemma_trim_len(s: Seq<char>)
    ensures
        trim(s).len() <= s.len(),
{
    crate::strs::lemma_trim_start_len(s);
    lemma_trim_end_len(crate::strs::trim_start(s));
}

/// Trimming the end never grows a sequence.
pub proof fn lemma_trim_end_len(s: Seq<char>)
    ensures
        crate::strs::trim_end(s).len() <= s.len(),
    decreases s.len(),
{
    if s.len() > 0 && crate::strs::is_ws(s.last()) {
        lemma_trim_end_len(s.drop_last());
    }
}

/// The column a block tag's description continues at: one past the aligned description's
/// column, else one continuation step when descriptions are indented, else the margin.
pub open spec fn tag_continuation_spec(aligned: Option<usize>, indent_description: bool, continuation_cols: usize) -> int {
    match aligned {
        Some(column) => column + 1,
        None => if indent_description {
            continuation_cols as int
        } else {
            0
        },
    }
}

/// The column a block tag's description continues at.
pub fn tag_continuation(aligned: Option<usize>, cfg: &Comments, continuation_cols: usize) -> (r: usize)
    requires
        aligned matches Some(c) ==> c < usize::MAX,
    ensures
        r == tag_continuation_spec(aligned, cfg.indent_tag_description, continuation_cols),
{
    match aligned {
        Some(column) => column + 1,
        None => if cfg.indent_tag_description {
            continuation_cols
        } else {
            0
        },
    }
}


/// `a` or `b`, whichever is larger.
pub open spec fn max_int(a: int, b: int) -> int {
    if a >= b {
        a
    } else {
        b
    }
}

/// A block tag's head: its name, the argument after a space, and — under alignment — spaces
/// out to the aligned column.
pub open spec fn tag_head(name: Seq<char>, argument: Option<Seq<char>>, aligned: Option<usize>) -> Seq<char> {
    let h = name + match argument {
        Some(a) => seq![' '] + a,
        None => Seq::empty(),
    };
    match aligned {
        Some(c) => h + spaces(sat_sub(c as int, utf16_width(h) as int) as nat),
        None => h,
    }
}

/// A tag's description lines as written: the first after the head and a space, the others at
/// the continuation column.
pub open spec fn tag_lines(head: Seq<char>, lines: Seq<Seq<char>>, continuation: nat) -> Seq<Seq<char>> {
    Seq::new(
        lines.len(),
        |i: int|
            if i == 0 {
                head + seq![' '] + lines[0]
            } else {
                spaces(continuation) + lines[i]
            },
    )
}

/// Body lines as written, one after another.
pub open spec fn lines_out(ls: Seq<Seq<char>>, asterisks: bool) -> Seq<char>
    decreases ls.len(),
{
    if ls.len() == 0 {
        Seq::empty()
    } else {
        lines_out(ls.drop_last(), asterisks) + line_out(ls.last(), asterisks)
    }
}

/// A block tag as written: its head alone when it has no description, else its description
/// refilled within `budget` — the first line within what the head leaves, the rest within what
/// the continuation column leaves, neither below eight columns.
pub open spec fn push_tag_spec(
    name: Seq<char>,
    argument: Option<Seq<char>>,
    words: Seq<(Seq<char>, bool)>,
    budget: int,
    aligned: Option<usize>,
    asterisks: bool,
    continuation: int,
) -> Seq<char> {
    let head = tag_head(name, argument, aligned);
    if words.len() == 0 {
        line_out(head, asterisks)
    } else {
        let first = max_int(sat_sub(budget, utf16_width(head) as int + 1), 8);
        let rest = max_int(sat_sub(budget, continuation), 8);
        lines_out(tag_lines(head, fill_two_spec(words, first, rest), continuation as nat), asterisks)
    }
}

/// Spaces add one column each.
proof fn lemma_width_spaces(a: Seq<char>, k: nat)
    ensures
        utf16_width(a + spaces(k)) == utf16_width(a) + k,
    decreases k,
{
    if k > 0 {
        lemma_width_spaces(a, (k - 1) as nat);
        assert((a + spaces(k)).drop_last() =~= a + spaces((k - 1) as nat));
        assert(((' ' as u32) as int) < 0x10000);
    } else {
        assert(a + spaces(0) =~= a);
    }
}

/// Emit a block tag and its refilled description.
#[verifier::rlimit(60)]
pub fn push_tag(
    out: &mut Vec<char>,
    name: &[char],
    argument: &Option<Vec<char>>,
    words: &[Word],
    budget: usize,
    aligned: Option<usize>,
    cfg: &Comments,
    continuation_cols: usize,
)
    requires
        2 * (name@.len() + match argument {
            Some(a) => a@.len() + 1,
            None => 0,
        } + match aligned {
            Some(c) => c as int,
            None => 0,
        }) + 8 <= usize::MAX,
        2 * text_total(words_view(words@), words@.len() as int) + 4 <= usize::MAX,
    ensures
        final(out)@ == old(out)@ + push_tag_spec(
            name@,
            opt_view(*argument),
            words_view(words@),
            budget as int,
            aligned,
            cfg.leading_asterisks,
            tag_continuation_spec(aligned, cfg.indent_tag_description, continuation_cols),
        ),
{
    let mut head: Vec<char> = Vec::new();
    push_all(&mut head, name);
    match argument {
        Some(a) => {
            head.push(' ');
            push_all(&mut head, a);
        },
        None => {},
    }
    let ghost h = head@;
    assert(h =~= name@ + match opt_view(*argument) {
        Some(a) => seq![' '] + a,
        None => Seq::empty(),
    });
    proof {
        lemma_utf16_width_bound(h);
    }
    match aligned {
        Some(column) => {
            let mut w = Width::utf16_chars(&head);
            let ghost w0 = w;
            while w < column
                invariant
                    w0 == utf16_width(h),
                    w0 <= w,
                    w <= column || w == w0,
                    head@ == h + spaces((w - w0) as nat),
                    utf16_width(head@) == w,
                decreases column - w,
            {
                let ghost before = head@;
                head.push(' ');
                proof {
                    assert(head@ =~= h + spaces((w + 1 - w0) as nat));
                    lemma_width_spaces(h, (w + 1 - w0) as nat);
                }
                w += 1;
            }
            proof {
                lemma_width_spaces(h, (w - w0) as nat);
                assert(head@.len() <= h.len() + column);
            }
        },
        None => {},
    }
    assert(head@ == tag_head(name@, opt_view(*argument), aligned));
    let continuation = tag_continuation(aligned, cfg, continuation_cols);
    if words.len() == 0 {
        push_line(out, &head, cfg.leading_asterisks);
        return;
    }
    proof {
        lemma_utf16_width_bound(head@);
    }
    let hw = Width::utf16_chars(&head);
    let first = if budget.saturating_sub(hw + 1) >= 8 {
        budget.saturating_sub(hw + 1)
    } else {
        8
    };
    let rest = if budget.saturating_sub(continuation) >= 8 {
        budget.saturating_sub(continuation)
    } else {
        8
    };
    let lines = fill_two(words, first, rest);
    let ghost ls = tag_lines(head@, lines_view(lines@), continuation as nat);
    let mut i: usize = 0;
    let ghost start = out@;
    while i < lines.len()
        invariant
            i <= lines@.len(),
            ls == tag_lines(head@, lines_view(lines@), continuation as nat),
            out@ == start + lines_out(ls.take(i as int), cfg.leading_asterisks),
        decreases lines@.len() - i,
    {
        let mut text: Vec<char> = Vec::new();
        if i == 0 {
            push_all(&mut text, &head);
            text.push(' ');
            push_all(&mut text, &lines[i]);
        } else {
            push_n(&mut text, ' ', continuation);
            push_all(&mut text, &lines[i]);
        }
        proof {
            assert(text@ =~= ls[i as int]);
            assert(ls.take(i + 1).drop_last() == ls.take(i as int));
        }
        push_line(out, &text, cfg.leading_asterisks);
        i += 1;
    }
    assert(ls.take(lines@.len() as int) == ls);
}


/// One line between a comment's delimiters as its body holds it: trailing carriage returns
/// gone, and — on a line after the first — a leading `*` run removed along with the whitespace
/// before it, unless the line is the closing `*/`.
pub open spec fn body_line(l: Seq<char>, later: bool) -> Seq<char> {
    let line = strip_trailing(l, '\r');
    let stripped = trim_start(line);
    if later && stripped.len() > 0 && stripped[0] == '*' && !starts_with(stripped, "*/"@) {
        strip_leading(stripped, '*')
    } else {
        line
    }
}

/// The lines of `s`, each as [`body_line`] (the first as a first line only when `later` is
/// false), joined by newlines.
#[verifier::opaque]
pub open spec fn body_lines(s: Seq<char>, later: bool) -> Seq<char>
    decreases s.len(),
{
    match find_char_from(s, '\n', 0) {
        None => body_line(s, later),
        Some(k) => {
            proof {
                lemma_find_char_props(s, '\n', 0);
            }
            body_line(s.take(k), later) + seq!['\n'] + body_lines(s.skip(k + 1), true)
        },
    }
}

/// The last line of a body.
proof fn lemma_body_last(s: Seq<char>, later: bool)
    requires
        find_char_from(s, '\n', 0) is None,
    ensures
        body_lines(s, later) == body_line(s, later),
{
    reveal(body_lines);
}

/// A line of a body and the lines after it.
proof fn lemma_body_step(s: Seq<char>, later: bool, k: int)
    requires
        find_char_from(s, '\n', 0) == Some(k),
    ensures
        body_lines(s, later) == body_line(s.take(k), later) + seq!['\n'] + body_lines(s.skip(k + 1), true),
{
    reveal(body_lines);
}

/// The text between a comment's delimiters — `/**` for a doc comment, `/*` otherwise, and `*/`
/// — with each line's leading `*` removed; `None` when the delimiters are not there.
pub open spec fn body_spec(text: Seq<char>, doc: bool) -> Option<Seq<char>> {
    let open = if doc {
        "/**"@
    } else {
        "/*"@
    };
    if starts_with(text, open) && ends_with(text.skip(open.len() as int), "*/"@) {
        Some(body_lines(text.subrange(open.len() as int, text.len() - 2), false))
    } else {
        None
    }
}

/// [`body_line`] of `l`.
fn one_body_line(l: &[char], later: bool) -> (r: Vec<char>)
    ensures
        r@ == body_line(l@, later),
{
    let line = stripped_trailing(l, '\r');
    let stripped = trimmed_start(&line);
    if later && stripped.len() > 0 && stripped[0] == '*' && !begins(&stripped, "*/") {
        stripped_leading(&stripped, '*')
    } else {
        line
    }
}

/// The text between a comment's delimiters, with each line's leading `*` removed.
#[verifier::rlimit(40)]
pub fn body(text: &[char], doc: bool) -> (r: Option<Vec<char>>)
    ensures
        match r {
            Some(b) => body_spec(text@, doc) == Some(b@),
            None => body_spec(text@, doc) is None,
        },
{
    let opener = if doc {
        chars_of("/**")
    } else {
        chars_of("/*")
    };
    let ghost open = if doc {
        "/**"@
    } else {
        "/*"@
    };
    if !crate::strs::has_prefix(text, &opener) {
        return None;
    }
    let after = slice_vec(text, opener.len(), text.len());
    assert(after@ == text@.skip(open.len() as int));
    if !crate::strs::has_suffix(&after, &chars_of("*/")) {
        return None;
    }
    proof {
        reveal_strlit("*/");
    }
    let inner = slice_vec(&after, 0, after.len() - 2);
    assert(inner@ == text@.subrange(open.len() as int, text@.len() - 2));
    let mut out: Vec<char> = Vec::new();
    let mut pos: usize = 0;
    let mut later = false;
    assert(inner@.skip(0) == inner@);
    assert(out@ + body_lines(inner@, false) =~= body_lines(inner@, false));
    loop
        invariant_except_break
            pos <= inner@.len(),
            pos > 0 ==> later,
            out@ + body_lines(inner@.skip(pos as int), later) == body_lines(inner@, false),
        ensures
            out@ == body_lines(inner@, false),
        decreases inner@.len() - pos,
    {
        let rest = slice_vec(&inner, pos, inner.len());
        assert(rest@ == inner@.skip(pos as int));
        let found = find_char(&rest, '\n', 0);
        proof {
            lemma_find_char_props(rest@, '\n', 0);
        }
        match found {
            None => {
                proof {
                    lemma_body_last(rest@, later);
                }
                push_all(&mut out, &one_body_line(&rest, later));
                break;
            },
            Some(k) => {
                proof {
                    lemma_body_step(rest@, later, k as int);
                }
                let head = slice_vec(&rest, 0, k);
                assert(head@ == rest@.take(k as int));
                push_all(&mut out, &one_body_line(&head, later));
                out.push('\n');
                assert(rest@.skip(k + 1) == inner@.skip(pos + k + 1));
                pos = pos + k + 1;
                later = true;
            },
        }
    }
    Some(out)
}

/// Removing a leading run never grows a sequence.
proof fn lemma_strip_leading_len(s: Seq<char>, c: char)
    ensures
        strip_leading(s, c).len() <= s.len(),
    decreases s.len(),
{
    if s.len() > 0 && s[0] == c {
        lemma_strip_leading_len(s.drop_first(), c);
    }
}

/// Removing a trailing run never grows a sequence.
proof fn lemma_strip_trailing_len(s: Seq<char>, c: char)
    ensures
        strip_trailing(s, c).len() <= s.len(),
    decreases s.len(),
{
    if s.len() > 0 && s.last() == c {
        lemma_strip_trailing_len(s.drop_last(), c);
    }
}

/// A body line is no longer than the line it comes from.
proof fn lemma_body_line_len(l: Seq<char>, later: bool)
    ensures
        body_line(l, later).len() <= l.len(),
{
    let line = strip_trailing(l, '\r');
    lemma_strip_trailing_len(l, '\r');
    crate::strs::lemma_trim_start_len(line);
    lemma_strip_leading_len(trim_start(line), '*');
}

/// The body lines are no longer than the text they come from.
proof fn lemma_body_lines_len(s: Seq<char>, later: bool)
    ensures
        body_lines(s, later).len() <= s.len(),
    decreases s.len(),
{
    lemma_find_char_props(s, '\n', 0);
    match find_char_from(s, '\n', 0) {
        None => {
            lemma_body_last(s, later);
            lemma_body_line_len(s, later);
        },
        Some(k) => {
            lemma_body_step(s, later, k);
            lemma_body_line_len(s.take(k), later);
            lemma_body_lines_len(s.skip(k + 1), true);
        },
    }
}

/// A comment's body is no longer than the comment.
pub proof fn lemma_body_len(text: Seq<char>, doc: bool)
    ensures
        body_spec(text, doc) matches Some(b) ==> b.len() <= text.len(),
{
    let open = if doc {
        "/**"@
    } else {
        "/*"@
    };
    reveal_strlit("*/");
    reveal_strlit("/**");
    reveal_strlit("/*");
    if starts_with(text, open) && ends_with(text.skip(open.len() as int), "*/"@) {
        lemma_body_lines_len(text.subrange(open.len() as int, text.len() - 2), false);
    }
}

} // verus!
