//! The rules for comments that are not refilled: a `//` comment gains the space after its
//! slashes and breaks where it overruns, an own-line block comment can become a run of `//`
//! lines, and a block comment that moved takes its continuation lines with it.

use vstd::prelude::*;

use crate::ir::{lemma_utf16_width_bound, utf16_units, utf16_width, Width};
use crate::javadoc::lines::begins;
use crate::strs::{
    char_is_ws, chars_of, find_char, find_char_from, is_ws, lemma_find_char_props, push_all,
    push_n, push_range, slice_vec, starts_with, trim, trim_end, trim_start, trimmed, trimmed_end,
    trimmed_start,
};

verus! {

/// `n` spaces.
pub open spec fn spaces(n: nat) -> Seq<char> {
    Seq::new(n, |_i: int| ' ')
}

/// Whether `rest` opens with an Eclipse externalized-string marker: `$NON-NLS-`, one or more
/// ASCII digits, and a `$`.
pub open spec fn is_non_nls_spec(rest: Seq<char>) -> bool {
    starts_with(rest, "$NON-NLS-"@) && {
        let body = rest.skip("$NON-NLS-"@.len() as int);
        match find_char_from(body, '$', 0) {
            None => false,
            Some(k) => k > 0 && forall|i: int| 0 <= i < k ==> '0' <= #[trigger] body[i] && body[i] <= '9',
        }
    }
}

/// Whether `rest` opens with `$NON-NLS-<digits>$`.
pub fn is_non_nls(rest: &[char]) -> (r: bool)
    ensures
        r == is_non_nls_spec(rest@),
{
    let marker = chars_of("$NON-NLS-");
    if !begins(rest, "$NON-NLS-") {
        return false;
    }
    let body = slice_vec(rest, marker.len(), rest.len());
    assert(body@ == rest@.skip("$NON-NLS-"@.len() as int));
    let k = match find_char(&body, '$', 0) {
        Some(k) => k,
        None => return false,
    };
    proof {
        lemma_find_char_props(body@, '$', 0);
    }
    if k == 0 {
        return false;
    }
    let mut i: usize = 0;
    while i < k
        invariant
            k <= body@.len(),
            i <= k,
            body@ == rest@.skip("$NON-NLS-"@.len() as int),
            find_char_from(body@, '$', 0) == Some(k as int),
            forall|j: int| 0 <= j < i ==> '0' <= #[trigger] body@[j] && body@[j] <= '9',
        decreases k - i,
    {
        if !('0' <= body[i] && body[i] <= '9') {
            proof {
                let b = rest@.skip("$NON-NLS-"@.len() as int);
                assert(b == body@);
                assert(find_char_from(b, '$', 0) == Some(k as int));
                assert(!('0' <= b[i as int] && b[i as int] <= '9'));
            }
            return false;
        }
        i += 1;
    }
    true
}

/// The number of `/` that `s` opens with.
pub open spec fn leading_slashes(s: Seq<char>) -> nat
    decreases s.len(),
{
    if s.len() > 0 && s[0] == '/' {
        1 + leading_slashes(s.drop_first())
    } else {
        0
    }
}

/// A line opens with no more slashes than it holds characters.
pub proof fn lemma_leading_slashes_len(s: Seq<char>)
    ensures
        leading_slashes(s) <= s.len(),
    decreases s.len(),
{
    if s.len() > 0 && s[0] == '/' {
        lemma_leading_slashes_len(s.drop_first());
    }
}

/// Adding the space after the slashes grows a line by one character at most.
pub proof fn lemma_space_after_slashes_len(s: Seq<char>)
    ensures
        space_after_slashes_spec(s).len() <= s.len() + 1,
{
    lemma_leading_slashes_len(s);
}

/// `//foo` as `// foo`: a space goes between the slashes and the text, unless the text is empty
/// or already starts with whitespace, or is one of the IDE directives that stop working with a
/// space in them (`noinspection`, `$NON-NLS-…$`).
pub open spec fn space_after_slashes_spec(line: Seq<char>) -> Seq<char> {
    let n = leading_slashes(line);
    let rest = line.skip(n as int);
    if n < 2 || starts_with(rest, "noinspection"@) || is_non_nls_spec(rest) || rest.len() == 0 || is_ws(rest[0]) {
        line
    } else {
        line.take(n as int) + seq![' '] + rest
    }
}

/// `//foo` → `// foo`.
pub fn space_after_slashes(line: &[char]) -> (r: Vec<char>)
    ensures
        r@ == space_after_slashes_spec(line@),
{
    let mut n: usize = 0;
    assert(line@.skip(0) == line@);
    while n < line.len() && line[n] == '/'
        invariant
            n <= line@.len(),
            leading_slashes(line@) == n + leading_slashes(line@.skip(n as int)),
        decreases line@.len() - n,
    {
        assert(line@.skip(n as int).drop_first() == line@.skip(n + 1));
        n += 1;
    }
    let rest = slice_vec(line, n, line.len());
    assert(rest@ == line@.skip(n as int));
    assert(leading_slashes(line@) == n);
    let mut out: Vec<char> = Vec::new();
    if n < 2 || begins(&rest, "noinspection") || is_non_nls(&rest) || rest.len() == 0 || char_is_ws(
        rest[0],
    ) {
        push_all(&mut out, line);
        return out;
    }
    push_range(&mut out, line, 0, n);
    out.push(' ');
    push_all(&mut out, &rest);
    out
}

/// One line of a block comment as a line comment: trimmed, its leading `*` and the whitespace
/// after it gone, and `// ` put in front — a bare `//` when nothing is left.
pub open spec fn as_line_comment(l: Seq<char>) -> Seq<char> {
    let t = trim(l);
    let u = if t.len() > 0 && t[0] == '*' {
        trim_start(t.skip(1))
    } else {
        t
    };
    if u.len() == 0 {
        "//"@
    } else {
        "// "@ + u
    }
}

/// The lines of `s` (split at every `\n`), each as a line comment, joined by a newline and
/// `indent` spaces.
#[verifier::opaque]
pub open spec fn line_comments_of(s: Seq<char>, indent: nat) -> Seq<char>
    decreases s.len(),
{
    match find_char_from(s, '\n', 0) {
        None => as_line_comment(s),
        Some(k) => {
            proof {
                lemma_find_char_props(s, '\n', 0);
            }
            as_line_comment(s.take(k)) + seq!['\n'] + spaces(indent) + line_comments_of(s.skip(k + 1), indent)
        },
    }
}

/// The last line of a run of line comments.
pub proof fn lemma_line_comments_last(s: Seq<char>, indent: nat)
    requires
        find_char_from(s, '\n', 0) is None,
    ensures
        line_comments_of(s, indent) == as_line_comment(s),
{
    reveal(line_comments_of);
}

/// A line of a run of line comments and the run after it.
pub proof fn lemma_line_comments_step(s: Seq<char>, indent: nat, k: int)
    requires
        find_char_from(s, '\n', 0) == Some(k),
    ensures
        line_comments_of(s, indent) == as_line_comment(s.take(k)) + seq!['\n'] + spaces(indent)
            + line_comments_of(s.skip(k + 1), indent),
{
    reveal(line_comments_of);
}

/// The text between a block comment's `/*` and `*/`, or all of it when it lacks either.
pub open spec fn block_inside(text: Seq<char>) -> Seq<char> {
    if starts_with(text, "/*"@) && crate::strs::ends_with(text.skip(2), "*/"@) {
        text.subrange(2, text.len() - 2)
    } else {
        text
    }
}

/// An own-line block comment rewritten as a run of line comments.
pub open spec fn to_line_comments_spec(text: Seq<char>, indent: nat) -> Seq<char> {
    line_comments_of(block_inside(text), indent)
}

/// [`as_line_comment`] of `l`.
fn line_comment(l: &[char]) -> (r: Vec<char>)
    ensures
        r@ == as_line_comment(l@),
{
    let t = trimmed(l);
    let u = if t.len() > 0 && t[0] == '*' {
        let rest = slice_vec(&t, 1, t.len());
        assert(rest@ == t@.skip(1));
        trimmed_start(&rest)
    } else {
        t
    };
    if u.len() == 0 {
        chars_of("//")
    } else {
        let mut out = chars_of("// ");
        push_all(&mut out, &u);
        out
    }
}

/// Rewrite an own-line block comment as a run of line comments.
#[verifier::rlimit(30)]
pub fn to_line_comments(text: &[char], indent: usize) -> (r: Vec<char>)
    ensures
        r@ == to_line_comments_spec(text@, indent as nat),
{
    let delimited = begins(text, "/*") && text.len() >= 2 && crate::strs::has_suffix(
        &slice_vec(text, 2, text.len()),
        &chars_of("*/"),
    );
    proof {
        reveal_strlit("/*");
        reveal_strlit("*/");
        if text@.len() >= 2 {
            assert(text@.subrange(2, text@.len() as int) == text@.skip(2));
        }
    }
    let body = if delimited {
        slice_vec(text, 2, text.len() - 2)
    } else {
        slice_vec(text, 0, text.len())
    };
    proof {
        assert(text@.subrange(0, text@.len() as int) == text@);
        assert(body@ == block_inside(text@));
    }
    let mut out: Vec<char> = Vec::new();
    let mut pos: usize = 0;
    assert(body@.skip(0) == body@);
    assert(out@ + line_comments_of(body@, indent as nat) == line_comments_of(body@, indent as nat));
    loop
        invariant_except_break
            pos <= body@.len(),
            out@ + line_comments_of(body@.skip(pos as int), indent as nat) == line_comments_of(body@, indent as nat),
        ensures
            out@ == line_comments_of(body@, indent as nat),
        decreases body@.len() - pos,
    {
        let rest = slice_vec(&body, pos, body.len());
        assert(rest@ == body@.skip(pos as int));
        match find_char(&rest, '\n', 0) {
            None => {
                proof {
                    lemma_line_comments_last(rest@, indent as nat);
                }
                push_all(&mut out, &line_comment(&rest));
                break;
            },
            Some(k) => {
                proof {
                    lemma_find_char_props(rest@, '\n', 0);
                    lemma_line_comments_step(rest@, indent as nat, k as int);
                }
                let head = slice_vec(&rest, 0, k);
                assert(head@ == rest@.take(k as int));
                push_all(&mut out, &line_comment(&head));
                out.push('\n');
                push_n(&mut out, ' ', indent);
                assert(rest@.skip(k + 1) == body@.skip(pos + k + 1));
                pos = pos + k + 1;
            },
        }
    }
    out
}


/// A continuation line of a moved block comment: `extra` spaces in front unless it is blank.
pub open spec fn pad_line(l: Seq<char>, extra: nat) -> Seq<char> {
    if trim(l).len() > 0 {
        spaces(extra) + l
    } else {
        l
    }
}

/// The lines of `s`, each padded by [`pad_line`], joined by newlines.
#[verifier::opaque]
pub open spec fn shifted_lines(s: Seq<char>, extra: nat) -> Seq<char>
    decreases s.len(),
{
    match find_char_from(s, '\n', 0) {
        None => pad_line(s, extra),
        Some(k) => {
            proof {
                lemma_find_char_props(s, '\n', 0);
            }
            pad_line(s.take(k), extra) + seq!['\n'] + shifted_lines(s.skip(k + 1), extra)
        },
    }
}

/// The last line of a shifted run.
pub proof fn lemma_shift_last(s: Seq<char>, extra: nat)
    requires
        find_char_from(s, '\n', 0) is None,
    ensures
        shifted_lines(s, extra) == pad_line(s, extra),
{
    reveal(shifted_lines);
}

/// A line of a shifted run and the run after it.
pub proof fn lemma_shift_step(s: Seq<char>, extra: nat, k: int)
    requires
        find_char_from(s, '\n', 0) == Some(k),
    ensures
        shifted_lines(s, extra) == pad_line(s.take(k), extra) + seq!['\n'] + shifted_lines(s.skip(k + 1), extra),
{
    reveal(shifted_lines);
}

/// A comment that is not reflowed, moved from `column` to `indent`: when it moved right and
/// spans lines, every continuation line that is not blank moves right by the same amount; the
/// first line, and a comment that moved left or stayed on one line, are kept as written.
pub open spec fn shift_spec(text: Seq<char>, indent: int, column: int) -> Seq<char> {
    if indent <= column {
        text
    } else {
        match find_char_from(text, '\n', 0) {
            None => text,
            Some(k) => text.take(k) + seq!['\n'] + shifted_lines(text.skip(k + 1), (indent - column) as nat),
        }
    }
}

/// Move a comment the formatter does not reflow to its new column.
#[verifier::rlimit(30)]
pub fn shift(text: &[char], indent: usize, column: usize) -> (r: Vec<char>)
    ensures
        r@ == shift_spec(text@, indent as int, column as int),
{
    if indent <= column {
        return slice_vec(text, 0, text.len());
    }
    let first = match find_char(text, '\n', 0) {
        Some(k) => k,
        None => return slice_vec(text, 0, text.len()),
    };
    proof {
        lemma_find_char_props(text@, '\n', 0);
    }
    let extra = indent - column;
    let n = text.len();
    assert(first < n);
    let mut out = slice_vec(text, 0, first);
    out.push('\n');
    let body = slice_vec(text, first + 1, text.len());
    assert(body@ == text@.skip(first + 1));
    let mut pos: usize = 0;
    assert(body@.skip(0) == body@);
    loop
        invariant_except_break
            pos <= body@.len(),
            out@ + shifted_lines(body@.skip(pos as int), extra as nat) == text@.take(first as int) + seq!['\n']
                + shifted_lines(body@, extra as nat),
        ensures
            out@ == text@.take(first as int) + seq!['\n'] + shifted_lines(body@, extra as nat),
        decreases body@.len() - pos,
    {
        let rest = slice_vec(&body, pos, body.len());
        assert(rest@ == body@.skip(pos as int));
        let found = find_char(&rest, '\n', 0);
        let end = match found {
            Some(k) => k,
            None => rest.len(),
        };
        proof {
            lemma_find_char_props(rest@, '\n', 0);
        }
        let line = slice_vec(&rest, 0, end);
        let ghost before = out@;
        if trimmed(&line).len() > 0 {
            push_n(&mut out, ' ', extra);
        }
        push_all(&mut out, &line);
        assert(out@ == before + pad_line(line@, extra as nat));
        if found.is_none() {
            proof {
                assert(line@ == rest@);
                lemma_shift_last(rest@, extra as nat);
            }
            break;
        }
        proof {
            lemma_shift_step(rest@, extra as nat, end as int);
        }
        out.push('\n');
        assert(rest@.skip(end + 1) == body@.skip(pos + end + 1));
        pos = pos + end + 1;
    }
    out
}

/// Whether a `//` line may break at `i`: a whitespace character that starts more than two
/// columns in and no further in than `budget`.
pub open spec fn break_ok(line: Seq<char>, budget: int, i: int) -> bool {
    &&& 0 <= i < line.len()
    &&& 2 < utf16_width(line.take(i))
    &&& utf16_width(line.take(i)) <= budget
    &&& is_ws(line[i])
}

/// The last place a `//` line may break within `budget` columns, if there is one.
pub open spec fn break_at_spec(line: Seq<char>, budget: int) -> Option<int> {
    if exists|i: int| break_ok(line, budget, i) {
        Some(choose|i: int| break_ok(line, budget, i) && forall|j: int| i < j ==> !break_ok(line, budget, j))
    } else {
        None
    }
}

/// A width grows with the prefix it measures.
pub proof fn lemma_width_mono(s: Seq<char>, i: int, j: int)
    requires
        0 <= i <= j <= s.len(),
    ensures
        utf16_width(s.take(i)) <= utf16_width(s.take(j)),
    decreases j - i,
{
    if i < j {
        lemma_width_mono(s, i, j - 1);
        assert(s.take(j).drop_last() == s.take(j - 1));
    }
}

/// What [`break_at_spec`] promises.
pub proof fn lemma_break_at_props(line: Seq<char>, budget: int)
    ensures
        match break_at_spec(line, budget) {
            Some(i) => break_ok(line, budget, i) && forall|j: int| i < j ==> !break_ok(line, budget, j),
            None => forall|j: int| !break_ok(line, budget, j),
        },
{
    if exists|i: int| break_ok(line, budget, i) {
        let w = choose|i: int| break_ok(line, budget, i);
        lemma_last_break(line, budget, w);
    }
}

/// If a line may break anywhere, a last such place exists.
proof fn lemma_last_break(line: Seq<char>, budget: int, w: int)
    requires
        break_ok(line, budget, w),
    ensures
        exists|i: int| break_ok(line, budget, i) && forall|j: int| i < j ==> !break_ok(line, budget, j),
    decreases line.len() - w,
{
    if exists|j: int| w < j && break_ok(line, budget, j) {
        let j = choose|j: int| w < j && break_ok(line, budget, j);
        lemma_last_break(line, budget, j);
    } else {
        assert(break_ok(line, budget, w) && forall|j: int| w < j ==> !break_ok(line, budget, j));
    }
}

/// The last place found by scanning is the one [`break_at_spec`] names.
proof fn lemma_break_at_is(line: Seq<char>, budget: int, i: int)
    requires
        break_ok(line, budget, i),
        forall|j: int| i < j ==> !break_ok(line, budget, j),
    ensures
        break_at_spec(line, budget) == Some(i),
{
    let w = choose|k: int| break_ok(line, budget, k) && forall|j: int| k < j ==> !break_ok(line, budget, j);
    assert(break_ok(line, budget, w) && forall|j: int| w < j ==> !break_ok(line, budget, j));
    if w < i {
        assert(!break_ok(line, budget, i));
    } else if w > i {
        assert(!break_ok(line, budget, w));
    }
}

/// The index of the last whitespace at or before `budget` columns, past the `//`. `None` means
/// there is nowhere to break — a single long word, or a URL.
pub fn break_at(line: &[char], budget: usize) -> (r: Option<usize>)
    requires
        2 * line@.len() <= usize::MAX,
    ensures
        match r {
            Some(i) => break_at_spec(line@, budget as int) == Some(i as int),
            None => break_at_spec(line@, budget as int) is None,
        },
{
    let mut best: Option<usize> = None;
    let mut column: usize = 0;
    let mut i: usize = 0;
    while i < line.len() && column <= budget
        invariant
            i <= line@.len(),
            2 * line@.len() <= usize::MAX,
            column == utf16_width(line@.take(i as int)),
            match best {
                Some(b) => b < i && break_ok(line@, budget as int, b as int) && forall|j: int|
                    b < j < i ==> !break_ok(line@, budget as int, j),
                None => forall|j: int| 0 <= j < i ==> !break_ok(line@, budget as int, j),
            },
        decreases line@.len() - i,
    {
        proof {
            lemma_utf16_width_bound(line@.take(i as int));
            assert(line@.take(i + 1).drop_last() == line@.take(i as int));
        }
        if column > 2 && char_is_ws(line[i]) {
            best = Some(i);
        }
        if (line[i] as u32) >= 0x10000 {
            column = column + 2;
        } else {
            column = column + 1;
        }
        i += 1;
    }
    proof {
        assert forall|j: int| i <= j implies !break_ok(line@, budget as int, j) by {
            if 0 <= j < line@.len() {
                lemma_width_mono(line@, i as int, j);
            }
        }
    }
    match best {
        Some(b) => {
            proof {
                lemma_break_at_is(line@, budget as int, b as int);
            }
            Some(b)
        },
        None => {
            proof {
                lemma_break_at_props(line@, budget as int);
            }
            None
        },
    }
}


/// `a - b`, or zero when `b` is larger (`usize::saturating_sub`).
pub open spec fn sat_sub(a: int, b: int) -> int {
    if a >= b {
        a - b
    } else {
        0
    }
}

/// What decreases as a `//` line is broken: its length, and whether it has yet to be restarted
/// with `//`.
pub open spec fn wrap_measure(cur: Seq<char>) -> int {
    2 * cur.len() + if starts_with(cur, "//"@) {
        0int
    } else {
        1int
    }
}

/// Where a line may break, it is past its second character, and past its third once it starts
/// with `//`.
pub proof fn lemma_break_is_late(cur: Seq<char>, budget: int, at: int)
    requires
        break_ok(cur, budget, at),
    ensures
        at >= 2,
        starts_with(cur, "//"@) ==> at >= 3,
{
    lemma_utf16_width_bound(cur.take(at));
    if starts_with(cur, "//"@) {
        reveal_strlit("//");
        assert("//"@.len() == 2 && "//"@[0] == '/' && "//"@[1] == '/');
        assert(cur.subrange(0, 2)[0] == cur[0] && cur.subrange(0, 2)[1] == cur[1]);
        if at < 3 {
            assert(cur.take(at) == cur.take(2));
            assert(cur.take(2).drop_last() == cur.take(1));
            assert(cur.take(1).drop_last() == cur.take(0));
            assert(cur.take(2).last() == '/' && cur.take(1).last() == '/');
            assert(('/' as u32) < 0x10000);
            assert(utf16_units('/') == 1);
            assert(utf16_width(cur.take(0)) == 0);
            assert(utf16_width(cur.take(1)) == 1);
            assert(utf16_width(cur.take(2)) == 2);
        }
    }
}

/// A `//` line at `column` broken to fit `limit`: while it overruns and has somewhere to break,
/// the part before the break (trailing whitespace removed) becomes a line and the rest starts
/// again with `//`; the last part, trailing whitespace removed, ends the run.
#[verifier::opaque]
pub open spec fn wrapped(cur: Seq<char>, column: int, limit: int) -> Seq<Seq<char>>
    decreases wrap_measure(cur),
{
    if column + utf16_width(cur) > limit {
        match break_at_spec(cur, sat_sub(limit, column)) {
            None => seq![trim_end(cur)],
            Some(at) => {
                proof {
                    lemma_break_at_props(cur, sat_sub(limit, column));
                    lemma_break_is_late(cur, sat_sub(limit, column), at);
                    reveal_strlit("//");
                    assert(("//"@ + cur.skip(at)).subrange(0, "//"@.len() as int) =~= "//"@);
                    assert(wrap_measure("//"@ + cur.skip(at)) < wrap_measure(cur));
                }
                seq![trim_end(cur.take(at))] + wrapped("//"@ + cur.skip(at), column, limit)
            },
        }
    } else {
        seq![trim_end(cur)]
    }
}

/// The contents of each line.
pub open spec fn views(v: Seq<Vec<char>>) -> Seq<Seq<char>> {
    v.map_values(|x: Vec<char>| x@)
}

/// The line that ends a run.
proof fn lemma_wrapped_last(cur: Seq<char>, column: int, limit: int)
    requires
        !(column + utf16_width(cur) > limit) || break_at_spec(cur, sat_sub(limit, column)) is None,
    ensures
        wrapped(cur, column, limit) == seq![trim_end(cur)],
{
    reveal(wrapped);
}

/// A line broken off the front of a run.
proof fn lemma_wrapped_step(cur: Seq<char>, column: int, limit: int, at: int)
    requires
        column + utf16_width(cur) > limit,
        break_at_spec(cur, sat_sub(limit, column)) == Some(at),
    ensures
        wrapped(cur, column, limit) == seq![trim_end(cur.take(at))] + wrapped("//"@ + cur.skip(at), column, limit),
{
    reveal(wrapped);
}

/// Trimming the end keeps a start that holds no whitespace.
proof fn lemma_trim_end_keeps_prefix(s: Seq<char>, n: int)
    requires
        0 <= n <= s.len(),
        forall|i: int| 0 <= i < n ==> !is_ws(#[trigger] s[i]),
    ensures
        n <= trim_end(s).len(),
        trim_end(s).take(n) == s.take(n),
    decreases s.len(),
{
    if s.len() > 0 && is_ws(s.last()) {
        assert(n < s.len());
        lemma_trim_end_keeps_prefix(s.drop_last(), n);
        assert(s.drop_last().take(n) =~= s.take(n));
    }
}

/// A `//` comment's start survives trimming its end.
proof fn lemma_trim_end_slashes(s: Seq<char>)
    requires
        starts_with(s, "//"@),
    ensures
        starts_with(trim_end(s), "//"@),
{
    reveal_strlit("//");
    assert(s[0] == '/' && s[1] == '/') by {
        assert(s.subrange(0, 2)[0] == s[0]);
        assert(s.subrange(0, 2)[1] == s[1]);
    }
    lemma_trim_end_keeps_prefix(s, 2);
    assert(trim_end(s).subrange(0, 2) =~= s.subrange(0, 2));
}

/// A `//` comment broken to fit stays a run of `//` comments: every line it is broken into,
/// the first and each continuation, starts with `//`.
pub proof fn law_a_wrapped_line_comment_stays_line_comments(line: Seq<char>, column: int, limit: int)
    requires
        starts_with(line, "//"@),
    ensures
        forall|k: int|
            0 <= k < wrapped(line, column, limit).len() ==> starts_with(#[trigger] wrapped(line, column, limit)[k], "//"@),
    decreases wrap_measure(line),
{
    reveal_strlit("//");
    let budget = sat_sub(limit, column);
    if column + utf16_width(line) > limit && break_at_spec(line, budget) is Some {
        let at = break_at_spec(line, budget)->0;
        lemma_break_at_props(line, budget);
        lemma_break_is_late(line, budget, at);
        lemma_wrapped_step(line, column, limit, at);
        let next = "//"@ + line.skip(at);
        assert(next.subrange(0, 2) =~= "//"@);
        assert(wrap_measure(next) < wrap_measure(line));
        law_a_wrapped_line_comment_stays_line_comments(next, column, limit);
        assert(line.take(at).subrange(0, 2) =~= line.subrange(0, 2));
        lemma_trim_end_slashes(line.take(at));
        let rest = wrapped(next, column, limit);
        assert forall|k: int|
            0 <= k < wrapped(line, column, limit).len() implies starts_with(#[trigger] wrapped(line, column, limit)[k], "//"@) by {
            if k > 0 {
                assert(wrapped(line, column, limit)[k] == rest[k - 1]);
            }
        }
    } else {
        lemma_wrapped_last(line, column, limit);
        lemma_trim_end_slashes(line);
    }
}

/// Trimming the end leaves a prefix.
proof fn lemma_trim_end_is_prefix(s: Seq<char>)
    ensures
        trim_end(s).len() <= s.len(),
        trim_end(s) == s.take(trim_end(s).len() as int),
    decreases s.len(),
{
    if s.len() > 0 && is_ws(s.last()) {
        lemma_trim_end_is_prefix(s.drop_last());
        assert(s.drop_last().take(trim_end(s).len() as int) =~= s.take(trim_end(s).len() as int));
    } else {
        assert(s.take(s.len() as int) =~= s);
    }
}

/// Whether a `//` line has somewhere to break within `budget` columns.
pub open spec fn has_break(l: Seq<char>, budget: int) -> bool {
    exists|i: int| break_ok(l, budget, i)
}

/// A prefix has no break point its line lacks.
proof fn lemma_prefix_breaks(s: Seq<char>, n: int, budget: int)
    requires
        0 <= n <= s.len(),
        !has_break(s, budget),
    ensures
        !has_break(s.take(n), budget),
{
    let p = s.take(n);
    assert forall|i: int| !break_ok(p, budget, i) by {
        if break_ok(p, budget, i) {
            assert(p.take(i) =~= s.take(i));
            assert(p[i] == s[i]);
            assert(break_ok(s, budget, i));
        }
    }
}

/// Every line a `//` comment is broken into fits within `limit` from `column`, unless it has
/// nowhere to break within what that leaves.
pub proof fn lemma_wrapped_fits(cur: Seq<char>, column: int, limit: int)
    ensures
        forall|k: int|
            0 <= k < wrapped(cur, column, limit).len() ==> column + utf16_width(#[trigger] wrapped(cur, column, limit)[k])
                <= limit || !has_break(wrapped(cur, column, limit)[k], sat_sub(limit, column)),
    decreases wrap_measure(cur),
{
    let budget = sat_sub(limit, column);
    if column + utf16_width(cur) > limit && break_at_spec(cur, budget) is Some {
        let at = break_at_spec(cur, budget)->0;
        lemma_break_at_props(cur, budget);
        lemma_break_is_late(cur, budget, at);
        lemma_wrapped_step(cur, column, limit, at);
        reveal_strlit("//");
        let next = "//"@ + cur.skip(at);
        assert(next.subrange(0, 2) =~= "//"@);
        assert(wrap_measure(next) < wrap_measure(cur));
        lemma_wrapped_fits(next, column, limit);
        let head = cur.take(at);
        lemma_trim_end_is_prefix(head);
        lemma_width_mono(head, trim_end(head).len() as int, head.len() as int);
        assert(head.take(head.len() as int) =~= head);
        assert(cur.take(at) =~= head);
        assert(column + utf16_width(trim_end(head)) <= limit);
        let rest = wrapped(next, column, limit);
        assert forall|k: int| 0 <= k < wrapped(cur, column, limit).len() implies column + utf16_width(
            #[trigger] wrapped(cur, column, limit)[k],
        ) <= limit || !has_break(wrapped(cur, column, limit)[k], budget) by {
            if k > 0 {
                assert(wrapped(cur, column, limit)[k] == rest[k - 1]);
            }
        }
    } else {
        lemma_wrapped_last(cur, column, limit);
        lemma_trim_end_is_prefix(cur);
        if column + utf16_width(cur) <= limit {
            lemma_width_mono(cur, trim_end(cur).len() as int, cur.len() as int);
            assert(cur.take(cur.len() as int) =~= cur);
        } else {
            lemma_break_at_props(cur, budget);
            lemma_prefix_breaks(cur, trim_end(cur).len() as int, budget);
        }
    }
}

/// Break `line` at whitespace until it fits, restarting each continuation with `//`.
#[verifier::rlimit(40)]
pub fn wrap_line(line: &[char], column: usize, limit: usize) -> (r: Vec<Vec<char>>)
    requires
        column + 2 * line@.len() + 4 <= usize::MAX,
    ensures
        views(r@) == wrapped(line@, column as int, limit as int),
{
    let mut lines: Vec<Vec<char>> = Vec::new();
    let mut current = slice_vec(line, 0, line.len());
    assert(line@.subrange(0, line@.len() as int) == line@);
    assert(views(lines@) + wrapped(current@, column as int, limit as int) == wrapped(line@, column as int, limit as int));
    loop
        invariant_except_break
            current@.len() <= line@.len(),
            column + 2 * line@.len() + 4 <= usize::MAX,
            views(lines@) + wrapped(current@, column as int, limit as int) == wrapped(line@, column as int, limit as int),
        ensures
            views(lines@) == wrapped(line@, column as int, limit as int),
        decreases wrap_measure(current@),
    {
        let ghost before = views(lines@);
        let width = Width::utf16_chars(&current);
        proof {
            lemma_utf16_width_bound(current@);
        }
        let over = column + width > limit;
        let found = if over {
            break_at(&current, limit.saturating_sub(column))
        } else {
            None
        };
        match found {
            None => {
                proof {
                    lemma_wrapped_last(current@, column as int, limit as int);
                }
                lines.push(trimmed_end(&current));
                assert(views(lines@) =~= before.push(trim_end(current@)));
                break;
            },
            Some(at) => {
                proof {
                    lemma_wrapped_step(current@, column as int, limit as int, at as int);
                    lemma_break_at_props(current@, sat_sub(limit as int, column as int));
                    lemma_break_is_late(current@, sat_sub(limit as int, column as int), at as int);
                }
                let head = slice_vec(&current, 0, at);
                assert(head@ == current@.take(at as int));
                lines.push(trimmed_end(&head));
                assert(views(lines@) =~= before.push(trim_end(current@.take(at as int))));
                let mut next = chars_of("//");
                push_range(&mut next, &current, at, current.len());
                proof {
                    reveal_strlit("//");
                    assert(current@.subrange(at as int, current@.len() as int) == current@.skip(at as int));
                    assert(next@.subrange(0, "//"@.len() as int) =~= "//"@);
                    assert(starts_with(next@, "//"@));
                }
                current = next;
            },
        }
    }
    lines
}

} // verus!
