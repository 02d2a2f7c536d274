//! The line-level rules of comment reflow: what a Javadoc line *is* before anything is refilled.
//!
//! Javadoc has its own grammar — block tags, inline tags, HTML, fenced code — and
//! google-java-format gives it its own lexer. The rules here are the ones that lexer and its
//! writer apply to one line or one token at a time: which HTML tags are tokens of their own,
//! which lines open or close a preformatted region, how deep in a list a line sits, whether a
//! comment lexes at all (one that does not is left exactly as written), and how block-tag
//! descriptions line up.
//!
//! Every rule reads text as characters. HTML tag names are case-insensitive, so the rules that
//! look for tags look at the line lower-cased the ASCII way.

pub mod blocks;
pub mod code;
pub mod comment;
pub mod lines;
pub mod measure;
pub mod parse;
pub mod reflow;
pub mod reindent;
pub mod render;
pub mod tokens;

use vstd::prelude::*;

use crate::strs::{
    char_is_ws, char_lower, chars_of, find_char, find_char_from, has_prefix, is_ws,
    lemma_find_char_props, lower, lower_char, occurs_at, push_all, slice_vec, starts_with,
    trim_start,
};

verus! {

/// `char::is_alphanumeric`: whether a character is Unicode alphabetic or numeric.
pub uninterp spec fn is_alphanumeric(c: char) -> bool;

/// `char::is_alphanumeric`. The Unicode tables are std's; what is stated here is the ASCII
/// range, where the letters and digits are alphanumeric and nothing else is.
#[verifier::external_body]
fn char_is_alphanumeric(c: char) -> (r: bool)
    ensures
        r == is_alphanumeric(c),
        (c as u32) < 128 ==> (r == (('a' <= c && c <= 'z') || ('A' <= c && c <= 'Z') || ('0' <= c && c <= '9'))),
{
    c.is_alphanumeric()
}

/// `s` lower-cased the ASCII way.
pub fn ascii_lower(s: &[char]) -> (r: Vec<char>)
    ensures
        r@ == lower(s@),
{
    let mut out: Vec<char> = Vec::new();
    let mut i: usize = 0;
    while i < s.len()
        invariant
            i <= s@.len(),
            out@ == lower(s@.take(i as int)),
        decreases s@.len() - i,
    {
        out.push(char_lower(s[i]));
        i += 1;
        assert(out@ =~= lower(s@.take(i as int)));
    }
    assert(s@.take(s@.len() as int) == s@);
    out
}

/// Whether `lit` occurs in `s` at `i`.
pub fn at(s: &[char], i: usize, lit: &str) -> (r: bool)
    ensures
        r == occurs_at(s@, lit@, i as int),
{
    crate::strs::is_at(s, &crate::strs::chars_of(lit), i)
}

/// The length of the `<name …>` (or `</name …>`) tag `rest` opens with, if it opens one: the
/// name ends at a character that is neither alphanumeric nor `_`, and the tag at the first `>`.
pub open spec fn html_tag_spec(rest: Seq<char>, name: Seq<char>, closing: bool) -> Option<int> {
    let head = if closing {
        seq!['<', '/'] + name
    } else {
        seq!['<'] + name
    };
    if !starts_with(rest, head) {
        None
    } else {
        let after = rest.skip(head.len() as int);
        if after.len() > 0 && (is_alphanumeric(after[0]) || after[0] == '_') {
            None
        } else {
            match find_char_from(after, '>', 0) {
                Some(k) => Some(head.len() + k + 1),
                None => None,
            }
        }
    }
}

/// The length of the `<name …>` (or `</name …>`) tag `s[from..]` opens with, if it opens one.
pub fn html_tag(s: &[char], from: usize, name: &str, closing: bool) -> (r: Option<usize>)
    requires
        from <= s@.len(),
    ensures
        match r {
            Some(n) => html_tag_spec(s@.skip(from as int), name@, closing) == Some(n as int) && from + n <= s@.len(),
            None => html_tag_spec(s@.skip(from as int), name@, closing) is None,
        },
{
    let rest = slice_vec(s, from, s.len());
    assert(rest@ =~= s@.skip(from as int));
    let mut head: Vec<char> = Vec::new();
    head.push('<');
    if closing {
        head.push('/');
    }
    push_all(&mut head, &chars_of(name));
    assert(head@ =~= (if closing { seq!['<', '/'] + name@ } else { seq!['<'] + name@ }));
    if !has_prefix(&rest, &head) {
        return None;
    }
    let after = slice_vec(&rest, head.len(), rest.len());
    assert(after@ =~= rest@.skip(head@.len() as int));
    if after.len() > 0 && (char_is_alphanumeric(after[0]) || after[0] == '_') {
        return None;
    }
    match find_char(&after, '>', 0) {
        Some(k) => {
            proof {
                lemma_find_char_props(after@, '>', 0);
            }
            Some(head.len() + k + 1)
        },
        None => None,
    }
}

/// Whether a line opens a footer tag: `@` and a lowercase ASCII letter.
pub open spec fn opens_footer_tag_spec(line: Seq<char>) -> bool {
    line.len() >= 2 && line[0] == '@' && 'a' <= line[1] && line[1] <= 'z'
}

/// Whether `s[from..]` opens a footer tag — `@` and a lowercase word.
pub fn opens_footer_tag(s: &[char], from: usize) -> (r: bool)
    requires
        from <= s@.len(),
    ensures
        r == opens_footer_tag_spec(s@.skip(from as int)),
{
    s.len() - from >= 2 && s[from] == '@' && 'a' <= s[from + 1] && s[from + 1] <= 'z'
}

/// A nesting context of the Javadoc lexer.
#[derive(Debug, Clone, Copy, PartialEq, Eq, Structural)]
pub enum Ctx {
    /// Inside `<pre>`.
    Pre,
    /// Inside `<code>`.
    Code,
    /// Inside `<table>`.
    Table,
    /// Inside an inline `{@…}` tag or a brace nested in one.
    Brace,
}

/// The index of the innermost `ctx` on `stack`, if any.
pub open spec fn last_index_of(stack: Seq<Ctx>, ctx: Ctx) -> Option<int>
    decreases stack.len(),
{
    if stack.len() == 0 {
        None
    } else if stack.last() == ctx {
        Some(stack.len() - 1)
    } else {
        last_index_of(stack.drop_last(), ctx)
    }
}

/// `stack` with the innermost `ctx` and everything opened inside it popped; unchanged when no
/// `ctx` is open.
pub open spec fn close_ctx(stack: Seq<Ctx>, ctx: Ctx) -> Seq<Ctx> {
    match last_index_of(stack, ctx) {
        Some(i) => stack.take(i),
        None => stack,
    }
}

/// The stack after the HTML tag `rest` opens with, and how many characters the tag spans (zero
/// when it opens none of `<pre>`, `<code>`, `<table>` or their closes).
#[verifier::opaque]
pub open spec fn tag_step(stack: Seq<Ctx>, rest: Seq<char>) -> (Seq<Ctx>, int) {
    match html_tag_spec(rest, "pre"@, false) {
        Some(e) => (stack.push(Ctx::Pre), e),
        None => match html_tag_spec(rest, "pre"@, true) {
            Some(e) => (close_ctx(stack, Ctx::Pre), e),
            None => match html_tag_spec(rest, "code"@, false) {
                Some(e) => (stack.push(Ctx::Code), e),
                None => match html_tag_spec(rest, "code"@, true) {
                    Some(e) => (close_ctx(stack, Ctx::Code), e),
                    None => match html_tag_spec(rest, "table"@, false) {
                        Some(e) => (stack.push(Ctx::Table), e),
                        None => match html_tag_spec(rest, "table"@, true) {
                            Some(e) => (close_ctx(stack, Ctx::Table), e),
                            None => (stack, 0),
                        },
                    },
                },
            },
        },
    }
}

/// The lexer's stack after the lower-cased line `lower` from index `at` on.
///
/// `{@` opens a brace context and a bare `{` nests only inside one; `}` closes a brace context;
/// inside one the rest is literal text; outside, `<pre>`, `<code>` and `<table>` open their
/// contexts and their closes pop back to the innermost matching open, a stray close closing
/// nothing.
#[verifier::opaque]
pub open spec fn lex_at(stack: Seq<Ctx>, lower: Seq<char>, at: int) -> Seq<Ctx>
    decreases if at < lower.len() {
        lower.len() - at
    } else {
        0
    },
{
    if at < 0 || at >= lower.len() {
        stack
    } else if lower[at] == '{' {
        let next = if (at + 1 < lower.len() && lower[at + 1] == '@') || stack.contains(Ctx::Brace) {
            stack.push(Ctx::Brace)
        } else {
            stack
        };
        lex_at(next, lower, at + 1)
    } else if lower[at] == '}' {
        let next = if stack.len() > 0 && stack.last() == Ctx::Brace {
            stack.drop_last()
        } else {
            stack
        };
        lex_at(next, lower, at + 1)
    } else if stack.contains(Ctx::Brace) {
        lex_at(stack, lower, at + 1)
    } else {
        let (next, width) = tag_step(stack, lower.skip(at));
        lex_at(next, lower, at + if width > 1 { width } else { 1 })
    }
}

/// The lexer's stack after the lines of `body` from index `pos` on, or `None` when a footer tag
/// opens at the head of a line while a context is still open — where the lexer gives up.
#[verifier::opaque]
pub open spec fn lex_from(stack: Seq<Ctx>, body: Seq<char>, pos: int) -> Option<Seq<Ctx>>
    decreases body.len() - pos,
{
    if pos < 0 || pos > body.len() {
        Some(stack)
    } else {
        let newline = find_char_from(body, '\n', pos);
        let end = match newline {
            Some(i) => i,
            None => body.len() as int,
        };
        let line = trim_start(body.subrange(pos, end));
        if stack.len() > 0 && opens_footer_tag_spec(line) {
            None
        } else {
            let next = lex_at(stack, lower(line), 0);
            match newline {
                Some(i) => if pos <= i < body.len() {
                    lex_from(next, body, i + 1)
                } else {
                    Some(next)
                },
                None => Some(next),
            }
        }
    }
}

/// One step of [`lex_at`].
pub proof fn lemma_lex_at_step(stack: Seq<Ctx>, lower: Seq<char>, at: int)
    requires
        0 <= at < lower.len(),
    ensures
        lex_at(stack, lower, at) == (if lower[at] == '{' {
            lex_at(
                if (at + 1 < lower.len() && lower[at + 1] == '@') || stack.contains(Ctx::Brace) {
                    stack.push(Ctx::Brace)
                } else {
                    stack
                },
                lower,
                at + 1,
            )
        } else if lower[at] == '}' {
            lex_at(
                if stack.len() > 0 && stack.last() == Ctx::Brace {
                    stack.drop_last()
                } else {
                    stack
                },
                lower,
                at + 1,
            )
        } else if stack.contains(Ctx::Brace) {
            lex_at(stack, lower, at + 1)
        } else {
            lex_at(tag_step(stack, lower.skip(at)).0, lower, at + if tag_step(stack, lower.skip(at)).1 > 1 {
                tag_step(stack, lower.skip(at)).1
            } else {
                1
            })
        }),
{
    reveal(lex_at);
}

/// [`lex_at`] past the end of the line leaves the stack alone.
pub proof fn lemma_lex_at_end(stack: Seq<Ctx>, lower: Seq<char>, at: int)
    requires
        at >= lower.len(),
    ensures
        lex_at(stack, lower, at) == stack,
{
    reveal(lex_at);
}

/// One line of [`lex_from`].
pub proof fn lemma_lex_from_step(stack: Seq<Ctx>, body: Seq<char>, pos: int)
    requires
        0 <= pos <= body.len(),
    ensures
        ({
            let newline = find_char_from(body, '\n', pos);
            let end = match newline {
                Some(i) => i,
                None => body.len() as int,
            };
            let line = trim_start(body.subrange(pos, end));
            &&& pos <= end <= body.len()
            &&& newline matches Some(i) ==> i < body.len()
            &&& lex_from(stack, body, pos) == if stack.len() > 0 && opens_footer_tag_spec(line) {
                None
            } else {
                match newline {
                    Some(i) => lex_from(lex_at(stack, lower(line), 0), body, i + 1),
                    None => Some(lex_at(stack, lower(line), 0)),
                }
            }
        }),
{
    reveal(lex_from);
    lemma_find_char_props(body, '\n', pos);
}

/// Whether google-java-format's Javadoc lexer gets through `body`: no footer tag while a context
/// is open, and no context left open at the end.
pub open spec fn lexes_cleanly_spec(body: Seq<char>) -> bool {
    lex_from(Seq::empty(), body, 0) == Some(Seq::<Ctx>::empty())
}

/// Whether a brace context is open.
fn holds_brace(stack: &Vec<Ctx>) -> (r: bool)
    ensures
        r == stack@.contains(Ctx::Brace),
{
    let mut i: usize = 0;
    while i < stack.len()
        invariant
            i <= stack@.len(),
            forall|j: int| 0 <= j < i ==> stack@[j] != Ctx::Brace,
        decreases stack@.len() - i,
    {
        if stack[i] == Ctx::Brace {
            assert(stack@[i as int] == Ctx::Brace);
            return true;
        }
        i += 1;
    }
    false
}

/// Pop the innermost `ctx` and everything opened inside it; nothing when no `ctx` is open.
fn close(stack: &mut Vec<Ctx>, ctx: Ctx)
    ensures
        final(stack)@ == close_ctx(old(stack)@, ctx),
{
    let ghost before = stack@;
    let mut i = stack.len();
    assert(before.take(i as int) == before);
    while i > 0
        invariant
            i <= stack@.len(),
            stack@ == before,
            before == old(stack)@,
            last_index_of(before, ctx) == last_index_of(before.take(i as int), ctx),
        decreases i,
    {
        assert(before.take(i as int).drop_last() == before.take(i - 1));
        assert(before.take(i as int).last() == before[i - 1]);
        if stack[i - 1] == ctx {
            proof {
                assert(before.take(i as int).len() == i);
                assert(last_index_of(before.take(i as int), ctx) == Some(i - 1));
            }
            stack.truncate(i - 1);
            assert(stack@ =~= before.take(i - 1));
            return;
        }
        i -= 1;
    }
}

/// Apply the HTML tag `lower[at..]` opens with, if it is one the lexer tracks; the characters
/// it spans, or zero.
fn tag_at(stack: &mut Vec<Ctx>, lower: &[char], at: usize) -> (r: usize)
    requires
        at <= lower@.len(),
    ensures
        (final(stack)@, r as int) == tag_step(old(stack)@, lower@.skip(at as int)),
        at + r <= lower@.len(),
{
    reveal(tag_step);
    if let Some(e) = html_tag(lower, at, "pre", false) {
        stack.push(Ctx::Pre);
        return e;
    }
    if let Some(e) = html_tag(lower, at, "pre", true) {
        close(stack, Ctx::Pre);
        return e;
    }
    if let Some(e) = html_tag(lower, at, "code", false) {
        stack.push(Ctx::Code);
        return e;
    }
    if let Some(e) = html_tag(lower, at, "code", true) {
        close(stack, Ctx::Code);
        return e;
    }
    if let Some(e) = html_tag(lower, at, "table", false) {
        stack.push(Ctx::Table);
        return e;
    }
    if let Some(e) = html_tag(lower, at, "table", true) {
        close(stack, Ctx::Table);
        return e;
    }
    0
}

/// Run the lexer over one lower-cased line.
fn lex_line(stack: &mut Vec<Ctx>, lower: &[char])
    ensures
        final(stack)@ == lex_at(old(stack)@, lower@, 0),
{
    let mut at: usize = 0;
    while at < lower.len()
        invariant
            at <= lower@.len(),
            lex_at(old(stack)@, lower@, 0) == lex_at(stack@, lower@, at as int),
        decreases lower@.len() - at,
    {
        proof {
            lemma_lex_at_step(stack@, lower@, at as int);
        }
        if lower[at] == '{' {
            if (at + 1 < lower.len() && lower[at + 1] == '@') || holds_brace(stack) {
                stack.push(Ctx::Brace);
            }
            at += 1;
        } else if lower[at] == '}' {
            if stack.len() > 0 && stack[stack.len() - 1] == Ctx::Brace {
                stack.pop();
            }
            at += 1;
        } else if holds_brace(stack) {
            at += 1;
        } else {
            let width = tag_at(stack, lower, at);
            at += if width > 1 { width } else { 1 };
        }
    }
    proof {
        lemma_lex_at_end(stack@, lower@, at as int);
    }
}

/// Whether google-java-format's Javadoc lexer would get through this body.
///
/// The lexer throws when a nesting context is still open — at a footer tag, and again at the end
/// of the comment — and the formatter answers that by returning the comment **exactly as
/// written**. An unclosed `<pre>`, `<code>` or `<table>`, or an unbalanced `{@…}`, is therefore a
/// Javadoc that is not reflowed at all.
pub fn lexes_cleanly(body: &[char]) -> (r: bool)
    ensures
        r == lexes_cleanly_spec(body@),
{
    let mut stack: Vec<Ctx> = Vec::new();
    let mut pos: usize = 0;
    loop
        invariant
            pos <= body@.len(),
            lex_from(Seq::empty(), body@, 0) == lex_from(stack@, body@, pos as int),
        decreases body@.len() - pos,
    {
        let newline = find_char(body, '\n', pos);
        proof {
            lemma_find_char_props(body@, '\n', pos as int);
            lemma_lex_from_step(stack@, body@, pos as int);
        }
        let end = match newline {
            Some(i) => i,
            None => body.len(),
        };
        let start = crate::strs::skip_ws(body, pos, end);
        if stack.len() > 0 && opens_footer_tag(body, start) && end - start >= 2 {
            assert(body@.skip(start as int).take(2) =~= body@.subrange(start as int, end as int).take(2));
            return false;
        }
        proof {
            let line = body@.subrange(start as int, end as int);
            if stack@.len() > 0 && opens_footer_tag_spec(line) {
                assert(body@.skip(start as int)[0] == line[0]);
                assert(body@.skip(start as int)[1] == line[1]);
            }
        }
        let lowered = ascii_lower(&slice_vec(body, start, end));
        lex_line(&mut stack, &lowered);
        match newline {
            Some(i) => {
                assert(i < body.len());
                pos = i + 1;
            },
            None => {
                if stack.len() == 0 {
                    assert(stack@ =~= Seq::<Ctx>::empty());
                }
                return stack.len() == 0;
            },
        }
    }
}

} // verus!
