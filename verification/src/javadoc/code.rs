//! The shape of a `<pre>{@code …}</pre>` region: its delimiters on lines of their own and its
//! snippet against the comment's margin.

use vstd::prelude::*;

use crate::javadoc::ascii_lower;
use crate::javadoc::lines::has_lit;
use crate::javadoc::tokens::lines_view;
use crate::strs::{
    char_is_ws, chars_of, contains, find_from, find_seq_from, is_ws, lemma_find_from_props,
    lower, push_all, rfind, rfind_seq, seq_eq, slice_vec, trim, trim_end, trimmed, trimmed_end,
};

verus! {

/// The number of whitespace characters a line starts with.
pub open spec fn indent_of(l: Seq<char>) -> nat
    decreases l.len(),
{
    if l.len() > 0 && is_ws(l[0]) {
        1 + indent_of(l.drop_first())
    } else {
        0
    }
}

/// The smallest indent among the lines that are not blank; `None` when every line is.
pub open spec fn min_indent(ls: Seq<Seq<char>>) -> Option<nat>
    decreases ls.len(),
{
    if ls.len() == 0 {
        None
    } else {
        let here = if trim(ls.last()).len() > 0 {
            Some(indent_of(ls.last()))
        } else {
            None
        };
        match (min_indent(ls.drop_last()), here) {
            (Some(a), Some(b)) => Some(if a <= b { a } else { b }),
            (Some(a), None) => Some(a),
            (None, b) => b,
        }
    }
}

/// A line without its first `n` characters; empty when it is shorter.
pub open spec fn drop_chars(l: Seq<char>, n: nat) -> Seq<char> {
    if n <= l.len() {
        l.skip(n as int)
    } else {
        Seq::empty()
    }
}

/// A `{@code …}` region with the indentation common to its snippet removed: the lines between
/// the first and the last, blank ones aside, share an indent, and every one of them loses that
/// many characters. A region whose first line holds no `{@code`, or whose snippet has no common
/// indent, is left alone.
pub open spec fn dedent_spec(lines: Seq<Seq<char>>) -> Seq<Seq<char>> {
    if lines.len() < 2 || !contains(lines[0], "{@code"@) {
        lines
    } else {
        let body = lines.subrange(1, lines.len() - 1);
        match min_indent(body) {
            None => lines,
            Some(c) => if c == 0 {
                lines
            } else {
                seq![lines[0]] + body.map_values(|l: Seq<char>| drop_chars(l, c)) + seq![lines.last()]
            },
        }
    }
}

/// The indent of a line.
fn indent_count(l: &[char]) -> (r: usize)
    ensures
        r == indent_of(l@),
        r <= l@.len(),
{
    let mut i: usize = 0;
    assert(l@.skip(0) == l@);
    while i < l.len() && char_is_ws(l[i])
        invariant
            i <= l@.len(),
            indent_of(l@) == i + indent_of(l@.skip(i as int)),
        decreases l@.len() - i,
    {
        assert(l@.skip(i as int).drop_first() == l@.skip(i + 1));
        i += 1;
    }
    i
}

/// Strip the common indentation from the body of a `{@code …}` region.
#[verifier::rlimit(40)]
pub fn dedent_code_region(lines: &mut Vec<Vec<char>>)
    ensures
        lines_view(final(lines)@) == dedent_spec(lines_view(old(lines)@)),
{
    let ghost ls = lines_view(lines@);
    if lines.len() < 2 {
        return;
    }
    assert(ls[0] == lines@[0]@);
    if !has_lit(&lines[0], "{@code") {
        return;
    }
    let end = lines.len() - 1;
    let ghost body = ls.subrange(1, end as int);
    let mut common: Option<usize> = None;
    let mut k: usize = 1;
    while k < end
        invariant
            ls == lines_view(lines@),
            end == lines@.len() - 1,
            1 <= k <= end,
            body == ls.subrange(1, end as int),
            (match common {
                Some(c) => Some(c as nat),
                None => None,
            }) == min_indent(body.take(k - 1)),
        decreases end - k,
    {
        proof {
            assert(body.take(k as int).drop_last() == body.take(k - 1));
            assert(body.take(k as int).last() == lines@[k as int]@);
        }
        if trimmed(&lines[k]).len() > 0 {
            let here = indent_count(&lines[k]);
            common = match common {
                Some(c) => Some(if c <= here {
                    c
                } else {
                    here
                }),
                None => Some(here),
            };
        }
        k += 1;
    }
    assert(body.take(end - 1) == body);
    let c = match common {
        Some(c) => c,
        None => return,
    };
    if c == 0 {
        return;
    }
    let mut k: usize = 1;
    while k < end
        invariant
            end == lines@.len() - 1,
            ls.len() == lines@.len(),
            1 <= k <= end,
            body == ls.subrange(1, end as int),
            lines@[0]@ == ls[0],
            lines@[end as int]@ == ls[end as int],
            forall|i: int| 1 <= i < k ==> #[trigger] lines@[i]@ == drop_chars(ls[i], c as nat),
            forall|i: int| k <= i < end ==> #[trigger] lines@[i]@ == ls[i],
        decreases end - k,
    {
        let line = &lines[k];
        let next = if c <= line.len() {
            slice_vec(line, c, line.len())
        } else {
            Vec::new()
        };
        proof {
            if c <= lines@[k as int]@.len() {
                assert(next@ == lines@[k as int]@.skip(c as int));
            }
        }
        lines.set(k, next);
        k += 1;
    }
    assert(lines_view(lines@) =~= seq![ls[0]] + body.map_values(|l: Seq<char>| drop_chars(l, c as nat)) + seq![ls.last()]);
}


/// Lines without the blank ones they start with.
pub open spec fn drop_leading_blank(b: Seq<Seq<char>>) -> Seq<Seq<char>>
    decreases b.len(),
{
    if b.len() > 0 && trim(b[0]).len() == 0 {
        drop_leading_blank(b.drop_first())
    } else {
        b
    }
}

/// Lines without the blank ones they end with.
pub open spec fn drop_trailing_blank(b: Seq<Seq<char>>) -> Seq<Seq<char>>
    decreases b.len(),
{
    if b.len() > 0 && trim(b.last()).len() == 0 {
        drop_trailing_blank(b.drop_last())
    } else {
        b
    }
}

/// A `<pre>{@code …}</pre>` region in the shape the Javadoc lexer gives it: when the first line
/// ends its last `<pre>` with nothing but `{@code`, and the last line holds a `</pre>`, the
/// opening `{@code` is written against the `<pre>`, the snippet loses the blank lines around
/// it, a `}` ending the snippet moves onto the `</pre>` line, and the snippet is dedented.
pub open spec fn normalize_pre_spec(lines: Seq<Seq<char>>) -> Seq<Seq<char>> {
    if lines.len() == 0 {
        lines
    } else {
        let first = lines[0];
        match rfind(lower(first), "<pre>"@) {
            None => lines,
            Some(at) => {
                let open = at + "<pre>"@.len();
                if trim(first.skip(open)) != "{@code"@ {
                    lines
                } else {
                    let head = first.take(open) + "{@code"@;
                    let last = lines.last();
                    match find_from(lower(last), "</pre>"@, 0) {
                        None => lines,
                        Some(close_at) => {
                            let tail0 = last.skip(close_at);
                            let mid = if lines.len() >= 2 {
                                lines.subrange(1, lines.len() - 1)
                            } else {
                                Seq::empty()
                            };
                            let before = trim_end(last.take(close_at));
                            let body0 = if before.len() > 0 {
                                mid.push(before)
                            } else {
                                mid
                            };
                            let body1 = drop_trailing_blank(drop_leading_blank(body0));
                            let closes = body1.len() > 0 && body1.last().len() > 0 && body1.last().last() == '}';
                            let end = body1.last().drop_last();
                            let body = if !closes {
                                body1
                            } else if trim(end).len() == 0 {
                                body1.drop_last()
                            } else {
                                body1.update(body1.len() - 1, end)
                            };
                            let tail = if closes {
                                seq!['}'] + tail0
                            } else {
                                tail0
                            };
                            dedent_spec(seq![head] + body + seq![tail])
                        },
                    }
                }
            },
        }
    }
}

/// Remove the blank lines `body` starts with.
pub fn drop_leading_blanks(body: &mut Vec<Vec<char>>)
    ensures
        lines_view(final(body)@) == drop_leading_blank(lines_view(old(body)@)),
{
    while body.len() > 0 && trimmed(&body[0]).len() == 0
        invariant
            drop_leading_blank(lines_view(body@)) == drop_leading_blank(lines_view(old(body)@)),
        decreases body@.len(),
    {
        let ghost b0 = lines_view(body@);
        assert(b0[0] == body@[0]@);
        body.remove(0);
        assert(lines_view(body@) =~= b0.drop_first());
    }
    proof {
        let b = lines_view(body@);
        if b.len() > 0 {
            assert(b[0] == body@[0]@);
        }
    }
}

/// Remove the blank lines `body` ends with.
pub fn drop_trailing_blanks(body: &mut Vec<Vec<char>>)
    ensures
        lines_view(final(body)@) == drop_trailing_blank(lines_view(old(body)@)),
{
    while body.len() > 0 && trimmed(&body[body.len() - 1]).len() == 0
        invariant
            drop_trailing_blank(lines_view(body@)) == drop_trailing_blank(lines_view(old(body)@)),
        decreases body@.len(),
    {
        let ghost b0 = lines_view(body@);
        assert(b0.last() == body@[body@.len() - 1]@);
        body.pop();
        assert(lines_view(body@) =~= b0.drop_last());
    }
    proof {
        let b = lines_view(body@);
        if b.len() > 0 {
            assert(b.last() == body@[body@.len() - 1]@);
        }
    }
}

/// Rewrite a `<pre>{@code …}</pre>` region into the shape the Javadoc lexer gives it.
#[verifier::rlimit(80)]
pub fn normalize_pre_code_block(lines: &mut Vec<Vec<char>>)
    ensures
        lines_view(final(lines)@) == normalize_pre_spec(lines_view(old(lines)@)),
{
    let ghost ls = lines_view(lines@);
    if lines.len() == 0 {
        return;
    }
    assert(ls[0] == lines@[0]@);
    let n = lines.len();
    assert(ls.last() == lines@[n - 1]@);
    let lower_first = ascii_lower(&lines[0]);
    let pre = chars_of("<pre>");
    let at = match rfind_seq(&lower_first, &pre) {
        Some(a) => a,
        None => return,
    };
    let first_len = lines[0].len();
    assert(at + pre.len() <= first_len);
    let open = at + pre.len();
    let after = slice_vec(&lines[0], open, first_len);
    assert(after@ == ls[0].skip(open as int));
    if !seq_eq(&trimmed(&after), &chars_of("{@code")) {
        return;
    }
    let mut head = slice_vec(&lines[0], 0, open);
    push_all(&mut head, &chars_of("{@code"));
    assert(head@ == ls[0].take(open as int) + "{@code"@);
    let lower_last = ascii_lower(&lines[n - 1]);
    let close_at = match find_seq_from(&lower_last, &chars_of("</pre>"), 0) {
        Some(c) => c,
        None => return,
    };
    proof {
        lemma_find_from_props(lower_last@, "</pre>"@, 0);
    }
    let last_len = lines[n - 1].len();
    assert(close_at <= last_len);
    let tail0 = slice_vec(&lines[n - 1], close_at, last_len);
    assert(tail0@ == ls.last().skip(close_at as int));
    let ghost mid = if ls.len() >= 2 {
        ls.subrange(1, ls.len() - 1)
    } else {
        Seq::<Seq<char>>::empty()
    };
    let mut body: Vec<Vec<char>> = Vec::new();
    let stop = n - 1;
    let mut k: usize = 1;
    while k < stop
        invariant
            n == lines@.len(),
            stop == n - 1,
            ls == lines_view(lines@),
            1 <= k,
            k <= stop || n == 1,
            n == 1 ==> k == 1,
            lines_view(body@) == ls.subrange(1, k as int),
        decreases n - k,
    {
        proof {
            assert(ls[k as int] == lines@[k as int]@);
        }
        let ghost b0 = lines_view(body@);
        body.push(slice_vec(&lines[k], 0, lines[k].len()));
        proof {
            assert(lines@[k as int]@.subrange(0, lines@[k as int]@.len() as int) == lines@[k as int]@);
            assert(lines_view(body@) =~= b0.push(ls[k as int]));
            assert(lines_view(body@) =~= ls.subrange(1, k + 1));
        }
        k += 1;
    }
    proof {
        if n >= 2 {
            assert(k == n - 1);
        } else {
            assert(k == 1);
            assert(ls.subrange(1, 1) =~= Seq::<Seq<char>>::empty());
        }
    }
    assert(lines_view(body@) =~= mid);
    let head_of_last = slice_vec(&lines[n - 1], 0, close_at);
    assert(head_of_last@ == ls.last().take(close_at as int));
    let before = trimmed_end(&head_of_last);
    if before.len() > 0 {
        body.push(before);
    }
    assert(lines_view(body@) =~= if trim_end(ls.last().take(close_at as int)).len() > 0 {
        mid.push(trim_end(ls.last().take(close_at as int)))
    } else {
        mid
    });
    drop_leading_blanks(&mut body);
    drop_trailing_blanks(&mut body);
    let ghost body1 = lines_view(body@);
    let mut tail = tail0;
    let bl = body.len();
    let closes = bl > 0 && body[bl - 1].len() > 0 && body[bl - 1][body[bl - 1].len() - 1] == '}';
    proof {
        if bl > 0 {
            assert(body1.last() == body@[bl - 1]@);
        }
    }
    if closes {
        let mut end: Vec<char> = Vec::new();
        body.set_and_swap(bl - 1, &mut end);
        end.pop();
        let mut t: Vec<char> = Vec::new();
        t.push('}');
        push_all(&mut t, &tail);
        tail = t;
        if trimmed(&end).len() == 0 {
            body.pop();
            assert(lines_view(body@) =~= body1.drop_last());
        } else {
            body.set(bl - 1, end);
            assert(lines_view(body@) =~= body1.update(body1.len() - 1, body1.last().drop_last()));
        }
    }
    let mut out: Vec<Vec<char>> = Vec::new();
    out.push(head);
    let ghost b2 = lines_view(body@);
    out.append(&mut body);
    out.push(tail);
    assert(lines_view(out@) =~= seq![ls[0].take(open as int) + "{@code"@] + b2 + seq![tail@]);
    dedent_code_region(&mut out);
    *lines = out;
}

} // verus!
