//! Comment prose as tokens: the HTML tags google-java-format's Javadoc lexer knows are tokens of
//! their own, the rest of a whitespace-delimited run is one token, and each token remembers
//! whether whitespace preceded it.

use vstd::prelude::*;

use crate::ir::{lemma_utf16_width_bound, utf16_width, Width};
use crate::javadoc::ascii_lower;
use crate::javadoc::lines::{begins, begins_any, begins_any_spec, has_lit};
use crate::strs::{
    char_is_ws, chars_of, contains, ends_with, find_char, find_char_from, has_suffix, is_ws,
    lemma_find_char_props, lower, push_all, seq_eq, slice_vec, starts_with, trim, trim_start,
    trimmed, trimmed_start,
};

verus! {

/// One token of comment prose, and whether whitespace preceded it.
#[derive(Debug, Clone)]
pub struct Word {
    /// The token text.
    pub text: Vec<char>,
    /// Whether a space separates it from the token before it.
    pub space: bool,
}

impl View for Word {
    type V = (Seq<char>, bool);

    open spec fn view(&self) -> (Seq<char>, bool) {
        (self.text@, self.space)
    }
}

/// The tokens' contents.
pub open spec fn words_view(v: Seq<Word>) -> Seq<(Seq<char>, bool)> {
    v.map_values(|w: Word| w@)
}

/// `s` without the run of `c` it starts with (`str::trim_start_matches`).
pub open spec fn strip_leading(s: Seq<char>, c: char) -> Seq<char>
    decreases s.len(),
{
    if s.len() > 0 && s[0] == c {
        strip_leading(s.drop_first(), c)
    } else {
        s
    }
}

/// `s` without the run of `c` it ends with (`str::trim_end_matches`).
pub open spec fn strip_trailing(s: Seq<char>, c: char) -> Seq<char>
    decreases s.len(),
{
    if s.len() > 0 && s.last() == c {
        strip_trailing(s.drop_last(), c)
    } else {
        s
    }
}

/// Whether a character ends a tag's name.
pub open spec fn ends_name(c: char) -> bool {
    is_ws(c) || c == '/' || c == '>'
}

/// The leading run of `s` up to the first character that ends a tag's name.
pub open spec fn tag_name(s: Seq<char>) -> Seq<char>
    decreases s.len(),
{
    if s.len() == 0 || ends_name(s[0]) {
        Seq::empty()
    } else {
        seq![s[0]] + tag_name(s.drop_first())
    }
}

/// The tag names the lexer knows besides the headings.
pub open spec fn known_tags() -> Seq<&'static str> {
    seq!["pre", "code", "table", "ul", "ol", "dl", "li", "dt", "dd", "p", "blockquote", "br", "a"]
}

/// Whether `lit` is `s`, ignoring ASCII case.
pub open spec fn is_any_of(s: Seq<char>, tags: Seq<&str>) -> bool {
    exists|i: int| 0 <= i < tags.len() && lower(s) == tags[i]@
}

/// Whether a tag's inside — without its `<` and `>` — is a tag the Javadoc lexer makes a token
/// of: its name (after any `/` and surrounding whitespace) is a heading `h1` to `h6`, or one
/// of [`known_tags`], in any case.
pub open spec fn is_known_tag_spec(inner: Seq<char>) -> bool {
    let name = tag_name(trim_start(strip_leading(trim(inner), '/')));
    ||| (name.len() == 2 && (name[0] == 'h' || name[0] == 'H') && '1' <= name[1] && name[1] <= '6')
    ||| is_any_of(name, known_tags())
}

/// [`strip_leading`], as a new vector.
pub fn stripped_leading(s: &[char], c: char) -> (r: Vec<char>)
    ensures
        r@ == strip_leading(s@, c),
{
    let mut i: usize = 0;
    assert(s@.skip(0) == s@);
    while i < s.len() && s[i] == c
        invariant
            i <= s@.len(),
            strip_leading(s@.skip(i as int), c) == strip_leading(s@, c),
        decreases s@.len() - i,
    {
        assert(s@.skip(i as int).drop_first() == s@.skip(i + 1));
        i += 1;
    }
    assert(s@.subrange(i as int, s@.len() as int) == s@.skip(i as int));
    slice_vec(s, i, s.len())
}

/// [`strip_trailing`], as a new vector.
pub fn stripped_trailing(s: &[char], c: char) -> (r: Vec<char>)
    ensures
        r@ == strip_trailing(s@, c),
{
    let mut j: usize = s.len();
    assert(s@.take(s@.len() as int) == s@);
    while j > 0 && s[j - 1] == c
        invariant
            j <= s@.len(),
            strip_trailing(s@.take(j as int), c) == strip_trailing(s@, c),
        decreases j,
    {
        assert(s@.take(j as int).drop_last() == s@.take(j - 1));
        j -= 1;
    }
    slice_vec(s, 0, j)
}

/// [`tag_name`] of `s`.
fn name_of(s: &[char]) -> (r: Vec<char>)
    ensures
        r@ == tag_name(s@),
{
    let mut j: usize = 0;
    assert(s@.skip(0) == s@);
    assert(s@.take(0) + tag_name(s@) =~= tag_name(s@));
    while j < s.len() && !(char_is_ws(s[j]) || s[j] == '/' || s[j] == '>')
        invariant
            j <= s@.len(),
            tag_name(s@) == s@.take(j as int) + tag_name(s@.skip(j as int)),
        decreases s@.len() - j,
    {
        assert(s@.skip(j as int).drop_first() == s@.skip(j + 1));
        assert(s@.take(j + 1) == s@.take(j as int) + seq![s@[j as int]]);
        j += 1;
    }
    assert(tag_name(s@.skip(j as int)) == Seq::<char>::empty());
    assert(s@.take(j as int) + Seq::<char>::empty() =~= s@.take(j as int));
    slice_vec(s, 0, j)
}

/// Whether `s`, lower-cased, is one of `tags`.
fn lower_is_any(s: &[char], tags: &[&str]) -> (r: bool)
    ensures
        r == is_any_of(s@, tags@),
{
    let l = ascii_lower(s);
    let mut i: usize = 0;
    while i < tags.len()
        invariant
            l@ == lower(s@),
            i <= tags@.len(),
            forall|j: int| 0 <= j < i ==> lower(s@) != #[trigger] tags@[j]@,
        decreases tags@.len() - i,
    {
        if seq_eq(&l, &chars_of(tags[i])) {
            return true;
        }
        i += 1;
    }
    false
}

/// Whether `inner` is a tag the Javadoc lexer lexes.
pub fn is_known_tag(inner: &[char]) -> (r: bool)
    ensures
        r == is_known_tag_spec(inner@),
{
    let tags: [&str; 13] = [
        "pre",
        "code",
        "table",
        "ul",
        "ol",
        "dl",
        "li",
        "dt",
        "dd",
        "p",
        "blockquote",
        "br",
        "a",
    ];
    assert(tags@ =~= known_tags());
    let name = name_of(&trimmed_start(&stripped_leading(&trimmed(inner), '/')));
    if name.len() == 2 && (name[0] == 'h' || name[0] == 'H') && '1' <= name[1] && name[1] <= '6' {
        return true;
    }
    lower_is_any(&name, &tags)
}

/// A tag's inside: its leading `<` and trailing `>` and `/` runs removed, then trimmed.
pub open spec fn tag_inside(tag: Seq<char>) -> Seq<char> {
    trim(strip_trailing(strip_trailing(strip_leading(tag, '<'), '>'), '/'))
}

/// `<BR/>` and `<P />` in their canonical spelling, `<br>` and `<p>`; every other tag as
/// written.
pub open spec fn standardize_tag_spec(tag: Seq<char>) -> Seq<char> {
    let inner = lower(tag_inside(tag));
    if inner == "br"@ || inner == "p"@ {
        seq!['<'] + inner + seq!['>']
    } else {
        tag
    }
}

/// `<BR/>` and `<P />` in their canonical spelling.
pub fn standardize_tag(tag: &[char]) -> (r: Vec<char>)
    ensures
        r@ == standardize_tag_spec(tag@),
{
    let inner = ascii_lower(
        &trimmed(&stripped_trailing(&stripped_trailing(&stripped_leading(tag, '<'), '>'), '/')),
    );
    if seq_eq(&inner, &chars_of("br")) || seq_eq(&inner, &chars_of("p")) {
        let mut out: Vec<char> = Vec::new();
        out.push('<');
        push_all(&mut out, &inner);
        out.push('>');
        assert(out@ =~= seq!['<'] + inner@ + seq!['>']);
        return out;
    }
    slice_vec(tag, 0, tag.len())
}

/// Whether a token is a `<br>`, which ends its line.
pub open spec fn is_break_tag_spec(text: Seq<char>) -> bool {
    lower(text) == "<br>"@
}

/// Whether a token is a `<br>`.
pub fn is_break_tag(text: &[char]) -> (r: bool)
    ensures
        r == is_break_tag_spec(text@),
{
    seq_eq(&ascii_lower(text), &chars_of("<br>"))
}

/// The tags the token after which hugs it: a list item's, and a link's.
pub open spec fn item_tags() -> Seq<&'static str> {
    seq!["<li", "<dt", "<dd", "<a "]
}

/// Whether the token after this one hugs it: a complete tag (it ends with `>`) that carries an
/// `href=`, or opens a heading, a list item or a link.
pub open spec fn is_item_tag_spec(text: Seq<char>) -> bool {
    let l = lower(text);
    &&& ends_with(l, ">"@)
    &&& {
        ||| contains(l, "href="@)
        ||| (starts_with(l, "<h"@) && l.len() > 2 && '1' <= l[2] && l[2] <= '6')
        ||| begins_any_spec(l, item_tags())
    }
}

/// Whether the token after this one hugs it.
pub fn is_item_tag(text: &[char]) -> (r: bool)
    ensures
        r == is_item_tag_spec(text@),
{
    let items: [&str; 4] = ["<li", "<dt", "<dd", "<a "];
    assert(items@ =~= item_tags());
    let l = ascii_lower(text);
    if !has_suffix(&l, &chars_of(">")) {
        return false;
    }
    if has_lit(&l, "href=") {
        return true;
    }
    if begins(&l, "<h") {
        proof {
            reveal_strlit("<h");
        }
        if l.len() > 2 && '1' <= l[2] && l[2] <= '6' {
            return true;
        }
    }
    begins_any(&l, &items)
}


/// What is left of a run, as its last token: nothing when it is empty.
pub open spec fn last_token(rest: Seq<char>, space: bool) -> Seq<(Seq<char>, bool)> {
    if rest.len() > 0 {
        seq![(rest, space)]
    } else {
        Seq::empty()
    }
}

/// A run split at the tags the lexer knows: the text before each such tag is a token (carrying
/// the run's space, if it is the first), the tag is a token in its canonical spelling (carrying
/// the space only when nothing preceded it), whitespace after a tag that hugs its successor is
/// dropped, and the rest after the first `<` that does not open a known, closed tag is the last
/// token.
#[verifier::opaque]
pub open spec fn tokenize_rest(rest: Seq<char>, space: bool) -> Seq<(Seq<char>, bool)>
    decreases rest.len(),
{
    match find_char_from(rest, '<', 0) {
        None => last_token(rest, space),
        Some(at) => match find_char_from(rest, '>', at) {
            None => last_token(rest, space),
            Some(close) => {
                proof {
                    lemma_find_char_props(rest, '<', 0);
                    lemma_find_char_props(rest, '>', at);
                    crate::strs::lemma_trim_start_len(rest.skip(close + 1));
                }
                if !is_known_tag_spec(rest.subrange(at + 1, close)) {
                    last_token(rest, space)
                } else {
                    let pre = if at > 0 {
                        seq![(rest.take(at), space)]
                    } else {
                        Seq::empty()
                    };
                    let tag = standardize_tag_spec(rest.subrange(at, close + 1));
                    let next = if is_item_tag_spec(tag) {
                        trim_start(rest.skip(close + 1))
                    } else {
                        rest.skip(close + 1)
                    };
                    pre + seq![(tag, at == 0 && space)] + tokenize_rest(next, false)
                }
            },
        },
    }
}

/// A whitespace-delimited run split into tokens; an inline `{@…}` tag is one token whole.
pub open spec fn tokenize_spec(run: Seq<char>, space: bool) -> Seq<(Seq<char>, bool)> {
    if starts_with(run, "{@"@) {
        seq![(run, space)]
    } else {
        tokenize_rest(run, space)
    }
}

/// The end of a run.
pub proof fn lemma_tokenize_last(rest: Seq<char>, space: bool)
    requires
        match find_char_from(rest, '<', 0) {
            None => true,
            Some(at) => match find_char_from(rest, '>', at) {
                None => true,
                Some(close) => !is_known_tag_spec(rest.subrange(at + 1, close)),
            },
        },
    ensures
        tokenize_rest(rest, space) == last_token(rest, space),
{
    reveal(tokenize_rest);
}

/// A known tag split off a run.
pub proof fn lemma_tokenize_step(rest: Seq<char>, space: bool, at: int, close: int)
    requires
        find_char_from(rest, '<', 0) == Some(at),
        find_char_from(rest, '>', at) == Some(close),
        is_known_tag_spec(rest.subrange(at + 1, close)),
    ensures
        tokenize_rest(rest, space) == (if at > 0 {
            seq![(rest.take(at), space)]
        } else {
            Seq::empty()
        }) + seq![(standardize_tag_spec(rest.subrange(at, close + 1)), at == 0 && space)]
            + tokenize_rest(
            if is_item_tag_spec(standardize_tag_spec(rest.subrange(at, close + 1))) {
                trim_start(rest.skip(close + 1))
            } else {
                rest.skip(close + 1)
            },
            false,
        ),
{
    reveal(tokenize_rest);
}

/// Append the last token of a run, if anything is left.
fn push_last(out: &mut Vec<Word>, rest: &[char], space: bool)
    ensures
        words_view(final(out)@) == words_view(old(out)@) + last_token(rest@, space),
{
    if rest.len() > 0 {
        out.push(Word { text: slice_vec(rest, 0, rest.len()), space });
        assert(rest@.subrange(0, rest@.len() as int) == rest@);
        assert(words_view(out@) =~= words_view(old(out)@) + last_token(rest@, space));
    } else {
        assert(words_view(out@) =~= words_view(old(out)@) + last_token(rest@, space));
    }
}

/// Split a whitespace-delimited run into tokens at HTML tag boundaries, after `out`.
#[verifier::rlimit(40)]
pub fn tokenize(run: &[char], space: bool, out: &mut Vec<Word>)
    ensures
        words_view(final(out)@) == words_view(old(out)@) + tokenize_spec(run@, space),
{
    if begins(run, "{@") {
        out.push(Word { text: slice_vec(run, 0, run.len()), space });
        assert(run@.subrange(0, run@.len() as int) == run@);
        assert(words_view(out@) =~= words_view(old(out)@) + tokenize_spec(run@, space));
        return;
    }
    let ghost start = words_view(out@);
    let mut rest = slice_vec(run, 0, run.len());
    let mut sp = space;
    assert(run@.subrange(0, run@.len() as int) == run@);
    assert(start + tokenize_rest(rest@, sp) =~= start + tokenize_spec(run@, space));
    loop
        invariant_except_break
            words_view(out@) + tokenize_rest(rest@, sp) == start + tokenize_spec(run@, space),
        ensures
            words_view(out@) == start + tokenize_spec(run@, space),
        decreases rest@.len(),
    {
        let ghost before = words_view(out@);
        let at = match find_char(&rest, '<', 0) {
            Some(a) => a,
            None => {
                proof {
                    lemma_tokenize_last(rest@, sp);
                }
                push_last(out, &rest, sp);
                break;
            },
        };
        proof {
            lemma_find_char_props(rest@, '<', 0);
        }
        let close = match find_char(&rest, '>', at) {
            Some(c) => c,
            None => {
                proof {
                    lemma_tokenize_last(rest@, sp);
                }
                push_last(out, &rest, sp);
                break;
            },
        };
        proof {
            lemma_find_char_props(rest@, '>', at as int);
        }
        let n = rest.len();
        assert(close < n);
        if !is_known_tag(&slice_vec(&rest, at + 1, close)) {
            proof {
                lemma_tokenize_last(rest@, sp);
            }
            push_last(out, &rest, sp);
            break;
        }
        proof {
            lemma_tokenize_step(rest@, sp, at as int, close as int);
        }
        let first = at == 0 && sp;
        if at > 0 {
            out.push(Word { text: slice_vec(&rest, 0, at), space: sp });
        }
        let tag = standardize_tag(&slice_vec(&rest, at, close + 1));
        let item = is_item_tag(&tag);
        out.push(Word { text: tag, space: first });
        let after = slice_vec(&rest, close + 1, rest.len());
        assert(after@ == rest@.skip(close + 1));
        let next = if item {
            trimmed_start(&after)
        } else {
            after
        };
        proof {
            crate::strs::lemma_trim_start_len(after@);
            if at > 0 {
                assert(words_view(out@) =~= before + seq![(rest@.take(at as int), sp)] + seq![(
                    standardize_tag_spec(rest@.subrange(at as int, close + 1)),
                    first,
                )]);
            } else {
                assert(words_view(out@) =~= before + seq![(
                    standardize_tag_spec(rest@.subrange(at as int, close + 1)),
                    first,
                )]);
            }
        }
        rest = next;
        sp = false;
    }
}


/// Refilling with a budget for the first line and another for the rest, as far as the word
/// `w`: when the line so far is not empty, the word starts a new line if it would take the line
/// past its budget (the space before it counted) and does not begin with `@`, and otherwise
/// joins the line after a space if one preceded it; a `<br>` always ends its line.
pub open spec fn fill_step(
    state: (Seq<Seq<char>>, Seq<char>),
    w: (Seq<char>, bool),
    first: int,
    rest: int,
) -> (Seq<Seq<char>>, Seq<char>) {
    let (lines, cur) = state;
    let budget = if lines.len() == 0 {
        first
    } else {
        rest
    };
    let gap: int = if w.1 {
        1
    } else {
        0
    };
    let (lines1, cur1) = if cur.len() > 0 {
        if utf16_width(cur) + gap + utf16_width(w.0) > budget && !(w.0.len() > 0 && w.0[0] == '@') {
            (lines.push(cur), Seq::<char>::empty())
        } else if w.1 {
            (lines, cur.push(' '))
        } else {
            (lines, cur)
        }
    } else {
        (lines, cur)
    };
    let cur2 = cur1 + w.0;
    if is_break_tag_spec(w.0) {
        (lines1.push(cur2), Seq::<char>::empty())
    } else {
        (lines1, cur2)
    }
}

/// The lines finished, and the line under way, after the first `k` words.
pub open spec fn fill_upto(ws: Seq<(Seq<char>, bool)>, k: int, first: int, rest: int) -> (Seq<Seq<char>>, Seq<char>)
    decreases k,
{
    if k <= 0 {
        (Seq::empty(), Seq::empty())
    } else {
        fill_step(fill_upto(ws, k - 1, first, rest), ws[k - 1], first, rest)
    }
}

/// Words refilled into lines, the first within `first` columns and the rest within `rest`, as
/// far as a word that fits nowhere allows.
pub open spec fn fill_two_spec(ws: Seq<(Seq<char>, bool)>, first: int, rest: int) -> Seq<Seq<char>> {
    let (lines, cur) = fill_upto(ws, ws.len() as int, first, rest);
    if cur.len() > 0 {
        lines.push(cur)
    } else {
        lines
    }
}

/// The characters of the first `k` words, each counted with a space before it.
pub open spec fn text_total(ws: Seq<(Seq<char>, bool)>, k: int) -> int
    decreases k,
{
    if k <= 0 {
        0
    } else {
        text_total(ws, k - 1) + ws[k - 1].0.len() + 1
    }
}

/// [`text_total`] grows with `k`.
proof fn lemma_text_total_mono(ws: Seq<(Seq<char>, bool)>, i: int, j: int)
    requires
        0 <= i <= j,
    ensures
        text_total(ws, i) <= text_total(ws, j),
    decreases j - i,
{
    if i < j {
        lemma_text_total_mono(ws, i, j - 1);
    }
}

/// [`text_total`] grows with `k`.
pub proof fn lemma_text_total_mono_pub(ws: Seq<(Seq<char>, bool)>, i: int, j: int)
    requires
        0 <= i <= j,
    ensures
        text_total(ws, i) <= text_total(ws, j),
{
    lemma_text_total_mono(ws, i, j);
}

/// The line under way never holds more than the words so far.
proof fn lemma_fill_cur_len(ws: Seq<(Seq<char>, bool)>, k: int, first: int, rest: int)
    requires
        0 <= k <= ws.len(),
    ensures
        fill_upto(ws, k, first, rest).1.len() <= text_total(ws, k),
    decreases k,
{
    if k > 0 {
        lemma_fill_cur_len(ws, k - 1, first, rest);
    }
}

/// No finished line, nor the line under way, holds more than the words so far.
proof fn lemma_fill_upto_lines_len(ws: Seq<(Seq<char>, bool)>, k: int, first: int, rest: int)
    requires
        0 <= k <= ws.len(),
    ensures
        fill_upto(ws, k, first, rest).1.len() <= text_total(ws, k),
        forall|i: int|
            0 <= i < fill_upto(ws, k, first, rest).0.len() ==> (#[trigger] fill_upto(ws, k, first, rest).0[i]).len()
                <= text_total(ws, k),
    decreases k,
{
    lemma_fill_cur_len(ws, k, first, rest);
    if k > 0 {
        lemma_fill_upto_lines_len(ws, k - 1, first, rest);
        lemma_fill_cur_len(ws, k - 1, first, rest);
        let prev = fill_upto(ws, k - 1, first, rest);
        let now = fill_upto(ws, k, first, rest);
        assert forall|i: int| 0 <= i < now.0.len() implies (#[trigger] now.0[i]).len() <= text_total(ws, k) by {
            if i < prev.0.len() {
                assert(now.0[i] == prev.0[i]);
            }
        }
    }
}

/// No line of refilled words holds more than the words.
pub proof fn lemma_fill_lines_len(ws: Seq<(Seq<char>, bool)>, first: int, rest: int)
    ensures
        forall|i: int|
            0 <= i < fill_two_spec(ws, first, rest).len() ==> (#[trigger] fill_two_spec(ws, first, rest)[i]).len()
                <= text_total(ws, ws.len() as int),
{
    lemma_fill_upto_lines_len(ws, ws.len() as int, first, rest);
}

/// Refilling words that are neither empty nor a `<br>`: no line after the first starts with
/// `@`, and once a line is finished the line under way does not either.
proof fn lemma_fill_at_upto(ws: Seq<(Seq<char>, bool)>, k: int, first: int, rest: int)
    requires
        0 <= k <= ws.len(),
        forall|i: int| 0 <= i < ws.len() ==> (#[trigger] ws[i]).0.len() > 0 && !is_break_tag_spec(ws[i].0),
    ensures
        forall|j: int|
            1 <= j < fill_upto(ws, k, first, rest).0.len() ==> (#[trigger] fill_upto(ws, k, first, rest).0[j]).len() > 0
                && fill_upto(ws, k, first, rest).0[j][0] != '@',
        fill_upto(ws, k, first, rest).0.len() > 0 ==> fill_upto(ws, k, first, rest).1.len() > 0
            && fill_upto(ws, k, first, rest).1[0] != '@',
    decreases k,
{
    if k > 0 {
        lemma_fill_at_upto(ws, k - 1, first, rest);
        let (lines, cur) = fill_upto(ws, k - 1, first, rest);
        let w = ws[k - 1];
        let now = fill_upto(ws, k, first, rest);
        assert(now == fill_step((lines, cur), w, first, rest));
        assert(w.0.len() > 0 && !is_break_tag_spec(w.0));
        let budget = if lines.len() == 0 {
            first
        } else {
            rest
        };
        let gap: int = if w.1 {
            1
        } else {
            0
        };
        if cur.len() > 0 {
            if utf16_width(cur) + gap + utf16_width(w.0) > budget && !(w.0.len() > 0 && w.0[0] == '@') {
                assert(now.0 == lines.push(cur));
                assert(now.1 =~= w.0);
                assert forall|j: int| 1 <= j < now.0.len() implies (#[trigger] now.0[j]).len() > 0 && now.0[j][0] != '@' by {
                    if j < lines.len() {
                        assert(now.0[j] == lines[j]);
                    }
                }
            } else if w.1 {
                assert(now.0 == lines);
                assert(now.1 == cur.push(' ') + w.0);
                assert(now.1[0] == cur[0]);
            } else {
                assert(now.0 == lines);
                assert(now.1 == cur + w.0);
                assert(now.1[0] == cur[0]);
            }
        } else {
            assert(now.0 == lines);
            assert(now.1 =~= w.0);
        }
    }
}

/// Among words that are neither empty nor a `<br>`, a word beginning with `@` never starts a
/// refilled line after the first: at the start of a line it would read as a block tag.
pub proof fn law_an_at_word_never_starts_a_later_line(ws: Seq<(Seq<char>, bool)>, first: int, rest: int)
    requires
        forall|i: int| 0 <= i < ws.len() ==> (#[trigger] ws[i]).0.len() > 0 && !is_break_tag_spec(ws[i].0),
    ensures
        forall|j: int|
            1 <= j < fill_two_spec(ws, first, rest).len() ==> (#[trigger] fill_two_spec(ws, first, rest)[j]).len() > 0
                && fill_two_spec(ws, first, rest)[j][0] != '@',
{
    lemma_fill_at_upto(ws, ws.len() as int, first, rest);
    let (lines, cur) = fill_upto(ws, ws.len() as int, first, rest);
    let out = fill_two_spec(ws, first, rest);
    assert forall|j: int| 1 <= j < out.len() implies (#[trigger] out[j]).len() > 0 && out[j][0] != '@' by {
        if j < lines.len() {
            assert(out[j] == lines[j]);
        } else {
            assert(out[j] == cur);
        }
    }
}

/// The characters of `s` other than spaces.
pub open spec fn unspaced(s: Seq<char>) -> Seq<char> {
    s.filter(|c: char| c != ' ')
}

/// Lines run together.
pub open spec fn flat(lines: Seq<Seq<char>>) -> Seq<char>
    decreases lines.len(),
{
    if lines.len() == 0 {
        Seq::empty()
    } else {
        flat(lines.drop_last()) + lines.last()
    }
}

/// The texts of the first `k` words run together.
pub open spec fn word_chars(ws: Seq<(Seq<char>, bool)>, k: int) -> Seq<char>
    decreases k,
{
    if k <= 0 {
        Seq::empty()
    } else {
        word_chars(ws, k - 1) + ws[k - 1].0
    }
}

/// Dropping spaces from two runs of text drops them from each.
proof fn lemma_unspaced_add(a: Seq<char>, b: Seq<char>)
    ensures
        unspaced(a + b) == unspaced(a) + unspaced(b),
{
    Seq::filter_distributes_over_add(a, b, |c: char| c != ' ');
}

/// A finished line joins the lines run together at their end.
proof fn lemma_flat_push(lines: Seq<Seq<char>>, x: Seq<char>)
    ensures
        flat(lines.push(x)) == flat(lines) + x,
{
    assert(lines.push(x).drop_last() =~= lines);
}

/// One refilling step adds the word's text and nothing but spaces.
proof fn lemma_fill_step_chars(st: (Seq<Seq<char>>, Seq<char>), w: (Seq<char>, bool), first: int, rest: int)
    ensures
        unspaced(flat(fill_step(st, w, first, rest).0) + fill_step(st, w, first, rest).1) == unspaced(flat(st.0) + st.1)
            + unspaced(w.0),
{
    let (lines, cur) = st;
    let budget = if lines.len() == 0 {
        first
    } else {
        rest
    };
    let gap: int = if w.1 {
        1
    } else {
        0
    };
    let (lines1, cur1) = if cur.len() > 0 {
        if utf16_width(cur) + gap + utf16_width(w.0) > budget && !(w.0.len() > 0 && w.0[0] == '@') {
            (lines.push(cur), Seq::<char>::empty())
        } else if w.1 {
            (lines, cur.push(' '))
        } else {
            (lines, cur)
        }
    } else {
        (lines, cur)
    };
    let cur2 = cur1 + w.0;
    assert(unspaced(seq![' ']) =~= Seq::<char>::empty()) by {
        reveal_with_fuel(Seq::filter, 2);
    }
    assert(unspaced(Seq::<char>::empty()) =~= Seq::<char>::empty());
    lemma_flat_push(lines, cur);
    lemma_unspaced_add(flat(lines), cur);
    lemma_unspaced_add(flat(lines) + cur, seq![' ']);
    lemma_unspaced_add(flat(lines), Seq::<char>::empty());
    assert(flat(lines) + cur.push(' ') =~= (flat(lines) + cur) + seq![' ']);
    assert(flat(lines1) + cur1 =~= flat(lines) + cur || flat(lines1) + cur1 =~= (flat(lines) + cur) + seq![' ']);
    assert(unspaced(flat(lines1) + cur1) == unspaced(flat(lines) + cur));
    lemma_unspaced_add(flat(lines1) + cur1, w.0);
    assert(flat(lines1) + cur2 =~= (flat(lines1) + cur1) + w.0);
    lemma_flat_push(lines1, cur2);
    assert(flat(lines1.push(cur2)) + Seq::<char>::empty() =~= flat(lines1) + cur2);
}

/// Refilling the first `k` words keeps their text, spaces aside.
proof fn lemma_fill_upto_chars(ws: Seq<(Seq<char>, bool)>, k: int, first: int, rest: int)
    requires
        0 <= k <= ws.len(),
    ensures
        unspaced(flat(fill_upto(ws, k, first, rest).0) + fill_upto(ws, k, first, rest).1) == unspaced(word_chars(ws, k)),
    decreases k,
{
    if k == 0 {
        assert(flat(Seq::<Seq<char>>::empty()) + Seq::<char>::empty() =~= Seq::<char>::empty());
    } else {
        lemma_fill_upto_chars(ws, k - 1, first, rest);
        lemma_fill_step_chars(fill_upto(ws, k - 1, first, rest), ws[k - 1], first, rest);
        lemma_unspaced_add(word_chars(ws, k - 1), ws[k - 1].0);
    }
}

/// Refilling never drops, adds or changes a character of the words: the lines hold the words'
/// text in order, and differ from it in spaces alone.
pub proof fn law_refilling_keeps_every_character(ws: Seq<(Seq<char>, bool)>, first: int, rest: int)
    ensures
        unspaced(flat(fill_two_spec(ws, first, rest))) == unspaced(word_chars(ws, ws.len() as int)),
{
    lemma_fill_upto_chars(ws, ws.len() as int, first, rest);
    let (lines, cur) = fill_upto(ws, ws.len() as int, first, rest);
    if cur.len() > 0 {
        lemma_flat_push(lines, cur);
    } else {
        assert(flat(lines) + cur =~= flat(lines));
    }
}

/// The lines, as character sequences.
pub open spec fn lines_view(v: Seq<Vec<char>>) -> Seq<Seq<char>> {
    v.map_values(|x: Vec<char>| x@)
}

/// Refill with a different budget for the first line than for the rest. A word beginning with
/// `@` never starts a line, so refilled prose never turns into a block tag.
#[verifier::rlimit(60)]
pub fn fill_two(words: &[Word], first: usize, rest: usize) -> (r: Vec<Vec<char>>)
    requires
        2 * text_total(words_view(words@), words@.len() as int) + 4 <= usize::MAX,
    ensures
        lines_view(r@) == fill_two_spec(words_view(words@), first as int, rest as int),
{
    let ghost ws = words_view(words@);
    let mut lines: Vec<Vec<char>> = Vec::new();
    let mut current: Vec<char> = Vec::new();
    let mut i: usize = 0;
    while i < words.len()
        invariant
            ws == words_view(words@),
            i <= words@.len(),
            2 * text_total(ws, words@.len() as int) + 4 <= usize::MAX,
            (lines_view(lines@), current@) == fill_upto(ws, i as int, first as int, rest as int),
        decreases words@.len() - i,
    {
        let ghost st = (lines_view(lines@), current@);
        proof {
            lemma_fill_cur_len(ws, i as int, first as int, rest as int);
            lemma_text_total_mono(ws, i + 1, words@.len() as int);
            lemma_utf16_width_bound(current@);
            lemma_utf16_width_bound(words@[i as int].text@);
            assert(ws[i as int] == words@[i as int]@);
        }
        let word = &words[i];
        let budget = if lines.len() == 0 {
            first
        } else {
            rest
        };
        let width = Width::utf16_chars(&word.text);
        if current.len() > 0 {
            let gap: usize = if word.space {
                1
            } else {
                0
            };
            let starts_tag = word.text.len() > 0 && word.text[0] == '@';
            if Width::utf16_chars(&current) + gap + width > budget && !starts_tag {
                lines.push(current);
                current = Vec::new();
                assert(lines_view(lines@) =~= st.0.push(st.1));
            } else if word.space {
                current.push(' ');
            }
        }
        push_all(&mut current, &word.text);
        if is_break_tag(&word.text) {
            let ghost mid = lines_view(lines@);
            lines.push(current);
            current = Vec::new();
            assert(lines_view(lines@) =~= mid.push(lines@.last()@));
        }
        i += 1;
    }
    if current.len() > 0 {
        let ghost mid = lines_view(lines@);
        lines.push(current);
        assert(lines_view(lines@) =~= mid.push(lines@.last()@));
    }
    lines
}


/// The length of the run of non-whitespace characters `s` starts with.
pub open spec fn run_len(s: Seq<char>) -> nat
    decreases s.len(),
{
    if s.len() == 0 || is_ws(s[0]) {
        0
    } else {
        1 + run_len(s.drop_first())
    }
}

/// The whitespace-delimited runs of `s`, in order (`str::split_whitespace`).
#[verifier::opaque]
pub open spec fn ws_runs(s: Seq<char>) -> Seq<Seq<char>>
    decreases s.len(),
{
    let t = trim_start(s);
    if t.len() == 0 {
        Seq::empty()
    } else {
        proof {
            crate::strs::lemma_trim_start_len(s);
            crate::strs::lemma_trim_start_no_ws(s);
            lemma_run_len(t);
        }
        seq![t.take(run_len(t) as int)] + ws_runs(t.skip(run_len(t) as int))
    }
}

/// A run is as long as its characters before the first whitespace, and no longer than `s`.
pub proof fn lemma_run_len(s: Seq<char>)
    ensures
        run_len(s) <= s.len(),
        forall|i: int| 0 <= i < run_len(s) ==> !is_ws(#[trigger] s[i]),
        run_len(s) < s.len() ==> is_ws(s[run_len(s) as int]),
        s.len() > 0 && !is_ws(s[0]) ==> run_len(s) > 0,
    decreases s.len(),
{
    if s.len() > 0 && !is_ws(s[0]) {
        lemma_run_len(s.drop_first());
        assert forall|i: int| 0 <= i < run_len(s) implies !is_ws(#[trigger] s[i]) by {
            if i > 0 {
                assert(s[i] == s.drop_first()[i - 1]);
            }
        }
    }
}

/// One run split off the front of `s`.
pub proof fn lemma_ws_runs_step(s: Seq<char>)
    ensures
        ws_runs(s) == if trim_start(s).len() == 0 {
            Seq::empty()
        } else {
            seq![trim_start(s).take(run_len(trim_start(s)) as int)] + ws_runs(
                trim_start(s).skip(run_len(trim_start(s)) as int),
            )
        },
{
    reveal(ws_runs);
}

/// The whitespace-delimited runs of `s`.
pub fn runs_of(s: &[char]) -> (r: Vec<Vec<char>>)
    ensures
        lines_view(r@) == ws_runs(s@),
{
    let mut runs: Vec<Vec<char>> = Vec::new();
    let mut rest = slice_vec(s, 0, s.len());
    assert(s@.subrange(0, s@.len() as int) == s@);
    assert(lines_view(runs@) + ws_runs(rest@) =~= ws_runs(s@));
    loop
        invariant_except_break
            lines_view(runs@) + ws_runs(rest@) == ws_runs(s@),
        ensures
            lines_view(runs@) == ws_runs(s@),
        decreases rest@.len(),
    {
        proof {
            lemma_ws_runs_step(rest@);
            crate::strs::lemma_trim_start_len(rest@);
            crate::strs::lemma_trim_start_no_ws(rest@);
        }
        let t = trimmed_start(&rest);
        if t.len() == 0 {
            assert(lines_view(runs@) + Seq::<Seq<char>>::empty() =~= lines_view(runs@));
            break;
        }
        proof {
            lemma_run_len(t@);
        }
        let mut k: usize = 0;
        while k < t.len() && !char_is_ws(t[k])
            invariant
                k <= t@.len(),
                k <= run_len(t@),
                forall|i: int| 0 <= i < run_len(t@) ==> !is_ws(#[trigger] t@[i]),
                run_len(t@) < t@.len() ==> is_ws(t@[run_len(t@) as int]),
            decreases t@.len() - k,
        {
            k += 1;
        }
        assert(k == run_len(t@));
        let ghost before = lines_view(runs@);
        runs.push(slice_vec(&t, 0, k));
        assert(lines_view(runs@) =~= before.push(t@.take(k as int)));
        let next = slice_vec(&t, k, t.len());
        assert(next@ == t@.skip(k as int));
        assert(lines_view(runs@) + ws_runs(next@) =~= before + (seq![t@.take(k as int)] + ws_runs(next@)));
        rest = next;
    }
    runs
}

/// Tokens after `acc` for each run in turn: a run is spaced from what precedes it unless that
/// is a tag that hugs its successor.
pub open spec fn tokens_fold(acc: Seq<(Seq<char>, bool)>, runs: Seq<Seq<char>>) -> Seq<(Seq<char>, bool)>
    decreases runs.len(),
{
    if runs.len() == 0 {
        acc
    } else {
        let space = !(acc.len() > 0 && is_item_tag_spec(acc.last().0));
        tokens_fold(acc + tokenize_spec(runs[0], space), runs.drop_first())
    }
}

/// Every whitespace-delimited run of `line`, tokenized, after `out`.
pub fn tokens_of(line: &[char], out: &mut Vec<Word>)
    ensures
        words_view(final(out)@) == tokens_fold(words_view(old(out)@), ws_runs(line@)),
{
    let runs = runs_of(line);
    let ghost all = lines_view(runs@);
    let ghost start = words_view(out@);
    let mut i: usize = 0;
    assert(all.skip(0) == all);
    while i < runs.len()
        invariant
            all == lines_view(runs@),
            i <= runs@.len(),
            tokens_fold(words_view(out@), all.skip(i as int)) == tokens_fold(start, all),
        decreases runs@.len() - i,
    {
        let space = !(out.len() > 0 && is_item_tag(&out[out.len() - 1].text));
        proof {
            assert(all.skip(i as int)[0] == runs@[i as int]@);
            assert(all.skip(i as int).drop_first() == all.skip(i + 1));
            if out@.len() > 0 {
                assert(words_view(out@).last() == out@[out@.len() - 1]@);
            }
        }
        tokenize(&runs[i], space, out);
        i += 1;
    }
    assert(all.skip(runs@.len() as int) == Seq::<Seq<char>>::empty());
}

} // verus!
