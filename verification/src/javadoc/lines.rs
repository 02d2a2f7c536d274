//! What one line of a comment body is: whether it opens or closes a region that is kept as
//! written, how deep in an HTML list it sits, and where a tag that wants a line of its own
//! splits it.

use vstd::prelude::*;

use crate::javadoc::{ascii_lower, html_tag, html_tag_spec};
use crate::strs::{
    chars_of, contains, contains_seq, ends_with, find_from, find_seq_from, has_char, has_prefix,
    has_suffix, is_at, lemma_find_from_props, lower, occurs_at, skip_ws, slice_vec, starts_with,
    trim, trim_end, trim_start, trimmed, trimmed_end, trimmed_start, rfind, rfind_seq, find_char,
    find_char_from, lemma_find_char_props, push_all, push_range,
};

verus! {

/// Whether `lit` occurs anywhere in `s`.
pub fn has_lit(s: &[char], lit: &str) -> (r: bool)
    ensures
        r == contains(s@, lit@),
{
    contains_seq(s, &chars_of(lit))
}

/// Whether `s` begins with `lit`.
pub fn begins(s: &[char], lit: &str) -> (r: bool)
    ensures
        r == starts_with(s@, lit@),
{
    has_prefix(s, &chars_of(lit))
}

/// Whether `s` begins with one of `tags`.
pub open spec fn begins_any_spec(s: Seq<char>, tags: Seq<&str>) -> bool {
    exists|i: int| 0 <= i < tags.len() && starts_with(s, tags[i]@)
}

/// Whether `s` begins with one of `tags`.
pub fn begins_any(s: &[char], tags: &[&str]) -> (r: bool)
    ensures
        r == begins_any_spec(s@, tags@),
{
    let mut i: usize = 0;
    while i < tags.len()
        invariant
            i <= tags@.len(),
            forall|j: int| 0 <= j < i ==> !starts_with(s@, #[trigger] tags@[j]@),
        decreases tags@.len() - i,
    {
        if begins(s, tags[i]) {
            return true;
        }
        i += 1;
    }
    false
}

/// Whether a line opens a region that is emitted as written: a Markdown fence, a `<pre>`, a
/// `<table>` when tables are kept whole, or a `{@snippet …` or `{@code …` that does not close
/// on the same line.
pub open spec fn opens_fence_spec(line: Seq<char>, tables: bool) -> bool {
    let l = lower(line);
    ||| starts_with(l, "```"@)
    ||| contains(l, "<pre>"@)
    ||| (tables && contains(l, "<table"@))
    ||| (contains(line, "{@snippet"@) && !line.contains('}'))
    ||| (starts_with(l, "{@code"@) && !l.contains('}'))
}

/// Whether a line opens a region that is emitted as written.
pub fn opens_fence(line: &[char], tables: bool) -> (r: bool)
    ensures
        r == opens_fence_spec(line@, tables),
{
    let l = ascii_lower(line);
    begins(&l, "```") || has_lit(&l, "<pre>") || (tables && has_lit(&l, "<table")) || (has_lit(
        line,
        "{@snippet",
    ) && !has_char(line, '}')) || (begins(&l, "{@code") && !has_char(&l, '}'))
}

/// Whether the region a line opens ends at the `}` balancing its `{` rather than at a closing
/// tag: a `{@snippet …}`, or a bare `{@code …}` at the start of the line.
pub open spec fn brace_fence_spec(line: Seq<char>) -> bool {
    contains(line, "{@snippet"@) || starts_with(lower(line), "{@code"@)
}

/// Whether the region a line opens ends at a balancing `}`.
pub fn brace_fence(line: &[char]) -> (r: bool)
    ensures
        r == brace_fence_spec(line@),
{
    has_lit(line, "{@snippet") || begins(&ascii_lower(line), "{@code")
}

/// Where the string literal whose text starts at `j` ends: just past its closing `"`, a `\\`
/// escaping the character after it; the end of `s` when it never closes.
pub open spec fn string_end(s: Seq<char>, j: int) -> int
    decreases s.len() - j,
{
    if j < 0 || j >= s.len() {
        s.len() as int
    } else if s[j] == '"' {
        j + 1
    } else if s[j] == '\\' {
        if j + 2 >= s.len() {
            s.len() as int
        } else {
            string_end(s, j + 2)
        }
    } else {
        string_end(s, j + 1)
    }
}

/// The length of the character literal at `i` — `'c'` (three characters) or `'\\c'` (four) —
/// or zero when none starts there. An apostrophe in prose opens none.
pub open spec fn char_literal_len(s: Seq<char>, i: int) -> int {
    if 0 <= i && i + 2 < s.len() && s[i] == '\'' && s[i + 1] != '\\' && s[i + 1] != '\'' && s[i + 2] == '\'' {
        3
    } else if 0 <= i && i + 3 < s.len() && s[i] == '\'' && s[i + 1] == '\\' && s[i + 3] == '\'' {
        4
    } else {
        0
    }
}

/// The net brace count of `s` from `i` on: each `{` outside a literal counts one, each `}` less
/// one, and a string or character literal counts nothing.
pub open spec fn brace_scan(s: Seq<char>, i: int) -> int
    decreases s.len() - i,
{
    if i < 0 || i >= s.len() {
        0
    } else if s[i] == '"' {
        proof {
            lemma_string_end_range(s, i + 1);
        }
        brace_scan(s, string_end(s, i + 1))
    } else if char_literal_len(s, i) > 0 {
        brace_scan(s, i + char_literal_len(s, i))
    } else {
        (if s[i] == '{' {
            1int
        } else if s[i] == '}' {
            -1int
        } else {
            0int
        }) + brace_scan(s, i + 1)
    }
}

/// A line's net brace count: the `{` less the `}`, ignoring the braces inside a string or a
/// character literal.
pub open spec fn brace_delta_spec(s: Seq<char>) -> int {
    brace_scan(s, 0)
}

/// A string literal ends after it starts, and no later than the line.
pub proof fn lemma_string_end_range(s: Seq<char>, j: int)
    requires
        0 <= j,
    ensures
        j < string_end(s, j) <= s.len() || (j >= s.len() && string_end(s, j) == s.len()),
    decreases s.len() - j,
{
    if j < s.len() && s[j] != '"' {
        if s[j] == '\\' {
            if j + 2 < s.len() {
                lemma_string_end_range(s, j + 2);
            }
        } else {
            lemma_string_end_range(s, j + 1);
        }
    }
}

/// A net brace count from `i` is bounded by what is left of the line.
pub proof fn lemma_brace_scan_bound(s: Seq<char>, i: int)
    requires
        0 <= i,
    ensures
        -(s.len() - i) <= brace_scan(s, i) <= s.len() - i || (i >= s.len() && brace_scan(s, i) == 0),
    decreases s.len() - i,
{
    if i < s.len() {
        if s[i] == '"' {
            lemma_string_end_range(s, i + 1);
            lemma_brace_scan_bound(s, string_end(s, i + 1));
        } else if char_literal_len(s, i) > 0 {
            lemma_brace_scan_bound(s, i + char_literal_len(s, i));
        } else {
            lemma_brace_scan_bound(s, i + 1);
        }
    }
}

/// The end of the string literal whose text starts at `j`.
fn string_end_at(line: &[char], j: usize) -> (r: usize)
    requires
        j <= line@.len(),
    ensures
        r == string_end(line@, j as int),
{
    let mut k = j;
    while k < line.len()
        invariant
            j <= k <= line@.len(),
            string_end(line@, k as int) == string_end(line@, j as int),
        decreases line@.len() - k,
    {
        if line[k] == '"' {
            return k + 1;
        } else if line[k] == '\\' {
            if line.len() - k <= 2 {
                return line.len();
            }
            k = k + 2;
        } else {
            k = k + 1;
        }
    }
    line.len()
}

/// The length of the character literal at `i`, or zero.
fn char_literal_at(line: &[char], i: usize) -> (r: usize)
    requires
        i < line@.len(),
    ensures
        r == char_literal_len(line@, i as int),
{
    let n = line.len();
    if n - i > 2 && line[i] == '\'' && line[i + 1] != '\\' && line[i + 1] != '\'' && line[i + 2] == '\'' {
        3
    } else if n - i > 3 && line[i] == '\'' && line[i + 1] == '\\' && line[i + 3] == '\'' {
        4
    } else {
        0
    }
}

/// A line's net brace count, ignoring the braces inside a string or a character literal.
pub fn brace_delta(line: &[char]) -> (r: i32)
    requires
        line@.len() <= i32::MAX,
    ensures
        r == brace_delta_spec(line@),
{
    let mut delta: i32 = 0;
    let mut i: usize = 0;
    while i < line.len()
        invariant
            i <= line@.len() <= i32::MAX,
            delta + brace_scan(line@, i as int) == brace_scan(line@, 0),
            -(i as int) <= delta <= i,
        decreases line@.len() - i,
    {
        if line[i] == '"' {
            let e = string_end_at(line, i + 1);
            proof {
                lemma_string_end_range(line@, i + 1);
            }
            i = e;
        } else {
            let l = char_literal_at(line, i);
            if l > 0 {
                i = i + l;
            } else {
                if line[i] == '{' {
                    delta += 1;
                } else if line[i] == '}' {
                    delta -= 1;
                }
                i += 1;
            }
        }
    }
    delta
}

/// Whether a line closes a region kept as written: a Markdown fence, a `</pre>`, or a
/// `</table>` when tables are kept whole.
pub open spec fn closes_fence_spec(line: Seq<char>, tables: bool) -> bool {
    let l = lower(line);
    ||| starts_with(l, "```"@)
    ||| contains(l, "</pre>"@)
    ||| (tables && contains(l, "</table>"@))
}

/// Whether a line closes a region kept as written.
pub fn closes_fence(line: &[char], tables: bool) -> (r: bool)
    ensures
        r == closes_fence_spec(line@, tables),
{
    let l = ascii_lower(line);
    begins(&l, "```") || has_lit(&l, "</pre>") || (tables && has_lit(&l, "</table>"))
}

/// Whether a line both opens and closes a region, so that it is kept as written on its own.
pub open spec fn self_closing_fence_spec(line: Seq<char>, tables: bool) -> bool {
    let l = lower(line);
    ||| (contains(l, "<pre>"@) && contains(l, "</pre>"@))
    ||| (tables && contains(l, "<table"@) && contains(l, "</table>"@))
    ||| (contains(l, "{@code"@) && l.contains('}'))
    ||| (contains(line, "{@snippet"@) && line.contains('}'))
}

/// Whether a line both opens and closes a region.
pub fn self_closing_fence(line: &[char], tables: bool) -> (r: bool)
    ensures
        r == self_closing_fence_spec(line@, tables),
{
    let l = ascii_lower(line);
    (has_lit(&l, "<pre>") && has_lit(&l, "</pre>")) || (tables && has_lit(&l, "<table") && has_lit(&l, "</table>"))
        || (has_lit(&l, "{@code") && has_char(&l, '}')) || (has_lit(line, "{@snippet") && has_char(
        line,
        '}',
    ))
}


/// Whether `rest` opens with the opening tag of an HTML list: `<ul`, `<ol` or `<dl`, ending at a
/// word boundary and closed by a `>`.
pub open spec fn list_open_at(rest: Seq<char>) -> bool {
    ||| html_tag_spec(rest, "ul"@, false) is Some
    ||| html_tag_spec(rest, "ol"@, false) is Some
    ||| html_tag_spec(rest, "dl"@, false) is Some
}

/// Whether `rest` opens with the closing tag of an HTML list.
pub open spec fn list_close_at(rest: Seq<char>) -> bool {
    ||| html_tag_spec(rest, "ul"@, true) is Some
    ||| html_tag_spec(rest, "ol"@, true) is Some
    ||| html_tag_spec(rest, "dl"@, true) is Some
}

/// The list tags opened and closed in `l` before `upto`, counting each `<` once: as an open if
/// it opens a list, else as a close if it closes one.
pub open spec fn list_tags(l: Seq<char>, upto: int) -> (int, int)
    decreases upto,
{
    if upto <= 0 {
        (0, 0)
    } else {
        let (o, c) = list_tags(l, upto - 1);
        let at = upto - 1;
        if at < l.len() && l[at] == '<' && list_open_at(l.skip(at)) {
            (o + 1, c)
        } else if at < l.len() && l[at] == '<' && list_close_at(l.skip(at)) {
            (o, c + 1)
        } else {
            (o, c)
        }
    }
}

/// The list nesting depth after a line that starts at `depth`: the opens counted on the whole
/// lower-cased line are added (saturating at the largest `usize`), then the closes taken away
/// (stopping at zero).
pub open spec fn list_depth_spec(depth: int, line: Seq<char>) -> int {
    let (o, c) = list_tags(lower(line), line.len() as int);
    let up = if depth + o > usize::MAX {
        usize::MAX as int
    } else {
        depth + o
    };
    if up - c < 0 {
        0
    } else {
        up - c
    }
}

/// Whether `l[at..]` opens with the tag `<name` (`</name` when closing).
fn tag_here(l: &[char], at: usize, closing: bool) -> (r: bool)
    requires
        at <= l@.len(),
    ensures
        r == if closing {
            list_close_at(l@.skip(at as int))
        } else {
            list_open_at(l@.skip(at as int))
        },
{
    html_tag(l, at, "ul", closing).is_some() || html_tag(l, at, "ol", closing).is_some() || html_tag(
        l,
        at,
        "dl",
        closing,
    ).is_some()
}

/// The list nesting depth after `line`.
pub fn list_depth(depth: usize, line: &[char]) -> (r: usize)
    ensures
        r == list_depth_spec(depth as int, line@),
{
    let l = ascii_lower(line);
    let mut opens: usize = 0;
    let mut closes: usize = 0;
    let mut i: usize = 0;
    while i < l.len()
        invariant
            l@ == lower(line@),
            i <= l@.len(),
            (opens as int, closes as int) == list_tags(l@, i as int),
            opens + closes <= i,
        decreases l@.len() - i,
    {
        if l[i] == '<' {
            if tag_here(&l, i, false) {
                opens += 1;
            } else if tag_here(&l, i, true) {
                closes += 1;
            }
        }
        i += 1;
    }
    depth.saturating_add(opens).saturating_sub(closes)
}

/// Columns a list indents its contents by.
pub const LIST_INDENT: usize = 2;

/// Columns a list item's continuation lines take on top of that.
pub const ITEM_INDENT: usize = 4;

/// Whether a lower-cased line begins with a list's closing tag.
pub open spec fn closes_list_level(l: Seq<char>) -> bool {
    starts_with(l, "</ul"@) || starts_with(l, "</ol"@) || starts_with(l, "</dl"@)
}

/// Whether a lower-cased line begins with a list item's tag.
pub open spec fn opens_item(l: Seq<char>) -> bool {
    starts_with(l, "<li"@) || starts_with(l, "<dt"@) || starts_with(l, "<dd"@)
}

/// The list level a line at `depth` belongs to: a closing tag belongs to the level it closes out
/// of.
pub open spec fn list_level(depth: int, line: Seq<char>) -> int {
    if closes_list_level(lower(line)) {
        if depth >= 1 {
            depth - 1
        } else {
            0
        }
    } else {
        depth
    }
}

/// The indents of a line's first and later lines at list `depth`: none outside a list; inside
/// one, each level costs a list indent and an item indent, an item tag sits one item indent
/// short of its level's content, and its continuations and every other line sit at the content.
pub open spec fn list_indents_spec(depth: int, line: Seq<char>) -> (int, int) {
    let level = list_level(depth, line);
    let inner = level * (LIST_INDENT + ITEM_INDENT) - ITEM_INDENT;
    if level == 0 {
        (0, 0)
    } else if opens_item(lower(line)) {
        (inner, inner + ITEM_INDENT)
    } else {
        (inner + ITEM_INDENT, inner + ITEM_INDENT)
    }
}

/// The `(first, rest)` indents a line at list `depth` takes.
pub fn list_indents(depth: usize, line: &[char]) -> (r: (usize, usize))
    requires
        list_level(depth as int, line@) * (LIST_INDENT + ITEM_INDENT) <= usize::MAX,
    ensures
        (r.0 as int, r.1 as int) == list_indents_spec(depth as int, line@),
{
    let l = ascii_lower(line);
    let closes = begins(&l, "</ul") || begins(&l, "</ol") || begins(&l, "</dl");
    let level = if closes {
        depth.saturating_sub(1)
    } else {
        depth
    };
    if level == 0 {
        return (0, 0);
    }
    proof {
        assert(level as int == list_level(depth as int, line@));
        assert(level * (LIST_INDENT + ITEM_INDENT) >= ITEM_INDENT) by (nonlinear_arith)
            requires
                level >= 1,
                LIST_INDENT + ITEM_INDENT == 6,
                ITEM_INDENT == 4,
        ;
    }
    let inner = level * (LIST_INDENT + ITEM_INDENT) - ITEM_INDENT;
    if begins(&l, "<li") || begins(&l, "<dt") || begins(&l, "<dd") {
        return (inner, inner + ITEM_INDENT);
    }
    (inner + ITEM_INDENT, inner + ITEM_INDENT)
}


/// The tags that start an HTML block element and so begin a paragraph of their own.
pub open spec fn block_tags() -> Seq<&'static str> {
    seq!["<p>", "<p ", "<ul", "<ol", "<li", "<dl", "<dt", "<dd", "<h", "</ul", "</ol", "</dl"]
}

/// The tags of a table read as HTML rather than kept whole: its rows and cells.
pub open spec fn table_tags() -> Seq<&'static str> {
    seq!["<table", "</table", "<tr", "</tr", "<td", "</td", "<th", "</th"]
}

/// Whether a line, leading whitespace aside, starts an HTML block element; a table's rows and
/// cells count only when tables are not kept whole.
pub open spec fn is_html_block_spec(line: Seq<char>, tables: bool) -> bool {
    let l = lower(trim_start(line));
    begins_any_spec(l, block_tags()) || (!tables && begins_any_spec(l, table_tags()))
}

/// Whether a line starts an HTML block element.
pub fn is_html_block(line: &[char], tables: bool) -> (r: bool)
    ensures
        r == is_html_block_spec(line@, tables),
{
    let blocks: [&str; 12] = [
        "<p>",
        "<p ",
        "<ul",
        "<ol",
        "<li",
        "<dl",
        "<dt",
        "<dd",
        "<h",
        "</ul",
        "</ol",
        "</dl",
    ];
    let table: [&str; 8] = ["<table", "</table", "<tr", "</tr", "<td", "</td", "<th", "</th"];
    assert(blocks@ =~= block_tags());
    assert(table@ =~= table_tags());
    let l = ascii_lower(&trimmed_start(line));
    begins_any(&l, &blocks) || (!tables && begins_any(&l, &table))
}

/// Whether a line, leading whitespace aside, is a `<blockquote>` or `</blockquote>` tag.
pub open spec fn is_blockquote_spec(line: Seq<char>) -> bool {
    let l = lower(trim_start(line));
    starts_with(l, "<blockquote"@) || starts_with(l, "</blockquote"@)
}

/// Whether a line is a `<blockquote>` tag.
pub fn is_blockquote(line: &[char]) -> (r: bool)
    ensures
        r == is_blockquote_spec(line@),
{
    let l = ascii_lower(&trimmed_start(line));
    begins(&l, "<blockquote") || begins(&l, "</blockquote")
}

/// Whether a line, leading whitespace aside, opens an HTML list.
pub open spec fn opens_list_spec(line: Seq<char>) -> bool {
    let l = lower(trim_start(line));
    starts_with(l, "<ul"@) || starts_with(l, "<ol"@) || starts_with(l, "<dl"@)
}

/// Whether a line opens an HTML list.
pub fn opens_list(line: &[char]) -> (r: bool)
    ensures
        r == opens_list_spec(line@),
{
    let l = ascii_lower(&trimmed_start(line));
    begins(&l, "<ul") || begins(&l, "<ol") || begins(&l, "<dl")
}

/// Whether a line, trimmed, is nothing but a list's closing tag: it begins with one, ends with
/// `>`, and holds no other `>`.
pub open spec fn closes_list_spec(line: Seq<char>) -> bool {
    let l = lower(trim(line));
    closes_list_level(l) && ends_with(l, ">"@) && !l.take(l.len() - 1).contains('>')
}

/// Whether a line is nothing but an HTML list's closing tag.
pub fn closes_list(line: &[char]) -> (r: bool)
    ensures
        r == closes_list_spec(line@),
{
    let l = ascii_lower(&trimmed(line));
    if !(begins(&l, "</ul") || begins(&l, "</ol") || begins(&l, "</dl")) {
        return false;
    }
    if !has_suffix(&l, &chars_of(">")) {
        return false;
    }
    proof {
        reveal_strlit(">");
    }
    let head = slice_vec(&l, 0, l.len() - 1);
    assert(head@ == l@.take(l@.len() - 1));
    !has_char(&head, '>')
}

/// Whether a line, leading whitespace aside, is a section heading: `<h` and a digit from 1 to 6.
pub open spec fn is_heading_spec(line: Seq<char>) -> bool {
    let l = lower(trim_start(line));
    starts_with(l, "<h"@) && l.len() > 2 && '1' <= l[2] && l[2] <= '6'
}

/// Whether a line is a section heading.
pub fn is_heading(line: &[char]) -> (r: bool)
    ensures
        r == is_heading_spec(line@),
{
    let l = ascii_lower(&trimmed_start(line));
    if !begins(&l, "<h") {
        return false;
    }
    proof {
        reveal_strlit("<h");
    }
    l.len() > 2 && '1' <= l[2] && l[2] <= '6'
}

/// The rest of a line after a leading paragraph tag — `<p>`, `<P>`, `<p/>` or `<p />`, spaces
/// allowed inside it — with leading whitespace removed; `None` when the line does not open with
/// one.
pub open spec fn paragraph_open_spec(line: Seq<char>) -> Option<Seq<char>> {
    if line.len() >= 2 && line[0] == '<' && (line[1] == 'p' || line[1] == 'P') {
        let a = trim_start(line.skip(2));
        let b = if a.len() > 0 && a[0] == '/' {
            a.skip(1)
        } else {
            a
        };
        let c = trim_start(b);
        if c.len() > 0 && c[0] == '>' {
            Some(trim_start(c.skip(1)))
        } else {
            None
        }
    } else {
        None
    }
}

/// The rest of `line` after a leading `<p>`, or `None` when it does not open a paragraph.
pub fn paragraph_open(line: &[char]) -> (r: Option<Vec<char>>)
    ensures
        match r {
            Some(v) => paragraph_open_spec(line@) == Some(v@),
            None => paragraph_open_spec(line@) is None,
        },
{
    if !(line.len() >= 2 && line[0] == '<' && (line[1] == 'p' || line[1] == 'P')) {
        return None;
    }
    let a = trimmed_start(&slice_vec(line, 2, line.len()));
    assert(line@.subrange(2, line@.len() as int) == line@.skip(2));
    let b = if a.len() > 0 && a[0] == '/' {
        let t = slice_vec(&a, 1, a.len());
        assert(t@ == a@.skip(1));
        t
    } else {
        a
    };
    let c = trimmed_start(&b);
    if c.len() > 0 && c[0] == '>' {
        let t = slice_vec(&c, 1, c.len());
        assert(t@ == c@.skip(1));
        Some(trimmed_start(&t))
    } else {
        None
    }
}

/// Whether `l` holds the closing tag `</name …>` at `i`, the name ending at a word boundary.
pub open spec fn closing_tag_here(l: Seq<char>, name: Seq<char>, i: int) -> bool {
    occurs_at(l, "</"@, i) && html_tag_spec(l.skip(i), name, true) is Some
}

/// Whether the lower-cased line holds a `</name …>` tag anywhere — `</p>` is a paragraph close
/// and `</param>` is not.
pub open spec fn closing_tag_at_spec(line: Seq<char>, name: Seq<char>) -> bool {
    exists|i: int| 0 <= i < line.len() && #[trigger] closing_tag_here(lower(line), name, i)
}

/// Whether `line` holds a `</name>` tag anywhere.
pub fn closing_tag_at(line: &[char], name: &str) -> (r: bool)
    ensures
        r == closing_tag_at_spec(line@, name@),
{
    let l = ascii_lower(line);
    let open = chars_of("</");
    let mut i: usize = 0;
    while i < l.len()
        invariant
            l@ == lower(line@),
            l@.len() == line@.len(),
            open@ == "</"@,
            forall|j: int| 0 <= j < i ==> !#[trigger] closing_tag_here(l@, name@, j),
        decreases l@.len() - i,
    {
        if is_at(&l, &open, i) && html_tag(&l, i, name, true).is_some() {
            assert(closing_tag_here(l@, name@, i as int));
            return true;
        }
        i += 1;
    }
    false
}

/// Whether a line holds one of the closing tags that carry nothing: `</p>`, `</li>`, `</dt>`
/// and `</dd>`.
pub open spec fn has_paragraph_close_spec(line: Seq<char>) -> bool {
    ||| closing_tag_at_spec(line, "p"@)
    ||| closing_tag_at_spec(line, "li"@)
    ||| closing_tag_at_spec(line, "dt"@)
    ||| closing_tag_at_spec(line, "dd"@)
}

/// Whether `line` holds a paragraph or list-item close.
pub fn has_paragraph_close(line: &[char]) -> (r: bool)
    ensures
        r == has_paragraph_close_spec(line@),
{
    closing_tag_at(line, "p") || closing_tag_at(line, "li") || closing_tag_at(line, "dt")
        || closing_tag_at(line, "dd")
}

/// A line split at its first HTML comment that closes on it: what precedes the comment (trailing
/// whitespace removed), the comment, and what follows it (leading whitespace removed).
pub open spec fn split_html_comment_spec(line: Seq<char>) -> Option<(Seq<char>, Seq<char>, Seq<char>)> {
    match find_from(line, "<!--"@, 0) {
        None => None,
        Some(open) => match find_from(line, "-->"@, open) {
            None => None,
            Some(c) => {
                let close = c + "-->"@.len();
                Some((trim_end(line.take(open)), line.subrange(open, close), trim_start(line.skip(close))))
            },
        },
    }
}

/// Split a line at the first HTML comment.
#[verifier::rlimit(40)]
pub fn split_html_comment(line: &[char]) -> (r: Option<(Vec<char>, Vec<char>, Vec<char>)>)
    ensures
        match r {
            Some(t) => split_html_comment_spec(line@) == Some((t.0@, t.1@, t.2@)),
            None => split_html_comment_spec(line@) is None,
        },
{
    let open = match find_seq_from(line, &chars_of("<!--"), 0) {
        Some(o) => o,
        None => return None,
    };
    let shut = chars_of("-->");
    let c = match find_seq_from(line, &shut, open) {
        Some(c) => c,
        None => return None,
    };
    proof {
        lemma_find_from_props(line@, shut@, open as int);
        assert(occurs_at(line@, shut@, c as int));
        assert(c + shut@.len() <= line@.len());
    }
    let len = line.len();
    assert(c + shut.len() <= len);
    let close = c + shut.len();
    let head = slice_vec(line, 0, open);
    let tail = slice_vec(line, close, line.len());
    assert(head@ == line@.take(open as int));
    assert(tail@ == line@.skip(close as int));
    Some((trimmed_end(&head), slice_vec(line, open, close), trimmed_start(&tail)))
}


/// Where the tag closing a preformatted region ends in the lower-cased line: just past the
/// last `</pre>`, or past the last `</table>` when tables are kept whole, whichever is later.
pub open spec fn fence_close_end(l: Seq<char>, tables: bool) -> Option<int> {
    let pre = match rfind(l, "</pre>"@) {
        Some(a) => Some(a + "</pre>"@.len()),
        None => None,
    };
    let table = if tables {
        match rfind(l, "</table>"@) {
            Some(a) => Some(a + "</table>"@.len()),
            None => None,
        }
    } else {
        None
    };
    match (pre, table) {
        (Some(a), Some(b)) => Some(if a >= b { a } else { b }),
        (Some(a), None) => Some(a),
        (None, Some(b)) => Some(b),
        (None, None) => None,
    }
}

/// A region's closing line split just past the tag that closes it — what it ends with (trailing
/// whitespace removed) and the rest (leading whitespace removed) — when anything follows it.
pub open spec fn split_after_fence_close_spec(line: Seq<char>, tables: bool) -> Option<(Seq<char>, Seq<char>)> {
    match fence_close_end(lower(line), tables) {
        None => None,
        Some(end) => {
            let tail = trim_start(line.skip(end));
            if tail.len() == 0 {
                None
            } else {
                Some((trim_end(line.take(end)), tail))
            }
        },
    }
}

/// Where the last `lit` in `l` ends, if it occurs.
fn end_of_last(l: &[char], lit: &str) -> (r: Option<usize>)
    ensures
        match r {
            Some(e) => rfind(l@, lit@) matches Some(a) && e == a + lit@.len() && e <= l@.len(),
            None => rfind(l@, lit@) is None,
        },
{
    let p = chars_of(lit);
    let n = l.len();
    match rfind_seq(l, &p) {
        Some(a) => {
            assert(a + p.len() <= n);
            Some(a + p.len())
        },
        None => None,
    }
}

/// Split a preformatted region's closing line at the end of the tag that closes it.
pub fn split_after_fence_close(line: &[char], tables: bool) -> (r: Option<(Vec<char>, Vec<char>)>)
    ensures
        match r {
            Some(t) => split_after_fence_close_spec(line@, tables) == Some((t.0@, t.1@)),
            None => split_after_fence_close_spec(line@, tables) is None,
        },
{
    let l = ascii_lower(line);
    let pre = end_of_last(&l, "</pre>");
    let table = if tables {
        end_of_last(&l, "</table>")
    } else {
        None
    };
    let end = match (pre, table) {
        (Some(a), Some(b)) => if a >= b {
            a
        } else {
            b
        },
        (Some(a), None) => a,
        (None, Some(b)) => b,
        (None, None) => return None,
    };
    assert(fence_close_end(l@, tables) == Some(end as int));
    let tail = trimmed_start(&slice_vec(line, end, line.len()));
    assert(line@.subrange(end as int, line@.len() as int) == line@.skip(end as int));
    if tail.len() == 0 {
        return None;
    }
    let head = slice_vec(line, 0, end);
    assert(head@ == line@.take(end as int));
    Some((trimmed_end(&head), tail))
}

/// The tags that want a line of their own: a list's open and close, and a blockquote's.
pub open spec fn split_tags() -> Seq<&'static str> {
    seq!["<ul", "<ol", "<dl", "</ul", "</ol", "</dl", "<blockquote", "</blockquote"]
}

/// The first position at or after `i` of the lower-cased line `l` where, outside every inline
/// `{…}` (the depth counts `{` up and `}` down from `depth`), a `<` begins one of
/// [`split_tags`].
pub open spec fn block_split_scan(l: Seq<char>, i: int, depth: int) -> Option<int>
    decreases l.len() - i,
{
    if i < 0 || i >= l.len() {
        None
    } else if l[i] == '{' {
        block_split_scan(l, i + 1, depth + 1)
    } else if l[i] == '}' {
        block_split_scan(l, i + 1, depth - 1)
    } else if l[i] == '<' && depth <= 0 && begins_any_spec(l.skip(i), split_tags()) {
        Some(i)
    } else {
        block_split_scan(l, i + 1, depth)
    }
}

/// A line split at the first tag that wants a line of its own: a tag further along is split
/// from what precedes it; a tag opening the line is split from what follows its `>`, when
/// anything does. Each part loses the whitespace at the split.
pub open spec fn split_block_tag_spec(line: Seq<char>) -> Option<(Seq<char>, Seq<char>)> {
    let l = lower(line);
    match block_split_scan(l, 0, 0) {
        None => None,
        Some(at) => if at > 0 {
            Some((trim_end(line.take(at)), trim_start(line.skip(at))))
        } else {
            match find_char_from(l, '>', 0) {
                None => None,
                Some(k) => {
                    let tail = trim_start(line.skip(k + 1));
                    if tail.len() == 0 {
                        None
                    } else {
                        Some((trim_end(line.take(k + 1)), tail))
                    }
                },
            }
        },
    }
}

/// Split a line at the first block-level tag that has to stand on a line of its own.
#[verifier::rlimit(30)]
pub fn split_block_tag(line: &[char]) -> (r: Option<(Vec<char>, Vec<char>)>)
    requires
        line@.len() <= i32::MAX,
    ensures
        match r {
            Some(t) => split_block_tag_spec(line@) == Some((t.0@, t.1@)),
            None => split_block_tag_spec(line@) is None,
        },
{
    let tags: [&str; 8] = [
        "<ul",
        "<ol",
        "<dl",
        "</ul",
        "</ol",
        "</dl",
        "<blockquote",
        "</blockquote",
    ];
    assert(tags@ =~= split_tags());
    let l = ascii_lower(line);
    let mut depth: i32 = 0;
    let mut i: usize = 0;
    let mut found: Option<usize> = None;
    while i < l.len() && found.is_none()
        invariant
            l@ == lower(line@),
            l@.len() == line@.len() <= i32::MAX,
            i <= l@.len(),
            -(i as int) <= depth <= i,
            tags@ == split_tags(),
            found is None ==> block_split_scan(l@, i as int, depth as int) == block_split_scan(l@, 0, 0),
            found matches Some(f) ==> block_split_scan(l@, 0, 0) == Some(f as int) && f < l@.len(),
        decreases l@.len() - i,
    {
        if l[i] == '{' {
            depth += 1;
        } else if l[i] == '}' {
            depth -= 1;
        } else if l[i] == '<' && depth <= 0 {
            let rest = slice_vec(&l, i, l.len());
            assert(rest@ == l@.skip(i as int));
            if begins_any(&rest, &tags) {
                found = Some(i);
            }
        }
        i += 1;
    }
    let at = match found {
        Some(at) => at,
        None => {
            assert(block_split_scan(l@, i as int, depth as int) is None);
            return None;
        },
    };
    if at > 0 {
        let head = slice_vec(line, 0, at);
        let tail = slice_vec(line, at, line.len());
        assert(head@ == line@.take(at as int));
        assert(tail@ == line@.skip(at as int));
        return Some((trimmed_end(&head), trimmed_start(&tail)));
    }
    let k = match find_char(&l, '>', 0) {
        Some(k) => k,
        None => return None,
    };
    proof {
        lemma_find_char_props(l@, '>', 0);
    }
    let end = k + 1;
    let tail = trimmed_start(&slice_vec(line, end, line.len()));
    assert(line@.subrange(end as int, line@.len() as int) == line@.skip(end as int));
    if tail.len() == 0 {
        return None;
    }
    let head = slice_vec(line, 0, end);
    assert(head@ == line@.take(end as int));
    Some((trimmed_end(&head), tail))
}

/// Whether the inside of a closing tag names one of the closes that carry nothing: `p`, `li`,
/// `dt` or `dd`, in any case.
pub open spec fn ignored_close(inner: Seq<char>) -> bool {
    let n = lower(inner);
    n == "p"@ || n == "li"@ || n == "dt"@ || n == "dd"@
}

/// `s` with every `</p>`, `</li>`, `</dt>` and `</dd>` removed — any case, spaces allowed inside
/// the tag; every other closing tag, and a `</` no `>` follows, is kept.
#[verifier::opaque]
pub open spec fn drop_paragraph_close_spec(s: Seq<char>) -> Seq<char>
    decreases s.len(),
{
    match find_from(s, "</"@, 0) {
        None => s,
        Some(at) => match find_char_from(s, '>', at) {
            None => s,
            Some(close) => {
                proof {
                    lemma_find_from_props(s, "</"@, 0);
                    lemma_find_char_props(s, '>', at);
                }
                let kept = if ignored_close(trim(s.subrange(at + "</"@.len(), close))) {
                    Seq::empty()
                } else {
                    s.subrange(at, close + 1)
                };
                s.take(at) + kept + drop_paragraph_close_spec(s.skip(close + 1))
            },
        },
    }
}

/// One step of [`drop_paragraph_close_spec`]: the text before the first `</`, that tag unless
/// it is ignored, and the rest after it.
pub proof fn lemma_drop_step(s: Seq<char>, at: int, close: int)
    requires
        find_from(s, "</"@, 0) == Some(at),
        find_char_from(s, '>', at) == Some(close),
    ensures
        drop_paragraph_close_spec(s) == s.take(at) + (if ignored_close(trim(s.subrange(at + "</"@.len(), close))) {
            Seq::empty()
        } else {
            s.subrange(at, close + 1)
        }) + drop_paragraph_close_spec(s.skip(close + 1)),
{
    reveal(drop_paragraph_close_spec);
}

/// A text with no `</` closed by a `>` is left as it is.
pub proof fn lemma_drop_none(s: Seq<char>)
    requires
        match find_from(s, "</"@, 0) {
            None => true,
            Some(at) => find_char_from(s, '>', at) is None,
        },
    ensures
        drop_paragraph_close_spec(s) == s,
{
    reveal(drop_paragraph_close_spec);
}

/// Whether `inner` is one of the ignored close names.
fn is_ignored_close(inner: &[char]) -> (r: bool)
    ensures
        r == ignored_close(inner@),
{
    let n = ascii_lower(inner);
    crate::strs::seq_eq(&n, &chars_of("p")) || crate::strs::seq_eq(&n, &chars_of("li"))
        || crate::strs::seq_eq(&n, &chars_of("dt")) || crate::strs::seq_eq(&n, &chars_of("dd"))
}

/// `line` with every paragraph and list-item close removed.
#[verifier::rlimit(60)]
pub fn drop_paragraph_close(line: &[char]) -> (r: Vec<char>)
    ensures
        r@ == drop_paragraph_close_spec(line@),
{
    let open = chars_of("</");
    proof {
        reveal_strlit("</");
    }
    let mut out: Vec<char> = Vec::new();
    let mut pos: usize = 0;
    assert(line@.skip(0) == line@);
    assert(out@ + drop_paragraph_close_spec(line@) == drop_paragraph_close_spec(line@));
    loop
        invariant_except_break
            pos <= line@.len(),
            open@ == "</"@,
            out@ + drop_paragraph_close_spec(line@.skip(pos as int)) == drop_paragraph_close_spec(line@),
        ensures
            out@ == drop_paragraph_close_spec(line@),
        decreases line@.len() - pos,
    {
        let rest = slice_vec(line, pos, line.len());
        assert(rest@ == line@.skip(pos as int));
        let at = match find_seq_from(&rest, &open, 0) {
            Some(at) => at,
            None => {
                proof {
                    lemma_drop_none(rest@);
                }
                push_all(&mut out, &rest);
                break;
            },
        };
        proof {
            lemma_find_from_props(rest@, open@, 0);
        }
        let close = match find_char(&rest, '>', at) {
            Some(c) => c,
            None => {
                proof {
                    lemma_drop_none(rest@);
                }
                push_all(&mut out, &rest);
                break;
            },
        };
        proof {
            reveal_strlit("</");
            assert("</"@.len() == 2);
            assert("</"@[1] == '/');
            assert("</"@[0] == '<');
            assert(occurs_at(rest@, open@, at as int));
            assert(rest@.subrange(at as int, at as int + 2) == "</"@);
            assert(rest@.subrange(at as int, at as int + 2)[1] == '/');
            assert(rest@.subrange(at as int, at as int + 2)[0] == '<');
            lemma_find_char_props(rest@, '>', at as int);
            assert(rest@[at as int + 1] == '/');
            assert(rest@[at as int] == '<');
            assert(close >= at + 2);
        }
        push_range(&mut out, &rest, 0, at);
        let inner = trimmed(&slice_vec(&rest, at + 2, close));
        if !is_ignored_close(&inner) {
            push_range(&mut out, &rest, at, close + 1);
        }
        proof {
            lemma_drop_step(rest@, at as int, close as int);
            assert(rest@.skip(close + 1) == line@.skip(pos + close + 1));
            assert(rest@.subrange(at as int + 2, close as int) == rest@.subrange(at + "</"@.len(), close as int));
        }
        pos = pos + close + 1;
    }
    out
}

} // verus!
