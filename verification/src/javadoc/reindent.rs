//! Re-indenting the code a comment fences: a ```` ``` ````, `<pre>`, `{@code` or `{@snippet`
//! region takes the surrounding indent style, its own unit of indentation read off its lines.

use vstd::prelude::*;

use crate::config::{Comments, IndentStyle, Layout};
use crate::javadoc::ascii_lower;
use crate::javadoc::comment::spaces;
use crate::javadoc::lines::{begins, has_lit};
use crate::javadoc::tokens::lines_view;
use crate::strs::{contains, lower, push_n, push_range, starts_with};

verus! {

/// How the code regions of a comment are re-indented: the columns a tab advances to, the
/// columns of one indentation level, what a level is written with, and the columns a region may
/// take once re-indented.
#[derive(Debug, Clone, Copy, PartialEq, Eq, Structural)]
pub struct CodeIndent {
    /// Columns a tab character advances to.
    pub tab_width: usize,
    /// Columns per indentation level.
    pub indent_cols: usize,
    /// What an indentation level is made of.
    pub style: IndentStyle,
    /// The columns a re-indented line may take.
    pub budget: usize,
}

/// The re-indentation the settings ask for: none unless source in comments is formatted; the
/// layout's tab width, level width and indent style otherwise, within the code-block width (the
/// comment width when that is zero).
pub open spec fn code_indent_spec(cfg: Comments, layout: Layout) -> Option<CodeIndent> {
    if cfg.format_source_in_comments {
        Some(
            CodeIndent {
                tab_width: layout.tab_width,
                indent_cols: layout.indent_width,
                style: layout.indent_style,
                budget: if cfg.code_block_width == 0 {
                    cfg.width
                } else {
                    cfg.code_block_width
                },
            },
        )
    } else {
        None
    }
}

/// The re-indentation the settings ask for.
pub fn code_indent(cfg: &Comments, layout: &Layout) -> (r: Option<CodeIndent>)
    ensures
        r == code_indent_spec(*cfg, *layout),
{
    if cfg.format_source_in_comments {
        Some(
            CodeIndent {
                tab_width: layout.tab_width,
                indent_cols: layout.indent_width,
                style: layout.indent_style,
                budget: if cfg.code_block_width == 0 {
                    cfg.width
                } else {
                    cfg.code_block_width
                },
            },
        )
    } else {
        None
    }
}

/// A space or a tab: what indentation is made of.
pub open spec fn is_lead(c: char) -> bool {
    c == ' ' || c == '\t'
}

/// Where the run of spaces and tabs that starts at `i` ends.
pub open spec fn lead_from(l: Seq<char>, i: int) -> int
    decreases l.len() - i,
{
    if 0 <= i < l.len() && is_lead(l[i]) {
        lead_from(l, i + 1)
    } else {
        i
    }
}

/// The number of spaces and tabs a line starts with.
pub open spec fn lead_len(l: Seq<char>) -> int {
    lead_from(l, 0)
}

/// The column after `c` when it starts at `col`: a tab advances to the next tab stop.
pub open spec fn advance(col: int, c: char, tab: int) -> int {
    if c == '\t' {
        (col / tab + 1) * tab
    } else {
        col + 1
    }
}

/// The column the first `k` characters of a line end at.
pub open spec fn col_upto(l: Seq<char>, k: int, tab: int) -> int
    decreases k,
{
    if k <= 0 {
        0
    } else {
        advance(col_upto(l, k - 1, tab), l[k - 1], tab)
    }
}

/// The column a line's text starts at, tabs expanded; none for a blank line or one that is not
/// indented at all.
pub open spec fn columns_spec(l: Seq<char>, tab: int) -> Option<int> {
    let n = lead_len(l);
    if n == l.len() || n == 0 {
        None
    } else {
        Some(col_upto(l, n, tab))
    }
}

/// The smallest column among the first `k` lines that have one.
pub open spec fn min_columns(ls: Seq<Seq<char>>, k: int, tab: int) -> Option<int>
    decreases k,
{
    if k <= 0 {
        None
    } else {
        match (min_columns(ls, k - 1, tab), columns_spec(ls[k - 1], tab)) {
            (None, c) => c,
            (Some(a), None) => Some(a),
            (Some(a), Some(b)) => Some(
                if b < a {
                    b
                } else {
                    a
                },
            ),
        }
    }
}

/// The columns a line's indentation takes once re-indented: its levels, counted in `unit`s,
/// at the layout's level width.
pub open spec fn new_columns(cols: int, unit: int, c: CodeIndent) -> int {
    cols / unit * c.indent_cols
}

/// Whether a line, re-indented, stays within the budget.
pub open spec fn line_fits(l: Seq<char>, unit: int, c: CodeIndent) -> bool {
    match columns_spec(l, c.tab_width as int) {
        None => true,
        Some(cols) => new_columns(cols, unit, c) + (l.len() - lead_len(l)) <= c.budget,
    }
}

/// `n` columns of indentation as the style writes them: spaces, or tabs to the last full tab
/// stop and spaces for the rest.
pub open spec fn indent_text(n: nat, style: IndentStyle, tab: nat) -> Seq<char> {
    match style {
        IndentStyle::Space => spaces(n),
        _ => Seq::new(n / tab, |_i: int| '\t') + spaces(n % tab),
    }
}

/// A line re-indented: its indentation rewritten at its new columns, its text kept.
pub open spec fn reindent_line(l: Seq<char>, unit: int, c: CodeIndent) -> Seq<char> {
    match columns_spec(l, c.tab_width as int) {
        None => l,
        Some(cols) => indent_text(new_columns(cols, unit, c) as nat, c.style, c.tab_width as nat) + l.skip(
            lead_len(l),
        ),
    }
}

/// Whether a region holds code: its first line, ASCII-lower-cased, opens a Markdown fence or
/// holds `<pre`, `{@code` or `{@snippet`.
pub open spec fn is_code_region(ls: Seq<Seq<char>>) -> bool {
    ls.len() > 0 && {
        let l = lower(ls[0]);
        ||| starts_with(l, "```"@)
        ||| contains(l, "<pre"@)
        ||| contains(l, "{@code"@)
        ||| contains(l, "{@snippet"@)
    }
}

/// A region re-indented: a region of code whose lines have indentation is measured in its
/// smallest positive indent, and — when every line then fits the budget — each indented line
/// takes that many levels of the layout's indentation. Anything else is left as written.
pub open spec fn reindent_spec(ls: Seq<Seq<char>>, c: CodeIndent) -> Seq<Seq<char>> {
    if !is_code_region(ls) {
        ls
    } else {
        match min_columns(ls, ls.len() as int, c.tab_width as int) {
            None => ls,
            Some(unit) => if forall|i: int| 0 <= i < ls.len() ==> line_fits(#[trigger] ls[i], unit, c) {
                Seq::new(ls.len(), |i: int| reindent_line(ls[i], unit, c))
            } else {
                ls
            },
        }
    }
}

/// A tab advances at least one column and at most a tab width.
proof fn lemma_advance(col: int, c: char, tab: int)
    requires
        col >= 0,
        tab >= 1,
    ensures
        col + 1 <= advance(col, c, tab) <= col + tab,
{
    if c == '\t' {
        assert((col / tab + 1) * tab >= col + 1 && (col / tab + 1) * tab <= col + tab) by (nonlinear_arith)
            requires
                col >= 0,
                tab >= 1,
        {
            assert(col == tab * (col / tab) + col % tab);
            assert(0 <= col % tab < tab);
        }
    }
}

/// The first `k` characters end between column `k` and `k` tab widths.
proof fn lemma_col_bound(l: Seq<char>, k: int, tab: int)
    requires
        0 <= k,
        tab >= 1,
    ensures
        k <= col_upto(l, k, tab) <= k * tab,
    decreases k,
{
    if k > 0 {
        lemma_col_bound(l, k - 1, tab);
        lemma_advance(col_upto(l, k - 1, tab), l[k - 1], tab);
        assert((k - 1) * tab + tab == k * tab) by (nonlinear_arith);
    }
}

/// A run of spaces and tabs ends past where it starts, within the line.
proof fn lemma_lead_from(l: Seq<char>, i: int)
    requires
        0 <= i <= l.len(),
    ensures
        i <= lead_from(l, i) <= l.len(),
        forall|j: int| i <= j < lead_from(l, i) ==> is_lead(#[trigger] l[j]),
    decreases l.len() - i,
{
    if i < l.len() && is_lead(l[i]) {
        lemma_lead_from(l, i + 1);
    }
}

/// The number of spaces and tabs a line starts with.
fn lead_of(l: &[char]) -> (r: usize)
    ensures
        r == lead_len(l@),
{
    let mut i: usize = 0;
    while i < l.len() && (l[i] == ' ' || l[i] == '\t')
        invariant
            i <= l@.len(),
            lead_from(l@, i as int) == lead_from(l@, 0),
        decreases l@.len() - i,
    {
        i += 1;
    }
    i
}

/// The column a line's text starts at, tabs expanded.
fn columns_of(l: &[char], tab: usize) -> (r: Option<u128>)
    requires
        tab > 0,
    ensures
        match r {
            Some(x) => columns_spec(l@, tab as int) == Some(x as int) && x >= 1,
            None => columns_spec(l@, tab as int) is None,
        },
{
    let n = lead_of(l);
    proof {
        lemma_lead_from(l@, 0);
    }
    if n == l.len() || n == 0 {
        return None;
    }
    let t = tab as u128;
    let mut col: u128 = 0;
    let mut i: usize = 0;
    while i < n
        invariant
            n <= l@.len(),
            i <= n,
            tab > 0,
            t == tab,
            col == col_upto(l@, i as int, tab as int),
        decreases n - i,
    {
        proof {
            lemma_col_bound(l@, i + 1, tab as int);
            assert((i + 1) * tab <= 0xffff_ffff_ffff_ffffu64 * 0xffff_ffff_ffff_ffffu64) by (nonlinear_arith)
                requires
                    i + 1 <= 0xffff_ffff_ffff_ffffu64,
                    tab <= 0xffff_ffff_ffff_ffffu64,
                    i >= 0,
                    tab >= 0,
            ;
            lemma_col_bound(l@, i as int, tab as int);
            assert(col / t <= col) by (nonlinear_arith)
                requires
                    t >= 1,
                    col >= 0,
            ;
            assert((col / t + 1) * t <= col + t) by (nonlinear_arith)
                requires
                    t >= 1,
                    col >= 0,
            {
                assert(col == t * (col / t) + col % t);
            }
            assert(i * tab + tab == (i + 1) * tab) by (nonlinear_arith);
            assert(0xffff_ffff_ffff_ffffu64 * 0xffff_ffff_ffff_ffffu64 < 0xffff_ffff_ffff_ffff_ffff_ffff_ffff_ffffu128);
        }
        if l[i] == '\t' {
            col = (col / t + 1) * t;
        } else {
            col = col + 1;
        }
        i += 1;
    }
    proof {
        lemma_col_bound(l@, n as int, tab as int);
    }
    Some(col)
}

/// `q * ic <= room` exactly when `ic <= room / q`.
proof fn lemma_mul_within(q: int, ic: int, room: int)
    requires
        q >= 1,
        ic >= 0,
        room >= 0,
    ensures
        (q * ic <= room) == (ic <= room / q),
{
    assert((q * ic <= room) == (ic <= room / q)) by (nonlinear_arith)
        requires
            q >= 1,
            ic >= 0,
            room >= 0,
    {
        assert(room == q * (room / q) + room % q);
        assert(0 <= room % q < q);
        if ic <= room / q {
            assert(q * ic <= q * (room / q));
        } else {
            assert(q * ic >= q * (room / q + 1));
        }
    }
}

/// Whether a line, re-indented in `unit`s, stays within the budget.
fn fits(l: &[char], unit: u128, c: &CodeIndent) -> (r: bool)
    requires
        unit >= 1,
        c.tab_width > 0,
    ensures
        r == line_fits(l@, unit as int, *c),
{
    match columns_of(l, c.tab_width) {
        None => true,
        Some(cols) => {
            let lead = lead_of(l);
            proof {
                lemma_lead_from(l@, 0);
            }
            let body_len = l.len() - lead;
            if body_len > c.budget {
                return false;
            }
            let q = cols / unit;
            let room = (c.budget - body_len) as u128;
            if q == 0 {
                assert(new_columns(cols as int, unit as int, *c) == 0) by {
                    assert((cols as int) / (unit as int) == 0);
                    assert(0 * (c.indent_cols as int) == 0);
                }
                return true;
            }
            proof {
                lemma_mul_within(q as int, c.indent_cols as int, room as int);
            }
            (c.indent_cols as u128) <= room / q
        },
    }
}

/// Write `n` columns of indentation as the style writes them.
fn push_indent(out: &mut Vec<char>, n: usize, style: IndentStyle, tab: usize)
    requires
        tab > 0,
    ensures
        final(out)@ == old(out)@ + indent_text(n as nat, style, tab as nat),
{
    match style {
        IndentStyle::Space => {
            push_n(out, ' ', n);
            assert(Seq::new(n as nat, |_i: int| ' ') =~= spaces(n as nat));
        },
        _ => {
            let ghost before = out@;
            push_n(out, '\t', n / tab);
            push_n(out, ' ', n % tab);
            assert(Seq::new((n % tab) as nat, |_i: int| ' ') =~= spaces((n % tab) as nat));
            assert(out@ =~= before + indent_text(n as nat, style, tab as nat));
        },
    }
}

/// Whether a region's first line opens code.
fn opens_code(first: &[char]) -> (r: bool)
    ensures
        r == {
            let l = lower(first@);
            ||| starts_with(l, "```"@)
            ||| contains(l, "<pre"@)
            ||| contains(l, "{@code"@)
            ||| contains(l, "{@snippet"@)
        },
{
    let l = ascii_lower(first);
    begins(&l, "```") || has_lit(&l, "<pre") || has_lit(&l, "{@code") || has_lit(&l, "{@snippet")
}

/// Re-indent a region of code to the layout's indentation: its unit is its smallest positive
/// indent, and it is re-indented all or not at all, only when every line then fits the budget.
#[verifier::rlimit(60)]
pub fn reindent_code_region(lines: &mut Vec<Vec<char>>, c: &CodeIndent)
    requires
        c.tab_width > 0,
    ensures
        lines_view(final(lines)@) == reindent_spec(lines_view(old(lines)@), *c),
{
    let ghost ls = lines_view(lines@);
    if lines.len() == 0 {
        return;
    }
    assert(ls[0] == lines@[0]@);
    if !opens_code(&lines[0]) {
        return;
    }
    let tab = c.tab_width;
    let mut unit: Option<u128> = None;
    let mut k: usize = 0;
    while k < lines.len()
        invariant
            k <= lines@.len(),
            ls == lines_view(lines@),
            tab == c.tab_width,
            tab > 0,
            match unit {
                Some(u) => min_columns(ls, k as int, tab as int) == Some(u as int) && u >= 1,
                None => min_columns(ls, k as int, tab as int) is None,
            },
        decreases lines@.len() - k,
    {
        assert(ls[k as int] == lines@[k as int]@);
        let here = columns_of(&lines[k], tab);
        unit = match (unit, here) {
            (None, h) => h,
            (Some(a), None) => Some(a),
            (Some(a), Some(b)) => Some(
                if b < a {
                    b
                } else {
                    a
                },
            ),
        };
        k += 1;
    }
    let unit = match unit {
        None => {
            return;
        },
        Some(u) => u,
    };
    let mut j: usize = 0;
    while j < lines.len()
        invariant
            j <= lines@.len(),
            ls == lines_view(lines@),
            tab == c.tab_width,
            tab > 0,
            unit >= 1,
            is_code_region(ls),
            min_columns(ls, ls.len() as int, tab as int) == Some(unit as int),
            forall|i: int| 0 <= i < j ==> line_fits(#[trigger] ls[i], unit as int, *c),
        decreases lines@.len() - j,
    {
        assert(ls[j as int] == lines@[j as int]@);
        if !fits(&lines[j], unit, c) {
            assert(!line_fits(ls[j as int], unit as int, *c));
            return;
        }
        j += 1;
    }
    let ghost target = Seq::new(ls.len(), |i: int| reindent_line(ls[i], unit as int, *c));
    let mut i: usize = 0;
    while i < lines.len()
        invariant
            i <= lines@.len(),
            lines@.len() == ls.len(),
            tab == c.tab_width,
            tab > 0,
            unit >= 1,
            is_code_region(ls),
            min_columns(ls, ls.len() as int, tab as int) == Some(unit as int),
            forall|m: int| 0 <= m < ls.len() ==> line_fits(#[trigger] ls[m], unit as int, *c),
            target == Seq::new(ls.len(), |m: int| reindent_line(ls[m], unit as int, *c)),
            forall|m: int| 0 <= m < i ==> #[trigger] lines@[m]@ == target[m],
            forall|m: int| i <= m < ls.len() ==> #[trigger] lines@[m]@ == ls[m],
        decreases lines@.len() - i,
    {
        let ghost l = ls[i as int];
        assert(lines@[i as int]@ == l);
        assert(line_fits(l, unit as int, *c));
        match columns_of(&lines[i], tab) {
            None => {},
            Some(cols) => {
                let lead = lead_of(&lines[i]);
                proof {
                    lemma_lead_from(l, 0);
                }
                let q = cols / unit;
                let n: usize = if c.indent_cols == 0 {
                    0
                } else {
                    proof {
                        assert(q * c.indent_cols >= q) by (nonlinear_arith)
                            requires
                                c.indent_cols >= 1,
                                q >= 0,
                        ;
                    }
                    (q as usize) * c.indent_cols
                };
                assert(n == new_columns(cols as int, unit as int, *c)) by {
                    if c.indent_cols == 0 {
                        assert(q * 0 == 0);
                    }
                }
                let mut out: Vec<char> = Vec::new();
                push_indent(&mut out, n, c.style, tab);
                let len = lines[i].len();
                push_range(&mut out, &lines[i], lead, len);
                assert(out@ =~= reindent_line(l, unit as int, *c));
                lines.set(i, out);
            },
        }
        i += 1;
    }
    assert(lines_view(lines@) =~= target);
}

} // verus!
