//! The layout IR: google-java-format's `Doc` vocabulary.
//!
//! `Doc` has exactly the five GJF shapes. Comments and whitespace ride **inside** the tree as
//! [`Doc::Tok`]; there is no separate comment node.
//!
//! | shape | what it is |
//! |---|---|
//! | [`Doc::Level`] | a group with its own indent, the only recursive shape |
//! | [`Doc::Token`] | one significant token's text |
//! | [`Doc::Break`] | a break point: `flat` text when it stays, a newline + indent when it goes |
//! | [`Doc::Space`] | a non-breaking space, width 1 |
//! | [`Doc::Tok`] | verbatim text that may contain newlines (comments, disabled regions) |
//!
//! A `Level`'s width is its own precomputed width: a group is measured up to its own boundary,
//! never past it. This module is the data plus the two bottom-up measurements the layout needs
//! ([`Doc::width`] and [`Doc::write_flat`]).

use vstd::prelude::*;
use vstd::string::StringExecFns;

use crate::strs::{chars_of, find_char, find_char_from, lemma_find_char_props, string_of};

verus! {

/// The width of one character in UTF-16 code units: two for a character outside the basic
/// multilingual plane, one otherwise.
pub open spec fn utf16_units(c: char) -> nat {
    if (c as u32) >= 0x10000 {
        2
    } else {
        1
    }
}

/// The width of `s` in UTF-16 code units.
pub open spec fn utf16_width(s: Seq<char>) -> nat
    decreases s.len(),
{
    if s.len() == 0 {
        0
    } else {
        utf16_width(s.drop_last()) + utf16_units(s.last())
    }
}

/// A width is at most two units a character.
pub proof fn lemma_utf16_width_bound(s: Seq<char>)
    ensures
        utf16_width(s) <= 2 * s.len(),
    decreases s.len(),
{
    if s.len() > 0 {
        lemma_utf16_width_bound(s.drop_last());
    }
}

/// The width of something that can never sit on one line: a forced break, a token holding a
/// newline. Saturating arithmetic keeps it absorbing.
pub open spec fn infinite() -> usize {
    usize::MAX
}

/// The width of `s` as a token: infinite when it spans lines, otherwise its UTF-16 width.
pub open spec fn token_width(s: Seq<char>) -> usize {
    if s.contains('\n') {
        infinite()
    } else {
        utf16_width(s) as usize
    }
}

/// The width of `s` as a comment: its first line's.
pub open spec fn tok_width(s: Seq<char>) -> usize {
    match find_char_from(s, '\n', 0) {
        Some(at) => utf16_width(s.take(at)) as usize,
        None => utf16_width(s) as usize,
    }
}

/// Column measurement.
///
/// google-java-format counts columns in **UTF-16 code units** (`String.length()`), not display
/// cells: a CJK ideograph is width 1 to it, and East-Asian-width tables are never consulted.
pub struct Width;

impl Width {
    /// The sentinel width of something that can never sit on one line.
    pub const INFINITE: usize = usize::MAX;

    /// The width of `text[..end]` in UTF-16 code units.
    fn utf16_prefix(text: &[char], end: usize) -> (r: usize)
        requires
            end <= text@.len(),
            2 * text@.len() <= usize::MAX,
        ensures
            r == utf16_width(text@.take(end as int)),
    {
        let mut total: usize = 0;
        let mut i: usize = 0;
        while i < end
            invariant
                i <= end <= text@.len(),
                2 * text@.len() <= usize::MAX,
                total == utf16_width(text@.take(i as int)),
            decreases end - i,
        {
            proof {
                lemma_utf16_width_bound(text@.take(i as int));
                assert(text@.take(i + 1).drop_last() == text@.take(i as int));
            }
            let c = text[i];
            if (c as u32) >= 0x10000 {
                total = total + 2;
            } else {
                total = total + 1;
            }
            i += 1;
        }
        total
    }

    /// The width of a character sequence in UTF-16 code units.
    pub fn utf16_chars(text: &[char]) -> (r: usize)
        requires
            2 * text@.len() <= usize::MAX,
        ensures
            r == utf16_width(text@),
    {
        assert(text@.take(text@.len() as int) == text@);
        Self::utf16_prefix(text, text.len())
    }

    /// The width of `text` in UTF-16 code units.
    pub fn utf16(text: &str) -> (r: usize)
        requires
            2 * text@.len() <= usize::MAX,
        ensures
            r == utf16_width(text@),
    {
        let chars = chars_of(text);
        assert(chars@.take(chars@.len() as int) == chars@);
        Self::utf16_prefix(&chars, chars.len())
    }

    /// The width of `text` as a *token*: [`INFINITE`](Self::INFINITE) when it spans lines (a
    /// text block, a disabled region), otherwise its UTF-16 width.
    pub fn token(text: &str) -> (r: usize)
        requires
            2 * text@.len() <= usize::MAX,
        ensures
            r == token_width(text@),
    {
        let chars = chars_of(text);
        match find_char(&chars, '\n', 0) {
            Some(_) => {
                proof {
                    lemma_find_char_props(chars@, '\n', 0);
                }
                Self::INFINITE
            },
            None => {
                proof {
                    lemma_find_char_props(chars@, '\n', 0);
                }
                assert(chars@.take(chars@.len() as int) == chars@);
                Self::utf16_prefix(&chars, chars.len())
            },
        }
    }

    /// The width of `text` as a *comment*: its first line.
    ///
    /// A `//` comment swallows the rest of its line, but that is enforced by forcing the break
    /// that follows it, not by making it infinitely wide: measuring it as infinite would poison
    /// every enclosing level, so a trailing `// note` would change the layout of the code it
    /// annotates.
    pub fn tok(text: &str) -> (r: usize)
        requires
            2 * text@.len() <= usize::MAX,
        ensures
            r == tok_width(text@),
    {
        let chars = chars_of(text);
        match find_char(&chars, '\n', 0) {
            Some(at) => {
                proof {
                    lemma_find_char_props(chars@, '\n', 0);
                }
                Self::utf16_prefix(&chars, at)
            },
            None => {
                assert(chars@.take(chars@.len() as int) == chars@);
                Self::utf16_prefix(&chars, chars.len())
            },
        }
    }
}

/// A correlated-break label: a [`Break`] may carry one, and once that break is decided an
/// [`Indent::If`] elsewhere in the document can read the decision.
#[derive(Debug, Clone, Copy, PartialEq, Eq, Structural)]
pub struct BreakTag(pub u32);

/// How a [`Break`] participates in its level's decision.
#[derive(Debug, Clone, Copy, PartialEq, Eq, Structural)]
pub enum FillMode {
    /// All-or-nothing: if the level does not fit flat, every unified break in it goes.
    Unified,
    /// Fill: this break goes only when the next chunk would not fit.
    Independent,
    /// Always breaks, and makes the level's width infinite so it can never be flat.
    Forced,
}

/// An indent amount: google-java-format's `Indent.If` makes an amount conditional on whether a
/// tagged break was taken.
#[derive(Debug)]
pub enum Indent {
    /// A fixed number of columns.
    Const(i32),
    /// `broken` columns when `tag`'s break was taken, `flat` otherwise.
    If {
        /// The break whose decision selects the branch.
        tag: BreakTag,
        /// Used when that break was taken.
        broken: Box<Indent>,
        /// Used when it was not.
        flat: Box<Indent>,
    },
}

impl Indent {
    /// No extra indent.
    pub fn zero() -> (r: Self)
        ensures
            r == Indent::Const(0),
    {
        Indent::Const(0)
    }

    /// A fixed amount.
    pub fn columns(n: i32) -> (r: Self)
        ensures
            r == Indent::Const(n),
    {
        Indent::Const(n)
    }

    /// `broken` columns when `tag`'s break was taken, `flat` otherwise.
    pub fn when_broken(tag: BreakTag, broken: Self, flat: Self) -> (r: Self)
        ensures
            r == (Indent::If { tag, broken: Box::new(broken), flat: Box::new(flat) }),
    {
        Indent::If { tag, broken: Box::new(broken), flat: Box::new(flat) }
    }
}

/// A break point: `flat` is emitted when the break is *not* taken; `plus_indent` is added to the
/// enclosing level's indent when it *is*.
#[derive(Debug)]
pub struct Break {
    /// How this break participates in its level's decision.
    pub fill: FillMode,
    /// Text emitted when the break is not taken.
    pub flat: String,
    /// Extra columns for the line this break starts.
    pub plus_indent: Indent,
    /// Optional label, so an [`Indent::If`] can read this break's decision.
    pub tag: Option<BreakTag>,
    /// Empty lines emitted in addition to this break's own newline.
    pub blank_lines: usize,
    /// Whether the layout took this break.
    pub broken: bool,
    /// The indent of the line this break starts, once taken.
    pub new_indent: usize,
}

impl Break {
    /// A break not yet decided.
    pub fn new(fill: FillMode, flat: &str, plus_indent: Indent, tag: Option<BreakTag>) -> (r: Self)
        ensures
            r.fill == fill,
            r.flat@ == flat@,
            r.plus_indent == plus_indent,
            r.tag == tag,
            r.blank_lines == 0,
            !r.broken,
            r.new_indent == 0,
    {
        Break {
            fill,
            flat: string_of(&chars_of(flat)),
            plus_indent,
            tag,
            blank_lines: 0,
            broken: false,
            new_indent: 0,
        }
    }

    /// Whether this break always goes.
    pub fn is_forced(&self) -> (r: bool)
        ensures
            r == (self.fill == FillMode::Forced),
    {
        matches!(self.fill, FillMode::Forced)
    }

    /// The break's width: infinite when forced, otherwise its flat text's.
    pub open spec fn measure(&self) -> usize {
        if self.fill == FillMode::Forced {
            infinite()
        } else {
            utf16_width(self.flat@) as usize
        }
    }

    /// The break's width: infinite when forced, otherwise its flat text's.
    pub fn width(&self) -> (r: usize)
        requires
            2 * self.flat@.len() <= usize::MAX,
        ensures
            r == self.measure(),
    {
        if self.is_forced() {
            Width::INFINITE
        } else {
            Width::utf16(self.flat.as_str())
        }
    }
}

/// A group with its own indent; its width is precomputed when it is closed.
#[derive(Debug)]
pub struct Level {
    /// Extra indent for the lines this level's breaks start.
    pub plus_indent: Indent,
    /// The children.
    pub docs: Vec<Doc>,
    /// The flat width of the children, saturating at infinite.
    pub width: usize,
    /// Whether the layout kept this level on one line.
    pub one_line: bool,
}

impl Level {
    /// An empty, unmeasured level.
    pub fn new(plus_indent: Indent) -> (r: Self)
        ensures
            r.plus_indent == plus_indent,
            r.docs@.len() == 0,
            r.width == 0,
            !r.one_line,
    {
        Level { plus_indent, docs: Vec::new(), width: 0, one_line: false }
    }
}

/// The layout document.
#[derive(Debug)]
pub enum Doc {
    /// A group.
    Level(Level),
    /// One significant token's text.
    Token {
        /// The token text.
        text: String,
    },
    /// A break point.
    Break(Break),
    /// A non-breaking space.
    Space,
    /// Verbatim text that may contain newlines.
    Tok {
        /// The text.
        text: String,
        /// Whether the text is a comment the layout may re-indent.
        reindent: bool,
    },
}

/// `a + b`, saturating at infinite.
pub open spec fn saturating_sum(a: usize, b: usize) -> usize {
    if a + b > usize::MAX {
        usize::MAX
    } else {
        (a + b) as usize
    }
}

impl Doc {
    /// A significant token.
    pub fn token(text: &str) -> (r: Self)
        ensures
            r matches Doc::Token { text: t } && t@ == text@,
    {
        Doc::Token { text: string_of(&chars_of(text)) }
    }

    /// A comment the layout may re-indent.
    pub fn comment(text: &str) -> (r: Self)
        ensures
            r matches Doc::Tok { text: t, reindent } && t@ == text@ && reindent,
    {
        Doc::Tok { text: string_of(&chars_of(text)), reindent: true }
    }

    /// Verbatim text the layout must not touch.
    pub fn verbatim(text: &str) -> (r: Self)
        ensures
            r matches Doc::Tok { text: t, reindent } && t@ == text@ && !reindent,
    {
        Doc::Tok { text: string_of(&chars_of(text)), reindent: false }
    }

    /// Whether every text the document's top holds is short enough to measure.
    pub open spec fn measurable(&self) -> bool {
        match self {
            Doc::Token { text } => 2 * text@.len() <= usize::MAX,
            Doc::Tok { text, .. } => 2 * text@.len() <= usize::MAX,
            Doc::Break(brk) => 2 * brk.flat@.len() <= usize::MAX,
            _ => true,
        }
    }

    /// The flat width of this document: a level's precomputed width, a token's width, a
    /// break's width, one for a space, and a comment's first line.
    pub open spec fn measure(&self) -> usize {
        match self {
            Doc::Level(level) => level.width,
            Doc::Token { text } => token_width(text@),
            Doc::Break(brk) => brk.measure(),
            Doc::Space => 1,
            Doc::Tok { text, .. } => tok_width(text@),
        }
    }

    /// The flat width of this document.
    pub fn width(&self) -> (r: usize)
        requires
            self.measurable(),
        ensures
            r == self.measure(),
    {
        match self {
            Doc::Level(level) => level.width,
            Doc::Token { text } => Width::token(text.as_str()),
            Doc::Break(brk) => brk.width(),
            Doc::Space => 1,
            Doc::Tok { text, .. } => Width::tok(text.as_str()),
        }
    }

    /// The summed widths of `docs`, saturating at infinite.
    pub open spec fn measure_all(docs: Seq<Doc>) -> usize
        decreases docs.len(),
    {
        if docs.len() == 0 {
            0
        } else {
            saturating_sum(Self::measure_all(docs.drop_last()), docs.last().measure())
        }
    }

    /// Summing never shrinks a width.
    proof fn lemma_measure_all_grows(docs: Seq<Doc>, i: int)
        requires
            0 <= i < docs.len(),
        ensures
            Self::measure_all(docs) >= docs[i].measure(),
        decreases docs.len(),
    {
        if i < docs.len() - 1 {
            Self::lemma_measure_all_grows(docs.drop_last(), i);
            assert(docs.drop_last()[i] == docs[i]);
        }
    }

    /// An infinite child makes the run infinite: the summed width of documents one of which is
    /// [`infinite`] is infinite, whatever the others measure.
    pub proof fn law_an_infinite_child_makes_the_run_infinite(docs: Seq<Doc>, i: int)
        requires
            0 <= i < docs.len(),
            docs[i].measure() == infinite(),
        ensures
            Self::measure_all(docs) == infinite(),
    {
        Self::lemma_measure_all_grows(docs, i);
    }

    /// The summed widths of `docs`, saturating at infinite, so one infinite child makes the
    /// whole run infinite.
    pub fn width_of(docs: &[Self]) -> (r: usize)
        requires
            forall|i: int| 0 <= i < docs@.len() ==> #[trigger] docs@[i].measurable(),
        ensures
            r == Self::measure_all(docs@),
    {
        let mut total: usize = 0;
        let mut i: usize = 0;
        while i < docs.len()
            invariant
                i <= docs@.len(),
                forall|j: int| 0 <= j < docs@.len() ==> #[trigger] docs@[j].measurable(),
                total == Self::measure_all(docs@.take(i as int)),
            decreases docs@.len() - i,
        {
            assert(docs@.take(i + 1).drop_last() == docs@.take(i as int));
            let w = docs[i].width();
            total = total.saturating_add(w);
            i += 1;
        }
        assert(docs@.take(docs@.len() as int) == docs@);
        total
    }

    /// The text this document prints when nothing in it breaks.
    pub open spec fn flat_text(&self) -> Seq<char>
        decreases self,
    {
        match self {
            Doc::Level(level) => Self::flat_all(level.docs@),
            Doc::Token { text } => text@,
            Doc::Tok { text, .. } => text@,
            Doc::Break(brk) => brk.flat@,
            Doc::Space => seq![' '],
        }
    }

    /// The flat texts of `docs`, in order.
    pub open spec fn flat_all(docs: Seq<Doc>) -> Seq<char>
        decreases docs,
    {
        if docs.len() == 0 {
            Seq::empty()
        } else {
            Self::flat_all(docs.drop_last()) + docs.last().flat_text()
        }
    }

    /// Append the text this document prints when nothing in it breaks.
    pub fn write_flat(&self, out: &mut String)
        ensures
            final(out)@ == old(out)@ + self.flat_text(),
        decreases self,
    {
        match self {
            Doc::Level(level) => {
                let ghost start = out@;
                let mut i: usize = 0;
                assert(level.docs@.take(0) =~= Seq::<Doc>::empty());
                while i < level.docs.len()
                    invariant
                        i <= level.docs@.len(),
                        *self == Doc::Level(*level),
                        out@ == start + Self::flat_all(level.docs@.take(i as int)),
                    decreases level.docs@.len() - i,
                {
                    assert(level.docs@.take(i + 1).drop_last() == level.docs@.take(i as int));
                    proof {
                        assert(decreases_to!(*self => (*self)->Level_0));
                        assert(decreases_to!(level => level.docs));
                        assert(decreases_to!(level.docs => level.docs@));
                        assert(decreases_to!(level.docs@ => level.docs@[i as int]));
                    }
                    level.docs[i].write_flat(out);
                    assert(out@ =~= start + Self::flat_all(level.docs@.take(i + 1)));
                    i += 1;
                }
                assert(level.docs@.take(level.docs@.len() as int) == level.docs@);
                assert(self.flat_text() == Self::flat_all(level.docs@));
            },
            Doc::Token { text } => out.append(text.as_str()),
            Doc::Tok { text, .. } => out.append(text.as_str()),
            Doc::Break(brk) => out.append(brk.flat.as_str()),
            Doc::Space => {
                proof {
                    reveal_strlit(" ");
                }
                out.append(" ");
            },
        }
    }
}

} // verus!
