//! The value vocabularies an Eclipse JDT setting can take.
//!
//! Every family module types its fields with one of these rather than with a `String`, so two
//! distinct native values can never collapse before the projection decides. The vocabularies are
//! those `DefaultCodeFormatterConstants` documents for each option.

use vstd::prelude::*;

use crate::config::{BraceStyle, KeepOnOneLine, ParenPositions, WrapPolicy};
use crate::import::kv::KvMap;
use crate::import::serde_kv::{is_token, lookup_u32, Kv, Token};

verus! {

/// `tabulation.char` — what an indentation level is made of.
#[derive(Debug, Clone, Copy, PartialEq, Eq, Structural)]
pub enum TabChar {
    /// Real tab characters.
    Tab,
    /// Spaces.
    Space,
    /// Tabs to the last full stop, spaces for the remainder. The one mode in which
    /// `indentation.size` and `tabulation.size` differ.
    Mixed,
}

impl Token for TabChar {
    open spec fn spec_from_token(t: Seq<char>) -> Option<Self> {
        if t == "tab"@ {
            Some(TabChar::Tab)
        } else if t == "space"@ {
            Some(TabChar::Space)
        } else if t == "mixed"@ {
            Some(TabChar::Mixed)
        } else {
            None
        }
    }

    fn from_token(t: &[char]) -> (r: Option<Self>) {
        if is_token(t, "tab") {
            Some(TabChar::Tab)
        } else if is_token(t, "space") {
            Some(TabChar::Space)
        } else if is_token(t, "mixed") {
            Some(TabChar::Mixed)
        } else {
            None
        }
    }
}

/// A `brace_position_for_*` value.
#[derive(Debug, Clone, Copy, PartialEq, Eq, Structural)]
pub enum BracePosition {
    /// K&R — the brace ends the header line.
    EndOfLine,
    /// Allman — the brace on its own line.
    NextLine,
    /// The brace on its own line, indented one extra level (Whitesmiths).
    NextLineShifted,
    /// On its own line only when the header wrapped.
    NextLineOnWrap,
}

impl Token for BracePosition {
    open spec fn spec_from_token(t: Seq<char>) -> Option<Self> {
        if t == "end_of_line"@ {
            Some(BracePosition::EndOfLine)
        } else if t == "next_line"@ {
            Some(BracePosition::NextLine)
        } else if t == "next_line_shifted"@ {
            Some(BracePosition::NextLineShifted)
        } else if t == "next_line_on_wrap"@ {
            Some(BracePosition::NextLineOnWrap)
        } else {
            None
        }
    }

    fn from_token(t: &[char]) -> (r: Option<Self>) {
        if is_token(t, "end_of_line") {
            Some(BracePosition::EndOfLine)
        } else if is_token(t, "next_line") {
            Some(BracePosition::NextLine)
        } else if is_token(t, "next_line_shifted") {
            Some(BracePosition::NextLineShifted)
        } else if is_token(t, "next_line_on_wrap") {
            Some(BracePosition::NextLineOnWrap)
        } else {
            None
        }
    }
}

impl BracePosition {
    /// The jals brace style this position denotes.
    pub open spec fn jals(self) -> BraceStyle {
        match self {
            BracePosition::EndOfLine => BraceStyle::SameLine,
            BracePosition::NextLine => BraceStyle::NextLine,
            BracePosition::NextLineShifted => BraceStyle::NextLineShifted,
            BracePosition::NextLineOnWrap => BraceStyle::NextLineOnWrap,
        }
    }

    /// The jals brace style this position denotes.
    pub fn to_jals(self) -> (r: BraceStyle)
        ensures
            r == self.jals(),
    {
        match self {
            BracePosition::EndOfLine => BraceStyle::SameLine,
            BracePosition::NextLine => BraceStyle::NextLine,
            BracePosition::NextLineShifted => BraceStyle::NextLineShifted,
            BracePosition::NextLineOnWrap => BraceStyle::NextLineOnWrap,
        }
    }
}

/// An `insert_space_*` / `insert_new_line_*` toggle.
///
/// Eclipse spells these `insert` / `do not insert` — note the interior spaces. A two-valued
/// enum, deliberately not a `bool`, so the native spelling stays recoverable.
#[derive(Debug, Clone, Copy, PartialEq, Eq, Structural)]
pub enum Insert {
    /// `insert`.
    Insert,
    /// `do not insert`.
    DoNotInsert,
}

impl Token for Insert {
    open spec fn spec_from_token(t: Seq<char>) -> Option<Self> {
        if t == "insert"@ {
            Some(Insert::Insert)
        } else if t == "do not insert"@ {
            Some(Insert::DoNotInsert)
        } else {
            None
        }
    }

    fn from_token(t: &[char]) -> (r: Option<Self>) {
        if is_token(t, "insert") {
            Some(Insert::Insert)
        } else if is_token(t, "do not insert") {
            Some(Insert::DoNotInsert)
        } else {
            None
        }
    }
}

impl Insert {
    /// Whether this toggle emits the space or newline.
    pub fn is_insert(self) -> (r: bool)
        ensures
            r == (self == Insert::Insert),
    {
        matches!(self, Insert::Insert)
    }
}

/// A `keep_*_on_one_line` value.
#[derive(Debug, Clone, Copy, PartialEq, Eq, Structural)]
pub enum OneLine {
    /// `one_line_never`.
    OneLineNever,
    /// `one_line_if_empty`.
    OneLineIfEmpty,
    /// `one_line_if_single_item`.
    OneLineIfSingleItem,
    /// `one_line_always`.
    OneLineAlways,
    /// `one_line_preserve` — reads the input's line breaks.
    OneLinePreserve,
}

impl Token for OneLine {
    open spec fn spec_from_token(t: Seq<char>) -> Option<Self> {
        if t == "one_line_never"@ {
            Some(OneLine::OneLineNever)
        } else if t == "one_line_if_empty"@ {
            Some(OneLine::OneLineIfEmpty)
        } else if t == "one_line_if_single_item"@ {
            Some(OneLine::OneLineIfSingleItem)
        } else if t == "one_line_always"@ {
            Some(OneLine::OneLineAlways)
        } else if t == "one_line_preserve"@ {
            Some(OneLine::OneLinePreserve)
        } else {
            None
        }
    }

    fn from_token(t: &[char]) -> (r: Option<Self>) {
        if is_token(t, "one_line_never") {
            Some(OneLine::OneLineNever)
        } else if is_token(t, "one_line_if_empty") {
            Some(OneLine::OneLineIfEmpty)
        } else if is_token(t, "one_line_if_single_item") {
            Some(OneLine::OneLineIfSingleItem)
        } else if is_token(t, "one_line_always") {
            Some(OneLine::OneLineAlways)
        } else if is_token(t, "one_line_preserve") {
            Some(OneLine::OneLinePreserve)
        } else {
            None
        }
    }
}

impl OneLine {
    /// The jals one-line policy this value denotes: jals adopted Eclipse's vocabulary, so this is
    /// an exact renaming.
    pub open spec fn jals(self) -> KeepOnOneLine {
        match self {
            OneLine::OneLineNever => KeepOnOneLine::Never,
            OneLine::OneLineIfEmpty => KeepOnOneLine::IfEmpty,
            OneLine::OneLineIfSingleItem => KeepOnOneLine::IfSingleItem,
            OneLine::OneLineAlways => KeepOnOneLine::Always,
            OneLine::OneLinePreserve => KeepOnOneLine::Preserve,
        }
    }

    /// The jals one-line policy this value denotes.
    pub fn to_jals(self) -> (r: KeepOnOneLine)
        ensures
            r == self.jals(),
    {
        match self {
            OneLine::OneLineNever => KeepOnOneLine::Never,
            OneLine::OneLineIfEmpty => KeepOnOneLine::IfEmpty,
            OneLine::OneLineIfSingleItem => KeepOnOneLine::IfSingleItem,
            OneLine::OneLineAlways => KeepOnOneLine::Always,
            OneLine::OneLinePreserve => KeepOnOneLine::Preserve,
        }
    }
}

/// A `parentheses_positions_in_*` value.
#[derive(Debug, Clone, Copy, PartialEq, Eq, Structural)]
pub enum ParenthesisPositions {
    /// `common_lines` — both delimiters share a line with the adjacent item.
    CommonLines,
    /// `separate_lines_if_wrapped`.
    SeparateLinesIfWrapped,
    /// `separate_lines_if_not_empty`.
    SeparateLinesIfNotEmpty,
    /// `separate_lines`.
    SeparateLines,
    /// `preserve_positions` — keeps the source's delimiter placement.
    PreservePositions,
}

impl Token for ParenthesisPositions {
    open spec fn spec_from_token(t: Seq<char>) -> Option<Self> {
        if t == "common_lines"@ {
            Some(ParenthesisPositions::CommonLines)
        } else if t == "separate_lines_if_wrapped"@ {
            Some(ParenthesisPositions::SeparateLinesIfWrapped)
        } else if t == "separate_lines_if_not_empty"@ {
            Some(ParenthesisPositions::SeparateLinesIfNotEmpty)
        } else if t == "separate_lines"@ {
            Some(ParenthesisPositions::SeparateLines)
        } else if t == "preserve_positions"@ {
            Some(ParenthesisPositions::PreservePositions)
        } else {
            None
        }
    }

    fn from_token(t: &[char]) -> (r: Option<Self>) {
        if is_token(t, "common_lines") {
            Some(ParenthesisPositions::CommonLines)
        } else if is_token(t, "separate_lines_if_wrapped") {
            Some(ParenthesisPositions::SeparateLinesIfWrapped)
        } else if is_token(t, "separate_lines_if_not_empty") {
            Some(ParenthesisPositions::SeparateLinesIfNotEmpty)
        } else if is_token(t, "separate_lines") {
            Some(ParenthesisPositions::SeparateLines)
        } else if is_token(t, "preserve_positions") {
            Some(ParenthesisPositions::PreservePositions)
        } else {
            None
        }
    }
}

impl ParenthesisPositions {
    /// The jals delimiter placement this value denotes — an exact renaming, since jals took
    /// Eclipse's vocabulary.
    pub open spec fn jals(self) -> ParenPositions {
        match self {
            ParenthesisPositions::CommonLines => ParenPositions::CommonLines,
            ParenthesisPositions::SeparateLinesIfWrapped => ParenPositions::SeparateLinesIfWrapped,
            ParenthesisPositions::SeparateLinesIfNotEmpty => ParenPositions::SeparateLinesIfNotEmpty,
            ParenthesisPositions::SeparateLines => ParenPositions::SeparateLines,
            ParenthesisPositions::PreservePositions => ParenPositions::Preserve,
        }
    }

    /// The jals delimiter placement this value denotes.
    pub fn to_jals(self) -> (r: ParenPositions)
        ensures
            r == self.jals(),
    {
        match self {
            ParenthesisPositions::CommonLines => ParenPositions::CommonLines,
            ParenthesisPositions::SeparateLinesIfWrapped => ParenPositions::SeparateLinesIfWrapped,
            ParenthesisPositions::SeparateLinesIfNotEmpty => ParenPositions::SeparateLinesIfNotEmpty,
            ParenthesisPositions::SeparateLines => ParenPositions::SeparateLines,
            ParenthesisPositions::PreservePositions => ParenPositions::Preserve,
        }
    }
}

/// A `text_block_indentation` value.
#[derive(Debug, Clone, Copy, PartialEq, Eq, Structural)]
pub enum TextBlockIndentation {
    /// `indent_preserve`.
    IndentPreserve,
    /// `indent_by_one`.
    IndentByOne,
    /// `indent_default`.
    IndentDefault,
    /// `indent_on_column`.
    IndentOnColumn,
}

impl Token for TextBlockIndentation {
    open spec fn spec_from_token(t: Seq<char>) -> Option<Self> {
        if t == "indent_preserve"@ {
            Some(TextBlockIndentation::IndentPreserve)
        } else if t == "indent_by_one"@ {
            Some(TextBlockIndentation::IndentByOne)
        } else if t == "indent_default"@ {
            Some(TextBlockIndentation::IndentDefault)
        } else if t == "indent_on_column"@ {
            Some(TextBlockIndentation::IndentOnColumn)
        } else {
            None
        }
    }

    fn from_token(t: &[char]) -> (r: Option<Self>) {
        if is_token(t, "indent_preserve") {
            Some(TextBlockIndentation::IndentPreserve)
        } else if is_token(t, "indent_by_one") {
            Some(TextBlockIndentation::IndentByOne)
        } else if is_token(t, "indent_default") {
            Some(TextBlockIndentation::IndentDefault)
        } else if is_token(t, "indent_on_column") {
            Some(TextBlockIndentation::IndentOnColumn)
        } else {
            None
        }
    }
}

/// A `true` / `false` setting spelled as Eclipse writes it.
#[derive(Debug, Clone, Copy, PartialEq, Eq, Structural)]
pub enum EclipseBool {
    /// `true`.
    True,
    /// `false`.
    False,
}

impl Token for EclipseBool {
    open spec fn spec_from_token(t: Seq<char>) -> Option<Self> {
        if t == "true"@ {
            Some(EclipseBool::True)
        } else if t == "false"@ {
            Some(EclipseBool::False)
        } else {
            None
        }
    }

    fn from_token(t: &[char]) -> (r: Option<Self>) {
        if is_token(t, "true") {
            Some(EclipseBool::True)
        } else if is_token(t, "false") {
            Some(EclipseBool::False)
        } else {
            None
        }
    }
}

impl EclipseBool {
    /// Whether this is `true`.
    pub fn is_true(self) -> (r: bool)
        ensures
            r == (self == EclipseBool::True),
    {
        matches!(self, EclipseBool::True)
    }
}

/// An `alignment_for_*` value: a decimal integer whose **bits** encode the wrap policy.
///
/// Treating it as an opaque id is the classic mistake — `16` and `49` differ only in flag bits.
/// The split mode lives in [`SPLIT_MASK`](Self::SPLIT_MASK); [`FORCE`](Self::FORCE) turns
/// "wrap when too long" into "always wrap"; [`INDENT_ON_COLUMN`](Self::INDENT_ON_COLUMN) and
/// [`INDENT_BY_ONE`](Self::INDENT_BY_ONE) choose the continuation indent.
#[derive(Debug, Clone, Copy, PartialEq, Eq, Structural)]
pub struct Alignment(pub u32);

impl Alignment {
    /// `M_FORCE` — wrap always, rather than only when too long.
    pub const FORCE: u32 = 1;
    /// `M_INDENT_ON_COLUMN` — align continuations under the opening delimiter's column.
    pub const INDENT_ON_COLUMN: u32 = 2;
    /// `M_INDENT_BY_ONE` — indent continuations by exactly one level.
    pub const INDENT_BY_ONE: u32 = 4;
    /// The bits holding the split mode.
    pub const SPLIT_MASK: u32 = 0x70;
    /// `M_NO_ALIGNMENT` — never wrap at this position.
    pub const NO_ALIGNMENT: u32 = 0;
    /// `M_COMPACT_SPLIT` — fill as many items per line as fit.
    pub const COMPACT: u32 = 16;
    /// `M_COMPACT_FIRST_BREAK_SPLIT` — like compact, but break before the first element.
    pub const COMPACT_FIRST_BREAK: u32 = 32;
    /// `M_ONE_PER_LINE_SPLIT` — one item per line.
    pub const ONE_PER_LINE: u32 = 48;
    /// `M_NEXT_SHIFTED_SPLIT` — one per line, continuations shifted one level.
    pub const NEXT_SHIFTED: u32 = 64;
    /// `M_NEXT_PER_LINE_SPLIT` — every item after the first on its own line.
    pub const NEXT_PER_LINE: u32 = 80;
    /// `Integer.MAX_VALUE`, Eclipse's "never wrap here" sentinel.
    pub const NEVER: u32 = 0x7fff_ffff;

    /// The split mode bits alone.
    pub open spec fn mode(self) -> u32 {
        self.0 & Self::SPLIT_MASK
    }

    /// Whether wrapping is forced rather than overflow-driven.
    pub open spec fn forced(self) -> bool {
        self.0 != Self::NEVER && (self.0 & Self::FORCE) != 0
    }

    /// Whether this is the never-wrap sentinel.
    pub open spec fn never(self) -> bool {
        self.0 == Self::NEVER
    }

    /// The split mode bits alone.
    pub fn split(self) -> (r: u32)
        ensures
            r == self.mode(),
    {
        self.0 & Self::SPLIT_MASK
    }

    /// Whether wrapping is forced rather than overflow-driven.
    pub fn is_forced(self) -> (r: bool)
        ensures
            r == self.forced(),
    {
        self.0 != Self::NEVER && (self.0 & Self::FORCE) != 0
    }

    /// Whether this is the never-wrap sentinel.
    pub fn is_never(self) -> (r: bool)
        ensures
            r == self.never(),
    {
        self.0 == Self::NEVER
    }

    /// The jals wrap policy these bits denote.
    ///
    /// The never-wrap sentinel and a value with no split bits both mean "do not break here".
    /// Otherwise the split mode picks fill versus one-per-line, and `M_FORCE` promotes
    /// overflow-driven wrapping to unconditional wrapping: a forced fill still means "always
    /// break", which jals spells one-per-line.
    pub open spec fn policy(self) -> WrapPolicy {
        let mode = self.mode();
        if self.never() {
            WrapPolicy::Never
        } else if mode == Self::COMPACT || mode == Self::COMPACT_FIRST_BREAK {
            if self.forced() {
                WrapPolicy::AlwaysPerItem
            } else {
                WrapPolicy::IfLong
            }
        } else if mode == Self::ONE_PER_LINE || mode == Self::NEXT_SHIFTED || mode
            == Self::NEXT_PER_LINE {
            if self.forced() {
                WrapPolicy::AlwaysPerItem
            } else {
                WrapPolicy::IfLongPerItem
            }
        } else {
            WrapPolicy::Never
        }
    }

    /// The jals wrap policy these bits denote.
    pub fn to_jals(self) -> (r: WrapPolicy)
        ensures
            r == self.policy(),
    {
        if self.is_never() {
            return WrapPolicy::Never;
        }
        let split = self.split();
        let per_item = if split == Self::COMPACT || split == Self::COMPACT_FIRST_BREAK {
            false
        } else if split == Self::ONE_PER_LINE || split == Self::NEXT_SHIFTED || split
            == Self::NEXT_PER_LINE {
            true
        } else {
            // `M_NO_ALIGNMENT`: the position exists but never breaks.
            return WrapPolicy::Never;
        };
        if self.is_forced() {
            WrapPolicy::AlwaysPerItem
        } else if per_item {
            WrapPolicy::IfLongPerItem
        } else {
            WrapPolicy::IfLong
        }
    }

    /// An `alignment_for_*` setting read from the settings map: its decimal text, trimmed.
    pub fn field(m: &KvMap, key: &str) -> (r: Option<Alignment>)
        ensures
            r == lookup_alignment(m@, key@),
    {
        match Kv::field_u32(m, key) {
            Some(bits) => Some(Alignment(bits)),
            None => None,
        }
    }
}

/// An `alignment_for_*` setting read from the settings map.
pub open spec fn lookup_alignment(m: Map<Seq<char>, Seq<char>>, key: Seq<char>) -> Option<Alignment> {
    match lookup_u32(m, key) {
        Some(bits) => Some(Alignment(bits)),
        None => None,
    }
}

} // verus!
