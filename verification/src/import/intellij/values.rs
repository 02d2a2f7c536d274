//! The value vocabularies an IntelliJ code-style setting can take, in **both** of its
//! representations.
//!
//! The same setting is a raw integer in a scheme XML and a named token in `.editorconfig`, and
//! the integer→token table is **per property** — `*_WRAP`, `*_BRACE_STYLE`, and `*_BRACE_FORCE`
//! each have their own, and reusing one for another is the classic import bug. Each type below
//! therefore carries its own table and accepts either spelling, so the models can be keyed by
//! the XML name while still reading an `.editorconfig`. Every value is read from the setting's
//! text trimmed, and matched case-sensitively.

use vstd::prelude::*;

use crate::config::{BraceStyle, ForceBraces, WrapPolicy};
use crate::import::kv::KvMap;
use crate::import::serde_kv::{is_token, lookup, Kv, Token};
use crate::strs::{
    find_char, find_char_from, lemma_find_char_props, push_range, string_of, trim, trim_bounds,
};

verus! {

/// A `*_WRAP` value.
///
/// The token names are counter-intuitive and are the reason this is an enum rather than an
/// integer: [`SplitIntoLines`](Self::SplitIntoLines) is IntelliJ's *Wrap Always*, while
/// [`OnEveryItem`](Self::OnEveryItem) is *Chop Down If Long*.
#[derive(Debug, Clone, Copy, PartialEq, Eq, Structural)]
pub enum IjWrap {
    /// `off` / `0` — Do Not Wrap.
    Off,
    /// `normal` / `1` — Wrap If Long.
    Normal,
    /// `split_into_lines` / `2` — Wrap Always.
    SplitIntoLines,
    /// `on_every_item` / `4` (and the lossy duplicate `5`) — Chop Down If Long.
    OnEveryItem,
}

impl Token for IjWrap {
    open spec fn spec_from_token(t: Seq<char>) -> Option<Self> {
        if t == "off"@ || t == "0"@ {
            Some(IjWrap::Off)
        } else if t == "normal"@ || t == "1"@ {
            Some(IjWrap::Normal)
        } else if t == "split_into_lines"@ || t == "2"@ {
            Some(IjWrap::SplitIntoLines)
        } else if t == "on_every_item"@ || t == "4"@ || t == "5"@ {
            Some(IjWrap::OnEveryItem)
        } else {
            None
        }
    }

    fn from_token(t: &[char]) -> (r: Option<Self>) {
        Self::parse(t)
    }
}

impl IjWrap {
    /// Parse either representation. `5` round-trips back out as `4`; IntelliJ itself loses the
    /// distinction.
    pub fn parse(value: &[char]) -> (r: Option<Self>)
        ensures
            r == Self::spec_from_token(value@),
    {
        if is_token(value, "off") || is_token(value, "0") {
            Some(IjWrap::Off)
        } else if is_token(value, "normal") || is_token(value, "1") {
            Some(IjWrap::Normal)
        } else if is_token(value, "split_into_lines") || is_token(value, "2") {
            Some(IjWrap::SplitIntoLines)
        } else if is_token(value, "on_every_item") || is_token(value, "4") || is_token(value, "5") {
            Some(IjWrap::OnEveryItem)
        } else {
            None
        }
    }

    /// The jals wrap policy this value denotes.
    pub open spec fn jals(self) -> WrapPolicy {
        match self {
            IjWrap::Off => WrapPolicy::Never,
            IjWrap::Normal => WrapPolicy::IfLong,
            IjWrap::OnEveryItem => WrapPolicy::IfLongPerItem,
            IjWrap::SplitIntoLines => WrapPolicy::AlwaysPerItem,
        }
    }

    /// The jals wrap policy this value denotes.
    pub fn to_jals(self) -> (r: WrapPolicy)
        ensures
            r == self.jals(),
    {
        match self {
            IjWrap::Off => WrapPolicy::Never,
            IjWrap::Normal => WrapPolicy::IfLong,
            IjWrap::OnEveryItem => WrapPolicy::IfLongPerItem,
            IjWrap::SplitIntoLines => WrapPolicy::AlwaysPerItem,
        }
    }
}

/// A `*_BRACE_STYLE` value.
#[derive(Debug, Clone, Copy, PartialEq, Eq, Structural)]
pub enum IjBraceStyle {
    /// `end_of_line` / `1` — K&R.
    EndOfLine,
    /// `next_line` / `2` — Allman.
    NextLine,
    /// `whitesmiths` / `3` — brace and body both shifted.
    Whitesmiths,
    /// `gnu` / `4` — braces shifted, body not.
    Gnu,
    /// `next_line_if_wrapped` / `5`.
    NextLineIfWrapped,
}

impl Token for IjBraceStyle {
    open spec fn spec_from_token(t: Seq<char>) -> Option<Self> {
        if t == "end_of_line"@ || t == "1"@ {
            Some(IjBraceStyle::EndOfLine)
        } else if t == "next_line"@ || t == "2"@ {
            Some(IjBraceStyle::NextLine)
        } else if t == "whitesmiths"@ || t == "3"@ {
            Some(IjBraceStyle::Whitesmiths)
        } else if t == "gnu"@ || t == "4"@ {
            Some(IjBraceStyle::Gnu)
        } else if t == "next_line_if_wrapped"@ || t == "5"@ {
            Some(IjBraceStyle::NextLineIfWrapped)
        } else {
            None
        }
    }

    fn from_token(t: &[char]) -> (r: Option<Self>) {
        Self::parse(t)
    }
}

impl IjBraceStyle {
    /// Parse either representation.
    pub fn parse(value: &[char]) -> (r: Option<Self>)
        ensures
            r == Self::spec_from_token(value@),
    {
        if is_token(value, "end_of_line") || is_token(value, "1") {
            Some(IjBraceStyle::EndOfLine)
        } else if is_token(value, "next_line") || is_token(value, "2") {
            Some(IjBraceStyle::NextLine)
        } else if is_token(value, "whitesmiths") || is_token(value, "3") {
            Some(IjBraceStyle::Whitesmiths)
        } else if is_token(value, "gnu") || is_token(value, "4") {
            Some(IjBraceStyle::Gnu)
        } else if is_token(value, "next_line_if_wrapped") || is_token(value, "5") {
            Some(IjBraceStyle::NextLineIfWrapped)
        } else {
            None
        }
    }

    /// The jals brace style this value denotes.
    pub open spec fn jals(self) -> BraceStyle {
        match self {
            IjBraceStyle::EndOfLine => BraceStyle::SameLine,
            IjBraceStyle::NextLine => BraceStyle::NextLine,
            IjBraceStyle::Whitesmiths => BraceStyle::NextLineShifted,
            IjBraceStyle::Gnu => BraceStyle::NextLineShiftedBraces,
            IjBraceStyle::NextLineIfWrapped => BraceStyle::NextLineOnWrap,
        }
    }

    /// The jals brace style this value denotes.
    pub fn to_jals(self) -> (r: BraceStyle)
        ensures
            r == self.jals(),
    {
        match self {
            IjBraceStyle::EndOfLine => BraceStyle::SameLine,
            IjBraceStyle::NextLine => BraceStyle::NextLine,
            IjBraceStyle::Whitesmiths => BraceStyle::NextLineShifted,
            IjBraceStyle::Gnu => BraceStyle::NextLineShiftedBraces,
            IjBraceStyle::NextLineIfWrapped => BraceStyle::NextLineOnWrap,
        }
    }
}

/// A `*_BRACE_FORCE` value — a third, unrelated table.
#[derive(Debug, Clone, Copy, PartialEq, Eq, Structural)]
pub enum IjForceBraces {
    /// `never` / `0` — `DO_NOT_FORCE`.
    Never,
    /// `if_multiline` / `1` — `FORCE_BRACES_IF_MULTILINE`.
    IfMultiline,
    /// `always` / `3` — `FORCE_BRACES_ALWAYS`.
    Always,
}

impl Token for IjForceBraces {
    open spec fn spec_from_token(t: Seq<char>) -> Option<Self> {
        if t == "never"@ || t == "0"@ {
            Some(IjForceBraces::Never)
        } else if t == "if_multiline"@ || t == "1"@ {
            Some(IjForceBraces::IfMultiline)
        } else if t == "always"@ || t == "3"@ {
            Some(IjForceBraces::Always)
        } else {
            None
        }
    }

    fn from_token(t: &[char]) -> (r: Option<Self>) {
        Self::parse(t)
    }
}

impl IjForceBraces {
    /// Parse either representation.
    pub fn parse(value: &[char]) -> (r: Option<Self>)
        ensures
            r == Self::spec_from_token(value@),
    {
        if is_token(value, "never") || is_token(value, "0") {
            Some(IjForceBraces::Never)
        } else if is_token(value, "if_multiline") || is_token(value, "1") {
            Some(IjForceBraces::IfMultiline)
        } else if is_token(value, "always") || is_token(value, "3") {
            Some(IjForceBraces::Always)
        } else {
            None
        }
    }

    /// The jals brace-forcing policy this value denotes.
    pub open spec fn jals(self) -> ForceBraces {
        match self {
            IjForceBraces::Never => ForceBraces::Never,
            IjForceBraces::IfMultiline => ForceBraces::IfMultiline,
            IjForceBraces::Always => ForceBraces::Always,
        }
    }

    /// The jals brace-forcing policy this value denotes.
    pub fn to_jals(self) -> (r: ForceBraces)
        ensures
            r == self.jals(),
    {
        match self {
            IjForceBraces::Never => ForceBraces::Never,
            IjForceBraces::IfMultiline => ForceBraces::IfMultiline,
            IjForceBraces::Always => ForceBraces::Always,
        }
    }
}

/// `indent_style` (the universal editorconfig key).
#[derive(Debug, Clone, Copy, PartialEq, Eq, Structural)]
pub enum IjIndentStyle {
    /// Spaces.
    Space,
    /// Tabs.
    Tab,
}

impl Token for IjIndentStyle {
    open spec fn spec_from_token(t: Seq<char>) -> Option<Self> {
        if t == "space"@ {
            Some(IjIndentStyle::Space)
        } else if t == "tab"@ {
            Some(IjIndentStyle::Tab)
        } else {
            None
        }
    }

    fn from_token(t: &[char]) -> (r: Option<Self>) {
        if is_token(t, "space") {
            Some(IjIndentStyle::Space)
        } else if is_token(t, "tab") {
            Some(IjIndentStyle::Tab)
        } else {
            None
        }
    }
}

/// `end_of_line` (the universal editorconfig key).
#[derive(Debug, Clone, Copy, PartialEq, Eq, Structural)]
pub enum IjEndOfLine {
    /// `\n`.
    Lf,
    /// `\r\n`.
    Crlf,
    /// `\r` — jals has no bare-CR terminator, so it falls back to LF.
    Cr,
}

impl Token for IjEndOfLine {
    open spec fn spec_from_token(t: Seq<char>) -> Option<Self> {
        if t == "lf"@ {
            Some(IjEndOfLine::Lf)
        } else if t == "crlf"@ {
            Some(IjEndOfLine::Crlf)
        } else if t == "cr"@ {
            Some(IjEndOfLine::Cr)
        } else {
            None
        }
    }

    fn from_token(t: &[char]) -> (r: Option<Self>) {
        if is_token(t, "lf") {
            Some(IjEndOfLine::Lf)
        } else if is_token(t, "crlf") {
            Some(IjEndOfLine::Crlf)
        } else if is_token(t, "cr") {
            Some(IjEndOfLine::Cr)
        } else {
            None
        }
    }
}

/// The editorconfig token a raw XML `LINE_SEPARATOR` value stands for.
pub open spec fn end_of_line_token(value: Seq<char>) -> Option<Seq<char>> {
    if value == seq!['\n'] {
        Some("lf"@)
    } else if value == seq!['\r', '\n'] {
        Some("crlf"@)
    } else if value == seq!['\r'] {
        Some("cr"@)
    } else {
        None
    }
}

impl IjEndOfLine {
    /// Translate a raw XML `LINE_SEPARATOR` value to its editorconfig token.
    pub fn token_from_str(value: &[char]) -> (r: Option<&'static str>)
        ensures
            match r {
                Some(t) => end_of_line_token(value@) == Some(t@),
                None => end_of_line_token(value@) is None,
            },
    {
        if value.len() == 1 && value[0] == '\n' {
            assert(value@ =~= seq!['\n']);
            Some("lf")
        } else if value.len() == 2 && value[0] == '\r' && value[1] == '\n' {
            assert(value@ =~= seq!['\r', '\n']);
            Some("crlf")
        } else if value.len() == 1 && value[0] == '\r' {
            assert(value@ =~= seq!['\r']);
            Some("cr")
        } else {
            proof {
                if value@ == seq!['\n'] || value@ == seq!['\r', '\n'] || value@ == seq!['\r'] {
                    assert(value@.len() >= 1);
                }
            }
            None
        }
    }
}

/// One entry of a `PackageEntryTable`.
#[derive(Debug, Clone, PartialEq, Eq)]
pub enum PackageEntry {
    /// A package prefix. `name` is empty for IntelliJ's "all other imports" catch-all entry.
    Package {
        /// The package name, or empty for the catch-all.
        name: String,
        /// `withSubpackages="true"` — spelled `name.**` in `.editorconfig`, `name.*` without.
        with_subpackages: bool,
        /// `static="true"` — spelled with a leading `$`.
        is_static: bool,
        /// `module="true"` — the "all module imports" row (`import module M;`). IntelliJ's
        /// `.editorconfig` serializer has no token for it, so the XML reader marks it with a
        /// leading `%`, which no package name can start with.
        is_module: bool,
    },
    /// `<emptyLine/>` / `|` — a blank line between groups.
    BlankLine,
}

/// What a [`PackageEntry`] holds, with its name as text.
pub enum EntryView {
    /// A package prefix.
    Package { name: Seq<char>, with_subpackages: bool, is_static: bool, is_module: bool },
    /// A blank line between groups.
    BlankLine,
}

impl View for PackageEntry {
    type V = EntryView;

    open spec fn view(&self) -> EntryView {
        match self {
            PackageEntry::Package { name, with_subpackages, is_static, is_module } => EntryView::Package {
                name: name@,
                with_subpackages: *with_subpackages,
                is_static: *is_static,
                is_module: *is_module,
            },
            PackageEntry::BlankLine => EntryView::BlankLine,
        }
    }
}

/// An ordered `PackageEntryTable` (`IMPORT_LAYOUT_TABLE`, `PACKAGES_TO_USE_IMPORT_ON_DEMAND`).
///
/// XML spells it as `<package .../>` and `<emptyLine/>` children; `.editorconfig` spells it as a
/// comma-separated mini-list (`$*, |, java.**, |, *`). The XML reader lowers its form to the
/// mini-list, so one parser serves both.
#[derive(Debug, Clone, Default, PartialEq, Eq)]
pub struct PackageEntryTable(pub Vec<PackageEntry>);

impl View for PackageEntryTable {
    type V = Seq<EntryView>;

    open spec fn view(&self) -> Seq<EntryView> {
        entries_view(self.0@)
    }
}

/// `s` with every trailing `.` removed.
pub open spec fn strip_dots(s: Seq<char>) -> Seq<char>
    decreases s.len(),
{
    if s.len() > 0 && s.last() == '.' {
        strip_dots(s.drop_last())
    } else {
        s
    }
}

/// Whether an item carries the `%` module marker.
pub open spec fn module_marked(item: Seq<char>) -> bool {
    item.len() > 0 && item[0] == '%'
}

/// An item without its `%` module marker.
pub open spec fn after_module(item: Seq<char>) -> Seq<char> {
    if module_marked(item) {
        item.drop_first()
    } else {
        item
    }
}

/// Whether an item, past its module marker, carries the `$` static marker.
pub open spec fn static_marked(rest: Seq<char>) -> bool {
    rest.len() > 0 && rest[0] == '$'
}

/// An item past both markers.
pub open spec fn body_of(item: Seq<char>) -> Seq<char> {
    let rest = after_module(item);
    if static_marked(rest) {
        rest.drop_first()
    } else {
        rest
    }
}

/// Whether a body ends in `**`.
pub open spec fn double_star(body: Seq<char>) -> bool {
    body.len() >= 2 && body[body.len() - 1] == '*' && body[body.len() - 2] == '*'
}

/// A body without its `**` or `*` suffix.
pub open spec fn stem_of(body: Seq<char>) -> Seq<char> {
    if double_star(body) {
        body.subrange(0, body.len() - 2)
    } else if body.len() >= 1 && body[body.len() - 1] == '*' {
        body.drop_last()
    } else {
        body
    }
}

/// The entry one comma-separated item of the mini-list spells, already trimmed; `None` for an
/// empty item, which is skipped.
pub open spec fn entry_of(item: Seq<char>) -> Option<EntryView> {
    if item.len() == 0 {
        None
    } else if item == seq!['|'] {
        Some(EntryView::BlankLine)
    } else {
        Some(EntryView::Package {
            name: strip_dots(stem_of(body_of(item))),
            with_subpackages: double_star(body_of(item)),
            is_static: static_marked(after_module(item)),
            is_module: module_marked(item),
        })
    }
}

/// The entries an item contributes after trimming: one, or none.
#[verifier::opaque]
pub open spec fn entries_of(item: Seq<char>) -> Seq<EntryView> {
    match entry_of(trim(item)) {
        Some(e) => seq![e],
        None => Seq::empty(),
    }
}

/// The entries of the comma-separated mini-list `s` from index `pos` on, in order.
#[verifier::opaque]
pub open spec fn table_from(s: Seq<char>, pos: int) -> Seq<EntryView>
    decreases s.len() - pos,
{
    if pos < 0 || pos > s.len() {
        Seq::empty()
    } else {
        match find_char_from(s, ',', pos) {
            Some(i) => if pos <= i < s.len() {
                entries_of(s.subrange(pos, i)) + table_from(s, i + 1)
            } else {
                Seq::empty()
            },
            None => entries_of(s.subrange(pos, s.len() as int)),
        }
    }
}

/// One step of [`table_from`]: the item up to the next comma, then the rest.
pub proof fn lemma_table_step(s: Seq<char>, pos: int)
    requires
        0 <= pos <= s.len(),
    ensures
        match find_char_from(s, ',', pos) {
            Some(i) => pos <= i < s.len() && table_from(s, pos) == entries_of(s.subrange(pos, i)) + table_from(s, i + 1),
            None => table_from(s, pos) == entries_of(s.subrange(pos, s.len() as int)),
        },
{
    reveal(table_from);
    lemma_find_char_props(s, ',', pos);
}

/// The entries of the comma-separated mini-list `s`, in order.
pub open spec fn table_spec(s: Seq<char>) -> Seq<EntryView> {
    table_from(s, 0)
}

/// The views of a list of entries.
pub open spec fn entries_view(v: Seq<PackageEntry>) -> Seq<EntryView> {
    v.map_values(|e: PackageEntry| e@)
}

/// A `PackageEntryTable` setting read from the settings map: absent when the setting is missing
/// or its trimmed text is empty.
pub open spec fn lookup_table(m: Map<Seq<char>, Seq<char>>, key: Seq<char>) -> Option<Seq<EntryView>> {
    match lookup(m, key) {
        Some(v) => if trim(v).len() == 0 {
            None
        } else {
            Some(table_spec(trim(v)))
        },
        None => None,
    }
}

/// The view of an optional table.
pub open spec fn opt_table_view(t: Option<PackageEntryTable>) -> Option<Seq<EntryView>> {
    match t {
        Some(table) => Some(table@),
        None => None,
    }
}

impl PackageEntryTable {
    /// The start of `s[a..b]` past its `%` and `$` markers, and which of them it carried.
    fn markers(s: &[char], a: usize, b: usize) -> (r: (bool, bool, usize))
        requires
            a <= b <= s@.len(),
        ensures
            r.0 == module_marked(s@.subrange(a as int, b as int)),
            r.1 == static_marked(after_module(s@.subrange(a as int, b as int))),
            a <= r.2 <= b,
            s@.subrange(r.2 as int, b as int) == body_of(s@.subrange(a as int, b as int)),
    {
        let ghost item = s@.subrange(a as int, b as int);
        let mut start = a;
        let is_module = a < b && s[a] == '%';
        if is_module {
            start += 1;
        }
        assert(s@.subrange(start as int, b as int) == after_module(item));
        let is_static = start < b && s[start] == '$';
        if is_static {
            start += 1;
        }
        (is_module, is_static, start)
    }

    /// The end of the name in `s[start..b]`: before its `**` or `*` suffix and any dots that
    /// precede it; and whether the suffix was `**`.
    fn name_end(s: &[char], start: usize, b: usize) -> (r: (bool, usize))
        requires
            start <= b <= s@.len(),
        ensures
            r.0 == double_star(s@.subrange(start as int, b as int)),
            start <= r.1 <= b,
            s@.subrange(start as int, r.1 as int) == strip_dots(stem_of(s@.subrange(start as int, b as int))),
    {
        let ghost body = s@.subrange(start as int, b as int);
        let double = b - start >= 2 && s[b - 1] == '*' && s[b - 2] == '*';
        let single = !double && b - start >= 1 && s[b - 1] == '*';
        let mut end = if double {
            b - 2
        } else if single {
            b - 1
        } else {
            b
        };
        assert(s@.subrange(start as int, end as int) == stem_of(body));
        while end > start && s[end - 1] == '.'
            invariant
                start <= end <= b <= s@.len(),
                strip_dots(s@.subrange(start as int, end as int)) == strip_dots(stem_of(body)),
            decreases end,
        {
            assert(s@.subrange(start as int, end - 1) == s@.subrange(start as int, end as int).drop_last());
            end -= 1;
        }
        (double, end)
    }

    /// The entry the item `s[lo..hi]` spells, after trimming; `None` for an empty item.
    pub fn entry(s: &[char], lo: usize, hi: usize) -> (r: Option<PackageEntry>)
        requires
            lo <= hi <= s@.len(),
        ensures
            entries_of(s@.subrange(lo as int, hi as int)) == match r {
                Some(e) => seq![e@],
                None => Seq::<EntryView>::empty(),
            },
    {
        reveal(entries_of);
        let (a, b) = trim_bounds(s, lo, hi);
        let ghost item = s@.subrange(a as int, b as int);
        assert(item == trim(s@.subrange(lo as int, hi as int)));
        if a == b {
            return None;
        }
        if b - a == 1 && s[a] == '|' {
            assert(item =~= seq!['|']);
            return Some(PackageEntry::BlankLine);
        }
        proof {
            if item == seq!['|'] {
                assert(item.len() == 1 && item[0] == s@[a as int]);
            }
        }
        let (is_module, is_static, start) = Self::markers(s, a, b);
        let (double, end) = Self::name_end(s, start, b);
        let mut name: Vec<char> = Vec::new();
        push_range(&mut name, s, start, end);
        let e = PackageEntry::Package {
            name: string_of(&name),
            with_subpackages: double,
            is_static,
            is_module,
        };
        assert(entry_of(item) == Some(e@));
        Some(e)
    }

    /// Parse the `.editorconfig` mini-list form: comma-separated items, each trimmed, empty ones
    /// skipped, `|` a blank line, and otherwise an optional `%` module marker, an optional `$`
    /// static marker, a `**` (with subpackages) or `*` suffix, and trailing dots dropped from the
    /// name.
    pub fn parse(value: &[char]) -> (r: Self)
        ensures
            r@ == table_spec(value@),
    {
        let mut entries: Vec<PackageEntry> = Vec::new();
        let mut pos: usize = 0;
        assert(entries_view(entries@) =~= Seq::<EntryView>::empty());
        assert(table_spec(value@) =~= entries_view(entries@) + table_from(value@, 0));
        loop
            invariant
                pos <= value@.len(),
                table_spec(value@) == entries_view(entries@) + table_from(value@, pos as int),
            decreases value@.len() - pos,
        {
            let comma = find_char(value, ',', pos);
            proof {
                lemma_table_step(value@, pos as int);
            }
            let end = match comma {
                Some(i) => i,
                None => value.len(),
            };
            let entry = Self::entry(value, pos, end);
            let ghost before = entries_view(entries@);
            match entry {
                Some(e) => {
                    entries.push(e);
                    assert(entries_view(entries@) =~= before.push(e@));
                },
                None => {},
            }
            match comma {
                Some(i) => {
                    assert(find_char_from(value@, ',', pos as int) == Some(i as int));
                    assert(i < value.len());
                    assert(table_spec(value@) =~= entries_view(entries@) + table_from(value@, i + 1));
                    pos = i + 1;
                },
                None => {
                    assert(table_spec(value@) =~= entries_view(entries@));
                    return PackageEntryTable(entries);
                },
            }
        }
    }

    /// A `PackageEntryTable` setting read from the settings map: absent when the setting is
    /// missing or its trimmed text is empty.
    pub fn field(m: &KvMap, key: &str) -> (r: Option<PackageEntryTable>)
        ensures
            opt_table_view(r) == lookup_table(m@, key@),
    {
        match m.get_str(key) {
            Some(raw) => {
                let value = Kv::read(raw);
                if value.len() == 0 {
                    None
                } else {
                    Some(Self::parse(&value))
                }
            },
            None => None,
        }
    }
}

} // verus!
