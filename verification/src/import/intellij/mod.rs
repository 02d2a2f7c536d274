//! IntelliJ IDEA importer — the complete Java code-style surface.
//!
//! # Coverage
//!
//! All **297** settings: the 14 `<indentOptions>` fields, the 182 `CommonCodeStyleSettings`
//! fields, the 92 `JavaCodeStyleSettings` fields (including the synthetic `REPEAT_ANNOTATIONS`
//! list accessor), the 6 language-neutral `<code_scheme>` fields, and the 3 EditorConfig core
//! properties IntelliJ honors from outside the scheme.
//!
//! # One model, two spellings
//!
//! IntelliJ writes every setting twice over: an `UPPER_SNAKE` option name with raw integer enums
//! in a scheme XML, and a lowercase `ij_java_*` key with named tokens in `.editorconfig`. The
//! model is keyed by the **XML name**, because that spelling is total — eight `<indentOptions>`
//! settings have no editorconfig key at all — and [`IntellijEditorConfig`] translates through
//! the [`keys`] table. Values accept either spelling: see [`values`], where each of the three
//! *different* int→token tables lives with its own type.
//!
//! # Projection
//!
//! [`IntellijConfig::to_config`] carries the subset with a jals equivalent. What stays here,
//! typed but unprojected: the `ALIGN_MULTILINE_*` column-alignment settings, the naming and
//! code-generation preferences, the classpath-dependent import-on-demand thresholds, and the
//! editor-behavior knobs.

use vstd::prelude::*;

use crate::config::{
    BlankLines as JalsBlankLines, BraceStyle, Braces as JalsBraces, Comments as JalsComments,
    Config, ForceBraces, ImportOrder, Imports, IndentStyle, KeepOnOneLine, Layout, LineEnding,
    ParenPositions, Spacing as JalsSpacing, WrapPolicy, Wrapping as JalsWrapping,
};
use crate::import::kv::KvMap;
use crate::import::text::{editorconfig_spec, EditorConfig};
use crate::import::xml::{document_items, scheme_spec, IntellijSchemeReader};
use crate::import::{
    group_prefix, lemma_one_static_group_kept, one_static_group, or_keep, strings_view,
    with_static, ConfigImporter, ImportError, ImportGroups,
};
use crate::strs::{chars_of, seq_eq};

pub mod blank_lines;
pub mod codegen;
pub mod common;
pub mod general;
pub mod imports;
pub mod indent;
pub mod javadoc;
pub mod keys;
pub mod naming;
pub mod spacing;
pub mod values;
pub mod wrapping;

pub use blank_lines::IntellijBlankLines;
pub use codegen::IntellijCodegen;
pub use common::IntellijCommon;
pub use general::IntellijGeneral;
pub use imports::IntellijImports;
pub use indent::IntellijIndent;
pub use javadoc::IntellijJavadoc;
pub use naming::IntellijNaming;
pub use spacing::IntellijSpacing;
pub use values::{
    EntryView, IjBraceStyle, IjEndOfLine, IjForceBraces, IjIndentStyle, IjWrap, PackageEntry,
    PackageEntryTable,
};
pub use wrapping::IntellijWrapping;

use keys::{key_at, key_pair, KEY_COUNT};
use values::opt_table_view;

verus! {

/// A parsed IntelliJ Java code style, in full.
#[derive(Debug, Clone, Default, PartialEq, Eq)]
pub struct IntellijConfig {
    /// `<indentOptions>`.
    pub indent: IntellijIndent,
    /// The `SPACE_*` / `SPACES_*` settings.
    pub spacing: IntellijSpacing,
    /// The `BLANK_LINES_*` / `KEEP_BLANK_LINES_*` counts.
    pub blank_lines: IntellijBlankLines,
    /// Wrapping, alignment, brace style, brace forcing, and one-line keeping.
    pub wrapping: IntellijWrapping,
    /// The language-common settings belonging to no larger family.
    pub common: IntellijCommon,
    /// The import-layout settings.
    pub imports: IntellijImports,
    /// The Javadoc settings.
    pub javadoc: IntellijJavadoc,
    /// The naming conventions — modeled for completeness, not formatter rules.
    pub naming: IntellijNaming,
    /// The code-generation preferences — modeled for completeness, not formatter rules.
    pub codegen: IntellijCodegen,
    /// The language-neutral scheme settings and EditorConfig core properties.
    pub general: IntellijGeneral,
}

/// The setting name the `.editorconfig` key `k` denotes, searching the table from row `i`.
pub open spec fn name_from(k: Seq<char>, i: int) -> Option<Seq<char>>
    decreases KEY_COUNT - i,
{
    if i < 0 || i >= KEY_COUNT {
        None
    } else if key_pair(i).0 == k {
        Some(key_pair(i).1)
    } else {
        name_from(k, i + 1)
    }
}

/// The setting name the `.editorconfig` key `k` denotes, if any.
pub open spec fn setting_name_spec(k: Seq<char>) -> Option<Seq<char>> {
    name_from(k, 0)
}

/// The settings the first `n` table rows carry over from an `.editorconfig` map: each row whose
/// key the map holds sets its setting name to that value.
pub open spec fn translated_upto(ec: Map<Seq<char>, Seq<char>>, n: int) -> Map<Seq<char>, Seq<char>>
    decreases n,
{
    if n <= 0 {
        Map::empty()
    } else {
        let acc = translated_upto(ec, n - 1);
        let (k, name) = key_pair(n - 1);
        if ec.contains_key(k) {
            acc.insert(name, ec[k])
        } else {
            acc
        }
    }
}

/// The scheme settings an `.editorconfig` map denotes: every key the table knows, renamed to
/// its setting; unknown keys (another language's `ij_kotlin_*`, a key from a newer IDE) are
/// dropped rather than failing the import.
pub open spec fn translated(ec: Map<Seq<char>, Seq<char>>) -> Map<Seq<char>, Seq<char>> {
    translated_upto(ec, KEY_COUNT as int)
}

impl IntellijConfig {
    /// Whether every family holds what the settings map gives its names.
    pub open spec fn reads(&self, m: Map<Seq<char>, Seq<char>>) -> bool {
        &&& self.indent.reads(m)
        &&& self.spacing.reads(m)
        &&& self.blank_lines.reads(m)
        &&& self.wrapping.reads(m)
        &&& self.common.reads(m)
        &&& self.imports.reads(m)
        &&& self.javadoc.reads(m)
        &&& self.naming.reads(m)
        &&& self.codegen.reads(m)
        &&& self.general.reads(m)
    }

    /// Read every family from one flat `setting name → value` map. Every value is read
    /// leniently, so reading never fails.
    pub fn from_pairs(pairs: &KvMap) -> (r: Result<Self, ImportError>)
        ensures
            r matches Ok(c) && c.reads(pairs@),
    {
        Ok(IntellijConfig {
            indent: IntellijIndent::from_map(pairs),
            spacing: IntellijSpacing::from_map(pairs),
            blank_lines: IntellijBlankLines::from_map(pairs),
            wrapping: IntellijWrapping::from_map(pairs),
            common: IntellijCommon::from_map(pairs),
            imports: IntellijImports::from_map(pairs),
            javadoc: IntellijJavadoc::from_map(pairs),
            naming: IntellijNaming::from_map(pairs),
            codegen: IntellijCodegen::from_map(pairs),
            general: IntellijGeneral::from_map(pairs),
        })
    }

    /// The XML option name an `.editorconfig` key denotes, if any.
    pub fn setting_name(editorconfig_key: &str) -> (r: Option<&'static str>)
        ensures
            match r {
                Some(name) => setting_name_spec(editorconfig_key@) == Some(name@),
                None => setting_name_spec(editorconfig_key@) is None,
            },
    {
        let key = chars_of(editorconfig_key);
        let mut i: usize = 0;
        while i < KEY_COUNT
            invariant
                i <= KEY_COUNT,
                key@ == editorconfig_key@,
                setting_name_spec(key@) == name_from(key@, i as int),
            decreases KEY_COUNT - i,
        {
            let (k, name) = key_at(i);
            if seq_eq(&chars_of(k), &key) {
                return Some(name);
            }
            i += 1;
        }
        None
    }

    /// Carry an `.editorconfig` map over to scheme settings, through the key table.
    pub fn translate(ec: &KvMap) -> (r: KvMap)
        ensures
            r@ == translated(ec@),
    {
        let mut out = KvMap::new();
        let mut i: usize = 0;
        while i < KEY_COUNT
            invariant
                i <= KEY_COUNT,
                out@ == translated_upto(ec@, i as int),
            decreases KEY_COUNT - i,
        {
            let (k, name) = key_at(i);
            match ec.get_str(k) {
                Some(value) => {
                    out.insert_chars(chars_of(name), value.clone());
                },
                None => {},
            }
            i += 1;
        }
        out
    }
}

/// A raw IntelliJ integer as a count: a negative value, or one too large for a count, is zero.
pub open spec fn unsigned(value: i64) -> usize {
    if 0 <= value <= usize::MAX {
        value as usize
    } else {
        0
    }
}

/// A width setting: IntelliJ's `-1` "inherit the general setting" sentinel, and a nonsensical
/// `0`, are not widths.
pub open spec fn width_of(value: Option<i64>) -> Option<usize> {
    match value {
        Some(v) => if v > 0 {
            Some(unsigned(v))
        } else {
            None
        },
        None => None,
    }
}

/// The width `value` declares, or `keep`.
pub open spec fn width_or(value: Option<i64>, keep: usize) -> usize {
    or_keep(width_of(value), keep)
}

/// The count `value` declares, or `keep`.
pub open spec fn count_or(value: Option<i64>, keep: usize) -> usize {
    match value {
        Some(v) => unsigned(v),
        None => keep,
    }
}

/// The continuation indent `value` declares, or `keep`.
pub open spec fn continuation_or(value: Option<i64>, keep: Option<usize>) -> Option<usize> {
    match width_of(value) {
        Some(c) => Some(c),
        None => keep,
    }
}

/// The negation of `flag`, or `keep`.
pub open spec fn not_or(flag: Option<bool>, keep: bool) -> bool {
    match flag {
        Some(b) => !b,
        None => keep,
    }
}

/// The indent style `USE_TAB_CHARACTER` and `SMART_TABS` declare, or `keep`: `SMART_TABS` is
/// IntelliJ's name for tabs to the last stop and spaces after.
pub open spec fn tabs_or(tabs: Option<bool>, smart: Option<bool>, keep: IndentStyle) -> IndentStyle {
    match tabs {
        Some(true) => if smart == Some(true) {
            IndentStyle::Mixed
        } else {
            IndentStyle::Tab
        },
        Some(false) => IndentStyle::Space,
        None => keep,
    }
}

/// The line ending a `LINE_SEPARATOR` names: IntelliJ's bare-CR terminator has no jals
/// equivalent and falls back to LF.
pub open spec fn separator_of(sep: Seq<char>) -> LineEnding {
    if sep == "crlf"@ || sep == seq!['\r', '\n'] {
        LineEnding::Crlf
    } else {
        LineEnding::Lf
    }
}

/// The line ending `sep` names, or `keep`.
pub open spec fn separator_or(sep: Option<String>, keep: LineEnding) -> LineEnding {
    match sep {
        Some(s) => separator_of(s@),
        None => keep,
    }
}

/// The brace style `value` denotes, or `keep`.
pub open spec fn ij_brace_or(value: Option<IjBraceStyle>, keep: BraceStyle) -> BraceStyle {
    match value {
        Some(v) => v.jals(),
        None => keep,
    }
}

/// The brace forcing `value` denotes, or `keep`.
pub open spec fn force_or(value: Option<IjForceBraces>, keep: ForceBraces) -> ForceBraces {
    match value {
        Some(v) => v.jals(),
        None => keep,
    }
}

/// The wrap policy `value` denotes, or `keep`.
pub open spec fn wrap_or(value: Option<IjWrap>, keep: WrapPolicy) -> WrapPolicy {
    match value {
        Some(v) => v.jals(),
        None => keep,
    }
}

/// What a `KEEP_SIMPLE_*_IN_ONE_LINE` boolean means: `true` leaves it on one line if the author
/// did, which is `preserve`; `false` always expands.
pub open spec fn keep_policy(value: bool) -> KeepOnOneLine {
    if value {
        KeepOnOneLine::Preserve
    } else {
        KeepOnOneLine::Never
    }
}

/// The one-line policy `value` denotes, or `keep`.
pub open spec fn keep_or(value: Option<bool>, keep: KeepOnOneLine) -> KeepOnOneLine {
    match value {
        Some(v) => keep_policy(v),
        None => keep,
    }
}

/// A `(lparen_on_next_line, rparen_on_next_line)` pair folded onto a delimiter placement, or
/// `keep` when the scheme declared neither: jals has no asymmetric value, so a delimiter on a
/// line of its own on either side is separate lines.
pub open spec fn parens_or(lparen: Option<bool>, rparen: Option<bool>, keep: ParenPositions) -> ParenPositions {
    if lparen is None && rparen is None {
        keep
    } else if lparen == Some(true) || rparen == Some(true) {
        ParenPositions::SeparateLines
    } else {
        ParenPositions::CommonLines
    }
}

/// The jals import groups an `IMPORT_LAYOUT_TABLE` lowers to: blank-line markers dropped, the
/// module row skipped (it selects by project structure, not by name prefix, and would otherwise
/// become a second catch-all), every static entry collapsed into the one static group, and every
/// other package dotted. `java.*` and `java.**` both become `java.`: jals matches by raw prefix.
pub open spec fn groups_of(entries: Seq<EntryView>) -> Seq<Seq<char>>
    decreases entries.len(),
{
    if entries.len() == 0 {
        Seq::empty()
    } else {
        let acc = groups_of(entries.drop_last());
        match entries.last() {
            EntryView::BlankLine => acc,
            EntryView::Package { name, is_static, is_module, .. } => if is_module {
                acc
            } else if is_static {
                with_static(acc)
            } else {
                acc.push(group_prefix(name))
            },
        }
    }
}

impl PackageEntryTable {
    /// Lower an `IMPORT_LAYOUT_TABLE` to jals import-group prefixes.
    pub fn to_jals_groups(&self) -> (r: Vec<String>)
        ensures
            strings_view(r@) == groups_of(self@),
    {
        let mut groups: Vec<String> = Vec::new();
        let mut i: usize = 0;
        assert(self@.take(0) =~= Seq::<EntryView>::empty());
        assert(strings_view(groups@) =~= Seq::<Seq<char>>::empty());
        while i < self.0.len()
            invariant
                i <= self.0@.len(),
                self@.len() == self.0@.len(),
                strings_view(groups@) == groups_of(self@.take(i as int)),
            decreases self.0@.len() - i,
        {
            assert(self@.take(i + 1).drop_last() =~= self@.take(i as int));
            assert(self@.take(i + 1).last() == self.0@[i as int]@);
            match &self.0[i] {
                PackageEntry::BlankLine => {},
                PackageEntry::Package { name, is_static, is_module, .. } => {
                    if *is_module {
                    } else if *is_static {
                        ImportGroups::push_static(&mut groups);
                    } else {
                        let ghost before = strings_view(groups@);
                        let group = ImportGroups::prefix(&chars_of(name.as_str()));
                        groups.push(group);
                        assert(strings_view(groups@) =~= before.push(group@));
                    }
                },
            }
            i += 1;
        }
        assert(self@.take(self@.len() as int) =~= self@);
        groups
    }
}

/// The projection's shapes, grouped so each call site reads as the pair being mapped.
pub struct Lower;

impl Lower {
    /// The value the scheme declared, or `keep` when it declared none.
    pub fn set<T: Copy>(value: Option<T>, keep: T) -> (r: T)
        ensures
            r == or_keep(value, keep),
    {
        match value {
            Some(v) => v,
            None => keep,
        }
    }

    /// The text the scheme declared, or `keep` when it declared none.
    pub fn text(value: &Option<String>, keep: &String) -> (r: String)
        ensures
            r == or_keep(*value, *keep),
    {
        match value {
            Some(v) => v.clone(),
            None => keep.clone(),
        }
    }

    /// Clamp a raw IntelliJ integer to a count, mapping a negative value to zero.
    pub fn unsigned(value: i64) -> (r: usize)
        ensures
            r == unsigned(value),
    {
        if value >= 0 && (value as u64) <= (usize::MAX as u64) {
            value as usize
        } else {
            0
        }
    }

    /// Read a width setting, discarding IntelliJ's `-1` "inherit the general setting" sentinel
    /// (and a nonsensical `0`) rather than lowering it to a zero-column width.
    pub fn width(value: Option<i64>) -> (r: Option<usize>)
        ensures
            r == width_of(value),
    {
        match value {
            Some(v) => if v > 0 {
                Some(Self::unsigned(v))
            } else {
                None
            },
            None => None,
        }
    }

    /// The count the scheme declared, or `keep`.
    pub fn count(value: Option<i64>, keep: usize) -> (r: usize)
        ensures
            r == count_or(value, keep),
    {
        match value {
            Some(v) => Self::unsigned(v),
            None => keep,
        }
    }

    /// The continuation indent the scheme declared, or `keep`.
    pub fn continuation(value: Option<i64>, keep: Option<usize>) -> (r: Option<usize>)
        ensures
            r == continuation_or(value, keep),
    {
        match Self::width(value) {
            Some(c) => Some(c),
            None => keep,
        }
    }

    /// The negation of the flag the scheme declared, or `keep`.
    pub fn negated(value: Option<bool>, keep: bool) -> (r: bool)
        ensures
            r == not_or(value, keep),
    {
        match value {
            Some(v) => !v,
            None => keep,
        }
    }

    /// The indent style the tab settings declare, or `keep`.
    pub fn tabs(tabs: Option<bool>, smart: Option<bool>, keep: IndentStyle) -> (r: IndentStyle)
        ensures
            r == tabs_or(tabs, smart, keep),
    {
        match tabs {
            Some(true) => match smart {
                Some(true) => IndentStyle::Mixed,
                _ => IndentStyle::Tab,
            },
            Some(false) => IndentStyle::Space,
            None => keep,
        }
    }

    /// The line ending the separator names, or `keep`.
    pub fn separator(sep: &Option<String>, keep: LineEnding) -> (r: LineEnding)
        ensures
            r == separator_or(*sep, keep),
    {
        match sep {
            Some(s) => {
                let text = chars_of(s.as_str());
                if seq_eq(&text, &chars_of("crlf")) || (text.len() == 2 && text[0] == '\r' && text[1] == '\n') {
                    proof {
                        if !(text@ == "crlf"@) {
                            assert(text@ =~= seq!['\r', '\n']);
                        }
                    }
                    LineEnding::Crlf
                } else {
                    proof {
                        if text@ == seq!['\r', '\n'] {
                            assert(text@.len() == 2 && text@[0] == '\r' && text@[1] == '\n');
                        }
                    }
                    LineEnding::Lf
                }
            },
            None => keep,
        }
    }

    /// The brace style the scheme declared, or `keep`.
    pub fn brace(value: Option<IjBraceStyle>, keep: BraceStyle) -> (r: BraceStyle)
        ensures
            r == ij_brace_or(value, keep),
    {
        match value {
            Some(v) => v.to_jals(),
            None => keep,
        }
    }

    /// The brace forcing the scheme declared, or `keep`.
    pub fn force(value: Option<IjForceBraces>, keep: ForceBraces) -> (r: ForceBraces)
        ensures
            r == force_or(value, keep),
    {
        match value {
            Some(v) => v.to_jals(),
            None => keep,
        }
    }

    /// Lower one `*_WRAP` onto a jals wrap policy, or `keep`.
    pub fn wrap(value: Option<IjWrap>, keep: WrapPolicy) -> (r: WrapPolicy)
        ensures
            r == wrap_or(value, keep),
    {
        match value {
            Some(v) => v.to_jals(),
            None => keep,
        }
    }

    /// Lower a `KEEP_SIMPLE_*_IN_ONE_LINE` boolean onto the five-valued jals policy: `true` is
    /// `preserve`, the one value that reads the input's line breaks; `false` always expands.
    pub fn keep(value: Option<bool>, keep: KeepOnOneLine) -> (r: KeepOnOneLine)
        ensures
            r == keep_or(value, keep),
    {
        match value {
            Some(true) => KeepOnOneLine::Preserve,
            Some(false) => KeepOnOneLine::Never,
            None => keep,
        }
    }

    /// Lower a `(lparen_on_next_line, rparen_on_next_line)` pair onto a delimiter placement.
    ///
    /// IntelliJ's two booleans have four states; jals's vocabulary has no asymmetric value, so
    /// the two mixed states fold onto separate lines. The declared pair stays visible in the
    /// native model.
    pub fn parens(lparen: Option<bool>, rparen: Option<bool>, keep: ParenPositions) -> (r: ParenPositions)
        ensures
            r == parens_or(lparen, rparen, keep),
    {
        if lparen.is_none() && rparen.is_none() {
            keep
        } else if lparen == Some(true) || rparen == Some(true) {
            ParenPositions::SeparateLines
        } else {
            ParenPositions::CommonLines
        }
    }
}

impl IntellijConfig {
    /// Whether `after` is `before` with this scheme's `[layout]` settings lowered onto it.
    #[verifier::opaque]
    pub open spec fn lowers_layout(&self, before: Layout, after: Layout) -> bool {
        &&& after.indent_style == tabs_or(self.indent.use_tab_character, self.indent.smart_tabs, before.indent_style)
        &&& after.indent_width == width_or(self.indent.indent_size, before.indent_width)
        &&& after.tab_width == width_or(self.indent.tab_size, before.tab_width)
        &&& after.continuation_indent == continuation_or(self.indent.continuation_indent_size, before.continuation_indent)
        &&& after.label_indent == count_or(self.indent.label_indent_size, before.label_indent)
        &&& after.indent_empty_lines == or_keep(self.indent.keep_indents_on_empty_lines, before.indent_empty_lines)
        &&& after.max_width == width_or(self.common.right_margin, before.max_width)
        &&& after.line_ending == separator_or(self.general.line_separator, before.line_ending)
        &&& after.insert_final_newline == or_keep(self.general.insert_final_newline, before.insert_final_newline)
        &&& after.trim_trailing_whitespace == or_keep(self.general.trim_trailing_whitespace, before.trim_trailing_whitespace)
        &&& after.indent_switch_labels == or_keep(self.wrapping.indent_case_from_switch, before.indent_switch_labels)
        &&& after.indent_switch_case_body == or_keep(self.wrapping.indent_break_from_case, before.indent_switch_case_body)
        &&& after.indent_type_members == not_or(self.wrapping.do_not_indent_top_level_class_members, before.indent_type_members)
        &&& after.formatter_tags == or_keep(self.general.formatter_tags_enabled, before.formatter_tags)
        &&& after.formatter_off_tag == or_keep(self.general.formatter_off_tag, before.formatter_off_tag)
        &&& after.formatter_on_tag == or_keep(self.general.formatter_on_tag, before.formatter_on_tag)
    }

    /// Whether `after` is `before` with this scheme's `[blank-lines]` settings lowered onto it.
    #[verifier::opaque]
    pub open spec fn lowers_blank_lines(&self, before: JalsBlankLines, after: JalsBlankLines) -> bool {
        &&& after.max_in_code == count_or(self.blank_lines.keep_blank_lines_in_code, before.max_in_code)
        &&& after.max_in_declarations == count_or(self.blank_lines.keep_blank_lines_in_declarations, before.max_in_declarations)
        &&& after.max_before_closing_brace == count_or(self.blank_lines.keep_blank_lines_before_rbrace, before.max_before_closing_brace)
        &&& after.before_package == count_or(self.blank_lines.blank_lines_before_package, before.before_package)
        &&& after.after_package == count_or(self.blank_lines.blank_lines_after_package, before.after_package)
        &&& after.before_imports == count_or(self.blank_lines.blank_lines_before_imports, before.before_imports)
        &&& after.after_imports == count_or(self.blank_lines.blank_lines_after_imports, before.after_imports)
        &&& after.around_type == count_or(self.blank_lines.blank_lines_around_class, before.around_type)
        &&& after.at_type_body_start == count_or(self.blank_lines.blank_lines_after_class_header, before.at_type_body_start)
        &&& after.at_type_body_end == count_or(self.blank_lines.blank_lines_before_class_end, before.at_type_body_end)
        &&& after.around_field == count_or(self.blank_lines.blank_lines_around_field, before.around_field)
        &&& after.around_method == count_or(self.blank_lines.blank_lines_around_method, before.around_method)
        &&& after.around_field_in_interface == count_or(self.blank_lines.blank_lines_around_field_in_interface, before.around_field_in_interface)
        &&& after.around_method_in_interface == count_or(self.blank_lines.blank_lines_around_method_in_interface, before.around_method_in_interface)
        &&& after.around_initializer == count_or(self.blank_lines.blank_lines_around_initializer, before.around_initializer)
        &&& after.before_method_body == count_or(self.blank_lines.blank_lines_before_method_body, before.before_method_body)
        &&& after.between_switch_groups == count_or(self.blank_lines.blank_lines_between_case_blocks, before.between_switch_groups)
        &&& after.between_import_groups == before.between_import_groups
        &&& after.at_block_start == before.at_block_start
        &&& after.at_block_end == before.at_block_end
        &&& after.around_documented_member == before.around_documented_member
    }

    /// Whether `after` is `before` with this scheme's `[braces]` settings lowered onto it.
    #[verifier::opaque]
    pub open spec fn lowers_braces(&self, before: JalsBraces, after: JalsBraces) -> bool {
        &&& after.type_declaration == ij_brace_or(self.wrapping.class_brace_style, before.type_declaration)
        &&& after.method_declaration == ij_brace_or(self.wrapping.method_brace_style, before.method_declaration)
        &&& after.block == ij_brace_or(self.wrapping.brace_style, before.block)
        &&& after.lambda_body == ij_brace_or(self.wrapping.lambda_brace_style, before.lambda_body)
        &&& after.switch == ij_brace_or(self.wrapping.brace_style, before.switch)
        &&& after.else_on_new_line == or_keep(self.wrapping.else_on_new_line, before.else_on_new_line)
        &&& after.while_on_new_line == or_keep(self.wrapping.while_on_new_line, before.while_on_new_line)
        &&& after.catch_on_new_line == or_keep(self.wrapping.catch_on_new_line, before.catch_on_new_line)
        &&& after.finally_on_new_line == or_keep(self.wrapping.finally_on_new_line, before.finally_on_new_line)
        &&& after.compact_else_if == or_keep(self.wrapping.special_else_if_treatment, before.compact_else_if)
        &&& after.force_if == force_or(self.wrapping.if_brace_force, before.force_if)
        &&& after.force_for == force_or(self.wrapping.for_brace_force, before.force_for)
        &&& after.force_while == force_or(self.wrapping.while_brace_force, before.force_while)
        &&& after.force_do_while == force_or(self.wrapping.dowhile_brace_force, before.force_do_while)
        &&& after.keep_type_body_on_one_line == keep_or(self.wrapping.keep_simple_classes_in_one_line, before.keep_type_body_on_one_line)
        &&& after.keep_method_body_on_one_line == keep_or(self.wrapping.keep_simple_methods_in_one_line, before.keep_method_body_on_one_line)
        &&& after.keep_block_on_one_line == keep_or(self.wrapping.keep_simple_blocks_in_one_line, before.keep_block_on_one_line)
        &&& after.keep_lambda_body_on_one_line == keep_or(self.wrapping.keep_simple_lambdas_in_one_line, before.keep_lambda_body_on_one_line)
        &&& after.keep_control_statement_on_one_line == or_keep(self.wrapping.keep_control_statement_in_one_line, before.keep_control_statement_on_one_line)
        &&& after.array_initializer == before.array_initializer
        &&& after.force_switch_arm == before.force_switch_arm
        &&& after.keep_switch_body_on_one_line == before.keep_switch_body_on_one_line
        &&& after.keep_enum_declaration_on_one_line == before.keep_enum_declaration_on_one_line
        &&& after.keep_record_declaration_on_one_line == before.keep_record_declaration_on_one_line
        &&& after.keep_annotation_declaration_on_one_line == before.keep_annotation_declaration_on_one_line
    }

    /// Whether `after` is `before` with this scheme's `[wrapping]` settings lowered onto it.
    #[verifier::opaque]
    pub open spec fn lowers_wrapping(&self, before: JalsWrapping, after: JalsWrapping) -> bool {
        &&& after.call_arguments == wrap_or(self.wrapping.call_parameters_wrap, before.call_arguments)
        &&& after.method_parameters == wrap_or(self.wrapping.method_parameters_wrap, before.method_parameters)
        &&& after.record_components == wrap_or(self.wrapping.record_components_wrap, before.record_components)
        &&& after.resource_list == wrap_or(self.wrapping.resource_list_wrap, before.resource_list)
        &&& after.throws_list == wrap_or(self.wrapping.throws_list_wrap, before.throws_list)
        &&& after.extends_list == wrap_or(self.wrapping.extends_list_wrap, before.extends_list)
        &&& after.enum_constants == wrap_or(self.wrapping.enum_constants_wrap, before.enum_constants)
        &&& after.array_initializer == wrap_or(self.wrapping.array_initializer_wrap, before.array_initializer)
        &&& after.annotation_arguments == wrap_or(self.wrapping.annotation_parameter_wrap, before.annotation_arguments)
        &&& after.multi_catch_types == wrap_or(self.wrapping.multi_catch_types_wrap, before.multi_catch_types)
        &&& after.deconstruction_list == wrap_or(self.wrapping.deconstruction_list_wrap, before.deconstruction_list)
        &&& after.method_chain == wrap_or(self.wrapping.method_call_chain_wrap, before.method_chain)
        &&& after.binary_operation == wrap_or(self.wrapping.binary_operation_wrap, before.binary_operation)
        &&& after.ternary == wrap_or(self.wrapping.ternary_operation_wrap, before.ternary)
        &&& after.assignment == wrap_or(self.wrapping.assignment_wrap, before.assignment)
        &&& after.for_statement == wrap_or(self.wrapping.for_statement_wrap, before.for_statement)
        &&& after.assert_statement == wrap_or(self.wrapping.assert_statement_wrap, before.assert_statement)
        &&& after.switch_expression == wrap_or(self.wrapping.switch_expressions_wrap, before.switch_expression)
        &&& after.type_annotations == wrap_or(self.wrapping.class_annotation_wrap, before.type_annotations)
        &&& after.method_annotations == wrap_or(self.wrapping.method_annotation_wrap, before.method_annotations)
        &&& after.field_annotations == wrap_or(self.wrapping.field_annotation_wrap, before.field_annotations)
        &&& after.parameter_annotations == wrap_or(self.wrapping.parameter_annotation_wrap, before.parameter_annotations)
        &&& after.variable_annotations == wrap_or(self.wrapping.variable_annotation_wrap, before.variable_annotations)
        &&& after.before_binary_operator == or_keep(self.wrapping.binary_operation_sign_on_next_line, before.before_binary_operator)
        &&& after.before_ternary_operator == or_keep(self.wrapping.ternary_operation_signs_on_next_line, before.before_ternary_operator)
        &&& after.before_assignment_operator == or_keep(self.wrapping.place_assignment_sign_on_next_line, before.before_assignment_operator)
        &&& after.before_assert_colon == or_keep(self.wrapping.assert_statement_colon_on_next_line, before.before_assert_colon)
        &&& after.wrap_first_method_in_chain == or_keep(self.wrapping.wrap_first_method_in_call_chain, before.wrap_first_method_in_chain)
        &&& after.paren_method_declaration == parens_or(self.wrapping.method_parameters_lparen_on_next_line, self.wrapping.method_parameters_rparen_on_next_line, before.paren_method_declaration)
        &&& after.paren_method_invocation == parens_or(self.wrapping.call_parameters_lparen_on_next_line, self.wrapping.call_parameters_rparen_on_next_line, before.paren_method_invocation)
        &&& after.paren_control == parens_or(self.wrapping.for_statement_lparen_on_next_line, self.wrapping.for_statement_rparen_on_next_line, before.paren_control)
        &&& after.paren_annotation == parens_or(self.wrapping.new_line_after_lparen_in_annotation, self.wrapping.rparen_on_new_line_in_annotation, before.paren_annotation)
        &&& after.paren_record == parens_or(self.wrapping.new_line_after_lparen_in_record_header, self.wrapping.rparen_on_new_line_in_record_header, before.paren_record)
        &&& after.join_wrapped_lines == not_or(self.wrapping.keep_line_breaks, before.join_wrapped_lines)
        &&& after.wrap_long_lines == or_keep(self.wrapping.wrap_long_lines, before.wrap_long_lines)
        &&& after.type_arguments == before.type_arguments
        &&& after.type_parameters == before.type_parameters
        &&& after.case_labels == before.case_labels
        &&& after.labeled_statement == before.labeled_statement
        &&& after.import_group == before.import_group
        &&& after.tabular_array_initializers == before.tabular_array_initializers
        &&& after.format_string_arguments == before.format_string_arguments
        &&& after.reflow_long_strings == before.reflow_long_strings
        &&& after.remove_nested_parens == before.remove_nested_parens
        &&& after.paren_lambda == before.paren_lambda
        &&& after.fill_item_width == before.fill_item_width
        &&& after.inline_argumentless_annotations == before.inline_argumentless_annotations
    }

    /// Whether `after` is `before` with this scheme's `[spacing]` settings lowered onto it.
    #[verifier::opaque]
    pub open spec fn lowers_spacing(&self, before: JalsSpacing, after: JalsSpacing) -> bool {
        &&& after.around_assignment_operators == or_keep(self.spacing.space_around_assignment_operators, before.around_assignment_operators)
        &&& after.around_logical_operators == or_keep(self.spacing.space_around_logical_operators, before.around_logical_operators)
        &&& after.around_equality_operators == or_keep(self.spacing.space_around_equality_operators, before.around_equality_operators)
        &&& after.around_relational_operators == or_keep(self.spacing.space_around_relational_operators, before.around_relational_operators)
        &&& after.around_bitwise_operators == or_keep(self.spacing.space_around_bitwise_operators, before.around_bitwise_operators)
        &&& after.around_additive_operators == or_keep(self.spacing.space_around_additive_operators, before.around_additive_operators)
        &&& after.around_multiplicative_operators == or_keep(self.spacing.space_around_multiplicative_operators, before.around_multiplicative_operators)
        &&& after.around_shift_operators == or_keep(self.spacing.space_around_shift_operators, before.around_shift_operators)
        &&& after.around_unary_operator == or_keep(self.spacing.space_around_unary_operator, before.around_unary_operator)
        &&& after.around_lambda_arrow == or_keep(self.spacing.space_around_lambda_arrow, before.around_lambda_arrow)
        &&& after.around_method_ref_double_colon == or_keep(self.spacing.space_around_method_ref_dbl_colon, before.around_method_ref_double_colon)
        &&& after.around_type_bounds == or_keep(self.spacing.space_around_type_bounds_in_type_parameters, before.around_type_bounds)
        &&& after.around_annotation_eq == or_keep(self.spacing.space_around_annotation_eq, before.around_annotation_eq)
        &&& after.before_comma == or_keep(self.spacing.space_before_comma, before.before_comma)
        &&& after.after_comma == or_keep(self.spacing.space_after_comma, before.after_comma)
        &&& after.before_semicolon == or_keep(self.spacing.space_before_semicolon, before.before_semicolon)
        &&& after.after_semicolon == or_keep(self.spacing.space_after_semicolon, before.after_semicolon)
        &&& after.before_method_call_parentheses == or_keep(self.spacing.space_before_method_call_parentheses, before.before_method_call_parentheses)
        &&& after.before_method_parentheses == or_keep(self.spacing.space_before_method_parentheses, before.before_method_parentheses)
        &&& after.before_keyword_parentheses == or_keep(self.spacing.space_before_if_parentheses, before.before_keyword_parentheses)
        &&& after.before_annotation_parentheses == or_keep(self.spacing.space_before_anotation_parameter_list, before.before_annotation_parentheses)
        &&& after.within_method_call_parentheses == or_keep(self.spacing.space_within_method_call_parentheses, before.within_method_call_parentheses)
        &&& after.within_method_parentheses == or_keep(self.spacing.space_within_method_parentheses, before.within_method_parentheses)
        &&& after.within_keyword_parentheses == or_keep(self.spacing.space_within_if_parentheses, before.within_keyword_parentheses)
        &&& after.within_cast_parentheses == or_keep(self.spacing.space_within_cast_parentheses, before.within_cast_parentheses)
        &&& after.within_annotation_parentheses == or_keep(self.spacing.space_within_annotation_parentheses, before.within_annotation_parentheses)
        &&& after.within_brackets == or_keep(self.spacing.space_within_brackets, before.within_brackets)
        &&& after.within_array_initializer_braces == or_keep(self.spacing.space_within_array_initializer_braces, before.within_array_initializer_braces)
        &&& after.within_angle_brackets == or_keep(self.spacing.spaces_within_angle_brackets, before.within_angle_brackets)
        &&& after.within_record_header == or_keep(self.spacing.space_within_record_header, before.within_record_header)
        &&& after.within_empty_parentheses == or_keep(self.spacing.space_within_empty_method_parentheses, before.within_empty_parentheses)
        &&& after.within_empty_braces == or_keep(self.spacing.space_within_empty_array_initializer_braces, before.within_empty_braces)
        &&& after.before_left_brace == or_keep(self.spacing.space_before_class_lbrace, before.before_left_brace)
        &&& after.before_array_initializer_left_brace == or_keep(self.spacing.space_before_array_initializer_lbrace, before.before_array_initializer_left_brace)
        &&& after.before_continuation_keyword == or_keep(self.spacing.space_before_else_keyword, before.before_continuation_keyword)
        &&& after.after_type_cast == or_keep(self.spacing.space_after_type_cast, before.after_type_cast)
        &&& after.before_type_parameter_list == or_keep(self.spacing.space_before_type_parameter_list, before.before_type_parameter_list)
        &&& after.before_ternary_question == or_keep(self.spacing.space_before_quest, before.before_ternary_question)
        &&& after.after_ternary_question == or_keep(self.spacing.space_after_quest, before.after_ternary_question)
        &&& after.before_ternary_colon == or_keep(self.spacing.space_before_colon, before.before_ternary_colon)
        &&& after.after_ternary_colon == or_keep(self.spacing.space_after_colon, before.after_ternary_colon)
        &&& after.before_foreach_colon == or_keep(self.spacing.space_before_colon_in_foreach, before.before_foreach_colon)
        &&& after.after_foreach_colon == before.after_foreach_colon
        &&& after.before_label_colon == before.before_label_colon
        &&& after.after_label_colon == before.after_label_colon
        &&& after.before_case_colon == before.before_case_colon
        &&& after.after_case_colon == before.after_case_colon
        &&& after.before_assert_colon == before.before_assert_colon
        &&& after.after_assert_colon == before.after_assert_colon
    }

    /// Whether `after` is `before` with this scheme's `[comments]` settings lowered onto it.
    #[verifier::opaque]
    pub open spec fn lowers_comments(&self, before: JalsComments, after: JalsComments) -> bool {
        &&& after.format_javadoc == or_keep(self.javadoc.enable_javadoc_formatting, before.format_javadoc)
        &&& after.format_line == or_keep(self.wrapping.wrap_comments, before.format_line)
        &&& after.format_block == or_keep(self.wrapping.wrap_comments, before.format_block)
        &&& after.preserve_blank_lines == or_keep(self.javadoc.jd_keep_empty_lines, before.preserve_blank_lines)
        &&& after.preserve_line_breaks == or_keep(self.javadoc.jd_preserve_line_feeds, before.preserve_line_breaks)
        &&& after.blank_line_before_tags == or_keep(self.javadoc.jd_add_blank_after_description, before.blank_line_before_tags)
        &&& after.align_tag_descriptions == or_keep(self.javadoc.jd_align_param_comments, before.align_tag_descriptions)
        &&& after.indent_tag_description == or_keep(self.javadoc.jd_indent_on_continuation, before.indent_tag_description)
        &&& after.leading_asterisks == or_keep(self.javadoc.jd_leading_asterisks_are_enabled, before.leading_asterisks)
        &&& after.width == width_or(self.common.right_margin, before.width)
        &&& after.format_header == before.format_header
        &&& after.format_html == before.format_html
        &&& after.format_source_in_comments == before.format_source_in_comments
        &&& after.count_width_from_start == before.count_width_from_start
        &&& after.blank_lines_between_tags == before.blank_lines_between_tags
        &&& after.normalize_parameter_comments == before.normalize_parameter_comments
        &&& after.inline_block_comments == before.inline_block_comments
        &&& after.normalize_block_comments == before.normalize_block_comments
        &&& after.reflow_unclosed_html == before.reflow_unclosed_html
        &&& after.javadoc_boundaries_on_own_lines == before.javadoc_boundaries_on_own_lines
        &&& after.block_boundaries_on_own_lines == before.block_boundaries_on_own_lines
        &&& after.break_inside_inline_tags == before.break_inside_inline_tags
        &&& after.set_off_html_lists == before.set_off_html_lists
        &&& after.tables_are_preformatted == before.tables_are_preformatted
        &&& after.code_block_width == before.code_block_width
        &&& after.paragraph_tags == before.paragraph_tags
        &&& after.tag_alignment == before.tag_alignment
    }

    /// Lower this scheme's `[layout]` settings onto `x`.
    pub fn lower_layout(&self, x: &mut Layout)
        ensures
            self.lowers_layout(*old(x), *final(x)),
    {
        reveal(IntellijConfig::lowers_layout);
        *x = Layout {
            indent_style: Lower::tabs(self.indent.use_tab_character, self.indent.smart_tabs, x.indent_style),
            indent_width: Lower::set(Lower::width(self.indent.indent_size), x.indent_width),
            tab_width: Lower::set(Lower::width(self.indent.tab_size), x.tab_width),
            continuation_indent: Lower::continuation(self.indent.continuation_indent_size, x.continuation_indent),
            label_indent: Lower::count(self.indent.label_indent_size, x.label_indent),
            indent_empty_lines: Lower::set(self.indent.keep_indents_on_empty_lines, x.indent_empty_lines),
            max_width: Lower::set(Lower::width(self.common.right_margin), x.max_width),
            line_ending: Lower::separator(&self.general.line_separator, x.line_ending),
            insert_final_newline: Lower::set(self.general.insert_final_newline, x.insert_final_newline),
            trim_trailing_whitespace: Lower::set(self.general.trim_trailing_whitespace, x.trim_trailing_whitespace),
            indent_switch_labels: Lower::set(self.wrapping.indent_case_from_switch, x.indent_switch_labels),
            indent_switch_case_body: Lower::set(self.wrapping.indent_break_from_case, x.indent_switch_case_body),
            indent_type_members: Lower::negated(self.wrapping.do_not_indent_top_level_class_members, x.indent_type_members),
            formatter_tags: Lower::set(self.general.formatter_tags_enabled, x.formatter_tags),
            formatter_off_tag: Lower::text(&self.general.formatter_off_tag, &x.formatter_off_tag),
            formatter_on_tag: Lower::text(&self.general.formatter_on_tag, &x.formatter_on_tag),
            ..*x
        };
    }

    /// Lower this scheme's `[blank-lines]` settings onto `x`.
    pub fn lower_blank_lines(&self, x: &mut JalsBlankLines)
        ensures
            self.lowers_blank_lines(*old(x), *final(x)),
    {
        reveal(IntellijConfig::lowers_blank_lines);
        *x = JalsBlankLines {
            max_in_code: Lower::count(self.blank_lines.keep_blank_lines_in_code, x.max_in_code),
            max_in_declarations: Lower::count(self.blank_lines.keep_blank_lines_in_declarations, x.max_in_declarations),
            max_before_closing_brace: Lower::count(self.blank_lines.keep_blank_lines_before_rbrace, x.max_before_closing_brace),
            before_package: Lower::count(self.blank_lines.blank_lines_before_package, x.before_package),
            after_package: Lower::count(self.blank_lines.blank_lines_after_package, x.after_package),
            before_imports: Lower::count(self.blank_lines.blank_lines_before_imports, x.before_imports),
            after_imports: Lower::count(self.blank_lines.blank_lines_after_imports, x.after_imports),
            around_type: Lower::count(self.blank_lines.blank_lines_around_class, x.around_type),
            at_type_body_start: Lower::count(self.blank_lines.blank_lines_after_class_header, x.at_type_body_start),
            at_type_body_end: Lower::count(self.blank_lines.blank_lines_before_class_end, x.at_type_body_end),
            around_field: Lower::count(self.blank_lines.blank_lines_around_field, x.around_field),
            around_method: Lower::count(self.blank_lines.blank_lines_around_method, x.around_method),
            around_field_in_interface: Lower::count(self.blank_lines.blank_lines_around_field_in_interface, x.around_field_in_interface),
            around_method_in_interface: Lower::count(self.blank_lines.blank_lines_around_method_in_interface, x.around_method_in_interface),
            around_initializer: Lower::count(self.blank_lines.blank_lines_around_initializer, x.around_initializer),
            before_method_body: Lower::count(self.blank_lines.blank_lines_before_method_body, x.before_method_body),
            between_switch_groups: Lower::count(self.blank_lines.blank_lines_between_case_blocks, x.between_switch_groups),
            ..*x
        };
    }

    /// Lower this scheme's `[braces]` settings onto `x`.
    pub fn lower_braces(&self, x: &mut JalsBraces)
        ensures
            self.lowers_braces(*old(x), *final(x)),
    {
        reveal(IntellijConfig::lowers_braces);
        *x = JalsBraces {
            type_declaration: Lower::brace(self.wrapping.class_brace_style, x.type_declaration),
            method_declaration: Lower::brace(self.wrapping.method_brace_style, x.method_declaration),
            block: Lower::brace(self.wrapping.brace_style, x.block),
            lambda_body: Lower::brace(self.wrapping.lambda_brace_style, x.lambda_body),
            switch: Lower::brace(self.wrapping.brace_style, x.switch),
            else_on_new_line: Lower::set(self.wrapping.else_on_new_line, x.else_on_new_line),
            while_on_new_line: Lower::set(self.wrapping.while_on_new_line, x.while_on_new_line),
            catch_on_new_line: Lower::set(self.wrapping.catch_on_new_line, x.catch_on_new_line),
            finally_on_new_line: Lower::set(self.wrapping.finally_on_new_line, x.finally_on_new_line),
            compact_else_if: Lower::set(self.wrapping.special_else_if_treatment, x.compact_else_if),
            force_if: Lower::force(self.wrapping.if_brace_force, x.force_if),
            force_for: Lower::force(self.wrapping.for_brace_force, x.force_for),
            force_while: Lower::force(self.wrapping.while_brace_force, x.force_while),
            force_do_while: Lower::force(self.wrapping.dowhile_brace_force, x.force_do_while),
            keep_type_body_on_one_line: Lower::keep(self.wrapping.keep_simple_classes_in_one_line, x.keep_type_body_on_one_line),
            keep_method_body_on_one_line: Lower::keep(self.wrapping.keep_simple_methods_in_one_line, x.keep_method_body_on_one_line),
            keep_block_on_one_line: Lower::keep(self.wrapping.keep_simple_blocks_in_one_line, x.keep_block_on_one_line),
            keep_lambda_body_on_one_line: Lower::keep(self.wrapping.keep_simple_lambdas_in_one_line, x.keep_lambda_body_on_one_line),
            keep_control_statement_on_one_line: Lower::set(self.wrapping.keep_control_statement_in_one_line, x.keep_control_statement_on_one_line),
            ..*x
        };
    }

    /// Lower this scheme's `[wrapping]` settings onto `x`.
    pub fn lower_wrapping(&self, x: &mut JalsWrapping)
        ensures
            self.lowers_wrapping(*old(x), *final(x)),
    {
        reveal(IntellijConfig::lowers_wrapping);
        *x = JalsWrapping {
            call_arguments: Lower::wrap(self.wrapping.call_parameters_wrap, x.call_arguments),
            method_parameters: Lower::wrap(self.wrapping.method_parameters_wrap, x.method_parameters),
            record_components: Lower::wrap(self.wrapping.record_components_wrap, x.record_components),
            resource_list: Lower::wrap(self.wrapping.resource_list_wrap, x.resource_list),
            throws_list: Lower::wrap(self.wrapping.throws_list_wrap, x.throws_list),
            extends_list: Lower::wrap(self.wrapping.extends_list_wrap, x.extends_list),
            enum_constants: Lower::wrap(self.wrapping.enum_constants_wrap, x.enum_constants),
            array_initializer: Lower::wrap(self.wrapping.array_initializer_wrap, x.array_initializer),
            annotation_arguments: Lower::wrap(self.wrapping.annotation_parameter_wrap, x.annotation_arguments),
            multi_catch_types: Lower::wrap(self.wrapping.multi_catch_types_wrap, x.multi_catch_types),
            deconstruction_list: Lower::wrap(self.wrapping.deconstruction_list_wrap, x.deconstruction_list),
            method_chain: Lower::wrap(self.wrapping.method_call_chain_wrap, x.method_chain),
            binary_operation: Lower::wrap(self.wrapping.binary_operation_wrap, x.binary_operation),
            ternary: Lower::wrap(self.wrapping.ternary_operation_wrap, x.ternary),
            assignment: Lower::wrap(self.wrapping.assignment_wrap, x.assignment),
            for_statement: Lower::wrap(self.wrapping.for_statement_wrap, x.for_statement),
            assert_statement: Lower::wrap(self.wrapping.assert_statement_wrap, x.assert_statement),
            switch_expression: Lower::wrap(self.wrapping.switch_expressions_wrap, x.switch_expression),
            type_annotations: Lower::wrap(self.wrapping.class_annotation_wrap, x.type_annotations),
            method_annotations: Lower::wrap(self.wrapping.method_annotation_wrap, x.method_annotations),
            field_annotations: Lower::wrap(self.wrapping.field_annotation_wrap, x.field_annotations),
            parameter_annotations: Lower::wrap(self.wrapping.parameter_annotation_wrap, x.parameter_annotations),
            variable_annotations: Lower::wrap(self.wrapping.variable_annotation_wrap, x.variable_annotations),
            before_binary_operator: Lower::set(self.wrapping.binary_operation_sign_on_next_line, x.before_binary_operator),
            before_ternary_operator: Lower::set(self.wrapping.ternary_operation_signs_on_next_line, x.before_ternary_operator),
            before_assignment_operator: Lower::set(self.wrapping.place_assignment_sign_on_next_line, x.before_assignment_operator),
            before_assert_colon: Lower::set(self.wrapping.assert_statement_colon_on_next_line, x.before_assert_colon),
            wrap_first_method_in_chain: Lower::set(self.wrapping.wrap_first_method_in_call_chain, x.wrap_first_method_in_chain),
            paren_method_declaration: Lower::parens(self.wrapping.method_parameters_lparen_on_next_line, self.wrapping.method_parameters_rparen_on_next_line, x.paren_method_declaration),
            paren_method_invocation: Lower::parens(self.wrapping.call_parameters_lparen_on_next_line, self.wrapping.call_parameters_rparen_on_next_line, x.paren_method_invocation),
            paren_control: Lower::parens(self.wrapping.for_statement_lparen_on_next_line, self.wrapping.for_statement_rparen_on_next_line, x.paren_control),
            paren_annotation: Lower::parens(self.wrapping.new_line_after_lparen_in_annotation, self.wrapping.rparen_on_new_line_in_annotation, x.paren_annotation),
            paren_record: Lower::parens(self.wrapping.new_line_after_lparen_in_record_header, self.wrapping.rparen_on_new_line_in_record_header, x.paren_record),
            join_wrapped_lines: Lower::negated(self.wrapping.keep_line_breaks, x.join_wrapped_lines),
            wrap_long_lines: Lower::set(self.wrapping.wrap_long_lines, x.wrap_long_lines),
            ..*x
        };
    }

    /// Lower this scheme's `[spacing]` settings onto `x`.
    pub fn lower_spacing(&self, x: &mut JalsSpacing)
        ensures
            self.lowers_spacing(*old(x), *final(x)),
    {
        reveal(IntellijConfig::lowers_spacing);
        *x = JalsSpacing {
            around_assignment_operators: Lower::set(self.spacing.space_around_assignment_operators, x.around_assignment_operators),
            around_logical_operators: Lower::set(self.spacing.space_around_logical_operators, x.around_logical_operators),
            around_equality_operators: Lower::set(self.spacing.space_around_equality_operators, x.around_equality_operators),
            around_relational_operators: Lower::set(self.spacing.space_around_relational_operators, x.around_relational_operators),
            around_bitwise_operators: Lower::set(self.spacing.space_around_bitwise_operators, x.around_bitwise_operators),
            around_additive_operators: Lower::set(self.spacing.space_around_additive_operators, x.around_additive_operators),
            around_multiplicative_operators: Lower::set(self.spacing.space_around_multiplicative_operators, x.around_multiplicative_operators),
            around_shift_operators: Lower::set(self.spacing.space_around_shift_operators, x.around_shift_operators),
            around_unary_operator: Lower::set(self.spacing.space_around_unary_operator, x.around_unary_operator),
            around_lambda_arrow: Lower::set(self.spacing.space_around_lambda_arrow, x.around_lambda_arrow),
            around_method_ref_double_colon: Lower::set(self.spacing.space_around_method_ref_dbl_colon, x.around_method_ref_double_colon),
            around_type_bounds: Lower::set(self.spacing.space_around_type_bounds_in_type_parameters, x.around_type_bounds),
            around_annotation_eq: Lower::set(self.spacing.space_around_annotation_eq, x.around_annotation_eq),
            before_comma: Lower::set(self.spacing.space_before_comma, x.before_comma),
            after_comma: Lower::set(self.spacing.space_after_comma, x.after_comma),
            before_semicolon: Lower::set(self.spacing.space_before_semicolon, x.before_semicolon),
            after_semicolon: Lower::set(self.spacing.space_after_semicolon, x.after_semicolon),
            before_method_call_parentheses: Lower::set(self.spacing.space_before_method_call_parentheses, x.before_method_call_parentheses),
            before_method_parentheses: Lower::set(self.spacing.space_before_method_parentheses, x.before_method_parentheses),
            before_keyword_parentheses: Lower::set(self.spacing.space_before_if_parentheses, x.before_keyword_parentheses),
            before_annotation_parentheses: Lower::set(self.spacing.space_before_anotation_parameter_list, x.before_annotation_parentheses),
            within_method_call_parentheses: Lower::set(self.spacing.space_within_method_call_parentheses, x.within_method_call_parentheses),
            within_method_parentheses: Lower::set(self.spacing.space_within_method_parentheses, x.within_method_parentheses),
            within_keyword_parentheses: Lower::set(self.spacing.space_within_if_parentheses, x.within_keyword_parentheses),
            within_cast_parentheses: Lower::set(self.spacing.space_within_cast_parentheses, x.within_cast_parentheses),
            within_annotation_parentheses: Lower::set(self.spacing.space_within_annotation_parentheses, x.within_annotation_parentheses),
            within_brackets: Lower::set(self.spacing.space_within_brackets, x.within_brackets),
            within_array_initializer_braces: Lower::set(self.spacing.space_within_array_initializer_braces, x.within_array_initializer_braces),
            within_angle_brackets: Lower::set(self.spacing.spaces_within_angle_brackets, x.within_angle_brackets),
            within_record_header: Lower::set(self.spacing.space_within_record_header, x.within_record_header),
            within_empty_parentheses: Lower::set(self.spacing.space_within_empty_method_parentheses, x.within_empty_parentheses),
            within_empty_braces: Lower::set(self.spacing.space_within_empty_array_initializer_braces, x.within_empty_braces),
            before_left_brace: Lower::set(self.spacing.space_before_class_lbrace, x.before_left_brace),
            before_array_initializer_left_brace: Lower::set(self.spacing.space_before_array_initializer_lbrace, x.before_array_initializer_left_brace),
            before_continuation_keyword: Lower::set(self.spacing.space_before_else_keyword, x.before_continuation_keyword),
            after_type_cast: Lower::set(self.spacing.space_after_type_cast, x.after_type_cast),
            before_type_parameter_list: Lower::set(self.spacing.space_before_type_parameter_list, x.before_type_parameter_list),
            before_ternary_question: Lower::set(self.spacing.space_before_quest, x.before_ternary_question),
            after_ternary_question: Lower::set(self.spacing.space_after_quest, x.after_ternary_question),
            before_ternary_colon: Lower::set(self.spacing.space_before_colon, x.before_ternary_colon),
            after_ternary_colon: Lower::set(self.spacing.space_after_colon, x.after_ternary_colon),
            before_foreach_colon: Lower::set(self.spacing.space_before_colon_in_foreach, x.before_foreach_colon),
            ..*x
        };
    }

    /// Lower this scheme's `[comments]` settings onto `x`.
    pub fn lower_comments(&self, x: &mut JalsComments)
        ensures
            self.lowers_comments(*old(x), *final(x)),
    {
        reveal(IntellijConfig::lowers_comments);
        *x = JalsComments {
            format_javadoc: Lower::set(self.javadoc.enable_javadoc_formatting, x.format_javadoc),
            format_line: Lower::set(self.wrapping.wrap_comments, x.format_line),
            format_block: Lower::set(self.wrapping.wrap_comments, x.format_block),
            preserve_blank_lines: Lower::set(self.javadoc.jd_keep_empty_lines, x.preserve_blank_lines),
            preserve_line_breaks: Lower::set(self.javadoc.jd_preserve_line_feeds, x.preserve_line_breaks),
            blank_line_before_tags: Lower::set(self.javadoc.jd_add_blank_after_description, x.blank_line_before_tags),
            align_tag_descriptions: Lower::set(self.javadoc.jd_align_param_comments, x.align_tag_descriptions),
            indent_tag_description: Lower::set(self.javadoc.jd_indent_on_continuation, x.indent_tag_description),
            leading_asterisks: Lower::set(self.javadoc.jd_leading_asterisks_are_enabled, x.leading_asterisks),
            width: Lower::set(Lower::width(self.common.right_margin), x.width),
            ..*x
        };
    }

    /// The import groups the scheme's layout table lowers to; none without a table.
    pub open spec fn layout_groups(&self) -> Seq<Seq<char>> {
        match opt_table_view(self.imports.import_layout_table) {
            Some(t) => groups_of(t),
            None => Seq::empty(),
        }
    }

    /// Whether `after` is `before` with this scheme's `[imports]` settings lowered onto it: a
    /// layout table that names at least one group switches ordering to those groups.
    #[verifier::opaque]
    pub open spec fn lowers_imports(&self, before: Imports, after: Imports) -> bool {
        &&& if self.layout_groups().len() > 0 {
            after.order == ImportOrder::Group && strings_view(after.groups@) == self.layout_groups()
        } else {
            after.order == before.order && after.groups == before.groups
        }
        &&& after.static_first == or_keep(self.imports.layout_static_imports_separately, before.static_first)
        &&& after.reorder_modifiers == before.reorder_modifiers
        &&& after.remove_unused == before.remove_unused
    }

    /// Lower this scheme's `[imports]` settings onto `x`.
    pub fn lower_imports(&self, x: &mut Imports)
        ensures
            self.lowers_imports(*old(x), *final(x)),
    {
        reveal(IntellijConfig::lowers_imports);
        if let Some(table) = &self.imports.import_layout_table {
            let groups = table.to_jals_groups();
            if groups.len() > 0 {
                x.order = ImportOrder::Group;
                x.groups = groups;
            }
        }
        x.static_first = Lower::set(self.imports.layout_static_imports_separately, x.static_first);
    }

    /// Whether `after` is `before` with every setting of this scheme that has a jals equivalent
    /// lowered onto it, and nothing else changed.
    pub open spec fn lowers(&self, before: Config, after: Config) -> bool {
        &&& self.lowers_layout(before.layout, after.layout)
        &&& self.lowers_blank_lines(before.blank_lines, after.blank_lines)
        &&& self.lowers_braces(before.braces, after.braces)
        &&& self.lowers_wrapping(before.wrapping, after.wrapping)
        &&& self.lowers_spacing(before.spacing, after.spacing)
        &&& self.lowers_comments(before.comments, after.comments)
        &&& self.lowers_imports(before.imports, after.imports)
    }

    /// Whether `config` is the jals configuration this scheme denotes: the defaults with every
    /// declared setting that has a jals equivalent lowered onto it.
    pub open spec fn produces(&self, config: Config) -> bool {
        exists|base: Config| base.is_default() && self.lowers(base, config)
    }

    /// Lower every setting of this scheme that has a jals equivalent onto `config`.
    pub fn lower_onto(&self, config: &mut Config)
        ensures
            self.lowers(*old(config), *final(config)),
    {
        self.lower_layout(&mut config.layout);
        self.lower_blank_lines(&mut config.blank_lines);
        self.lower_braces(&mut config.braces);
        self.lower_wrapping(&mut config.wrapping);
        self.lower_spacing(&mut config.spacing);
        self.lower_comments(&mut config.comments);
        self.lower_imports(&mut config.imports);
    }

    /// The jals configuration this scheme denotes: the defaults with every declared setting
    /// that has a jals equivalent lowered onto it. Naming and code-generation preferences are
    /// not formatter rules and stay in the native model.
    pub fn to_config(&self) -> (r: Config)
        ensures
            self.produces(r),
    {
        let mut config = Config::default();
        let ghost base = config;
        self.lower_onto(&mut config);
        assert(base.is_default() && self.lowers(base, config));
        config
    }
}

/// Importer for the `.editorconfig` (`ij_java_*`) form.
#[derive(Debug, Clone, Copy, Default)]
pub struct IntellijEditorConfig;

impl IntellijEditorConfig {
    /// Parse the `[*.java]`-applicable settings of an `.editorconfig` into the scheme model.
    pub fn parse(src: &str) -> (r: Result<IntellijConfig, ImportError>)
        ensures
            r matches Ok(c) && c.reads(translated(editorconfig_spec(src@))),
    {
        let ec = EditorConfig::parse(src);
        IntellijConfig::from_pairs(&IntellijConfig::translate(&ec))
    }

    /// Parse an `.editorconfig` and lower it to a jals configuration in one step.
    pub fn import(src: &str) -> (r: Result<Config, ImportError>)
        ensures
            r matches Ok(config) && exists|native: IntellijConfig, base: Config|
                native.reads(translated(editorconfig_spec(src@))) && base.is_default()
                    && native.lowers(base, config),
    {
        match Self::parse(src) {
            Ok(native) => Ok(native.to_config()),
            Err(e) => Err(e),
        }
    }
}

impl ConfigImporter for IntellijEditorConfig {
    type Native = IntellijConfig;

    fn parse(src: &str) -> (r: Result<IntellijConfig, ImportError>)
        ensures
            r matches Ok(c) && c.reads(translated(editorconfig_spec(src@))),
    {
        IntellijEditorConfig::parse(src)
    }

    fn import(src: &str) -> (r: Result<Config, ImportError>)
        ensures
            r matches Ok(config) && exists|native: IntellijConfig, base: Config|
                native.reads(translated(editorconfig_spec(src@))) && base.is_default()
                    && native.lowers(base, config),
    {
        IntellijEditorConfig::import(src)
    }
}

/// Importer for the `.idea/codeStyles/Project.xml` / exported scheme form.
#[derive(Debug, Clone, Copy, Default)]
pub struct IntellijXmlScheme;

impl IntellijXmlScheme {
    /// Parse the scheme XML into the scheme model. A malformed document is an error, never a
    /// panic.
    pub fn parse(src: &str) -> (r: Result<IntellijConfig, ImportError>)
        ensures
            match scheme_spec(document_items(src@)) {
                Ok(m) => r matches Ok(c) && c.reads(m),
                Err(e) => r matches Err(ImportError::Xml(d)) && d@ == e,
            },
    {
        let read = IntellijSchemeReader::parse(src);
        match read {
            Ok(pairs) => IntellijConfig::from_pairs(&pairs),
            Err(e) => Err(e),
        }
    }

    /// Parse the scheme XML and lower it to a jals configuration in one step.
    pub fn import(src: &str) -> (r: Result<Config, ImportError>)
        ensures
            match scheme_spec(document_items(src@)) {
                Ok(m) => r matches Ok(config) && exists|native: IntellijConfig| native.reads(m) && native.produces(config),
                Err(e) => r matches Err(ImportError::Xml(d)) && d@ == e,
            },
    {
        match Self::parse(src) {
            Ok(native) => Ok(native.to_config()),
            Err(e) => Err(e),
        }
    }
}

impl ConfigImporter for IntellijXmlScheme {
    type Native = IntellijConfig;

    fn parse(src: &str) -> (r: Result<IntellijConfig, ImportError>)
        ensures
            match scheme_spec(document_items(src@)) {
                Ok(m) => r matches Ok(c) && c.reads(m),
                Err(e) => r matches Err(ImportError::Xml(d)) && d@ == e,
            },
    {
        IntellijXmlScheme::parse(src)
    }

    fn import(src: &str) -> (r: Result<Config, ImportError>)
        ensures
            match scheme_spec(document_items(src@)) {
                Ok(m) => r matches Ok(config) && exists|native: IntellijConfig| native.reads(m) && native.produces(config),
                Err(e) => r matches Err(ImportError::Xml(d)) && d@ == e,
            },
    {
        IntellijXmlScheme::import(src)
    }
}

/// An IntelliJ import layout lowers to at most one static group, however many static rows it
/// declares: jals models exactly one.
pub proof fn law_layout_groups_hold_one_static_group(entries: Seq<EntryView>)
    ensures
        one_static_group(groups_of(entries)),
    decreases entries.len(),
{
    if entries.len() > 0 {
        law_layout_groups_hold_one_static_group(entries.drop_last());
        match entries.last() {
            EntryView::Package { name, .. } => lemma_one_static_group_kept(groups_of(entries.drop_last()), name),
            EntryView::BlankLine => {},
        }
    }
}

/// Lowering the `[layout]` settings a second time changes nothing.
pub proof fn law_layout_lowered_twice(native: IntellijConfig, base: Layout, once: Layout, twice: Layout)
    requires
        native.lowers_layout(base, once),
        native.lowers_layout(once, twice),
    ensures
        twice == once,
{
    reveal(IntellijConfig::lowers_layout);
}

/// A scheme that declares nothing leaves the `[layout]` settings as they were.
pub proof fn law_layout_unset_keeps(native: IntellijConfig, base: Layout, after: Layout)
    requires
        native.common.reads(Map::empty()),
        native.general.reads(Map::empty()),
        native.indent.reads(Map::empty()),
        native.wrapping.reads(Map::empty()),
        native.lowers_layout(base, after),
    ensures
        after == base,
{
    reveal(IntellijConfig::lowers_layout);
    reveal(IntellijCommon::reads);
    reveal(IntellijGeneral::reads);
    reveal(IntellijIndent::reads);
    reveal(IntellijWrapping::reads);
}

/// Lowering the `[blank-lines]` settings a second time changes nothing.
pub proof fn law_blank_lines_lowered_twice(native: IntellijConfig, base: JalsBlankLines, once: JalsBlankLines, twice: JalsBlankLines)
    requires
        native.lowers_blank_lines(base, once),
        native.lowers_blank_lines(once, twice),
    ensures
        twice == once,
{
    reveal(IntellijConfig::lowers_blank_lines);
}

/// A scheme that declares nothing leaves the `[blank-lines]` settings as they were.
pub proof fn law_blank_lines_unset_keeps(native: IntellijConfig, base: JalsBlankLines, after: JalsBlankLines)
    requires
        native.blank_lines.reads(Map::empty()),
        native.lowers_blank_lines(base, after),
    ensures
        after == base,
{
    reveal(IntellijConfig::lowers_blank_lines);
    reveal(IntellijBlankLines::reads);
}

/// Lowering the `[braces]` settings a second time changes nothing.
pub proof fn law_braces_lowered_twice(native: IntellijConfig, base: JalsBraces, once: JalsBraces, twice: JalsBraces)
    requires
        native.lowers_braces(base, once),
        native.lowers_braces(once, twice),
    ensures
        twice == once,
{
    reveal(IntellijConfig::lowers_braces);
}

/// A scheme that declares nothing leaves the `[braces]` settings as they were.
pub proof fn law_braces_unset_keeps(native: IntellijConfig, base: JalsBraces, after: JalsBraces)
    requires
        native.wrapping.reads(Map::empty()),
        native.lowers_braces(base, after),
    ensures
        after == base,
{
    reveal(IntellijConfig::lowers_braces);
    reveal(IntellijWrapping::reads);
}

/// Lowering the `[wrapping]` settings a second time changes nothing.
pub proof fn law_wrapping_lowered_twice(native: IntellijConfig, base: JalsWrapping, once: JalsWrapping, twice: JalsWrapping)
    requires
        native.lowers_wrapping(base, once),
        native.lowers_wrapping(once, twice),
    ensures
        twice == once,
{
    reveal(IntellijConfig::lowers_wrapping);
}

/// A scheme that declares nothing leaves the `[wrapping]` settings as they were.
pub proof fn law_wrapping_unset_keeps(native: IntellijConfig, base: JalsWrapping, after: JalsWrapping)
    requires
        native.wrapping.reads(Map::empty()),
        native.lowers_wrapping(base, after),
    ensures
        after == base,
{
    reveal(IntellijConfig::lowers_wrapping);
    reveal(IntellijWrapping::reads);
}

/// Lowering the `[spacing]` settings a second time keeps part 1 of them.
#[verifier::spinoff_prover]
proof fn lemma_spacing_twice_part1(native: IntellijConfig, base: JalsSpacing, once: JalsSpacing, twice: JalsSpacing)
    requires
        native.lowers_spacing(base, once),
        native.lowers_spacing(once, twice),
    ensures
        twice.around_assignment_operators == once.around_assignment_operators,
        twice.around_logical_operators == once.around_logical_operators,
        twice.around_equality_operators == once.around_equality_operators,
        twice.around_relational_operators == once.around_relational_operators,
        twice.around_bitwise_operators == once.around_bitwise_operators,
        twice.around_additive_operators == once.around_additive_operators,
        twice.around_multiplicative_operators == once.around_multiplicative_operators,
        twice.around_shift_operators == once.around_shift_operators,
        twice.around_unary_operator == once.around_unary_operator,
        twice.around_lambda_arrow == once.around_lambda_arrow,
{
    reveal(IntellijConfig::lowers_spacing);
}

/// Lowering the `[spacing]` settings a second time keeps part 2 of them.
#[verifier::spinoff_prover]
proof fn lemma_spacing_twice_part2(native: IntellijConfig, base: JalsSpacing, once: JalsSpacing, twice: JalsSpacing)
    requires
        native.lowers_spacing(base, once),
        native.lowers_spacing(once, twice),
    ensures
        twice.around_method_ref_double_colon == once.around_method_ref_double_colon,
        twice.around_type_bounds == once.around_type_bounds,
        twice.around_annotation_eq == once.around_annotation_eq,
        twice.before_comma == once.before_comma,
        twice.after_comma == once.after_comma,
        twice.before_semicolon == once.before_semicolon,
        twice.after_semicolon == once.after_semicolon,
        twice.before_method_call_parentheses == once.before_method_call_parentheses,
        twice.before_method_parentheses == once.before_method_parentheses,
        twice.before_keyword_parentheses == once.before_keyword_parentheses,
{
    reveal(IntellijConfig::lowers_spacing);
}

/// Lowering the `[spacing]` settings a second time keeps part 3 of them.
#[verifier::spinoff_prover]
proof fn lemma_spacing_twice_part3(native: IntellijConfig, base: JalsSpacing, once: JalsSpacing, twice: JalsSpacing)
    requires
        native.lowers_spacing(base, once),
        native.lowers_spacing(once, twice),
    ensures
        twice.before_annotation_parentheses == once.before_annotation_parentheses,
        twice.within_method_call_parentheses == once.within_method_call_parentheses,
        twice.within_method_parentheses == once.within_method_parentheses,
        twice.within_keyword_parentheses == once.within_keyword_parentheses,
        twice.within_cast_parentheses == once.within_cast_parentheses,
        twice.within_annotation_parentheses == once.within_annotation_parentheses,
        twice.within_brackets == once.within_brackets,
        twice.within_array_initializer_braces == once.within_array_initializer_braces,
        twice.within_angle_brackets == once.within_angle_brackets,
        twice.within_record_header == once.within_record_header,
{
    reveal(IntellijConfig::lowers_spacing);
}

/// Lowering the `[spacing]` settings a second time keeps part 4 of them.
#[verifier::spinoff_prover]
proof fn lemma_spacing_twice_part4(native: IntellijConfig, base: JalsSpacing, once: JalsSpacing, twice: JalsSpacing)
    requires
        native.lowers_spacing(base, once),
        native.lowers_spacing(once, twice),
    ensures
        twice.within_empty_parentheses == once.within_empty_parentheses,
        twice.within_empty_braces == once.within_empty_braces,
        twice.before_left_brace == once.before_left_brace,
        twice.before_array_initializer_left_brace == once.before_array_initializer_left_brace,
        twice.before_continuation_keyword == once.before_continuation_keyword,
        twice.after_type_cast == once.after_type_cast,
        twice.before_type_parameter_list == once.before_type_parameter_list,
        twice.before_ternary_question == once.before_ternary_question,
        twice.after_ternary_question == once.after_ternary_question,
        twice.before_ternary_colon == once.before_ternary_colon,
{
    reveal(IntellijConfig::lowers_spacing);
}

/// Lowering the `[spacing]` settings a second time keeps part 5 of them.
#[verifier::spinoff_prover]
proof fn lemma_spacing_twice_part5(native: IntellijConfig, base: JalsSpacing, once: JalsSpacing, twice: JalsSpacing)
    requires
        native.lowers_spacing(base, once),
        native.lowers_spacing(once, twice),
    ensures
        twice.after_ternary_colon == once.after_ternary_colon,
        twice.before_foreach_colon == once.before_foreach_colon,
        twice.after_foreach_colon == once.after_foreach_colon,
        twice.before_label_colon == once.before_label_colon,
        twice.after_label_colon == once.after_label_colon,
        twice.before_case_colon == once.before_case_colon,
        twice.after_case_colon == once.after_case_colon,
        twice.before_assert_colon == once.before_assert_colon,
        twice.after_assert_colon == once.after_assert_colon,
{
    reveal(IntellijConfig::lowers_spacing);
}

/// Lowering the `[spacing]` settings a second time changes nothing.
pub proof fn law_spacing_lowered_twice(native: IntellijConfig, base: JalsSpacing, once: JalsSpacing, twice: JalsSpacing)
    requires
        native.lowers_spacing(base, once),
        native.lowers_spacing(once, twice),
    ensures
        twice == once,
{
    lemma_spacing_twice_part1(native, base, once, twice);
    lemma_spacing_twice_part2(native, base, once, twice);
    lemma_spacing_twice_part3(native, base, once, twice);
    lemma_spacing_twice_part4(native, base, once, twice);
    lemma_spacing_twice_part5(native, base, once, twice);
}

/// A scheme that declares nothing leaves the `[spacing]` settings as they were.
pub proof fn law_spacing_unset_keeps(native: IntellijConfig, base: JalsSpacing, after: JalsSpacing)
    requires
        native.spacing.reads(Map::empty()),
        native.lowers_spacing(base, after),
    ensures
        after == base,
{
    reveal(IntellijConfig::lowers_spacing);
    reveal(IntellijSpacing::reads);
}

/// Lowering the `[comments]` settings a second time changes nothing.
pub proof fn law_comments_lowered_twice(native: IntellijConfig, base: JalsComments, once: JalsComments, twice: JalsComments)
    requires
        native.lowers_comments(base, once),
        native.lowers_comments(once, twice),
    ensures
        twice == once,
{
    reveal(IntellijConfig::lowers_comments);
}

/// A scheme that declares nothing leaves the `[comments]` settings as they were.
pub proof fn law_comments_unset_keeps(native: IntellijConfig, base: JalsComments, after: JalsComments)
    requires
        native.common.reads(Map::empty()),
        native.javadoc.reads(Map::empty()),
        native.wrapping.reads(Map::empty()),
        native.lowers_comments(base, after),
    ensures
        after == base,
{
    reveal(IntellijConfig::lowers_comments);
    reveal(IntellijCommon::reads);
    reveal(IntellijJavadoc::reads);
    reveal(IntellijWrapping::reads);
}

/// Lowering the `[imports]` settings a second time changes nothing.
pub proof fn law_imports_lowered_twice(native: IntellijConfig, base: Imports, once: Imports, twice: Imports)
    requires
        native.lowers_imports(base, once),
        native.lowers_imports(once, twice),
    ensures
        twice.order == once.order,
        strings_view(twice.groups@) == strings_view(once.groups@),
        twice.static_first == once.static_first,
        twice.reorder_modifiers == once.reorder_modifiers,
        twice.remove_unused == once.remove_unused,
{
    reveal(IntellijConfig::lowers_imports);
}

/// A scheme that declares nothing leaves the `[imports]` settings as they were.
pub proof fn law_imports_unset_keeps(native: IntellijConfig, base: Imports, after: Imports)
    requires
        native.imports.reads(Map::empty()),
        native.lowers_imports(base, after),
    ensures
        after == base,
{
    reveal(IntellijConfig::lowers_imports);
    reveal(IntellijImports::reads);
}

/// A scheme that declares nothing is the defaults: every jals option its settings would move
/// keeps its default value.
pub proof fn law_an_empty_scheme_is_the_defaults(native: IntellijConfig, config: Config)
    requires
        native.reads(Map::empty()),
        native.produces(config),
    ensures
        config.is_default(),
{
    let base = choose|base: Config| base.is_default() && native.lowers(base, config);
    law_layout_unset_keeps(native, base.layout, config.layout);
    law_blank_lines_unset_keeps(native, base.blank_lines, config.blank_lines);
    law_braces_unset_keeps(native, base.braces, config.braces);
    law_wrapping_unset_keeps(native, base.wrapping, config.wrapping);
    law_spacing_unset_keeps(native, base.spacing, config.spacing);
    law_comments_unset_keeps(native, base.comments, config.comments);
    law_imports_unset_keeps(native, base.imports, config.imports);
}

/// Each brace-force option of the scheme decides its statement's jals brace forcing: `never`
/// (`DO_NOT_FORCE`) forces no braces, `if_multiline` forces them around bodies that span lines,
/// and `always` forces them everywhere; an option the scheme does not declare keeps what it was
/// lowered onto.
pub proof fn law_brace_force_decides_the_forcing(native: IntellijConfig, before: JalsBraces, after: JalsBraces)
    requires
        native.lowers_braces(before, after),
    ensures
        native.wrapping.if_brace_force == Some(IjForceBraces::Never) ==> after.force_if == ForceBraces::Never,
        native.wrapping.if_brace_force == Some(IjForceBraces::IfMultiline) ==> after.force_if == ForceBraces::IfMultiline,
        native.wrapping.if_brace_force == Some(IjForceBraces::Always) ==> after.force_if == ForceBraces::Always,
        native.wrapping.if_brace_force is None ==> after.force_if == before.force_if,
        native.wrapping.for_brace_force == Some(IjForceBraces::Never) ==> after.force_for == ForceBraces::Never,
        native.wrapping.for_brace_force == Some(IjForceBraces::IfMultiline) ==> after.force_for == ForceBraces::IfMultiline,
        native.wrapping.for_brace_force == Some(IjForceBraces::Always) ==> after.force_for == ForceBraces::Always,
        native.wrapping.for_brace_force is None ==> after.force_for == before.force_for,
        native.wrapping.while_brace_force == Some(IjForceBraces::Never) ==> after.force_while == ForceBraces::Never,
        native.wrapping.while_brace_force == Some(IjForceBraces::IfMultiline) ==> after.force_while == ForceBraces::IfMultiline,
        native.wrapping.while_brace_force == Some(IjForceBraces::Always) ==> after.force_while == ForceBraces::Always,
        native.wrapping.while_brace_force is None ==> after.force_while == before.force_while,
        native.wrapping.dowhile_brace_force == Some(IjForceBraces::Never) ==> after.force_do_while == ForceBraces::Never,
        native.wrapping.dowhile_brace_force == Some(IjForceBraces::IfMultiline) ==> after.force_do_while == ForceBraces::IfMultiline,
        native.wrapping.dowhile_brace_force == Some(IjForceBraces::Always) ==> after.force_do_while == ForceBraces::Always,
        native.wrapping.dowhile_brace_force is None ==> after.force_do_while == before.force_do_while,
{
    reveal(IntellijConfig::lowers_braces);
}

/// The configuration a scheme denotes forces braces on `if`, `for`, `while` and `do`-`while`
/// bodies exactly as the scheme's brace-force options say.
pub proof fn law_a_scheme_forces_braces_as_declared(native: IntellijConfig, config: Config)
    requires
        native.produces(config),
    ensures
        native.wrapping.if_brace_force == Some(IjForceBraces::Never) ==> config.braces.force_if == ForceBraces::Never,
        native.wrapping.if_brace_force == Some(IjForceBraces::IfMultiline) ==> config.braces.force_if == ForceBraces::IfMultiline,
        native.wrapping.if_brace_force == Some(IjForceBraces::Always) ==> config.braces.force_if == ForceBraces::Always,
        native.wrapping.for_brace_force == Some(IjForceBraces::Never) ==> config.braces.force_for == ForceBraces::Never,
        native.wrapping.for_brace_force == Some(IjForceBraces::IfMultiline) ==> config.braces.force_for == ForceBraces::IfMultiline,
        native.wrapping.for_brace_force == Some(IjForceBraces::Always) ==> config.braces.force_for == ForceBraces::Always,
        native.wrapping.while_brace_force == Some(IjForceBraces::Never) ==> config.braces.force_while == ForceBraces::Never,
        native.wrapping.while_brace_force == Some(IjForceBraces::IfMultiline) ==> config.braces.force_while == ForceBraces::IfMultiline,
        native.wrapping.while_brace_force == Some(IjForceBraces::Always) ==> config.braces.force_while == ForceBraces::Always,
        native.wrapping.dowhile_brace_force == Some(IjForceBraces::Never) ==> config.braces.force_do_while == ForceBraces::Never,
        native.wrapping.dowhile_brace_force == Some(IjForceBraces::IfMultiline) ==> config.braces.force_do_while == ForceBraces::IfMultiline,
        native.wrapping.dowhile_brace_force == Some(IjForceBraces::Always) ==> config.braces.force_do_while == ForceBraces::Always,
{
    let base = choose|base: Config| base.is_default() && native.lowers(base, config);
    law_brace_force_decides_the_forcing(native, base.braces, config.braces);
}

} // verus!
