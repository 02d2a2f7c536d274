//! Eclipse JDT importer — the complete `org.eclipse.jdt.core.formatter.*` surface.
//!
//! # Coverage
//!
//! All **416** ids: the 401 `DefaultCodeFormatterOptions.getMap()` writes back, plus the 15
//! deprecated ones JDT still honors on read (`wrap_before_binary_operator`,
//! `insert_new_line_in_empty_block`, …) and fans out into finer settings.
//!
//! Both file forms lower to the same `key → value` map, so one model serves both: the
//! `.settings/org.eclipse.jdt.core.prefs` properties file ([`EclipsePrefs`]) and the exported XML
//! profile ([`EclipseXmlProfile`]).
//!
//! # Shape
//!
//! [`EclipseConfig`] is nine family structs rather than one 416-field struct, matching how
//! Eclipse itself groups the surface. Each family reads from the same flat map. Every field is
//! `Option`: absent means "the profile did not say", which leaves the corresponding jals option
//! at its jals default rather than at Eclipse's default.
//!
//! # Projection
//!
//! [`EclipseConfig::to_config`] carries the subset with a jals equivalent. The rest — the 53
//! `alignment_for_*` in full, the 219 `insert_space_*` in full, the column-alignment settings,
//! the Javadoc minutiae — stay here, typed and named.

use vstd::prelude::*;

use crate::config::{
    BlankLines as JalsBlankLines, BraceStyle, Braces as JalsBraces, Comments as JalsComments,
    Config, IndentStyle, KeepOnOneLine, Layout, ParenPositions, Spacing as JalsSpacing,
    WrapPolicy, Wrapping as JalsWrapping,
};
use crate::import::kv::KvMap;
use crate::import::{either, either_of, or_keep, strings_view, ConfigImporter, ImportError};
use crate::import::text::{properties_spec, Properties};
use crate::import::xml::{document_items, profile_spec, EclipseProfileReader};

pub mod alignment;
pub mod blank_lines;
pub mod braces;
pub mod comments;
pub mod indentation;
pub mod new_lines;
pub mod one_line;
pub mod spacing;
pub mod values;
pub mod wrapping;

pub use alignment::Alignments;
pub use blank_lines::BlankLines;
pub use braces::Braces;
pub use comments::Comments;
pub use indentation::Indentation;
pub use new_lines::NewLines;
pub use one_line::OneLineBodies;
pub use spacing::Spacing;
pub use values::{
    Alignment, BracePosition, EclipseBool, Insert, OneLine, ParenthesisPositions, TabChar,
    TextBlockIndentation,
};
pub use wrapping::Wrapping;

verus! {

/// A parsed Eclipse JDT formatter profile, in full.
#[derive(Debug, Clone, Default, PartialEq, Eq)]
pub struct EclipseConfig {
    /// Indentation, width, on/off tags, and the settings belonging to no larger family.
    pub indentation: Indentation,
    /// The 15 `brace_position_for_*` settings.
    pub braces: Braces,
    /// The `keep_*_on_one_line` settings (plus the `keep_*_on_same_line` statement toggles).
    pub one_line: OneLineBodies,
    /// The `blank_lines_*` / `number_of_*` counts.
    pub blank_lines: BlankLines,
    /// The 53 `alignment_for_*` wrap bitmasks.
    pub alignment: Alignments,
    /// `wrap_before_*` break placement and `parentheses_positions_in_*`.
    pub wrapping: Wrapping,
    /// The `insert_space_*` family.
    pub spacing: Spacing,
    /// The `insert_new_line_*` family.
    pub new_lines: NewLines,
    /// The `comment.*` family.
    pub comments: Comments,
}

impl EclipseConfig {
    /// Whether every family holds what the settings map gives its ids.
    pub open spec fn reads(&self, m: Map<Seq<char>, Seq<char>>) -> bool {
        &&& self.indentation.reads(m)
        &&& self.braces.reads(m)
        &&& self.one_line.reads(m)
        &&& self.blank_lines.reads(m)
        &&& self.alignment.reads(m)
        &&& self.wrapping.reads(m)
        &&& self.spacing.reads(m)
        &&& self.new_lines.reads(m)
        &&& self.comments.reads(m)
    }

    /// Read every family from one flat `key → value` map.
    ///
    /// Nine independent passes over the same map: each family takes the ids it names and ignores
    /// the rest. Every value is read leniently — one that does not parse leaves its setting unset
    /// — so reading never fails.
    pub fn from_pairs(pairs: &KvMap) -> (r: Result<Self, ImportError>)
        ensures
            r matches Ok(c) && c.reads(pairs@),
    {
        Ok(EclipseConfig {
            indentation: Indentation::from_map(pairs),
            braces: Braces::from_map(pairs),
            one_line: OneLineBodies::from_map(pairs),
            blank_lines: BlankLines::from_map(pairs),
            alignment: Alignments::from_map(pairs),
            wrapping: Wrapping::from_map(pairs),
            spacing: Spacing::from_map(pairs),
            new_lines: NewLines::from_map(pairs),
            comments: Comments::from_map(pairs),
        })
    }
}

impl TabChar {
    /// The jals indent style this value denotes.
    pub open spec fn jals(self) -> IndentStyle {
        match self {
            TabChar::Space => IndentStyle::Space,
            TabChar::Tab => IndentStyle::Tab,
            TabChar::Mixed => IndentStyle::Mixed,
        }
    }

    /// The jals indent style this value denotes.
    pub fn to_jals(self) -> (r: IndentStyle)
        ensures
            r == self.jals(),
    {
        match self {
            TabChar::Space => IndentStyle::Space,
            TabChar::Tab => IndentStyle::Tab,
            TabChar::Mixed => IndentStyle::Mixed,
        }
    }
}

/// The indent style `tab` denotes, or `keep` when the profile did not say.
pub open spec fn tab_or(tab: Option<TabChar>, keep: IndentStyle) -> IndentStyle {
    match tab {
        Some(t) => t.jals(),
        None => keep,
    }
}

/// Whether `toggle` inserts, or `keep` when the profile did not say.
pub open spec fn insert_or(toggle: Option<Insert>, keep: bool) -> bool {
    match toggle {
        Some(t) => t == Insert::Insert,
        None => keep,
    }
}

/// The brace style `position` denotes, or `keep` when the profile did not say.
pub open spec fn brace_or(position: Option<BracePosition>, keep: BraceStyle) -> BraceStyle {
    match position {
        Some(p) => p.jals(),
        None => keep,
    }
}

/// The one-line policy `value` denotes, or `keep` when the profile did not say.
pub open spec fn one_line_or(value: Option<OneLine>, keep: KeepOnOneLine) -> KeepOnOneLine {
    match value {
        Some(v) => v.jals(),
        None => keep,
    }
}

/// The delimiter placement `value` denotes, or `keep` when the profile did not say.
pub open spec fn paren_or(value: Option<ParenthesisPositions>, keep: ParenPositions) -> ParenPositions {
    match value {
        Some(v) => v.jals(),
        None => keep,
    }
}

/// The wrap policy `bits` denote, or `keep` when the profile did not say.
pub open spec fn align_or(bits: Option<Alignment>, keep: WrapPolicy) -> WrapPolicy {
    match bits {
        Some(a) => a.policy(),
        None => keep,
    }
}

/// The annotation wrap an `insert_new_line_after_annotation_*` toggle denotes: a newline after
/// every annotation is one annotation per line, no newline is never wrapping.
pub open spec fn annotation_policy(toggle: Insert) -> WrapPolicy {
    if toggle == Insert::Insert {
        WrapPolicy::AlwaysPerItem
    } else {
        WrapPolicy::Never
    }
}

/// The annotation wrap `toggle` denotes, or `keep` when the profile did not say.
pub open spec fn annotation_or(toggle: Option<Insert>, keep: WrapPolicy) -> WrapPolicy {
    match toggle {
        Some(t) => annotation_policy(t),
        None => keep,
    }
}

/// The negation of `flag`, or `keep` when the profile did not say.
pub open spec fn not_or(flag: Option<bool>, keep: bool) -> bool {
    match flag {
        Some(b) => !b,
        None => keep,
    }
}

/// Eclipse's before/after pair for one token role folded onto jals's single key: the role is
/// spaced when either side inserts, and `keep` survives when the profile declared neither.
pub open spec fn around_or(before: Option<Insert>, after: Option<Insert>, keep: bool) -> bool {
    if before is Some || after is Some {
        before == Some(Insert::Insert) || after == Some(Insert::Insert)
    } else {
        keep
    }
}

/// `levels * width`, saturating at the largest column count.
pub open spec fn saturating_columns(levels: usize, width: usize) -> usize {
    if levels * width > usize::MAX {
        usize::MAX
    } else {
        (levels * width) as usize
    }
}

/// The continuation indent in columns for `levels` indentation levels of `width`, or `keep`
/// when the profile did not say.
pub open spec fn continuation_or(levels: Option<usize>, width: usize, keep: Option<usize>) -> Option<usize> {
    match levels {
        Some(l) => Some(saturating_columns(l, width)),
        None => keep,
    }
}

/// Eclipse counts the continuation indent in indentation levels; jals wants columns. The product
/// saturates rather than overflows on a pathological level count.
pub fn levels_to_columns(levels: usize, width: usize) -> (r: usize)
    ensures
        r == saturating_columns(levels, width),
{
    match levels.checked_mul(width) {
        Some(columns) => columns,
        None => usize::MAX,
    }
}

/// The annotation wrap an `insert_new_line_after_annotation_*` toggle denotes.
pub fn annotation_wrap(toggle: Insert) -> (r: WrapPolicy)
    ensures
        r == annotation_policy(toggle),
{
    if toggle.is_insert() {
        WrapPolicy::AlwaysPerItem
    } else {
        WrapPolicy::Never
    }
}

/// The projection's shared shapes, grouped so each call site reads as the pair being mapped.
pub struct Lower;

impl Lower {
    /// The value the profile declared, or `keep` when it declared none.
    pub fn set<T: Copy>(value: Option<T>, keep: T) -> (r: T)
        ensures
            r == or_keep(value, keep),
    {
        match value {
            Some(v) => v,
            None => keep,
        }
    }

    /// The text the profile declared, or `keep` when it declared none.
    pub fn text(value: &Option<String>, keep: &String) -> (r: String)
        ensures
            r == or_keep(*value, *keep),
    {
        match value {
            Some(v) => v.clone(),
            None => keep.clone(),
        }
    }

    /// A `tabulation.char` value lowered onto a jals indent style.
    pub fn tab(value: Option<TabChar>, keep: IndentStyle) -> (r: IndentStyle)
        ensures
            r == tab_or(value, keep),
    {
        match value {
            Some(v) => v.to_jals(),
            None => keep,
        }
    }

    /// A continuation indent counted in levels of `width` columns, lowered onto columns.
    pub fn continuation(levels: Option<usize>, width: usize, keep: Option<usize>) -> (r: Option<usize>)
        ensures
            r == continuation_or(levels, width, keep),
    {
        match levels {
            Some(l) => Some(levels_to_columns(l, width)),
            None => keep,
        }
    }

    /// An `insert` / `do not insert` toggle lowered onto a jals flag.
    pub fn insert(value: Option<Insert>, keep: bool) -> (r: bool)
        ensures
            r == insert_or(value, keep),
    {
        match value {
            Some(v) => v.is_insert(),
            None => keep,
        }
    }

    /// A brace position lowered onto a jals brace style.
    pub fn brace(value: Option<BracePosition>, keep: BraceStyle) -> (r: BraceStyle)
        ensures
            r == brace_or(value, keep),
    {
        match value {
            Some(v) => v.to_jals(),
            None => keep,
        }
    }

    /// A one-line policy lowered onto jals's.
    pub fn one_line(value: Option<OneLine>, keep: KeepOnOneLine) -> (r: KeepOnOneLine)
        ensures
            r == one_line_or(value, keep),
    {
        match value {
            Some(v) => v.to_jals(),
            None => keep,
        }
    }

    /// A parenthesis placement lowered onto jals's.
    pub fn paren(value: Option<ParenthesisPositions>, keep: ParenPositions) -> (r: ParenPositions)
        ensures
            r == paren_or(value, keep),
    {
        match value {
            Some(v) => v.to_jals(),
            None => keep,
        }
    }

    /// One `alignment_for_*` bitmask lowered onto a jals wrap policy.
    pub fn align(value: Option<Alignment>, keep: WrapPolicy) -> (r: WrapPolicy)
        ensures
            r == align_or(value, keep),
    {
        match value {
            Some(v) => v.to_jals(),
            None => keep,
        }
    }

    /// An annotation newline toggle lowered onto a jals wrap policy.
    pub fn annotation(value: Option<Insert>, keep: WrapPolicy) -> (r: WrapPolicy)
        ensures
            r == annotation_or(value, keep),
    {
        match value {
            Some(v) => annotation_wrap(v),
            None => keep,
        }
    }

    /// A flag that states the opposite of the jals one, lowered onto it.
    pub fn negated(value: Option<bool>, keep: bool) -> (r: bool)
        ensures
            r == not_or(value, keep),
    {
        match value {
            Some(v) => !v,
            None => keep,
        }
    }

    /// Fold Eclipse's before/after pair for one token role onto jals's single key.
    ///
    /// Eclipse states spacing twice per role; jals has one key. A role counts as spaced when
    /// either side inserts, and `keep` survives when the profile declared neither.
    pub fn around(before: Option<Insert>, after: Option<Insert>, keep: bool) -> (r: bool)
        ensures
            r == around_or(before, after, keep),
    {
        if before.is_some() || after.is_some() {
            let spaced_before = match before {
                Some(b) => b.is_insert(),
                None => false,
            };
            let spaced_after = match after {
                Some(a) => a.is_insert(),
                None => false,
            };
            spaced_before || spaced_after
        } else {
            keep
        }
    }
}

impl EclipseConfig {
    /// The logical indentation level width the profile declares: under `mixed`,
    /// `indentation.size` is the level width and `tabulation.size` only the tab stop; otherwise
    /// the two are the same knob.
    pub open spec fn level_width(&self) -> Option<usize> {
        if self.indentation.tabulation_char == Some(TabChar::Mixed) {
            either(self.indentation.indentation_size, self.indentation.tabulation_size)
        } else {
            self.indentation.tabulation_size
        }
    }

    /// The logical indentation level width the profile declares.
    pub fn indent_width_setting(&self) -> (r: Option<usize>)
        ensures
            r == self.level_width(),
    {
        match self.indentation.tabulation_char {
            Some(TabChar::Mixed) => either_of(self.indentation.indentation_size, self.indentation.tabulation_size),
            _ => self.indentation.tabulation_size,
        }
    }

    /// Whether `after` is `before` with this profile's `[layout]` settings lowered onto it.
    #[verifier::opaque]
    pub open spec fn lowers_layout(&self, before: Layout, after: Layout) -> bool {
        &&& after.indent_style == tab_or(self.indentation.tabulation_char, before.indent_style)
        &&& after.tab_width == or_keep(self.indentation.tabulation_size, before.tab_width)
        &&& after.indent_width == or_keep(self.level_width(), before.indent_width)
        &&& after.continuation_indent == continuation_or(self.indentation.continuation_indentation, after.indent_width, before.continuation_indent)
        &&& after.max_width == or_keep(self.indentation.line_split, before.max_width)
        &&& after.indent_empty_lines == or_keep(self.indentation.indent_empty_lines, before.indent_empty_lines)
        &&& after.indent_switch_labels == or_keep(self.indentation.indent_switchstatements_compare_to_switch, before.indent_switch_labels)
        &&& after.indent_switch_case_body == or_keep(self.indentation.indent_switchstatements_compare_to_cases, before.indent_switch_case_body)
        &&& after.indent_type_members == or_keep(self.indentation.indent_body_declarations_compare_to_type_header, before.indent_type_members)
        &&& after.formatter_tags == or_keep(self.indentation.use_on_off_tags, before.formatter_tags)
        &&& after.formatter_off_tag == or_keep(self.indentation.disabling_tag, before.formatter_off_tag)
        &&& after.formatter_on_tag == or_keep(self.indentation.enabling_tag, before.formatter_on_tag)
        &&& after.insert_final_newline == insert_or(self.new_lines.insert_new_line_at_end_of_file_if_missing, before.insert_final_newline)
        &&& after.line_ending == before.line_ending
        &&& after.trim_trailing_whitespace == before.trim_trailing_whitespace
        &&& after.label_indent == before.label_indent
    }

    /// Whether `after` is `before` with this profile's `[blank-lines]` settings lowered onto it.
    #[verifier::opaque]
    pub open spec fn lowers_blank_lines(&self, before: JalsBlankLines, after: JalsBlankLines) -> bool {
        &&& after.max_in_code == or_keep(self.blank_lines.number_of_empty_lines_to_preserve, before.max_in_code)
        &&& after.max_in_declarations == or_keep(self.blank_lines.number_of_empty_lines_to_preserve, before.max_in_declarations)
        &&& after.before_package == or_keep(self.blank_lines.blank_lines_before_package, before.before_package)
        &&& after.after_package == or_keep(self.blank_lines.blank_lines_after_package, before.after_package)
        &&& after.before_imports == or_keep(self.blank_lines.blank_lines_before_imports, before.before_imports)
        &&& after.after_imports == or_keep(self.blank_lines.blank_lines_after_imports, before.after_imports)
        &&& after.between_import_groups == or_keep(self.blank_lines.blank_lines_between_import_groups, before.between_import_groups)
        &&& after.around_type == or_keep(self.blank_lines.blank_lines_between_type_declarations, before.around_type)
        &&& after.at_type_body_start == or_keep(self.blank_lines.blank_lines_before_first_class_body_declaration, before.at_type_body_start)
        &&& after.at_type_body_end == or_keep(self.blank_lines.blank_lines_after_last_class_body_declaration, before.at_type_body_end)
        &&& after.around_field == or_keep(self.blank_lines.blank_lines_before_field, before.around_field)
        &&& after.around_method == or_keep(self.blank_lines.blank_lines_before_method, before.around_method)
        &&& after.around_initializer == or_keep(self.blank_lines.blank_lines_before_new_chunk, before.around_initializer)
        &&& after.before_method_body == or_keep(self.blank_lines.number_of_blank_lines_at_beginning_of_method_body, before.before_method_body)
        &&& after.at_block_start == or_keep(self.blank_lines.number_of_blank_lines_at_beginning_of_code_block, before.at_block_start)
        &&& after.at_block_end == or_keep(self.blank_lines.number_of_blank_lines_at_end_of_code_block, before.at_block_end)
        &&& after.between_switch_groups == or_keep(self.blank_lines.blank_lines_between_statement_group_in_switch, before.between_switch_groups)
        &&& after.max_before_closing_brace == before.max_before_closing_brace
        &&& after.around_field_in_interface == before.around_field_in_interface
        &&& after.around_method_in_interface == before.around_method_in_interface
        &&& after.around_documented_member == before.around_documented_member
    }

    /// Whether `after` is `before` with this profile's `[braces]` settings lowered onto it.
    #[verifier::opaque]
    pub open spec fn lowers_braces(&self, before: JalsBraces, after: JalsBraces) -> bool {
        &&& after.type_declaration == brace_or(self.braces.brace_position_for_type_declaration, before.type_declaration)
        &&& after.method_declaration == brace_or(self.braces.brace_position_for_method_declaration, before.method_declaration)
        &&& after.block == brace_or(self.braces.brace_position_for_block, before.block)
        &&& after.lambda_body == brace_or(self.braces.brace_position_for_lambda_body, before.lambda_body)
        &&& after.switch == brace_or(self.braces.brace_position_for_switch, before.switch)
        &&& after.array_initializer == brace_or(self.braces.brace_position_for_array_initializer, before.array_initializer)
        &&& after.else_on_new_line == insert_or(self.new_lines.insert_new_line_before_else_in_if_statement, before.else_on_new_line)
        &&& after.while_on_new_line == insert_or(self.new_lines.insert_new_line_before_while_in_do_statement, before.while_on_new_line)
        &&& after.catch_on_new_line == insert_or(self.new_lines.insert_new_line_before_catch_in_try_statement, before.catch_on_new_line)
        &&& after.finally_on_new_line == insert_or(self.new_lines.insert_new_line_before_finally_in_try_statement, before.finally_on_new_line)
        &&& after.compact_else_if == or_keep(self.indentation.compact_else_if, before.compact_else_if)
        &&& after.keep_type_body_on_one_line == one_line_or(self.one_line.keep_type_declaration_on_one_line, before.keep_type_body_on_one_line)
        &&& after.keep_method_body_on_one_line == one_line_or(self.one_line.keep_method_body_on_one_line, before.keep_method_body_on_one_line)
        &&& after.keep_block_on_one_line == one_line_or(self.one_line.keep_code_block_on_one_line, before.keep_block_on_one_line)
        &&& after.keep_lambda_body_on_one_line == one_line_or(self.one_line.keep_lambda_body_block_on_one_line, before.keep_lambda_body_on_one_line)
        &&& after.keep_switch_body_on_one_line == one_line_or(self.one_line.keep_switch_body_block_on_one_line, before.keep_switch_body_on_one_line)
        &&& after.keep_enum_declaration_on_one_line == one_line_or(self.one_line.keep_enum_declaration_on_one_line, before.keep_enum_declaration_on_one_line)
        &&& after.keep_record_declaration_on_one_line == one_line_or(self.one_line.keep_record_declaration_on_one_line, before.keep_record_declaration_on_one_line)
        &&& after.keep_annotation_declaration_on_one_line == one_line_or(self.one_line.keep_annotation_declaration_on_one_line, before.keep_annotation_declaration_on_one_line)
        &&& after.keep_control_statement_on_one_line == or_keep(self.one_line.keep_imple_if_on_one_line, before.keep_control_statement_on_one_line)
        &&& after.force_if == before.force_if
        &&& after.force_for == before.force_for
        &&& after.force_while == before.force_while
        &&& after.force_do_while == before.force_do_while
        &&& after.force_switch_arm == before.force_switch_arm
    }

    /// Whether `after` is `before` with this profile's `[wrapping]` settings lowered onto it.
    #[verifier::opaque]
    pub open spec fn lowers_wrapping(&self, before: JalsWrapping, after: JalsWrapping) -> bool {
        &&& after.call_arguments == align_or(self.alignment.alignment_for_arguments_in_method_invocation, before.call_arguments)
        &&& after.method_parameters == align_or(self.alignment.alignment_for_parameters_in_method_declaration, before.method_parameters)
        &&& after.record_components == align_or(self.alignment.alignment_for_record_components, before.record_components)
        &&& after.resource_list == align_or(self.alignment.alignment_for_resources_in_try, before.resource_list)
        &&& after.throws_list == align_or(self.alignment.alignment_for_throws_clause_in_method_declaration, before.throws_list)
        &&& after.extends_list == align_or(self.alignment.alignment_for_superinterfaces_in_type_declaration, before.extends_list)
        &&& after.enum_constants == align_or(self.alignment.alignment_for_enum_constants, before.enum_constants)
        &&& after.array_initializer == align_or(self.alignment.alignment_for_expressions_in_array_initializer, before.array_initializer)
        &&& after.annotation_arguments == align_or(self.alignment.alignment_for_arguments_in_annotation, before.annotation_arguments)
        &&& after.type_arguments == align_or(self.alignment.alignment_for_type_arguments, before.type_arguments)
        &&& after.type_parameters == align_or(self.alignment.alignment_for_type_parameters, before.type_parameters)
        &&& after.multi_catch_types == align_or(self.alignment.alignment_for_union_type_in_multicatch, before.multi_catch_types)
        &&& after.case_labels == align_or(self.alignment.alignment_for_expressions_in_switch_case_with_colon, before.case_labels)
        &&& after.method_chain == align_or(self.alignment.alignment_for_selector_in_method_invocation, before.method_chain)
        &&& after.binary_operation == align_or(either(self.alignment.alignment_for_additive_operator, self.alignment.alignment_for_binary_expression), before.binary_operation)
        &&& after.ternary == align_or(self.alignment.alignment_for_conditional_expression, before.ternary)
        &&& after.assignment == align_or(self.alignment.alignment_for_assignment, before.assignment)
        &&& after.for_statement == align_or(self.alignment.alignment_for_expressions_in_for_loop_header, before.for_statement)
        &&& after.assert_statement == align_or(self.alignment.alignment_for_assertion_message, before.assert_statement)
        &&& after.switch_expression == align_or(self.alignment.alignment_for_expressions_in_switch_case_with_arrow, before.switch_expression)
        &&& after.type_annotations == annotation_or(either(self.new_lines.insert_new_line_after_annotation_on_type, self.new_lines.insert_new_line_after_annotation), before.type_annotations)
        &&& after.method_annotations == annotation_or(either(self.new_lines.insert_new_line_after_annotation_on_method, self.new_lines.insert_new_line_after_annotation_on_member), before.method_annotations)
        &&& after.field_annotations == annotation_or(either(self.new_lines.insert_new_line_after_annotation_on_field, self.new_lines.insert_new_line_after_annotation_on_member), before.field_annotations)
        &&& after.parameter_annotations == annotation_or(self.new_lines.insert_new_line_after_annotation_on_parameter, before.parameter_annotations)
        &&& after.variable_annotations == annotation_or(self.new_lines.insert_new_line_after_annotation_on_local_variable, before.variable_annotations)
        &&& after.before_binary_operator == or_keep(either(self.wrapping.wrap_before_additive_operator, self.wrapping.wrap_before_binary_operator), before.before_binary_operator)
        &&& after.before_ternary_operator == or_keep(self.wrapping.wrap_before_conditional_operator, before.before_ternary_operator)
        &&& after.before_assignment_operator == or_keep(self.wrapping.wrap_before_assignment_operator, before.before_assignment_operator)
        &&& after.before_assert_colon == or_keep(self.wrapping.wrap_before_assertion_message_operator, before.before_assert_colon)
        &&& after.paren_method_declaration == paren_or(self.wrapping.parentheses_positions_in_method_delcaration, before.paren_method_declaration)
        &&& after.paren_method_invocation == paren_or(self.wrapping.parentheses_positions_in_method_invocation, before.paren_method_invocation)
        &&& after.paren_control == paren_or(self.wrapping.parentheses_positions_in_if_while_statement, before.paren_control)
        &&& after.paren_annotation == paren_or(self.wrapping.parentheses_positions_in_annotation, before.paren_annotation)
        &&& after.paren_lambda == paren_or(self.wrapping.parentheses_positions_in_lambda_declaration, before.paren_lambda)
        &&& after.paren_record == paren_or(self.wrapping.parentheses_positions_in_record_declaration, before.paren_record)
        &&& after.join_wrapped_lines == or_keep(self.indentation.join_wrapped_lines, before.join_wrapped_lines)
        &&& after.deconstruction_list == before.deconstruction_list
        &&& after.labeled_statement == before.labeled_statement
        &&& after.import_group == before.import_group
        &&& after.wrap_first_method_in_chain == before.wrap_first_method_in_chain
        &&& after.wrap_long_lines == before.wrap_long_lines
        &&& after.tabular_array_initializers == before.tabular_array_initializers
        &&& after.format_string_arguments == before.format_string_arguments
        &&& after.reflow_long_strings == before.reflow_long_strings
        &&& after.remove_nested_parens == before.remove_nested_parens
        &&& after.fill_item_width == before.fill_item_width
        &&& after.inline_argumentless_annotations == before.inline_argumentless_annotations
    }

    /// Whether `after` is `before` with this profile's `[spacing]` settings lowered onto it.
    #[verifier::opaque]
    pub open spec fn lowers_spacing(&self, before: JalsSpacing, after: JalsSpacing) -> bool {
        &&& after.around_assignment_operators == around_or(self.spacing.insert_space_before_assignment_operator, self.spacing.insert_space_after_assignment_operator, before.around_assignment_operators)
        &&& after.around_logical_operators == around_or(self.spacing.insert_space_before_logical_operator, self.spacing.insert_space_after_logical_operator, before.around_logical_operators)
        &&& after.around_equality_operators == around_or(self.spacing.insert_space_before_relational_operator, self.spacing.insert_space_after_relational_operator, before.around_equality_operators)
        &&& after.around_relational_operators == around_or(self.spacing.insert_space_before_relational_operator, self.spacing.insert_space_after_relational_operator, before.around_relational_operators)
        &&& after.around_bitwise_operators == around_or(self.spacing.insert_space_before_bitwise_operator, self.spacing.insert_space_after_bitwise_operator, before.around_bitwise_operators)
        &&& after.around_additive_operators == around_or(self.spacing.insert_space_before_additive_operator, self.spacing.insert_space_after_additive_operator, before.around_additive_operators)
        &&& after.around_multiplicative_operators == around_or(self.spacing.insert_space_before_multiplicative_operator, self.spacing.insert_space_after_multiplicative_operator, before.around_multiplicative_operators)
        &&& after.around_shift_operators == around_or(self.spacing.insert_space_before_shift_operator, self.spacing.insert_space_after_shift_operator, before.around_shift_operators)
        &&& after.around_unary_operator == around_or(self.spacing.insert_space_before_unary_operator, self.spacing.insert_space_after_unary_operator, before.around_unary_operator)
        &&& after.around_lambda_arrow == around_or(self.spacing.insert_space_before_lambda_arrow, self.spacing.insert_space_after_lambda_arrow, before.around_lambda_arrow)
        &&& after.around_type_bounds == around_or(self.spacing.insert_space_before_and_in_type_parameter, self.spacing.insert_space_after_and_in_type_parameter, before.around_type_bounds)
        &&& after.before_comma == insert_or(self.spacing.insert_space_before_comma_in_method_invocation_arguments, before.before_comma)
        &&& after.after_comma == insert_or(self.spacing.insert_space_after_comma_in_method_invocation_arguments, before.after_comma)
        &&& after.before_semicolon == insert_or(self.spacing.insert_space_before_semicolon_in_for, before.before_semicolon)
        &&& after.after_semicolon == insert_or(self.spacing.insert_space_after_semicolon_in_for, before.after_semicolon)
        &&& after.before_method_call_parentheses == insert_or(self.spacing.insert_space_before_opening_paren_in_method_invocation, before.before_method_call_parentheses)
        &&& after.before_method_parentheses == insert_or(self.spacing.insert_space_before_opening_paren_in_method_declaration, before.before_method_parentheses)
        &&& after.before_keyword_parentheses == insert_or(self.spacing.insert_space_before_opening_paren_in_if, before.before_keyword_parentheses)
        &&& after.before_annotation_parentheses == insert_or(self.spacing.insert_space_before_opening_paren_in_annotation, before.before_annotation_parentheses)
        &&& after.within_method_call_parentheses == insert_or(self.spacing.insert_space_after_opening_paren_in_method_invocation, before.within_method_call_parentheses)
        &&& after.within_method_parentheses == insert_or(self.spacing.insert_space_after_opening_paren_in_method_declaration, before.within_method_parentheses)
        &&& after.within_keyword_parentheses == insert_or(self.spacing.insert_space_after_opening_paren_in_if, before.within_keyword_parentheses)
        &&& after.within_cast_parentheses == insert_or(self.spacing.insert_space_after_opening_paren_in_cast, before.within_cast_parentheses)
        &&& after.within_annotation_parentheses == insert_or(self.spacing.insert_space_after_opening_paren_in_annotation, before.within_annotation_parentheses)
        &&& after.within_brackets == insert_or(self.spacing.insert_space_after_opening_bracket_in_array_reference, before.within_brackets)
        &&& after.within_array_initializer_braces == insert_or(self.spacing.insert_space_after_opening_brace_in_array_initializer, before.within_array_initializer_braces)
        &&& after.within_angle_brackets == insert_or(self.spacing.insert_space_after_opening_angle_bracket_in_type_arguments, before.within_angle_brackets)
        &&& after.within_record_header == insert_or(self.spacing.insert_space_after_opening_paren_in_record_declaration, before.within_record_header)
        &&& after.within_empty_parentheses == insert_or(self.spacing.insert_space_between_empty_parens_in_method_declaration, before.within_empty_parentheses)
        &&& after.within_empty_braces == insert_or(self.spacing.insert_space_between_empty_braces_in_array_initializer, before.within_empty_braces)
        &&& after.before_left_brace == insert_or(self.spacing.insert_space_before_opening_brace_in_block, before.before_left_brace)
        &&& after.before_array_initializer_left_brace == insert_or(self.spacing.insert_space_before_opening_brace_in_array_initializer, before.before_array_initializer_left_brace)
        &&& after.after_type_cast == insert_or(self.spacing.insert_space_after_closing_paren_in_cast, before.after_type_cast)
        &&& after.before_type_parameter_list == insert_or(self.spacing.insert_space_before_opening_angle_bracket_in_type_parameters, before.before_type_parameter_list)
        &&& after.before_ternary_question == insert_or(self.spacing.insert_space_before_question_in_conditional, before.before_ternary_question)
        &&& after.after_ternary_question == insert_or(self.spacing.insert_space_after_question_in_conditional, before.after_ternary_question)
        &&& after.before_ternary_colon == insert_or(self.spacing.insert_space_before_colon_in_conditional, before.before_ternary_colon)
        &&& after.after_ternary_colon == insert_or(self.spacing.insert_space_after_colon_in_conditional, before.after_ternary_colon)
        &&& after.before_foreach_colon == insert_or(self.spacing.insert_space_before_colon_in_for, before.before_foreach_colon)
        &&& after.after_foreach_colon == insert_or(self.spacing.insert_space_after_colon_in_for, before.after_foreach_colon)
        &&& after.before_label_colon == insert_or(self.spacing.insert_space_before_colon_in_labeled_statement, before.before_label_colon)
        &&& after.after_label_colon == insert_or(self.spacing.insert_space_after_colon_in_labeled_statement, before.after_label_colon)
        &&& after.before_case_colon == insert_or(self.spacing.insert_space_before_colon_in_case, before.before_case_colon)
        &&& after.after_case_colon == insert_or(self.spacing.insert_space_after_colon_in_case, before.after_case_colon)
        &&& after.before_assert_colon == insert_or(self.spacing.insert_space_before_colon_in_assert, before.before_assert_colon)
        &&& after.after_assert_colon == insert_or(self.spacing.insert_space_after_colon_in_assert, before.after_assert_colon)
        &&& after.around_method_ref_double_colon == before.around_method_ref_double_colon
        &&& after.around_annotation_eq == before.around_annotation_eq
        &&& after.before_continuation_keyword == before.before_continuation_keyword
    }

    /// Whether `after` is `before` with this profile's `[comments]` settings lowered onto it.
    #[verifier::opaque]
    pub open spec fn lowers_comments(&self, before: JalsComments, after: JalsComments) -> bool {
        &&& after.format_line == or_keep(either(self.comments.comment_format_line_comments, self.comments.comment_format_comments), before.format_line)
        &&& after.format_block == or_keep(either(self.comments.comment_format_block_comments, self.comments.comment_format_comments), before.format_block)
        &&& after.format_javadoc == or_keep(either(self.comments.comment_format_javadoc_comments, self.comments.comment_format_comments), before.format_javadoc)
        &&& after.format_header == or_keep(self.comments.comment_format_header, before.format_header)
        &&& after.format_html == or_keep(self.comments.comment_format_html, before.format_html)
        &&& after.format_source_in_comments == or_keep(self.comments.comment_format_source_code, before.format_source_in_comments)
        &&& after.width == or_keep(self.comments.comment_line_length, before.width)
        &&& after.count_width_from_start == or_keep(self.comments.comment_count_line_length_from_starting_position, before.count_width_from_start)
        &&& after.preserve_blank_lines == not_or(either(self.comments.comment_clear_blank_lines_in_javadoc_comment, self.comments.comment_clear_blank_lines), before.preserve_blank_lines)
        &&& after.blank_line_before_tags == insert_or(self.comments.comment_insert_new_line_before_root_tags, before.blank_line_before_tags)
        &&& after.align_tag_descriptions == or_keep(self.comments.comment_align_tags_names_descriptions, before.align_tag_descriptions)
        &&& after.indent_tag_description == or_keep(self.comments.comment_indent_tag_description, before.indent_tag_description)
        &&& after.preserve_line_breaks == before.preserve_line_breaks
        &&& after.blank_lines_between_tags == before.blank_lines_between_tags
        &&& after.leading_asterisks == before.leading_asterisks
        &&& after.normalize_parameter_comments == before.normalize_parameter_comments
        &&& after.inline_block_comments == before.inline_block_comments
        &&& after.normalize_block_comments == before.normalize_block_comments
        &&& after.reflow_unclosed_html == before.reflow_unclosed_html
        &&& after.javadoc_boundaries_on_own_lines == before.javadoc_boundaries_on_own_lines
        &&& after.block_boundaries_on_own_lines == before.block_boundaries_on_own_lines
        &&& after.break_inside_inline_tags == before.break_inside_inline_tags
        &&& after.set_off_html_lists == before.set_off_html_lists
        &&& after.tables_are_preformatted == before.tables_are_preformatted
        &&& after.code_block_width == before.code_block_width
        &&& after.paragraph_tags == before.paragraph_tags
        &&& after.tag_alignment == before.tag_alignment
    }

    /// Lower this profile's `[layout]` settings onto `x`.
    pub fn lower_layout(&self, x: &mut Layout)
        ensures
            self.lowers_layout(*old(x), *final(x)),
    {
        reveal(EclipseConfig::lowers_layout);
        let width = Lower::set(self.indent_width_setting(), x.indent_width);
        *x = Layout {
            indent_style: Lower::tab(self.indentation.tabulation_char, x.indent_style),
            tab_width: Lower::set(self.indentation.tabulation_size, x.tab_width),
            indent_width: width,
            continuation_indent: Lower::continuation(self.indentation.continuation_indentation, width, x.continuation_indent),
            max_width: Lower::set(self.indentation.line_split, x.max_width),
            indent_empty_lines: Lower::set(self.indentation.indent_empty_lines, x.indent_empty_lines),
            indent_switch_labels: Lower::set(self.indentation.indent_switchstatements_compare_to_switch, x.indent_switch_labels),
            indent_switch_case_body: Lower::set(self.indentation.indent_switchstatements_compare_to_cases, x.indent_switch_case_body),
            indent_type_members: Lower::set(self.indentation.indent_body_declarations_compare_to_type_header, x.indent_type_members),
            formatter_tags: Lower::set(self.indentation.use_on_off_tags, x.formatter_tags),
            formatter_off_tag: Lower::text(&self.indentation.disabling_tag, &x.formatter_off_tag),
            formatter_on_tag: Lower::text(&self.indentation.enabling_tag, &x.formatter_on_tag),
            insert_final_newline: Lower::insert(self.new_lines.insert_new_line_at_end_of_file_if_missing, x.insert_final_newline),
            ..*x
        };
    }

    /// Lower this profile's `[blank-lines]` settings onto `x`.
    pub fn lower_blank_lines(&self, x: &mut JalsBlankLines)
        ensures
            self.lowers_blank_lines(*old(x), *final(x)),
    {
        reveal(EclipseConfig::lowers_blank_lines);
        *x = JalsBlankLines {
            max_in_code: Lower::set(self.blank_lines.number_of_empty_lines_to_preserve, x.max_in_code),
            max_in_declarations: Lower::set(self.blank_lines.number_of_empty_lines_to_preserve, x.max_in_declarations),
            before_package: Lower::set(self.blank_lines.blank_lines_before_package, x.before_package),
            after_package: Lower::set(self.blank_lines.blank_lines_after_package, x.after_package),
            before_imports: Lower::set(self.blank_lines.blank_lines_before_imports, x.before_imports),
            after_imports: Lower::set(self.blank_lines.blank_lines_after_imports, x.after_imports),
            between_import_groups: Lower::set(self.blank_lines.blank_lines_between_import_groups, x.between_import_groups),
            around_type: Lower::set(self.blank_lines.blank_lines_between_type_declarations, x.around_type),
            at_type_body_start: Lower::set(self.blank_lines.blank_lines_before_first_class_body_declaration, x.at_type_body_start),
            at_type_body_end: Lower::set(self.blank_lines.blank_lines_after_last_class_body_declaration, x.at_type_body_end),
            around_field: Lower::set(self.blank_lines.blank_lines_before_field, x.around_field),
            around_method: Lower::set(self.blank_lines.blank_lines_before_method, x.around_method),
            around_initializer: Lower::set(self.blank_lines.blank_lines_before_new_chunk, x.around_initializer),
            before_method_body: Lower::set(self.blank_lines.number_of_blank_lines_at_beginning_of_method_body, x.before_method_body),
            at_block_start: Lower::set(self.blank_lines.number_of_blank_lines_at_beginning_of_code_block, x.at_block_start),
            at_block_end: Lower::set(self.blank_lines.number_of_blank_lines_at_end_of_code_block, x.at_block_end),
            between_switch_groups: Lower::set(self.blank_lines.blank_lines_between_statement_group_in_switch, x.between_switch_groups),
            ..*x
        };
    }

    /// Lower this profile's `[braces]` settings onto `x`.
    pub fn lower_braces(&self, x: &mut JalsBraces)
        ensures
            self.lowers_braces(*old(x), *final(x)),
    {
        reveal(EclipseConfig::lowers_braces);
        *x = JalsBraces {
            type_declaration: Lower::brace(self.braces.brace_position_for_type_declaration, x.type_declaration),
            method_declaration: Lower::brace(self.braces.brace_position_for_method_declaration, x.method_declaration),
            block: Lower::brace(self.braces.brace_position_for_block, x.block),
            lambda_body: Lower::brace(self.braces.brace_position_for_lambda_body, x.lambda_body),
            switch: Lower::brace(self.braces.brace_position_for_switch, x.switch),
            array_initializer: Lower::brace(self.braces.brace_position_for_array_initializer, x.array_initializer),
            else_on_new_line: Lower::insert(self.new_lines.insert_new_line_before_else_in_if_statement, x.else_on_new_line),
            while_on_new_line: Lower::insert(self.new_lines.insert_new_line_before_while_in_do_statement, x.while_on_new_line),
            catch_on_new_line: Lower::insert(self.new_lines.insert_new_line_before_catch_in_try_statement, x.catch_on_new_line),
            finally_on_new_line: Lower::insert(self.new_lines.insert_new_line_before_finally_in_try_statement, x.finally_on_new_line),
            compact_else_if: Lower::set(self.indentation.compact_else_if, x.compact_else_if),
            keep_type_body_on_one_line: Lower::one_line(self.one_line.keep_type_declaration_on_one_line, x.keep_type_body_on_one_line),
            keep_method_body_on_one_line: Lower::one_line(self.one_line.keep_method_body_on_one_line, x.keep_method_body_on_one_line),
            keep_block_on_one_line: Lower::one_line(self.one_line.keep_code_block_on_one_line, x.keep_block_on_one_line),
            keep_lambda_body_on_one_line: Lower::one_line(self.one_line.keep_lambda_body_block_on_one_line, x.keep_lambda_body_on_one_line),
            keep_switch_body_on_one_line: Lower::one_line(self.one_line.keep_switch_body_block_on_one_line, x.keep_switch_body_on_one_line),
            keep_enum_declaration_on_one_line: Lower::one_line(self.one_line.keep_enum_declaration_on_one_line, x.keep_enum_declaration_on_one_line),
            keep_record_declaration_on_one_line: Lower::one_line(self.one_line.keep_record_declaration_on_one_line, x.keep_record_declaration_on_one_line),
            keep_annotation_declaration_on_one_line: Lower::one_line(self.one_line.keep_annotation_declaration_on_one_line, x.keep_annotation_declaration_on_one_line),
            keep_control_statement_on_one_line: Lower::set(self.one_line.keep_imple_if_on_one_line, x.keep_control_statement_on_one_line),
            ..*x
        };
    }

    /// Lower this profile's `[wrapping]` settings onto `x`.
    pub fn lower_wrapping(&self, x: &mut JalsWrapping)
        ensures
            self.lowers_wrapping(*old(x), *final(x)),
    {
        reveal(EclipseConfig::lowers_wrapping);
        *x = JalsWrapping {
            call_arguments: Lower::align(self.alignment.alignment_for_arguments_in_method_invocation, x.call_arguments),
            method_parameters: Lower::align(self.alignment.alignment_for_parameters_in_method_declaration, x.method_parameters),
            record_components: Lower::align(self.alignment.alignment_for_record_components, x.record_components),
            resource_list: Lower::align(self.alignment.alignment_for_resources_in_try, x.resource_list),
            throws_list: Lower::align(self.alignment.alignment_for_throws_clause_in_method_declaration, x.throws_list),
            extends_list: Lower::align(self.alignment.alignment_for_superinterfaces_in_type_declaration, x.extends_list),
            enum_constants: Lower::align(self.alignment.alignment_for_enum_constants, x.enum_constants),
            array_initializer: Lower::align(self.alignment.alignment_for_expressions_in_array_initializer, x.array_initializer),
            annotation_arguments: Lower::align(self.alignment.alignment_for_arguments_in_annotation, x.annotation_arguments),
            type_arguments: Lower::align(self.alignment.alignment_for_type_arguments, x.type_arguments),
            type_parameters: Lower::align(self.alignment.alignment_for_type_parameters, x.type_parameters),
            multi_catch_types: Lower::align(self.alignment.alignment_for_union_type_in_multicatch, x.multi_catch_types),
            case_labels: Lower::align(self.alignment.alignment_for_expressions_in_switch_case_with_colon, x.case_labels),
            method_chain: Lower::align(self.alignment.alignment_for_selector_in_method_invocation, x.method_chain),
            binary_operation: Lower::align(either_of(self.alignment.alignment_for_additive_operator, self.alignment.alignment_for_binary_expression), x.binary_operation),
            ternary: Lower::align(self.alignment.alignment_for_conditional_expression, x.ternary),
            assignment: Lower::align(self.alignment.alignment_for_assignment, x.assignment),
            for_statement: Lower::align(self.alignment.alignment_for_expressions_in_for_loop_header, x.for_statement),
            assert_statement: Lower::align(self.alignment.alignment_for_assertion_message, x.assert_statement),
            switch_expression: Lower::align(self.alignment.alignment_for_expressions_in_switch_case_with_arrow, x.switch_expression),
            type_annotations: Lower::annotation(either_of(self.new_lines.insert_new_line_after_annotation_on_type, self.new_lines.insert_new_line_after_annotation), x.type_annotations),
            method_annotations: Lower::annotation(either_of(self.new_lines.insert_new_line_after_annotation_on_method, self.new_lines.insert_new_line_after_annotation_on_member), x.method_annotations),
            field_annotations: Lower::annotation(either_of(self.new_lines.insert_new_line_after_annotation_on_field, self.new_lines.insert_new_line_after_annotation_on_member), x.field_annotations),
            parameter_annotations: Lower::annotation(self.new_lines.insert_new_line_after_annotation_on_parameter, x.parameter_annotations),
            variable_annotations: Lower::annotation(self.new_lines.insert_new_line_after_annotation_on_local_variable, x.variable_annotations),
            before_binary_operator: Lower::set(either_of(self.wrapping.wrap_before_additive_operator, self.wrapping.wrap_before_binary_operator), x.before_binary_operator),
            before_ternary_operator: Lower::set(self.wrapping.wrap_before_conditional_operator, x.before_ternary_operator),
            before_assignment_operator: Lower::set(self.wrapping.wrap_before_assignment_operator, x.before_assignment_operator),
            before_assert_colon: Lower::set(self.wrapping.wrap_before_assertion_message_operator, x.before_assert_colon),
            paren_method_declaration: Lower::paren(self.wrapping.parentheses_positions_in_method_delcaration, x.paren_method_declaration),
            paren_method_invocation: Lower::paren(self.wrapping.parentheses_positions_in_method_invocation, x.paren_method_invocation),
            paren_control: Lower::paren(self.wrapping.parentheses_positions_in_if_while_statement, x.paren_control),
            paren_annotation: Lower::paren(self.wrapping.parentheses_positions_in_annotation, x.paren_annotation),
            paren_lambda: Lower::paren(self.wrapping.parentheses_positions_in_lambda_declaration, x.paren_lambda),
            paren_record: Lower::paren(self.wrapping.parentheses_positions_in_record_declaration, x.paren_record),
            join_wrapped_lines: Lower::set(self.indentation.join_wrapped_lines, x.join_wrapped_lines),
            ..*x
        };
    }

    /// Lower this profile's `[spacing]` settings onto `x`.
    pub fn lower_spacing(&self, x: &mut JalsSpacing)
        ensures
            self.lowers_spacing(*old(x), *final(x)),
    {
        reveal(EclipseConfig::lowers_spacing);
        *x = JalsSpacing {
            around_assignment_operators: Lower::around(self.spacing.insert_space_before_assignment_operator, self.spacing.insert_space_after_assignment_operator, x.around_assignment_operators),
            around_logical_operators: Lower::around(self.spacing.insert_space_before_logical_operator, self.spacing.insert_space_after_logical_operator, x.around_logical_operators),
            around_equality_operators: Lower::around(self.spacing.insert_space_before_relational_operator, self.spacing.insert_space_after_relational_operator, x.around_equality_operators),
            around_relational_operators: Lower::around(self.spacing.insert_space_before_relational_operator, self.spacing.insert_space_after_relational_operator, x.around_relational_operators),
            around_bitwise_operators: Lower::around(self.spacing.insert_space_before_bitwise_operator, self.spacing.insert_space_after_bitwise_operator, x.around_bitwise_operators),
            around_additive_operators: Lower::around(self.spacing.insert_space_before_additive_operator, self.spacing.insert_space_after_additive_operator, x.around_additive_operators),
            around_multiplicative_operators: Lower::around(self.spacing.insert_space_before_multiplicative_operator, self.spacing.insert_space_after_multiplicative_operator, x.around_multiplicative_operators),
            around_shift_operators: Lower::around(self.spacing.insert_space_before_shift_operator, self.spacing.insert_space_after_shift_operator, x.around_shift_operators),
            around_unary_operator: Lower::around(self.spacing.insert_space_before_unary_operator, self.spacing.insert_space_after_unary_operator, x.around_unary_operator),
            around_lambda_arrow: Lower::around(self.spacing.insert_space_before_lambda_arrow, self.spacing.insert_space_after_lambda_arrow, x.around_lambda_arrow),
            around_type_bounds: Lower::around(self.spacing.insert_space_before_and_in_type_parameter, self.spacing.insert_space_after_and_in_type_parameter, x.around_type_bounds),
            before_comma: Lower::insert(self.spacing.insert_space_before_comma_in_method_invocation_arguments, x.before_comma),
            after_comma: Lower::insert(self.spacing.insert_space_after_comma_in_method_invocation_arguments, x.after_comma),
            before_semicolon: Lower::insert(self.spacing.insert_space_before_semicolon_in_for, x.before_semicolon),
            after_semicolon: Lower::insert(self.spacing.insert_space_after_semicolon_in_for, x.after_semicolon),
            before_method_call_parentheses: Lower::insert(self.spacing.insert_space_before_opening_paren_in_method_invocation, x.before_method_call_parentheses),
            before_method_parentheses: Lower::insert(self.spacing.insert_space_before_opening_paren_in_method_declaration, x.before_method_parentheses),
            before_keyword_parentheses: Lower::insert(self.spacing.insert_space_before_opening_paren_in_if, x.before_keyword_parentheses),
            before_annotation_parentheses: Lower::insert(self.spacing.insert_space_before_opening_paren_in_annotation, x.before_annotation_parentheses),
            within_method_call_parentheses: Lower::insert(self.spacing.insert_space_after_opening_paren_in_method_invocation, x.within_method_call_parentheses),
            within_method_parentheses: Lower::insert(self.spacing.insert_space_after_opening_paren_in_method_declaration, x.within_method_parentheses),
            within_keyword_parentheses: Lower::insert(self.spacing.insert_space_after_opening_paren_in_if, x.within_keyword_parentheses),
            within_cast_parentheses: Lower::insert(self.spacing.insert_space_after_opening_paren_in_cast, x.within_cast_parentheses),
            within_annotation_parentheses: Lower::insert(self.spacing.insert_space_after_opening_paren_in_annotation, x.within_annotation_parentheses),
            within_brackets: Lower::insert(self.spacing.insert_space_after_opening_bracket_in_array_reference, x.within_brackets),
            within_array_initializer_braces: Lower::insert(self.spacing.insert_space_after_opening_brace_in_array_initializer, x.within_array_initializer_braces),
            within_angle_brackets: Lower::insert(self.spacing.insert_space_after_opening_angle_bracket_in_type_arguments, x.within_angle_brackets),
            within_record_header: Lower::insert(self.spacing.insert_space_after_opening_paren_in_record_declaration, x.within_record_header),
            within_empty_parentheses: Lower::insert(self.spacing.insert_space_between_empty_parens_in_method_declaration, x.within_empty_parentheses),
            within_empty_braces: Lower::insert(self.spacing.insert_space_between_empty_braces_in_array_initializer, x.within_empty_braces),
            before_left_brace: Lower::insert(self.spacing.insert_space_before_opening_brace_in_block, x.before_left_brace),
            before_array_initializer_left_brace: Lower::insert(self.spacing.insert_space_before_opening_brace_in_array_initializer, x.before_array_initializer_left_brace),
            after_type_cast: Lower::insert(self.spacing.insert_space_after_closing_paren_in_cast, x.after_type_cast),
            before_type_parameter_list: Lower::insert(self.spacing.insert_space_before_opening_angle_bracket_in_type_parameters, x.before_type_parameter_list),
            before_ternary_question: Lower::insert(self.spacing.insert_space_before_question_in_conditional, x.before_ternary_question),
            after_ternary_question: Lower::insert(self.spacing.insert_space_after_question_in_conditional, x.after_ternary_question),
            before_ternary_colon: Lower::insert(self.spacing.insert_space_before_colon_in_conditional, x.before_ternary_colon),
            after_ternary_colon: Lower::insert(self.spacing.insert_space_after_colon_in_conditional, x.after_ternary_colon),
            before_foreach_colon: Lower::insert(self.spacing.insert_space_before_colon_in_for, x.before_foreach_colon),
            after_foreach_colon: Lower::insert(self.spacing.insert_space_after_colon_in_for, x.after_foreach_colon),
            before_label_colon: Lower::insert(self.spacing.insert_space_before_colon_in_labeled_statement, x.before_label_colon),
            after_label_colon: Lower::insert(self.spacing.insert_space_after_colon_in_labeled_statement, x.after_label_colon),
            before_case_colon: Lower::insert(self.spacing.insert_space_before_colon_in_case, x.before_case_colon),
            after_case_colon: Lower::insert(self.spacing.insert_space_after_colon_in_case, x.after_case_colon),
            before_assert_colon: Lower::insert(self.spacing.insert_space_before_colon_in_assert, x.before_assert_colon),
            after_assert_colon: Lower::insert(self.spacing.insert_space_after_colon_in_assert, x.after_assert_colon),
            ..*x
        };
    }

    /// Lower this profile's `[comments]` settings onto `x`.
    pub fn lower_comments(&self, x: &mut JalsComments)
        ensures
            self.lowers_comments(*old(x), *final(x)),
    {
        reveal(EclipseConfig::lowers_comments);
        *x = JalsComments {
            format_line: Lower::set(either_of(self.comments.comment_format_line_comments, self.comments.comment_format_comments), x.format_line),
            format_block: Lower::set(either_of(self.comments.comment_format_block_comments, self.comments.comment_format_comments), x.format_block),
            format_javadoc: Lower::set(either_of(self.comments.comment_format_javadoc_comments, self.comments.comment_format_comments), x.format_javadoc),
            format_header: Lower::set(self.comments.comment_format_header, x.format_header),
            format_html: Lower::set(self.comments.comment_format_html, x.format_html),
            format_source_in_comments: Lower::set(self.comments.comment_format_source_code, x.format_source_in_comments),
            width: Lower::set(self.comments.comment_line_length, x.width),
            count_width_from_start: Lower::set(self.comments.comment_count_line_length_from_starting_position, x.count_width_from_start),
            preserve_blank_lines: Lower::negated(either_of(self.comments.comment_clear_blank_lines_in_javadoc_comment, self.comments.comment_clear_blank_lines), x.preserve_blank_lines),
            blank_line_before_tags: Lower::insert(self.comments.comment_insert_new_line_before_root_tags, x.blank_line_before_tags),
            align_tag_descriptions: Lower::set(self.comments.comment_align_tags_names_descriptions, x.align_tag_descriptions),
            indent_tag_description: Lower::set(self.comments.comment_indent_tag_description, x.indent_tag_description),
            ..*x
        };
    }

    /// Whether `after` is `before` with every setting of this profile that has a jals
    /// equivalent lowered onto it, and nothing else changed.
    pub open spec fn lowers(&self, before: Config, after: Config) -> bool {
        &&& self.lowers_layout(before.layout, after.layout)
        &&& self.lowers_blank_lines(before.blank_lines, after.blank_lines)
        &&& self.lowers_braces(before.braces, after.braces)
        &&& self.lowers_wrapping(before.wrapping, after.wrapping)
        &&& self.lowers_spacing(before.spacing, after.spacing)
        &&& self.lowers_comments(before.comments, after.comments)
        &&& after.imports == before.imports
    }

    /// Whether `config` is the jals configuration this profile denotes: the defaults with every
    /// declared setting that has a jals equivalent lowered onto it.
    pub open spec fn produces(&self, config: Config) -> bool {
        exists|base: Config| base.is_default() && self.lowers(base, config)
    }

    /// Lower every setting of this profile that has a jals equivalent onto `config`.
    pub fn lower_onto(&self, config: &mut Config)
        ensures
            self.lowers(*old(config), *final(config)),
    {
        self.lower_layout(&mut config.layout);
        self.lower_blank_lines(&mut config.blank_lines);
        self.lower_braces(&mut config.braces);
        self.lower_wrapping(&mut config.wrapping);
        self.lower_spacing(&mut config.spacing);
        self.lower_comments(&mut config.comments);
    }

    /// The jals configuration this profile denotes: the defaults with every declared
    /// setting that has a jals equivalent lowered onto it.
    pub fn to_config(&self) -> (r: Config)
        ensures
            self.produces(r),
    {
        let mut config = Config::default();
        let ghost base = config;
        self.lower_onto(&mut config);
        assert(base.is_default() && self.lowers(base, config));
        config
    }
}

/// Importer for the `.settings/org.eclipse.jdt.core.prefs` properties file.
#[derive(Debug, Clone, Copy, Default)]
pub struct EclipsePrefs;

impl EclipsePrefs {
    /// Parse the properties file into the profile model.
    pub fn parse(src: &str) -> (r: Result<EclipseConfig, ImportError>)
        ensures
            r matches Ok(c) && c.reads(properties_spec(src@)),
    {
        EclipseConfig::from_pairs(&Properties::parse(src))
    }

    /// Parse the properties file and lower it to a jals configuration in one step.
    pub fn import(src: &str) -> (r: Result<Config, ImportError>)
        ensures
            r matches Ok(config) && exists|native: EclipseConfig, base: Config|
                native.reads(properties_spec(src@)) && base.is_default()
                    && native.lowers(base, config),
    {
        match Self::parse(src) {
            Ok(native) => Ok(native.to_config()),
            Err(e) => Err(e),
        }
    }
}

impl ConfigImporter for EclipsePrefs {
    type Native = EclipseConfig;

    fn parse(src: &str) -> (r: Result<EclipseConfig, ImportError>)
        ensures
            r matches Ok(c) && c.reads(properties_spec(src@)),
    {
        EclipsePrefs::parse(src)
    }

    fn import(src: &str) -> (r: Result<Config, ImportError>)
        ensures
            r matches Ok(config) && exists|native: EclipseConfig, base: Config|
                native.reads(properties_spec(src@)) && base.is_default()
                    && native.lowers(base, config),
    {
        EclipsePrefs::import(src)
    }
}

/// Importer for an exported Eclipse XML formatter profile.
#[derive(Debug, Clone, Copy, Default)]
pub struct EclipseXmlProfile;

impl EclipseXmlProfile {
    /// Parse the XML profile into the profile model: its `<setting>` elements in the formatter
    /// namespace, read from the document's items. A malformed document is an error, never a
    /// panic.
    pub fn parse(src: &str) -> (r: Result<EclipseConfig, ImportError>)
        ensures
            match profile_spec(document_items(src@)) {
                Ok(m) => r matches Ok(c) && c.reads(m),
                Err(e) => r matches Err(ImportError::Xml(d)) && d@ == e,
            },
    {
        let read = EclipseProfileReader::parse(src);
        match read {
            Ok(pairs) => EclipseConfig::from_pairs(&pairs),
            Err(e) => Err(e),
        }
    }

    /// Parse the XML profile and lower it to a jals configuration in one step.
    pub fn import(src: &str) -> (r: Result<Config, ImportError>)
        ensures
            match profile_spec(document_items(src@)) {
                Ok(m) => r matches Ok(config) && exists|native: EclipseConfig| native.reads(m) && native.produces(config),
                Err(e) => r matches Err(ImportError::Xml(d)) && d@ == e,
            },
    {
        match Self::parse(src) {
            Ok(native) => Ok(native.to_config()),
            Err(e) => Err(e),
        }
    }
}

impl ConfigImporter for EclipseXmlProfile {
    type Native = EclipseConfig;

    fn parse(src: &str) -> (r: Result<EclipseConfig, ImportError>)
        ensures
            match profile_spec(document_items(src@)) {
                Ok(m) => r matches Ok(c) && c.reads(m),
                Err(e) => r matches Err(ImportError::Xml(d)) && d@ == e,
            },
    {
        EclipseXmlProfile::parse(src)
    }

    fn import(src: &str) -> (r: Result<Config, ImportError>)
        ensures
            match profile_spec(document_items(src@)) {
                Ok(m) => r matches Ok(config) && exists|native: EclipseConfig| native.reads(m) && native.produces(config),
                Err(e) => r matches Err(ImportError::Xml(d)) && d@ == e,
            },
    {
        EclipseXmlProfile::import(src)
    }
}

/// Lowering the `[layout]` settings a second time changes nothing.
pub proof fn law_layout_lowered_twice(native: EclipseConfig, base: Layout, once: Layout, twice: Layout)
    requires
        native.lowers_layout(base, once),
        native.lowers_layout(once, twice),
    ensures
        twice == once,
{
    reveal(EclipseConfig::lowers_layout);
}

/// A profile that declares nothing leaves the `[layout]` settings as they were.
pub proof fn law_layout_unset_keeps(native: EclipseConfig, base: Layout, after: Layout)
    requires
        native.indentation.reads(Map::empty()),
        native.new_lines.reads(Map::empty()),
        native.lowers_layout(base, after),
    ensures
        after == base,
{
    reveal(EclipseConfig::lowers_layout);
    reveal(Indentation::reads);
    reveal(NewLines::reads);
}

/// Lowering the `[blank-lines]` settings a second time changes nothing.
pub proof fn law_blank_lines_lowered_twice(native: EclipseConfig, base: JalsBlankLines, once: JalsBlankLines, twice: JalsBlankLines)
    requires
        native.lowers_blank_lines(base, once),
        native.lowers_blank_lines(once, twice),
    ensures
        twice == once,
{
    reveal(EclipseConfig::lowers_blank_lines);
}

/// A profile that declares nothing leaves the `[blank-lines]` settings as they were.
pub proof fn law_blank_lines_unset_keeps(native: EclipseConfig, base: JalsBlankLines, after: JalsBlankLines)
    requires
        native.blank_lines.reads(Map::empty()),
        native.lowers_blank_lines(base, after),
    ensures
        after == base,
{
    reveal(EclipseConfig::lowers_blank_lines);
    reveal(BlankLines::reads);
}

/// Lowering the `[braces]` settings a second time changes nothing.
pub proof fn law_braces_lowered_twice(native: EclipseConfig, base: JalsBraces, once: JalsBraces, twice: JalsBraces)
    requires
        native.lowers_braces(base, once),
        native.lowers_braces(once, twice),
    ensures
        twice == once,
{
    reveal(EclipseConfig::lowers_braces);
}

/// A profile that declares nothing leaves the `[braces]` settings as they were.
pub proof fn law_braces_unset_keeps(native: EclipseConfig, base: JalsBraces, after: JalsBraces)
    requires
        native.braces.reads(Map::empty()),
        native.indentation.reads(Map::empty()),
        native.new_lines.reads(Map::empty()),
        native.one_line.reads(Map::empty()),
        native.lowers_braces(base, after),
    ensures
        after == base,
{
    reveal(EclipseConfig::lowers_braces);
    reveal(Braces::reads);
    reveal(Indentation::reads);
    reveal(NewLines::reads);
    reveal(OneLineBodies::reads);
}

/// Lowering the `[wrapping]` settings a second time changes nothing.
pub proof fn law_wrapping_lowered_twice(native: EclipseConfig, base: JalsWrapping, once: JalsWrapping, twice: JalsWrapping)
    requires
        native.lowers_wrapping(base, once),
        native.lowers_wrapping(once, twice),
    ensures
        twice == once,
{
    reveal(EclipseConfig::lowers_wrapping);
}

/// A profile that declares nothing leaves the `[wrapping]` settings as they were.
pub proof fn law_wrapping_unset_keeps(native: EclipseConfig, base: JalsWrapping, after: JalsWrapping)
    requires
        native.alignment.reads(Map::empty()),
        native.indentation.reads(Map::empty()),
        native.new_lines.reads(Map::empty()),
        native.wrapping.reads(Map::empty()),
        native.lowers_wrapping(base, after),
    ensures
        after == base,
{
    reveal(EclipseConfig::lowers_wrapping);
    reveal(Alignments::reads);
    reveal(Indentation::reads);
    reveal(NewLines::reads);
    reveal(Wrapping::reads);
}

/// Lowering the `[spacing]` settings a second time changes nothing.
#[verifier::rlimit(60)]
pub proof fn law_spacing_lowered_twice(native: EclipseConfig, base: JalsSpacing, once: JalsSpacing, twice: JalsSpacing)
    requires
        native.lowers_spacing(base, once),
        native.lowers_spacing(once, twice),
    ensures
        twice == once,
{
    reveal(EclipseConfig::lowers_spacing);
}

/// A profile that declares nothing leaves the `[spacing]` settings as they were.
pub proof fn law_spacing_unset_keeps(native: EclipseConfig, base: JalsSpacing, after: JalsSpacing)
    requires
        native.spacing.reads(Map::empty()),
        native.lowers_spacing(base, after),
    ensures
        after == base,
{
    reveal(EclipseConfig::lowers_spacing);
    reveal(Spacing::reads);
}

/// Lowering the `[comments]` settings a second time changes nothing.
pub proof fn law_comments_lowered_twice(native: EclipseConfig, base: JalsComments, once: JalsComments, twice: JalsComments)
    requires
        native.lowers_comments(base, once),
        native.lowers_comments(once, twice),
    ensures
        twice == once,
{
    reveal(EclipseConfig::lowers_comments);
}

/// A profile that declares nothing leaves the `[comments]` settings as they were.
pub proof fn law_comments_unset_keeps(native: EclipseConfig, base: JalsComments, after: JalsComments)
    requires
        native.comments.reads(Map::empty()),
        native.lowers_comments(base, after),
    ensures
        after == base,
{
    reveal(EclipseConfig::lowers_comments);
    reveal(Comments::reads);
}

/// A profile that declares nothing is the defaults: every jals option its settings would move
/// keeps its default value.
pub proof fn law_an_empty_profile_is_the_defaults(native: EclipseConfig, config: Config)
    requires
        native.reads(Map::empty()),
        native.produces(config),
    ensures
        config.is_default(),
{
    let base = choose|base: Config| base.is_default() && native.lowers(base, config);
    law_layout_unset_keeps(native, base.layout, config.layout);
    law_blank_lines_unset_keeps(native, base.blank_lines, config.blank_lines);
    law_braces_unset_keeps(native, base.braces, config.braces);
    law_wrapping_unset_keeps(native, base.wrapping, config.wrapping);
    law_spacing_unset_keeps(native, base.spacing, config.spacing);
    law_comments_unset_keeps(native, base.comments, config.comments);
}

/// The profile's `tabulation.char` decides how the lowered layout indents: `tab` indents with
/// tabs, `space` with spaces and `mixed` with tabs filled out by spaces; a profile that does
/// not declare it keeps the indent style it was lowered onto.
pub proof fn law_tabulation_char_decides_the_indent_style(native: EclipseConfig, before: Layout, after: Layout)
    requires
        native.lowers_layout(before, after),
    ensures
        native.indentation.tabulation_char == Some(TabChar::Tab) ==> after.indent_style == IndentStyle::Tab,
        native.indentation.tabulation_char == Some(TabChar::Space) ==> after.indent_style == IndentStyle::Space,
        native.indentation.tabulation_char == Some(TabChar::Mixed) ==> after.indent_style == IndentStyle::Mixed,
        native.indentation.tabulation_char is None ==> after.indent_style == before.indent_style,
{
    reveal(EclipseConfig::lowers_layout);
}

/// The configuration a profile denotes indents with tabs when its `tabulation.char` is `tab`,
/// with spaces when it is `space`, and mixed when it is `mixed`.
pub proof fn law_a_profile_indents_as_its_tabulation_char(native: EclipseConfig, config: Config)
    requires
        native.produces(config),
    ensures
        native.indentation.tabulation_char == Some(TabChar::Tab) ==> config.layout.indent_style == IndentStyle::Tab,
        native.indentation.tabulation_char == Some(TabChar::Space) ==> config.layout.indent_style == IndentStyle::Space,
        native.indentation.tabulation_char == Some(TabChar::Mixed) ==> config.layout.indent_style == IndentStyle::Mixed,
{
    let base = choose|base: Config| base.is_default() && native.lowers(base, config);
    law_tabulation_char_decides_the_indent_style(native, base.layout, config.layout);
}

} // verus!
