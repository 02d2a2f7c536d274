//! Eclipse JDT — indentation, width, and the settings that belong to no larger family.
//!
//! Everything under `org.eclipse.jdt.core.formatter.` that is not one of the eight regular
//! families: the tab / indent sizes, the `lineSplit` column limit, the on/off tags, the
//! `indent_*` toggles, `join_*`, `align_*_on_columns`, and the text-block settings.

use vstd::prelude::*;

use crate::import::kv::KvMap;
use crate::import::serde_kv::{Kv, lookup, lookup_bool, lookup_enum, lookup_usize, opt_view};
use super::values::{TabChar, TextBlockIndentation};

verus! {

/// The indentation, width, and miscellaneous settings of a profile.
#[derive(Debug, Clone, Default, PartialEq, Eq)]
pub struct Indentation {
    /// `align_arrows_in_switch_on_columns`.
    pub align_arrows_in_switch_on_columns: Option<bool>,
    /// `align_assignment_statements_on_columns`.
    pub align_assignment_statements_on_columns: Option<bool>,
    /// `align_fields_grouping_blank_lines`.
    pub align_fields_grouping_blank_lines: Option<usize>,
    /// `align_selector_in_method_invocation_on_expression_first_line`.
    pub align_selector_in_method_invocation_on_expression_first_line: Option<bool>,
    /// `align_type_members_on_columns`.
    pub align_type_members_on_columns: Option<bool>,
    /// `align_variable_declarations_on_columns`.
    pub align_variable_declarations_on_columns: Option<bool>,
    /// `align_with_spaces`.
    pub align_with_spaces: Option<bool>,
    /// `compact_else_if`.
    pub compact_else_if: Option<bool>,
    /// `continuation_indentation`.
    pub continuation_indentation: Option<usize>,
    /// `continuation_indentation_for_array_initializer`.
    pub continuation_indentation_for_array_initializer: Option<usize>,
    /// `disabling_tag`.
    pub disabling_tag: Option<String>,
    /// `enabling_tag`.
    pub enabling_tag: Option<String>,
    /// `format_guardian_clause_on_one_line`.
    pub format_guardian_clause_on_one_line: Option<bool>,
    /// `format_line_comment_starting_on_first_column`.
    pub format_line_comment_starting_on_first_column: Option<bool>,
    /// `indent_body_declarations_compare_to_annotation_declaration_header`.
    pub indent_body_declarations_compare_to_annotation_declaration_header: Option<bool>,
    /// `indent_body_declarations_compare_to_enum_constant_header`.
    pub indent_body_declarations_compare_to_enum_constant_header: Option<bool>,
    /// `indent_body_declarations_compare_to_enum_declaration_header`.
    pub indent_body_declarations_compare_to_enum_declaration_header: Option<bool>,
    /// `indent_body_declarations_compare_to_record_header`.
    pub indent_body_declarations_compare_to_record_header: Option<bool>,
    /// `indent_body_declarations_compare_to_type_header`.
    pub indent_body_declarations_compare_to_type_header: Option<bool>,
    /// `indent_breaks_compare_to_cases`.
    pub indent_breaks_compare_to_cases: Option<bool>,
    /// `indent_empty_lines`.
    pub indent_empty_lines: Option<bool>,
    /// `indent_statements_compare_to_block`.
    pub indent_statements_compare_to_block: Option<bool>,
    /// `indent_statements_compare_to_body`.
    pub indent_statements_compare_to_body: Option<bool>,
    /// `indent_switchstatements_compare_to_cases`.
    pub indent_switchstatements_compare_to_cases: Option<bool>,
    /// `indent_switchstatements_compare_to_switch`.
    pub indent_switchstatements_compare_to_switch: Option<bool>,
    /// `indentation.size`.
    pub indentation_size: Option<usize>,
    /// `join_line_comments`.
    pub join_line_comments: Option<bool>,
    /// `join_lines_in_comments`.
    pub join_lines_in_comments: Option<bool>,
    /// `join_wrapped_lines`.
    pub join_wrapped_lines: Option<bool>,
    /// `keep_else_statement_on_same_line`.
    pub keep_else_statement_on_same_line: Option<bool>,
    /// `keep_simple_do_while_body_on_same_line`.
    pub keep_simple_do_while_body_on_same_line: Option<bool>,
    /// `keep_simple_for_body_on_same_line`.
    pub keep_simple_for_body_on_same_line: Option<bool>,
    /// `keep_simple_while_body_on_same_line`.
    pub keep_simple_while_body_on_same_line: Option<bool>,
    /// `keep_then_statement_on_same_line`.
    pub keep_then_statement_on_same_line: Option<bool>,
    /// `lineSplit`.
    pub line_split: Option<usize>,
    /// `never_indent_block_comments_on_first_column`.
    pub never_indent_block_comments_on_first_column: Option<bool>,
    /// `never_indent_line_comments_on_first_column`.
    pub never_indent_line_comments_on_first_column: Option<bool>,
    /// `put_empty_statement_on_new_line`.
    pub put_empty_statement_on_new_line: Option<bool>,
    /// `put_text_block_quotes_on_new_line`.
    pub put_text_block_quotes_on_new_line: Option<bool>,
    /// `tabulation.char`.
    pub tabulation_char: Option<TabChar>,
    /// `tabulation.size`.
    pub tabulation_size: Option<usize>,
    /// `text_block_indentation`.
    pub text_block_indentation: Option<TextBlockIndentation>,
    /// `use_on_off_tags`.
    pub use_on_off_tags: Option<bool>,
    /// `use_tabs_only_for_leading_indentations`.
    pub use_tabs_only_for_leading_indentations: Option<bool>,
    /// `wrap_outer_expressions_when_nested`.
    pub wrap_outer_expressions_when_nested: Option<bool>,
}

impl Indentation {
    /// Whether every field holds what the settings map gives its id.
    #[verifier::opaque]
    pub open spec fn reads(&self, m: Map<Seq<char>, Seq<char>>) -> bool {
        &&& self.align_arrows_in_switch_on_columns == lookup_bool(m, "org.eclipse.jdt.core.formatter.align_arrows_in_switch_on_columns"@)
        &&& self.align_assignment_statements_on_columns == lookup_bool(m, "org.eclipse.jdt.core.formatter.align_assignment_statements_on_columns"@)
        &&& self.align_fields_grouping_blank_lines == lookup_usize(m, "org.eclipse.jdt.core.formatter.align_fields_grouping_blank_lines"@)
        &&& self.align_selector_in_method_invocation_on_expression_first_line == lookup_bool(m, "org.eclipse.jdt.core.formatter.align_selector_in_method_invocation_on_expression_first_line"@)
        &&& self.align_type_members_on_columns == lookup_bool(m, "org.eclipse.jdt.core.formatter.align_type_members_on_columns"@)
        &&& self.align_variable_declarations_on_columns == lookup_bool(m, "org.eclipse.jdt.core.formatter.align_variable_declarations_on_columns"@)
        &&& self.align_with_spaces == lookup_bool(m, "org.eclipse.jdt.core.formatter.align_with_spaces"@)
        &&& self.compact_else_if == lookup_bool(m, "org.eclipse.jdt.core.formatter.compact_else_if"@)
        &&& self.continuation_indentation == lookup_usize(m, "org.eclipse.jdt.core.formatter.continuation_indentation"@)
        &&& self.continuation_indentation_for_array_initializer == lookup_usize(m, "org.eclipse.jdt.core.formatter.continuation_indentation_for_array_initializer"@)
        &&& opt_view(self.disabling_tag) == lookup(m, "org.eclipse.jdt.core.formatter.disabling_tag"@)
        &&& opt_view(self.enabling_tag) == lookup(m, "org.eclipse.jdt.core.formatter.enabling_tag"@)
        &&& self.format_guardian_clause_on_one_line == lookup_bool(m, "org.eclipse.jdt.core.formatter.format_guardian_clause_on_one_line"@)
        &&& self.format_line_comment_starting_on_first_column == lookup_bool(m, "org.eclipse.jdt.core.formatter.format_line_comment_starting_on_first_column"@)
        &&& self.indent_body_declarations_compare_to_annotation_declaration_header == lookup_bool(m, "org.eclipse.jdt.core.formatter.indent_body_declarations_compare_to_annotation_declaration_header"@)
        &&& self.indent_body_declarations_compare_to_enum_constant_header == lookup_bool(m, "org.eclipse.jdt.core.formatter.indent_body_declarations_compare_to_enum_constant_header"@)
        &&& self.indent_body_declarations_compare_to_enum_declaration_header == lookup_bool(m, "org.eclipse.jdt.core.formatter.indent_body_declarations_compare_to_enum_declaration_header"@)
        &&& self.indent_body_declarations_compare_to_record_header == lookup_bool(m, "org.eclipse.jdt.core.formatter.indent_body_declarations_compare_to_record_header"@)
        &&& self.indent_body_declarations_compare_to_type_header == lookup_bool(m, "org.eclipse.jdt.core.formatter.indent_body_declarations_compare_to_type_header"@)
        &&& self.indent_breaks_compare_to_cases == lookup_bool(m, "org.eclipse.jdt.core.formatter.indent_breaks_compare_to_cases"@)
        &&& self.indent_empty_lines == lookup_bool(m, "org.eclipse.jdt.core.formatter.indent_empty_lines"@)
        &&& self.indent_statements_compare_to_block == lookup_bool(m, "org.eclipse.jdt.core.formatter.indent_statements_compare_to_block"@)
        &&& self.indent_statements_compare_to_body == lookup_bool(m, "org.eclipse.jdt.core.formatter.indent_statements_compare_to_body"@)
        &&& self.indent_switchstatements_compare_to_cases == lookup_bool(m, "org.eclipse.jdt.core.formatter.indent_switchstatements_compare_to_cases"@)
        &&& self.indent_switchstatements_compare_to_switch == lookup_bool(m, "org.eclipse.jdt.core.formatter.indent_switchstatements_compare_to_switch"@)
        &&& self.indentation_size == lookup_usize(m, "org.eclipse.jdt.core.formatter.indentation.size"@)
        &&& self.join_line_comments == lookup_bool(m, "org.eclipse.jdt.core.formatter.join_line_comments"@)
        &&& self.join_lines_in_comments == lookup_bool(m, "org.eclipse.jdt.core.formatter.join_lines_in_comments"@)
        &&& self.join_wrapped_lines == lookup_bool(m, "org.eclipse.jdt.core.formatter.join_wrapped_lines"@)
        &&& self.keep_else_statement_on_same_line == lookup_bool(m, "org.eclipse.jdt.core.formatter.keep_else_statement_on_same_line"@)
        &&& self.keep_simple_do_while_body_on_same_line == lookup_bool(m, "org.eclipse.jdt.core.formatter.keep_simple_do_while_body_on_same_line"@)
        &&& self.keep_simple_for_body_on_same_line == lookup_bool(m, "org.eclipse.jdt.core.formatter.keep_simple_for_body_on_same_line"@)
        &&& self.keep_simple_while_body_on_same_line == lookup_bool(m, "org.eclipse.jdt.core.formatter.keep_simple_while_body_on_same_line"@)
        &&& self.keep_then_statement_on_same_line == lookup_bool(m, "org.eclipse.jdt.core.formatter.keep_then_statement_on_same_line"@)
        &&& self.line_split == lookup_usize(m, "org.eclipse.jdt.core.formatter.lineSplit"@)
        &&& self.never_indent_block_comments_on_first_column == lookup_bool(m, "org.eclipse.jdt.core.formatter.never_indent_block_comments_on_first_column"@)
        &&& self.never_indent_line_comments_on_first_column == lookup_bool(m, "org.eclipse.jdt.core.formatter.never_indent_line_comments_on_first_column"@)
        &&& self.put_empty_statement_on_new_line == lookup_bool(m, "org.eclipse.jdt.core.formatter.put_empty_statement_on_new_line"@)
        &&& self.put_text_block_quotes_on_new_line == lookup_bool(m, "org.eclipse.jdt.core.formatter.put_text_block_quotes_on_new_line"@)
        &&& self.tabulation_char == lookup_enum::<TabChar>(m, "org.eclipse.jdt.core.formatter.tabulation.char"@)
        &&& self.tabulation_size == lookup_usize(m, "org.eclipse.jdt.core.formatter.tabulation.size"@)
        &&& self.text_block_indentation == lookup_enum::<TextBlockIndentation>(m, "org.eclipse.jdt.core.formatter.text_block_indentation"@)
        &&& self.use_on_off_tags == lookup_bool(m, "org.eclipse.jdt.core.formatter.use_on_off_tags"@)
        &&& self.use_tabs_only_for_leading_indentations == lookup_bool(m, "org.eclipse.jdt.core.formatter.use_tabs_only_for_leading_indentations"@)
        &&& self.wrap_outer_expressions_when_nested == lookup_bool(m, "org.eclipse.jdt.core.formatter.wrap_outer_expressions_when_nested"@)
    }

    /// Read every field from the flat settings map; an id the map lacks, or a value that
    /// does not parse, leaves the field unset.
    pub fn from_map(m: &KvMap) -> (r: Self)
        ensures
            r.reads(m@),
    {
        reveal(Indentation::reads);
        Indentation {
            align_arrows_in_switch_on_columns: Kv::field_bool(m, "org.eclipse.jdt.core.formatter.align_arrows_in_switch_on_columns"),
            align_assignment_statements_on_columns: Kv::field_bool(m, "org.eclipse.jdt.core.formatter.align_assignment_statements_on_columns"),
            align_fields_grouping_blank_lines: Kv::field_usize(m, "org.eclipse.jdt.core.formatter.align_fields_grouping_blank_lines"),
            align_selector_in_method_invocation_on_expression_first_line: Kv::field_bool(m, "org.eclipse.jdt.core.formatter.align_selector_in_method_invocation_on_expression_first_line"),
            align_type_members_on_columns: Kv::field_bool(m, "org.eclipse.jdt.core.formatter.align_type_members_on_columns"),
            align_variable_declarations_on_columns: Kv::field_bool(m, "org.eclipse.jdt.core.formatter.align_variable_declarations_on_columns"),
            align_with_spaces: Kv::field_bool(m, "org.eclipse.jdt.core.formatter.align_with_spaces"),
            compact_else_if: Kv::field_bool(m, "org.eclipse.jdt.core.formatter.compact_else_if"),
            continuation_indentation: Kv::field_usize(m, "org.eclipse.jdt.core.formatter.continuation_indentation"),
            continuation_indentation_for_array_initializer: Kv::field_usize(m, "org.eclipse.jdt.core.formatter.continuation_indentation_for_array_initializer"),
            disabling_tag: Kv::field_string(m, "org.eclipse.jdt.core.formatter.disabling_tag"),
            enabling_tag: Kv::field_string(m, "org.eclipse.jdt.core.formatter.enabling_tag"),
            format_guardian_clause_on_one_line: Kv::field_bool(m, "org.eclipse.jdt.core.formatter.format_guardian_clause_on_one_line"),
            format_line_comment_starting_on_first_column: Kv::field_bool(m, "org.eclipse.jdt.core.formatter.format_line_comment_starting_on_first_column"),
            indent_body_declarations_compare_to_annotation_declaration_header: Kv::field_bool(m, "org.eclipse.jdt.core.formatter.indent_body_declarations_compare_to_annotation_declaration_header"),
            indent_body_declarations_compare_to_enum_constant_header: Kv::field_bool(m, "org.eclipse.jdt.core.formatter.indent_body_declarations_compare_to_enum_constant_header"),
            indent_body_declarations_compare_to_enum_declaration_header: Kv::field_bool(m, "org.eclipse.jdt.core.formatter.indent_body_declarations_compare_to_enum_declaration_header"),
            indent_body_declarations_compare_to_record_header: Kv::field_bool(m, "org.eclipse.jdt.core.formatter.indent_body_declarations_compare_to_record_header"),
            indent_body_declarations_compare_to_type_header: Kv::field_bool(m, "org.eclipse.jdt.core.formatter.indent_body_declarations_compare_to_type_header"),
            indent_breaks_compare_to_cases: Kv::field_bool(m, "org.eclipse.jdt.core.formatter.indent_breaks_compare_to_cases"),
            indent_empty_lines: Kv::field_bool(m, "org.eclipse.jdt.core.formatter.indent_empty_lines"),
            indent_statements_compare_to_block: Kv::field_bool(m, "org.eclipse.jdt.core.formatter.indent_statements_compare_to_block"),
            indent_statements_compare_to_body: Kv::field_bool(m, "org.eclipse.jdt.core.formatter.indent_statements_compare_to_body"),
            indent_switchstatements_compare_to_cases: Kv::field_bool(m, "org.eclipse.jdt.core.formatter.indent_switchstatements_compare_to_cases"),
            indent_switchstatements_compare_to_switch: Kv::field_bool(m, "org.eclipse.jdt.core.formatter.indent_switchstatements_compare_to_switch"),
            indentation_size: Kv::field_usize(m, "org.eclipse.jdt.core.formatter.indentation.size"),
            join_line_comments: Kv::field_bool(m, "org.eclipse.jdt.core.formatter.join_line_comments"),
            join_lines_in_comments: Kv::field_bool(m, "org.eclipse.jdt.core.formatter.join_lines_in_comments"),
            join_wrapped_lines: Kv::field_bool(m, "org.eclipse.jdt.core.formatter.join_wrapped_lines"),
            keep_else_statement_on_same_line: Kv::field_bool(m, "org.eclipse.jdt.core.formatter.keep_else_statement_on_same_line"),
            keep_simple_do_while_body_on_same_line: Kv::field_bool(m, "org.eclipse.jdt.core.formatter.keep_simple_do_while_body_on_same_line"),
            keep_simple_for_body_on_same_line: Kv::field_bool(m, "org.eclipse.jdt.core.formatter.keep_simple_for_body_on_same_line"),
            keep_simple_while_body_on_same_line: Kv::field_bool(m, "org.eclipse.jdt.core.formatter.keep_simple_while_body_on_same_line"),
            keep_then_statement_on_same_line: Kv::field_bool(m, "org.eclipse.jdt.core.formatter.keep_then_statement_on_same_line"),
            line_split: Kv::field_usize(m, "org.eclipse.jdt.core.formatter.lineSplit"),
            never_indent_block_comments_on_first_column: Kv::field_bool(m, "org.eclipse.jdt.core.formatter.never_indent_block_comments_on_first_column"),
            never_indent_line_comments_on_first_column: Kv::field_bool(m, "org.eclipse.jdt.core.formatter.never_indent_line_comments_on_first_column"),
            put_empty_statement_on_new_line: Kv::field_bool(m, "org.eclipse.jdt.core.formatter.put_empty_statement_on_new_line"),
            put_text_block_quotes_on_new_line: Kv::field_bool(m, "org.eclipse.jdt.core.formatter.put_text_block_quotes_on_new_line"),
            tabulation_char: Kv::field_enum(m, "org.eclipse.jdt.core.formatter.tabulation.char"),
            tabulation_size: Kv::field_usize(m, "org.eclipse.jdt.core.formatter.tabulation.size"),
            text_block_indentation: Kv::field_enum(m, "org.eclipse.jdt.core.formatter.text_block_indentation"),
            use_on_off_tags: Kv::field_bool(m, "org.eclipse.jdt.core.formatter.use_on_off_tags"),
            use_tabs_only_for_leading_indentations: Kv::field_bool(m, "org.eclipse.jdt.core.formatter.use_tabs_only_for_leading_indentations"),
            wrap_outer_expressions_when_nested: Kv::field_bool(m, "org.eclipse.jdt.core.formatter.wrap_outer_expressions_when_nested"),
        }
    }
}

} // verus!
