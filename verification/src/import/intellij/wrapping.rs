//! IntelliJ — wrapping, alignment, brace style, brace forcing, and one-line keeping.
//!
//! Three *different* int -> token tables meet in this family and must never be shared:
//! `*_WRAP` ([`IjWrap`]), `*_BRACE_STYLE` ([`IjBraceStyle`]), and `*_BRACE_FORCE`
//! ([`IjForceBraces`]). The `ALIGN_*` settings are column alignment, which jals's single layout
//! engine does not reproduce; they are kept here as the typed record of that divergence

use vstd::prelude::*;

use crate::import::kv::KvMap;
use crate::import::serde_kv::{Kv, lookup_bool, lookup_i64, lookup_trimmed};
use super::values::{IjBraceStyle, IjForceBraces, IjWrap};

verus! {

/// The wrapping, alignment, and brace settings of a Java code style.
#[derive(Debug, Clone, Copy, Default, PartialEq, Eq)]
pub struct IntellijWrapping {
    /// `ALIGN_CONSECUTIVE_ASSIGNMENTS` in `<codeStyleSettings language="JAVA">`; `ij_java_align_consecutive_assignments` in `.editorconfig`.
    pub align_consecutive_assignments: Option<bool>,
    /// `ALIGN_CONSECUTIVE_VARIABLE_DECLARATIONS` in `<codeStyleSettings language="JAVA">`; `ij_java_align_consecutive_variable_declarations` in `.editorconfig`.
    pub align_consecutive_variable_declarations: Option<bool>,
    /// `ALIGN_GROUP_FIELD_DECLARATIONS` in `<codeStyleSettings language="JAVA">`; `ij_java_align_group_field_declarations` in `.editorconfig`.
    pub align_group_field_declarations: Option<bool>,
    /// `ALIGN_MULTILINE_ANNOTATION_PARAMETERS` in `<JavaCodeStyleSettings>`; `ij_java_align_multiline_annotation_parameters` in `.editorconfig`.
    pub align_multiline_annotation_parameters: Option<bool>,
    /// `ALIGN_MULTILINE_ARRAY_INITIALIZER_EXPRESSION` in `<codeStyleSettings language="JAVA">`; `ij_java_align_multiline_array_initializer_expression` in `.editorconfig`.
    pub align_multiline_array_initializer_expression: Option<bool>,
    /// `ALIGN_MULTILINE_ASSIGNMENT` in `<codeStyleSettings language="JAVA">`; `ij_java_align_multiline_assignment` in `.editorconfig`.
    pub align_multiline_assignment: Option<bool>,
    /// `ALIGN_MULTILINE_BINARY_OPERATION` in `<codeStyleSettings language="JAVA">`; `ij_java_align_multiline_binary_operation` in `.editorconfig`.
    pub align_multiline_binary_operation: Option<bool>,
    /// `ALIGN_MULTILINE_CHAINED_METHODS` in `<codeStyleSettings language="JAVA">`; `ij_java_align_multiline_chained_methods` in `.editorconfig`.
    pub align_multiline_chained_methods: Option<bool>,
    /// `ALIGN_MULTILINE_DECONSTRUCTION_LIST_COMPONENTS` in `<JavaCodeStyleSettings>`; `ij_java_align_multiline_deconstruction_list_components` in `.editorconfig`.
    pub align_multiline_deconstruction_list_components: Option<bool>,
    /// `ALIGN_MULTILINE_EXTENDS_LIST` in `<codeStyleSettings language="JAVA">`; `ij_java_align_multiline_extends_list` in `.editorconfig`.
    pub align_multiline_extends_list: Option<bool>,
    /// `ALIGN_MULTILINE_FOR` in `<codeStyleSettings language="JAVA">`; `ij_java_align_multiline_for` in `.editorconfig`.
    pub align_multiline_for: Option<bool>,
    /// `ALIGN_MULTILINE_METHOD_BRACKETS` in `<codeStyleSettings language="JAVA">`; `ij_java_align_multiline_method_parentheses` in `.editorconfig`.
    pub align_multiline_method_brackets: Option<bool>,
    /// `ALIGN_MULTILINE_PARAMETERS` in `<codeStyleSettings language="JAVA">`; `ij_java_align_multiline_parameters` in `.editorconfig`.
    pub align_multiline_parameters: Option<bool>,
    /// `ALIGN_MULTILINE_PARAMETERS_IN_CALLS` in `<codeStyleSettings language="JAVA">`; `ij_java_align_multiline_parameters_in_calls` in `.editorconfig`.
    pub align_multiline_parameters_in_calls: Option<bool>,
    /// `ALIGN_MULTILINE_PARENTHESIZED_EXPRESSION` in `<codeStyleSettings language="JAVA">`; `ij_java_align_multiline_parenthesized_expression` in `.editorconfig`.
    pub align_multiline_parenthesized_expression: Option<bool>,
    /// `ALIGN_MULTILINE_RECORDS` in `<JavaCodeStyleSettings>`; `ij_java_align_multiline_records` in `.editorconfig`.
    pub align_multiline_records: Option<bool>,
    /// `ALIGN_MULTILINE_RESOURCES` in `<codeStyleSettings language="JAVA">`; `ij_java_align_multiline_resources` in `.editorconfig`.
    pub align_multiline_resources: Option<bool>,
    /// `ALIGN_MULTILINE_TERNARY_OPERATION` in `<codeStyleSettings language="JAVA">`; `ij_java_align_multiline_ternary_operation` in `.editorconfig`.
    pub align_multiline_ternary_operation: Option<bool>,
    /// `ALIGN_MULTILINE_TEXT_BLOCKS` in `<JavaCodeStyleSettings>`; `ij_java_align_multiline_text_blocks` in `.editorconfig`.
    pub align_multiline_text_blocks: Option<bool>,
    /// `ALIGN_MULTILINE_THROWS_LIST` in `<codeStyleSettings language="JAVA">`; `ij_java_align_multiline_throws_list` in `.editorconfig`.
    pub align_multiline_throws_list: Option<bool>,
    /// `ALIGN_SUBSEQUENT_SIMPLE_METHODS` in `<codeStyleSettings language="JAVA">`; `ij_java_align_subsequent_simple_methods` in `.editorconfig`.
    pub align_subsequent_simple_methods: Option<bool>,
    /// `ALIGN_THROWS_KEYWORD` in `<codeStyleSettings language="JAVA">`; `ij_java_align_throws_keyword` in `.editorconfig`.
    pub align_throws_keyword: Option<bool>,
    /// `ALIGN_TYPES_IN_MULTI_CATCH` in `<JavaCodeStyleSettings>`; `ij_java_align_types_in_multi_catch` in `.editorconfig`.
    pub align_types_in_multi_catch: Option<bool>,
    /// `ANNOTATION_NEW_LINE_IN_RECORD_COMPONENT` in `<JavaCodeStyleSettings>`; `ij_java_annotation_new_line_in_record_component` in `.editorconfig`.
    pub annotation_new_line_in_record_component: Option<bool>,
    /// `ANNOTATION_PARAMETER_WRAP` in `<JavaCodeStyleSettings>`; `ij_java_annotation_parameter_wrap` in `.editorconfig`.
    pub annotation_parameter_wrap: Option<IjWrap>,
    /// `ARRAY_INITIALIZER_LBRACE_ON_NEXT_LINE` in `<codeStyleSettings language="JAVA">`; `ij_java_array_initializer_new_line_after_left_brace` in `.editorconfig`.
    pub array_initializer_lbrace_on_next_line: Option<bool>,
    /// `ARRAY_INITIALIZER_RBRACE_ON_NEXT_LINE` in `<codeStyleSettings language="JAVA">`; `ij_java_array_initializer_right_brace_on_new_line` in `.editorconfig`.
    pub array_initializer_rbrace_on_next_line: Option<bool>,
    /// `ARRAY_INITIALIZER_WRAP` in `<codeStyleSettings language="JAVA">`; `ij_java_array_initializer_wrap` in `.editorconfig`.
    pub array_initializer_wrap: Option<IjWrap>,
    /// `ASSERT_STATEMENT_COLON_ON_NEXT_LINE` in `<codeStyleSettings language="JAVA">`; `ij_java_assert_statement_colon_on_next_line` in `.editorconfig`.
    pub assert_statement_colon_on_next_line: Option<bool>,
    /// `ASSERT_STATEMENT_WRAP` in `<codeStyleSettings language="JAVA">`; `ij_java_assert_statement_wrap` in `.editorconfig`.
    pub assert_statement_wrap: Option<IjWrap>,
    /// `ASSIGNMENT_WRAP` in `<codeStyleSettings language="JAVA">`; `ij_java_assignment_wrap` in `.editorconfig`.
    pub assignment_wrap: Option<IjWrap>,
    /// `BINARY_OPERATION_SIGN_ON_NEXT_LINE` in `<codeStyleSettings language="JAVA">`; `ij_java_binary_operation_sign_on_next_line` in `.editorconfig`.
    pub binary_operation_sign_on_next_line: Option<bool>,
    /// `BINARY_OPERATION_WRAP` in `<codeStyleSettings language="JAVA">`; `ij_java_binary_operation_wrap` in `.editorconfig`.
    pub binary_operation_wrap: Option<IjWrap>,
    /// `BRACE_STYLE` in `<codeStyleSettings language="JAVA">`; `ij_java_block_brace_style` in `.editorconfig`.
    pub brace_style: Option<IjBraceStyle>,
    /// `CALL_PARAMETERS_LPAREN_ON_NEXT_LINE` in `<codeStyleSettings language="JAVA">`; `ij_java_call_parameters_new_line_after_left_paren` in `.editorconfig`.
    pub call_parameters_lparen_on_next_line: Option<bool>,
    /// `CALL_PARAMETERS_RPAREN_ON_NEXT_LINE` in `<codeStyleSettings language="JAVA">`; `ij_java_call_parameters_right_paren_on_new_line` in `.editorconfig`.
    pub call_parameters_rparen_on_next_line: Option<bool>,
    /// `CALL_PARAMETERS_WRAP` in `<codeStyleSettings language="JAVA">`; `ij_java_call_parameters_wrap` in `.editorconfig`.
    pub call_parameters_wrap: Option<IjWrap>,
    /// `CASE_STATEMENT_ON_NEW_LINE` in `<codeStyleSettings language="JAVA">`; `ij_java_case_statement_on_separate_line` in `.editorconfig`.
    pub case_statement_on_new_line: Option<bool>,
    /// `CATCH_ON_NEW_LINE` in `<codeStyleSettings language="JAVA">`; `ij_java_catch_on_new_line` in `.editorconfig`.
    pub catch_on_new_line: Option<bool>,
    /// `CLASS_ANNOTATION_WRAP` in `<codeStyleSettings language="JAVA">`; `ij_java_class_annotation_wrap` in `.editorconfig`.
    pub class_annotation_wrap: Option<IjWrap>,
    /// `CLASS_BRACE_STYLE` in `<codeStyleSettings language="JAVA">`; `ij_java_class_brace_style` in `.editorconfig`.
    pub class_brace_style: Option<IjBraceStyle>,
    /// `DECONSTRUCTION_LIST_WRAP` in `<JavaCodeStyleSettings>`; `ij_java_deconstruction_list_wrap` in `.editorconfig`.
    pub deconstruction_list_wrap: Option<IjWrap>,
    /// `DOWHILE_BRACE_FORCE` in `<codeStyleSettings language="JAVA">`; `ij_java_do_while_brace_force` in `.editorconfig`.
    pub dowhile_brace_force: Option<IjForceBraces>,
    /// `DO_NOT_INDENT_TOP_LEVEL_CLASS_MEMBERS` in `<codeStyleSettings language="JAVA">`; `ij_java_do_not_indent_top_level_class_members` in `.editorconfig`.
    pub do_not_indent_top_level_class_members: Option<bool>,
    /// `DO_NOT_WRAP_AFTER_SINGLE_ANNOTATION` in `<JavaCodeStyleSettings>`; `ij_java_do_not_wrap_after_single_annotation` in `.editorconfig`.
    pub do_not_wrap_after_single_annotation: Option<bool>,
    /// `DO_NOT_WRAP_AFTER_SINGLE_ANNOTATION_IN_PARAMETER` in `<JavaCodeStyleSettings>`; `ij_java_do_not_wrap_after_single_annotation_in_parameter` in `.editorconfig`.
    pub do_not_wrap_after_single_annotation_in_parameter: Option<bool>,
    /// `ELSE_ON_NEW_LINE` in `<codeStyleSettings language="JAVA">`; `ij_java_else_on_new_line` in `.editorconfig`.
    pub else_on_new_line: Option<bool>,
    /// `ENUM_CONSTANTS_WRAP` in `<codeStyleSettings language="JAVA">`; `ij_java_enum_constants_wrap` in `.editorconfig`.
    pub enum_constants_wrap: Option<IjWrap>,
    /// `ENUM_FIELD_ANNOTATION_WRAP` in `<JavaCodeStyleSettings>`; `ij_java_enum_field_annotation_wrap` in `.editorconfig`.
    pub enum_field_annotation_wrap: Option<IjWrap>,
    /// `EXTENDS_KEYWORD_WRAP` in `<codeStyleSettings language="JAVA">`; `ij_java_extends_keyword_wrap` in `.editorconfig`.
    pub extends_keyword_wrap: Option<IjWrap>,
    /// `EXTENDS_LIST_WRAP` in `<codeStyleSettings language="JAVA">`; `ij_java_extends_list_wrap` in `.editorconfig`.
    pub extends_list_wrap: Option<IjWrap>,
    /// `FIELD_ANNOTATION_WRAP` in `<codeStyleSettings language="JAVA">`; `ij_java_field_annotation_wrap` in `.editorconfig`.
    pub field_annotation_wrap: Option<IjWrap>,
    /// `FINALLY_ON_NEW_LINE` in `<codeStyleSettings language="JAVA">`; `ij_java_finally_on_new_line` in `.editorconfig`.
    pub finally_on_new_line: Option<bool>,
    /// `FORCE_REARRANGE_MODE` in `<codeStyleSettings language="JAVA">`; `ij_java_force_rearrange_mode` in `.editorconfig`.
    pub force_rearrange_mode: Option<i64>,
    /// `FOR_BRACE_FORCE` in `<codeStyleSettings language="JAVA">`; `ij_java_for_brace_force` in `.editorconfig`.
    pub for_brace_force: Option<IjForceBraces>,
    /// `FOR_STATEMENT_LPAREN_ON_NEXT_LINE` in `<codeStyleSettings language="JAVA">`; `ij_java_for_statement_new_line_after_left_paren` in `.editorconfig`.
    pub for_statement_lparen_on_next_line: Option<bool>,
    /// `FOR_STATEMENT_RPAREN_ON_NEXT_LINE` in `<codeStyleSettings language="JAVA">`; `ij_java_for_statement_right_paren_on_new_line` in `.editorconfig`.
    pub for_statement_rparen_on_next_line: Option<bool>,
    /// `FOR_STATEMENT_WRAP` in `<codeStyleSettings language="JAVA">`; `ij_java_for_statement_wrap` in `.editorconfig`.
    pub for_statement_wrap: Option<IjWrap>,
    /// `IF_BRACE_FORCE` in `<codeStyleSettings language="JAVA">`; `ij_java_if_brace_force` in `.editorconfig`.
    pub if_brace_force: Option<IjForceBraces>,
    /// `INDENT_BREAK_FROM_CASE` in `<codeStyleSettings language="JAVA">`; `ij_java_indent_break_from_case` in `.editorconfig`.
    pub indent_break_from_case: Option<bool>,
    /// `INDENT_CASE_FROM_SWITCH` in `<codeStyleSettings language="JAVA">`; `ij_java_indent_case_from_switch` in `.editorconfig`.
    pub indent_case_from_switch: Option<bool>,
    /// `KEEP_BUILDER_METHODS_INDENTS` in `<codeStyleSettings language="JAVA">`; `ij_java_keep_builder_methods_indents` in `.editorconfig`.
    pub keep_builder_methods_indents: Option<bool>,
    /// `KEEP_CONTROL_STATEMENT_IN_ONE_LINE` in `<codeStyleSettings language="JAVA">`; `ij_java_keep_control_statement_in_one_line` in `.editorconfig`.
    pub keep_control_statement_in_one_line: Option<bool>,
    /// `KEEP_FIRST_COLUMN_COMMENT` in `<codeStyleSettings language="JAVA">`; `ij_java_keep_first_column_comment` in `.editorconfig`.
    pub keep_first_column_comment: Option<bool>,
    /// `KEEP_LINE_BREAKS` in `<codeStyleSettings language="JAVA">`; `ij_java_keep_line_breaks` in `.editorconfig`.
    pub keep_line_breaks: Option<bool>,
    /// `KEEP_MULTIPLE_EXPRESSIONS_IN_ONE_LINE` in `<codeStyleSettings language="JAVA">`; `ij_java_keep_multiple_expressions_in_one_line` in `.editorconfig`.
    pub keep_multiple_expressions_in_one_line: Option<bool>,
    /// `KEEP_SIMPLE_BLOCKS_IN_ONE_LINE` in `<codeStyleSettings language="JAVA">`; `ij_java_keep_simple_blocks_in_one_line` in `.editorconfig`.
    pub keep_simple_blocks_in_one_line: Option<bool>,
    /// `KEEP_SIMPLE_CLASSES_IN_ONE_LINE` in `<codeStyleSettings language="JAVA">`; `ij_java_keep_simple_classes_in_one_line` in `.editorconfig`.
    pub keep_simple_classes_in_one_line: Option<bool>,
    /// `KEEP_SIMPLE_LAMBDAS_IN_ONE_LINE` in `<codeStyleSettings language="JAVA">`; `ij_java_keep_simple_lambdas_in_one_line` in `.editorconfig`.
    pub keep_simple_lambdas_in_one_line: Option<bool>,
    /// `KEEP_SIMPLE_METHODS_IN_ONE_LINE` in `<codeStyleSettings language="JAVA">`; `ij_java_keep_simple_methods_in_one_line` in `.editorconfig`.
    pub keep_simple_methods_in_one_line: Option<bool>,
    /// `LAMBDA_BRACE_STYLE` in `<codeStyleSettings language="JAVA">`; `ij_java_lambda_brace_style` in `.editorconfig`.
    pub lambda_brace_style: Option<IjBraceStyle>,
    /// `METHOD_ANNOTATION_WRAP` in `<codeStyleSettings language="JAVA">`; `ij_java_method_annotation_wrap` in `.editorconfig`.
    pub method_annotation_wrap: Option<IjWrap>,
    /// `METHOD_BRACE_STYLE` in `<codeStyleSettings language="JAVA">`; `ij_java_method_brace_style` in `.editorconfig`.
    pub method_brace_style: Option<IjBraceStyle>,
    /// `METHOD_CALL_CHAIN_WRAP` in `<codeStyleSettings language="JAVA">`; `ij_java_method_call_chain_wrap` in `.editorconfig`.
    pub method_call_chain_wrap: Option<IjWrap>,
    /// `METHOD_PARAMETERS_LPAREN_ON_NEXT_LINE` in `<codeStyleSettings language="JAVA">`; `ij_java_method_parameters_new_line_after_left_paren` in `.editorconfig`.
    pub method_parameters_lparen_on_next_line: Option<bool>,
    /// `METHOD_PARAMETERS_RPAREN_ON_NEXT_LINE` in `<codeStyleSettings language="JAVA">`; `ij_java_method_parameters_right_paren_on_new_line` in `.editorconfig`.
    pub method_parameters_rparen_on_next_line: Option<bool>,
    /// `METHOD_PARAMETERS_WRAP` in `<codeStyleSettings language="JAVA">`; `ij_java_method_parameters_wrap` in `.editorconfig`.
    pub method_parameters_wrap: Option<IjWrap>,
    /// `MODIFIER_LIST_WRAP` in `<codeStyleSettings language="JAVA">`; `ij_java_modifier_list_wrap` in `.editorconfig`.
    pub modifier_list_wrap: Option<bool>,
    /// `MULTI_CATCH_TYPES_WRAP` in `<JavaCodeStyleSettings>`; `ij_java_multi_catch_types_wrap` in `.editorconfig`.
    pub multi_catch_types_wrap: Option<IjWrap>,
    /// `NEW_LINE_AFTER_LPAREN_IN_ANNOTATION` in `<JavaCodeStyleSettings>`; `ij_java_new_line_after_lparen_in_annotation` in `.editorconfig`.
    pub new_line_after_lparen_in_annotation: Option<bool>,
    /// `NEW_LINE_AFTER_LPAREN_IN_DECONSTRUCTION_PATTERN` in `<JavaCodeStyleSettings>`; `ij_java_new_line_after_lparen_in_deconstruction_pattern` in `.editorconfig`.
    pub new_line_after_lparen_in_deconstruction_pattern: Option<bool>,
    /// `NEW_LINE_AFTER_LPAREN_IN_RECORD_HEADER` in `<JavaCodeStyleSettings>`; `ij_java_new_line_after_lparen_in_record_header` in `.editorconfig`.
    pub new_line_after_lparen_in_record_header: Option<bool>,
    /// `NEW_LINE_WHEN_BODY_IS_PRESENTED` in `<JavaCodeStyleSettings>`; `ij_java_new_line_when_body_is_presented` in `.editorconfig`.
    pub new_line_when_body_is_presented: Option<bool>,
    /// `PARAMETER_ANNOTATION_WRAP` in `<codeStyleSettings language="JAVA">`; `ij_java_parameter_annotation_wrap` in `.editorconfig`.
    pub parameter_annotation_wrap: Option<IjWrap>,
    /// `PARENTHESES_EXPRESSION_LPAREN_WRAP` in `<codeStyleSettings language="JAVA">`; `ij_java_parentheses_expression_new_line_after_left_paren` in `.editorconfig`.
    pub parentheses_expression_lparen_wrap: Option<bool>,
    /// `PARENTHESES_EXPRESSION_RPAREN_WRAP` in `<codeStyleSettings language="JAVA">`; `ij_java_parentheses_expression_right_paren_on_new_line` in `.editorconfig`.
    pub parentheses_expression_rparen_wrap: Option<bool>,
    /// `PLACE_ASSIGNMENT_SIGN_ON_NEXT_LINE` in `<codeStyleSettings language="JAVA">`; `ij_java_place_assignment_sign_on_next_line` in `.editorconfig`.
    pub place_assignment_sign_on_next_line: Option<bool>,
    /// `PREFER_PARAMETERS_WRAP` in `<codeStyleSettings language="JAVA">`; `ij_java_prefer_parameters_wrap` in `.editorconfig`.
    pub prefer_parameters_wrap: Option<bool>,
    /// `RECORD_COMPONENTS_WRAP` in `<JavaCodeStyleSettings>`; `ij_java_record_components_wrap` in `.editorconfig`.
    pub record_components_wrap: Option<IjWrap>,
    /// `RESOURCE_LIST_LPAREN_ON_NEXT_LINE` in `<codeStyleSettings language="JAVA">`; `ij_java_resource_list_new_line_after_left_paren` in `.editorconfig`.
    pub resource_list_lparen_on_next_line: Option<bool>,
    /// `RESOURCE_LIST_RPAREN_ON_NEXT_LINE` in `<codeStyleSettings language="JAVA">`; `ij_java_resource_list_right_paren_on_new_line` in `.editorconfig`.
    pub resource_list_rparen_on_next_line: Option<bool>,
    /// `RESOURCE_LIST_WRAP` in `<codeStyleSettings language="JAVA">`; `ij_java_resource_list_wrap` in `.editorconfig`.
    pub resource_list_wrap: Option<IjWrap>,
    /// `RPAREN_ON_NEW_LINE_IN_ANNOTATION` in `<JavaCodeStyleSettings>`; `ij_java_rparen_on_new_line_in_annotation` in `.editorconfig`.
    pub rparen_on_new_line_in_annotation: Option<bool>,
    /// `RPAREN_ON_NEW_LINE_IN_DECONSTRUCTION_PATTERN` in `<JavaCodeStyleSettings>`; `ij_java_rparen_on_new_line_in_deconstruction_pattern` in `.editorconfig`.
    pub rparen_on_new_line_in_deconstruction_pattern: Option<bool>,
    /// `RPAREN_ON_NEW_LINE_IN_RECORD_HEADER` in `<JavaCodeStyleSettings>`; `ij_java_rparen_on_new_line_in_record_header` in `.editorconfig`.
    pub rparen_on_new_line_in_record_header: Option<bool>,
    /// `SPECIAL_ELSE_IF_TREATMENT` in `<codeStyleSettings language="JAVA">`; `ij_java_special_else_if_treatment` in `.editorconfig`.
    pub special_else_if_treatment: Option<bool>,
    /// `SWITCH_EXPRESSIONS_WRAP` in `<codeStyleSettings language="JAVA">`; `ij_java_switch_expressions_wrap` in `.editorconfig`.
    pub switch_expressions_wrap: Option<IjWrap>,
    /// `TERNARY_OPERATION_SIGNS_ON_NEXT_LINE` in `<codeStyleSettings language="JAVA">`; `ij_java_ternary_operation_signs_on_next_line` in `.editorconfig`.
    pub ternary_operation_signs_on_next_line: Option<bool>,
    /// `TERNARY_OPERATION_WRAP` in `<codeStyleSettings language="JAVA">`; `ij_java_ternary_operation_wrap` in `.editorconfig`.
    pub ternary_operation_wrap: Option<IjWrap>,
    /// `THROWS_KEYWORD_WRAP` in `<codeStyleSettings language="JAVA">`; `ij_java_throws_keyword_wrap` in `.editorconfig`.
    pub throws_keyword_wrap: Option<IjWrap>,
    /// `THROWS_LIST_WRAP` in `<codeStyleSettings language="JAVA">`; `ij_java_throws_list_wrap` in `.editorconfig`.
    pub throws_list_wrap: Option<IjWrap>,
    /// `VARIABLE_ANNOTATION_WRAP` in `<codeStyleSettings language="JAVA">`; `ij_java_variable_annotation_wrap` in `.editorconfig`.
    pub variable_annotation_wrap: Option<IjWrap>,
    /// `WHILE_BRACE_FORCE` in `<codeStyleSettings language="JAVA">`; `ij_java_while_brace_force` in `.editorconfig`.
    pub while_brace_force: Option<IjForceBraces>,
    /// `WHILE_ON_NEW_LINE` in `<codeStyleSettings language="JAVA">`; `ij_java_while_on_new_line` in `.editorconfig`.
    pub while_on_new_line: Option<bool>,
    /// `WRAP_COMMENTS` in `<codeStyleSettings language="JAVA">`; `ij_java_wrap_comments` in `.editorconfig`.
    pub wrap_comments: Option<bool>,
    /// `WRAP_FIRST_METHOD_IN_CALL_CHAIN` in `<codeStyleSettings language="JAVA">`; `ij_java_wrap_first_method_in_call_chain` in `.editorconfig`.
    pub wrap_first_method_in_call_chain: Option<bool>,
    /// `WRAP_LONG_LINES` in `<codeStyleSettings language="JAVA">`; `ij_java_wrap_long_lines` in `.editorconfig`.
    pub wrap_long_lines: Option<bool>,
    /// `WRAP_ON_TYPING` in `<codeStyleSettings language="JAVA">`; `ij_java_wrap_on_typing` in `.editorconfig`.
    pub wrap_on_typing: Option<i64>,
    /// `WRAP_SEMICOLON_AFTER_CALL_CHAIN` in `<JavaCodeStyleSettings>`; `ij_java_wrap_semicolon_after_call_chain` in `.editorconfig`.
    pub wrap_semicolon_after_call_chain: Option<bool>,
}

impl IntellijWrapping {
    /// Whether every field holds what the settings map gives its id.
    #[verifier::opaque]
    pub open spec fn reads(&self, m: Map<Seq<char>, Seq<char>>) -> bool {
        &&& self.align_consecutive_assignments == lookup_bool(m, "ALIGN_CONSECUTIVE_ASSIGNMENTS"@)
        &&& self.align_consecutive_variable_declarations == lookup_bool(m, "ALIGN_CONSECUTIVE_VARIABLE_DECLARATIONS"@)
        &&& self.align_group_field_declarations == lookup_bool(m, "ALIGN_GROUP_FIELD_DECLARATIONS"@)
        &&& self.align_multiline_annotation_parameters == lookup_bool(m, "ALIGN_MULTILINE_ANNOTATION_PARAMETERS"@)
        &&& self.align_multiline_array_initializer_expression == lookup_bool(m, "ALIGN_MULTILINE_ARRAY_INITIALIZER_EXPRESSION"@)
        &&& self.align_multiline_assignment == lookup_bool(m, "ALIGN_MULTILINE_ASSIGNMENT"@)
        &&& self.align_multiline_binary_operation == lookup_bool(m, "ALIGN_MULTILINE_BINARY_OPERATION"@)
        &&& self.align_multiline_chained_methods == lookup_bool(m, "ALIGN_MULTILINE_CHAINED_METHODS"@)
        &&& self.align_multiline_deconstruction_list_components == lookup_bool(m, "ALIGN_MULTILINE_DECONSTRUCTION_LIST_COMPONENTS"@)
        &&& self.align_multiline_extends_list == lookup_bool(m, "ALIGN_MULTILINE_EXTENDS_LIST"@)
        &&& self.align_multiline_for == lookup_bool(m, "ALIGN_MULTILINE_FOR"@)
        &&& self.align_multiline_method_brackets == lookup_bool(m, "ALIGN_MULTILINE_METHOD_BRACKETS"@)
        &&& self.align_multiline_parameters == lookup_bool(m, "ALIGN_MULTILINE_PARAMETERS"@)
        &&& self.align_multiline_parameters_in_calls == lookup_bool(m, "ALIGN_MULTILINE_PARAMETERS_IN_CALLS"@)
        &&& self.align_multiline_parenthesized_expression == lookup_bool(m, "ALIGN_MULTILINE_PARENTHESIZED_EXPRESSION"@)
        &&& self.align_multiline_records == lookup_bool(m, "ALIGN_MULTILINE_RECORDS"@)
        &&& self.align_multiline_resources == lookup_bool(m, "ALIGN_MULTILINE_RESOURCES"@)
        &&& self.align_multiline_ternary_operation == lookup_bool(m, "ALIGN_MULTILINE_TERNARY_OPERATION"@)
        &&& self.align_multiline_text_blocks == lookup_bool(m, "ALIGN_MULTILINE_TEXT_BLOCKS"@)
        &&& self.align_multiline_throws_list == lookup_bool(m, "ALIGN_MULTILINE_THROWS_LIST"@)
        &&& self.align_subsequent_simple_methods == lookup_bool(m, "ALIGN_SUBSEQUENT_SIMPLE_METHODS"@)
        &&& self.align_throws_keyword == lookup_bool(m, "ALIGN_THROWS_KEYWORD"@)
        &&& self.align_types_in_multi_catch == lookup_bool(m, "ALIGN_TYPES_IN_MULTI_CATCH"@)
        &&& self.annotation_new_line_in_record_component == lookup_bool(m, "ANNOTATION_NEW_LINE_IN_RECORD_COMPONENT"@)
        &&& self.annotation_parameter_wrap == lookup_trimmed::<IjWrap>(m, "ANNOTATION_PARAMETER_WRAP"@)
        &&& self.array_initializer_lbrace_on_next_line == lookup_bool(m, "ARRAY_INITIALIZER_LBRACE_ON_NEXT_LINE"@)
        &&& self.array_initializer_rbrace_on_next_line == lookup_bool(m, "ARRAY_INITIALIZER_RBRACE_ON_NEXT_LINE"@)
        &&& self.array_initializer_wrap == lookup_trimmed::<IjWrap>(m, "ARRAY_INITIALIZER_WRAP"@)
        &&& self.assert_statement_colon_on_next_line == lookup_bool(m, "ASSERT_STATEMENT_COLON_ON_NEXT_LINE"@)
        &&& self.assert_statement_wrap == lookup_trimmed::<IjWrap>(m, "ASSERT_STATEMENT_WRAP"@)
        &&& self.assignment_wrap == lookup_trimmed::<IjWrap>(m, "ASSIGNMENT_WRAP"@)
        &&& self.binary_operation_sign_on_next_line == lookup_bool(m, "BINARY_OPERATION_SIGN_ON_NEXT_LINE"@)
        &&& self.binary_operation_wrap == lookup_trimmed::<IjWrap>(m, "BINARY_OPERATION_WRAP"@)
        &&& self.brace_style == lookup_trimmed::<IjBraceStyle>(m, "BRACE_STYLE"@)
        &&& self.call_parameters_lparen_on_next_line == lookup_bool(m, "CALL_PARAMETERS_LPAREN_ON_NEXT_LINE"@)
        &&& self.call_parameters_rparen_on_next_line == lookup_bool(m, "CALL_PARAMETERS_RPAREN_ON_NEXT_LINE"@)
        &&& self.call_parameters_wrap == lookup_trimmed::<IjWrap>(m, "CALL_PARAMETERS_WRAP"@)
        &&& self.case_statement_on_new_line == lookup_bool(m, "CASE_STATEMENT_ON_NEW_LINE"@)
        &&& self.catch_on_new_line == lookup_bool(m, "CATCH_ON_NEW_LINE"@)
        &&& self.class_annotation_wrap == lookup_trimmed::<IjWrap>(m, "CLASS_ANNOTATION_WRAP"@)
        &&& self.class_brace_style == lookup_trimmed::<IjBraceStyle>(m, "CLASS_BRACE_STYLE"@)
        &&& self.deconstruction_list_wrap == lookup_trimmed::<IjWrap>(m, "DECONSTRUCTION_LIST_WRAP"@)
        &&& self.dowhile_brace_force == lookup_trimmed::<IjForceBraces>(m, "DOWHILE_BRACE_FORCE"@)
        &&& self.do_not_indent_top_level_class_members == lookup_bool(m, "DO_NOT_INDENT_TOP_LEVEL_CLASS_MEMBERS"@)
        &&& self.do_not_wrap_after_single_annotation == lookup_bool(m, "DO_NOT_WRAP_AFTER_SINGLE_ANNOTATION"@)
        &&& self.do_not_wrap_after_single_annotation_in_parameter == lookup_bool(m, "DO_NOT_WRAP_AFTER_SINGLE_ANNOTATION_IN_PARAMETER"@)
        &&& self.else_on_new_line == lookup_bool(m, "ELSE_ON_NEW_LINE"@)
        &&& self.enum_constants_wrap == lookup_trimmed::<IjWrap>(m, "ENUM_CONSTANTS_WRAP"@)
        &&& self.enum_field_annotation_wrap == lookup_trimmed::<IjWrap>(m, "ENUM_FIELD_ANNOTATION_WRAP"@)
        &&& self.extends_keyword_wrap == lookup_trimmed::<IjWrap>(m, "EXTENDS_KEYWORD_WRAP"@)
        &&& self.extends_list_wrap == lookup_trimmed::<IjWrap>(m, "EXTENDS_LIST_WRAP"@)
        &&& self.field_annotation_wrap == lookup_trimmed::<IjWrap>(m, "FIELD_ANNOTATION_WRAP"@)
        &&& self.finally_on_new_line == lookup_bool(m, "FINALLY_ON_NEW_LINE"@)
        &&& self.force_rearrange_mode == lookup_i64(m, "FORCE_REARRANGE_MODE"@)
        &&& self.for_brace_force == lookup_trimmed::<IjForceBraces>(m, "FOR_BRACE_FORCE"@)
        &&& self.for_statement_lparen_on_next_line == lookup_bool(m, "FOR_STATEMENT_LPAREN_ON_NEXT_LINE"@)
        &&& self.for_statement_rparen_on_next_line == lookup_bool(m, "FOR_STATEMENT_RPAREN_ON_NEXT_LINE"@)
        &&& self.for_statement_wrap == lookup_trimmed::<IjWrap>(m, "FOR_STATEMENT_WRAP"@)
        &&& self.if_brace_force == lookup_trimmed::<IjForceBraces>(m, "IF_BRACE_FORCE"@)
        &&& self.indent_break_from_case == lookup_bool(m, "INDENT_BREAK_FROM_CASE"@)
        &&& self.indent_case_from_switch == lookup_bool(m, "INDENT_CASE_FROM_SWITCH"@)
        &&& self.keep_builder_methods_indents == lookup_bool(m, "KEEP_BUILDER_METHODS_INDENTS"@)
        &&& self.keep_control_statement_in_one_line == lookup_bool(m, "KEEP_CONTROL_STATEMENT_IN_ONE_LINE"@)
        &&& self.keep_first_column_comment == lookup_bool(m, "KEEP_FIRST_COLUMN_COMMENT"@)
        &&& self.keep_line_breaks == lookup_bool(m, "KEEP_LINE_BREAKS"@)
        &&& self.keep_multiple_expressions_in_one_line == lookup_bool(m, "KEEP_MULTIPLE_EXPRESSIONS_IN_ONE_LINE"@)
        &&& self.keep_simple_blocks_in_one_line == lookup_bool(m, "KEEP_SIMPLE_BLOCKS_IN_ONE_LINE"@)
        &&& self.keep_simple_classes_in_one_line == lookup_bool(m, "KEEP_SIMPLE_CLASSES_IN_ONE_LINE"@)
        &&& self.keep_simple_lambdas_in_one_line == lookup_bool(m, "KEEP_SIMPLE_LAMBDAS_IN_ONE_LINE"@)
        &&& self.keep_simple_methods_in_one_line == lookup_bool(m, "KEEP_SIMPLE_METHODS_IN_ONE_LINE"@)
        &&& self.lambda_brace_style == lookup_trimmed::<IjBraceStyle>(m, "LAMBDA_BRACE_STYLE"@)
        &&& self.method_annotation_wrap == lookup_trimmed::<IjWrap>(m, "METHOD_ANNOTATION_WRAP"@)
        &&& self.method_brace_style == lookup_trimmed::<IjBraceStyle>(m, "METHOD_BRACE_STYLE"@)
        &&& self.method_call_chain_wrap == lookup_trimmed::<IjWrap>(m, "METHOD_CALL_CHAIN_WRAP"@)
        &&& self.method_parameters_lparen_on_next_line == lookup_bool(m, "METHOD_PARAMETERS_LPAREN_ON_NEXT_LINE"@)
        &&& self.method_parameters_rparen_on_next_line == lookup_bool(m, "METHOD_PARAMETERS_RPAREN_ON_NEXT_LINE"@)
        &&& self.method_parameters_wrap == lookup_trimmed::<IjWrap>(m, "METHOD_PARAMETERS_WRAP"@)
        &&& self.modifier_list_wrap == lookup_bool(m, "MODIFIER_LIST_WRAP"@)
        &&& self.multi_catch_types_wrap == lookup_trimmed::<IjWrap>(m, "MULTI_CATCH_TYPES_WRAP"@)
        &&& self.new_line_after_lparen_in_annotation == lookup_bool(m, "NEW_LINE_AFTER_LPAREN_IN_ANNOTATION"@)
        &&& self.new_line_after_lparen_in_deconstruction_pattern == lookup_bool(m, "NEW_LINE_AFTER_LPAREN_IN_DECONSTRUCTION_PATTERN"@)
        &&& self.new_line_after_lparen_in_record_header == lookup_bool(m, "NEW_LINE_AFTER_LPAREN_IN_RECORD_HEADER"@)
        &&& self.new_line_when_body_is_presented == lookup_bool(m, "NEW_LINE_WHEN_BODY_IS_PRESENTED"@)
        &&& self.parameter_annotation_wrap == lookup_trimmed::<IjWrap>(m, "PARAMETER_ANNOTATION_WRAP"@)
        &&& self.parentheses_expression_lparen_wrap == lookup_bool(m, "PARENTHESES_EXPRESSION_LPAREN_WRAP"@)
        &&& self.parentheses_expression_rparen_wrap == lookup_bool(m, "PARENTHESES_EXPRESSION_RPAREN_WRAP"@)
        &&& self.place_assignment_sign_on_next_line == lookup_bool(m, "PLACE_ASSIGNMENT_SIGN_ON_NEXT_LINE"@)
        &&& self.prefer_parameters_wrap == lookup_bool(m, "PREFER_PARAMETERS_WRAP"@)
        &&& self.record_components_wrap == lookup_trimmed::<IjWrap>(m, "RECORD_COMPONENTS_WRAP"@)
        &&& self.resource_list_lparen_on_next_line == lookup_bool(m, "RESOURCE_LIST_LPAREN_ON_NEXT_LINE"@)
        &&& self.resource_list_rparen_on_next_line == lookup_bool(m, "RESOURCE_LIST_RPAREN_ON_NEXT_LINE"@)
        &&& self.resource_list_wrap == lookup_trimmed::<IjWrap>(m, "RESOURCE_LIST_WRAP"@)
        &&& self.rparen_on_new_line_in_annotation == lookup_bool(m, "RPAREN_ON_NEW_LINE_IN_ANNOTATION"@)
        &&& self.rparen_on_new_line_in_deconstruction_pattern == lookup_bool(m, "RPAREN_ON_NEW_LINE_IN_DECONSTRUCTION_PATTERN"@)
        &&& self.rparen_on_new_line_in_record_header == lookup_bool(m, "RPAREN_ON_NEW_LINE_IN_RECORD_HEADER"@)
        &&& self.special_else_if_treatment == lookup_bool(m, "SPECIAL_ELSE_IF_TREATMENT"@)
        &&& self.switch_expressions_wrap == lookup_trimmed::<IjWrap>(m, "SWITCH_EXPRESSIONS_WRAP"@)
        &&& self.ternary_operation_signs_on_next_line == lookup_bool(m, "TERNARY_OPERATION_SIGNS_ON_NEXT_LINE"@)
        &&& self.ternary_operation_wrap == lookup_trimmed::<IjWrap>(m, "TERNARY_OPERATION_WRAP"@)
        &&& self.throws_keyword_wrap == lookup_trimmed::<IjWrap>(m, "THROWS_KEYWORD_WRAP"@)
        &&& self.throws_list_wrap == lookup_trimmed::<IjWrap>(m, "THROWS_LIST_WRAP"@)
        &&& self.variable_annotation_wrap == lookup_trimmed::<IjWrap>(m, "VARIABLE_ANNOTATION_WRAP"@)
        &&& self.while_brace_force == lookup_trimmed::<IjForceBraces>(m, "WHILE_BRACE_FORCE"@)
        &&& self.while_on_new_line == lookup_bool(m, "WHILE_ON_NEW_LINE"@)
        &&& self.wrap_comments == lookup_bool(m, "WRAP_COMMENTS"@)
        &&& self.wrap_first_method_in_call_chain == lookup_bool(m, "WRAP_FIRST_METHOD_IN_CALL_CHAIN"@)
        &&& self.wrap_long_lines == lookup_bool(m, "WRAP_LONG_LINES"@)
        &&& self.wrap_on_typing == lookup_i64(m, "WRAP_ON_TYPING"@)
        &&& self.wrap_semicolon_after_call_chain == lookup_bool(m, "WRAP_SEMICOLON_AFTER_CALL_CHAIN"@)
    }

    /// Read every field from the flat settings map; an id the map lacks, or a value that
    /// does not parse, leaves the field unset.
    #[verifier::rlimit(60)]
    pub fn from_map(m: &KvMap) -> (r: Self)
        ensures
            r.reads(m@),
    {
        reveal(IntellijWrapping::reads);
        IntellijWrapping {
            align_consecutive_assignments: Kv::field_bool(m, "ALIGN_CONSECUTIVE_ASSIGNMENTS"),
            align_consecutive_variable_declarations: Kv::field_bool(m, "ALIGN_CONSECUTIVE_VARIABLE_DECLARATIONS"),
            align_group_field_declarations: Kv::field_bool(m, "ALIGN_GROUP_FIELD_DECLARATIONS"),
            align_multiline_annotation_parameters: Kv::field_bool(m, "ALIGN_MULTILINE_ANNOTATION_PARAMETERS"),
            align_multiline_array_initializer_expression: Kv::field_bool(m, "ALIGN_MULTILINE_ARRAY_INITIALIZER_EXPRESSION"),
            align_multiline_assignment: Kv::field_bool(m, "ALIGN_MULTILINE_ASSIGNMENT"),
            align_multiline_binary_operation: Kv::field_bool(m, "ALIGN_MULTILINE_BINARY_OPERATION"),
            align_multiline_chained_methods: Kv::field_bool(m, "ALIGN_MULTILINE_CHAINED_METHODS"),
            align_multiline_deconstruction_list_components: Kv::field_bool(m, "ALIGN_MULTILINE_DECONSTRUCTION_LIST_COMPONENTS"),
            align_multiline_extends_list: Kv::field_bool(m, "ALIGN_MULTILINE_EXTENDS_LIST"),
            align_multiline_for: Kv::field_bool(m, "ALIGN_MULTILINE_FOR"),
            align_multiline_method_brackets: Kv::field_bool(m, "ALIGN_MULTILINE_METHOD_BRACKETS"),
            align_multiline_parameters: Kv::field_bool(m, "ALIGN_MULTILINE_PARAMETERS"),
            align_multiline_parameters_in_calls: Kv::field_bool(m, "ALIGN_MULTILINE_PARAMETERS_IN_CALLS"),
            align_multiline_parenthesized_expression: Kv::field_bool(m, "ALIGN_MULTILINE_PARENTHESIZED_EXPRESSION"),
            align_multiline_records: Kv::field_bool(m, "ALIGN_MULTILINE_RECORDS"),
            align_multiline_resources: Kv::field_bool(m, "ALIGN_MULTILINE_RESOURCES"),
            align_multiline_ternary_operation: Kv::field_bool(m, "ALIGN_MULTILINE_TERNARY_OPERATION"),
            align_multiline_text_blocks: Kv::field_bool(m, "ALIGN_MULTILINE_TEXT_BLOCKS"),
            align_multiline_throws_list: Kv::field_bool(m, "ALIGN_MULTILINE_THROWS_LIST"),
            align_subsequent_simple_methods: Kv::field_bool(m, "ALIGN_SUBSEQUENT_SIMPLE_METHODS"),
            align_throws_keyword: Kv::field_bool(m, "ALIGN_THROWS_KEYWORD"),
            align_types_in_multi_catch: Kv::field_bool(m, "ALIGN_TYPES_IN_MULTI_CATCH"),
            annotation_new_line_in_record_component: Kv::field_bool(m, "ANNOTATION_NEW_LINE_IN_RECORD_COMPONENT"),
            annotation_parameter_wrap: Kv::field_trimmed(m, "ANNOTATION_PARAMETER_WRAP"),
            array_initializer_lbrace_on_next_line: Kv::field_bool(m, "ARRAY_INITIALIZER_LBRACE_ON_NEXT_LINE"),
            array_initializer_rbrace_on_next_line: Kv::field_bool(m, "ARRAY_INITIALIZER_RBRACE_ON_NEXT_LINE"),
            array_initializer_wrap: Kv::field_trimmed(m, "ARRAY_INITIALIZER_WRAP"),
            assert_statement_colon_on_next_line: Kv::field_bool(m, "ASSERT_STATEMENT_COLON_ON_NEXT_LINE"),
            assert_statement_wrap: Kv::field_trimmed(m, "ASSERT_STATEMENT_WRAP"),
            assignment_wrap: Kv::field_trimmed(m, "ASSIGNMENT_WRAP"),
            binary_operation_sign_on_next_line: Kv::field_bool(m, "BINARY_OPERATION_SIGN_ON_NEXT_LINE"),
            binary_operation_wrap: Kv::field_trimmed(m, "BINARY_OPERATION_WRAP"),
            brace_style: Kv::field_trimmed(m, "BRACE_STYLE"),
            call_parameters_lparen_on_next_line: Kv::field_bool(m, "CALL_PARAMETERS_LPAREN_ON_NEXT_LINE"),
            call_parameters_rparen_on_next_line: Kv::field_bool(m, "CALL_PARAMETERS_RPAREN_ON_NEXT_LINE"),
            call_parameters_wrap: Kv::field_trimmed(m, "CALL_PARAMETERS_WRAP"),
            case_statement_on_new_line: Kv::field_bool(m, "CASE_STATEMENT_ON_NEW_LINE"),
            catch_on_new_line: Kv::field_bool(m, "CATCH_ON_NEW_LINE"),
            class_annotation_wrap: Kv::field_trimmed(m, "CLASS_ANNOTATION_WRAP"),
            class_brace_style: Kv::field_trimmed(m, "CLASS_BRACE_STYLE"),
            deconstruction_list_wrap: Kv::field_trimmed(m, "DECONSTRUCTION_LIST_WRAP"),
            dowhile_brace_force: Kv::field_trimmed(m, "DOWHILE_BRACE_FORCE"),
            do_not_indent_top_level_class_members: Kv::field_bool(m, "DO_NOT_INDENT_TOP_LEVEL_CLASS_MEMBERS"),
            do_not_wrap_after_single_annotation: Kv::field_bool(m, "DO_NOT_WRAP_AFTER_SINGLE_ANNOTATION"),
            do_not_wrap_after_single_annotation_in_parameter: Kv::field_bool(m, "DO_NOT_WRAP_AFTER_SINGLE_ANNOTATION_IN_PARAMETER"),
            else_on_new_line: Kv::field_bool(m, "ELSE_ON_NEW_LINE"),
            enum_constants_wrap: Kv::field_trimmed(m, "ENUM_CONSTANTS_WRAP"),
            enum_field_annotation_wrap: Kv::field_trimmed(m, "ENUM_FIELD_ANNOTATION_WRAP"),
            extends_keyword_wrap: Kv::field_trimmed(m, "EXTENDS_KEYWORD_WRAP"),
            extends_list_wrap: Kv::field_trimmed(m, "EXTENDS_LIST_WRAP"),
            field_annotation_wrap: Kv::field_trimmed(m, "FIELD_ANNOTATION_WRAP"),
            finally_on_new_line: Kv::field_bool(m, "FINALLY_ON_NEW_LINE"),
            force_rearrange_mode: Kv::field_i64(m, "FORCE_REARRANGE_MODE"),
            for_brace_force: Kv::field_trimmed(m, "FOR_BRACE_FORCE"),
            for_statement_lparen_on_next_line: Kv::field_bool(m, "FOR_STATEMENT_LPAREN_ON_NEXT_LINE"),
            for_statement_rparen_on_next_line: Kv::field_bool(m, "FOR_STATEMENT_RPAREN_ON_NEXT_LINE"),
            for_statement_wrap: Kv::field_trimmed(m, "FOR_STATEMENT_WRAP"),
            if_brace_force: Kv::field_trimmed(m, "IF_BRACE_FORCE"),
            indent_break_from_case: Kv::field_bool(m, "INDENT_BREAK_FROM_CASE"),
            indent_case_from_switch: Kv::field_bool(m, "INDENT_CASE_FROM_SWITCH"),
            keep_builder_methods_indents: Kv::field_bool(m, "KEEP_BUILDER_METHODS_INDENTS"),
            keep_control_statement_in_one_line: Kv::field_bool(m, "KEEP_CONTROL_STATEMENT_IN_ONE_LINE"),
            keep_first_column_comment: Kv::field_bool(m, "KEEP_FIRST_COLUMN_COMMENT"),
            keep_line_breaks: Kv::field_bool(m, "KEEP_LINE_BREAKS"),
            keep_multiple_expressions_in_one_line: Kv::field_bool(m, "KEEP_MULTIPLE_EXPRESSIONS_IN_ONE_LINE"),
            keep_simple_blocks_in_one_line: Kv::field_bool(m, "KEEP_SIMPLE_BLOCKS_IN_ONE_LINE"),
            keep_simple_classes_in_one_line: Kv::field_bool(m, "KEEP_SIMPLE_CLASSES_IN_ONE_LINE"),
            keep_simple_lambdas_in_one_line: Kv::field_bool(m, "KEEP_SIMPLE_LAMBDAS_IN_ONE_LINE"),
            keep_simple_methods_in_one_line: Kv::field_bool(m, "KEEP_SIMPLE_METHODS_IN_ONE_LINE"),
            lambda_brace_style: Kv::field_trimmed(m, "LAMBDA_BRACE_STYLE"),
            method_annotation_wrap: Kv::field_trimmed(m, "METHOD_ANNOTATION_WRAP"),
            method_brace_style: Kv::field_trimmed(m, "METHOD_BRACE_STYLE"),
            method_call_chain_wrap: Kv::field_trimmed(m, "METHOD_CALL_CHAIN_WRAP"),
            method_parameters_lparen_on_next_line: Kv::field_bool(m, "METHOD_PARAMETERS_LPAREN_ON_NEXT_LINE"),
            method_parameters_rparen_on_next_line: Kv::field_bool(m, "METHOD_PARAMETERS_RPAREN_ON_NEXT_LINE"),
            method_parameters_wrap: Kv::field_trimmed(m, "METHOD_PARAMETERS_WRAP"),
            modifier_list_wrap: Kv::field_bool(m, "MODIFIER_LIST_WRAP"),
            multi_catch_types_wrap: Kv::field_trimmed(m, "MULTI_CATCH_TYPES_WRAP"),
            new_line_after_lparen_in_annotation: Kv::field_bool(m, "NEW_LINE_AFTER_LPAREN_IN_ANNOTATION"),
            new_line_after_lparen_in_deconstruction_pattern: Kv::field_bool(m, "NEW_LINE_AFTER_LPAREN_IN_DECONSTRUCTION_PATTERN"),
            new_line_after_lparen_in_record_header: Kv::field_bool(m, "NEW_LINE_AFTER_LPAREN_IN_RECORD_HEADER"),
            new_line_when_body_is_presented: Kv::field_bool(m, "NEW_LINE_WHEN_BODY_IS_PRESENTED"),
            parameter_annotation_wrap: Kv::field_trimmed(m, "PARAMETER_ANNOTATION_WRAP"),
            parentheses_expression_lparen_wrap: Kv::field_bool(m, "PARENTHESES_EXPRESSION_LPAREN_WRAP"),
            parentheses_expression_rparen_wrap: Kv::field_bool(m, "PARENTHESES_EXPRESSION_RPAREN_WRAP"),
            place_assignment_sign_on_next_line: Kv::field_bool(m, "PLACE_ASSIGNMENT_SIGN_ON_NEXT_LINE"),
            prefer_parameters_wrap: Kv::field_bool(m, "PREFER_PARAMETERS_WRAP"),
            record_components_wrap: Kv::field_trimmed(m, "RECORD_COMPONENTS_WRAP"),
            resource_list_lparen_on_next_line: Kv::field_bool(m, "RESOURCE_LIST_LPAREN_ON_NEXT_LINE"),
            resource_list_rparen_on_next_line: Kv::field_bool(m, "RESOURCE_LIST_RPAREN_ON_NEXT_LINE"),
            resource_list_wrap: Kv::field_trimmed(m, "RESOURCE_LIST_WRAP"),
            rparen_on_new_line_in_annotation: Kv::field_bool(m, "RPAREN_ON_NEW_LINE_IN_ANNOTATION"),
            rparen_on_new_line_in_deconstruction_pattern: Kv::field_bool(m, "RPAREN_ON_NEW_LINE_IN_DECONSTRUCTION_PATTERN"),
            rparen_on_new_line_in_record_header: Kv::field_bool(m, "RPAREN_ON_NEW_LINE_IN_RECORD_HEADER"),
            special_else_if_treatment: Kv::field_bool(m, "SPECIAL_ELSE_IF_TREATMENT"),
            switch_expressions_wrap: Kv::field_trimmed(m, "SWITCH_EXPRESSIONS_WRAP"),
            ternary_operation_signs_on_next_line: Kv::field_bool(m, "TERNARY_OPERATION_SIGNS_ON_NEXT_LINE"),
            ternary_operation_wrap: Kv::field_trimmed(m, "TERNARY_OPERATION_WRAP"),
            throws_keyword_wrap: Kv::field_trimmed(m, "THROWS_KEYWORD_WRAP"),
            throws_list_wrap: Kv::field_trimmed(m, "THROWS_LIST_WRAP"),
            variable_annotation_wrap: Kv::field_trimmed(m, "VARIABLE_ANNOTATION_WRAP"),
            while_brace_force: Kv::field_trimmed(m, "WHILE_BRACE_FORCE"),
            while_on_new_line: Kv::field_bool(m, "WHILE_ON_NEW_LINE"),
            wrap_comments: Kv::field_bool(m, "WRAP_COMMENTS"),
            wrap_first_method_in_call_chain: Kv::field_bool(m, "WRAP_FIRST_METHOD_IN_CALL_CHAIN"),
            wrap_long_lines: Kv::field_bool(m, "WRAP_LONG_LINES"),
            wrap_on_typing: Kv::field_i64(m, "WRAP_ON_TYPING"),
            wrap_semicolon_after_call_chain: Kv::field_bool(m, "WRAP_SEMICOLON_AFTER_CALL_CHAIN"),
        }
    }
}

} // verus!
