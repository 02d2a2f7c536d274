use jals_fmt::config::{BraceStyle, Config, IndentStyle, KeepOnOneLine, ParenPositions, WrapPolicy};
use jals_fmt::import::eclipse::{Alignment, EclipseConfig, EclipsePrefs, EclipseXmlProfile, Insert};
use jals_fmt::import::kv::KvMap;
use jals_fmt::import::text::ECLIPSE_FORMATTER_PREFIX;

/// Every Eclipse formatter id (without the namespace prefix) and its value kind.
const INVENTORY: &[(&str, &str)] = &[
    ("align_arrows_in_switch_on_columns", "bool"),
    ("align_assignment_statements_on_columns", "bool"),
    ("align_fields_grouping_blank_lines", "int"),
    ("align_selector_in_method_invocation_on_expression_first_line", "bool"),
    ("align_type_members_on_columns", "bool"),
    ("align_variable_declarations_on_columns", "bool"),
    ("align_with_spaces", "bool"),
    ("compact_else_if", "bool"),
    ("continuation_indentation", "int"),
    ("continuation_indentation_for_array_initializer", "int"),
    ("disabling_tag", "string"),
    ("enabling_tag", "string"),
    ("format_guardian_clause_on_one_line", "bool"),
    ("format_line_comment_starting_on_first_column", "bool"),
    ("indent_body_declarations_compare_to_annotation_declaration_header", "bool"),
    ("indent_body_declarations_compare_to_enum_constant_header", "bool"),
    ("indent_body_declarations_compare_to_enum_declaration_header", "bool"),
    ("indent_body_declarations_compare_to_record_header", "bool"),
    ("indent_body_declarations_compare_to_type_header", "bool"),
    ("indent_breaks_compare_to_cases", "bool"),
    ("indent_empty_lines", "bool"),
    ("indent_statements_compare_to_block", "bool"),
    ("indent_statements_compare_to_body", "bool"),
    ("indent_switchstatements_compare_to_cases", "bool"),
    ("indent_switchstatements_compare_to_switch", "bool"),
    ("indentation.size", "int"),
    ("join_line_comments", "bool"),
    ("join_lines_in_comments", "bool"),
    ("join_wrapped_lines", "bool"),
    ("keep_else_statement_on_same_line", "bool"),
    ("keep_simple_do_while_body_on_same_line", "bool"),
    ("keep_simple_for_body_on_same_line", "bool"),
    ("keep_simple_while_body_on_same_line", "bool"),
    ("keep_then_statement_on_same_line", "bool"),
    ("lineSplit", "int"),
    ("never_indent_block_comments_on_first_column", "bool"),
    ("never_indent_line_comments_on_first_column", "bool"),
    ("put_empty_statement_on_new_line", "bool"),
    ("put_text_block_quotes_on_new_line", "bool"),
    ("tabulation.char", "tab-char"),
    ("tabulation.size", "int"),
    ("text_block_indentation", "text-block-indent"),
    ("use_on_off_tags", "bool"),
    ("use_tabs_only_for_leading_indentations", "bool"),
    ("wrap_outer_expressions_when_nested", "bool"),
    ("brace_position_for_annotation_type_declaration", "brace"),
    ("brace_position_for_anonymous_type_declaration", "brace"),
    ("brace_position_for_array_initializer", "brace"),
    ("brace_position_for_block", "brace"),
    ("brace_position_for_block_in_case", "brace"),
    ("brace_position_for_block_in_case_after_arrow", "brace"),
    ("brace_position_for_constructor_declaration", "brace"),
    ("brace_position_for_enum_constant", "brace"),
    ("brace_position_for_enum_declaration", "brace"),
    ("brace_position_for_lambda_body", "brace"),
    ("brace_position_for_method_declaration", "brace"),
    ("brace_position_for_record_constructor", "brace"),
    ("brace_position_for_record_declaration", "brace"),
    ("brace_position_for_switch", "brace"),
    ("brace_position_for_type_declaration", "brace"),
    ("keep_annotation_declaration_on_one_line", "one-line"),
    ("keep_anonymous_type_declaration_on_one_line", "one-line"),
    ("keep_code_block_on_one_line", "one-line"),
    ("keep_empty_array_initializer_on_one_line", "bool"),
    ("keep_enum_constant_declaration_on_one_line", "one-line"),
    ("keep_enum_declaration_on_one_line", "one-line"),
    ("keep_if_then_body_block_on_one_line", "one-line"),
    ("keep_imple_if_on_one_line", "bool"),
    ("keep_lambda_body_block_on_one_line", "one-line"),
    ("keep_loop_body_block_on_one_line", "one-line"),
    ("keep_method_body_on_one_line", "one-line"),
    ("keep_record_constructor_on_one_line", "one-line"),
    ("keep_record_declaration_on_one_line", "one-line"),
    ("keep_simple_getter_setter_on_one_line", "bool"),
    ("keep_switch_body_block_on_one_line", "one-line"),
    ("keep_switch_case_with_arrow_on_one_line", "one-line"),
    ("keep_type_declaration_on_one_line", "one-line"),
    ("blank_lines_after_imports", "int"),
    ("blank_lines_after_last_class_body_declaration", "int"),
    ("blank_lines_after_package", "int"),
    ("blank_lines_before_abstract_method", "int"),
    ("blank_lines_before_field", "int"),
    ("blank_lines_before_first_class_body_declaration", "int"),
    ("blank_lines_before_imports", "int"),
    ("blank_lines_before_member_type", "int"),
    ("blank_lines_before_method", "int"),
    ("blank_lines_before_new_chunk", "int"),
    ("blank_lines_before_package", "int"),
    ("blank_lines_between_import_groups", "int"),
    ("blank_lines_between_statement_group_in_switch", "int"),
    ("blank_lines_between_type_declarations", "int"),
    ("number_of_blank_lines_after_code_block", "int"),
    ("number_of_blank_lines_at_beginning_of_code_block", "int"),
    ("number_of_blank_lines_at_beginning_of_method_body", "int"),
    ("number_of_blank_lines_at_end_of_code_block", "int"),
    ("number_of_blank_lines_at_end_of_method_body", "int"),
    ("number_of_blank_lines_before_code_block", "int"),
    ("number_of_empty_lines_to_preserve", "int"),
    ("alignment_for_additive_operator", "alignment"),
    ("alignment_for_annotations_on_enum_constant", "alignment"),
    ("alignment_for_annotations_on_field", "alignment"),
    ("alignment_for_annotations_on_local_variable", "alignment"),
    ("alignment_for_annotations_on_method", "alignment"),
    ("alignment_for_annotations_on_package", "alignment"),
    ("alignment_for_annotations_on_parameter", "alignment"),
    ("alignment_for_annotations_on_type", "alignment"),
    ("alignment_for_arguments_in_allocation_expression", "alignment"),
    ("alignment_for_arguments_in_annotation", "alignment"),
    ("alignment_for_arguments_in_enum_constant", "alignment"),
    ("alignment_for_arguments_in_explicit_constructor_call", "alignment"),
    ("alignment_for_arguments_in_method_invocation", "alignment"),
    ("alignment_for_arguments_in_qualified_allocation_expression", "alignment"),
    ("alignment_for_assertion_message", "alignment"),
    ("alignment_for_assignment", "alignment"),
    ("alignment_for_binary_expression", "alignment"),
    ("alignment_for_bitwise_operator", "alignment"),
    ("alignment_for_compact_if", "alignment"),
    ("alignment_for_compact_loops", "alignment"),
    ("alignment_for_conditional_expression", "alignment"),
    ("alignment_for_conditional_expression_chain", "alignment"),
    ("alignment_for_enum_constants", "alignment"),
    ("alignment_for_expressions_in_array_initializer", "alignment"),
    ("alignment_for_expressions_in_for_loop_header", "alignment"),
    ("alignment_for_expressions_in_switch_case_with_arrow", "alignment"),
    ("alignment_for_expressions_in_switch_case_with_colon", "alignment"),
    ("alignment_for_logical_operator", "alignment"),
    ("alignment_for_method_declaration", "alignment"),
    ("alignment_for_module_statements", "alignment"),
    ("alignment_for_multiple_fields", "alignment"),
    ("alignment_for_multiplicative_operator", "alignment"),
    ("alignment_for_parameterized_type_references", "alignment"),
    ("alignment_for_parameters_in_constructor_declaration", "alignment"),
    ("alignment_for_parameters_in_method_declaration", "alignment"),
    ("alignment_for_permitted_types_in_type_declaration", "alignment"),
    ("alignment_for_record_components", "alignment"),
    ("alignment_for_relational_operator", "alignment"),
    ("alignment_for_resources_in_try", "alignment"),
    ("alignment_for_selector_in_method_invocation", "alignment"),
    ("alignment_for_shift_operator", "alignment"),
    ("alignment_for_string_concatenation", "alignment"),
    ("alignment_for_superclass_in_type_declaration", "alignment"),
    ("alignment_for_superinterfaces_in_enum_declaration", "alignment"),
    ("alignment_for_superinterfaces_in_record_declaration", "alignment"),
    ("alignment_for_superinterfaces_in_type_declaration", "alignment"),
    ("alignment_for_switch_case_with_arrow", "alignment"),
    ("alignment_for_throws_clause_in_constructor_declaration", "alignment"),
    ("alignment_for_throws_clause_in_method_declaration", "alignment"),
    ("alignment_for_type_annotations", "alignment"),
    ("alignment_for_type_arguments", "alignment"),
    ("alignment_for_type_parameters", "alignment"),
    ("alignment_for_union_type_in_multicatch", "alignment"),
    ("parentheses_positions_in_annotation", "paren"),
    ("parentheses_positions_in_catch_clause", "paren"),
    ("parentheses_positions_in_enum_constant_declaration", "paren"),
    ("parentheses_positions_in_for_statment", "paren"),
    ("parentheses_positions_in_if_while_statement", "paren"),
    ("parentheses_positions_in_lambda_declaration", "paren"),
    ("parentheses_positions_in_method_delcaration", "paren"),
    ("parentheses_positions_in_method_invocation", "paren"),
    ("parentheses_positions_in_record_declaration", "paren"),
    ("parentheses_positions_in_switch_statement", "paren"),
    ("parentheses_positions_in_try_clause", "paren"),
    ("wrap_before_additive_operator", "bool"),
    ("wrap_before_assertion_message_operator", "bool"),
    ("wrap_before_assignment_operator", "bool"),
    ("wrap_before_binary_operator", "bool"),
    ("wrap_before_bitwise_operator", "bool"),
    ("wrap_before_conditional_operator", "bool"),
    ("wrap_before_logical_operator", "bool"),
    ("wrap_before_multiplicative_operator", "bool"),
    ("wrap_before_or_operator_multicatch", "bool"),
    ("wrap_before_relational_operator", "bool"),
    ("wrap_before_shift_operator", "bool"),
    ("wrap_before_string_concatenation", "bool"),
    ("wrap_before_switch_case_arrow_operator", "bool"),
    ("insert_space_after_additive_operator", "insert"),
    ("insert_space_after_and_in_type_parameter", "insert"),
    ("insert_space_after_arrow_in_switch_case", "insert"),
    ("insert_space_after_arrow_in_switch_default", "insert"),
    ("insert_space_after_assignment_operator", "insert"),
    ("insert_space_after_at_in_annotation", "insert"),
    ("insert_space_after_at_in_annotation_type_declaration", "insert"),
    ("insert_space_after_binary_operator", "insert"),
    ("insert_space_after_bitwise_operator", "insert"),
    ("insert_space_after_closing_angle_bracket_in_type_arguments", "insert"),
    ("insert_space_after_closing_angle_bracket_in_type_parameters", "insert"),
    ("insert_space_after_closing_brace_in_block", "insert"),
    ("insert_space_after_closing_paren_in_cast", "insert"),
    ("insert_space_after_colon_in_assert", "insert"),
    ("insert_space_after_colon_in_case", "insert"),
    ("insert_space_after_colon_in_conditional", "insert"),
    ("insert_space_after_colon_in_for", "insert"),
    ("insert_space_after_colon_in_labeled_statement", "insert"),
    ("insert_space_after_comma_in_allocation_expression", "insert"),
    ("insert_space_after_comma_in_annotation", "insert"),
    ("insert_space_after_comma_in_array_initializer", "insert"),
    ("insert_space_after_comma_in_constructor_declaration_parameters", "insert"),
    ("insert_space_after_comma_in_constructor_declaration_throws", "insert"),
    ("insert_space_after_comma_in_enum_constant_arguments", "insert"),
    ("insert_space_after_comma_in_enum_declarations", "insert"),
    ("insert_space_after_comma_in_explicitconstructorcall_arguments", "insert"),
    ("insert_space_after_comma_in_for_increments", "insert"),
    ("insert_space_after_comma_in_for_inits", "insert"),
    ("insert_space_after_comma_in_method_declaration_parameters", "insert"),
    ("insert_space_after_comma_in_method_declaration_throws", "insert"),
    ("insert_space_after_comma_in_method_invocation_arguments", "insert"),
    ("insert_space_after_comma_in_multiple_field_declarations", "insert"),
    ("insert_space_after_comma_in_multiple_local_declarations", "insert"),
    ("insert_space_after_comma_in_parameterized_type_reference", "insert"),
    ("insert_space_after_comma_in_permitted_types", "insert"),
    ("insert_space_after_comma_in_record_components", "insert"),
    ("insert_space_after_comma_in_superinterfaces", "insert"),
    ("insert_space_after_comma_in_switch_case_expressions", "insert"),
    ("insert_space_after_comma_in_type_arguments", "insert"),
    ("insert_space_after_comma_in_type_parameters", "insert"),
    ("insert_space_after_ellipsis", "insert"),
    ("insert_space_after_lambda_arrow", "insert"),
    ("insert_space_after_logical_operator", "insert"),
    ("insert_space_after_multiplicative_operator", "insert"),
    ("insert_space_after_not_operator", "insert"),
    ("insert_space_after_opening_angle_bracket_in_parameterized_type_reference", "insert"),
    ("insert_space_after_opening_angle_bracket_in_type_arguments", "insert"),
    ("insert_space_after_opening_angle_bracket_in_type_parameters", "insert"),
    ("insert_space_after_opening_brace_in_array_initializer", "insert"),
    ("insert_space_after_opening_bracket_in_array_allocation_expression", "insert"),
    ("insert_space_after_opening_bracket_in_array_reference", "insert"),
    ("insert_space_after_opening_paren_in_annotation", "insert"),
    ("insert_space_after_opening_paren_in_cast", "insert"),
    ("insert_space_after_opening_paren_in_catch", "insert"),
    ("insert_space_after_opening_paren_in_constructor_declaration", "insert"),
    ("insert_space_after_opening_paren_in_enum_constant", "insert"),
    ("insert_space_after_opening_paren_in_for", "insert"),
    ("insert_space_after_opening_paren_in_if", "insert"),
    ("insert_space_after_opening_paren_in_method_declaration", "insert"),
    ("insert_space_after_opening_paren_in_method_invocation", "insert"),
    ("insert_space_after_opening_paren_in_parenthesized_expression", "insert"),
    ("insert_space_after_opening_paren_in_record_declaration", "insert"),
    ("insert_space_after_opening_paren_in_switch", "insert"),
    ("insert_space_after_opening_paren_in_synchronized", "insert"),
    ("insert_space_after_opening_paren_in_try", "insert"),
    ("insert_space_after_opening_paren_in_while", "insert"),
    ("insert_space_after_postfix_operator", "insert"),
    ("insert_space_after_prefix_operator", "insert"),
    ("insert_space_after_question_in_conditional", "insert"),
    ("insert_space_after_question_in_wildcard", "insert"),
    ("insert_space_after_relational_operator", "insert"),
    ("insert_space_after_semicolon_in_for", "insert"),
    ("insert_space_after_semicolon_in_try_resources", "insert"),
    ("insert_space_after_shift_operator", "insert"),
    ("insert_space_after_string_concatenation", "insert"),
    ("insert_space_after_unary_operator", "insert"),
    ("insert_space_before_additive_operator", "insert"),
    ("insert_space_before_and_in_type_parameter", "insert"),
    ("insert_space_before_arrow_in_switch_case", "insert"),
    ("insert_space_before_arrow_in_switch_default", "insert"),
    ("insert_space_before_assignment_operator", "insert"),
    ("insert_space_before_at_in_annotation_type_declaration", "insert"),
    ("insert_space_before_binary_operator", "insert"),
    ("insert_space_before_bitwise_operator", "insert"),
    ("insert_space_before_closing_angle_bracket_in_parameterized_type_reference", "insert"),
    ("insert_space_before_closing_angle_bracket_in_type_arguments", "insert"),
    ("insert_space_before_closing_angle_bracket_in_type_parameters", "insert"),
    ("insert_space_before_closing_brace_in_array_initializer", "insert"),
    ("insert_space_before_closing_bracket_in_array_allocation_expression", "insert"),
    ("insert_space_before_closing_bracket_in_array_reference", "insert"),
    ("insert_space_before_closing_paren_in_annotation", "insert"),
    ("insert_space_before_closing_paren_in_cast", "insert"),
    ("insert_space_before_closing_paren_in_catch", "insert"),
    ("insert_space_before_closing_paren_in_constructor_declaration", "insert"),
    ("insert_space_before_closing_paren_in_enum_constant", "insert"),
    ("insert_space_before_closing_paren_in_for", "insert"),
    ("insert_space_before_closing_paren_in_if", "insert"),
    ("insert_space_before_closing_paren_in_method_declaration", "insert"),
    ("insert_space_before_closing_paren_in_method_invocation", "insert"),
    ("insert_space_before_closing_paren_in_parenthesized_expression", "insert"),
    ("insert_space_before_closing_paren_in_record_declaration", "insert"),
    ("insert_space_before_closing_paren_in_switch", "insert"),
    ("insert_space_before_closing_paren_in_synchronized", "insert"),
    ("insert_space_before_closing_paren_in_try", "insert"),
    ("insert_space_before_closing_paren_in_while", "insert"),
    ("insert_space_before_colon_in_assert", "insert"),
    ("insert_space_before_colon_in_case", "insert"),
    ("insert_space_before_colon_in_conditional", "insert"),
    ("insert_space_before_colon_in_default", "insert"),
    ("insert_space_before_colon_in_for", "insert"),
    ("insert_space_before_colon_in_labeled_statement", "insert"),
    ("insert_space_before_comma_in_allocation_expression", "insert"),
    ("insert_space_before_comma_in_annotation", "insert"),
    ("insert_space_before_comma_in_array_initializer", "insert"),
    ("insert_space_before_comma_in_constructor_declaration_parameters", "insert"),
    ("insert_space_before_comma_in_constructor_declaration_throws", "insert"),
    ("insert_space_before_comma_in_enum_constant_arguments", "insert"),
    ("insert_space_before_comma_in_enum_declarations", "insert"),
    ("insert_space_before_comma_in_explicitconstructorcall_arguments", "insert"),
    ("insert_space_before_comma_in_for_increments", "insert"),
    ("insert_space_before_comma_in_for_inits", "insert"),
    ("insert_space_before_comma_in_method_declaration_parameters", "insert"),
    ("insert_space_before_comma_in_method_declaration_throws", "insert"),
    ("insert_space_before_comma_in_method_invocation_arguments", "insert"),
    ("insert_space_before_comma_in_multiple_field_declarations", "insert"),
    ("insert_space_before_comma_in_multiple_local_declarations", "insert"),
    ("insert_space_before_comma_in_parameterized_type_reference", "insert"),
    ("insert_space_before_comma_in_permitted_types", "insert"),
    ("insert_space_before_comma_in_record_components", "insert"),
    ("insert_space_before_comma_in_superinterfaces", "insert"),
    ("insert_space_before_comma_in_switch_case_expressions", "insert"),
    ("insert_space_before_comma_in_type_arguments", "insert"),
    ("insert_space_before_comma_in_type_parameters", "insert"),
    ("insert_space_before_ellipsis", "insert"),
    ("insert_space_before_lambda_arrow", "insert"),
    ("insert_space_before_logical_operator", "insert"),
    ("insert_space_before_multiplicative_operator", "insert"),
    ("insert_space_before_opening_angle_bracket_in_parameterized_type_reference", "insert"),
    ("insert_space_before_opening_angle_bracket_in_type_arguments", "insert"),
    ("insert_space_before_opening_angle_bracket_in_type_parameters", "insert"),
    ("insert_space_before_opening_brace_in_annotation_type_declaration", "insert"),
    ("insert_space_before_opening_brace_in_anonymous_type_declaration", "insert"),
    ("insert_space_before_opening_brace_in_array_initializer", "insert"),
    ("insert_space_before_opening_brace_in_block", "insert"),
    ("insert_space_before_opening_brace_in_constructor_declaration", "insert"),
    ("insert_space_before_opening_brace_in_enum_constant", "insert"),
    ("insert_space_before_opening_brace_in_enum_declaration", "insert"),
    ("insert_space_before_opening_brace_in_method_declaration", "insert"),
    ("insert_space_before_opening_brace_in_record_constructor", "insert"),
    ("insert_space_before_opening_brace_in_record_declaration", "insert"),
    ("insert_space_before_opening_brace_in_switch", "insert"),
    ("insert_space_before_opening_brace_in_type_declaration", "insert"),
    ("insert_space_before_opening_bracket_in_array_allocation_expression", "insert"),
    ("insert_space_before_opening_bracket_in_array_reference", "insert"),
    ("insert_space_before_opening_bracket_in_array_type_reference", "insert"),
    ("insert_space_before_opening_paren_in_annotation", "insert"),
    ("insert_space_before_opening_paren_in_annotation_type_member_declaration", "insert"),
    ("insert_space_before_opening_paren_in_catch", "insert"),
    ("insert_space_before_opening_paren_in_constructor_declaration", "insert"),
    ("insert_space_before_opening_paren_in_enum_constant", "insert"),
    ("insert_space_before_opening_paren_in_for", "insert"),
    ("insert_space_before_opening_paren_in_if", "insert"),
    ("insert_space_before_opening_paren_in_method_declaration", "insert"),
    ("insert_space_before_opening_paren_in_method_invocation", "insert"),
    ("insert_space_before_opening_paren_in_parenthesized_expression", "insert"),
    ("insert_space_before_opening_paren_in_record_declaration", "insert"),
    ("insert_space_before_opening_paren_in_switch", "insert"),
    ("insert_space_before_opening_paren_in_synchronized", "insert"),
    ("insert_space_before_opening_paren_in_try", "insert"),
    ("insert_space_before_opening_paren_in_while", "insert"),
    ("insert_space_before_parenthesized_expression_in_return", "insert"),
    ("insert_space_before_parenthesized_expression_in_throw", "insert"),
    ("insert_space_before_postfix_operator", "insert"),
    ("insert_space_before_prefix_operator", "insert"),
    ("insert_space_before_question_in_conditional", "insert"),
    ("insert_space_before_question_in_wildcard", "insert"),
    ("insert_space_before_relational_operator", "insert"),
    ("insert_space_before_semicolon", "insert"),
    ("insert_space_before_semicolon_in_for", "insert"),
    ("insert_space_before_semicolon_in_try_resources", "insert"),
    ("insert_space_before_shift_operator", "insert"),
    ("insert_space_before_string_concatenation", "insert"),
    ("insert_space_before_unary_operator", "insert"),
    ("insert_space_between_brackets_in_array_type_reference", "insert"),
    ("insert_space_between_empty_braces_in_array_initializer", "insert"),
    ("insert_space_between_empty_brackets_in_array_allocation_expression", "insert"),
    ("insert_space_between_empty_parens_in_annotation_type_member_declaration", "insert"),
    ("insert_space_between_empty_parens_in_constructor_declaration", "insert"),
    ("insert_space_between_empty_parens_in_enum_constant", "insert"),
    ("insert_space_between_empty_parens_in_method_declaration", "insert"),
    ("insert_space_between_empty_parens_in_method_invocation", "insert"),
    ("insert_new_line_after_annotation", "insert"),
    ("insert_new_line_after_annotation_on_enum_constant", "insert"),
    ("insert_new_line_after_annotation_on_field", "insert"),
    ("insert_new_line_after_annotation_on_local_variable", "insert"),
    ("insert_new_line_after_annotation_on_member", "insert"),
    ("insert_new_line_after_annotation_on_method", "insert"),
    ("insert_new_line_after_annotation_on_package", "insert"),
    ("insert_new_line_after_annotation_on_parameter", "insert"),
    ("insert_new_line_after_annotation_on_type", "insert"),
    ("insert_new_line_after_label", "insert"),
    ("insert_new_line_after_opening_brace_in_array_initializer", "insert"),
    ("insert_new_line_after_type_annotation", "insert"),
    ("insert_new_line_at_end_of_file_if_missing", "insert"),
    ("insert_new_line_before_catch_in_try_statement", "insert"),
    ("insert_new_line_before_closing_brace_in_array_initializer", "insert"),
    ("insert_new_line_before_else_in_if_statement", "insert"),
    ("insert_new_line_before_finally_in_try_statement", "insert"),
    ("insert_new_line_before_while_in_do_statement", "insert"),
    ("insert_new_line_in_empty_annotation_declaration", "insert"),
    ("insert_new_line_in_empty_anonymous_type_declaration", "insert"),
    ("insert_new_line_in_empty_block", "insert"),
    ("insert_new_line_in_empty_enum_constant", "insert"),
    ("insert_new_line_in_empty_enum_declaration", "insert"),
    ("insert_new_line_in_empty_method_body", "insert"),
    ("insert_new_line_in_empty_type_declaration", "insert"),
    ("comment.align_tags_descriptions_grouped", "bool"),
    ("comment.align_tags_names_descriptions", "bool"),
    ("comment.clear_blank_lines", "bool"),
    ("comment.clear_blank_lines_in_block_comment", "bool"),
    ("comment.clear_blank_lines_in_javadoc_comment", "bool"),
    ("comment.count_line_length_from_starting_position", "bool"),
    ("comment.format_block_comments", "bool"),
    ("comment.format_comments", "bool"),
    ("comment.format_header", "bool"),
    ("comment.format_html", "bool"),
    ("comment.format_javadoc_comments", "bool"),
    ("comment.format_line_comments", "bool"),
    ("comment.format_markdown_comments", "bool"),
    ("comment.format_source_code", "bool"),
    ("comment.indent_parameter_description", "bool"),
    ("comment.indent_root_tags", "bool"),
    ("comment.indent_tag_description", "bool"),
    ("comment.insert_new_line_before_root_tags", "insert"),
    ("comment.insert_new_line_between_different_tags", "insert"),
    ("comment.insert_new_line_for_parameter", "insert"),
    ("comment.javadoc_do_not_separate_block_tags", "bool"),
    ("comment.line_length", "int"),
    ("comment.new_lines_at_block_boundaries", "bool"),
    ("comment.new_lines_at_javadoc_boundaries", "bool"),
    ("comment.preserve_white_space_between_code_and_line_comments", "bool"),
];

/// A parseable, non-default value for a setting of `kind`.
fn probe(kind: &str) -> &'static str {
    match kind {
        "insert" => "insert",
        "bool" => "true",
        "int" => "7",
        "alignment" => "16",
        "brace" => "next_line",
        "one-line" => "one_line_always",
        "paren" => "separate_lines",
        "tab-char" => "mixed",
        "text-block-indent" => "indent_by_one",
        "string" => "@off",
        other => panic!("inventory row has an unknown value kind `{other}`"),
    }
}

/// Parse a profile given as `.prefs` lines.
fn prefs(lines: &[(&str, &str)]) -> EclipseConfig {
    let mut src = String::new();
    for (id, value) in lines {
        src.push_str(&format!("{ECLIPSE_FORMATTER_PREFIX}{id}={value}\n"));
    }
    EclipsePrefs::parse(&src).expect("profile should parse")
}

#[test]
fn every_inventoried_option_is_modeled() {
    let baseline = EclipseConfig::default();
    let mut missing = Vec::new();
    for (id, kind) in INVENTORY {
        let mut pairs = KvMap::new();
        let full = format!("{ECLIPSE_FORMATTER_PREFIX}{id}");
        pairs.insert(&full, probe(kind));
        let parsed = EclipseConfig::from_pairs(&pairs).expect("single setting should parse");
        if parsed == baseline {
            missing.push(full);
        }
    }
    assert!(missing.is_empty(), "{} Eclipse setting(s) are not captured by the model: {missing:?}", missing.len());
}

#[test]
fn the_inventory_is_the_documented_size() {
    assert_eq!(INVENTORY.len(), 416, "Eclipse ships 401 live + 15 legacy ids");
}

#[test]
fn a_profile_key_outside_the_formatter_namespace_is_ignored() {
    let config = EclipsePrefs::parse(
        "eclipse.preferences.version=1\n\
         org.eclipse.jdt.core.compiler.compliance=21\n\
         org.eclipse.jdt.core.formatter.lineSplit=120\n",
    )
    .expect("profile should parse");
    assert_eq!(config.indentation.line_split, Some(120));
    assert_eq!(config.indentation.tabulation_size, None);
}

#[test]
fn indentation_and_width_project() {
    let config = prefs(&[
        ("tabulation.char", "space"),
        ("tabulation.size", "4"),
        ("continuation_indentation", "2"),
        ("lineSplit", "120"),
    ])
    .to_config();
    assert_eq!(config.layout.indent_style, IndentStyle::Space);
    assert_eq!(config.layout.indent_width, 4);
    // Eclipse counts the continuation in levels; jals in columns.
    assert_eq!(config.layout.continuation_indent, Some(8));
    assert_eq!(config.layout.max_width, 120);
}

#[test]
fn mixed_indentation_separates_the_level_width_from_the_tab_stop() {
    let config = prefs(&[("tabulation.char", "mixed"), ("tabulation.size", "8"), ("indentation.size", "4")]).to_config();
    assert_eq!(config.layout.indent_style, IndentStyle::Mixed);
    assert_eq!(config.layout.indent_width, 4);
    assert_eq!(config.layout.tab_width, 8);
}

#[test]
fn brace_positions_keep_their_four_way_distinction() {
    let config = prefs(&[
        ("brace_position_for_type_declaration", "next_line"),
        ("brace_position_for_method_declaration", "next_line_shifted"),
        ("brace_position_for_block", "next_line_on_wrap"),
        ("brace_position_for_lambda_body", "end_of_line"),
    ])
    .to_config();
    assert_eq!(config.braces.type_declaration, BraceStyle::NextLine);
    assert_eq!(config.braces.method_declaration, BraceStyle::NextLineShifted);
    assert_eq!(config.braces.block, BraceStyle::NextLineOnWrap);
    assert_eq!(config.braces.lambda_body, BraceStyle::SameLine);
}

#[test]
fn alignment_bits_decide_the_wrap_policy() {
    let config = prefs(&[
        ("alignment_for_arguments_in_method_invocation", "16"),
        ("alignment_for_parameters_in_method_declaration", "48"),
        ("alignment_for_expressions_in_array_initializer", "49"),
        ("alignment_for_enum_constants", "2147483647"),
        ("alignment_for_assignment", "0"),
    ])
    .to_config();
    assert_eq!(config.wrapping.call_arguments, WrapPolicy::IfLong);
    assert_eq!(config.wrapping.method_parameters, WrapPolicy::IfLongPerItem);
    assert_eq!(config.wrapping.array_initializer, WrapPolicy::AlwaysPerItem);
    assert_eq!(config.wrapping.enum_constants, WrapPolicy::Never);
    assert_eq!(config.wrapping.assignment, WrapPolicy::Never);
    let native = prefs(&[("alignment_for_assignment", "17")]);
    assert_eq!(native.alignment.alignment_for_assignment, Some(Alignment(17)), "modeled");
}

#[test]
fn alignment_bits_split_into_mode_and_flags() {
    let bits = Alignment(49);
    assert_eq!(bits.split(), Alignment::ONE_PER_LINE);
    assert!(bits.is_forced());
    assert!(!bits.is_never());
    assert!(Alignment(Alignment::NEVER).is_never());
    // The never sentinel has every low bit set, yet it is not "forced".
    assert!(!Alignment(Alignment::NEVER).is_forced());
    assert_eq!(Alignment(32).to_jals(), WrapPolicy::IfLong);
    assert_eq!(Alignment(33).to_jals(), WrapPolicy::AlwaysPerItem);
    assert_eq!(Alignment(80).to_jals(), WrapPolicy::IfLongPerItem);
    assert_eq!(Alignment(96).to_jals(), WrapPolicy::Never);
}

#[test]
fn the_deprecated_binary_operator_ids_still_land() {
    let config = prefs(&[("wrap_before_binary_operator", "false")]).to_config();
    assert!(!config.wrapping.before_binary_operator);
    // The finer id wins over the deprecated one it refines.
    let config = prefs(&[("wrap_before_binary_operator", "false"), ("wrap_before_additive_operator", "true")]).to_config();
    assert!(config.wrapping.before_binary_operator);
}

#[test]
fn the_five_colon_contexts_project_independently() {
    let config = prefs(&[
        ("insert_space_before_colon_in_conditional", "insert"),
        ("insert_space_before_colon_in_for", "do not insert"),
        ("insert_space_before_colon_in_labeled_statement", "insert"),
        ("insert_space_before_colon_in_case", "insert"),
        ("insert_space_before_colon_in_assert", "do not insert"),
    ])
    .to_config();
    assert!(config.spacing.before_ternary_colon);
    assert!(!config.spacing.before_foreach_colon);
    assert!(config.spacing.before_label_colon);
    assert!(config.spacing.before_case_colon);
    assert!(!config.spacing.before_assert_colon);
}

#[test]
fn one_line_policies_map_one_to_one() {
    let config = prefs(&[
        ("keep_method_body_on_one_line", "one_line_if_single_item"),
        ("keep_code_block_on_one_line", "one_line_preserve"),
        ("keep_type_declaration_on_one_line", "one_line_never"),
    ])
    .to_config();
    assert_eq!(config.braces.keep_method_body_on_one_line, KeepOnOneLine::IfSingleItem);
    assert_eq!(config.braces.keep_block_on_one_line, KeepOnOneLine::Preserve);
    assert_eq!(config.braces.keep_type_body_on_one_line, KeepOnOneLine::Never);
}

#[test]
fn parenthesis_positions_map_one_to_one() {
    let config = prefs(&[
        ("parentheses_positions_in_method_delcaration", "separate_lines"),
        ("parentheses_positions_in_method_invocation", "common_lines"),
        ("parentheses_positions_in_if_while_statement", "preserve_positions"),
    ])
    .to_config();
    assert_eq!(config.wrapping.paren_method_declaration, ParenPositions::SeparateLines);
    assert_eq!(config.wrapping.paren_method_invocation, ParenPositions::CommonLines);
    assert_eq!(config.wrapping.paren_control, ParenPositions::Preserve);
}

#[test]
fn an_unparsable_value_leaves_the_setting_unset() {
    let native = prefs(&[("lineSplit", "not-a-number"), ("tabulation.char", "wobbly")]);
    assert_eq!(native.indentation.line_split, None);
    assert_eq!(native.indentation.tabulation_char, None);
    assert_eq!(native.to_config(), Config::default());
}

#[test]
fn comment_settings_project() {
    let config = prefs(&[
        ("comment.format_javadoc_comments", "true"),
        ("comment.format_line_comments", "false"),
        ("comment.line_length", "72"),
        ("comment.clear_blank_lines_in_javadoc_comment", "true"),
    ])
    .to_config();
    assert!(config.comments.format_javadoc);
    assert!(!config.comments.format_line);
    assert_eq!(config.comments.width, 72);
    assert!(!config.comments.preserve_blank_lines);
}

#[test]
fn spacing_pairs_fold_with_either_side() {
    let config = prefs(&[
        ("insert_space_before_assignment_operator", "do not insert"),
        ("insert_space_after_assignment_operator", "insert"),
        ("insert_space_before_unary_operator", "do not insert"),
        ("insert_space_after_unary_operator", "do not insert"),
    ])
    .to_config();
    assert!(config.spacing.around_assignment_operators);
    assert!(!config.spacing.around_unary_operator);
    assert_eq!(Insert::Insert.is_insert(), true);
    assert_eq!(Insert::DoNotInsert.is_insert(), false);
}

#[test]
fn a_pathological_continuation_saturates() {
    let config = prefs(&[("tabulation.size", "4"), ("continuation_indentation", &usize::MAX.to_string())]).to_config();
    assert_eq!(config.layout.continuation_indent, Some(usize::MAX));
}

#[test]
fn an_empty_profile_is_the_defaults() {
    let config = EclipsePrefs::import("").expect("an empty profile parses");
    assert_eq!(config, Config::default());
    assert_eq!(config.layout.line_ending, jals_fmt::config::LineEnding::Lf);
}

#[test]
fn the_xml_profile_and_the_prefs_file_agree() {
    let xml = r#"<?xml version="1.0" encoding="UTF-8" standalone="no"?>
<profiles version="23">
<profile kind="CodeFormatterProfile" name="Eclipse" version="23">
<setting id="org.eclipse.jdt.core.formatter.tabulation.char" value="space"/>
<setting id="org.eclipse.jdt.core.formatter.tabulation.size" value="2"/>
<setting id="org.eclipse.jdt.core.formatter.lineSplit" value="120"/>
<setting id="org.eclipse.jdt.core.formatter.brace_position_for_type_declaration" value="next_line"/>
</profile>
</profiles>"#;
    let from_xml = EclipseXmlProfile::parse(xml).expect("profile should parse");
    let from_prefs = prefs(&[
        ("tabulation.char", "space"),
        ("tabulation.size", "2"),
        ("lineSplit", "120"),
        ("brace_position_for_type_declaration", "next_line"),
    ]);
    assert_eq!(from_xml, from_prefs);
}

#[test]
fn an_xml_setting_outside_the_formatter_namespace_is_ignored() {
    let xml = r#"<profiles><profile>
<setting id="org.eclipse.jdt.core.compiler.compliance" value="21"/>
<setting id="org.eclipse.jdt.core.formatter.lineSplit" value="&#49;30"/>
</profile></profiles>"#;
    let native = EclipseXmlProfile::parse(xml).expect("profile should parse");
    assert_eq!(native.indentation.line_split, Some(130));
}

#[test]
fn a_value_is_read_whatever_its_case() {
    let config = prefs(&[("comment.format_javadoc_comments", "TRUE"), ("tabulation.char", "Space")]).to_config();
    assert!(config.comments.format_javadoc);
    assert_eq!(config.layout.indent_style, jals_fmt::config::IndentStyle::Space);
}
