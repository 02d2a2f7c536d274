//! The `.editorconfig` key → code-style setting name table.
//!
//! IntelliJ writes the same setting under two spellings: an `UPPER_SNAKE` XML option name and
//! a lowercase `.editorconfig` key derived from it (`PropertyNameUtil`, plus per-field
//! `@Property(externalName = ...)` overrides, plus four universal EditorConfig names and two
//! `ij_`-domain ones). The models are keyed by the XML name because it is total — eight
//! `<indentOptions>` settings have no editorconfig key at all — so the editorconfig reader
//! translates through this table.

use vstd::prelude::*;

verus! {

/// How many rows the table has.
pub const KEY_COUNT: usize = 289;

/// Row `i` of the table: `(editorconfig key, setting name)`, sorted by key.
pub open spec fn key_pair(i: int) -> (Seq<char>, Seq<char>) {
    if i == 0 {
        ("charset"@, "charset"@)
    } else if i == 1 {
        ("end_of_line"@, "LINE_SEPARATOR"@)
    } else if i == 2 {
        ("ij_continuation_indent_size"@, "CONTINUATION_INDENT_SIZE"@)
    } else if i == 3 {
        ("ij_formatter_off_tag"@, "FORMATTER_OFF_TAG"@)
    } else if i == 4 {
        ("ij_formatter_on_tag"@, "FORMATTER_ON_TAG"@)
    } else if i == 5 {
        ("ij_formatter_tags_accept_regexp"@, "FORMATTER_TAGS_ACCEPT_REGEXP"@)
    } else if i == 6 {
        ("ij_formatter_tags_enabled"@, "FORMATTER_TAGS_ENABLED"@)
    } else if i == 7 {
        ("ij_java_align_consecutive_assignments"@, "ALIGN_CONSECUTIVE_ASSIGNMENTS"@)
    } else if i == 8 {
        ("ij_java_align_consecutive_variable_declarations"@, "ALIGN_CONSECUTIVE_VARIABLE_DECLARATIONS"@)
    } else if i == 9 {
        ("ij_java_align_group_field_declarations"@, "ALIGN_GROUP_FIELD_DECLARATIONS"@)
    } else if i == 10 {
        ("ij_java_align_multiline_annotation_parameters"@, "ALIGN_MULTILINE_ANNOTATION_PARAMETERS"@)
    } else if i == 11 {
        ("ij_java_align_multiline_array_initializer_expression"@, "ALIGN_MULTILINE_ARRAY_INITIALIZER_EXPRESSION"@)
    } else if i == 12 {
        ("ij_java_align_multiline_assignment"@, "ALIGN_MULTILINE_ASSIGNMENT"@)
    } else if i == 13 {
        ("ij_java_align_multiline_binary_operation"@, "ALIGN_MULTILINE_BINARY_OPERATION"@)
    } else if i == 14 {
        ("ij_java_align_multiline_chained_methods"@, "ALIGN_MULTILINE_CHAINED_METHODS"@)
    } else if i == 15 {
        ("ij_java_align_multiline_deconstruction_list_components"@, "ALIGN_MULTILINE_DECONSTRUCTION_LIST_COMPONENTS"@)
    } else if i == 16 {
        ("ij_java_align_multiline_extends_list"@, "ALIGN_MULTILINE_EXTENDS_LIST"@)
    } else if i == 17 {
        ("ij_java_align_multiline_for"@, "ALIGN_MULTILINE_FOR"@)
    } else if i == 18 {
        ("ij_java_align_multiline_method_parentheses"@, "ALIGN_MULTILINE_METHOD_BRACKETS"@)
    } else if i == 19 {
        ("ij_java_align_multiline_parameters"@, "ALIGN_MULTILINE_PARAMETERS"@)
    } else if i == 20 {
        ("ij_java_align_multiline_parameters_in_calls"@, "ALIGN_MULTILINE_PARAMETERS_IN_CALLS"@)
    } else if i == 21 {
        ("ij_java_align_multiline_parenthesized_expression"@, "ALIGN_MULTILINE_PARENTHESIZED_EXPRESSION"@)
    } else if i == 22 {
        ("ij_java_align_multiline_records"@, "ALIGN_MULTILINE_RECORDS"@)
    } else if i == 23 {
        ("ij_java_align_multiline_resources"@, "ALIGN_MULTILINE_RESOURCES"@)
    } else if i == 24 {
        ("ij_java_align_multiline_ternary_operation"@, "ALIGN_MULTILINE_TERNARY_OPERATION"@)
    } else if i == 25 {
        ("ij_java_align_multiline_text_blocks"@, "ALIGN_MULTILINE_TEXT_BLOCKS"@)
    } else if i == 26 {
        ("ij_java_align_multiline_throws_list"@, "ALIGN_MULTILINE_THROWS_LIST"@)
    } else if i == 27 {
        ("ij_java_align_subsequent_simple_methods"@, "ALIGN_SUBSEQUENT_SIMPLE_METHODS"@)
    } else if i == 28 {
        ("ij_java_align_throws_keyword"@, "ALIGN_THROWS_KEYWORD"@)
    } else if i == 29 {
        ("ij_java_align_types_in_multi_catch"@, "ALIGN_TYPES_IN_MULTI_CATCH"@)
    } else if i == 30 {
        ("ij_java_annotation_new_line_in_record_component"@, "ANNOTATION_NEW_LINE_IN_RECORD_COMPONENT"@)
    } else if i == 31 {
        ("ij_java_annotation_parameter_wrap"@, "ANNOTATION_PARAMETER_WRAP"@)
    } else if i == 32 {
        ("ij_java_array_initializer_new_line_after_left_brace"@, "ARRAY_INITIALIZER_LBRACE_ON_NEXT_LINE"@)
    } else if i == 33 {
        ("ij_java_array_initializer_right_brace_on_new_line"@, "ARRAY_INITIALIZER_RBRACE_ON_NEXT_LINE"@)
    } else if i == 34 {
        ("ij_java_array_initializer_wrap"@, "ARRAY_INITIALIZER_WRAP"@)
    } else if i == 35 {
        ("ij_java_assert_statement_colon_on_next_line"@, "ASSERT_STATEMENT_COLON_ON_NEXT_LINE"@)
    } else if i == 36 {
        ("ij_java_assert_statement_wrap"@, "ASSERT_STATEMENT_WRAP"@)
    } else if i == 37 {
        ("ij_java_assignment_wrap"@, "ASSIGNMENT_WRAP"@)
    } else if i == 38 {
        ("ij_java_binary_operation_sign_on_next_line"@, "BINARY_OPERATION_SIGN_ON_NEXT_LINE"@)
    } else if i == 39 {
        ("ij_java_binary_operation_wrap"@, "BINARY_OPERATION_WRAP"@)
    } else if i == 40 {
        ("ij_java_blank_lines_after_anonymous_class_header"@, "BLANK_LINES_AFTER_ANONYMOUS_CLASS_HEADER"@)
    } else if i == 41 {
        ("ij_java_blank_lines_after_class_header"@, "BLANK_LINES_AFTER_CLASS_HEADER"@)
    } else if i == 42 {
        ("ij_java_blank_lines_after_imports"@, "BLANK_LINES_AFTER_IMPORTS"@)
    } else if i == 43 {
        ("ij_java_blank_lines_after_package"@, "BLANK_LINES_AFTER_PACKAGE"@)
    } else if i == 44 {
        ("ij_java_blank_lines_around_class"@, "BLANK_LINES_AROUND_CLASS"@)
    } else if i == 45 {
        ("ij_java_blank_lines_around_field"@, "BLANK_LINES_AROUND_FIELD"@)
    } else if i == 46 {
        ("ij_java_blank_lines_around_field_in_interface"@, "BLANK_LINES_AROUND_FIELD_IN_INTERFACE"@)
    } else if i == 47 {
        ("ij_java_blank_lines_around_field_with_annotations"@, "BLANK_LINES_AROUND_FIELD_WITH_ANNOTATIONS"@)
    } else if i == 48 {
        ("ij_java_blank_lines_around_initializer"@, "BLANK_LINES_AROUND_INITIALIZER"@)
    } else if i == 49 {
        ("ij_java_blank_lines_around_method"@, "BLANK_LINES_AROUND_METHOD"@)
    } else if i == 50 {
        ("ij_java_blank_lines_around_method_in_interface"@, "BLANK_LINES_AROUND_METHOD_IN_INTERFACE"@)
    } else if i == 51 {
        ("ij_java_blank_lines_before_class_end"@, "BLANK_LINES_BEFORE_CLASS_END"@)
    } else if i == 52 {
        ("ij_java_blank_lines_before_imports"@, "BLANK_LINES_BEFORE_IMPORTS"@)
    } else if i == 53 {
        ("ij_java_blank_lines_before_method_body"@, "BLANK_LINES_BEFORE_METHOD_BODY"@)
    } else if i == 54 {
        ("ij_java_blank_lines_before_package"@, "BLANK_LINES_BEFORE_PACKAGE"@)
    } else if i == 55 {
        ("ij_java_blank_lines_between_case_blocks"@, "BLANK_LINES_BETWEEN_CASE_BLOCKS"@)
    } else if i == 56 {
        ("ij_java_blank_lines_between_record_components"@, "BLANK_LINES_BETWEEN_RECORD_COMPONENTS"@)
    } else if i == 57 {
        ("ij_java_block_brace_style"@, "BRACE_STYLE"@)
    } else if i == 58 {
        ("ij_java_block_comment_add_space"@, "BLOCK_COMMENT_ADD_SPACE"@)
    } else if i == 59 {
        ("ij_java_block_comment_at_first_column"@, "BLOCK_COMMENT_AT_FIRST_COLUMN"@)
    } else if i == 60 {
        ("ij_java_call_parameters_new_line_after_left_paren"@, "CALL_PARAMETERS_LPAREN_ON_NEXT_LINE"@)
    } else if i == 61 {
        ("ij_java_call_parameters_right_paren_on_new_line"@, "CALL_PARAMETERS_RPAREN_ON_NEXT_LINE"@)
    } else if i == 62 {
        ("ij_java_call_parameters_wrap"@, "CALL_PARAMETERS_WRAP"@)
    } else if i == 63 {
        ("ij_java_case_statement_on_separate_line"@, "CASE_STATEMENT_ON_NEW_LINE"@)
    } else if i == 64 {
        ("ij_java_catch_on_new_line"@, "CATCH_ON_NEW_LINE"@)
    } else if i == 65 {
        ("ij_java_class_annotation_wrap"@, "CLASS_ANNOTATION_WRAP"@)
    } else if i == 66 {
        ("ij_java_class_brace_style"@, "CLASS_BRACE_STYLE"@)
    } else if i == 67 {
        ("ij_java_class_count_to_use_import_on_demand"@, "CLASS_COUNT_TO_USE_IMPORT_ON_DEMAND"@)
    } else if i == 68 {
        ("ij_java_class_names_in_javadoc"@, "CLASS_NAMES_IN_JAVADOC"@)
    } else if i == 69 {
        ("ij_java_deconstruction_list_wrap"@, "DECONSTRUCTION_LIST_WRAP"@)
    } else if i == 70 {
        ("ij_java_delete_unused_module_imports"@, "DELETE_UNUSED_MODULE_IMPORTS"@)
    } else if i == 71 {
        ("ij_java_do_not_indent_top_level_class_members"@, "DO_NOT_INDENT_TOP_LEVEL_CLASS_MEMBERS"@)
    } else if i == 72 {
        ("ij_java_do_not_wrap_after_single_annotation"@, "DO_NOT_WRAP_AFTER_SINGLE_ANNOTATION"@)
    } else if i == 73 {
        ("ij_java_do_not_wrap_after_single_annotation_in_parameter"@, "DO_NOT_WRAP_AFTER_SINGLE_ANNOTATION_IN_PARAMETER"@)
    } else if i == 74 {
        ("ij_java_do_while_brace_force"@, "DOWHILE_BRACE_FORCE"@)
    } else if i == 75 {
        ("ij_java_doc_add_blank_line_after_description"@, "JD_ADD_BLANK_AFTER_DESCRIPTION"@)
    } else if i == 76 {
        ("ij_java_doc_add_blank_line_after_param_comments"@, "JD_ADD_BLANK_AFTER_PARM_COMMENTS"@)
    } else if i == 77 {
        ("ij_java_doc_add_blank_line_after_return"@, "JD_ADD_BLANK_AFTER_RETURN"@)
    } else if i == 78 {
        ("ij_java_doc_add_p_tag_on_empty_lines"@, "JD_P_AT_EMPTY_LINES"@)
    } else if i == 79 {
        ("ij_java_doc_align_exception_comments"@, "JD_ALIGN_EXCEPTION_COMMENTS"@)
    } else if i == 80 {
        ("ij_java_doc_align_param_comments"@, "JD_ALIGN_PARAM_COMMENTS"@)
    } else if i == 81 {
        ("ij_java_doc_do_not_wrap_if_one_line"@, "JD_DO_NOT_WRAP_ONE_LINE_COMMENTS"@)
    } else if i == 82 {
        ("ij_java_doc_enable_formatting"@, "ENABLE_JAVADOC_FORMATTING"@)
    } else if i == 83 {
        ("ij_java_doc_enable_leading_asterisks"@, "JD_LEADING_ASTERISKS_ARE_ENABLED"@)
    } else if i == 84 {
        ("ij_java_doc_indent_on_continuation"@, "JD_INDENT_ON_CONTINUATION"@)
    } else if i == 85 {
        ("ij_java_doc_keep_empty_lines"@, "JD_KEEP_EMPTY_LINES"@)
    } else if i == 86 {
        ("ij_java_doc_keep_empty_parameter_tag"@, "JD_KEEP_EMPTY_PARAMETER"@)
    } else if i == 87 {
        ("ij_java_doc_keep_empty_return_tag"@, "JD_KEEP_EMPTY_RETURN"@)
    } else if i == 88 {
        ("ij_java_doc_keep_empty_throws_tag"@, "JD_KEEP_EMPTY_EXCEPTION"@)
    } else if i == 89 {
        ("ij_java_doc_keep_invalid_tags"@, "JD_KEEP_INVALID_TAGS"@)
    } else if i == 90 {
        ("ij_java_doc_param_description_on_new_line"@, "JD_PARAM_DESCRIPTION_ON_NEW_LINE"@)
    } else if i == 91 {
        ("ij_java_doc_preserve_line_breaks"@, "JD_PRESERVE_LINE_FEEDS"@)
    } else if i == 92 {
        ("ij_java_doc_use_throws_not_exception_tag"@, "JD_USE_THROWS_NOT_EXCEPTION"@)
    } else if i == 93 {
        ("ij_java_documentation_line_comment_preferred"@, "DOCUMENTATION_LINE_COMMENT_PREFERRED"@)
    } else if i == 94 {
        ("ij_java_else_on_new_line"@, "ELSE_ON_NEW_LINE"@)
    } else if i == 95 {
        ("ij_java_enum_constants_wrap"@, "ENUM_CONSTANTS_WRAP"@)
    } else if i == 96 {
        ("ij_java_enum_field_annotation_wrap"@, "ENUM_FIELD_ANNOTATION_WRAP"@)
    } else if i == 97 {
        ("ij_java_extends_keyword_wrap"@, "EXTENDS_KEYWORD_WRAP"@)
    } else if i == 98 {
        ("ij_java_extends_list_wrap"@, "EXTENDS_LIST_WRAP"@)
    } else if i == 99 {
        ("ij_java_field_annotation_wrap"@, "FIELD_ANNOTATION_WRAP"@)
    } else if i == 100 {
        ("ij_java_field_name_prefix"@, "FIELD_NAME_PREFIX"@)
    } else if i == 101 {
        ("ij_java_field_name_suffix"@, "FIELD_NAME_SUFFIX"@)
    } else if i == 102 {
        ("ij_java_finally_on_new_line"@, "FINALLY_ON_NEW_LINE"@)
    } else if i == 103 {
        ("ij_java_for_brace_force"@, "FOR_BRACE_FORCE"@)
    } else if i == 104 {
        ("ij_java_for_statement_new_line_after_left_paren"@, "FOR_STATEMENT_LPAREN_ON_NEXT_LINE"@)
    } else if i == 105 {
        ("ij_java_for_statement_right_paren_on_new_line"@, "FOR_STATEMENT_RPAREN_ON_NEXT_LINE"@)
    } else if i == 106 {
        ("ij_java_for_statement_wrap"@, "FOR_STATEMENT_WRAP"@)
    } else if i == 107 {
        ("ij_java_force_rearrange_mode"@, "FORCE_REARRANGE_MODE"@)
    } else if i == 108 {
        ("ij_java_generate_final_locals"@, "GENERATE_FINAL_LOCALS"@)
    } else if i == 109 {
        ("ij_java_generate_final_parameters"@, "GENERATE_FINAL_PARAMETERS"@)
    } else if i == 110 {
        ("ij_java_generate_use_type_annotation_before_type"@, "GENERATE_USE_TYPE_ANNOTATION_BEFORE_TYPE"@)
    } else if i == 111 {
        ("ij_java_if_brace_force"@, "IF_BRACE_FORCE"@)
    } else if i == 112 {
        ("ij_java_imports_layout"@, "IMPORT_LAYOUT_TABLE"@)
    } else if i == 113 {
        ("ij_java_indent_break_from_case"@, "INDENT_BREAK_FROM_CASE"@)
    } else if i == 114 {
        ("ij_java_indent_case_from_switch"@, "INDENT_CASE_FROM_SWITCH"@)
    } else if i == 115 {
        ("ij_java_insert_inner_class_imports"@, "INSERT_INNER_CLASS_IMPORTS"@)
    } else if i == 116 {
        ("ij_java_insert_override_annotation"@, "INSERT_OVERRIDE_ANNOTATION"@)
    } else if i == 117 {
        ("ij_java_keep_blank_lines_before_right_brace"@, "KEEP_BLANK_LINES_BEFORE_RBRACE"@)
    } else if i == 118 {
        ("ij_java_keep_blank_lines_between_package_declaration_and_header"@, "KEEP_BLANK_LINES_BETWEEN_PACKAGE_DECLARATION_AND_HEADER"@)
    } else if i == 119 {
        ("ij_java_keep_blank_lines_in_code"@, "KEEP_BLANK_LINES_IN_CODE"@)
    } else if i == 120 {
        ("ij_java_keep_blank_lines_in_declarations"@, "KEEP_BLANK_LINES_IN_DECLARATIONS"@)
    } else if i == 121 {
        ("ij_java_keep_builder_methods_indents"@, "KEEP_BUILDER_METHODS_INDENTS"@)
    } else if i == 122 {
        ("ij_java_keep_control_statement_in_one_line"@, "KEEP_CONTROL_STATEMENT_IN_ONE_LINE"@)
    } else if i == 123 {
        ("ij_java_keep_first_column_comment"@, "KEEP_FIRST_COLUMN_COMMENT"@)
    } else if i == 124 {
        ("ij_java_keep_indents_on_empty_lines"@, "KEEP_INDENTS_ON_EMPTY_LINES"@)
    } else if i == 125 {
        ("ij_java_keep_line_breaks"@, "KEEP_LINE_BREAKS"@)
    } else if i == 126 {
        ("ij_java_keep_multiple_expressions_in_one_line"@, "KEEP_MULTIPLE_EXPRESSIONS_IN_ONE_LINE"@)
    } else if i == 127 {
        ("ij_java_keep_simple_blocks_in_one_line"@, "KEEP_SIMPLE_BLOCKS_IN_ONE_LINE"@)
    } else if i == 128 {
        ("ij_java_keep_simple_classes_in_one_line"@, "KEEP_SIMPLE_CLASSES_IN_ONE_LINE"@)
    } else if i == 129 {
        ("ij_java_keep_simple_lambdas_in_one_line"@, "KEEP_SIMPLE_LAMBDAS_IN_ONE_LINE"@)
    } else if i == 130 {
        ("ij_java_keep_simple_methods_in_one_line"@, "KEEP_SIMPLE_METHODS_IN_ONE_LINE"@)
    } else if i == 131 {
        ("ij_java_lambda_brace_style"@, "LAMBDA_BRACE_STYLE"@)
    } else if i == 132 {
        ("ij_java_layout_on_demand_import_from_same_package_first"@, "LAYOUT_ON_DEMAND_IMPORT_FROM_SAME_PACKAGE_FIRST"@)
    } else if i == 133 {
        ("ij_java_layout_static_imports_separately"@, "LAYOUT_STATIC_IMPORTS_SEPARATELY"@)
    } else if i == 134 {
        ("ij_java_line_comment_add_space"@, "LINE_COMMENT_ADD_SPACE"@)
    } else if i == 135 {
        ("ij_java_line_comment_add_space_in_suppression"@, "LINE_COMMENT_ADD_SPACE_IN_SUPPRESSION"@)
    } else if i == 136 {
        ("ij_java_line_comment_add_space_on_reformat"@, "LINE_COMMENT_ADD_SPACE_ON_REFORMAT"@)
    } else if i == 137 {
        ("ij_java_line_comment_at_first_column"@, "LINE_COMMENT_AT_FIRST_COLUMN"@)
    } else if i == 138 {
        ("ij_java_local_variable_name_prefix"@, "LOCAL_VARIABLE_NAME_PREFIX"@)
    } else if i == 139 {
        ("ij_java_local_variable_name_suffix"@, "LOCAL_VARIABLE_NAME_SUFFIX"@)
    } else if i == 140 {
        ("ij_java_method_annotation_wrap"@, "METHOD_ANNOTATION_WRAP"@)
    } else if i == 141 {
        ("ij_java_method_brace_style"@, "METHOD_BRACE_STYLE"@)
    } else if i == 142 {
        ("ij_java_method_call_chain_wrap"@, "METHOD_CALL_CHAIN_WRAP"@)
    } else if i == 143 {
        ("ij_java_method_parameters_new_line_after_left_paren"@, "METHOD_PARAMETERS_LPAREN_ON_NEXT_LINE"@)
    } else if i == 144 {
        ("ij_java_method_parameters_right_paren_on_new_line"@, "METHOD_PARAMETERS_RPAREN_ON_NEXT_LINE"@)
    } else if i == 145 {
        ("ij_java_method_parameters_wrap"@, "METHOD_PARAMETERS_WRAP"@)
    } else if i == 146 {
        ("ij_java_modifier_list_wrap"@, "MODIFIER_LIST_WRAP"@)
    } else if i == 147 {
        ("ij_java_multi_catch_types_wrap"@, "MULTI_CATCH_TYPES_WRAP"@)
    } else if i == 148 {
        ("ij_java_names_count_to_use_import_on_demand"@, "NAMES_COUNT_TO_USE_IMPORT_ON_DEMAND"@)
    } else if i == 149 {
        ("ij_java_new_line_after_lparen_in_annotation"@, "NEW_LINE_AFTER_LPAREN_IN_ANNOTATION"@)
    } else if i == 150 {
        ("ij_java_new_line_after_lparen_in_deconstruction_pattern"@, "NEW_LINE_AFTER_LPAREN_IN_DECONSTRUCTION_PATTERN"@)
    } else if i == 151 {
        ("ij_java_new_line_after_lparen_in_record_header"@, "NEW_LINE_AFTER_LPAREN_IN_RECORD_HEADER"@)
    } else if i == 152 {
        ("ij_java_new_line_when_body_is_presented"@, "NEW_LINE_WHEN_BODY_IS_PRESENTED"@)
    } else if i == 153 {
        ("ij_java_packages_to_use_import_on_demand"@, "PACKAGES_TO_USE_IMPORT_ON_DEMAND"@)
    } else if i == 154 {
        ("ij_java_parameter_annotation_wrap"@, "PARAMETER_ANNOTATION_WRAP"@)
    } else if i == 155 {
        ("ij_java_parameter_name_prefix"@, "PARAMETER_NAME_PREFIX"@)
    } else if i == 156 {
        ("ij_java_parameter_name_suffix"@, "PARAMETER_NAME_SUFFIX"@)
    } else if i == 157 {
        ("ij_java_parentheses_expression_new_line_after_left_paren"@, "PARENTHESES_EXPRESSION_LPAREN_WRAP"@)
    } else if i == 158 {
        ("ij_java_parentheses_expression_right_paren_on_new_line"@, "PARENTHESES_EXPRESSION_RPAREN_WRAP"@)
    } else if i == 159 {
        ("ij_java_place_assignment_sign_on_next_line"@, "PLACE_ASSIGNMENT_SIGN_ON_NEXT_LINE"@)
    } else if i == 160 {
        ("ij_java_prefer_longer_names"@, "PREFER_LONGER_NAMES"@)
    } else if i == 161 {
        ("ij_java_prefer_parameters_wrap"@, "PREFER_PARAMETERS_WRAP"@)
    } else if i == 162 {
        ("ij_java_preserve_module_imports"@, "PRESERVE_MODULE_IMPORTS"@)
    } else if i == 163 {
        ("ij_java_record_components_wrap"@, "RECORD_COMPONENTS_WRAP"@)
    } else if i == 164 {
        ("ij_java_repeat_annotations"@, "REPEAT_ANNOTATIONS"@)
    } else if i == 165 {
        ("ij_java_repeat_synchronized"@, "REPEAT_SYNCHRONIZED"@)
    } else if i == 166 {
        ("ij_java_replace_cast"@, "REPLACE_CAST"@)
    } else if i == 167 {
        ("ij_java_replace_instanceof"@, "REPLACE_INSTANCEOF"@)
    } else if i == 168 {
        ("ij_java_replace_instanceof_and_cast"@, "REPLACE_INSTANCEOF_AND_CAST"@)
    } else if i == 169 {
        ("ij_java_replace_null_check"@, "REPLACE_NULL_CHECK"@)
    } else if i == 170 {
        ("ij_java_replace_sum_lambda_with_method_ref"@, "REPLACE_SUM"@)
    } else if i == 171 {
        ("ij_java_resource_list_new_line_after_left_paren"@, "RESOURCE_LIST_LPAREN_ON_NEXT_LINE"@)
    } else if i == 172 {
        ("ij_java_resource_list_right_paren_on_new_line"@, "RESOURCE_LIST_RPAREN_ON_NEXT_LINE"@)
    } else if i == 173 {
        ("ij_java_resource_list_wrap"@, "RESOURCE_LIST_WRAP"@)
    } else if i == 174 {
        ("ij_java_rparen_on_new_line_in_annotation"@, "RPAREN_ON_NEW_LINE_IN_ANNOTATION"@)
    } else if i == 175 {
        ("ij_java_rparen_on_new_line_in_deconstruction_pattern"@, "RPAREN_ON_NEW_LINE_IN_DECONSTRUCTION_PATTERN"@)
    } else if i == 176 {
        ("ij_java_rparen_on_new_line_in_record_header"@, "RPAREN_ON_NEW_LINE_IN_RECORD_HEADER"@)
    } else if i == 177 {
        ("ij_java_space_after_closing_angle_bracket_in_type_argument"@, "SPACE_AFTER_CLOSING_ANGLE_BRACKET_IN_TYPE_ARGUMENT"@)
    } else if i == 178 {
        ("ij_java_space_after_colon"@, "SPACE_AFTER_COLON"@)
    } else if i == 179 {
        ("ij_java_space_after_comma"@, "SPACE_AFTER_COMMA"@)
    } else if i == 180 {
        ("ij_java_space_after_comma_in_type_arguments"@, "SPACE_AFTER_COMMA_IN_TYPE_ARGUMENTS"@)
    } else if i == 181 {
        ("ij_java_space_after_for_semicolon"@, "SPACE_AFTER_SEMICOLON"@)
    } else if i == 182 {
        ("ij_java_space_after_quest"@, "SPACE_AFTER_QUEST"@)
    } else if i == 183 {
        ("ij_java_space_after_type_cast"@, "SPACE_AFTER_TYPE_CAST"@)
    } else if i == 184 {
        ("ij_java_space_before_annotation_array_initializer_left_brace"@, "SPACE_BEFORE_ANNOTATION_ARRAY_INITIALIZER_LBRACE"@)
    } else if i == 185 {
        ("ij_java_space_before_annotation_parameter_list"@, "SPACE_BEFORE_ANOTATION_PARAMETER_LIST"@)
    } else if i == 186 {
        ("ij_java_space_before_array_initializer_left_brace"@, "SPACE_BEFORE_ARRAY_INITIALIZER_LBRACE"@)
    } else if i == 187 {
        ("ij_java_space_before_catch_keyword"@, "SPACE_BEFORE_CATCH_KEYWORD"@)
    } else if i == 188 {
        ("ij_java_space_before_catch_left_brace"@, "SPACE_BEFORE_CATCH_LBRACE"@)
    } else if i == 189 {
        ("ij_java_space_before_catch_parentheses"@, "SPACE_BEFORE_CATCH_PARENTHESES"@)
    } else if i == 190 {
        ("ij_java_space_before_class_left_brace"@, "SPACE_BEFORE_CLASS_LBRACE"@)
    } else if i == 191 {
        ("ij_java_space_before_colon"@, "SPACE_BEFORE_COLON"@)
    } else if i == 192 {
        ("ij_java_space_before_colon_in_foreach"@, "SPACE_BEFORE_COLON_IN_FOREACH"@)
    } else if i == 193 {
        ("ij_java_space_before_comma"@, "SPACE_BEFORE_COMMA"@)
    } else if i == 194 {
        ("ij_java_space_before_deconstruction_list"@, "SPACE_BEFORE_DECONSTRUCTION_LIST"@)
    } else if i == 195 {
        ("ij_java_space_before_do_left_brace"@, "SPACE_BEFORE_DO_LBRACE"@)
    } else if i == 196 {
        ("ij_java_space_before_else_keyword"@, "SPACE_BEFORE_ELSE_KEYWORD"@)
    } else if i == 197 {
        ("ij_java_space_before_else_left_brace"@, "SPACE_BEFORE_ELSE_LBRACE"@)
    } else if i == 198 {
        ("ij_java_space_before_finally_keyword"@, "SPACE_BEFORE_FINALLY_KEYWORD"@)
    } else if i == 199 {
        ("ij_java_space_before_finally_left_brace"@, "SPACE_BEFORE_FINALLY_LBRACE"@)
    } else if i == 200 {
        ("ij_java_space_before_for_left_brace"@, "SPACE_BEFORE_FOR_LBRACE"@)
    } else if i == 201 {
        ("ij_java_space_before_for_parentheses"@, "SPACE_BEFORE_FOR_PARENTHESES"@)
    } else if i == 202 {
        ("ij_java_space_before_for_semicolon"@, "SPACE_BEFORE_SEMICOLON"@)
    } else if i == 203 {
        ("ij_java_space_before_if_left_brace"@, "SPACE_BEFORE_IF_LBRACE"@)
    } else if i == 204 {
        ("ij_java_space_before_if_parentheses"@, "SPACE_BEFORE_IF_PARENTHESES"@)
    } else if i == 205 {
        ("ij_java_space_before_method_call_parentheses"@, "SPACE_BEFORE_METHOD_CALL_PARENTHESES"@)
    } else if i == 206 {
        ("ij_java_space_before_method_left_brace"@, "SPACE_BEFORE_METHOD_LBRACE"@)
    } else if i == 207 {
        ("ij_java_space_before_method_parentheses"@, "SPACE_BEFORE_METHOD_PARENTHESES"@)
    } else if i == 208 {
        ("ij_java_space_before_opening_angle_bracket_in_type_parameter"@, "SPACE_BEFORE_OPENING_ANGLE_BRACKET_IN_TYPE_PARAMETER"@)
    } else if i == 209 {
        ("ij_java_space_before_quest"@, "SPACE_BEFORE_QUEST"@)
    } else if i == 210 {
        ("ij_java_space_before_switch_left_brace"@, "SPACE_BEFORE_SWITCH_LBRACE"@)
    } else if i == 211 {
        ("ij_java_space_before_switch_parentheses"@, "SPACE_BEFORE_SWITCH_PARENTHESES"@)
    } else if i == 212 {
        ("ij_java_space_before_synchronized_left_brace"@, "SPACE_BEFORE_SYNCHRONIZED_LBRACE"@)
    } else if i == 213 {
        ("ij_java_space_before_synchronized_parentheses"@, "SPACE_BEFORE_SYNCHRONIZED_PARENTHESES"@)
    } else if i == 214 {
        ("ij_java_space_before_try_left_brace"@, "SPACE_BEFORE_TRY_LBRACE"@)
    } else if i == 215 {
        ("ij_java_space_before_try_parentheses"@, "SPACE_BEFORE_TRY_PARENTHESES"@)
    } else if i == 216 {
        ("ij_java_space_before_type_parameter_list"@, "SPACE_BEFORE_TYPE_PARAMETER_LIST"@)
    } else if i == 217 {
        ("ij_java_space_before_while_keyword"@, "SPACE_BEFORE_WHILE_KEYWORD"@)
    } else if i == 218 {
        ("ij_java_space_before_while_left_brace"@, "SPACE_BEFORE_WHILE_LBRACE"@)
    } else if i == 219 {
        ("ij_java_space_before_while_parentheses"@, "SPACE_BEFORE_WHILE_PARENTHESES"@)
    } else if i == 220 {
        ("ij_java_space_inside_one_line_enum_braces"@, "SPACE_INSIDE_ONE_LINE_ENUM_BRACES"@)
    } else if i == 221 {
        ("ij_java_space_within_empty_array_initializer_braces"@, "SPACE_WITHIN_EMPTY_ARRAY_INITIALIZER_BRACES"@)
    } else if i == 222 {
        ("ij_java_space_within_empty_method_call_parentheses"@, "SPACE_WITHIN_EMPTY_METHOD_CALL_PARENTHESES"@)
    } else if i == 223 {
        ("ij_java_space_within_empty_method_parentheses"@, "SPACE_WITHIN_EMPTY_METHOD_PARENTHESES"@)
    } else if i == 224 {
        ("ij_java_spaces_around_additive_operators"@, "SPACE_AROUND_ADDITIVE_OPERATORS"@)
    } else if i == 225 {
        ("ij_java_spaces_around_annotation_eq"@, "SPACE_AROUND_ANNOTATION_EQ"@)
    } else if i == 226 {
        ("ij_java_spaces_around_assignment_operators"@, "SPACE_AROUND_ASSIGNMENT_OPERATORS"@)
    } else if i == 227 {
        ("ij_java_spaces_around_bitwise_operators"@, "SPACE_AROUND_BITWISE_OPERATORS"@)
    } else if i == 228 {
        ("ij_java_spaces_around_equality_operators"@, "SPACE_AROUND_EQUALITY_OPERATORS"@)
    } else if i == 229 {
        ("ij_java_spaces_around_lambda_arrow"@, "SPACE_AROUND_LAMBDA_ARROW"@)
    } else if i == 230 {
        ("ij_java_spaces_around_logical_operators"@, "SPACE_AROUND_LOGICAL_OPERATORS"@)
    } else if i == 231 {
        ("ij_java_spaces_around_method_ref_dbl_colon"@, "SPACE_AROUND_METHOD_REF_DBL_COLON"@)
    } else if i == 232 {
        ("ij_java_spaces_around_multiplicative_operators"@, "SPACE_AROUND_MULTIPLICATIVE_OPERATORS"@)
    } else if i == 233 {
        ("ij_java_spaces_around_relational_operators"@, "SPACE_AROUND_RELATIONAL_OPERATORS"@)
    } else if i == 234 {
        ("ij_java_spaces_around_shift_operators"@, "SPACE_AROUND_SHIFT_OPERATORS"@)
    } else if i == 235 {
        ("ij_java_spaces_around_type_bounds_in_type_parameters"@, "SPACE_AROUND_TYPE_BOUNDS_IN_TYPE_PARAMETERS"@)
    } else if i == 236 {
        ("ij_java_spaces_around_unary_operator"@, "SPACE_AROUND_UNARY_OPERATOR"@)
    } else if i == 237 {
        ("ij_java_spaces_inside_block_braces_when_body_is_present"@, "SPACES_INSIDE_BLOCK_BRACES_WHEN_BODY_IS_PRESENT"@)
    } else if i == 238 {
        ("ij_java_spaces_within_angle_brackets"@, "SPACES_WITHIN_ANGLE_BRACKETS"@)
    } else if i == 239 {
        ("ij_java_spaces_within_annotation_parentheses"@, "SPACE_WITHIN_ANNOTATION_PARENTHESES"@)
    } else if i == 240 {
        ("ij_java_spaces_within_array_initializer_braces"@, "SPACE_WITHIN_ARRAY_INITIALIZER_BRACES"@)
    } else if i == 241 {
        ("ij_java_spaces_within_braces"@, "SPACE_WITHIN_BRACES"@)
    } else if i == 242 {
        ("ij_java_spaces_within_brackets"@, "SPACE_WITHIN_BRACKETS"@)
    } else if i == 243 {
        ("ij_java_spaces_within_cast_parentheses"@, "SPACE_WITHIN_CAST_PARENTHESES"@)
    } else if i == 244 {
        ("ij_java_spaces_within_catch_parentheses"@, "SPACE_WITHIN_CATCH_PARENTHESES"@)
    } else if i == 245 {
        ("ij_java_spaces_within_deconstruction_list"@, "SPACE_WITHIN_DECONSTRUCTION_LIST"@)
    } else if i == 246 {
        ("ij_java_spaces_within_for_parentheses"@, "SPACE_WITHIN_FOR_PARENTHESES"@)
    } else if i == 247 {
        ("ij_java_spaces_within_if_parentheses"@, "SPACE_WITHIN_IF_PARENTHESES"@)
    } else if i == 248 {
        ("ij_java_spaces_within_method_call_parentheses"@, "SPACE_WITHIN_METHOD_CALL_PARENTHESES"@)
    } else if i == 249 {
        ("ij_java_spaces_within_method_parentheses"@, "SPACE_WITHIN_METHOD_PARENTHESES"@)
    } else if i == 250 {
        ("ij_java_spaces_within_parentheses"@, "SPACE_WITHIN_PARENTHESES"@)
    } else if i == 251 {
        ("ij_java_spaces_within_record_header"@, "SPACE_WITHIN_RECORD_HEADER"@)
    } else if i == 252 {
        ("ij_java_spaces_within_switch_parentheses"@, "SPACE_WITHIN_SWITCH_PARENTHESES"@)
    } else if i == 253 {
        ("ij_java_spaces_within_synchronized_parentheses"@, "SPACE_WITHIN_SYNCHRONIZED_PARENTHESES"@)
    } else if i == 254 {
        ("ij_java_spaces_within_try_parentheses"@, "SPACE_WITHIN_TRY_PARENTHESES"@)
    } else if i == 255 {
        ("ij_java_spaces_within_while_parentheses"@, "SPACE_WITHIN_WHILE_PARENTHESES"@)
    } else if i == 256 {
        ("ij_java_special_else_if_treatment"@, "SPECIAL_ELSE_IF_TREATMENT"@)
    } else if i == 257 {
        ("ij_java_static_field_name_prefix"@, "STATIC_FIELD_NAME_PREFIX"@)
    } else if i == 258 {
        ("ij_java_static_field_name_suffix"@, "STATIC_FIELD_NAME_SUFFIX"@)
    } else if i == 259 {
        ("ij_java_strip_whitespace_from_blank_lines_in_text_blocks"@, "STRIP_WHITESPACE_FROM_BLANK_LINES_IN_TEXT_BLOCKS"@)
    } else if i == 260 {
        ("ij_java_subclass_name_prefix"@, "SUBCLASS_NAME_PREFIX"@)
    } else if i == 261 {
        ("ij_java_subclass_name_suffix"@, "SUBCLASS_NAME_SUFFIX"@)
    } else if i == 262 {
        ("ij_java_switch_expressions_wrap"@, "SWITCH_EXPRESSIONS_WRAP"@)
    } else if i == 263 {
        ("ij_java_ternary_operation_signs_on_next_line"@, "TERNARY_OPERATION_SIGNS_ON_NEXT_LINE"@)
    } else if i == 264 {
        ("ij_java_ternary_operation_wrap"@, "TERNARY_OPERATION_WRAP"@)
    } else if i == 265 {
        ("ij_java_test_name_prefix"@, "TEST_NAME_PREFIX"@)
    } else if i == 266 {
        ("ij_java_test_name_suffix"@, "TEST_NAME_SUFFIX"@)
    } else if i == 267 {
        ("ij_java_throws_keyword_wrap"@, "THROWS_KEYWORD_WRAP"@)
    } else if i == 268 {
        ("ij_java_throws_list_wrap"@, "THROWS_LIST_WRAP"@)
    } else if i == 269 {
        ("ij_java_use_external_annotations"@, "USE_EXTERNAL_ANNOTATIONS"@)
    } else if i == 270 {
        ("ij_java_use_fq_class_names"@, "USE_FQ_CLASS_NAMES"@)
    } else if i == 271 {
        ("ij_java_use_single_class_imports"@, "USE_SINGLE_CLASS_IMPORTS"@)
    } else if i == 272 {
        ("ij_java_variable_annotation_wrap"@, "VARIABLE_ANNOTATION_WRAP"@)
    } else if i == 273 {
        ("ij_java_visibility"@, "VISIBILITY"@)
    } else if i == 274 {
        ("ij_java_while_brace_force"@, "WHILE_BRACE_FORCE"@)
    } else if i == 275 {
        ("ij_java_while_on_new_line"@, "WHILE_ON_NEW_LINE"@)
    } else if i == 276 {
        ("ij_java_wrap_comments"@, "WRAP_COMMENTS"@)
    } else if i == 277 {
        ("ij_java_wrap_first_method_in_call_chain"@, "WRAP_FIRST_METHOD_IN_CALL_CHAIN"@)
    } else if i == 278 {
        ("ij_java_wrap_long_lines"@, "WRAP_LONG_LINES"@)
    } else if i == 279 {
        ("ij_java_wrap_on_typing"@, "WRAP_ON_TYPING"@)
    } else if i == 280 {
        ("ij_java_wrap_semicolon_after_call_chain"@, "WRAP_SEMICOLON_AFTER_CALL_CHAIN"@)
    } else if i == 281 {
        ("ij_smart_tabs"@, "SMART_TABS"@)
    } else if i == 282 {
        ("ij_wrap_on_typing"@, "WRAP_WHEN_TYPING_REACHES_RIGHT_MARGIN"@)
    } else if i == 283 {
        ("indent_size"@, "INDENT_SIZE"@)
    } else if i == 284 {
        ("indent_style"@, "USE_TAB_CHARACTER"@)
    } else if i == 285 {
        ("insert_final_newline"@, "insert_final_newline"@)
    } else if i == 286 {
        ("max_line_length"@, "RIGHT_MARGIN"@)
    } else if i == 287 {
        ("tab_width"@, "TAB_SIZE"@)
    } else if i == 288 {
        ("trim_trailing_whitespace"@, "trim_trailing_whitespace"@)
    } else {
        (Seq::empty(), Seq::empty())
    }
}

/// Row `i` of the table: `(editorconfig key, setting name)`.
#[verifier::rlimit(100)]
pub fn key_at(i: usize) -> (r: (&'static str, &'static str))
    requires
        i < KEY_COUNT,
    ensures
        (r.0@, r.1@) == key_pair(i as int),
{
    if i == 0 {
        ("charset", "charset")
    } else if i == 1 {
        ("end_of_line", "LINE_SEPARATOR")
    } else if i == 2 {
        ("ij_continuation_indent_size", "CONTINUATION_INDENT_SIZE")
    } else if i == 3 {
        ("ij_formatter_off_tag", "FORMATTER_OFF_TAG")
    } else if i == 4 {
        ("ij_formatter_on_tag", "FORMATTER_ON_TAG")
    } else if i == 5 {
        ("ij_formatter_tags_accept_regexp", "FORMATTER_TAGS_ACCEPT_REGEXP")
    } else if i == 6 {
        ("ij_formatter_tags_enabled", "FORMATTER_TAGS_ENABLED")
    } else if i == 7 {
        ("ij_java_align_consecutive_assignments", "ALIGN_CONSECUTIVE_ASSIGNMENTS")
    } else if i == 8 {
        ("ij_java_align_consecutive_variable_declarations", "ALIGN_CONSECUTIVE_VARIABLE_DECLARATIONS")
    } else if i == 9 {
        ("ij_java_align_group_field_declarations", "ALIGN_GROUP_FIELD_DECLARATIONS")
    } else if i == 10 {
        ("ij_java_align_multiline_annotation_parameters", "ALIGN_MULTILINE_ANNOTATION_PARAMETERS")
    } else if i == 11 {
        ("ij_java_align_multiline_array_initializer_expression", "ALIGN_MULTILINE_ARRAY_INITIALIZER_EXPRESSION")
    } else if i == 12 {
        ("ij_java_align_multiline_assignment", "ALIGN_MULTILINE_ASSIGNMENT")
    } else if i == 13 {
        ("ij_java_align_multiline_binary_operation", "ALIGN_MULTILINE_BINARY_OPERATION")
    } else if i == 14 {
        ("ij_java_align_multiline_chained_methods", "ALIGN_MULTILINE_CHAINED_METHODS")
    } else if i == 15 {
        ("ij_java_align_multiline_deconstruction_list_components", "ALIGN_MULTILINE_DECONSTRUCTION_LIST_COMPONENTS")
    } else if i == 16 {
        ("ij_java_align_multiline_extends_list", "ALIGN_MULTILINE_EXTENDS_LIST")
    } else if i == 17 {
        ("ij_java_align_multiline_for", "ALIGN_MULTILINE_FOR")
    } else if i == 18 {
        ("ij_java_align_multiline_method_parentheses", "ALIGN_MULTILINE_METHOD_BRACKETS")
    } else if i == 19 {
        ("ij_java_align_multiline_parameters", "ALIGN_MULTILINE_PARAMETERS")
    } else if i == 20 {
        ("ij_java_align_multiline_parameters_in_calls", "ALIGN_MULTILINE_PARAMETERS_IN_CALLS")
    } else if i == 21 {
        ("ij_java_align_multiline_parenthesized_expression", "ALIGN_MULTILINE_PARENTHESIZED_EXPRESSION")
    } else if i == 22 {
        ("ij_java_align_multiline_records", "ALIGN_MULTILINE_RECORDS")
    } else if i == 23 {
        ("ij_java_align_multiline_resources", "ALIGN_MULTILINE_RESOURCES")
    } else if i == 24 {
        ("ij_java_align_multiline_ternary_operation", "ALIGN_MULTILINE_TERNARY_OPERATION")
    } else if i == 25 {
        ("ij_java_align_multiline_text_blocks", "ALIGN_MULTILINE_TEXT_BLOCKS")
    } else if i == 26 {
        ("ij_java_align_multiline_throws_list", "ALIGN_MULTILINE_THROWS_LIST")
    } else if i == 27 {
        ("ij_java_align_subsequent_simple_methods", "ALIGN_SUBSEQUENT_SIMPLE_METHODS")
    } else if i == 28 {
        ("ij_java_align_throws_keyword", "ALIGN_THROWS_KEYWORD")
    } else if i == 29 {
        ("ij_java_align_types_in_multi_catch", "ALIGN_TYPES_IN_MULTI_CATCH")
    } else if i == 30 {
        ("ij_java_annotation_new_line_in_record_component", "ANNOTATION_NEW_LINE_IN_RECORD_COMPONENT")
    } else if i == 31 {
        ("ij_java_annotation_parameter_wrap", "ANNOTATION_PARAMETER_WRAP")
    } else if i == 32 {
        ("ij_java_array_initializer_new_line_after_left_brace", "ARRAY_INITIALIZER_LBRACE_ON_NEXT_LINE")
    } else if i == 33 {
        ("ij_java_array_initializer_right_brace_on_new_line", "ARRAY_INITIALIZER_RBRACE_ON_NEXT_LINE")
    } else if i == 34 {
        ("ij_java_array_initializer_wrap", "ARRAY_INITIALIZER_WRAP")
    } else if i == 35 {
        ("ij_java_assert_statement_colon_on_next_line", "ASSERT_STATEMENT_COLON_ON_NEXT_LINE")
    } else if i == 36 {
        ("ij_java_assert_statement_wrap", "ASSERT_STATEMENT_WRAP")
    } else if i == 37 {
        ("ij_java_assignment_wrap", "ASSIGNMENT_WRAP")
    } else if i == 38 {
        ("ij_java_binary_operation_sign_on_next_line", "BINARY_OPERATION_SIGN_ON_NEXT_LINE")
    } else if i == 39 {
        ("ij_java_binary_operation_wrap", "BINARY_OPERATION_WRAP")
    } else if i == 40 {
        ("ij_java_blank_lines_after_anonymous_class_header", "BLANK_LINES_AFTER_ANONYMOUS_CLASS_HEADER")
    } else if i == 41 {
        ("ij_java_blank_lines_after_class_header", "BLANK_LINES_AFTER_CLASS_HEADER")
    } else if i == 42 {
        ("ij_java_blank_lines_after_imports", "BLANK_LINES_AFTER_IMPORTS")
    } else if i == 43 {
        ("ij_java_blank_lines_after_package", "BLANK_LINES_AFTER_PACKAGE")
    } else if i == 44 {
        ("ij_java_blank_lines_around_class", "BLANK_LINES_AROUND_CLASS")
    } else if i == 45 {
        ("ij_java_blank_lines_around_field", "BLANK_LINES_AROUND_FIELD")
    } else if i == 46 {
        ("ij_java_blank_lines_around_field_in_interface", "BLANK_LINES_AROUND_FIELD_IN_INTERFACE")
    } else if i == 47 {
        ("ij_java_blank_lines_around_field_with_annotations", "BLANK_LINES_AROUND_FIELD_WITH_ANNOTATIONS")
    } else if i == 48 {
        ("ij_java_blank_lines_around_initializer", "BLANK_LINES_AROUND_INITIALIZER")
    } else if i == 49 {
        ("ij_java_blank_lines_around_method", "BLANK_LINES_AROUND_METHOD")
    } else if i == 50 {
        ("ij_java_blank_lines_around_method_in_interface", "BLANK_LINES_AROUND_METHOD_IN_INTERFACE")
    } else if i == 51 {
        ("ij_java_blank_lines_before_class_end", "BLANK_LINES_BEFORE_CLASS_END")
    } else if i == 52 {
        ("ij_java_blank_lines_before_imports", "BLANK_LINES_BEFORE_IMPORTS")
    } else if i == 53 {
        ("ij_java_blank_lines_before_method_body", "BLANK_LINES_BEFORE_METHOD_BODY")
    } else if i == 54 {
        ("ij_java_blank_lines_before_package", "BLANK_LINES_BEFORE_PACKAGE")
    } else if i == 55 {
        ("ij_java_blank_lines_between_case_blocks", "BLANK_LINES_BETWEEN_CASE_BLOCKS")
    } else if i == 56 {
        ("ij_java_blank_lines_between_record_components", "BLANK_LINES_BETWEEN_RECORD_COMPONENTS")
    } else if i == 57 {
        ("ij_java_block_brace_style", "BRACE_STYLE")
    } else if i == 58 {
        ("ij_java_block_comment_add_space", "BLOCK_COMMENT_ADD_SPACE")
    } else if i == 59 {
        ("ij_java_block_comment_at_first_column", "BLOCK_COMMENT_AT_FIRST_COLUMN")
    } else if i == 60 {
        ("ij_java_call_parameters_new_line_after_left_paren", "CALL_PARAMETERS_LPAREN_ON_NEXT_LINE")
    } else if i == 61 {
        ("ij_java_call_parameters_right_paren_on_new_line", "CALL_PARAMETERS_RPAREN_ON_NEXT_LINE")
    } else if i == 62 {
        ("ij_java_call_parameters_wrap", "CALL_PARAMETERS_WRAP")
    } else if i == 63 {
        ("ij_java_case_statement_on_separate_line", "CASE_STATEMENT_ON_NEW_LINE")
    } else if i == 64 {
        ("ij_java_catch_on_new_line", "CATCH_ON_NEW_LINE")
    } else if i == 65 {
        ("ij_java_class_annotation_wrap", "CLASS_ANNOTATION_WRAP")
    } else if i == 66 {
        ("ij_java_class_brace_style", "CLASS_BRACE_STYLE")
    } else if i == 67 {
        ("ij_java_class_count_to_use_import_on_demand", "CLASS_COUNT_TO_USE_IMPORT_ON_DEMAND")
    } else if i == 68 {
        ("ij_java_class_names_in_javadoc", "CLASS_NAMES_IN_JAVADOC")
    } else if i == 69 {
        ("ij_java_deconstruction_list_wrap", "DECONSTRUCTION_LIST_WRAP")
    } else if i == 70 {
        ("ij_java_delete_unused_module_imports", "DELETE_UNUSED_MODULE_IMPORTS")
    } else if i == 71 {
        ("ij_java_do_not_indent_top_level_class_members", "DO_NOT_INDENT_TOP_LEVEL_CLASS_MEMBERS")
    } else if i == 72 {
        ("ij_java_do_not_wrap_after_single_annotation", "DO_NOT_WRAP_AFTER_SINGLE_ANNOTATION")
    } else if i == 73 {
        ("ij_java_do_not_wrap_after_single_annotation_in_parameter", "DO_NOT_WRAP_AFTER_SINGLE_ANNOTATION_IN_PARAMETER")
    } else if i == 74 {
        ("ij_java_do_while_brace_force", "DOWHILE_BRACE_FORCE")
    } else if i == 75 {
        ("ij_java_doc_add_blank_line_after_description", "JD_ADD_BLANK_AFTER_DESCRIPTION")
    } else if i == 76 {
        ("ij_java_doc_add_blank_line_after_param_comments", "JD_ADD_BLANK_AFTER_PARM_COMMENTS")
    } else if i == 77 {
        ("ij_java_doc_add_blank_line_after_return", "JD_ADD_BLANK_AFTER_RETURN")
    } else if i == 78 {
        ("ij_java_doc_add_p_tag_on_empty_lines", "JD_P_AT_EMPTY_LINES")
    } else if i == 79 {
        ("ij_java_doc_align_exception_comments", "JD_ALIGN_EXCEPTION_COMMENTS")
    } else if i == 80 {
        ("ij_java_doc_align_param_comments", "JD_ALIGN_PARAM_COMMENTS")
    } else if i == 81 {
        ("ij_java_doc_do_not_wrap_if_one_line", "JD_DO_NOT_WRAP_ONE_LINE_COMMENTS")
    } else if i == 82 {
        ("ij_java_doc_enable_formatting", "ENABLE_JAVADOC_FORMATTING")
    } else if i == 83 {
        ("ij_java_doc_enable_leading_asterisks", "JD_LEADING_ASTERISKS_ARE_ENABLED")
    } else if i == 84 {
        ("ij_java_doc_indent_on_continuation", "JD_INDENT_ON_CONTINUATION")
    } else if i == 85 {
        ("ij_java_doc_keep_empty_lines", "JD_KEEP_EMPTY_LINES")
    } else if i == 86 {
        ("ij_java_doc_keep_empty_parameter_tag", "JD_KEEP_EMPTY_PARAMETER")
    } else if i == 87 {
        ("ij_java_doc_keep_empty_return_tag", "JD_KEEP_EMPTY_RETURN")
    } else if i == 88 {
        ("ij_java_doc_keep_empty_throws_tag", "JD_KEEP_EMPTY_EXCEPTION")
    } else if i == 89 {
        ("ij_java_doc_keep_invalid_tags", "JD_KEEP_INVALID_TAGS")
    } else if i == 90 {
        ("ij_java_doc_param_description_on_new_line", "JD_PARAM_DESCRIPTION_ON_NEW_LINE")
    } else if i == 91 {
        ("ij_java_doc_preserve_line_breaks", "JD_PRESERVE_LINE_FEEDS")
    } else if i == 92 {
        ("ij_java_doc_use_throws_not_exception_tag", "JD_USE_THROWS_NOT_EXCEPTION")
    } else if i == 93 {
        ("ij_java_documentation_line_comment_preferred", "DOCUMENTATION_LINE_COMMENT_PREFERRED")
    } else if i == 94 {
        ("ij_java_else_on_new_line", "ELSE_ON_NEW_LINE")
    } else if i == 95 {
        ("ij_java_enum_constants_wrap", "ENUM_CONSTANTS_WRAP")
    } else if i == 96 {
        ("ij_java_enum_field_annotation_wrap", "ENUM_FIELD_ANNOTATION_WRAP")
    } else if i == 97 {
        ("ij_java_extends_keyword_wrap", "EXTENDS_KEYWORD_WRAP")
    } else if i == 98 {
        ("ij_java_extends_list_wrap", "EXTENDS_LIST_WRAP")
    } else if i == 99 {
        ("ij_java_field_annotation_wrap", "FIELD_ANNOTATION_WRAP")
    } else if i == 100 {
        ("ij_java_field_name_prefix", "FIELD_NAME_PREFIX")
    } else if i == 101 {
        ("ij_java_field_name_suffix", "FIELD_NAME_SUFFIX")
    } else if i == 102 {
        ("ij_java_finally_on_new_line", "FINALLY_ON_NEW_LINE")
    } else if i == 103 {
        ("ij_java_for_brace_force", "FOR_BRACE_FORCE")
    } else if i == 104 {
        ("ij_java_for_statement_new_line_after_left_paren", "FOR_STATEMENT_LPAREN_ON_NEXT_LINE")
    } else if i == 105 {
        ("ij_java_for_statement_right_paren_on_new_line", "FOR_STATEMENT_RPAREN_ON_NEXT_LINE")
    } else if i == 106 {
        ("ij_java_for_statement_wrap", "FOR_STATEMENT_WRAP")
    } else if i == 107 {
        ("ij_java_force_rearrange_mode", "FORCE_REARRANGE_MODE")
    } else if i == 108 {
        ("ij_java_generate_final_locals", "GENERATE_FINAL_LOCALS")
    } else if i == 109 {
        ("ij_java_generate_final_parameters", "GENERATE_FINAL_PARAMETERS")
    } else if i == 110 {
        ("ij_java_generate_use_type_annotation_before_type", "GENERATE_USE_TYPE_ANNOTATION_BEFORE_TYPE")
    } else if i == 111 {
        ("ij_java_if_brace_force", "IF_BRACE_FORCE")
    } else if i == 112 {
        ("ij_java_imports_layout", "IMPORT_LAYOUT_TABLE")
    } else if i == 113 {
        ("ij_java_indent_break_from_case", "INDENT_BREAK_FROM_CASE")
    } else if i == 114 {
        ("ij_java_indent_case_from_switch", "INDENT_CASE_FROM_SWITCH")
    } else if i == 115 {
        ("ij_java_insert_inner_class_imports", "INSERT_INNER_CLASS_IMPORTS")
    } else if i == 116 {
        ("ij_java_insert_override_annotation", "INSERT_OVERRIDE_ANNOTATION")
    } else if i == 117 {
        ("ij_java_keep_blank_lines_before_right_brace", "KEEP_BLANK_LINES_BEFORE_RBRACE")
    } else if i == 118 {
        ("ij_java_keep_blank_lines_between_package_declaration_and_header", "KEEP_BLANK_LINES_BETWEEN_PACKAGE_DECLARATION_AND_HEADER")
    } else if i == 119 {
        ("ij_java_keep_blank_lines_in_code", "KEEP_BLANK_LINES_IN_CODE")
    } else if i == 120 {
        ("ij_java_keep_blank_lines_in_declarations", "KEEP_BLANK_LINES_IN_DECLARATIONS")
    } else if i == 121 {
        ("ij_java_keep_builder_methods_indents", "KEEP_BUILDER_METHODS_INDENTS")
    } else if i == 122 {
        ("ij_java_keep_control_statement_in_one_line", "KEEP_CONTROL_STATEMENT_IN_ONE_LINE")
    } else if i == 123 {
        ("ij_java_keep_first_column_comment", "KEEP_FIRST_COLUMN_COMMENT")
    } else if i == 124 {
        ("ij_java_keep_indents_on_empty_lines", "KEEP_INDENTS_ON_EMPTY_LINES")
    } else if i == 125 {
        ("ij_java_keep_line_breaks", "KEEP_LINE_BREAKS")
    } else if i == 126 {
        ("ij_java_keep_multiple_expressions_in_one_line", "KEEP_MULTIPLE_EXPRESSIONS_IN_ONE_LINE")
    } else if i == 127 {
        ("ij_java_keep_simple_blocks_in_one_line", "KEEP_SIMPLE_BLOCKS_IN_ONE_LINE")
    } else if i == 128 {
        ("ij_java_keep_simple_classes_in_one_line", "KEEP_SIMPLE_CLASSES_IN_ONE_LINE")
    } else if i == 129 {
        ("ij_java_keep_simple_lambdas_in_one_line", "KEEP_SIMPLE_LAMBDAS_IN_ONE_LINE")
    } else if i == 130 {
        ("ij_java_keep_simple_methods_in_one_line", "KEEP_SIMPLE_METHODS_IN_ONE_LINE")
    } else if i == 131 {
        ("ij_java_lambda_brace_style", "LAMBDA_BRACE_STYLE")
    } else if i == 132 {
        ("ij_java_layout_on_demand_import_from_same_package_first", "LAYOUT_ON_DEMAND_IMPORT_FROM_SAME_PACKAGE_FIRST")
    } else if i == 133 {
        ("ij_java_layout_static_imports_separately", "LAYOUT_STATIC_IMPORTS_SEPARATELY")
    } else if i == 134 {
        ("ij_java_line_comment_add_space", "LINE_COMMENT_ADD_SPACE")
    } else if i == 135 {
        ("ij_java_line_comment_add_space_in_suppression", "LINE_COMMENT_ADD_SPACE_IN_SUPPRESSION")
    } else if i == 136 {
        ("ij_java_line_comment_add_space_on_reformat", "LINE_COMMENT_ADD_SPACE_ON_REFORMAT")
    } else if i == 137 {
        ("ij_java_line_comment_at_first_column", "LINE_COMMENT_AT_FIRST_COLUMN")
    } else if i == 138 {
        ("ij_java_local_variable_name_prefix", "LOCAL_VARIABLE_NAME_PREFIX")
    } else if i == 139 {
        ("ij_java_local_variable_name_suffix", "LOCAL_VARIABLE_NAME_SUFFIX")
    } else if i == 140 {
        ("ij_java_method_annotation_wrap", "METHOD_ANNOTATION_WRAP")
    } else if i == 141 {
        ("ij_java_method_brace_style", "METHOD_BRACE_STYLE")
    } else if i == 142 {
        ("ij_java_method_call_chain_wrap", "METHOD_CALL_CHAIN_WRAP")
    } else if i == 143 {
        ("ij_java_method_parameters_new_line_after_left_paren", "METHOD_PARAMETERS_LPAREN_ON_NEXT_LINE")
    } else if i == 144 {
        ("ij_java_method_parameters_right_paren_on_new_line", "METHOD_PARAMETERS_RPAREN_ON_NEXT_LINE")
    } else if i == 145 {
        ("ij_java_method_parameters_wrap", "METHOD_PARAMETERS_WRAP")
    } else if i == 146 {
        ("ij_java_modifier_list_wrap", "MODIFIER_LIST_WRAP")
    } else if i == 147 {
        ("ij_java_multi_catch_types_wrap", "MULTI_CATCH_TYPES_WRAP")
    } else if i == 148 {
        ("ij_java_names_count_to_use_import_on_demand", "NAMES_COUNT_TO_USE_IMPORT_ON_DEMAND")
    } else if i == 149 {
        ("ij_java_new_line_after_lparen_in_annotation", "NEW_LINE_AFTER_LPAREN_IN_ANNOTATION")
    } else if i == 150 {
        ("ij_java_new_line_after_lparen_in_deconstruction_pattern", "NEW_LINE_AFTER_LPAREN_IN_DECONSTRUCTION_PATTERN")
    } else if i == 151 {
        ("ij_java_new_line_after_lparen_in_record_header", "NEW_LINE_AFTER_LPAREN_IN_RECORD_HEADER")
    } else if i == 152 {
        ("ij_java_new_line_when_body_is_presented", "NEW_LINE_WHEN_BODY_IS_PRESENTED")
    } else if i == 153 {
        ("ij_java_packages_to_use_import_on_demand", "PACKAGES_TO_USE_IMPORT_ON_DEMAND")
    } else if i == 154 {
        ("ij_java_parameter_annotation_wrap", "PARAMETER_ANNOTATION_WRAP")
    } else if i == 155 {
        ("ij_java_parameter_name_prefix", "PARAMETER_NAME_PREFIX")
    } else if i == 156 {
        ("ij_java_parameter_name_suffix", "PARAMETER_NAME_SUFFIX")
    } else if i == 157 {
        ("ij_java_parentheses_expression_new_line_after_left_paren", "PARENTHESES_EXPRESSION_LPAREN_WRAP")
    } else if i == 158 {
        ("ij_java_parentheses_expression_right_paren_on_new_line", "PARENTHESES_EXPRESSION_RPAREN_WRAP")
    } else if i == 159 {
        ("ij_java_place_assignment_sign_on_next_line", "PLACE_ASSIGNMENT_SIGN_ON_NEXT_LINE")
    } else if i == 160 {
        ("ij_java_prefer_longer_names", "PREFER_LONGER_NAMES")
    } else if i == 161 {
        ("ij_java_prefer_parameters_wrap", "PREFER_PARAMETERS_WRAP")
    } else if i == 162 {
        ("ij_java_preserve_module_imports", "PRESERVE_MODULE_IMPORTS")
    } else if i == 163 {
        ("ij_java_record_components_wrap", "RECORD_COMPONENTS_WRAP")
    } else if i == 164 {
        ("ij_java_repeat_annotations", "REPEAT_ANNOTATIONS")
    } else if i == 165 {
        ("ij_java_repeat_synchronized", "REPEAT_SYNCHRONIZED")
    } else if i == 166 {
        ("ij_java_replace_cast", "REPLACE_CAST")
    } else if i == 167 {
        ("ij_java_replace_instanceof", "REPLACE_INSTANCEOF")
    } else if i == 168 {
        ("ij_java_replace_instanceof_and_cast", "REPLACE_INSTANCEOF_AND_CAST")
    } else if i == 169 {
        ("ij_java_replace_null_check", "REPLACE_NULL_CHECK")
    } else if i == 170 {
        ("ij_java_replace_sum_lambda_with_method_ref", "REPLACE_SUM")
    } else if i == 171 {
        ("ij_java_resource_list_new_line_after_left_paren", "RESOURCE_LIST_LPAREN_ON_NEXT_LINE")
    } else if i == 172 {
        ("ij_java_resource_list_right_paren_on_new_line", "RESOURCE_LIST_RPAREN_ON_NEXT_LINE")
    } else if i == 173 {
        ("ij_java_resource_list_wrap", "RESOURCE_LIST_WRAP")
    } else if i == 174 {
        ("ij_java_rparen_on_new_line_in_annotation", "RPAREN_ON_NEW_LINE_IN_ANNOTATION")
    } else if i == 175 {
        ("ij_java_rparen_on_new_line_in_deconstruction_pattern", "RPAREN_ON_NEW_LINE_IN_DECONSTRUCTION_PATTERN")
    } else if i == 176 {
        ("ij_java_rparen_on_new_line_in_record_header", "RPAREN_ON_NEW_LINE_IN_RECORD_HEADER")
    } else if i == 177 {
        ("ij_java_space_after_closing_angle_bracket_in_type_argument", "SPACE_AFTER_CLOSING_ANGLE_BRACKET_IN_TYPE_ARGUMENT")
    } else if i == 178 {
        ("ij_java_space_after_colon", "SPACE_AFTER_COLON")
    } else if i == 179 {
        ("ij_java_space_after_comma", "SPACE_AFTER_COMMA")
    } else if i == 180 {
        ("ij_java_space_after_comma_in_type_arguments", "SPACE_AFTER_COMMA_IN_TYPE_ARGUMENTS")
    } else if i == 181 {
        ("ij_java_space_after_for_semicolon", "SPACE_AFTER_SEMICOLON")
    } else if i == 182 {
        ("ij_java_space_after_quest", "SPACE_AFTER_QUEST")
    } else if i == 183 {
        ("ij_java_space_after_type_cast", "SPACE_AFTER_TYPE_CAST")
    } else if i == 184 {
        ("ij_java_space_before_annotation_array_initializer_left_brace", "SPACE_BEFORE_ANNOTATION_ARRAY_INITIALIZER_LBRACE")
    } else if i == 185 {
        ("ij_java_space_before_annotation_parameter_list", "SPACE_BEFORE_ANOTATION_PARAMETER_LIST")
    } else if i == 186 {
        ("ij_java_space_before_array_initializer_left_brace", "SPACE_BEFORE_ARRAY_INITIALIZER_LBRACE")
    } else if i == 187 {
        ("ij_java_space_before_catch_keyword", "SPACE_BEFORE_CATCH_KEYWORD")
    } else if i == 188 {
        ("ij_java_space_before_catch_left_brace", "SPACE_BEFORE_CATCH_LBRACE")
    } else if i == 189 {
        ("ij_java_space_before_catch_parentheses", "SPACE_BEFORE_CATCH_PARENTHESES")
    } else if i == 190 {
        ("ij_java_space_before_class_left_brace", "SPACE_BEFORE_CLASS_LBRACE")
    } else if i == 191 {
        ("ij_java_space_before_colon", "SPACE_BEFORE_COLON")
    } else if i == 192 {
        ("ij_java_space_before_colon_in_foreach", "SPACE_BEFORE_COLON_IN_FOREACH")
    } else if i == 193 {
        ("ij_java_space_before_comma", "SPACE_BEFORE_COMMA")
    } else if i == 194 {
        ("ij_java_space_before_deconstruction_list", "SPACE_BEFORE_DECONSTRUCTION_LIST")
    } else if i == 195 {
        ("ij_java_space_before_do_left_brace", "SPACE_BEFORE_DO_LBRACE")
    } else if i == 196 {
        ("ij_java_space_before_else_keyword", "SPACE_BEFORE_ELSE_KEYWORD")
    } else if i == 197 {
        ("ij_java_space_before_else_left_brace", "SPACE_BEFORE_ELSE_LBRACE")
    } else if i == 198 {
        ("ij_java_space_before_finally_keyword", "SPACE_BEFORE_FINALLY_KEYWORD")
    } else if i == 199 {
        ("ij_java_space_before_finally_left_brace", "SPACE_BEFORE_FINALLY_LBRACE")
    } else if i == 200 {
        ("ij_java_space_before_for_left_brace", "SPACE_BEFORE_FOR_LBRACE")
    } else if i == 201 {
        ("ij_java_space_before_for_parentheses", "SPACE_BEFORE_FOR_PARENTHESES")
    } else if i == 202 {
        ("ij_java_space_before_for_semicolon", "SPACE_BEFORE_SEMICOLON")
    } else if i == 203 {
        ("ij_java_space_before_if_left_brace", "SPACE_BEFORE_IF_LBRACE")
    } else if i == 204 {
        ("ij_java_space_before_if_parentheses", "SPACE_BEFORE_IF_PARENTHESES")
    } else if i == 205 {
        ("ij_java_space_before_method_call_parentheses", "SPACE_BEFORE_METHOD_CALL_PARENTHESES")
    } else if i == 206 {
        ("ij_java_space_before_method_left_brace", "SPACE_BEFORE_METHOD_LBRACE")
    } else if i == 207 {
        ("ij_java_space_before_method_parentheses", "SPACE_BEFORE_METHOD_PARENTHESES")
    } else if i == 208 {
        ("ij_java_space_before_opening_angle_bracket_in_type_parameter", "SPACE_BEFORE_OPENING_ANGLE_BRACKET_IN_TYPE_PARAMETER")
    } else if i == 209 {
        ("ij_java_space_before_quest", "SPACE_BEFORE_QUEST")
    } else if i == 210 {
        ("ij_java_space_before_switch_left_brace", "SPACE_BEFORE_SWITCH_LBRACE")
    } else if i == 211 {
        ("ij_java_space_before_switch_parentheses", "SPACE_BEFORE_SWITCH_PARENTHESES")
    } else if i == 212 {
        ("ij_java_space_before_synchronized_left_brace", "SPACE_BEFORE_SYNCHRONIZED_LBRACE")
    } else if i == 213 {
        ("ij_java_space_before_synchronized_parentheses", "SPACE_BEFORE_SYNCHRONIZED_PARENTHESES")
    } else if i == 214 {
        ("ij_java_space_before_try_left_brace", "SPACE_BEFORE_TRY_LBRACE")
    } else if i == 215 {
        ("ij_java_space_before_try_parentheses", "SPACE_BEFORE_TRY_PARENTHESES")
    } else if i == 216 {
        ("ij_java_space_before_type_parameter_list", "SPACE_BEFORE_TYPE_PARAMETER_LIST")
    } else if i == 217 {
        ("ij_java_space_before_while_keyword", "SPACE_BEFORE_WHILE_KEYWORD")
    } else if i == 218 {
        ("ij_java_space_before_while_left_brace", "SPACE_BEFORE_WHILE_LBRACE")
    } else if i == 219 {
        ("ij_java_space_before_while_parentheses", "SPACE_BEFORE_WHILE_PARENTHESES")
    } else if i == 220 {
        ("ij_java_space_inside_one_line_enum_braces", "SPACE_INSIDE_ONE_LINE_ENUM_BRACES")
    } else if i == 221 {
        ("ij_java_space_within_empty_array_initializer_braces", "SPACE_WITHIN_EMPTY_ARRAY_INITIALIZER_BRACES")
    } else if i == 222 {
        ("ij_java_space_within_empty_method_call_parentheses", "SPACE_WITHIN_EMPTY_METHOD_CALL_PARENTHESES")
    } else if i == 223 {
        ("ij_java_space_within_empty_method_parentheses", "SPACE_WITHIN_EMPTY_METHOD_PARENTHESES")
    } else if i == 224 {
        ("ij_java_spaces_around_additive_operators", "SPACE_AROUND_ADDITIVE_OPERATORS")
    } else if i == 225 {
        ("ij_java_spaces_around_annotation_eq", "SPACE_AROUND_ANNOTATION_EQ")
    } else if i == 226 {
        ("ij_java_spaces_around_assignment_operators", "SPACE_AROUND_ASSIGNMENT_OPERATORS")
    } else if i == 227 {
        ("ij_java_spaces_around_bitwise_operators", "SPACE_AROUND_BITWISE_OPERATORS")
    } else if i == 228 {
        ("ij_java_spaces_around_equality_operators", "SPACE_AROUND_EQUALITY_OPERATORS")
    } else if i == 229 {
        ("ij_java_spaces_around_lambda_arrow", "SPACE_AROUND_LAMBDA_ARROW")
    } else if i == 230 {
        ("ij_java_spaces_around_logical_operators", "SPACE_AROUND_LOGICAL_OPERATORS")
    } else if i == 231 {
        ("ij_java_spaces_around_method_ref_dbl_colon", "SPACE_AROUND_METHOD_REF_DBL_COLON")
    } else if i == 232 {
        ("ij_java_spaces_around_multiplicative_operators", "SPACE_AROUND_MULTIPLICATIVE_OPERATORS")
    } else if i == 233 {
        ("ij_java_spaces_around_relational_operators", "SPACE_AROUND_RELATIONAL_OPERATORS")
    } else if i == 234 {
        ("ij_java_spaces_around_shift_operators", "SPACE_AROUND_SHIFT_OPERATORS")
    } else if i == 235 {
        ("ij_java_spaces_around_type_bounds_in_type_parameters", "SPACE_AROUND_TYPE_BOUNDS_IN_TYPE_PARAMETERS")
    } else if i == 236 {
        ("ij_java_spaces_around_unary_operator", "SPACE_AROUND_UNARY_OPERATOR")
    } else if i == 237 {
        ("ij_java_spaces_inside_block_braces_when_body_is_present", "SPACES_INSIDE_BLOCK_BRACES_WHEN_BODY_IS_PRESENT")
    } else if i == 238 {
        ("ij_java_spaces_within_angle_brackets", "SPACES_WITHIN_ANGLE_BRACKETS")
    } else if i == 239 {
        ("ij_java_spaces_within_annotation_parentheses", "SPACE_WITHIN_ANNOTATION_PARENTHESES")
    } else if i == 240 {
        ("ij_java_spaces_within_array_initializer_braces", "SPACE_WITHIN_ARRAY_INITIALIZER_BRACES")
    } else if i == 241 {
        ("ij_java_spaces_within_braces", "SPACE_WITHIN_BRACES")
    } else if i == 242 {
        ("ij_java_spaces_within_brackets", "SPACE_WITHIN_BRACKETS")
    } else if i == 243 {
        ("ij_java_spaces_within_cast_parentheses", "SPACE_WITHIN_CAST_PARENTHESES")
    } else if i == 244 {
        ("ij_java_spaces_within_catch_parentheses", "SPACE_WITHIN_CATCH_PARENTHESES")
    } else if i == 245 {
        ("ij_java_spaces_within_deconstruction_list", "SPACE_WITHIN_DECONSTRUCTION_LIST")
    } else if i == 246 {
        ("ij_java_spaces_within_for_parentheses", "SPACE_WITHIN_FOR_PARENTHESES")
    } else if i == 247 {
        ("ij_java_spaces_within_if_parentheses", "SPACE_WITHIN_IF_PARENTHESES")
    } else if i == 248 {
        ("ij_java_spaces_within_method_call_parentheses", "SPACE_WITHIN_METHOD_CALL_PARENTHESES")
    } else if i == 249 {
        ("ij_java_spaces_within_method_parentheses", "SPACE_WITHIN_METHOD_PARENTHESES")
    } else if i == 250 {
        ("ij_java_spaces_within_parentheses", "SPACE_WITHIN_PARENTHESES")
    } else if i == 251 {
        ("ij_java_spaces_within_record_header", "SPACE_WITHIN_RECORD_HEADER")
    } else if i == 252 {
        ("ij_java_spaces_within_switch_parentheses", "SPACE_WITHIN_SWITCH_PARENTHESES")
    } else if i == 253 {
        ("ij_java_spaces_within_synchronized_parentheses", "SPACE_WITHIN_SYNCHRONIZED_PARENTHESES")
    } else if i == 254 {
        ("ij_java_spaces_within_try_parentheses", "SPACE_WITHIN_TRY_PARENTHESES")
    } else if i == 255 {
        ("ij_java_spaces_within_while_parentheses", "SPACE_WITHIN_WHILE_PARENTHESES")
    } else if i == 256 {
        ("ij_java_special_else_if_treatment", "SPECIAL_ELSE_IF_TREATMENT")
    } else if i == 257 {
        ("ij_java_static_field_name_prefix", "STATIC_FIELD_NAME_PREFIX")
    } else if i == 258 {
        ("ij_java_static_field_name_suffix", "STATIC_FIELD_NAME_SUFFIX")
    } else if i == 259 {
        ("ij_java_strip_whitespace_from_blank_lines_in_text_blocks", "STRIP_WHITESPACE_FROM_BLANK_LINES_IN_TEXT_BLOCKS")
    } else if i == 260 {
        ("ij_java_subclass_name_prefix", "SUBCLASS_NAME_PREFIX")
    } else if i == 261 {
        ("ij_java_subclass_name_suffix", "SUBCLASS_NAME_SUFFIX")
    } else if i == 262 {
        ("ij_java_switch_expressions_wrap", "SWITCH_EXPRESSIONS_WRAP")
    } else if i == 263 {
        ("ij_java_ternary_operation_signs_on_next_line", "TERNARY_OPERATION_SIGNS_ON_NEXT_LINE")
    } else if i == 264 {
        ("ij_java_ternary_operation_wrap", "TERNARY_OPERATION_WRAP")
    } else if i == 265 {
        ("ij_java_test_name_prefix", "TEST_NAME_PREFIX")
    } else if i == 266 {
        ("ij_java_test_name_suffix", "TEST_NAME_SUFFIX")
    } else if i == 267 {
        ("ij_java_throws_keyword_wrap", "THROWS_KEYWORD_WRAP")
    } else if i == 268 {
        ("ij_java_throws_list_wrap", "THROWS_LIST_WRAP")
    } else if i == 269 {
        ("ij_java_use_external_annotations", "USE_EXTERNAL_ANNOTATIONS")
    } else if i == 270 {
        ("ij_java_use_fq_class_names", "USE_FQ_CLASS_NAMES")
    } else if i == 271 {
        ("ij_java_use_single_class_imports", "USE_SINGLE_CLASS_IMPORTS")
    } else if i == 272 {
        ("ij_java_variable_annotation_wrap", "VARIABLE_ANNOTATION_WRAP")
    } else if i == 273 {
        ("ij_java_visibility", "VISIBILITY")
    } else if i == 274 {
        ("ij_java_while_brace_force", "WHILE_BRACE_FORCE")
    } else if i == 275 {
        ("ij_java_while_on_new_line", "WHILE_ON_NEW_LINE")
    } else if i == 276 {
        ("ij_java_wrap_comments", "WRAP_COMMENTS")
    } else if i == 277 {
        ("ij_java_wrap_first_method_in_call_chain", "WRAP_FIRST_METHOD_IN_CALL_CHAIN")
    } else if i == 278 {
        ("ij_java_wrap_long_lines", "WRAP_LONG_LINES")
    } else if i == 279 {
        ("ij_java_wrap_on_typing", "WRAP_ON_TYPING")
    } else if i == 280 {
        ("ij_java_wrap_semicolon_after_call_chain", "WRAP_SEMICOLON_AFTER_CALL_CHAIN")
    } else if i == 281 {
        ("ij_smart_tabs", "SMART_TABS")
    } else if i == 282 {
        ("ij_wrap_on_typing", "WRAP_WHEN_TYPING_REACHES_RIGHT_MARGIN")
    } else if i == 283 {
        ("indent_size", "INDENT_SIZE")
    } else if i == 284 {
        ("indent_style", "USE_TAB_CHARACTER")
    } else if i == 285 {
        ("insert_final_newline", "insert_final_newline")
    } else if i == 286 {
        ("max_line_length", "RIGHT_MARGIN")
    } else if i == 287 {
        ("tab_width", "TAB_SIZE")
    } else {
        ("trim_trailing_whitespace", "trim_trailing_whitespace")
    }
}

} // verus!
