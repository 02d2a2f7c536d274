use jals_fmt::config::{BraceStyle, Config, ForceBraces, ImportOrder, IndentStyle, KeepOnOneLine, LineEnding, ParenPositions, WrapPolicy};
use jals_fmt::import::intellij::{IntellijConfig, IntellijEditorConfig, IntellijXmlScheme, PackageEntry, PackageEntryTable};
use jals_fmt::import::kv::KvMap;

/// Every IntelliJ setting: its XML name (or editorconfig key when it has no XML form), its value
/// kind, and its `.editorconfig` key (`-` when the setting is XML-only).
const INVENTORY: &[(&str, &str, &str)] = &[
    ("ARRAY_ELEMENT_INDENT", "int", "-"),
    ("CALL_PARAMETER_INDENT", "int", "-"),
    ("CHAINED_CALL_INDENT", "int", "-"),
    ("CONTINUATION_INDENT_SIZE", "int", "ij_continuation_indent_size"),
    ("DECLARATION_PARAMETER_INDENT", "int", "-"),
    ("GENERIC_TYPE_PARAMETER_INDENT", "int", "-"),
    ("INDENT_SIZE", "int", "indent_size"),
    ("KEEP_INDENTS_ON_EMPTY_LINES", "bool", "ij_java_keep_indents_on_empty_lines"),
    ("LABEL_INDENT_ABSOLUTE", "bool", "-"),
    ("LABEL_INDENT_SIZE", "int", "-"),
    ("SMART_TABS", "bool", "ij_smart_tabs"),
    ("TAB_SIZE", "int", "tab_width"),
    ("USE_RELATIVE_INDENTS", "bool", "-"),
    ("USE_TAB_CHARACTER", "bool", "indent_style"),
    ("SPACES_INSIDE_BLOCK_BRACES_WHEN_BODY_IS_PRESENT", "bool", "ij_java_spaces_inside_block_braces_when_body_is_present"),
    ("SPACES_WITHIN_ANGLE_BRACKETS", "bool", "ij_java_spaces_within_angle_brackets"),
    ("SPACE_AFTER_CLOSING_ANGLE_BRACKET_IN_TYPE_ARGUMENT", "bool", "ij_java_space_after_closing_angle_bracket_in_type_argument"),
    ("SPACE_AFTER_COLON", "bool", "ij_java_space_after_colon"),
    ("SPACE_AFTER_COMMA", "bool", "ij_java_space_after_comma"),
    ("SPACE_AFTER_COMMA_IN_TYPE_ARGUMENTS", "bool", "ij_java_space_after_comma_in_type_arguments"),
    ("SPACE_AFTER_QUEST", "bool", "ij_java_space_after_quest"),
    ("SPACE_AFTER_SEMICOLON", "bool", "ij_java_space_after_for_semicolon"),
    ("SPACE_AFTER_TYPE_CAST", "bool", "ij_java_space_after_type_cast"),
    ("SPACE_AROUND_ADDITIVE_OPERATORS", "bool", "ij_java_spaces_around_additive_operators"),
    ("SPACE_AROUND_ANNOTATION_EQ", "bool", "ij_java_spaces_around_annotation_eq"),
    ("SPACE_AROUND_ASSIGNMENT_OPERATORS", "bool", "ij_java_spaces_around_assignment_operators"),
    ("SPACE_AROUND_BITWISE_OPERATORS", "bool", "ij_java_spaces_around_bitwise_operators"),
    ("SPACE_AROUND_EQUALITY_OPERATORS", "bool", "ij_java_spaces_around_equality_operators"),
    ("SPACE_AROUND_LAMBDA_ARROW", "bool", "ij_java_spaces_around_lambda_arrow"),
    ("SPACE_AROUND_LOGICAL_OPERATORS", "bool", "ij_java_spaces_around_logical_operators"),
    ("SPACE_AROUND_METHOD_REF_DBL_COLON", "bool", "ij_java_spaces_around_method_ref_dbl_colon"),
    ("SPACE_AROUND_MULTIPLICATIVE_OPERATORS", "bool", "ij_java_spaces_around_multiplicative_operators"),
    ("SPACE_AROUND_RELATIONAL_OPERATORS", "bool", "ij_java_spaces_around_relational_operators"),
    ("SPACE_AROUND_SHIFT_OPERATORS", "bool", "ij_java_spaces_around_shift_operators"),
    ("SPACE_AROUND_TYPE_BOUNDS_IN_TYPE_PARAMETERS", "bool", "ij_java_spaces_around_type_bounds_in_type_parameters"),
    ("SPACE_AROUND_UNARY_OPERATOR", "bool", "ij_java_spaces_around_unary_operator"),
    ("SPACE_BEFORE_ANNOTATION_ARRAY_INITIALIZER_LBRACE", "bool", "ij_java_space_before_annotation_array_initializer_left_brace"),
    ("SPACE_BEFORE_ANOTATION_PARAMETER_LIST", "bool", "ij_java_space_before_annotation_parameter_list"),
    ("SPACE_BEFORE_ARRAY_INITIALIZER_LBRACE", "bool", "ij_java_space_before_array_initializer_left_brace"),
    ("SPACE_BEFORE_CATCH_KEYWORD", "bool", "ij_java_space_before_catch_keyword"),
    ("SPACE_BEFORE_CATCH_LBRACE", "bool", "ij_java_space_before_catch_left_brace"),
    ("SPACE_BEFORE_CATCH_PARENTHESES", "bool", "ij_java_space_before_catch_parentheses"),
    ("SPACE_BEFORE_CLASS_LBRACE", "bool", "ij_java_space_before_class_left_brace"),
    ("SPACE_BEFORE_COLON", "bool", "ij_java_space_before_colon"),
    ("SPACE_BEFORE_COLON_IN_FOREACH", "bool", "ij_java_space_before_colon_in_foreach"),
    ("SPACE_BEFORE_COMMA", "bool", "ij_java_space_before_comma"),
    ("SPACE_BEFORE_DECONSTRUCTION_LIST", "bool", "ij_java_space_before_deconstruction_list"),
    ("SPACE_BEFORE_DO_LBRACE", "bool", "ij_java_space_before_do_left_brace"),
    ("SPACE_BEFORE_ELSE_KEYWORD", "bool", "ij_java_space_before_else_keyword"),
    ("SPACE_BEFORE_ELSE_LBRACE", "bool", "ij_java_space_before_else_left_brace"),
    ("SPACE_BEFORE_FINALLY_KEYWORD", "bool", "ij_java_space_before_finally_keyword"),
    ("SPACE_BEFORE_FINALLY_LBRACE", "bool", "ij_java_space_before_finally_left_brace"),
    ("SPACE_BEFORE_FOR_LBRACE", "bool", "ij_java_space_before_for_left_brace"),
    ("SPACE_BEFORE_FOR_PARENTHESES", "bool", "ij_java_space_before_for_parentheses"),
    ("SPACE_BEFORE_IF_LBRACE", "bool", "ij_java_space_before_if_left_brace"),
    ("SPACE_BEFORE_IF_PARENTHESES", "bool", "ij_java_space_before_if_parentheses"),
    ("SPACE_BEFORE_METHOD_CALL_PARENTHESES", "bool", "ij_java_space_before_method_call_parentheses"),
    ("SPACE_BEFORE_METHOD_LBRACE", "bool", "ij_java_space_before_method_left_brace"),
    ("SPACE_BEFORE_METHOD_PARENTHESES", "bool", "ij_java_space_before_method_parentheses"),
    ("SPACE_BEFORE_OPENING_ANGLE_BRACKET_IN_TYPE_PARAMETER", "bool", "ij_java_space_before_opening_angle_bracket_in_type_parameter"),
    ("SPACE_BEFORE_QUEST", "bool", "ij_java_space_before_quest"),
    ("SPACE_BEFORE_SEMICOLON", "bool", "ij_java_space_before_for_semicolon"),
    ("SPACE_BEFORE_SWITCH_LBRACE", "bool", "ij_java_space_before_switch_left_brace"),
    ("SPACE_BEFORE_SWITCH_PARENTHESES", "bool", "ij_java_space_before_switch_parentheses"),
    ("SPACE_BEFORE_SYNCHRONIZED_LBRACE", "bool", "ij_java_space_before_synchronized_left_brace"),
    ("SPACE_BEFORE_SYNCHRONIZED_PARENTHESES", "bool", "ij_java_space_before_synchronized_parentheses"),
    ("SPACE_BEFORE_TRY_LBRACE", "bool", "ij_java_space_before_try_left_brace"),
    ("SPACE_BEFORE_TRY_PARENTHESES", "bool", "ij_java_space_before_try_parentheses"),
    ("SPACE_BEFORE_TYPE_PARAMETER_LIST", "bool", "ij_java_space_before_type_parameter_list"),
    ("SPACE_BEFORE_WHILE_KEYWORD", "bool", "ij_java_space_before_while_keyword"),
    ("SPACE_BEFORE_WHILE_LBRACE", "bool", "ij_java_space_before_while_left_brace"),
    ("SPACE_BEFORE_WHILE_PARENTHESES", "bool", "ij_java_space_before_while_parentheses"),
    ("SPACE_INSIDE_ONE_LINE_ENUM_BRACES", "bool", "ij_java_space_inside_one_line_enum_braces"),
    ("SPACE_WITHIN_ANNOTATION_PARENTHESES", "bool", "ij_java_spaces_within_annotation_parentheses"),
    ("SPACE_WITHIN_ARRAY_INITIALIZER_BRACES", "bool", "ij_java_spaces_within_array_initializer_braces"),
    ("SPACE_WITHIN_BRACES", "bool", "ij_java_spaces_within_braces"),
    ("SPACE_WITHIN_BRACKETS", "bool", "ij_java_spaces_within_brackets"),
    ("SPACE_WITHIN_CAST_PARENTHESES", "bool", "ij_java_spaces_within_cast_parentheses"),
    ("SPACE_WITHIN_CATCH_PARENTHESES", "bool", "ij_java_spaces_within_catch_parentheses"),
    ("SPACE_WITHIN_DECONSTRUCTION_LIST", "bool", "ij_java_spaces_within_deconstruction_list"),
    ("SPACE_WITHIN_EMPTY_ARRAY_INITIALIZER_BRACES", "bool", "ij_java_space_within_empty_array_initializer_braces"),
    ("SPACE_WITHIN_EMPTY_METHOD_CALL_PARENTHESES", "bool", "ij_java_space_within_empty_method_call_parentheses"),
    ("SPACE_WITHIN_EMPTY_METHOD_PARENTHESES", "bool", "ij_java_space_within_empty_method_parentheses"),
    ("SPACE_WITHIN_FOR_PARENTHESES", "bool", "ij_java_spaces_within_for_parentheses"),
    ("SPACE_WITHIN_IF_PARENTHESES", "bool", "ij_java_spaces_within_if_parentheses"),
    ("SPACE_WITHIN_METHOD_CALL_PARENTHESES", "bool", "ij_java_spaces_within_method_call_parentheses"),
    ("SPACE_WITHIN_METHOD_PARENTHESES", "bool", "ij_java_spaces_within_method_parentheses"),
    ("SPACE_WITHIN_PARENTHESES", "bool", "ij_java_spaces_within_parentheses"),
    ("SPACE_WITHIN_RECORD_HEADER", "bool", "ij_java_spaces_within_record_header"),
    ("SPACE_WITHIN_SWITCH_PARENTHESES", "bool", "ij_java_spaces_within_switch_parentheses"),
    ("SPACE_WITHIN_SYNCHRONIZED_PARENTHESES", "bool", "ij_java_spaces_within_synchronized_parentheses"),
    ("SPACE_WITHIN_TRY_PARENTHESES", "bool", "ij_java_spaces_within_try_parentheses"),
    ("SPACE_WITHIN_WHILE_PARENTHESES", "bool", "ij_java_spaces_within_while_parentheses"),
    ("BLANK_LINES_AFTER_ANONYMOUS_CLASS_HEADER", "int", "ij_java_blank_lines_after_anonymous_class_header"),
    ("BLANK_LINES_AFTER_CLASS_HEADER", "int", "ij_java_blank_lines_after_class_header"),
    ("BLANK_LINES_AFTER_IMPORTS", "int", "ij_java_blank_lines_after_imports"),
    ("BLANK_LINES_AFTER_PACKAGE", "int", "ij_java_blank_lines_after_package"),
    ("BLANK_LINES_AROUND_CLASS", "int", "ij_java_blank_lines_around_class"),
    ("BLANK_LINES_AROUND_FIELD", "int", "ij_java_blank_lines_around_field"),
    ("BLANK_LINES_AROUND_FIELD_IN_INTERFACE", "int", "ij_java_blank_lines_around_field_in_interface"),
    ("BLANK_LINES_AROUND_FIELD_WITH_ANNOTATIONS", "int", "ij_java_blank_lines_around_field_with_annotations"),
    ("BLANK_LINES_AROUND_INITIALIZER", "int", "ij_java_blank_lines_around_initializer"),
    ("BLANK_LINES_AROUND_METHOD", "int", "ij_java_blank_lines_around_method"),
    ("BLANK_LINES_AROUND_METHOD_IN_INTERFACE", "int", "ij_java_blank_lines_around_method_in_interface"),
    ("BLANK_LINES_BEFORE_CLASS_END", "int", "ij_java_blank_lines_before_class_end"),
    ("BLANK_LINES_BEFORE_IMPORTS", "int", "ij_java_blank_lines_before_imports"),
    ("BLANK_LINES_BEFORE_METHOD_BODY", "int", "ij_java_blank_lines_before_method_body"),
    ("BLANK_LINES_BEFORE_PACKAGE", "int", "ij_java_blank_lines_before_package"),
    ("BLANK_LINES_BETWEEN_CASE_BLOCKS", "int", "ij_java_blank_lines_between_case_blocks"),
    ("BLANK_LINES_BETWEEN_RECORD_COMPONENTS", "int", "ij_java_blank_lines_between_record_components"),
    ("KEEP_BLANK_LINES_BEFORE_RBRACE", "int", "ij_java_keep_blank_lines_before_right_brace"),
    ("KEEP_BLANK_LINES_BETWEEN_PACKAGE_DECLARATION_AND_HEADER", "int", "ij_java_keep_blank_lines_between_package_declaration_and_header"),
    ("KEEP_BLANK_LINES_IN_CODE", "int", "ij_java_keep_blank_lines_in_code"),
    ("KEEP_BLANK_LINES_IN_DECLARATIONS", "int", "ij_java_keep_blank_lines_in_declarations"),
    ("ALIGN_CONSECUTIVE_ASSIGNMENTS", "bool", "ij_java_align_consecutive_assignments"),
    ("ALIGN_CONSECUTIVE_VARIABLE_DECLARATIONS", "bool", "ij_java_align_consecutive_variable_declarations"),
    ("ALIGN_GROUP_FIELD_DECLARATIONS", "bool", "ij_java_align_group_field_declarations"),
    ("ALIGN_MULTILINE_ANNOTATION_PARAMETERS", "bool", "ij_java_align_multiline_annotation_parameters"),
    ("ALIGN_MULTILINE_ARRAY_INITIALIZER_EXPRESSION", "bool", "ij_java_align_multiline_array_initializer_expression"),
    ("ALIGN_MULTILINE_ASSIGNMENT", "bool", "ij_java_align_multiline_assignment"),
    ("ALIGN_MULTILINE_BINARY_OPERATION", "bool", "ij_java_align_multiline_binary_operation"),
    ("ALIGN_MULTILINE_CHAINED_METHODS", "bool", "ij_java_align_multiline_chained_methods"),
    ("ALIGN_MULTILINE_DECONSTRUCTION_LIST_COMPONENTS", "bool", "ij_java_align_multiline_deconstruction_list_components"),
    ("ALIGN_MULTILINE_EXTENDS_LIST", "bool", "ij_java_align_multiline_extends_list"),
    ("ALIGN_MULTILINE_FOR", "bool", "ij_java_align_multiline_for"),
    ("ALIGN_MULTILINE_METHOD_BRACKETS", "bool", "ij_java_align_multiline_method_parentheses"),
    ("ALIGN_MULTILINE_PARAMETERS", "bool", "ij_java_align_multiline_parameters"),
    ("ALIGN_MULTILINE_PARAMETERS_IN_CALLS", "bool", "ij_java_align_multiline_parameters_in_calls"),
    ("ALIGN_MULTILINE_PARENTHESIZED_EXPRESSION", "bool", "ij_java_align_multiline_parenthesized_expression"),
    ("ALIGN_MULTILINE_RECORDS", "bool", "ij_java_align_multiline_records"),
    ("ALIGN_MULTILINE_RESOURCES", "bool", "ij_java_align_multiline_resources"),
    ("ALIGN_MULTILINE_TERNARY_OPERATION", "bool", "ij_java_align_multiline_ternary_operation"),
    ("ALIGN_MULTILINE_TEXT_BLOCKS", "bool", "ij_java_align_multiline_text_blocks"),
    ("ALIGN_MULTILINE_THROWS_LIST", "bool", "ij_java_align_multiline_throws_list"),
    ("ALIGN_SUBSEQUENT_SIMPLE_METHODS", "bool", "ij_java_align_subsequent_simple_methods"),
    ("ALIGN_THROWS_KEYWORD", "bool", "ij_java_align_throws_keyword"),
    ("ALIGN_TYPES_IN_MULTI_CATCH", "bool", "ij_java_align_types_in_multi_catch"),
    ("ANNOTATION_NEW_LINE_IN_RECORD_COMPONENT", "bool", "ij_java_annotation_new_line_in_record_component"),
    ("ANNOTATION_PARAMETER_WRAP", "wrap", "ij_java_annotation_parameter_wrap"),
    ("ARRAY_INITIALIZER_LBRACE_ON_NEXT_LINE", "bool", "ij_java_array_initializer_new_line_after_left_brace"),
    ("ARRAY_INITIALIZER_RBRACE_ON_NEXT_LINE", "bool", "ij_java_array_initializer_right_brace_on_new_line"),
    ("ARRAY_INITIALIZER_WRAP", "wrap", "ij_java_array_initializer_wrap"),
    ("ASSERT_STATEMENT_COLON_ON_NEXT_LINE", "bool", "ij_java_assert_statement_colon_on_next_line"),
    ("ASSERT_STATEMENT_WRAP", "wrap", "ij_java_assert_statement_wrap"),
    ("ASSIGNMENT_WRAP", "wrap", "ij_java_assignment_wrap"),
    ("BINARY_OPERATION_SIGN_ON_NEXT_LINE", "bool", "ij_java_binary_operation_sign_on_next_line"),
    ("BINARY_OPERATION_WRAP", "wrap", "ij_java_binary_operation_wrap"),
    ("BRACE_STYLE", "brace", "ij_java_block_brace_style"),
    ("CALL_PARAMETERS_LPAREN_ON_NEXT_LINE", "bool", "ij_java_call_parameters_new_line_after_left_paren"),
    ("CALL_PARAMETERS_RPAREN_ON_NEXT_LINE", "bool", "ij_java_call_parameters_right_paren_on_new_line"),
    ("CALL_PARAMETERS_WRAP", "wrap", "ij_java_call_parameters_wrap"),
    ("CASE_STATEMENT_ON_NEW_LINE", "bool", "ij_java_case_statement_on_separate_line"),
    ("CATCH_ON_NEW_LINE", "bool", "ij_java_catch_on_new_line"),
    ("CLASS_ANNOTATION_WRAP", "wrap", "ij_java_class_annotation_wrap"),
    ("CLASS_BRACE_STYLE", "brace", "ij_java_class_brace_style"),
    ("DECONSTRUCTION_LIST_WRAP", "wrap", "ij_java_deconstruction_list_wrap"),
    ("DOWHILE_BRACE_FORCE", "force-braces", "ij_java_do_while_brace_force"),
    ("DO_NOT_INDENT_TOP_LEVEL_CLASS_MEMBERS", "bool", "ij_java_do_not_indent_top_level_class_members"),
    ("DO_NOT_WRAP_AFTER_SINGLE_ANNOTATION", "bool", "ij_java_do_not_wrap_after_single_annotation"),
    ("DO_NOT_WRAP_AFTER_SINGLE_ANNOTATION_IN_PARAMETER", "bool", "ij_java_do_not_wrap_after_single_annotation_in_parameter"),
    ("ELSE_ON_NEW_LINE", "bool", "ij_java_else_on_new_line"),
    ("ENUM_CONSTANTS_WRAP", "wrap", "ij_java_enum_constants_wrap"),
    ("ENUM_FIELD_ANNOTATION_WRAP", "wrap", "ij_java_enum_field_annotation_wrap"),
    ("EXTENDS_KEYWORD_WRAP", "wrap", "ij_java_extends_keyword_wrap"),
    ("EXTENDS_LIST_WRAP", "wrap", "ij_java_extends_list_wrap"),
    ("FIELD_ANNOTATION_WRAP", "wrap", "ij_java_field_annotation_wrap"),
    ("FINALLY_ON_NEW_LINE", "bool", "ij_java_finally_on_new_line"),
    ("FORCE_REARRANGE_MODE", "int", "ij_java_force_rearrange_mode"),
    ("FOR_BRACE_FORCE", "force-braces", "ij_java_for_brace_force"),
    ("FOR_STATEMENT_LPAREN_ON_NEXT_LINE", "bool", "ij_java_for_statement_new_line_after_left_paren"),
    ("FOR_STATEMENT_RPAREN_ON_NEXT_LINE", "bool", "ij_java_for_statement_right_paren_on_new_line"),
    ("FOR_STATEMENT_WRAP", "wrap", "ij_java_for_statement_wrap"),
    ("IF_BRACE_FORCE", "force-braces", "ij_java_if_brace_force"),
    ("INDENT_BREAK_FROM_CASE", "bool", "ij_java_indent_break_from_case"),
    ("INDENT_CASE_FROM_SWITCH", "bool", "ij_java_indent_case_from_switch"),
    ("KEEP_BUILDER_METHODS_INDENTS", "bool", "ij_java_keep_builder_methods_indents"),
    ("KEEP_CONTROL_STATEMENT_IN_ONE_LINE", "bool", "ij_java_keep_control_statement_in_one_line"),
    ("KEEP_FIRST_COLUMN_COMMENT", "bool", "ij_java_keep_first_column_comment"),
    ("KEEP_LINE_BREAKS", "bool", "ij_java_keep_line_breaks"),
    ("KEEP_MULTIPLE_EXPRESSIONS_IN_ONE_LINE", "bool", "ij_java_keep_multiple_expressions_in_one_line"),
    ("KEEP_SIMPLE_BLOCKS_IN_ONE_LINE", "bool", "ij_java_keep_simple_blocks_in_one_line"),
    ("KEEP_SIMPLE_CLASSES_IN_ONE_LINE", "bool", "ij_java_keep_simple_classes_in_one_line"),
    ("KEEP_SIMPLE_LAMBDAS_IN_ONE_LINE", "bool", "ij_java_keep_simple_lambdas_in_one_line"),
    ("KEEP_SIMPLE_METHODS_IN_ONE_LINE", "bool", "ij_java_keep_simple_methods_in_one_line"),
    ("LAMBDA_BRACE_STYLE", "brace", "ij_java_lambda_brace_style"),
    ("METHOD_ANNOTATION_WRAP", "wrap", "ij_java_method_annotation_wrap"),
    ("METHOD_BRACE_STYLE", "brace", "ij_java_method_brace_style"),
    ("METHOD_CALL_CHAIN_WRAP", "wrap", "ij_java_method_call_chain_wrap"),
    ("METHOD_PARAMETERS_LPAREN_ON_NEXT_LINE", "bool", "ij_java_method_parameters_new_line_after_left_paren"),
    ("METHOD_PARAMETERS_RPAREN_ON_NEXT_LINE", "bool", "ij_java_method_parameters_right_paren_on_new_line"),
    ("METHOD_PARAMETERS_WRAP", "wrap", "ij_java_method_parameters_wrap"),
    ("MODIFIER_LIST_WRAP", "bool", "ij_java_modifier_list_wrap"),
    ("MULTI_CATCH_TYPES_WRAP", "wrap", "ij_java_multi_catch_types_wrap"),
    ("NEW_LINE_AFTER_LPAREN_IN_ANNOTATION", "bool", "ij_java_new_line_after_lparen_in_annotation"),
    ("NEW_LINE_AFTER_LPAREN_IN_DECONSTRUCTION_PATTERN", "bool", "ij_java_new_line_after_lparen_in_deconstruction_pattern"),
    ("NEW_LINE_AFTER_LPAREN_IN_RECORD_HEADER", "bool", "ij_java_new_line_after_lparen_in_record_header"),
    ("NEW_LINE_WHEN_BODY_IS_PRESENTED", "bool", "ij_java_new_line_when_body_is_presented"),
    ("PARAMETER_ANNOTATION_WRAP", "wrap", "ij_java_parameter_annotation_wrap"),
    ("PARENTHESES_EXPRESSION_LPAREN_WRAP", "bool", "ij_java_parentheses_expression_new_line_after_left_paren"),
    ("PARENTHESES_EXPRESSION_RPAREN_WRAP", "bool", "ij_java_parentheses_expression_right_paren_on_new_line"),
    ("PLACE_ASSIGNMENT_SIGN_ON_NEXT_LINE", "bool", "ij_java_place_assignment_sign_on_next_line"),
    ("PREFER_PARAMETERS_WRAP", "bool", "ij_java_prefer_parameters_wrap"),
    ("RECORD_COMPONENTS_WRAP", "wrap", "ij_java_record_components_wrap"),
    ("RESOURCE_LIST_LPAREN_ON_NEXT_LINE", "bool", "ij_java_resource_list_new_line_after_left_paren"),
    ("RESOURCE_LIST_RPAREN_ON_NEXT_LINE", "bool", "ij_java_resource_list_right_paren_on_new_line"),
    ("RESOURCE_LIST_WRAP", "wrap", "ij_java_resource_list_wrap"),
    ("RPAREN_ON_NEW_LINE_IN_ANNOTATION", "bool", "ij_java_rparen_on_new_line_in_annotation"),
    ("RPAREN_ON_NEW_LINE_IN_DECONSTRUCTION_PATTERN", "bool", "ij_java_rparen_on_new_line_in_deconstruction_pattern"),
    ("RPAREN_ON_NEW_LINE_IN_RECORD_HEADER", "bool", "ij_java_rparen_on_new_line_in_record_header"),
    ("SPECIAL_ELSE_IF_TREATMENT", "bool", "ij_java_special_else_if_treatment"),
    ("SWITCH_EXPRESSIONS_WRAP", "wrap", "ij_java_switch_expressions_wrap"),
    ("TERNARY_OPERATION_SIGNS_ON_NEXT_LINE", "bool", "ij_java_ternary_operation_signs_on_next_line"),
    ("TERNARY_OPERATION_WRAP", "wrap", "ij_java_ternary_operation_wrap"),
    ("THROWS_KEYWORD_WRAP", "wrap", "ij_java_throws_keyword_wrap"),
    ("THROWS_LIST_WRAP", "wrap", "ij_java_throws_list_wrap"),
    ("VARIABLE_ANNOTATION_WRAP", "wrap", "ij_java_variable_annotation_wrap"),
    ("WHILE_BRACE_FORCE", "force-braces", "ij_java_while_brace_force"),
    ("WHILE_ON_NEW_LINE", "bool", "ij_java_while_on_new_line"),
    ("WRAP_COMMENTS", "bool", "ij_java_wrap_comments"),
    ("WRAP_FIRST_METHOD_IN_CALL_CHAIN", "bool", "ij_java_wrap_first_method_in_call_chain"),
    ("WRAP_LONG_LINES", "bool", "ij_java_wrap_long_lines"),
    ("WRAP_ON_TYPING", "int", "ij_java_wrap_on_typing"),
    ("WRAP_SEMICOLON_AFTER_CALL_CHAIN", "bool", "ij_java_wrap_semicolon_after_call_chain"),
    ("BLOCK_COMMENT_ADD_SPACE", "bool", "ij_java_block_comment_add_space"),
    ("BLOCK_COMMENT_AT_FIRST_COLUMN", "bool", "ij_java_block_comment_at_first_column"),
    ("DOCUMENTATION_LINE_COMMENT_PREFERRED", "bool", "ij_java_documentation_line_comment_preferred"),
    ("LINE_COMMENT_ADD_SPACE", "bool", "ij_java_line_comment_add_space"),
    ("LINE_COMMENT_ADD_SPACE_IN_SUPPRESSION", "bool", "ij_java_line_comment_add_space_in_suppression"),
    ("LINE_COMMENT_ADD_SPACE_ON_REFORMAT", "bool", "ij_java_line_comment_add_space_on_reformat"),
    ("LINE_COMMENT_AT_FIRST_COLUMN", "bool", "ij_java_line_comment_at_first_column"),
    ("RIGHT_MARGIN", "int", "max_line_length"),
    ("STRIP_WHITESPACE_FROM_BLANK_LINES_IN_TEXT_BLOCKS", "bool", "ij_java_strip_whitespace_from_blank_lines_in_text_blocks"),
    ("CLASS_COUNT_TO_USE_IMPORT_ON_DEMAND", "int", "ij_java_class_count_to_use_import_on_demand"),
    ("DELETE_UNUSED_MODULE_IMPORTS", "bool", "ij_java_delete_unused_module_imports"),
    ("IMPORT_LAYOUT_TABLE", "package-table", "ij_java_imports_layout"),
    ("INSERT_INNER_CLASS_IMPORTS", "bool", "ij_java_insert_inner_class_imports"),
    ("LAYOUT_ON_DEMAND_IMPORT_FROM_SAME_PACKAGE_FIRST", "bool", "ij_java_layout_on_demand_import_from_same_package_first"),
    ("LAYOUT_STATIC_IMPORTS_SEPARATELY", "bool", "ij_java_layout_static_imports_separately"),
    ("NAMES_COUNT_TO_USE_IMPORT_ON_DEMAND", "int", "ij_java_names_count_to_use_import_on_demand"),
    ("PACKAGES_TO_USE_IMPORT_ON_DEMAND", "package-table", "ij_java_packages_to_use_import_on_demand"),
    ("PRESERVE_MODULE_IMPORTS", "bool", "ij_java_preserve_module_imports"),
    ("USE_FQ_CLASS_NAMES", "bool", "ij_java_use_fq_class_names"),
    ("USE_SINGLE_CLASS_IMPORTS", "bool", "ij_java_use_single_class_imports"),
    ("CLASS_NAMES_IN_JAVADOC", "int", "ij_java_class_names_in_javadoc"),
    ("ENABLE_JAVADOC_FORMATTING", "bool", "ij_java_doc_enable_formatting"),
    ("JD_ADD_BLANK_AFTER_DESCRIPTION", "bool", "ij_java_doc_add_blank_line_after_description"),
    ("JD_ADD_BLANK_AFTER_PARM_COMMENTS", "bool", "ij_java_doc_add_blank_line_after_param_comments"),
    ("JD_ADD_BLANK_AFTER_RETURN", "bool", "ij_java_doc_add_blank_line_after_return"),
    ("JD_ALIGN_EXCEPTION_COMMENTS", "bool", "ij_java_doc_align_exception_comments"),
    ("JD_ALIGN_PARAM_COMMENTS", "bool", "ij_java_doc_align_param_comments"),
    ("JD_DO_NOT_WRAP_ONE_LINE_COMMENTS", "bool", "ij_java_doc_do_not_wrap_if_one_line"),
    ("JD_INDENT_ON_CONTINUATION", "bool", "ij_java_doc_indent_on_continuation"),
    ("JD_KEEP_EMPTY_EXCEPTION", "bool", "ij_java_doc_keep_empty_throws_tag"),
    ("JD_KEEP_EMPTY_LINES", "bool", "ij_java_doc_keep_empty_lines"),
    ("JD_KEEP_EMPTY_PARAMETER", "bool", "ij_java_doc_keep_empty_parameter_tag"),
    ("JD_KEEP_EMPTY_RETURN", "bool", "ij_java_doc_keep_empty_return_tag"),
    ("JD_KEEP_INVALID_TAGS", "bool", "ij_java_doc_keep_invalid_tags"),
    ("JD_LEADING_ASTERISKS_ARE_ENABLED", "bool", "ij_java_doc_enable_leading_asterisks"),
    ("JD_PARAM_DESCRIPTION_ON_NEW_LINE", "bool", "ij_java_doc_param_description_on_new_line"),
    ("JD_PRESERVE_LINE_FEEDS", "bool", "ij_java_doc_preserve_line_breaks"),
    ("JD_P_AT_EMPTY_LINES", "bool", "ij_java_doc_add_p_tag_on_empty_lines"),
    ("JD_USE_THROWS_NOT_EXCEPTION", "bool", "ij_java_doc_use_throws_not_exception_tag"),
    ("FIELD_NAME_PREFIX", "string", "ij_java_field_name_prefix"),
    ("FIELD_NAME_SUFFIX", "string", "ij_java_field_name_suffix"),
    ("LOCAL_VARIABLE_NAME_PREFIX", "string", "ij_java_local_variable_name_prefix"),
    ("LOCAL_VARIABLE_NAME_SUFFIX", "string", "ij_java_local_variable_name_suffix"),
    ("PARAMETER_NAME_PREFIX", "string", "ij_java_parameter_name_prefix"),
    ("PARAMETER_NAME_SUFFIX", "string", "ij_java_parameter_name_suffix"),
    ("PREFER_LONGER_NAMES", "bool", "ij_java_prefer_longer_names"),
    ("STATIC_FIELD_NAME_PREFIX", "string", "ij_java_static_field_name_prefix"),
    ("STATIC_FIELD_NAME_SUFFIX", "string", "ij_java_static_field_name_suffix"),
    ("SUBCLASS_NAME_PREFIX", "string", "ij_java_subclass_name_prefix"),
    ("SUBCLASS_NAME_SUFFIX", "string", "ij_java_subclass_name_suffix"),
    ("TEST_NAME_PREFIX", "string", "ij_java_test_name_prefix"),
    ("TEST_NAME_SUFFIX", "string", "ij_java_test_name_suffix"),
    ("VISIBILITY", "string", "ij_java_visibility"),
    ("GENERATE_FINAL_LOCALS", "bool", "ij_java_generate_final_locals"),
    ("GENERATE_FINAL_PARAMETERS", "bool", "ij_java_generate_final_parameters"),
    ("GENERATE_USE_TYPE_ANNOTATION_BEFORE_TYPE", "bool", "ij_java_generate_use_type_annotation_before_type"),
    ("INSERT_OVERRIDE_ANNOTATION", "bool", "ij_java_insert_override_annotation"),
    ("REPEAT_ANNOTATIONS", "value-list", "ij_java_repeat_annotations"),
    ("REPEAT_SYNCHRONIZED", "bool", "ij_java_repeat_synchronized"),
    ("REPLACE_CAST", "bool", "ij_java_replace_cast"),
    ("REPLACE_INSTANCEOF", "bool", "ij_java_replace_instanceof"),
    ("REPLACE_INSTANCEOF_AND_CAST", "bool", "ij_java_replace_instanceof_and_cast"),
    ("REPLACE_NULL_CHECK", "bool", "ij_java_replace_null_check"),
    ("REPLACE_SUM", "bool", "ij_java_replace_sum_lambda_with_method_ref"),
    ("USE_EXTERNAL_ANNOTATIONS", "bool", "ij_java_use_external_annotations"),
    ("LINE_SEPARATOR", "string", "end_of_line"),
    ("FORMATTER_TAGS_ENABLED", "bool", "ij_formatter_tags_enabled"),
    ("FORMATTER_OFF_TAG", "string", "ij_formatter_off_tag"),
    ("FORMATTER_ON_TAG", "string", "ij_formatter_on_tag"),
    ("FORMATTER_TAGS_ACCEPT_REGEXP", "bool", "ij_formatter_tags_accept_regexp"),
    ("WRAP_WHEN_TYPING_REACHES_RIGHT_MARGIN", "bool", "ij_wrap_on_typing"),
    ("insert_final_newline", "bool", "insert_final_newline"),
    ("trim_trailing_whitespace", "bool", "trim_trailing_whitespace"),
    ("charset", "string", "charset"),
];

/// A parseable, non-default value for a setting of `kind`.
fn probe(kind: &str) -> &'static str {
    match kind {
        "bool" => "true",
        "int" => "7",
        "string" => "x",
        "wrap" => "normal",
        "brace" => "next_line",
        "force-braces" => "always",
        "package-table" => "java.**",
        "value-list" => "org.junit.Test",
        other => panic!("inventory row has an unknown value kind `{other}`"),
    }
}

/// Parse a scheme given as `(XML option name, value)` pairs.
fn scheme(options: &[(&str, &str)]) -> IntellijConfig {
    let mut pairs = KvMap::new();
    for (name, value) in options {
        pairs.insert(name, value);
    }
    IntellijConfig::from_pairs(&pairs).expect("scheme should parse")
}

#[test]
fn every_inventoried_setting_is_modeled() {
    let baseline = IntellijConfig::default();
    let mut missing = Vec::new();
    for (setting, kind, _) in INVENTORY {
        let mut pairs = KvMap::new();
        pairs.insert(setting, probe(kind));
        let parsed = IntellijConfig::from_pairs(&pairs).expect("single setting should parse");
        if parsed == baseline {
            missing.push(*setting);
        }
    }
    assert!(missing.is_empty(), "{} IntelliJ setting(s) are not captured by the model: {missing:?}", missing.len());
}

#[test]
fn every_editorconfig_key_resolves_to_its_setting() {
    let mut unresolved = Vec::new();
    for (setting, _, key) in INVENTORY {
        if *key != "-" && IntellijConfig::setting_name(key) != Some(*setting) {
            unresolved.push(*key);
        }
    }
    assert!(unresolved.is_empty(), "editorconfig key(s) missing from the generated table: {unresolved:?}");
}

#[test]
fn tests_the_inventory_is_the_documented_size() {
    assert_eq!(INVENTORY.len(), 297, "14 indent + 182 common + 92 java + 6 general + 3 editorconfig");
    assert_eq!(INVENTORY.iter().filter(|r| r.2 == "-").count(), 8);
}

#[test]
fn editorconfig_and_xml_spellings_agree() {
    let from_editorconfig = IntellijEditorConfig::parse(
        "root = true\n\
         [*.java]\n\
         indent_style = space\n\
         indent_size = 2\n\
         ij_continuation_indent_size = 4\n\
         max_line_length = 120\n\
         ij_java_class_brace_style = next_line\n\
         ij_java_method_parameters_wrap = on_every_item\n\
         ij_java_if_brace_force = always\n",
    )
    .expect("editorconfig should parse");
    // The same settings in the scheme XML's raw-integer spelling.
    let from_scheme = scheme(&[
        ("USE_TAB_CHARACTER", "false"),
        ("INDENT_SIZE", "2"),
        ("CONTINUATION_INDENT_SIZE", "4"),
        ("RIGHT_MARGIN", "120"),
        ("CLASS_BRACE_STYLE", "2"),
        ("METHOD_PARAMETERS_WRAP", "4"),
        ("IF_BRACE_FORCE", "3"),
    ]);
    assert_eq!(from_editorconfig.to_config(), from_scheme.to_config());
    let config = from_scheme.to_config();
    assert_eq!(config.layout.indent_style, IndentStyle::Space);
    assert_eq!(config.layout.indent_width, 2);
    assert_eq!(config.layout.continuation_indent, Some(4));
    assert_eq!(config.layout.max_width, 120);
    assert_eq!(config.braces.type_declaration, BraceStyle::NextLine);
    assert_eq!(config.wrapping.method_parameters, WrapPolicy::IfLongPerItem, "`on_every_item` / `4` is Chop Down If Long");
    assert_eq!(config.braces.force_if, ForceBraces::Always);
}

#[test]
fn an_inherit_sentinel_is_not_a_width() {
    let config = scheme(&[("INDENT_SIZE", "-1"), ("TAB_SIZE", "0"), ("CONTINUATION_INDENT_SIZE", "-1")]).to_config();
    let baseline = Config::default();
    assert_eq!(config.layout.indent_width, baseline.layout.indent_width);
    assert_eq!(config.layout.tab_width, baseline.layout.tab_width);
    assert_eq!(config.layout.continuation_indent, baseline.layout.continuation_indent);
}

#[test]
fn the_three_integer_tables_are_not_interchangeable() {
    let config = scheme(&[("CALL_PARAMETERS_WRAP", "2"), ("CLASS_BRACE_STYLE", "2"), ("IF_BRACE_FORCE", "1")]).to_config();
    assert_eq!(config.wrapping.call_arguments, WrapPolicy::AlwaysPerItem);
    assert_eq!(config.braces.type_declaration, BraceStyle::NextLine);
    assert_eq!(config.braces.force_if, ForceBraces::IfMultiline);
}

#[test]
fn the_counter_intuitive_wrap_tokens_land_correctly() {
    let config = scheme(&[
        ("CALL_PARAMETERS_WRAP", "split_into_lines"),
        ("METHOD_PARAMETERS_WRAP", "on_every_item"),
        ("BINARY_OPERATION_WRAP", "normal"),
        ("TERNARY_OPERATION_WRAP", "off"),
    ])
    .to_config();
    assert_eq!(config.wrapping.call_arguments, WrapPolicy::AlwaysPerItem);
    assert_eq!(config.wrapping.method_parameters, WrapPolicy::IfLongPerItem);
    assert_eq!(config.wrapping.binary_operation, WrapPolicy::IfLong);
    assert_eq!(config.wrapping.ternary, WrapPolicy::Never);
}

#[test]
fn whitesmiths_and_gnu_stay_distinct() {
    let config = scheme(&[("CLASS_BRACE_STYLE", "whitesmiths"), ("METHOD_BRACE_STYLE", "gnu"), ("BRACE_STYLE", "next_line_if_wrapped")]).to_config();
    assert_eq!(config.braces.type_declaration, BraceStyle::NextLineShifted);
    assert_eq!(config.braces.method_declaration, BraceStyle::NextLineShiftedBraces);
    assert_eq!(config.braces.block, BraceStyle::NextLineOnWrap);
}

#[test]
fn keep_simple_booleans_become_the_preserve_policy() {
    let config = scheme(&[("KEEP_SIMPLE_METHODS_IN_ONE_LINE", "true"), ("KEEP_SIMPLE_CLASSES_IN_ONE_LINE", "false")]).to_config();
    assert_eq!(config.braces.keep_method_body_on_one_line, KeepOnOneLine::Preserve);
    assert_eq!(config.braces.keep_type_body_on_one_line, KeepOnOneLine::Never);
}

#[test]
fn the_import_layout_table_becomes_jals_groups() {
    let native = IntellijEditorConfig::parse("[*.java]\nij_java_imports_layout = $*, |, java.**, javax.**, |, *\n").expect("editorconfig should parse");
    let config = native.to_config();
    assert_eq!(config.imports.order, ImportOrder::Group);
    assert_eq!(config.imports.groups, ["static", "java.", "javax.", "*"]);
}

#[test]
fn paren_booleans_fold_onto_the_delimiter_vocabulary() {
    let config = scheme(&[
        ("METHOD_PARAMETERS_LPAREN_ON_NEXT_LINE", "true"),
        ("METHOD_PARAMETERS_RPAREN_ON_NEXT_LINE", "false"),
        ("CALL_PARAMETERS_LPAREN_ON_NEXT_LINE", "false"),
        ("CALL_PARAMETERS_RPAREN_ON_NEXT_LINE", "false"),
    ])
    .to_config();
    assert_eq!(config.wrapping.paren_method_declaration, ParenPositions::SeparateLines);
    assert_eq!(config.wrapping.paren_method_invocation, ParenPositions::CommonLines);
}

#[test]
fn keep_line_breaks_inverts_into_join_wrapped_lines() {
    assert!(!scheme(&[("KEEP_LINE_BREAKS", "true")]).to_config().wrapping.join_wrapped_lines);
    assert!(scheme(&[("KEEP_LINE_BREAKS", "false")]).to_config().wrapping.join_wrapped_lines);
}

#[test]
fn naming_and_codegen_settings_are_modeled_but_not_projected() {
    let native = scheme(&[
        ("FIELD_NAME_PREFIX", "m_"),
        ("VISIBILITY", "private"),
        ("INSERT_OVERRIDE_ANNOTATION", "false"),
        ("CLASS_COUNT_TO_USE_IMPORT_ON_DEMAND", "99"),
    ]);
    assert_eq!(native.naming.field_name_prefix.as_deref(), Some("m_"));
    assert_eq!(native.naming.visibility.as_deref(), Some("private"));
    assert_eq!(native.codegen.insert_override_annotation, Some(false));
    assert_eq!(native.imports.class_count_to_use_import_on_demand, Some(99));
    assert_eq!(native.to_config(), Config::default());
}

#[test]
fn an_unknown_editorconfig_key_is_dropped() {
    let config = IntellijEditorConfig::parse(
        "[*.java]\n\
         ij_kotlin_allow_trailing_comma = true\n\
         ij_java_from_the_future = 42\n\
         indent_size = 2\n",
    )
    .expect("editorconfig should parse");
    assert_eq!(config.indent.indent_size, Some(2));
}

#[test]
fn a_negative_right_margin_does_not_become_a_zero_width() {
    let config = scheme(&[("RIGHT_MARGIN", "-1")]).to_config();
    assert_eq!(config.layout.max_width, Config::default().layout.max_width);
}

#[test]
fn the_right_margin_also_sets_the_comment_width() {
    let config = scheme(&[("RIGHT_MARGIN", "90")]).to_config();
    assert_eq!(config.layout.max_width, 90);
    assert_eq!(config.comments.width, 90);
}

#[test]
fn the_line_separator_and_smart_tabs_project() {
    let config = scheme(&[("LINE_SEPARATOR", "\r\n"), ("USE_TAB_CHARACTER", "true"), ("SMART_TABS", "true")]).to_config();
    assert_eq!(config.layout.line_ending, LineEnding::Crlf);
    assert_eq!(config.layout.indent_style, IndentStyle::Mixed);
    let config = scheme(&[("LINE_SEPARATOR", "\r"), ("USE_TAB_CHARACTER", "true")]).to_config();
    assert_eq!(config.layout.line_ending, LineEnding::Lf);
    assert_eq!(config.layout.indent_style, IndentStyle::Tab);
}

#[test]
fn the_package_table_mini_list_parses_every_marker() {
    let table = PackageEntryTable::parse(&"%*, $com.acme.*, |, java.**, , org..*".chars().collect::<Vec<_>>());
    assert_eq!(
        table.0,
        vec![
            PackageEntry::Package { name: String::new(), with_subpackages: false, is_static: false, is_module: true },
            PackageEntry::Package { name: "com.acme".to_owned(), with_subpackages: false, is_static: true, is_module: false },
            PackageEntry::BlankLine,
            PackageEntry::Package { name: "java".to_owned(), with_subpackages: true, is_static: false, is_module: false },
            PackageEntry::Package { name: "org".to_owned(), with_subpackages: false, is_static: false, is_module: false },
        ]
    );
}

#[test]
fn the_scheme_xml_reads_the_package_entry_table_and_skips_foreign_languages() {
    let xml = r#"<component name="ProjectCodeStyleConfiguration">
  <code_scheme name="Project" version="173">
    <option name="RIGHT_MARGIN" value="120" />
    <JavaCodeStyleSettings>
      <option name="IMPORT_LAYOUT_TABLE">
        <value>
          <package name="" withSubpackages="true" static="true" />
          <emptyLine />
          <package name="java" withSubpackages="true" static="false" />
          <emptyLine />
          <package name="" withSubpackages="true" static="false" />
        </value>
      </option>
    </JavaCodeStyleSettings>
    <KotlinCodeStyleSettings>
      <option name="RIGHT_MARGIN" value="200" />
    </KotlinCodeStyleSettings>
    <codeStyleSettings language="XML">
      <option name="CLASS_BRACE_STYLE" value="2" />
    </codeStyleSettings>
    <codeStyleSettings language="JAVA">
      <option name="CLASS_BRACE_STYLE" value="1" />
      <indentOptions>
        <option name="INDENT_SIZE" value="2" />
        <option name="CONTINUATION_INDENT_SIZE" value="4" />
      </indentOptions>
    </codeStyleSettings>
  </code_scheme>
</component>"#;
    let config = IntellijXmlScheme::parse(xml).expect("scheme should parse").to_config();
    assert_eq!(config.layout.max_width, 120);
    assert_eq!(config.braces.type_declaration, BraceStyle::SameLine);
    assert_eq!(config.layout.indent_width, 2);
    assert_eq!(config.layout.continuation_indent, Some(4));
    assert_eq!(config.imports.order, ImportOrder::Group);
    assert_eq!(config.imports.groups, ["static", "java.", "*"]);
}

#[test]
fn the_module_row_is_carried_but_not_projected() {
    let xml = r#"<code_scheme name="Project">
  <JavaCodeStyleSettings>
    <option name="IMPORT_LAYOUT_TABLE">
      <value>
        <package name="" withSubpackages="true" static="false" module="true" />
        <package name="java" withSubpackages="true" static="false" />
        <emptyLine />
        <package name="" withSubpackages="true" static="false" />
      </value>
    </option>
  </JavaCodeStyleSettings>
</code_scheme>"#;
    let native = IntellijXmlScheme::parse(xml).expect("scheme should parse");
    let PackageEntryTable(entries) = native.imports.import_layout_table.as_ref().expect("the table should be read");
    assert!(
        matches!(entries.first(), Some(PackageEntry::Package { is_module: true, name, .. }) if name.is_empty()),
        "the module row must survive into the native model: {entries:?}"
    );
    let config = native.to_config();
    assert_eq!(config.imports.groups, ["java.", "*"], "the module row must not become a second catch-all");
}

#[test]
fn a_malformed_scheme_is_an_xml_error() {
    let err = IntellijXmlScheme::parse("<code_scheme><option name=").expect_err("malformed");
    assert!(matches!(err, jals_fmt::import::ImportError::Xml(_)), "{err:?}");
}

#[test]
fn the_universal_section_cascades_into_the_java_one() {
    let config = IntellijEditorConfig::parse(
        "root = true\n\
         [*]\n\
         end_of_line = crlf\n\
         insert_final_newline = false\n\
         trim_trailing_whitespace = false\n\
         indent_size = 8\n\
         [*.java]\n\
         indent_size = 2\n",
    )
    .expect("editorconfig should parse")
    .to_config();
    assert_eq!(config.layout.line_ending, LineEnding::Crlf);
    assert!(!config.layout.insert_final_newline);
    assert!(!config.layout.trim_trailing_whitespace);
    // A key set in both sections resolves to the nearer, more specific one.
    assert_eq!(config.layout.indent_width, 2);
}

#[test]
fn the_setting_name_table_answers_exactly() {
    assert_eq!(IntellijConfig::setting_name("indent_style"), Some("USE_TAB_CHARACTER"));
    assert_eq!(IntellijConfig::setting_name("max_line_length"), Some("RIGHT_MARGIN"));
    assert_eq!(IntellijConfig::setting_name("ij_java_from_the_future"), None);
    assert_eq!(IntellijConfig::setting_name(""), None);
}
