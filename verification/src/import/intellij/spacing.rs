//! IntelliJ — the `SPACE_*` / `SPACES_*` settings.
//!
//! Note the editorconfig spelling rewrite `PropertyNameUtil` applies here and nowhere else:
//! a `SPACE_WITHIN*` field becomes `spaces_within*` and `SPACE_AROUND*` becomes `spaces_around*`.

use vstd::prelude::*;

use crate::import::kv::KvMap;
use crate::import::serde_kv::{Kv, lookup_bool};

verus! {

/// The spacing settings of a Java code style.
#[derive(Debug, Clone, Copy, Default, PartialEq, Eq)]
pub struct IntellijSpacing {
    /// `SPACES_INSIDE_BLOCK_BRACES_WHEN_BODY_IS_PRESENT` in `<JavaCodeStyleSettings>`; `ij_java_spaces_inside_block_braces_when_body_is_present` in `.editorconfig`.
    pub spaces_inside_block_braces_when_body_is_present: Option<bool>,
    /// `SPACES_WITHIN_ANGLE_BRACKETS` in `<JavaCodeStyleSettings>`; `ij_java_spaces_within_angle_brackets` in `.editorconfig`.
    pub spaces_within_angle_brackets: Option<bool>,
    /// `SPACE_AFTER_CLOSING_ANGLE_BRACKET_IN_TYPE_ARGUMENT` in `<JavaCodeStyleSettings>`; `ij_java_space_after_closing_angle_bracket_in_type_argument` in `.editorconfig`.
    pub space_after_closing_angle_bracket_in_type_argument: Option<bool>,
    /// `SPACE_AFTER_COLON` in `<codeStyleSettings language="JAVA">`; `ij_java_space_after_colon` in `.editorconfig`.
    pub space_after_colon: Option<bool>,
    /// `SPACE_AFTER_COMMA` in `<codeStyleSettings language="JAVA">`; `ij_java_space_after_comma` in `.editorconfig`.
    pub space_after_comma: Option<bool>,
    /// `SPACE_AFTER_COMMA_IN_TYPE_ARGUMENTS` in `<codeStyleSettings language="JAVA">`; `ij_java_space_after_comma_in_type_arguments` in `.editorconfig`.
    pub space_after_comma_in_type_arguments: Option<bool>,
    /// `SPACE_AFTER_QUEST` in `<codeStyleSettings language="JAVA">`; `ij_java_space_after_quest` in `.editorconfig`.
    pub space_after_quest: Option<bool>,
    /// `SPACE_AFTER_SEMICOLON` in `<codeStyleSettings language="JAVA">`; `ij_java_space_after_for_semicolon` in `.editorconfig`.
    pub space_after_semicolon: Option<bool>,
    /// `SPACE_AFTER_TYPE_CAST` in `<codeStyleSettings language="JAVA">`; `ij_java_space_after_type_cast` in `.editorconfig`.
    pub space_after_type_cast: Option<bool>,
    /// `SPACE_AROUND_ADDITIVE_OPERATORS` in `<codeStyleSettings language="JAVA">`; `ij_java_spaces_around_additive_operators` in `.editorconfig`.
    pub space_around_additive_operators: Option<bool>,
    /// `SPACE_AROUND_ANNOTATION_EQ` in `<JavaCodeStyleSettings>`; `ij_java_spaces_around_annotation_eq` in `.editorconfig`.
    pub space_around_annotation_eq: Option<bool>,
    /// `SPACE_AROUND_ASSIGNMENT_OPERATORS` in `<codeStyleSettings language="JAVA">`; `ij_java_spaces_around_assignment_operators` in `.editorconfig`.
    pub space_around_assignment_operators: Option<bool>,
    /// `SPACE_AROUND_BITWISE_OPERATORS` in `<codeStyleSettings language="JAVA">`; `ij_java_spaces_around_bitwise_operators` in `.editorconfig`.
    pub space_around_bitwise_operators: Option<bool>,
    /// `SPACE_AROUND_EQUALITY_OPERATORS` in `<codeStyleSettings language="JAVA">`; `ij_java_spaces_around_equality_operators` in `.editorconfig`.
    pub space_around_equality_operators: Option<bool>,
    /// `SPACE_AROUND_LAMBDA_ARROW` in `<codeStyleSettings language="JAVA">`; `ij_java_spaces_around_lambda_arrow` in `.editorconfig`.
    pub space_around_lambda_arrow: Option<bool>,
    /// `SPACE_AROUND_LOGICAL_OPERATORS` in `<codeStyleSettings language="JAVA">`; `ij_java_spaces_around_logical_operators` in `.editorconfig`.
    pub space_around_logical_operators: Option<bool>,
    /// `SPACE_AROUND_METHOD_REF_DBL_COLON` in `<codeStyleSettings language="JAVA">`; `ij_java_spaces_around_method_ref_dbl_colon` in `.editorconfig`.
    pub space_around_method_ref_dbl_colon: Option<bool>,
    /// `SPACE_AROUND_MULTIPLICATIVE_OPERATORS` in `<codeStyleSettings language="JAVA">`; `ij_java_spaces_around_multiplicative_operators` in `.editorconfig`.
    pub space_around_multiplicative_operators: Option<bool>,
    /// `SPACE_AROUND_RELATIONAL_OPERATORS` in `<codeStyleSettings language="JAVA">`; `ij_java_spaces_around_relational_operators` in `.editorconfig`.
    pub space_around_relational_operators: Option<bool>,
    /// `SPACE_AROUND_SHIFT_OPERATORS` in `<codeStyleSettings language="JAVA">`; `ij_java_spaces_around_shift_operators` in `.editorconfig`.
    pub space_around_shift_operators: Option<bool>,
    /// `SPACE_AROUND_TYPE_BOUNDS_IN_TYPE_PARAMETERS` in `<JavaCodeStyleSettings>`; `ij_java_spaces_around_type_bounds_in_type_parameters` in `.editorconfig`.
    pub space_around_type_bounds_in_type_parameters: Option<bool>,
    /// `SPACE_AROUND_UNARY_OPERATOR` in `<codeStyleSettings language="JAVA">`; `ij_java_spaces_around_unary_operator` in `.editorconfig`.
    pub space_around_unary_operator: Option<bool>,
    /// `SPACE_BEFORE_ANNOTATION_ARRAY_INITIALIZER_LBRACE` in `<codeStyleSettings language="JAVA">`; `ij_java_space_before_annotation_array_initializer_left_brace` in `.editorconfig`.
    pub space_before_annotation_array_initializer_lbrace: Option<bool>,
    /// `SPACE_BEFORE_ANOTATION_PARAMETER_LIST` in `<codeStyleSettings language="JAVA">`; `ij_java_space_before_annotation_parameter_list` in `.editorconfig`.
    pub space_before_anotation_parameter_list: Option<bool>,
    /// `SPACE_BEFORE_ARRAY_INITIALIZER_LBRACE` in `<codeStyleSettings language="JAVA">`; `ij_java_space_before_array_initializer_left_brace` in `.editorconfig`.
    pub space_before_array_initializer_lbrace: Option<bool>,
    /// `SPACE_BEFORE_CATCH_KEYWORD` in `<codeStyleSettings language="JAVA">`; `ij_java_space_before_catch_keyword` in `.editorconfig`.
    pub space_before_catch_keyword: Option<bool>,
    /// `SPACE_BEFORE_CATCH_LBRACE` in `<codeStyleSettings language="JAVA">`; `ij_java_space_before_catch_left_brace` in `.editorconfig`.
    pub space_before_catch_lbrace: Option<bool>,
    /// `SPACE_BEFORE_CATCH_PARENTHESES` in `<codeStyleSettings language="JAVA">`; `ij_java_space_before_catch_parentheses` in `.editorconfig`.
    pub space_before_catch_parentheses: Option<bool>,
    /// `SPACE_BEFORE_CLASS_LBRACE` in `<codeStyleSettings language="JAVA">`; `ij_java_space_before_class_left_brace` in `.editorconfig`.
    pub space_before_class_lbrace: Option<bool>,
    /// `SPACE_BEFORE_COLON` in `<codeStyleSettings language="JAVA">`; `ij_java_space_before_colon` in `.editorconfig`.
    pub space_before_colon: Option<bool>,
    /// `SPACE_BEFORE_COLON_IN_FOREACH` in `<JavaCodeStyleSettings>`; `ij_java_space_before_colon_in_foreach` in `.editorconfig`.
    pub space_before_colon_in_foreach: Option<bool>,
    /// `SPACE_BEFORE_COMMA` in `<codeStyleSettings language="JAVA">`; `ij_java_space_before_comma` in `.editorconfig`.
    pub space_before_comma: Option<bool>,
    /// `SPACE_BEFORE_DECONSTRUCTION_LIST` in `<JavaCodeStyleSettings>`; `ij_java_space_before_deconstruction_list` in `.editorconfig`.
    pub space_before_deconstruction_list: Option<bool>,
    /// `SPACE_BEFORE_DO_LBRACE` in `<codeStyleSettings language="JAVA">`; `ij_java_space_before_do_left_brace` in `.editorconfig`.
    pub space_before_do_lbrace: Option<bool>,
    /// `SPACE_BEFORE_ELSE_KEYWORD` in `<codeStyleSettings language="JAVA">`; `ij_java_space_before_else_keyword` in `.editorconfig`.
    pub space_before_else_keyword: Option<bool>,
    /// `SPACE_BEFORE_ELSE_LBRACE` in `<codeStyleSettings language="JAVA">`; `ij_java_space_before_else_left_brace` in `.editorconfig`.
    pub space_before_else_lbrace: Option<bool>,
    /// `SPACE_BEFORE_FINALLY_KEYWORD` in `<codeStyleSettings language="JAVA">`; `ij_java_space_before_finally_keyword` in `.editorconfig`.
    pub space_before_finally_keyword: Option<bool>,
    /// `SPACE_BEFORE_FINALLY_LBRACE` in `<codeStyleSettings language="JAVA">`; `ij_java_space_before_finally_left_brace` in `.editorconfig`.
    pub space_before_finally_lbrace: Option<bool>,
    /// `SPACE_BEFORE_FOR_LBRACE` in `<codeStyleSettings language="JAVA">`; `ij_java_space_before_for_left_brace` in `.editorconfig`.
    pub space_before_for_lbrace: Option<bool>,
    /// `SPACE_BEFORE_FOR_PARENTHESES` in `<codeStyleSettings language="JAVA">`; `ij_java_space_before_for_parentheses` in `.editorconfig`.
    pub space_before_for_parentheses: Option<bool>,
    /// `SPACE_BEFORE_IF_LBRACE` in `<codeStyleSettings language="JAVA">`; `ij_java_space_before_if_left_brace` in `.editorconfig`.
    pub space_before_if_lbrace: Option<bool>,
    /// `SPACE_BEFORE_IF_PARENTHESES` in `<codeStyleSettings language="JAVA">`; `ij_java_space_before_if_parentheses` in `.editorconfig`.
    pub space_before_if_parentheses: Option<bool>,
    /// `SPACE_BEFORE_METHOD_CALL_PARENTHESES` in `<codeStyleSettings language="JAVA">`; `ij_java_space_before_method_call_parentheses` in `.editorconfig`.
    pub space_before_method_call_parentheses: Option<bool>,
    /// `SPACE_BEFORE_METHOD_LBRACE` in `<codeStyleSettings language="JAVA">`; `ij_java_space_before_method_left_brace` in `.editorconfig`.
    pub space_before_method_lbrace: Option<bool>,
    /// `SPACE_BEFORE_METHOD_PARENTHESES` in `<codeStyleSettings language="JAVA">`; `ij_java_space_before_method_parentheses` in `.editorconfig`.
    pub space_before_method_parentheses: Option<bool>,
    /// `SPACE_BEFORE_OPENING_ANGLE_BRACKET_IN_TYPE_PARAMETER` in `<JavaCodeStyleSettings>`; `ij_java_space_before_opening_angle_bracket_in_type_parameter` in `.editorconfig`.
    pub space_before_opening_angle_bracket_in_type_parameter: Option<bool>,
    /// `SPACE_BEFORE_QUEST` in `<codeStyleSettings language="JAVA">`; `ij_java_space_before_quest` in `.editorconfig`.
    pub space_before_quest: Option<bool>,
    /// `SPACE_BEFORE_SEMICOLON` in `<codeStyleSettings language="JAVA">`; `ij_java_space_before_for_semicolon` in `.editorconfig`.
    pub space_before_semicolon: Option<bool>,
    /// `SPACE_BEFORE_SWITCH_LBRACE` in `<codeStyleSettings language="JAVA">`; `ij_java_space_before_switch_left_brace` in `.editorconfig`.
    pub space_before_switch_lbrace: Option<bool>,
    /// `SPACE_BEFORE_SWITCH_PARENTHESES` in `<codeStyleSettings language="JAVA">`; `ij_java_space_before_switch_parentheses` in `.editorconfig`.
    pub space_before_switch_parentheses: Option<bool>,
    /// `SPACE_BEFORE_SYNCHRONIZED_LBRACE` in `<codeStyleSettings language="JAVA">`; `ij_java_space_before_synchronized_left_brace` in `.editorconfig`.
    pub space_before_synchronized_lbrace: Option<bool>,
    /// `SPACE_BEFORE_SYNCHRONIZED_PARENTHESES` in `<codeStyleSettings language="JAVA">`; `ij_java_space_before_synchronized_parentheses` in `.editorconfig`.
    pub space_before_synchronized_parentheses: Option<bool>,
    /// `SPACE_BEFORE_TRY_LBRACE` in `<codeStyleSettings language="JAVA">`; `ij_java_space_before_try_left_brace` in `.editorconfig`.
    pub space_before_try_lbrace: Option<bool>,
    /// `SPACE_BEFORE_TRY_PARENTHESES` in `<codeStyleSettings language="JAVA">`; `ij_java_space_before_try_parentheses` in `.editorconfig`.
    pub space_before_try_parentheses: Option<bool>,
    /// `SPACE_BEFORE_TYPE_PARAMETER_LIST` in `<codeStyleSettings language="JAVA">`; `ij_java_space_before_type_parameter_list` in `.editorconfig`.
    pub space_before_type_parameter_list: Option<bool>,
    /// `SPACE_BEFORE_WHILE_KEYWORD` in `<codeStyleSettings language="JAVA">`; `ij_java_space_before_while_keyword` in `.editorconfig`.
    pub space_before_while_keyword: Option<bool>,
    /// `SPACE_BEFORE_WHILE_LBRACE` in `<codeStyleSettings language="JAVA">`; `ij_java_space_before_while_left_brace` in `.editorconfig`.
    pub space_before_while_lbrace: Option<bool>,
    /// `SPACE_BEFORE_WHILE_PARENTHESES` in `<codeStyleSettings language="JAVA">`; `ij_java_space_before_while_parentheses` in `.editorconfig`.
    pub space_before_while_parentheses: Option<bool>,
    /// `SPACE_INSIDE_ONE_LINE_ENUM_BRACES` in `<JavaCodeStyleSettings>`; `ij_java_space_inside_one_line_enum_braces` in `.editorconfig`.
    pub space_inside_one_line_enum_braces: Option<bool>,
    /// `SPACE_WITHIN_ANNOTATION_PARENTHESES` in `<codeStyleSettings language="JAVA">`; `ij_java_spaces_within_annotation_parentheses` in `.editorconfig`.
    pub space_within_annotation_parentheses: Option<bool>,
    /// `SPACE_WITHIN_ARRAY_INITIALIZER_BRACES` in `<codeStyleSettings language="JAVA">`; `ij_java_spaces_within_array_initializer_braces` in `.editorconfig`.
    pub space_within_array_initializer_braces: Option<bool>,
    /// `SPACE_WITHIN_BRACES` in `<codeStyleSettings language="JAVA">`; `ij_java_spaces_within_braces` in `.editorconfig`.
    pub space_within_braces: Option<bool>,
    /// `SPACE_WITHIN_BRACKETS` in `<codeStyleSettings language="JAVA">`; `ij_java_spaces_within_brackets` in `.editorconfig`.
    pub space_within_brackets: Option<bool>,
    /// `SPACE_WITHIN_CAST_PARENTHESES` in `<codeStyleSettings language="JAVA">`; `ij_java_spaces_within_cast_parentheses` in `.editorconfig`.
    pub space_within_cast_parentheses: Option<bool>,
    /// `SPACE_WITHIN_CATCH_PARENTHESES` in `<codeStyleSettings language="JAVA">`; `ij_java_spaces_within_catch_parentheses` in `.editorconfig`.
    pub space_within_catch_parentheses: Option<bool>,
    /// `SPACE_WITHIN_DECONSTRUCTION_LIST` in `<JavaCodeStyleSettings>`; `ij_java_spaces_within_deconstruction_list` in `.editorconfig`.
    pub space_within_deconstruction_list: Option<bool>,
    /// `SPACE_WITHIN_EMPTY_ARRAY_INITIALIZER_BRACES` in `<codeStyleSettings language="JAVA">`; `ij_java_space_within_empty_array_initializer_braces` in `.editorconfig`.
    pub space_within_empty_array_initializer_braces: Option<bool>,
    /// `SPACE_WITHIN_EMPTY_METHOD_CALL_PARENTHESES` in `<codeStyleSettings language="JAVA">`; `ij_java_space_within_empty_method_call_parentheses` in `.editorconfig`.
    pub space_within_empty_method_call_parentheses: Option<bool>,
    /// `SPACE_WITHIN_EMPTY_METHOD_PARENTHESES` in `<codeStyleSettings language="JAVA">`; `ij_java_space_within_empty_method_parentheses` in `.editorconfig`.
    pub space_within_empty_method_parentheses: Option<bool>,
    /// `SPACE_WITHIN_FOR_PARENTHESES` in `<codeStyleSettings language="JAVA">`; `ij_java_spaces_within_for_parentheses` in `.editorconfig`.
    pub space_within_for_parentheses: Option<bool>,
    /// `SPACE_WITHIN_IF_PARENTHESES` in `<codeStyleSettings language="JAVA">`; `ij_java_spaces_within_if_parentheses` in `.editorconfig`.
    pub space_within_if_parentheses: Option<bool>,
    /// `SPACE_WITHIN_METHOD_CALL_PARENTHESES` in `<codeStyleSettings language="JAVA">`; `ij_java_spaces_within_method_call_parentheses` in `.editorconfig`.
    pub space_within_method_call_parentheses: Option<bool>,
    /// `SPACE_WITHIN_METHOD_PARENTHESES` in `<codeStyleSettings language="JAVA">`; `ij_java_spaces_within_method_parentheses` in `.editorconfig`.
    pub space_within_method_parentheses: Option<bool>,
    /// `SPACE_WITHIN_PARENTHESES` in `<codeStyleSettings language="JAVA">`; `ij_java_spaces_within_parentheses` in `.editorconfig`.
    pub space_within_parentheses: Option<bool>,
    /// `SPACE_WITHIN_RECORD_HEADER` in `<JavaCodeStyleSettings>`; `ij_java_spaces_within_record_header` in `.editorconfig`.
    pub space_within_record_header: Option<bool>,
    /// `SPACE_WITHIN_SWITCH_PARENTHESES` in `<codeStyleSettings language="JAVA">`; `ij_java_spaces_within_switch_parentheses` in `.editorconfig`.
    pub space_within_switch_parentheses: Option<bool>,
    /// `SPACE_WITHIN_SYNCHRONIZED_PARENTHESES` in `<codeStyleSettings language="JAVA">`; `ij_java_spaces_within_synchronized_parentheses` in `.editorconfig`.
    pub space_within_synchronized_parentheses: Option<bool>,
    /// `SPACE_WITHIN_TRY_PARENTHESES` in `<codeStyleSettings language="JAVA">`; `ij_java_spaces_within_try_parentheses` in `.editorconfig`.
    pub space_within_try_parentheses: Option<bool>,
    /// `SPACE_WITHIN_WHILE_PARENTHESES` in `<codeStyleSettings language="JAVA">`; `ij_java_spaces_within_while_parentheses` in `.editorconfig`.
    pub space_within_while_parentheses: Option<bool>,
}

impl IntellijSpacing {
    /// Whether every field holds what the settings map gives its id.
    #[verifier::opaque]
    pub open spec fn reads(&self, m: Map<Seq<char>, Seq<char>>) -> bool {
        &&& self.spaces_inside_block_braces_when_body_is_present == lookup_bool(m, "SPACES_INSIDE_BLOCK_BRACES_WHEN_BODY_IS_PRESENT"@)
        &&& self.spaces_within_angle_brackets == lookup_bool(m, "SPACES_WITHIN_ANGLE_BRACKETS"@)
        &&& self.space_after_closing_angle_bracket_in_type_argument == lookup_bool(m, "SPACE_AFTER_CLOSING_ANGLE_BRACKET_IN_TYPE_ARGUMENT"@)
        &&& self.space_after_colon == lookup_bool(m, "SPACE_AFTER_COLON"@)
        &&& self.space_after_comma == lookup_bool(m, "SPACE_AFTER_COMMA"@)
        &&& self.space_after_comma_in_type_arguments == lookup_bool(m, "SPACE_AFTER_COMMA_IN_TYPE_ARGUMENTS"@)
        &&& self.space_after_quest == lookup_bool(m, "SPACE_AFTER_QUEST"@)
        &&& self.space_after_semicolon == lookup_bool(m, "SPACE_AFTER_SEMICOLON"@)
        &&& self.space_after_type_cast == lookup_bool(m, "SPACE_AFTER_TYPE_CAST"@)
        &&& self.space_around_additive_operators == lookup_bool(m, "SPACE_AROUND_ADDITIVE_OPERATORS"@)
        &&& self.space_around_annotation_eq == lookup_bool(m, "SPACE_AROUND_ANNOTATION_EQ"@)
        &&& self.space_around_assignment_operators == lookup_bool(m, "SPACE_AROUND_ASSIGNMENT_OPERATORS"@)
        &&& self.space_around_bitwise_operators == lookup_bool(m, "SPACE_AROUND_BITWISE_OPERATORS"@)
        &&& self.space_around_equality_operators == lookup_bool(m, "SPACE_AROUND_EQUALITY_OPERATORS"@)
        &&& self.space_around_lambda_arrow == lookup_bool(m, "SPACE_AROUND_LAMBDA_ARROW"@)
        &&& self.space_around_logical_operators == lookup_bool(m, "SPACE_AROUND_LOGICAL_OPERATORS"@)
        &&& self.space_around_method_ref_dbl_colon == lookup_bool(m, "SPACE_AROUND_METHOD_REF_DBL_COLON"@)
        &&& self.space_around_multiplicative_operators == lookup_bool(m, "SPACE_AROUND_MULTIPLICATIVE_OPERATORS"@)
        &&& self.space_around_relational_operators == lookup_bool(m, "SPACE_AROUND_RELATIONAL_OPERATORS"@)
        &&& self.space_around_shift_operators == lookup_bool(m, "SPACE_AROUND_SHIFT_OPERATORS"@)
        &&& self.space_around_type_bounds_in_type_parameters == lookup_bool(m, "SPACE_AROUND_TYPE_BOUNDS_IN_TYPE_PARAMETERS"@)
        &&& self.space_around_unary_operator == lookup_bool(m, "SPACE_AROUND_UNARY_OPERATOR"@)
        &&& self.space_before_annotation_array_initializer_lbrace == lookup_bool(m, "SPACE_BEFORE_ANNOTATION_ARRAY_INITIALIZER_LBRACE"@)
        &&& self.space_before_anotation_parameter_list == lookup_bool(m, "SPACE_BEFORE_ANOTATION_PARAMETER_LIST"@)
        &&& self.space_before_array_initializer_lbrace == lookup_bool(m, "SPACE_BEFORE_ARRAY_INITIALIZER_LBRACE"@)
        &&& self.space_before_catch_keyword == lookup_bool(m, "SPACE_BEFORE_CATCH_KEYWORD"@)
        &&& self.space_before_catch_lbrace == lookup_bool(m, "SPACE_BEFORE_CATCH_LBRACE"@)
        &&& self.space_before_catch_parentheses == lookup_bool(m, "SPACE_BEFORE_CATCH_PARENTHESES"@)
        &&& self.space_before_class_lbrace == lookup_bool(m, "SPACE_BEFORE_CLASS_LBRACE"@)
        &&& self.space_before_colon == lookup_bool(m, "SPACE_BEFORE_COLON"@)
        &&& self.space_before_colon_in_foreach == lookup_bool(m, "SPACE_BEFORE_COLON_IN_FOREACH"@)
        &&& self.space_before_comma == lookup_bool(m, "SPACE_BEFORE_COMMA"@)
        &&& self.space_before_deconstruction_list == lookup_bool(m, "SPACE_BEFORE_DECONSTRUCTION_LIST"@)
        &&& self.space_before_do_lbrace == lookup_bool(m, "SPACE_BEFORE_DO_LBRACE"@)
        &&& self.space_before_else_keyword == lookup_bool(m, "SPACE_BEFORE_ELSE_KEYWORD"@)
        &&& self.space_before_else_lbrace == lookup_bool(m, "SPACE_BEFORE_ELSE_LBRACE"@)
        &&& self.space_before_finally_keyword == lookup_bool(m, "SPACE_BEFORE_FINALLY_KEYWORD"@)
        &&& self.space_before_finally_lbrace == lookup_bool(m, "SPACE_BEFORE_FINALLY_LBRACE"@)
        &&& self.space_before_for_lbrace == lookup_bool(m, "SPACE_BEFORE_FOR_LBRACE"@)
        &&& self.space_before_for_parentheses == lookup_bool(m, "SPACE_BEFORE_FOR_PARENTHESES"@)
        &&& self.space_before_if_lbrace == lookup_bool(m, "SPACE_BEFORE_IF_LBRACE"@)
        &&& self.space_before_if_parentheses == lookup_bool(m, "SPACE_BEFORE_IF_PARENTHESES"@)
        &&& self.space_before_method_call_parentheses == lookup_bool(m, "SPACE_BEFORE_METHOD_CALL_PARENTHESES"@)
        &&& self.space_before_method_lbrace == lookup_bool(m, "SPACE_BEFORE_METHOD_LBRACE"@)
        &&& self.space_before_method_parentheses == lookup_bool(m, "SPACE_BEFORE_METHOD_PARENTHESES"@)
        &&& self.space_before_opening_angle_bracket_in_type_parameter == lookup_bool(m, "SPACE_BEFORE_OPENING_ANGLE_BRACKET_IN_TYPE_PARAMETER"@)
        &&& self.space_before_quest == lookup_bool(m, "SPACE_BEFORE_QUEST"@)
        &&& self.space_before_semicolon == lookup_bool(m, "SPACE_BEFORE_SEMICOLON"@)
        &&& self.space_before_switch_lbrace == lookup_bool(m, "SPACE_BEFORE_SWITCH_LBRACE"@)
        &&& self.space_before_switch_parentheses == lookup_bool(m, "SPACE_BEFORE_SWITCH_PARENTHESES"@)
        &&& self.space_before_synchronized_lbrace == lookup_bool(m, "SPACE_BEFORE_SYNCHRONIZED_LBRACE"@)
        &&& self.space_before_synchronized_parentheses == lookup_bool(m, "SPACE_BEFORE_SYNCHRONIZED_PARENTHESES"@)
        &&& self.space_before_try_lbrace == lookup_bool(m, "SPACE_BEFORE_TRY_LBRACE"@)
        &&& self.space_before_try_parentheses == lookup_bool(m, "SPACE_BEFORE_TRY_PARENTHESES"@)
        &&& self.space_before_type_parameter_list == lookup_bool(m, "SPACE_BEFORE_TYPE_PARAMETER_LIST"@)
        &&& self.space_before_while_keyword == lookup_bool(m, "SPACE_BEFORE_WHILE_KEYWORD"@)
        &&& self.space_before_while_lbrace == lookup_bool(m, "SPACE_BEFORE_WHILE_LBRACE"@)
        &&& self.space_before_while_parentheses == lookup_bool(m, "SPACE_BEFORE_WHILE_PARENTHESES"@)
        &&& self.space_inside_one_line_enum_braces == lookup_bool(m, "SPACE_INSIDE_ONE_LINE_ENUM_BRACES"@)
        &&& self.space_within_annotation_parentheses == lookup_bool(m, "SPACE_WITHIN_ANNOTATION_PARENTHESES"@)
        &&& self.space_within_array_initializer_braces == lookup_bool(m, "SPACE_WITHIN_ARRAY_INITIALIZER_BRACES"@)
        &&& self.space_within_braces == lookup_bool(m, "SPACE_WITHIN_BRACES"@)
        &&& self.space_within_brackets == lookup_bool(m, "SPACE_WITHIN_BRACKETS"@)
        &&& self.space_within_cast_parentheses == lookup_bool(m, "SPACE_WITHIN_CAST_PARENTHESES"@)
        &&& self.space_within_catch_parentheses == lookup_bool(m, "SPACE_WITHIN_CATCH_PARENTHESES"@)
        &&& self.space_within_deconstruction_list == lookup_bool(m, "SPACE_WITHIN_DECONSTRUCTION_LIST"@)
        &&& self.space_within_empty_array_initializer_braces == lookup_bool(m, "SPACE_WITHIN_EMPTY_ARRAY_INITIALIZER_BRACES"@)
        &&& self.space_within_empty_method_call_parentheses == lookup_bool(m, "SPACE_WITHIN_EMPTY_METHOD_CALL_PARENTHESES"@)
        &&& self.space_within_empty_method_parentheses == lookup_bool(m, "SPACE_WITHIN_EMPTY_METHOD_PARENTHESES"@)
        &&& self.space_within_for_parentheses == lookup_bool(m, "SPACE_WITHIN_FOR_PARENTHESES"@)
        &&& self.space_within_if_parentheses == lookup_bool(m, "SPACE_WITHIN_IF_PARENTHESES"@)
        &&& self.space_within_method_call_parentheses == lookup_bool(m, "SPACE_WITHIN_METHOD_CALL_PARENTHESES"@)
        &&& self.space_within_method_parentheses == lookup_bool(m, "SPACE_WITHIN_METHOD_PARENTHESES"@)
        &&& self.space_within_parentheses == lookup_bool(m, "SPACE_WITHIN_PARENTHESES"@)
        &&& self.space_within_record_header == lookup_bool(m, "SPACE_WITHIN_RECORD_HEADER"@)
        &&& self.space_within_switch_parentheses == lookup_bool(m, "SPACE_WITHIN_SWITCH_PARENTHESES"@)
        &&& self.space_within_synchronized_parentheses == lookup_bool(m, "SPACE_WITHIN_SYNCHRONIZED_PARENTHESES"@)
        &&& self.space_within_try_parentheses == lookup_bool(m, "SPACE_WITHIN_TRY_PARENTHESES"@)
        &&& self.space_within_while_parentheses == lookup_bool(m, "SPACE_WITHIN_WHILE_PARENTHESES"@)
    }

    /// Read every field from the flat settings map; an id the map lacks, or a value that
    /// does not parse, leaves the field unset.
    #[verifier::rlimit(30)]
    pub fn from_map(m: &KvMap) -> (r: Self)
        ensures
            r.reads(m@),
    {
        reveal(IntellijSpacing::reads);
        IntellijSpacing {
            spaces_inside_block_braces_when_body_is_present: Kv::field_bool(m, "SPACES_INSIDE_BLOCK_BRACES_WHEN_BODY_IS_PRESENT"),
            spaces_within_angle_brackets: Kv::field_bool(m, "SPACES_WITHIN_ANGLE_BRACKETS"),
            space_after_closing_angle_bracket_in_type_argument: Kv::field_bool(m, "SPACE_AFTER_CLOSING_ANGLE_BRACKET_IN_TYPE_ARGUMENT"),
            space_after_colon: Kv::field_bool(m, "SPACE_AFTER_COLON"),
            space_after_comma: Kv::field_bool(m, "SPACE_AFTER_COMMA"),
            space_after_comma_in_type_arguments: Kv::field_bool(m, "SPACE_AFTER_COMMA_IN_TYPE_ARGUMENTS"),
            space_after_quest: Kv::field_bool(m, "SPACE_AFTER_QUEST"),
            space_after_semicolon: Kv::field_bool(m, "SPACE_AFTER_SEMICOLON"),
            space_after_type_cast: Kv::field_bool(m, "SPACE_AFTER_TYPE_CAST"),
            space_around_additive_operators: Kv::field_bool(m, "SPACE_AROUND_ADDITIVE_OPERATORS"),
            space_around_annotation_eq: Kv::field_bool(m, "SPACE_AROUND_ANNOTATION_EQ"),
            space_around_assignment_operators: Kv::field_bool(m, "SPACE_AROUND_ASSIGNMENT_OPERATORS"),
            space_around_bitwise_operators: Kv::field_bool(m, "SPACE_AROUND_BITWISE_OPERATORS"),
            space_around_equality_operators: Kv::field_bool(m, "SPACE_AROUND_EQUALITY_OPERATORS"),
            space_around_lambda_arrow: Kv::field_bool(m, "SPACE_AROUND_LAMBDA_ARROW"),
            space_around_logical_operators: Kv::field_bool(m, "SPACE_AROUND_LOGICAL_OPERATORS"),
            space_around_method_ref_dbl_colon: Kv::field_bool(m, "SPACE_AROUND_METHOD_REF_DBL_COLON"),
            space_around_multiplicative_operators: Kv::field_bool(m, "SPACE_AROUND_MULTIPLICATIVE_OPERATORS"),
            space_around_relational_operators: Kv::field_bool(m, "SPACE_AROUND_RELATIONAL_OPERATORS"),
            space_around_shift_operators: Kv::field_bool(m, "SPACE_AROUND_SHIFT_OPERATORS"),
            space_around_type_bounds_in_type_parameters: Kv::field_bool(m, "SPACE_AROUND_TYPE_BOUNDS_IN_TYPE_PARAMETERS"),
            space_around_unary_operator: Kv::field_bool(m, "SPACE_AROUND_UNARY_OPERATOR"),
            space_before_annotation_array_initializer_lbrace: Kv::field_bool(m, "SPACE_BEFORE_ANNOTATION_ARRAY_INITIALIZER_LBRACE"),
            space_before_anotation_parameter_list: Kv::field_bool(m, "SPACE_BEFORE_ANOTATION_PARAMETER_LIST"),
            space_before_array_initializer_lbrace: Kv::field_bool(m, "SPACE_BEFORE_ARRAY_INITIALIZER_LBRACE"),
            space_before_catch_keyword: Kv::field_bool(m, "SPACE_BEFORE_CATCH_KEYWORD"),
            space_before_catch_lbrace: Kv::field_bool(m, "SPACE_BEFORE_CATCH_LBRACE"),
            space_before_catch_parentheses: Kv::field_bool(m, "SPACE_BEFORE_CATCH_PARENTHESES"),
            space_before_class_lbrace: Kv::field_bool(m, "SPACE_BEFORE_CLASS_LBRACE"),
            space_before_colon: Kv::field_bool(m, "SPACE_BEFORE_COLON"),
            space_before_colon_in_foreach: Kv::field_bool(m, "SPACE_BEFORE_COLON_IN_FOREACH"),
            space_before_comma: Kv::field_bool(m, "SPACE_BEFORE_COMMA"),
            space_before_deconstruction_list: Kv::field_bool(m, "SPACE_BEFORE_DECONSTRUCTION_LIST"),
            space_before_do_lbrace: Kv::field_bool(m, "SPACE_BEFORE_DO_LBRACE"),
            space_before_else_keyword: Kv::field_bool(m, "SPACE_BEFORE_ELSE_KEYWORD"),
            space_before_else_lbrace: Kv::field_bool(m, "SPACE_BEFORE_ELSE_LBRACE"),
            space_before_finally_keyword: Kv::field_bool(m, "SPACE_BEFORE_FINALLY_KEYWORD"),
            space_before_finally_lbrace: Kv::field_bool(m, "SPACE_BEFORE_FINALLY_LBRACE"),
            space_before_for_lbrace: Kv::field_bool(m, "SPACE_BEFORE_FOR_LBRACE"),
            space_before_for_parentheses: Kv::field_bool(m, "SPACE_BEFORE_FOR_PARENTHESES"),
            space_before_if_lbrace: Kv::field_bool(m, "SPACE_BEFORE_IF_LBRACE"),
            space_before_if_parentheses: Kv::field_bool(m, "SPACE_BEFORE_IF_PARENTHESES"),
            space_before_method_call_parentheses: Kv::field_bool(m, "SPACE_BEFORE_METHOD_CALL_PARENTHESES"),
            space_before_method_lbrace: Kv::field_bool(m, "SPACE_BEFORE_METHOD_LBRACE"),
            space_before_method_parentheses: Kv::field_bool(m, "SPACE_BEFORE_METHOD_PARENTHESES"),
            space_before_opening_angle_bracket_in_type_parameter: Kv::field_bool(m, "SPACE_BEFORE_OPENING_ANGLE_BRACKET_IN_TYPE_PARAMETER"),
            space_before_quest: Kv::field_bool(m, "SPACE_BEFORE_QUEST"),
            space_before_semicolon: Kv::field_bool(m, "SPACE_BEFORE_SEMICOLON"),
            space_before_switch_lbrace: Kv::field_bool(m, "SPACE_BEFORE_SWITCH_LBRACE"),
            space_before_switch_parentheses: Kv::field_bool(m, "SPACE_BEFORE_SWITCH_PARENTHESES"),
            space_before_synchronized_lbrace: Kv::field_bool(m, "SPACE_BEFORE_SYNCHRONIZED_LBRACE"),
            space_before_synchronized_parentheses: Kv::field_bool(m, "SPACE_BEFORE_SYNCHRONIZED_PARENTHESES"),
            space_before_try_lbrace: Kv::field_bool(m, "SPACE_BEFORE_TRY_LBRACE"),
            space_before_try_parentheses: Kv::field_bool(m, "SPACE_BEFORE_TRY_PARENTHESES"),
            space_before_type_parameter_list: Kv::field_bool(m, "SPACE_BEFORE_TYPE_PARAMETER_LIST"),
            space_before_while_keyword: Kv::field_bool(m, "SPACE_BEFORE_WHILE_KEYWORD"),
            space_before_while_lbrace: Kv::field_bool(m, "SPACE_BEFORE_WHILE_LBRACE"),
            space_before_while_parentheses: Kv::field_bool(m, "SPACE_BEFORE_WHILE_PARENTHESES"),
            space_inside_one_line_enum_braces: Kv::field_bool(m, "SPACE_INSIDE_ONE_LINE_ENUM_BRACES"),
            space_within_annotation_parentheses: Kv::field_bool(m, "SPACE_WITHIN_ANNOTATION_PARENTHESES"),
            space_within_array_initializer_braces: Kv::field_bool(m, "SPACE_WITHIN_ARRAY_INITIALIZER_BRACES"),
            space_within_braces: Kv::field_bool(m, "SPACE_WITHIN_BRACES"),
            space_within_brackets: Kv::field_bool(m, "SPACE_WITHIN_BRACKETS"),
            space_within_cast_parentheses: Kv::field_bool(m, "SPACE_WITHIN_CAST_PARENTHESES"),
            space_within_catch_parentheses: Kv::field_bool(m, "SPACE_WITHIN_CATCH_PARENTHESES"),
            space_within_deconstruction_list: Kv::field_bool(m, "SPACE_WITHIN_DECONSTRUCTION_LIST"),
            space_within_empty_array_initializer_braces: Kv::field_bool(m, "SPACE_WITHIN_EMPTY_ARRAY_INITIALIZER_BRACES"),
            space_within_empty_method_call_parentheses: Kv::field_bool(m, "SPACE_WITHIN_EMPTY_METHOD_CALL_PARENTHESES"),
            space_within_empty_method_parentheses: Kv::field_bool(m, "SPACE_WITHIN_EMPTY_METHOD_PARENTHESES"),
            space_within_for_parentheses: Kv::field_bool(m, "SPACE_WITHIN_FOR_PARENTHESES"),
            space_within_if_parentheses: Kv::field_bool(m, "SPACE_WITHIN_IF_PARENTHESES"),
            space_within_method_call_parentheses: Kv::field_bool(m, "SPACE_WITHIN_METHOD_CALL_PARENTHESES"),
            space_within_method_parentheses: Kv::field_bool(m, "SPACE_WITHIN_METHOD_PARENTHESES"),
            space_within_parentheses: Kv::field_bool(m, "SPACE_WITHIN_PARENTHESES"),
            space_within_record_header: Kv::field_bool(m, "SPACE_WITHIN_RECORD_HEADER"),
            space_within_switch_parentheses: Kv::field_bool(m, "SPACE_WITHIN_SWITCH_PARENTHESES"),
            space_within_synchronized_parentheses: Kv::field_bool(m, "SPACE_WITHIN_SYNCHRONIZED_PARENTHESES"),
            space_within_try_parentheses: Kv::field_bool(m, "SPACE_WITHIN_TRY_PARENTHESES"),
            space_within_while_parentheses: Kv::field_bool(m, "SPACE_WITHIN_WHILE_PARENTHESES"),
        }
    }
}

} // verus!
