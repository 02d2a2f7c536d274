//! Eclipse JDT — the 219 `insert_space_*` settings, the largest family by far.
//!
//! Every one is the two-valued [`Insert`] (`insert` / `do not insert` — note the interior
//! spaces), never a bool. jals's `[spacing]` section bundles these by token role into 49 keys;
//! the full context split survives here.

use vstd::prelude::*;

use crate::import::kv::KvMap;
use crate::import::serde_kv::{Kv, lookup_enum};
use super::values::{Insert};

verus! {

/// The `insert_space_*` settings of a profile.
#[derive(Debug, Clone, Copy, Default, PartialEq, Eq)]
pub struct Spacing {
    /// `insert_space_after_additive_operator`.
    pub insert_space_after_additive_operator: Option<Insert>,
    /// `insert_space_after_and_in_type_parameter`.
    pub insert_space_after_and_in_type_parameter: Option<Insert>,
    /// `insert_space_after_arrow_in_switch_case`.
    pub insert_space_after_arrow_in_switch_case: Option<Insert>,
    /// `insert_space_after_arrow_in_switch_default`.
    pub insert_space_after_arrow_in_switch_default: Option<Insert>,
    /// `insert_space_after_assignment_operator`.
    pub insert_space_after_assignment_operator: Option<Insert>,
    /// `insert_space_after_at_in_annotation`.
    pub insert_space_after_at_in_annotation: Option<Insert>,
    /// `insert_space_after_at_in_annotation_type_declaration`.
    pub insert_space_after_at_in_annotation_type_declaration: Option<Insert>,
    /// `insert_space_after_binary_operator`. Deprecated: JDT still reads it and fans it out into the finer settings above.
    pub insert_space_after_binary_operator: Option<Insert>,
    /// `insert_space_after_bitwise_operator`.
    pub insert_space_after_bitwise_operator: Option<Insert>,
    /// `insert_space_after_closing_angle_bracket_in_type_arguments`.
    pub insert_space_after_closing_angle_bracket_in_type_arguments: Option<Insert>,
    /// `insert_space_after_closing_angle_bracket_in_type_parameters`.
    pub insert_space_after_closing_angle_bracket_in_type_parameters: Option<Insert>,
    /// `insert_space_after_closing_brace_in_block`.
    pub insert_space_after_closing_brace_in_block: Option<Insert>,
    /// `insert_space_after_closing_paren_in_cast`.
    pub insert_space_after_closing_paren_in_cast: Option<Insert>,
    /// `insert_space_after_colon_in_assert`.
    pub insert_space_after_colon_in_assert: Option<Insert>,
    /// `insert_space_after_colon_in_case`.
    pub insert_space_after_colon_in_case: Option<Insert>,
    /// `insert_space_after_colon_in_conditional`.
    pub insert_space_after_colon_in_conditional: Option<Insert>,
    /// `insert_space_after_colon_in_for`.
    pub insert_space_after_colon_in_for: Option<Insert>,
    /// `insert_space_after_colon_in_labeled_statement`.
    pub insert_space_after_colon_in_labeled_statement: Option<Insert>,
    /// `insert_space_after_comma_in_allocation_expression`.
    pub insert_space_after_comma_in_allocation_expression: Option<Insert>,
    /// `insert_space_after_comma_in_annotation`.
    pub insert_space_after_comma_in_annotation: Option<Insert>,
    /// `insert_space_after_comma_in_array_initializer`.
    pub insert_space_after_comma_in_array_initializer: Option<Insert>,
    /// `insert_space_after_comma_in_constructor_declaration_parameters`.
    pub insert_space_after_comma_in_constructor_declaration_parameters: Option<Insert>,
    /// `insert_space_after_comma_in_constructor_declaration_throws`.
    pub insert_space_after_comma_in_constructor_declaration_throws: Option<Insert>,
    /// `insert_space_after_comma_in_enum_constant_arguments`.
    pub insert_space_after_comma_in_enum_constant_arguments: Option<Insert>,
    /// `insert_space_after_comma_in_enum_declarations`.
    pub insert_space_after_comma_in_enum_declarations: Option<Insert>,
    /// `insert_space_after_comma_in_explicitconstructorcall_arguments`.
    pub insert_space_after_comma_in_explicitconstructorcall_arguments: Option<Insert>,
    /// `insert_space_after_comma_in_for_increments`.
    pub insert_space_after_comma_in_for_increments: Option<Insert>,
    /// `insert_space_after_comma_in_for_inits`.
    pub insert_space_after_comma_in_for_inits: Option<Insert>,
    /// `insert_space_after_comma_in_method_declaration_parameters`.
    pub insert_space_after_comma_in_method_declaration_parameters: Option<Insert>,
    /// `insert_space_after_comma_in_method_declaration_throws`.
    pub insert_space_after_comma_in_method_declaration_throws: Option<Insert>,
    /// `insert_space_after_comma_in_method_invocation_arguments`.
    pub insert_space_after_comma_in_method_invocation_arguments: Option<Insert>,
    /// `insert_space_after_comma_in_multiple_field_declarations`.
    pub insert_space_after_comma_in_multiple_field_declarations: Option<Insert>,
    /// `insert_space_after_comma_in_multiple_local_declarations`.
    pub insert_space_after_comma_in_multiple_local_declarations: Option<Insert>,
    /// `insert_space_after_comma_in_parameterized_type_reference`.
    pub insert_space_after_comma_in_parameterized_type_reference: Option<Insert>,
    /// `insert_space_after_comma_in_permitted_types`.
    pub insert_space_after_comma_in_permitted_types: Option<Insert>,
    /// `insert_space_after_comma_in_record_components`.
    pub insert_space_after_comma_in_record_components: Option<Insert>,
    /// `insert_space_after_comma_in_superinterfaces`.
    pub insert_space_after_comma_in_superinterfaces: Option<Insert>,
    /// `insert_space_after_comma_in_switch_case_expressions`.
    pub insert_space_after_comma_in_switch_case_expressions: Option<Insert>,
    /// `insert_space_after_comma_in_type_arguments`.
    pub insert_space_after_comma_in_type_arguments: Option<Insert>,
    /// `insert_space_after_comma_in_type_parameters`.
    pub insert_space_after_comma_in_type_parameters: Option<Insert>,
    /// `insert_space_after_ellipsis`.
    pub insert_space_after_ellipsis: Option<Insert>,
    /// `insert_space_after_lambda_arrow`.
    pub insert_space_after_lambda_arrow: Option<Insert>,
    /// `insert_space_after_logical_operator`.
    pub insert_space_after_logical_operator: Option<Insert>,
    /// `insert_space_after_multiplicative_operator`.
    pub insert_space_after_multiplicative_operator: Option<Insert>,
    /// `insert_space_after_not_operator`.
    pub insert_space_after_not_operator: Option<Insert>,
    /// `insert_space_after_opening_angle_bracket_in_parameterized_type_reference`.
    pub insert_space_after_opening_angle_bracket_in_parameterized_type_reference: Option<Insert>,
    /// `insert_space_after_opening_angle_bracket_in_type_arguments`.
    pub insert_space_after_opening_angle_bracket_in_type_arguments: Option<Insert>,
    /// `insert_space_after_opening_angle_bracket_in_type_parameters`.
    pub insert_space_after_opening_angle_bracket_in_type_parameters: Option<Insert>,
    /// `insert_space_after_opening_brace_in_array_initializer`.
    pub insert_space_after_opening_brace_in_array_initializer: Option<Insert>,
    /// `insert_space_after_opening_bracket_in_array_allocation_expression`.
    pub insert_space_after_opening_bracket_in_array_allocation_expression: Option<Insert>,
    /// `insert_space_after_opening_bracket_in_array_reference`.
    pub insert_space_after_opening_bracket_in_array_reference: Option<Insert>,
    /// `insert_space_after_opening_paren_in_annotation`.
    pub insert_space_after_opening_paren_in_annotation: Option<Insert>,
    /// `insert_space_after_opening_paren_in_cast`.
    pub insert_space_after_opening_paren_in_cast: Option<Insert>,
    /// `insert_space_after_opening_paren_in_catch`.
    pub insert_space_after_opening_paren_in_catch: Option<Insert>,
    /// `insert_space_after_opening_paren_in_constructor_declaration`.
    pub insert_space_after_opening_paren_in_constructor_declaration: Option<Insert>,
    /// `insert_space_after_opening_paren_in_enum_constant`.
    pub insert_space_after_opening_paren_in_enum_constant: Option<Insert>,
    /// `insert_space_after_opening_paren_in_for`.
    pub insert_space_after_opening_paren_in_for: Option<Insert>,
    /// `insert_space_after_opening_paren_in_if`.
    pub insert_space_after_opening_paren_in_if: Option<Insert>,
    /// `insert_space_after_opening_paren_in_method_declaration`.
    pub insert_space_after_opening_paren_in_method_declaration: Option<Insert>,
    /// `insert_space_after_opening_paren_in_method_invocation`.
    pub insert_space_after_opening_paren_in_method_invocation: Option<Insert>,
    /// `insert_space_after_opening_paren_in_parenthesized_expression`.
    pub insert_space_after_opening_paren_in_parenthesized_expression: Option<Insert>,
    /// `insert_space_after_opening_paren_in_record_declaration`.
    pub insert_space_after_opening_paren_in_record_declaration: Option<Insert>,
    /// `insert_space_after_opening_paren_in_switch`.
    pub insert_space_after_opening_paren_in_switch: Option<Insert>,
    /// `insert_space_after_opening_paren_in_synchronized`.
    pub insert_space_after_opening_paren_in_synchronized: Option<Insert>,
    /// `insert_space_after_opening_paren_in_try`.
    pub insert_space_after_opening_paren_in_try: Option<Insert>,
    /// `insert_space_after_opening_paren_in_while`.
    pub insert_space_after_opening_paren_in_while: Option<Insert>,
    /// `insert_space_after_postfix_operator`.
    pub insert_space_after_postfix_operator: Option<Insert>,
    /// `insert_space_after_prefix_operator`.
    pub insert_space_after_prefix_operator: Option<Insert>,
    /// `insert_space_after_question_in_conditional`.
    pub insert_space_after_question_in_conditional: Option<Insert>,
    /// `insert_space_after_question_in_wildcard`.
    pub insert_space_after_question_in_wildcard: Option<Insert>,
    /// `insert_space_after_relational_operator`.
    pub insert_space_after_relational_operator: Option<Insert>,
    /// `insert_space_after_semicolon_in_for`.
    pub insert_space_after_semicolon_in_for: Option<Insert>,
    /// `insert_space_after_semicolon_in_try_resources`.
    pub insert_space_after_semicolon_in_try_resources: Option<Insert>,
    /// `insert_space_after_shift_operator`.
    pub insert_space_after_shift_operator: Option<Insert>,
    /// `insert_space_after_string_concatenation`.
    pub insert_space_after_string_concatenation: Option<Insert>,
    /// `insert_space_after_unary_operator`.
    pub insert_space_after_unary_operator: Option<Insert>,
    /// `insert_space_before_additive_operator`.
    pub insert_space_before_additive_operator: Option<Insert>,
    /// `insert_space_before_and_in_type_parameter`.
    pub insert_space_before_and_in_type_parameter: Option<Insert>,
    /// `insert_space_before_arrow_in_switch_case`.
    pub insert_space_before_arrow_in_switch_case: Option<Insert>,
    /// `insert_space_before_arrow_in_switch_default`.
    pub insert_space_before_arrow_in_switch_default: Option<Insert>,
    /// `insert_space_before_assignment_operator`.
    pub insert_space_before_assignment_operator: Option<Insert>,
    /// `insert_space_before_at_in_annotation_type_declaration`.
    pub insert_space_before_at_in_annotation_type_declaration: Option<Insert>,
    /// `insert_space_before_binary_operator`. Deprecated: JDT still reads it and fans it out into the finer settings above.
    pub insert_space_before_binary_operator: Option<Insert>,
    /// `insert_space_before_bitwise_operator`.
    pub insert_space_before_bitwise_operator: Option<Insert>,
    /// `insert_space_before_closing_angle_bracket_in_parameterized_type_reference`.
    pub insert_space_before_closing_angle_bracket_in_parameterized_type_reference: Option<Insert>,
    /// `insert_space_before_closing_angle_bracket_in_type_arguments`.
    pub insert_space_before_closing_angle_bracket_in_type_arguments: Option<Insert>,
    /// `insert_space_before_closing_angle_bracket_in_type_parameters`.
    pub insert_space_before_closing_angle_bracket_in_type_parameters: Option<Insert>,
    /// `insert_space_before_closing_brace_in_array_initializer`.
    pub insert_space_before_closing_brace_in_array_initializer: Option<Insert>,
    /// `insert_space_before_closing_bracket_in_array_allocation_expression`.
    pub insert_space_before_closing_bracket_in_array_allocation_expression: Option<Insert>,
    /// `insert_space_before_closing_bracket_in_array_reference`.
    pub insert_space_before_closing_bracket_in_array_reference: Option<Insert>,
    /// `insert_space_before_closing_paren_in_annotation`.
    pub insert_space_before_closing_paren_in_annotation: Option<Insert>,
    /// `insert_space_before_closing_paren_in_cast`.
    pub insert_space_before_closing_paren_in_cast: Option<Insert>,
    /// `insert_space_before_closing_paren_in_catch`.
    pub insert_space_before_closing_paren_in_catch: Option<Insert>,
    /// `insert_space_before_closing_paren_in_constructor_declaration`.
    pub insert_space_before_closing_paren_in_constructor_declaration: Option<Insert>,
    /// `insert_space_before_closing_paren_in_enum_constant`.
    pub insert_space_before_closing_paren_in_enum_constant: Option<Insert>,
    /// `insert_space_before_closing_paren_in_for`.
    pub insert_space_before_closing_paren_in_for: Option<Insert>,
    /// `insert_space_before_closing_paren_in_if`.
    pub insert_space_before_closing_paren_in_if: Option<Insert>,
    /// `insert_space_before_closing_paren_in_method_declaration`.
    pub insert_space_before_closing_paren_in_method_declaration: Option<Insert>,
    /// `insert_space_before_closing_paren_in_method_invocation`.
    pub insert_space_before_closing_paren_in_method_invocation: Option<Insert>,
    /// `insert_space_before_closing_paren_in_parenthesized_expression`.
    pub insert_space_before_closing_paren_in_parenthesized_expression: Option<Insert>,
    /// `insert_space_before_closing_paren_in_record_declaration`.
    pub insert_space_before_closing_paren_in_record_declaration: Option<Insert>,
    /// `insert_space_before_closing_paren_in_switch`.
    pub insert_space_before_closing_paren_in_switch: Option<Insert>,
    /// `insert_space_before_closing_paren_in_synchronized`.
    pub insert_space_before_closing_paren_in_synchronized: Option<Insert>,
    /// `insert_space_before_closing_paren_in_try`.
    pub insert_space_before_closing_paren_in_try: Option<Insert>,
    /// `insert_space_before_closing_paren_in_while`.
    pub insert_space_before_closing_paren_in_while: Option<Insert>,
    /// `insert_space_before_colon_in_assert`.
    pub insert_space_before_colon_in_assert: Option<Insert>,
    /// `insert_space_before_colon_in_case`.
    pub insert_space_before_colon_in_case: Option<Insert>,
    /// `insert_space_before_colon_in_conditional`.
    pub insert_space_before_colon_in_conditional: Option<Insert>,
    /// `insert_space_before_colon_in_default`.
    pub insert_space_before_colon_in_default: Option<Insert>,
    /// `insert_space_before_colon_in_for`.
    pub insert_space_before_colon_in_for: Option<Insert>,
    /// `insert_space_before_colon_in_labeled_statement`.
    pub insert_space_before_colon_in_labeled_statement: Option<Insert>,
    /// `insert_space_before_comma_in_allocation_expression`.
    pub insert_space_before_comma_in_allocation_expression: Option<Insert>,
    /// `insert_space_before_comma_in_annotation`.
    pub insert_space_before_comma_in_annotation: Option<Insert>,
    /// `insert_space_before_comma_in_array_initializer`.
    pub insert_space_before_comma_in_array_initializer: Option<Insert>,
    /// `insert_space_before_comma_in_constructor_declaration_parameters`.
    pub insert_space_before_comma_in_constructor_declaration_parameters: Option<Insert>,
    /// `insert_space_before_comma_in_constructor_declaration_throws`.
    pub insert_space_before_comma_in_constructor_declaration_throws: Option<Insert>,
    /// `insert_space_before_comma_in_enum_constant_arguments`.
    pub insert_space_before_comma_in_enum_constant_arguments: Option<Insert>,
    /// `insert_space_before_comma_in_enum_declarations`.
    pub insert_space_before_comma_in_enum_declarations: Option<Insert>,
    /// `insert_space_before_comma_in_explicitconstructorcall_arguments`.
    pub insert_space_before_comma_in_explicitconstructorcall_arguments: Option<Insert>,
    /// `insert_space_before_comma_in_for_increments`.
    pub insert_space_before_comma_in_for_increments: Option<Insert>,
    /// `insert_space_before_comma_in_for_inits`.
    pub insert_space_before_comma_in_for_inits: Option<Insert>,
    /// `insert_space_before_comma_in_method_declaration_parameters`.
    pub insert_space_before_comma_in_method_declaration_parameters: Option<Insert>,
    /// `insert_space_before_comma_in_method_declaration_throws`.
    pub insert_space_before_comma_in_method_declaration_throws: Option<Insert>,
    /// `insert_space_before_comma_in_method_invocation_arguments`.
    pub insert_space_before_comma_in_method_invocation_arguments: Option<Insert>,
    /// `insert_space_before_comma_in_multiple_field_declarations`.
    pub insert_space_before_comma_in_multiple_field_declarations: Option<Insert>,
    /// `insert_space_before_comma_in_multiple_local_declarations`.
    pub insert_space_before_comma_in_multiple_local_declarations: Option<Insert>,
    /// `insert_space_before_comma_in_parameterized_type_reference`.
    pub insert_space_before_comma_in_parameterized_type_reference: Option<Insert>,
    /// `insert_space_before_comma_in_permitted_types`.
    pub insert_space_before_comma_in_permitted_types: Option<Insert>,
    /// `insert_space_before_comma_in_record_components`.
    pub insert_space_before_comma_in_record_components: Option<Insert>,
    /// `insert_space_before_comma_in_superinterfaces`.
    pub insert_space_before_comma_in_superinterfaces: Option<Insert>,
    /// `insert_space_before_comma_in_switch_case_expressions`.
    pub insert_space_before_comma_in_switch_case_expressions: Option<Insert>,
    /// `insert_space_before_comma_in_type_arguments`.
    pub insert_space_before_comma_in_type_arguments: Option<Insert>,
    /// `insert_space_before_comma_in_type_parameters`.
    pub insert_space_before_comma_in_type_parameters: Option<Insert>,
    /// `insert_space_before_ellipsis`.
    pub insert_space_before_ellipsis: Option<Insert>,
    /// `insert_space_before_lambda_arrow`.
    pub insert_space_before_lambda_arrow: Option<Insert>,
    /// `insert_space_before_logical_operator`.
    pub insert_space_before_logical_operator: Option<Insert>,
    /// `insert_space_before_multiplicative_operator`.
    pub insert_space_before_multiplicative_operator: Option<Insert>,
    /// `insert_space_before_opening_angle_bracket_in_parameterized_type_reference`.
    pub insert_space_before_opening_angle_bracket_in_parameterized_type_reference: Option<Insert>,
    /// `insert_space_before_opening_angle_bracket_in_type_arguments`.
    pub insert_space_before_opening_angle_bracket_in_type_arguments: Option<Insert>,
    /// `insert_space_before_opening_angle_bracket_in_type_parameters`.
    pub insert_space_before_opening_angle_bracket_in_type_parameters: Option<Insert>,
    /// `insert_space_before_opening_brace_in_annotation_type_declaration`.
    pub insert_space_before_opening_brace_in_annotation_type_declaration: Option<Insert>,
    /// `insert_space_before_opening_brace_in_anonymous_type_declaration`.
    pub insert_space_before_opening_brace_in_anonymous_type_declaration: Option<Insert>,
    /// `insert_space_before_opening_brace_in_array_initializer`.
    pub insert_space_before_opening_brace_in_array_initializer: Option<Insert>,
    /// `insert_space_before_opening_brace_in_block`.
    pub insert_space_before_opening_brace_in_block: Option<Insert>,
    /// `insert_space_before_opening_brace_in_constructor_declaration`.
    pub insert_space_before_opening_brace_in_constructor_declaration: Option<Insert>,
    /// `insert_space_before_opening_brace_in_enum_constant`.
    pub insert_space_before_opening_brace_in_enum_constant: Option<Insert>,
    /// `insert_space_before_opening_brace_in_enum_declaration`.
    pub insert_space_before_opening_brace_in_enum_declaration: Option<Insert>,
    /// `insert_space_before_opening_brace_in_method_declaration`.
    pub insert_space_before_opening_brace_in_method_declaration: Option<Insert>,
    /// `insert_space_before_opening_brace_in_record_constructor`.
    pub insert_space_before_opening_brace_in_record_constructor: Option<Insert>,
    /// `insert_space_before_opening_brace_in_record_declaration`.
    pub insert_space_before_opening_brace_in_record_declaration: Option<Insert>,
    /// `insert_space_before_opening_brace_in_switch`.
    pub insert_space_before_opening_brace_in_switch: Option<Insert>,
    /// `insert_space_before_opening_brace_in_type_declaration`.
    pub insert_space_before_opening_brace_in_type_declaration: Option<Insert>,
    /// `insert_space_before_opening_bracket_in_array_allocation_expression`.
    pub insert_space_before_opening_bracket_in_array_allocation_expression: Option<Insert>,
    /// `insert_space_before_opening_bracket_in_array_reference`.
    pub insert_space_before_opening_bracket_in_array_reference: Option<Insert>,
    /// `insert_space_before_opening_bracket_in_array_type_reference`.
    pub insert_space_before_opening_bracket_in_array_type_reference: Option<Insert>,
    /// `insert_space_before_opening_paren_in_annotation`.
    pub insert_space_before_opening_paren_in_annotation: Option<Insert>,
    /// `insert_space_before_opening_paren_in_annotation_type_member_declaration`.
    pub insert_space_before_opening_paren_in_annotation_type_member_declaration: Option<Insert>,
    /// `insert_space_before_opening_paren_in_catch`.
    pub insert_space_before_opening_paren_in_catch: Option<Insert>,
    /// `insert_space_before_opening_paren_in_constructor_declaration`.
    pub insert_space_before_opening_paren_in_constructor_declaration: Option<Insert>,
    /// `insert_space_before_opening_paren_in_enum_constant`.
    pub insert_space_before_opening_paren_in_enum_constant: Option<Insert>,
    /// `insert_space_before_opening_paren_in_for`.
    pub insert_space_before_opening_paren_in_for: Option<Insert>,
    /// `insert_space_before_opening_paren_in_if`.
    pub insert_space_before_opening_paren_in_if: Option<Insert>,
    /// `insert_space_before_opening_paren_in_method_declaration`.
    pub insert_space_before_opening_paren_in_method_declaration: Option<Insert>,
    /// `insert_space_before_opening_paren_in_method_invocation`.
    pub insert_space_before_opening_paren_in_method_invocation: Option<Insert>,
    /// `insert_space_before_opening_paren_in_parenthesized_expression`.
    pub insert_space_before_opening_paren_in_parenthesized_expression: Option<Insert>,
    /// `insert_space_before_opening_paren_in_record_declaration`.
    pub insert_space_before_opening_paren_in_record_declaration: Option<Insert>,
    /// `insert_space_before_opening_paren_in_switch`.
    pub insert_space_before_opening_paren_in_switch: Option<Insert>,
    /// `insert_space_before_opening_paren_in_synchronized`.
    pub insert_space_before_opening_paren_in_synchronized: Option<Insert>,
    /// `insert_space_before_opening_paren_in_try`.
    pub insert_space_before_opening_paren_in_try: Option<Insert>,
    /// `insert_space_before_opening_paren_in_while`.
    pub insert_space_before_opening_paren_in_while: Option<Insert>,
    /// `insert_space_before_parenthesized_expression_in_return`.
    pub insert_space_before_parenthesized_expression_in_return: Option<Insert>,
    /// `insert_space_before_parenthesized_expression_in_throw`.
    pub insert_space_before_parenthesized_expression_in_throw: Option<Insert>,
    /// `insert_space_before_postfix_operator`.
    pub insert_space_before_postfix_operator: Option<Insert>,
    /// `insert_space_before_prefix_operator`.
    pub insert_space_before_prefix_operator: Option<Insert>,
    /// `insert_space_before_question_in_conditional`.
    pub insert_space_before_question_in_conditional: Option<Insert>,
    /// `insert_space_before_question_in_wildcard`.
    pub insert_space_before_question_in_wildcard: Option<Insert>,
    /// `insert_space_before_relational_operator`.
    pub insert_space_before_relational_operator: Option<Insert>,
    /// `insert_space_before_semicolon`.
    pub insert_space_before_semicolon: Option<Insert>,
    /// `insert_space_before_semicolon_in_for`.
    pub insert_space_before_semicolon_in_for: Option<Insert>,
    /// `insert_space_before_semicolon_in_try_resources`.
    pub insert_space_before_semicolon_in_try_resources: Option<Insert>,
    /// `insert_space_before_shift_operator`.
    pub insert_space_before_shift_operator: Option<Insert>,
    /// `insert_space_before_string_concatenation`.
    pub insert_space_before_string_concatenation: Option<Insert>,
    /// `insert_space_before_unary_operator`.
    pub insert_space_before_unary_operator: Option<Insert>,
    /// `insert_space_between_brackets_in_array_type_reference`.
    pub insert_space_between_brackets_in_array_type_reference: Option<Insert>,
    /// `insert_space_between_empty_braces_in_array_initializer`.
    pub insert_space_between_empty_braces_in_array_initializer: Option<Insert>,
    /// `insert_space_between_empty_brackets_in_array_allocation_expression`.
    pub insert_space_between_empty_brackets_in_array_allocation_expression: Option<Insert>,
    /// `insert_space_between_empty_parens_in_annotation_type_member_declaration`.
    pub insert_space_between_empty_parens_in_annotation_type_member_declaration: Option<Insert>,
    /// `insert_space_between_empty_parens_in_constructor_declaration`.
    pub insert_space_between_empty_parens_in_constructor_declaration: Option<Insert>,
    /// `insert_space_between_empty_parens_in_enum_constant`.
    pub insert_space_between_empty_parens_in_enum_constant: Option<Insert>,
    /// `insert_space_between_empty_parens_in_method_declaration`.
    pub insert_space_between_empty_parens_in_method_declaration: Option<Insert>,
    /// `insert_space_between_empty_parens_in_method_invocation`.
    pub insert_space_between_empty_parens_in_method_invocation: Option<Insert>,
}

impl Spacing {
    /// Whether every field holds what the settings map gives its id.
    #[verifier::opaque]
    pub open spec fn reads(&self, m: Map<Seq<char>, Seq<char>>) -> bool {
        &&& self.insert_space_after_additive_operator == lookup_enum::<Insert>(m, "org.eclipse.jdt.core.formatter.insert_space_after_additive_operator"@)
        &&& self.insert_space_after_and_in_type_parameter == lookup_enum::<Insert>(m, "org.eclipse.jdt.core.formatter.insert_space_after_and_in_type_parameter"@)
        &&& self.insert_space_after_arrow_in_switch_case == lookup_enum::<Insert>(m, "org.eclipse.jdt.core.formatter.insert_space_after_arrow_in_switch_case"@)
        &&& self.insert_space_after_arrow_in_switch_default == lookup_enum::<Insert>(m, "org.eclipse.jdt.core.formatter.insert_space_after_arrow_in_switch_default"@)
        &&& self.insert_space_after_assignment_operator == lookup_enum::<Insert>(m, "org.eclipse.jdt.core.formatter.insert_space_after_assignment_operator"@)
        &&& self.insert_space_after_at_in_annotation == lookup_enum::<Insert>(m, "org.eclipse.jdt.core.formatter.insert_space_after_at_in_annotation"@)
        &&& self.insert_space_after_at_in_annotation_type_declaration == lookup_enum::<Insert>(m, "org.eclipse.jdt.core.formatter.insert_space_after_at_in_annotation_type_declaration"@)
        &&& self.insert_space_after_binary_operator == lookup_enum::<Insert>(m, "org.eclipse.jdt.core.formatter.insert_space_after_binary_operator"@)
        &&& self.insert_space_after_bitwise_operator == lookup_enum::<Insert>(m, "org.eclipse.jdt.core.formatter.insert_space_after_bitwise_operator"@)
        &&& self.insert_space_after_closing_angle_bracket_in_type_arguments == lookup_enum::<Insert>(m, "org.eclipse.jdt.core.formatter.insert_space_after_closing_angle_bracket_in_type_arguments"@)
        &&& self.insert_space_after_closing_angle_bracket_in_type_parameters == lookup_enum::<Insert>(m, "org.eclipse.jdt.core.formatter.insert_space_after_closing_angle_bracket_in_type_parameters"@)
        &&& self.insert_space_after_closing_brace_in_block == lookup_enum::<Insert>(m, "org.eclipse.jdt.core.formatter.insert_space_after_closing_brace_in_block"@)
        &&& self.insert_space_after_closing_paren_in_cast == lookup_enum::<Insert>(m, "org.eclipse.jdt.core.formatter.insert_space_after_closing_paren_in_cast"@)
        &&& self.insert_space_after_colon_in_assert == lookup_enum::<Insert>(m, "org.eclipse.jdt.core.formatter.insert_space_after_colon_in_assert"@)
        &&& self.insert_space_after_colon_in_case == lookup_enum::<Insert>(m, "org.eclipse.jdt.core.formatter.insert_space_after_colon_in_case"@)
        &&& self.insert_space_after_colon_in_conditional == lookup_enum::<Insert>(m, "org.eclipse.jdt.core.formatter.insert_space_after_colon_in_conditional"@)
        &&& self.insert_space_after_colon_in_for == lookup_enum::<Insert>(m, "org.eclipse.jdt.core.formatter.insert_space_after_colon_in_for"@)
        &&& self.insert_space_after_colon_in_labeled_statement == lookup_enum::<Insert>(m, "org.eclipse.jdt.core.formatter.insert_space_after_colon_in_labeled_statement"@)
        &&& self.insert_space_after_comma_in_allocation_expression == lookup_enum::<Insert>(m, "org.eclipse.jdt.core.formatter.insert_space_after_comma_in_allocation_expression"@)
        &&& self.insert_space_after_comma_in_annotation == lookup_enum::<Insert>(m, "org.eclipse.jdt.core.formatter.insert_space_after_comma_in_annotation"@)
        &&& self.insert_space_after_comma_in_array_initializer == lookup_enum::<Insert>(m, "org.eclipse.jdt.core.formatter.insert_space_after_comma_in_array_initializer"@)
        &&& self.insert_space_after_comma_in_constructor_declaration_parameters == lookup_enum::<Insert>(m, "org.eclipse.jdt.core.formatter.insert_space_after_comma_in_constructor_declaration_parameters"@)
        &&& self.insert_space_after_comma_in_constructor_declaration_throws == lookup_enum::<Insert>(m, "org.eclipse.jdt.core.formatter.insert_space_after_comma_in_constructor_declaration_throws"@)
        &&& self.insert_space_after_comma_in_enum_constant_arguments == lookup_enum::<Insert>(m, "org.eclipse.jdt.core.formatter.insert_space_after_comma_in_enum_constant_arguments"@)
        &&& self.insert_space_after_comma_in_enum_declarations == lookup_enum::<Insert>(m, "org.eclipse.jdt.core.formatter.insert_space_after_comma_in_enum_declarations"@)
        &&& self.insert_space_after_comma_in_explicitconstructorcall_arguments == lookup_enum::<Insert>(m, "org.eclipse.jdt.core.formatter.insert_space_after_comma_in_explicitconstructorcall_arguments"@)
        &&& self.insert_space_after_comma_in_for_increments == lookup_enum::<Insert>(m, "org.eclipse.jdt.core.formatter.insert_space_after_comma_in_for_increments"@)
        &&& self.insert_space_after_comma_in_for_inits == lookup_enum::<Insert>(m, "org.eclipse.jdt.core.formatter.insert_space_after_comma_in_for_inits"@)
        &&& self.insert_space_after_comma_in_method_declaration_parameters == lookup_enum::<Insert>(m, "org.eclipse.jdt.core.formatter.insert_space_after_comma_in_method_declaration_parameters"@)
        &&& self.insert_space_after_comma_in_method_declaration_throws == lookup_enum::<Insert>(m, "org.eclipse.jdt.core.formatter.insert_space_after_comma_in_method_declaration_throws"@)
        &&& self.insert_space_after_comma_in_method_invocation_arguments == lookup_enum::<Insert>(m, "org.eclipse.jdt.core.formatter.insert_space_after_comma_in_method_invocation_arguments"@)
        &&& self.insert_space_after_comma_in_multiple_field_declarations == lookup_enum::<Insert>(m, "org.eclipse.jdt.core.formatter.insert_space_after_comma_in_multiple_field_declarations"@)
        &&& self.insert_space_after_comma_in_multiple_local_declarations == lookup_enum::<Insert>(m, "org.eclipse.jdt.core.formatter.insert_space_after_comma_in_multiple_local_declarations"@)
        &&& self.insert_space_after_comma_in_parameterized_type_reference == lookup_enum::<Insert>(m, "org.eclipse.jdt.core.formatter.insert_space_after_comma_in_parameterized_type_reference"@)
        &&& self.insert_space_after_comma_in_permitted_types == lookup_enum::<Insert>(m, "org.eclipse.jdt.core.formatter.insert_space_after_comma_in_permitted_types"@)
        &&& self.insert_space_after_comma_in_record_components == lookup_enum::<Insert>(m, "org.eclipse.jdt.core.formatter.insert_space_after_comma_in_record_components"@)
        &&& self.insert_space_after_comma_in_superinterfaces == lookup_enum::<Insert>(m, "org.eclipse.jdt.core.formatter.insert_space_after_comma_in_superinterfaces"@)
        &&& self.insert_space_after_comma_in_switch_case_expressions == lookup_enum::<Insert>(m, "org.eclipse.jdt.core.formatter.insert_space_after_comma_in_switch_case_expressions"@)
        &&& self.insert_space_after_comma_in_type_arguments == lookup_enum::<Insert>(m, "org.eclipse.jdt.core.formatter.insert_space_after_comma_in_type_arguments"@)
        &&& self.insert_space_after_comma_in_type_parameters == lookup_enum::<Insert>(m, "org.eclipse.jdt.core.formatter.insert_space_after_comma_in_type_parameters"@)
        &&& self.insert_space_after_ellipsis == lookup_enum::<Insert>(m, "org.eclipse.jdt.core.formatter.insert_space_after_ellipsis"@)
        &&& self.insert_space_after_lambda_arrow == lookup_enum::<Insert>(m, "org.eclipse.jdt.core.formatter.insert_space_after_lambda_arrow"@)
        &&& self.insert_space_after_logical_operator == lookup_enum::<Insert>(m, "org.eclipse.jdt.core.formatter.insert_space_after_logical_operator"@)
        &&& self.insert_space_after_multiplicative_operator == lookup_enum::<Insert>(m, "org.eclipse.jdt.core.formatter.insert_space_after_multiplicative_operator"@)
        &&& self.insert_space_after_not_operator == lookup_enum::<Insert>(m, "org.eclipse.jdt.core.formatter.insert_space_after_not_operator"@)
        &&& self.insert_space_after_opening_angle_bracket_in_parameterized_type_reference == lookup_enum::<Insert>(m, "org.eclipse.jdt.core.formatter.insert_space_after_opening_angle_bracket_in_parameterized_type_reference"@)
        &&& self.insert_space_after_opening_angle_bracket_in_type_arguments == lookup_enum::<Insert>(m, "org.eclipse.jdt.core.formatter.insert_space_after_opening_angle_bracket_in_type_arguments"@)
        &&& self.insert_space_after_opening_angle_bracket_in_type_parameters == lookup_enum::<Insert>(m, "org.eclipse.jdt.core.formatter.insert_space_after_opening_angle_bracket_in_type_parameters"@)
        &&& self.insert_space_after_opening_brace_in_array_initializer == lookup_enum::<Insert>(m, "org.eclipse.jdt.core.formatter.insert_space_after_opening_brace_in_array_initializer"@)
        &&& self.insert_space_after_opening_bracket_in_array_allocation_expression == lookup_enum::<Insert>(m, "org.eclipse.jdt.core.formatter.insert_space_after_opening_bracket_in_array_allocation_expression"@)
        &&& self.insert_space_after_opening_bracket_in_array_reference == lookup_enum::<Insert>(m, "org.eclipse.jdt.core.formatter.insert_space_after_opening_bracket_in_array_reference"@)
        &&& self.insert_space_after_opening_paren_in_annotation == lookup_enum::<Insert>(m, "org.eclipse.jdt.core.formatter.insert_space_after_opening_paren_in_annotation"@)
        &&& self.insert_space_after_opening_paren_in_cast == lookup_enum::<Insert>(m, "org.eclipse.jdt.core.formatter.insert_space_after_opening_paren_in_cast"@)
        &&& self.insert_space_after_opening_paren_in_catch == lookup_enum::<Insert>(m, "org.eclipse.jdt.core.formatter.insert_space_after_opening_paren_in_catch"@)
        &&& self.insert_space_after_opening_paren_in_constructor_declaration == lookup_enum::<Insert>(m, "org.eclipse.jdt.core.formatter.insert_space_after_opening_paren_in_constructor_declaration"@)
        &&& self.insert_space_after_opening_paren_in_enum_constant == lookup_enum::<Insert>(m, "org.eclipse.jdt.core.formatter.insert_space_after_opening_paren_in_enum_constant"@)
        &&& self.insert_space_after_opening_paren_in_for == lookup_enum::<Insert>(m, "org.eclipse.jdt.core.formatter.insert_space_after_opening_paren_in_for"@)
        &&& self.insert_space_after_opening_paren_in_if == lookup_enum::<Insert>(m, "org.eclipse.jdt.core.formatter.insert_space_after_opening_paren_in_if"@)
        &&& self.insert_space_after_opening_paren_in_method_declaration == lookup_enum::<Insert>(m, "org.eclipse.jdt.core.formatter.insert_space_after_opening_paren_in_method_declaration"@)
        &&& self.insert_space_after_opening_paren_in_method_invocation == lookup_enum::<Insert>(m, "org.eclipse.jdt.core.formatter.insert_space_after_opening_paren_in_method_invocation"@)
        &&& self.insert_space_after_opening_paren_in_parenthesized_expression == lookup_enum::<Insert>(m, "org.eclipse.jdt.core.formatter.insert_space_after_opening_paren_in_parenthesized_expression"@)
        &&& self.insert_space_after_opening_paren_in_record_declaration == lookup_enum::<Insert>(m, "org.eclipse.jdt.core.formatter.insert_space_after_opening_paren_in_record_declaration"@)
        &&& self.insert_space_after_opening_paren_in_switch == lookup_enum::<Insert>(m, "org.eclipse.jdt.core.formatter.insert_space_after_opening_paren_in_switch"@)
        &&& self.insert_space_after_opening_paren_in_synchronized == lookup_enum::<Insert>(m, "org.eclipse.jdt.core.formatter.insert_space_after_opening_paren_in_synchronized"@)
        &&& self.insert_space_after_opening_paren_in_try == lookup_enum::<Insert>(m, "org.eclipse.jdt.core.formatter.insert_space_after_opening_paren_in_try"@)
        &&& self.insert_space_after_opening_paren_in_while == lookup_enum::<Insert>(m, "org.eclipse.jdt.core.formatter.insert_space_after_opening_paren_in_while"@)
        &&& self.insert_space_after_postfix_operator == lookup_enum::<Insert>(m, "org.eclipse.jdt.core.formatter.insert_space_after_postfix_operator"@)
        &&& self.insert_space_after_prefix_operator == lookup_enum::<Insert>(m, "org.eclipse.jdt.core.formatter.insert_space_after_prefix_operator"@)
        &&& self.insert_space_after_question_in_conditional == lookup_enum::<Insert>(m, "org.eclipse.jdt.core.formatter.insert_space_after_question_in_conditional"@)
        &&& self.insert_space_after_question_in_wildcard == lookup_enum::<Insert>(m, "org.eclipse.jdt.core.formatter.insert_space_after_question_in_wildcard"@)
        &&& self.insert_space_after_relational_operator == lookup_enum::<Insert>(m, "org.eclipse.jdt.core.formatter.insert_space_after_relational_operator"@)
        &&& self.insert_space_after_semicolon_in_for == lookup_enum::<Insert>(m, "org.eclipse.jdt.core.formatter.insert_space_after_semicolon_in_for"@)
        &&& self.insert_space_after_semicolon_in_try_resources == lookup_enum::<Insert>(m, "org.eclipse.jdt.core.formatter.insert_space_after_semicolon_in_try_resources"@)
        &&& self.insert_space_after_shift_operator == lookup_enum::<Insert>(m, "org.eclipse.jdt.core.formatter.insert_space_after_shift_operator"@)
        &&& self.insert_space_after_string_concatenation == lookup_enum::<Insert>(m, "org.eclipse.jdt.core.formatter.insert_space_after_string_concatenation"@)
        &&& self.insert_space_after_unary_operator == lookup_enum::<Insert>(m, "org.eclipse.jdt.core.formatter.insert_space_after_unary_operator"@)
        &&& self.insert_space_before_additive_operator == lookup_enum::<Insert>(m, "org.eclipse.jdt.core.formatter.insert_space_before_additive_operator"@)
        &&& self.insert_space_before_and_in_type_parameter == lookup_enum::<Insert>(m, "org.eclipse.jdt.core.formatter.insert_space_before_and_in_type_parameter"@)
        &&& self.insert_space_before_arrow_in_switch_case == lookup_enum::<Insert>(m, "org.eclipse.jdt.core.formatter.insert_space_before_arrow_in_switch_case"@)
        &&& self.insert_space_before_arrow_in_switch_default == lookup_enum::<Insert>(m, "org.eclipse.jdt.core.formatter.insert_space_before_arrow_in_switch_default"@)
        &&& self.insert_space_before_assignment_operator == lookup_enum::<Insert>(m, "org.eclipse.jdt.core.formatter.insert_space_before_assignment_operator"@)
        &&& self.insert_space_before_at_in_annotation_type_declaration == lookup_enum::<Insert>(m, "org.eclipse.jdt.core.formatter.insert_space_before_at_in_annotation_type_declaration"@)
        &&& self.insert_space_before_binary_operator == lookup_enum::<Insert>(m, "org.eclipse.jdt.core.formatter.insert_space_before_binary_operator"@)
        &&& self.insert_space_before_bitwise_operator == lookup_enum::<Insert>(m, "org.eclipse.jdt.core.formatter.insert_space_before_bitwise_operator"@)
        &&& self.insert_space_before_closing_angle_bracket_in_parameterized_type_reference == lookup_enum::<Insert>(m, "org.eclipse.jdt.core.formatter.insert_space_before_closing_angle_bracket_in_parameterized_type_reference"@)
        &&& self.insert_space_before_closing_angle_bracket_in_type_arguments == lookup_enum::<Insert>(m, "org.eclipse.jdt.core.formatter.insert_space_before_closing_angle_bracket_in_type_arguments"@)
        &&& self.insert_space_before_closing_angle_bracket_in_type_parameters == lookup_enum::<Insert>(m, "org.eclipse.jdt.core.formatter.insert_space_before_closing_angle_bracket_in_type_parameters"@)
        &&& self.insert_space_before_closing_brace_in_array_initializer == lookup_enum::<Insert>(m, "org.eclipse.jdt.core.formatter.insert_space_before_closing_brace_in_array_initializer"@)
        &&& self.insert_space_before_closing_bracket_in_array_allocation_expression == lookup_enum::<Insert>(m, "org.eclipse.jdt.core.formatter.insert_space_before_closing_bracket_in_array_allocation_expression"@)
        &&& self.insert_space_before_closing_bracket_in_array_reference == lookup_enum::<Insert>(m, "org.eclipse.jdt.core.formatter.insert_space_before_closing_bracket_in_array_reference"@)
        &&& self.insert_space_before_closing_paren_in_annotation == lookup_enum::<Insert>(m, "org.eclipse.jdt.core.formatter.insert_space_before_closing_paren_in_annotation"@)
        &&& self.insert_space_before_closing_paren_in_cast == lookup_enum::<Insert>(m, "org.eclipse.jdt.core.formatter.insert_space_before_closing_paren_in_cast"@)
        &&& self.insert_space_before_closing_paren_in_catch == lookup_enum::<Insert>(m, "org.eclipse.jdt.core.formatter.insert_space_before_closing_paren_in_catch"@)
        &&& self.insert_space_before_closing_paren_in_constructor_declaration == lookup_enum::<Insert>(m, "org.eclipse.jdt.core.formatter.insert_space_before_closing_paren_in_constructor_declaration"@)
        &&& self.insert_space_before_closing_paren_in_enum_constant == lookup_enum::<Insert>(m, "org.eclipse.jdt.core.formatter.insert_space_before_closing_paren_in_enum_constant"@)
        &&& self.insert_space_before_closing_paren_in_for == lookup_enum::<Insert>(m, "org.eclipse.jdt.core.formatter.insert_space_before_closing_paren_in_for"@)
        &&& self.insert_space_before_closing_paren_in_if == lookup_enum::<Insert>(m, "org.eclipse.jdt.core.formatter.insert_space_before_closing_paren_in_if"@)
        &&& self.insert_space_before_closing_paren_in_method_declaration == lookup_enum::<Insert>(m, "org.eclipse.jdt.core.formatter.insert_space_before_closing_paren_in_method_declaration"@)
        &&& self.insert_space_before_closing_paren_in_method_invocation == lookup_enum::<Insert>(m, "org.eclipse.jdt.core.formatter.insert_space_before_closing_paren_in_method_invocation"@)
        &&& self.insert_space_before_closing_paren_in_parenthesized_expression == lookup_enum::<Insert>(m, "org.eclipse.jdt.core.formatter.insert_space_before_closing_paren_in_parenthesized_expression"@)
        &&& self.insert_space_before_closing_paren_in_record_declaration == lookup_enum::<Insert>(m, "org.eclipse.jdt.core.formatter.insert_space_before_closing_paren_in_record_declaration"@)
        &&& self.insert_space_before_closing_paren_in_switch == lookup_enum::<Insert>(m, "org.eclipse.jdt.core.formatter.insert_space_before_closing_paren_in_switch"@)
        &&& self.insert_space_before_closing_paren_in_synchronized == lookup_enum::<Insert>(m, "org.eclipse.jdt.core.formatter.insert_space_before_closing_paren_in_synchronized"@)
        &&& self.insert_space_before_closing_paren_in_try == lookup_enum::<Insert>(m, "org.eclipse.jdt.core.formatter.insert_space_before_closing_paren_in_try"@)
        &&& self.insert_space_before_closing_paren_in_while == lookup_enum::<Insert>(m, "org.eclipse.jdt.core.formatter.insert_space_before_closing_paren_in_while"@)
        &&& self.insert_space_before_colon_in_assert == lookup_enum::<Insert>(m, "org.eclipse.jdt.core.formatter.insert_space_before_colon_in_assert"@)
        &&& self.insert_space_before_colon_in_case == lookup_enum::<Insert>(m, "org.eclipse.jdt.core.formatter.insert_space_before_colon_in_case"@)
        &&& self.insert_space_before_colon_in_conditional == lookup_enum::<Insert>(m, "org.eclipse.jdt.core.formatter.insert_space_before_colon_in_conditional"@)
        &&& self.insert_space_before_colon_in_default == lookup_enum::<Insert>(m, "org.eclipse.jdt.core.formatter.insert_space_before_colon_in_default"@)
        &&& self.insert_space_before_colon_in_for == lookup_enum::<Insert>(m, "org.eclipse.jdt.core.formatter.insert_space_before_colon_in_for"@)
        &&& self.insert_space_before_colon_in_labeled_statement == lookup_enum::<Insert>(m, "org.eclipse.jdt.core.formatter.insert_space_before_colon_in_labeled_statement"@)
        &&& self.insert_space_before_comma_in_allocation_expression == lookup_enum::<Insert>(m, "org.eclipse.jdt.core.formatter.insert_space_before_comma_in_allocation_expression"@)
        &&& self.insert_space_before_comma_in_annotation == lookup_enum::<Insert>(m, "org.eclipse.jdt.core.formatter.insert_space_before_comma_in_annotation"@)
        &&& self.insert_space_before_comma_in_array_initializer == lookup_enum::<Insert>(m, "org.eclipse.jdt.core.formatter.insert_space_before_comma_in_array_initializer"@)
        &&& self.insert_space_before_comma_in_constructor_declaration_parameters == lookup_enum::<Insert>(m, "org.eclipse.jdt.core.formatter.insert_space_before_comma_in_constructor_declaration_parameters"@)
        &&& self.insert_space_before_comma_in_constructor_declaration_throws == lookup_enum::<Insert>(m, "org.eclipse.jdt.core.formatter.insert_space_before_comma_in_constructor_declaration_throws"@)
        &&& self.insert_space_before_comma_in_enum_constant_arguments == lookup_enum::<Insert>(m, "org.eclipse.jdt.core.formatter.insert_space_before_comma_in_enum_constant_arguments"@)
        &&& self.insert_space_before_comma_in_enum_declarations == lookup_enum::<Insert>(m, "org.eclipse.jdt.core.formatter.insert_space_before_comma_in_enum_declarations"@)
        &&& self.insert_space_before_comma_in_explicitconstructorcall_arguments == lookup_enum::<Insert>(m, "org.eclipse.jdt.core.formatter.insert_space_before_comma_in_explicitconstructorcall_arguments"@)
        &&& self.insert_space_before_comma_in_for_increments == lookup_enum::<Insert>(m, "org.eclipse.jdt.core.formatter.insert_space_before_comma_in_for_increments"@)
        &&& self.insert_space_before_comma_in_for_inits == lookup_enum::<Insert>(m, "org.eclipse.jdt.core.formatter.insert_space_before_comma_in_for_inits"@)
        &&& self.insert_space_before_comma_in_method_declaration_parameters == lookup_enum::<Insert>(m, "org.eclipse.jdt.core.formatter.insert_space_before_comma_in_method_declaration_parameters"@)
        &&& self.insert_space_before_comma_in_method_declaration_throws == lookup_enum::<Insert>(m, "org.eclipse.jdt.core.formatter.insert_space_before_comma_in_method_declaration_throws"@)
        &&& self.insert_space_before_comma_in_method_invocation_arguments == lookup_enum::<Insert>(m, "org.eclipse.jdt.core.formatter.insert_space_before_comma_in_method_invocation_arguments"@)
        &&& self.insert_space_before_comma_in_multiple_field_declarations == lookup_enum::<Insert>(m, "org.eclipse.jdt.core.formatter.insert_space_before_comma_in_multiple_field_declarations"@)
        &&& self.insert_space_before_comma_in_multiple_local_declarations == lookup_enum::<Insert>(m, "org.eclipse.jdt.core.formatter.insert_space_before_comma_in_multiple_local_declarations"@)
        &&& self.insert_space_before_comma_in_parameterized_type_reference == lookup_enum::<Insert>(m, "org.eclipse.jdt.core.formatter.insert_space_before_comma_in_parameterized_type_reference"@)
        &&& self.insert_space_before_comma_in_permitted_types == lookup_enum::<Insert>(m, "org.eclipse.jdt.core.formatter.insert_space_before_comma_in_permitted_types"@)
        &&& self.insert_space_before_comma_in_record_components == lookup_enum::<Insert>(m, "org.eclipse.jdt.core.formatter.insert_space_before_comma_in_record_components"@)
        &&& self.insert_space_before_comma_in_superinterfaces == lookup_enum::<Insert>(m, "org.eclipse.jdt.core.formatter.insert_space_before_comma_in_superinterfaces"@)
        &&& self.insert_space_before_comma_in_switch_case_expressions == lookup_enum::<Insert>(m, "org.eclipse.jdt.core.formatter.insert_space_before_comma_in_switch_case_expressions"@)
        &&& self.insert_space_before_comma_in_type_arguments == lookup_enum::<Insert>(m, "org.eclipse.jdt.core.formatter.insert_space_before_comma_in_type_arguments"@)
        &&& self.insert_space_before_comma_in_type_parameters == lookup_enum::<Insert>(m, "org.eclipse.jdt.core.formatter.insert_space_before_comma_in_type_parameters"@)
        &&& self.insert_space_before_ellipsis == lookup_enum::<Insert>(m, "org.eclipse.jdt.core.formatter.insert_space_before_ellipsis"@)
        &&& self.insert_space_before_lambda_arrow == lookup_enum::<Insert>(m, "org.eclipse.jdt.core.formatter.insert_space_before_lambda_arrow"@)
        &&& self.insert_space_before_logical_operator == lookup_enum::<Insert>(m, "org.eclipse.jdt.core.formatter.insert_space_before_logical_operator"@)
        &&& self.insert_space_before_multiplicative_operator == lookup_enum::<Insert>(m, "org.eclipse.jdt.core.formatter.insert_space_before_multiplicative_operator"@)
        &&& self.insert_space_before_opening_angle_bracket_in_parameterized_type_reference == lookup_enum::<Insert>(m, "org.eclipse.jdt.core.formatter.insert_space_before_opening_angle_bracket_in_parameterized_type_reference"@)
        &&& self.insert_space_before_opening_angle_bracket_in_type_arguments == lookup_enum::<Insert>(m, "org.eclipse.jdt.core.formatter.insert_space_before_opening_angle_bracket_in_type_arguments"@)
        &&& self.insert_space_before_opening_angle_bracket_in_type_parameters == lookup_enum::<Insert>(m, "org.eclipse.jdt.core.formatter.insert_space_before_opening_angle_bracket_in_type_parameters"@)
        &&& self.insert_space_before_opening_brace_in_annotation_type_declaration == lookup_enum::<Insert>(m, "org.eclipse.jdt.core.formatter.insert_space_before_opening_brace_in_annotation_type_declaration"@)
        &&& self.insert_space_before_opening_brace_in_anonymous_type_declaration == lookup_enum::<Insert>(m, "org.eclipse.jdt.core.formatter.insert_space_before_opening_brace_in_anonymous_type_declaration"@)
        &&& self.insert_space_before_opening_brace_in_array_initializer == lookup_enum::<Insert>(m, "org.eclipse.jdt.core.formatter.insert_space_before_opening_brace_in_array_initializer"@)
        &&& self.insert_space_before_opening_brace_in_block == lookup_enum::<Insert>(m, "org.eclipse.jdt.core.formatter.insert_space_before_opening_brace_in_block"@)
        &&& self.insert_space_before_opening_brace_in_constructor_declaration == lookup_enum::<Insert>(m, "org.eclipse.jdt.core.formatter.insert_space_before_opening_brace_in_constructor_declaration"@)
        &&& self.insert_space_before_opening_brace_in_enum_constant == lookup_enum::<Insert>(m, "org.eclipse.jdt.core.formatter.insert_space_before_opening_brace_in_enum_constant"@)
        &&& self.insert_space_before_opening_brace_in_enum_declaration == lookup_enum::<Insert>(m, "org.eclipse.jdt.core.formatter.insert_space_before_opening_brace_in_enum_declaration"@)
        &&& self.insert_space_before_opening_brace_in_method_declaration == lookup_enum::<Insert>(m, "org.eclipse.jdt.core.formatter.insert_space_before_opening_brace_in_method_declaration"@)
        &&& self.insert_space_before_opening_brace_in_record_constructor == lookup_enum::<Insert>(m, "org.eclipse.jdt.core.formatter.insert_space_before_opening_brace_in_record_constructor"@)
        &&& self.insert_space_before_opening_brace_in_record_declaration == lookup_enum::<Insert>(m, "org.eclipse.jdt.core.formatter.insert_space_before_opening_brace_in_record_declaration"@)
        &&& self.insert_space_before_opening_brace_in_switch == lookup_enum::<Insert>(m, "org.eclipse.jdt.core.formatter.insert_space_before_opening_brace_in_switch"@)
        &&& self.insert_space_before_opening_brace_in_type_declaration == lookup_enum::<Insert>(m, "org.eclipse.jdt.core.formatter.insert_space_before_opening_brace_in_type_declaration"@)
        &&& self.insert_space_before_opening_bracket_in_array_allocation_expression == lookup_enum::<Insert>(m, "org.eclipse.jdt.core.formatter.insert_space_before_opening_bracket_in_array_allocation_expression"@)
        &&& self.insert_space_before_opening_bracket_in_array_reference == lookup_enum::<Insert>(m, "org.eclipse.jdt.core.formatter.insert_space_before_opening_bracket_in_array_reference"@)
        &&& self.insert_space_before_opening_bracket_in_array_type_reference == lookup_enum::<Insert>(m, "org.eclipse.jdt.core.formatter.insert_space_before_opening_bracket_in_array_type_reference"@)
        &&& self.insert_space_before_opening_paren_in_annotation == lookup_enum::<Insert>(m, "org.eclipse.jdt.core.formatter.insert_space_before_opening_paren_in_annotation"@)
        &&& self.insert_space_before_opening_paren_in_annotation_type_member_declaration == lookup_enum::<Insert>(m, "org.eclipse.jdt.core.formatter.insert_space_before_opening_paren_in_annotation_type_member_declaration"@)
        &&& self.insert_space_before_opening_paren_in_catch == lookup_enum::<Insert>(m, "org.eclipse.jdt.core.formatter.insert_space_before_opening_paren_in_catch"@)
        &&& self.insert_space_before_opening_paren_in_constructor_declaration == lookup_enum::<Insert>(m, "org.eclipse.jdt.core.formatter.insert_space_before_opening_paren_in_constructor_declaration"@)
        &&& self.insert_space_before_opening_paren_in_enum_constant == lookup_enum::<Insert>(m, "org.eclipse.jdt.core.formatter.insert_space_before_opening_paren_in_enum_constant"@)
        &&& self.insert_space_before_opening_paren_in_for == lookup_enum::<Insert>(m, "org.eclipse.jdt.core.formatter.insert_space_before_opening_paren_in_for"@)
        &&& self.insert_space_before_opening_paren_in_if == lookup_enum::<Insert>(m, "org.eclipse.jdt.core.formatter.insert_space_before_opening_paren_in_if"@)
        &&& self.insert_space_before_opening_paren_in_method_declaration == lookup_enum::<Insert>(m, "org.eclipse.jdt.core.formatter.insert_space_before_opening_paren_in_method_declaration"@)
        &&& self.insert_space_before_opening_paren_in_method_invocation == lookup_enum::<Insert>(m, "org.eclipse.jdt.core.formatter.insert_space_before_opening_paren_in_method_invocation"@)
        &&& self.insert_space_before_opening_paren_in_parenthesized_expression == lookup_enum::<Insert>(m, "org.eclipse.jdt.core.formatter.insert_space_before_opening_paren_in_parenthesized_expression"@)
        &&& self.insert_space_before_opening_paren_in_record_declaration == lookup_enum::<Insert>(m, "org.eclipse.jdt.core.formatter.insert_space_before_opening_paren_in_record_declaration"@)
        &&& self.insert_space_before_opening_paren_in_switch == lookup_enum::<Insert>(m, "org.eclipse.jdt.core.formatter.insert_space_before_opening_paren_in_switch"@)
        &&& self.insert_space_before_opening_paren_in_synchronized == lookup_enum::<Insert>(m, "org.eclipse.jdt.core.formatter.insert_space_before_opening_paren_in_synchronized"@)
        &&& self.insert_space_before_opening_paren_in_try == lookup_enum::<Insert>(m, "org.eclipse.jdt.core.formatter.insert_space_before_opening_paren_in_try"@)
        &&& self.insert_space_before_opening_paren_in_while == lookup_enum::<Insert>(m, "org.eclipse.jdt.core.formatter.insert_space_before_opening_paren_in_while"@)
        &&& self.insert_space_before_parenthesized_expression_in_return == lookup_enum::<Insert>(m, "org.eclipse.jdt.core.formatter.insert_space_before_parenthesized_expression_in_return"@)
        &&& self.insert_space_before_parenthesized_expression_in_throw == lookup_enum::<Insert>(m, "org.eclipse.jdt.core.formatter.insert_space_before_parenthesized_expression_in_throw"@)
        &&& self.insert_space_before_postfix_operator == lookup_enum::<Insert>(m, "org.eclipse.jdt.core.formatter.insert_space_before_postfix_operator"@)
        &&& self.insert_space_before_prefix_operator == lookup_enum::<Insert>(m, "org.eclipse.jdt.core.formatter.insert_space_before_prefix_operator"@)
        &&& self.insert_space_before_question_in_conditional == lookup_enum::<Insert>(m, "org.eclipse.jdt.core.formatter.insert_space_before_question_in_conditional"@)
        &&& self.insert_space_before_question_in_wildcard == lookup_enum::<Insert>(m, "org.eclipse.jdt.core.formatter.insert_space_before_question_in_wildcard"@)
        &&& self.insert_space_before_relational_operator == lookup_enum::<Insert>(m, "org.eclipse.jdt.core.formatter.insert_space_before_relational_operator"@)
        &&& self.insert_space_before_semicolon == lookup_enum::<Insert>(m, "org.eclipse.jdt.core.formatter.insert_space_before_semicolon"@)
        &&& self.insert_space_before_semicolon_in_for == lookup_enum::<Insert>(m, "org.eclipse.jdt.core.formatter.insert_space_before_semicolon_in_for"@)
        &&& self.insert_space_before_semicolon_in_try_resources == lookup_enum::<Insert>(m, "org.eclipse.jdt.core.formatter.insert_space_before_semicolon_in_try_resources"@)
        &&& self.insert_space_before_shift_operator == lookup_enum::<Insert>(m, "org.eclipse.jdt.core.formatter.insert_space_before_shift_operator"@)
        &&& self.insert_space_before_string_concatenation == lookup_enum::<Insert>(m, "org.eclipse.jdt.core.formatter.insert_space_before_string_concatenation"@)
        &&& self.insert_space_before_unary_operator == lookup_enum::<Insert>(m, "org.eclipse.jdt.core.formatter.insert_space_before_unary_operator"@)
        &&& self.insert_space_between_brackets_in_array_type_reference == lookup_enum::<Insert>(m, "org.eclipse.jdt.core.formatter.insert_space_between_brackets_in_array_type_reference"@)
        &&& self.insert_space_between_empty_braces_in_array_initializer == lookup_enum::<Insert>(m, "org.eclipse.jdt.core.formatter.insert_space_between_empty_braces_in_array_initializer"@)
        &&& self.insert_space_between_empty_brackets_in_array_allocation_expression == lookup_enum::<Insert>(m, "org.eclipse.jdt.core.formatter.insert_space_between_empty_brackets_in_array_allocation_expression"@)
        &&& self.insert_space_between_empty_parens_in_annotation_type_member_declaration == lookup_enum::<Insert>(m, "org.eclipse.jdt.core.formatter.insert_space_between_empty_parens_in_annotation_type_member_declaration"@)
        &&& self.insert_space_between_empty_parens_in_constructor_declaration == lookup_enum::<Insert>(m, "org.eclipse.jdt.core.formatter.insert_space_between_empty_parens_in_constructor_declaration"@)
        &&& self.insert_space_between_empty_parens_in_enum_constant == lookup_enum::<Insert>(m, "org.eclipse.jdt.core.formatter.insert_space_between_empty_parens_in_enum_constant"@)
        &&& self.insert_space_between_empty_parens_in_method_declaration == lookup_enum::<Insert>(m, "org.eclipse.jdt.core.formatter.insert_space_between_empty_parens_in_method_declaration"@)
        &&& self.insert_space_between_empty_parens_in_method_invocation == lookup_enum::<Insert>(m, "org.eclipse.jdt.core.formatter.insert_space_between_empty_parens_in_method_invocation"@)
    }

    /// Read every field from the flat settings map; an id the map lacks, or a value that
    /// does not parse, leaves the field unset.
    #[verifier::rlimit(60)]
    pub fn from_map(m: &KvMap) -> (r: Self)
        ensures
            r.reads(m@),
    {
        reveal(Spacing::reads);
        Spacing {
            insert_space_after_additive_operator: Kv::field_enum(m, "org.eclipse.jdt.core.formatter.insert_space_after_additive_operator"),
            insert_space_after_and_in_type_parameter: Kv::field_enum(m, "org.eclipse.jdt.core.formatter.insert_space_after_and_in_type_parameter"),
            insert_space_after_arrow_in_switch_case: Kv::field_enum(m, "org.eclipse.jdt.core.formatter.insert_space_after_arrow_in_switch_case"),
            insert_space_after_arrow_in_switch_default: Kv::field_enum(m, "org.eclipse.jdt.core.formatter.insert_space_after_arrow_in_switch_default"),
            insert_space_after_assignment_operator: Kv::field_enum(m, "org.eclipse.jdt.core.formatter.insert_space_after_assignment_operator"),
            insert_space_after_at_in_annotation: Kv::field_enum(m, "org.eclipse.jdt.core.formatter.insert_space_after_at_in_annotation"),
            insert_space_after_at_in_annotation_type_declaration: Kv::field_enum(m, "org.eclipse.jdt.core.formatter.insert_space_after_at_in_annotation_type_declaration"),
            insert_space_after_binary_operator: Kv::field_enum(m, "org.eclipse.jdt.core.formatter.insert_space_after_binary_operator"),
            insert_space_after_bitwise_operator: Kv::field_enum(m, "org.eclipse.jdt.core.formatter.insert_space_after_bitwise_operator"),
            insert_space_after_closing_angle_bracket_in_type_arguments: Kv::field_enum(m, "org.eclipse.jdt.core.formatter.insert_space_after_closing_angle_bracket_in_type_arguments"),
            insert_space_after_closing_angle_bracket_in_type_parameters: Kv::field_enum(m, "org.eclipse.jdt.core.formatter.insert_space_after_closing_angle_bracket_in_type_parameters"),
            insert_space_after_closing_brace_in_block: Kv::field_enum(m, "org.eclipse.jdt.core.formatter.insert_space_after_closing_brace_in_block"),
            insert_space_after_closing_paren_in_cast: Kv::field_enum(m, "org.eclipse.jdt.core.formatter.insert_space_after_closing_paren_in_cast"),
            insert_space_after_colon_in_assert: Kv::field_enum(m, "org.eclipse.jdt.core.formatter.insert_space_after_colon_in_assert"),
            insert_space_after_colon_in_case: Kv::field_enum(m, "org.eclipse.jdt.core.formatter.insert_space_after_colon_in_case"),
            insert_space_after_colon_in_conditional: Kv::field_enum(m, "org.eclipse.jdt.core.formatter.insert_space_after_colon_in_conditional"),
            insert_space_after_colon_in_for: Kv::field_enum(m, "org.eclipse.jdt.core.formatter.insert_space_after_colon_in_for"),
            insert_space_after_colon_in_labeled_statement: Kv::field_enum(m, "org.eclipse.jdt.core.formatter.insert_space_after_colon_in_labeled_statement"),
            insert_space_after_comma_in_allocation_expression: Kv::field_enum(m, "org.eclipse.jdt.core.formatter.insert_space_after_comma_in_allocation_expression"),
            insert_space_after_comma_in_annotation: Kv::field_enum(m, "org.eclipse.jdt.core.formatter.insert_space_after_comma_in_annotation"),
            insert_space_after_comma_in_array_initializer: Kv::field_enum(m, "org.eclipse.jdt.core.formatter.insert_space_after_comma_in_array_initializer"),
            insert_space_after_comma_in_constructor_declaration_parameters: Kv::field_enum(m, "org.eclipse.jdt.core.formatter.insert_space_after_comma_in_constructor_declaration_parameters"),
            insert_space_after_comma_in_constructor_declaration_throws: Kv::field_enum(m, "org.eclipse.jdt.core.formatter.insert_space_after_comma_in_constructor_declaration_throws"),
            insert_space_after_comma_in_enum_constant_arguments: Kv::field_enum(m, "org.eclipse.jdt.core.formatter.insert_space_after_comma_in_enum_constant_arguments"),
            insert_space_after_comma_in_enum_declarations: Kv::field_enum(m, "org.eclipse.jdt.core.formatter.insert_space_after_comma_in_enum_declarations"),
            insert_space_after_comma_in_explicitconstructorcall_arguments: Kv::field_enum(m, "org.eclipse.jdt.core.formatter.insert_space_after_comma_in_explicitconstructorcall_arguments"),
            insert_space_after_comma_in_for_increments: Kv::field_enum(m, "org.eclipse.jdt.core.formatter.insert_space_after_comma_in_for_increments"),
            insert_space_after_comma_in_for_inits: Kv::field_enum(m, "org.eclipse.jdt.core.formatter.insert_space_after_comma_in_for_inits"),
            insert_space_after_comma_in_method_declaration_parameters: Kv::field_enum(m, "org.eclipse.jdt.core.formatter.insert_space_after_comma_in_method_declaration_parameters"),
            insert_space_after_comma_in_method_declaration_throws: Kv::field_enum(m, "org.eclipse.jdt.core.formatter.insert_space_after_comma_in_method_declaration_throws"),
            insert_space_after_comma_in_method_invocation_arguments: Kv::field_enum(m, "org.eclipse.jdt.core.formatter.insert_space_after_comma_in_method_invocation_arguments"),
            insert_space_after_comma_in_multiple_field_declarations: Kv::field_enum(m, "org.eclipse.jdt.core.formatter.insert_space_after_comma_in_multiple_field_declarations"),
            insert_space_after_comma_in_multiple_local_declarations: Kv::field_enum(m, "org.eclipse.jdt.core.formatter.insert_space_after_comma_in_multiple_local_declarations"),
            insert_space_after_comma_in_parameterized_type_reference: Kv::field_enum(m, "org.eclipse.jdt.core.formatter.insert_space_after_comma_in_parameterized_type_reference"),
            insert_space_after_comma_in_permitted_types: Kv::field_enum(m, "org.eclipse.jdt.core.formatter.insert_space_after_comma_in_permitted_types"),
            insert_space_after_comma_in_record_components: Kv::field_enum(m, "org.eclipse.jdt.core.formatter.insert_space_after_comma_in_record_components"),
            insert_space_after_comma_in_superinterfaces: Kv::field_enum(m, "org.eclipse.jdt.core.formatter.insert_space_after_comma_in_superinterfaces"),
            insert_space_after_comma_in_switch_case_expressions: Kv::field_enum(m, "org.eclipse.jdt.core.formatter.insert_space_after_comma_in_switch_case_expressions"),
            insert_space_after_comma_in_type_arguments: Kv::field_enum(m, "org.eclipse.jdt.core.formatter.insert_space_after_comma_in_type_arguments"),
            insert_space_after_comma_in_type_parameters: Kv::field_enum(m, "org.eclipse.jdt.core.formatter.insert_space_after_comma_in_type_parameters"),
            insert_space_after_ellipsis: Kv::field_enum(m, "org.eclipse.jdt.core.formatter.insert_space_after_ellipsis"),
            insert_space_after_lambda_arrow: Kv::field_enum(m, "org.eclipse.jdt.core.formatter.insert_space_after_lambda_arrow"),
            insert_space_after_logical_operator: Kv::field_enum(m, "org.eclipse.jdt.core.formatter.insert_space_after_logical_operator"),
            insert_space_after_multiplicative_operator: Kv::field_enum(m, "org.eclipse.jdt.core.formatter.insert_space_after_multiplicative_operator"),
            insert_space_after_not_operator: Kv::field_enum(m, "org.eclipse.jdt.core.formatter.insert_space_after_not_operator"),
            insert_space_after_opening_angle_bracket_in_parameterized_type_reference: Kv::field_enum(m, "org.eclipse.jdt.core.formatter.insert_space_after_opening_angle_bracket_in_parameterized_type_reference"),
            insert_space_after_opening_angle_bracket_in_type_arguments: Kv::field_enum(m, "org.eclipse.jdt.core.formatter.insert_space_after_opening_angle_bracket_in_type_arguments"),
            insert_space_after_opening_angle_bracket_in_type_parameters: Kv::field_enum(m, "org.eclipse.jdt.core.formatter.insert_space_after_opening_angle_bracket_in_type_parameters"),
            insert_space_after_opening_brace_in_array_initializer: Kv::field_enum(m, "org.eclipse.jdt.core.formatter.insert_space_after_opening_brace_in_array_initializer"),
            insert_space_after_opening_bracket_in_array_allocation_expression: Kv::field_enum(m, "org.eclipse.jdt.core.formatter.insert_space_after_opening_bracket_in_array_allocation_expression"),
            insert_space_after_opening_bracket_in_array_reference: Kv::field_enum(m, "org.eclipse.jdt.core.formatter.insert_space_after_opening_bracket_in_array_reference"),
            insert_space_after_opening_paren_in_annotation: Kv::field_enum(m, "org.eclipse.jdt.core.formatter.insert_space_after_opening_paren_in_annotation"),
            insert_space_after_opening_paren_in_cast: Kv::field_enum(m, "org.eclipse.jdt.core.formatter.insert_space_after_opening_paren_in_cast"),
            insert_space_after_opening_paren_in_catch: Kv::field_enum(m, "org.eclipse.jdt.core.formatter.insert_space_after_opening_paren_in_catch"),
            insert_space_after_opening_paren_in_constructor_declaration: Kv::field_enum(m, "org.eclipse.jdt.core.formatter.insert_space_after_opening_paren_in_constructor_declaration"),
            insert_space_after_opening_paren_in_enum_constant: Kv::field_enum(m, "org.eclipse.jdt.core.formatter.insert_space_after_opening_paren_in_enum_constant"),
            insert_space_after_opening_paren_in_for: Kv::field_enum(m, "org.eclipse.jdt.core.formatter.insert_space_after_opening_paren_in_for"),
            insert_space_after_opening_paren_in_if: Kv::field_enum(m, "org.eclipse.jdt.core.formatter.insert_space_after_opening_paren_in_if"),
            insert_space_after_opening_paren_in_method_declaration: Kv::field_enum(m, "org.eclipse.jdt.core.formatter.insert_space_after_opening_paren_in_method_declaration"),
            insert_space_after_opening_paren_in_method_invocation: Kv::field_enum(m, "org.eclipse.jdt.core.formatter.insert_space_after_opening_paren_in_method_invocation"),
            insert_space_after_opening_paren_in_parenthesized_expression: Kv::field_enum(m, "org.eclipse.jdt.core.formatter.insert_space_after_opening_paren_in_parenthesized_expression"),
            insert_space_after_opening_paren_in_record_declaration: Kv::field_enum(m, "org.eclipse.jdt.core.formatter.insert_space_after_opening_paren_in_record_declaration"),
            insert_space_after_opening_paren_in_switch: Kv::field_enum(m, "org.eclipse.jdt.core.formatter.insert_space_after_opening_paren_in_switch"),
            insert_space_after_opening_paren_in_synchronized: Kv::field_enum(m, "org.eclipse.jdt.core.formatter.insert_space_after_opening_paren_in_synchronized"),
            insert_space_after_opening_paren_in_try: Kv::field_enum(m, "org.eclipse.jdt.core.formatter.insert_space_after_opening_paren_in_try"),
            insert_space_after_opening_paren_in_while: Kv::field_enum(m, "org.eclipse.jdt.core.formatter.insert_space_after_opening_paren_in_while"),
            insert_space_after_postfix_operator: Kv::field_enum(m, "org.eclipse.jdt.core.formatter.insert_space_after_postfix_operator"),
            insert_space_after_prefix_operator: Kv::field_enum(m, "org.eclipse.jdt.core.formatter.insert_space_after_prefix_operator"),
            insert_space_after_question_in_conditional: Kv::field_enum(m, "org.eclipse.jdt.core.formatter.insert_space_after_question_in_conditional"),
            insert_space_after_question_in_wildcard: Kv::field_enum(m, "org.eclipse.jdt.core.formatter.insert_space_after_question_in_wildcard"),
            insert_space_after_relational_operator: Kv::field_enum(m, "org.eclipse.jdt.core.formatter.insert_space_after_relational_operator"),
            insert_space_after_semicolon_in_for: Kv::field_enum(m, "org.eclipse.jdt.core.formatter.insert_space_after_semicolon_in_for"),
            insert_space_after_semicolon_in_try_resources: Kv::field_enum(m, "org.eclipse.jdt.core.formatter.insert_space_after_semicolon_in_try_resources"),
            insert_space_after_shift_operator: Kv::field_enum(m, "org.eclipse.jdt.core.formatter.insert_space_after_shift_operator"),
            insert_space_after_string_concatenation: Kv::field_enum(m, "org.eclipse.jdt.core.formatter.insert_space_after_string_concatenation"),
            insert_space_after_unary_operator: Kv::field_enum(m, "org.eclipse.jdt.core.formatter.insert_space_after_unary_operator"),
            insert_space_before_additive_operator: Kv::field_enum(m, "org.eclipse.jdt.core.formatter.insert_space_before_additive_operator"),
            insert_space_before_and_in_type_parameter: Kv::field_enum(m, "org.eclipse.jdt.core.formatter.insert_space_before_and_in_type_parameter"),
            insert_space_before_arrow_in_switch_case: Kv::field_enum(m, "org.eclipse.jdt.core.formatter.insert_space_before_arrow_in_switch_case"),
            insert_space_before_arrow_in_switch_default: Kv::field_enum(m, "org.eclipse.jdt.core.formatter.insert_space_before_arrow_in_switch_default"),
            insert_space_before_assignment_operator: Kv::field_enum(m, "org.eclipse.jdt.core.formatter.insert_space_before_assignment_operator"),
            insert_space_before_at_in_annotation_type_declaration: Kv::field_enum(m, "org.eclipse.jdt.core.formatter.insert_space_before_at_in_annotation_type_declaration"),
            insert_space_before_binary_operator: Kv::field_enum(m, "org.eclipse.jdt.core.formatter.insert_space_before_binary_operator"),
            insert_space_before_bitwise_operator: Kv::field_enum(m, "org.eclipse.jdt.core.formatter.insert_space_before_bitwise_operator"),
            insert_space_before_closing_angle_bracket_in_parameterized_type_reference: Kv::field_enum(m, "org.eclipse.jdt.core.formatter.insert_space_before_closing_angle_bracket_in_parameterized_type_reference"),
            insert_space_before_closing_angle_bracket_in_type_arguments: Kv::field_enum(m, "org.eclipse.jdt.core.formatter.insert_space_before_closing_angle_bracket_in_type_arguments"),
            insert_space_before_closing_angle_bracket_in_type_parameters: Kv::field_enum(m, "org.eclipse.jdt.core.formatter.insert_space_before_closing_angle_bracket_in_type_parameters"),
            insert_space_before_closing_brace_in_array_initializer: Kv::field_enum(m, "org.eclipse.jdt.core.formatter.insert_space_before_closing_brace_in_array_initializer"),
            insert_space_before_closing_bracket_in_array_allocation_expression: Kv::field_enum(m, "org.eclipse.jdt.core.formatter.insert_space_before_closing_bracket_in_array_allocation_expression"),
            insert_space_before_closing_bracket_in_array_reference: Kv::field_enum(m, "org.eclipse.jdt.core.formatter.insert_space_before_closing_bracket_in_array_reference"),
            insert_space_before_closing_paren_in_annotation: Kv::field_enum(m, "org.eclipse.jdt.core.formatter.insert_space_before_closing_paren_in_annotation"),
            insert_space_before_closing_paren_in_cast: Kv::field_enum(m, "org.eclipse.jdt.core.formatter.insert_space_before_closing_paren_in_cast"),
            insert_space_before_closing_paren_in_catch: Kv::field_enum(m, "org.eclipse.jdt.core.formatter.insert_space_before_closing_paren_in_catch"),
            insert_space_before_closing_paren_in_constructor_declaration: Kv::field_enum(m, "org.eclipse.jdt.core.formatter.insert_space_before_closing_paren_in_constructor_declaration"),
            insert_space_before_closing_paren_in_enum_constant: Kv::field_enum(m, "org.eclipse.jdt.core.formatter.insert_space_before_closing_paren_in_enum_constant"),
            insert_space_before_closing_paren_in_for: Kv::field_enum(m, "org.eclipse.jdt.core.formatter.insert_space_before_closing_paren_in_for"),
            insert_space_before_closing_paren_in_if: Kv::field_enum(m, "org.eclipse.jdt.core.formatter.insert_space_before_closing_paren_in_if"),
            insert_space_before_closing_paren_in_method_declaration: Kv::field_enum(m, "org.eclipse.jdt.core.formatter.insert_space_before_closing_paren_in_method_declaration"),
            insert_space_before_closing_paren_in_method_invocation: Kv::field_enum(m, "org.eclipse.jdt.core.formatter.insert_space_before_closing_paren_in_method_invocation"),
            insert_space_before_closing_paren_in_parenthesized_expression: Kv::field_enum(m, "org.eclipse.jdt.core.formatter.insert_space_before_closing_paren_in_parenthesized_expression"),
            insert_space_before_closing_paren_in_record_declaration: Kv::field_enum(m, "org.eclipse.jdt.core.formatter.insert_space_before_closing_paren_in_record_declaration"),
            insert_space_before_closing_paren_in_switch: Kv::field_enum(m, "org.eclipse.jdt.core.formatter.insert_space_before_closing_paren_in_switch"),
            insert_space_before_closing_paren_in_synchronized: Kv::field_enum(m, "org.eclipse.jdt.core.formatter.insert_space_before_closing_paren_in_synchronized"),
            insert_space_before_closing_paren_in_try: Kv::field_enum(m, "org.eclipse.jdt.core.formatter.insert_space_before_closing_paren_in_try"),
            insert_space_before_closing_paren_in_while: Kv::field_enum(m, "org.eclipse.jdt.core.formatter.insert_space_before_closing_paren_in_while"),
            insert_space_before_colon_in_assert: Kv::field_enum(m, "org.eclipse.jdt.core.formatter.insert_space_before_colon_in_assert"),
            insert_space_before_colon_in_case: Kv::field_enum(m, "org.eclipse.jdt.core.formatter.insert_space_before_colon_in_case"),
            insert_space_before_colon_in_conditional: Kv::field_enum(m, "org.eclipse.jdt.core.formatter.insert_space_before_colon_in_conditional"),
            insert_space_before_colon_in_default: Kv::field_enum(m, "org.eclipse.jdt.core.formatter.insert_space_before_colon_in_default"),
            insert_space_before_colon_in_for: Kv::field_enum(m, "org.eclipse.jdt.core.formatter.insert_space_before_colon_in_for"),
            insert_space_before_colon_in_labeled_statement: Kv::field_enum(m, "org.eclipse.jdt.core.formatter.insert_space_before_colon_in_labeled_statement"),
            insert_space_before_comma_in_allocation_expression: Kv::field_enum(m, "org.eclipse.jdt.core.formatter.insert_space_before_comma_in_allocation_expression"),
            insert_space_before_comma_in_annotation: Kv::field_enum(m, "org.eclipse.jdt.core.formatter.insert_space_before_comma_in_annotation"),
            insert_space_before_comma_in_array_initializer: Kv::field_enum(m, "org.eclipse.jdt.core.formatter.insert_space_before_comma_in_array_initializer"),
            insert_space_before_comma_in_constructor_declaration_parameters: Kv::field_enum(m, "org.eclipse.jdt.core.formatter.insert_space_before_comma_in_constructor_declaration_parameters"),
            insert_space_before_comma_in_constructor_declaration_throws: Kv::field_enum(m, "org.eclipse.jdt.core.formatter.insert_space_before_comma_in_constructor_declaration_throws"),
            insert_space_before_comma_in_enum_constant_arguments: Kv::field_enum(m, "org.eclipse.jdt.core.formatter.insert_space_before_comma_in_enum_constant_arguments"),
            insert_space_before_comma_in_enum_declarations: Kv::field_enum(m, "org.eclipse.jdt.core.formatter.insert_space_before_comma_in_enum_declarations"),
            insert_space_before_comma_in_explicitconstructorcall_arguments: Kv::field_enum(m, "org.eclipse.jdt.core.formatter.insert_space_before_comma_in_explicitconstructorcall_arguments"),
            insert_space_before_comma_in_for_increments: Kv::field_enum(m, "org.eclipse.jdt.core.formatter.insert_space_before_comma_in_for_increments"),
            insert_space_before_comma_in_for_inits: Kv::field_enum(m, "org.eclipse.jdt.core.formatter.insert_space_before_comma_in_for_inits"),
            insert_space_before_comma_in_method_declaration_parameters: Kv::field_enum(m, "org.eclipse.jdt.core.formatter.insert_space_before_comma_in_method_declaration_parameters"),
            insert_space_before_comma_in_method_declaration_throws: Kv::field_enum(m, "org.eclipse.jdt.core.formatter.insert_space_before_comma_in_method_declaration_throws"),
            insert_space_before_comma_in_method_invocation_arguments: Kv::field_enum(m, "org.eclipse.jdt.core.formatter.insert_space_before_comma_in_method_invocation_arguments"),
            insert_space_before_comma_in_multiple_field_declarations: Kv::field_enum(m, "org.eclipse.jdt.core.formatter.insert_space_before_comma_in_multiple_field_declarations"),
            insert_space_before_comma_in_multiple_local_declarations: Kv::field_enum(m, "org.eclipse.jdt.core.formatter.insert_space_before_comma_in_multiple_local_declarations"),
            insert_space_before_comma_in_parameterized_type_reference: Kv::field_enum(m, "org.eclipse.jdt.core.formatter.insert_space_before_comma_in_parameterized_type_reference"),
            insert_space_before_comma_in_permitted_types: Kv::field_enum(m, "org.eclipse.jdt.core.formatter.insert_space_before_comma_in_permitted_types"),
            insert_space_before_comma_in_record_components: Kv::field_enum(m, "org.eclipse.jdt.core.formatter.insert_space_before_comma_in_record_components"),
            insert_space_before_comma_in_superinterfaces: Kv::field_enum(m, "org.eclipse.jdt.core.formatter.insert_space_before_comma_in_superinterfaces"),
            insert_space_before_comma_in_switch_case_expressions: Kv::field_enum(m, "org.eclipse.jdt.core.formatter.insert_space_before_comma_in_switch_case_expressions"),
            insert_space_before_comma_in_type_arguments: Kv::field_enum(m, "org.eclipse.jdt.core.formatter.insert_space_before_comma_in_type_arguments"),
            insert_space_before_comma_in_type_parameters: Kv::field_enum(m, "org.eclipse.jdt.core.formatter.insert_space_before_comma_in_type_parameters"),
            insert_space_before_ellipsis: Kv::field_enum(m, "org.eclipse.jdt.core.formatter.insert_space_before_ellipsis"),
            insert_space_before_lambda_arrow: Kv::field_enum(m, "org.eclipse.jdt.core.formatter.insert_space_before_lambda_arrow"),
            insert_space_before_logical_operator: Kv::field_enum(m, "org.eclipse.jdt.core.formatter.insert_space_before_logical_operator"),
            insert_space_before_multiplicative_operator: Kv::field_enum(m, "org.eclipse.jdt.core.formatter.insert_space_before_multiplicative_operator"),
            insert_space_before_opening_angle_bracket_in_parameterized_type_reference: Kv::field_enum(m, "org.eclipse.jdt.core.formatter.insert_space_before_opening_angle_bracket_in_parameterized_type_reference"),
            insert_space_before_opening_angle_bracket_in_type_arguments: Kv::field_enum(m, "org.eclipse.jdt.core.formatter.insert_space_before_opening_angle_bracket_in_type_arguments"),
            insert_space_before_opening_angle_bracket_in_type_parameters: Kv::field_enum(m, "org.eclipse.jdt.core.formatter.insert_space_before_opening_angle_bracket_in_type_parameters"),
            insert_space_before_opening_brace_in_annotation_type_declaration: Kv::field_enum(m, "org.eclipse.jdt.core.formatter.insert_space_before_opening_brace_in_annotation_type_declaration"),
            insert_space_before_opening_brace_in_anonymous_type_declaration: Kv::field_enum(m, "org.eclipse.jdt.core.formatter.insert_space_before_opening_brace_in_anonymous_type_declaration"),
            insert_space_before_opening_brace_in_array_initializer: Kv::field_enum(m, "org.eclipse.jdt.core.formatter.insert_space_before_opening_brace_in_array_initializer"),
            insert_space_before_opening_brace_in_block: Kv::field_enum(m, "org.eclipse.jdt.core.formatter.insert_space_before_opening_brace_in_block"),
            insert_space_before_opening_brace_in_constructor_declaration: Kv::field_enum(m, "org.eclipse.jdt.core.formatter.insert_space_before_opening_brace_in_constructor_declaration"),
            insert_space_before_opening_brace_in_enum_constant: Kv::field_enum(m, "org.eclipse.jdt.core.formatter.insert_space_before_opening_brace_in_enum_constant"),
            insert_space_before_opening_brace_in_enum_declaration: Kv::field_enum(m, "org.eclipse.jdt.core.formatter.insert_space_before_opening_brace_in_enum_declaration"),
            insert_space_before_opening_brace_in_method_declaration: Kv::field_enum(m, "org.eclipse.jdt.core.formatter.insert_space_before_opening_brace_in_method_declaration"),
            insert_space_before_opening_brace_in_record_constructor: Kv::field_enum(m, "org.eclipse.jdt.core.formatter.insert_space_before_opening_brace_in_record_constructor"),
            insert_space_before_opening_brace_in_record_declaration: Kv::field_enum(m, "org.eclipse.jdt.core.formatter.insert_space_before_opening_brace_in_record_declaration"),
            insert_space_before_opening_brace_in_switch: Kv::field_enum(m, "org.eclipse.jdt.core.formatter.insert_space_before_opening_brace_in_switch"),
            insert_space_before_opening_brace_in_type_declaration: Kv::field_enum(m, "org.eclipse.jdt.core.formatter.insert_space_before_opening_brace_in_type_declaration"),
            insert_space_before_opening_bracket_in_array_allocation_expression: Kv::field_enum(m, "org.eclipse.jdt.core.formatter.insert_space_before_opening_bracket_in_array_allocation_expression"),
            insert_space_before_opening_bracket_in_array_reference: Kv::field_enum(m, "org.eclipse.jdt.core.formatter.insert_space_before_opening_bracket_in_array_reference"),
            insert_space_before_opening_bracket_in_array_type_reference: Kv::field_enum(m, "org.eclipse.jdt.core.formatter.insert_space_before_opening_bracket_in_array_type_reference"),
            insert_space_before_opening_paren_in_annotation: Kv::field_enum(m, "org.eclipse.jdt.core.formatter.insert_space_before_opening_paren_in_annotation"),
            insert_space_before_opening_paren_in_annotation_type_member_declaration: Kv::field_enum(m, "org.eclipse.jdt.core.formatter.insert_space_before_opening_paren_in_annotation_type_member_declaration"),
            insert_space_before_opening_paren_in_catch: Kv::field_enum(m, "org.eclipse.jdt.core.formatter.insert_space_before_opening_paren_in_catch"),
            insert_space_before_opening_paren_in_constructor_declaration: Kv::field_enum(m, "org.eclipse.jdt.core.formatter.insert_space_before_opening_paren_in_constructor_declaration"),
            insert_space_before_opening_paren_in_enum_constant: Kv::field_enum(m, "org.eclipse.jdt.core.formatter.insert_space_before_opening_paren_in_enum_constant"),
            insert_space_before_opening_paren_in_for: Kv::field_enum(m, "org.eclipse.jdt.core.formatter.insert_space_before_opening_paren_in_for"),
            insert_space_before_opening_paren_in_if: Kv::field_enum(m, "org.eclipse.jdt.core.formatter.insert_space_before_opening_paren_in_if"),
            insert_space_before_opening_paren_in_method_declaration: Kv::field_enum(m, "org.eclipse.jdt.core.formatter.insert_space_before_opening_paren_in_method_declaration"),
            insert_space_before_opening_paren_in_method_invocation: Kv::field_enum(m, "org.eclipse.jdt.core.formatter.insert_space_before_opening_paren_in_method_invocation"),
            insert_space_before_opening_paren_in_parenthesized_expression: Kv::field_enum(m, "org.eclipse.jdt.core.formatter.insert_space_before_opening_paren_in_parenthesized_expression"),
            insert_space_before_opening_paren_in_record_declaration: Kv::field_enum(m, "org.eclipse.jdt.core.formatter.insert_space_before_opening_paren_in_record_declaration"),
            insert_space_before_opening_paren_in_switch: Kv::field_enum(m, "org.eclipse.jdt.core.formatter.insert_space_before_opening_paren_in_switch"),
            insert_space_before_opening_paren_in_synchronized: Kv::field_enum(m, "org.eclipse.jdt.core.formatter.insert_space_before_opening_paren_in_synchronized"),
            insert_space_before_opening_paren_in_try: Kv::field_enum(m, "org.eclipse.jdt.core.formatter.insert_space_before_opening_paren_in_try"),
            insert_space_before_opening_paren_in_while: Kv::field_enum(m, "org.eclipse.jdt.core.formatter.insert_space_before_opening_paren_in_while"),
            insert_space_before_parenthesized_expression_in_return: Kv::field_enum(m, "org.eclipse.jdt.core.formatter.insert_space_before_parenthesized_expression_in_return"),
            insert_space_before_parenthesized_expression_in_throw: Kv::field_enum(m, "org.eclipse.jdt.core.formatter.insert_space_before_parenthesized_expression_in_throw"),
            insert_space_before_postfix_operator: Kv::field_enum(m, "org.eclipse.jdt.core.formatter.insert_space_before_postfix_operator"),
            insert_space_before_prefix_operator: Kv::field_enum(m, "org.eclipse.jdt.core.formatter.insert_space_before_prefix_operator"),
            insert_space_before_question_in_conditional: Kv::field_enum(m, "org.eclipse.jdt.core.formatter.insert_space_before_question_in_conditional"),
            insert_space_before_question_in_wildcard: Kv::field_enum(m, "org.eclipse.jdt.core.formatter.insert_space_before_question_in_wildcard"),
            insert_space_before_relational_operator: Kv::field_enum(m, "org.eclipse.jdt.core.formatter.insert_space_before_relational_operator"),
            insert_space_before_semicolon: Kv::field_enum(m, "org.eclipse.jdt.core.formatter.insert_space_before_semicolon"),
            insert_space_before_semicolon_in_for: Kv::field_enum(m, "org.eclipse.jdt.core.formatter.insert_space_before_semicolon_in_for"),
            insert_space_before_semicolon_in_try_resources: Kv::field_enum(m, "org.eclipse.jdt.core.formatter.insert_space_before_semicolon_in_try_resources"),
            insert_space_before_shift_operator: Kv::field_enum(m, "org.eclipse.jdt.core.formatter.insert_space_before_shift_operator"),
            insert_space_before_string_concatenation: Kv::field_enum(m, "org.eclipse.jdt.core.formatter.insert_space_before_string_concatenation"),
            insert_space_before_unary_operator: Kv::field_enum(m, "org.eclipse.jdt.core.formatter.insert_space_before_unary_operator"),
            insert_space_between_brackets_in_array_type_reference: Kv::field_enum(m, "org.eclipse.jdt.core.formatter.insert_space_between_brackets_in_array_type_reference"),
            insert_space_between_empty_braces_in_array_initializer: Kv::field_enum(m, "org.eclipse.jdt.core.formatter.insert_space_between_empty_braces_in_array_initializer"),
            insert_space_between_empty_brackets_in_array_allocation_expression: Kv::field_enum(m, "org.eclipse.jdt.core.formatter.insert_space_between_empty_brackets_in_array_allocation_expression"),
            insert_space_between_empty_parens_in_annotation_type_member_declaration: Kv::field_enum(m, "org.eclipse.jdt.core.formatter.insert_space_between_empty_parens_in_annotation_type_member_declaration"),
            insert_space_between_empty_parens_in_constructor_declaration: Kv::field_enum(m, "org.eclipse.jdt.core.formatter.insert_space_between_empty_parens_in_constructor_declaration"),
            insert_space_between_empty_parens_in_enum_constant: Kv::field_enum(m, "org.eclipse.jdt.core.formatter.insert_space_between_empty_parens_in_enum_constant"),
            insert_space_between_empty_parens_in_method_declaration: Kv::field_enum(m, "org.eclipse.jdt.core.formatter.insert_space_between_empty_parens_in_method_declaration"),
            insert_space_between_empty_parens_in_method_invocation: Kv::field_enum(m, "org.eclipse.jdt.core.formatter.insert_space_between_empty_parens_in_method_invocation"),
        }
    }
}

} // verus!
