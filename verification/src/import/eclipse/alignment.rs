//! Eclipse JDT — the 53 `alignment_for_*` wrap policies.
//!
//! Each value is a decimal integer whose **bits** carry the policy, not an opaque id — see
//! jals's four-valued `WrapPolicy`.

use vstd::prelude::*;

use crate::import::kv::KvMap;
use crate::import::serde_kv::{Kv};
use super::values::{Alignment, lookup_alignment};

verus! {

/// The `alignment_for_*` wrap bitmasks of a profile.
#[derive(Debug, Clone, Copy, Default, PartialEq, Eq)]
pub struct Alignments {
    /// `alignment_for_additive_operator`.
    pub alignment_for_additive_operator: Option<Alignment>,
    /// `alignment_for_annotations_on_enum_constant`.
    pub alignment_for_annotations_on_enum_constant: Option<Alignment>,
    /// `alignment_for_annotations_on_field`.
    pub alignment_for_annotations_on_field: Option<Alignment>,
    /// `alignment_for_annotations_on_local_variable`.
    pub alignment_for_annotations_on_local_variable: Option<Alignment>,
    /// `alignment_for_annotations_on_method`.
    pub alignment_for_annotations_on_method: Option<Alignment>,
    /// `alignment_for_annotations_on_package`.
    pub alignment_for_annotations_on_package: Option<Alignment>,
    /// `alignment_for_annotations_on_parameter`.
    pub alignment_for_annotations_on_parameter: Option<Alignment>,
    /// `alignment_for_annotations_on_type`.
    pub alignment_for_annotations_on_type: Option<Alignment>,
    /// `alignment_for_arguments_in_allocation_expression`.
    pub alignment_for_arguments_in_allocation_expression: Option<Alignment>,
    /// `alignment_for_arguments_in_annotation`.
    pub alignment_for_arguments_in_annotation: Option<Alignment>,
    /// `alignment_for_arguments_in_enum_constant`.
    pub alignment_for_arguments_in_enum_constant: Option<Alignment>,
    /// `alignment_for_arguments_in_explicit_constructor_call`.
    pub alignment_for_arguments_in_explicit_constructor_call: Option<Alignment>,
    /// `alignment_for_arguments_in_method_invocation`.
    pub alignment_for_arguments_in_method_invocation: Option<Alignment>,
    /// `alignment_for_arguments_in_qualified_allocation_expression`.
    pub alignment_for_arguments_in_qualified_allocation_expression: Option<Alignment>,
    /// `alignment_for_assertion_message`.
    pub alignment_for_assertion_message: Option<Alignment>,
    /// `alignment_for_assignment`.
    pub alignment_for_assignment: Option<Alignment>,
    /// `alignment_for_binary_expression`. Deprecated: JDT still reads it and fans it out into the finer settings above.
    pub alignment_for_binary_expression: Option<Alignment>,
    /// `alignment_for_bitwise_operator`.
    pub alignment_for_bitwise_operator: Option<Alignment>,
    /// `alignment_for_compact_if`.
    pub alignment_for_compact_if: Option<Alignment>,
    /// `alignment_for_compact_loops`.
    pub alignment_for_compact_loops: Option<Alignment>,
    /// `alignment_for_conditional_expression`.
    pub alignment_for_conditional_expression: Option<Alignment>,
    /// `alignment_for_conditional_expression_chain`.
    pub alignment_for_conditional_expression_chain: Option<Alignment>,
    /// `alignment_for_enum_constants`.
    pub alignment_for_enum_constants: Option<Alignment>,
    /// `alignment_for_expressions_in_array_initializer`.
    pub alignment_for_expressions_in_array_initializer: Option<Alignment>,
    /// `alignment_for_expressions_in_for_loop_header`.
    pub alignment_for_expressions_in_for_loop_header: Option<Alignment>,
    /// `alignment_for_expressions_in_switch_case_with_arrow`.
    pub alignment_for_expressions_in_switch_case_with_arrow: Option<Alignment>,
    /// `alignment_for_expressions_in_switch_case_with_colon`.
    pub alignment_for_expressions_in_switch_case_with_colon: Option<Alignment>,
    /// `alignment_for_logical_operator`.
    pub alignment_for_logical_operator: Option<Alignment>,
    /// `alignment_for_method_declaration`.
    pub alignment_for_method_declaration: Option<Alignment>,
    /// `alignment_for_module_statements`.
    pub alignment_for_module_statements: Option<Alignment>,
    /// `alignment_for_multiple_fields`.
    pub alignment_for_multiple_fields: Option<Alignment>,
    /// `alignment_for_multiplicative_operator`.
    pub alignment_for_multiplicative_operator: Option<Alignment>,
    /// `alignment_for_parameterized_type_references`.
    pub alignment_for_parameterized_type_references: Option<Alignment>,
    /// `alignment_for_parameters_in_constructor_declaration`.
    pub alignment_for_parameters_in_constructor_declaration: Option<Alignment>,
    /// `alignment_for_parameters_in_method_declaration`.
    pub alignment_for_parameters_in_method_declaration: Option<Alignment>,
    /// `alignment_for_permitted_types_in_type_declaration`.
    pub alignment_for_permitted_types_in_type_declaration: Option<Alignment>,
    /// `alignment_for_record_components`.
    pub alignment_for_record_components: Option<Alignment>,
    /// `alignment_for_relational_operator`.
    pub alignment_for_relational_operator: Option<Alignment>,
    /// `alignment_for_resources_in_try`.
    pub alignment_for_resources_in_try: Option<Alignment>,
    /// `alignment_for_selector_in_method_invocation`.
    pub alignment_for_selector_in_method_invocation: Option<Alignment>,
    /// `alignment_for_shift_operator`.
    pub alignment_for_shift_operator: Option<Alignment>,
    /// `alignment_for_string_concatenation`.
    pub alignment_for_string_concatenation: Option<Alignment>,
    /// `alignment_for_superclass_in_type_declaration`.
    pub alignment_for_superclass_in_type_declaration: Option<Alignment>,
    /// `alignment_for_superinterfaces_in_enum_declaration`.
    pub alignment_for_superinterfaces_in_enum_declaration: Option<Alignment>,
    /// `alignment_for_superinterfaces_in_record_declaration`.
    pub alignment_for_superinterfaces_in_record_declaration: Option<Alignment>,
    /// `alignment_for_superinterfaces_in_type_declaration`.
    pub alignment_for_superinterfaces_in_type_declaration: Option<Alignment>,
    /// `alignment_for_switch_case_with_arrow`.
    pub alignment_for_switch_case_with_arrow: Option<Alignment>,
    /// `alignment_for_throws_clause_in_constructor_declaration`.
    pub alignment_for_throws_clause_in_constructor_declaration: Option<Alignment>,
    /// `alignment_for_throws_clause_in_method_declaration`.
    pub alignment_for_throws_clause_in_method_declaration: Option<Alignment>,
    /// `alignment_for_type_annotations`.
    pub alignment_for_type_annotations: Option<Alignment>,
    /// `alignment_for_type_arguments`.
    pub alignment_for_type_arguments: Option<Alignment>,
    /// `alignment_for_type_parameters`.
    pub alignment_for_type_parameters: Option<Alignment>,
    /// `alignment_for_union_type_in_multicatch`.
    pub alignment_for_union_type_in_multicatch: Option<Alignment>,
}

impl Alignments {
    /// Whether every field holds what the settings map gives its id.
    #[verifier::opaque]
    pub open spec fn reads(&self, m: Map<Seq<char>, Seq<char>>) -> bool {
        &&& self.alignment_for_additive_operator == lookup_alignment(m, "org.eclipse.jdt.core.formatter.alignment_for_additive_operator"@)
        &&& self.alignment_for_annotations_on_enum_constant == lookup_alignment(m, "org.eclipse.jdt.core.formatter.alignment_for_annotations_on_enum_constant"@)
        &&& self.alignment_for_annotations_on_field == lookup_alignment(m, "org.eclipse.jdt.core.formatter.alignment_for_annotations_on_field"@)
        &&& self.alignment_for_annotations_on_local_variable == lookup_alignment(m, "org.eclipse.jdt.core.formatter.alignment_for_annotations_on_local_variable"@)
        &&& self.alignment_for_annotations_on_method == lookup_alignment(m, "org.eclipse.jdt.core.formatter.alignment_for_annotations_on_method"@)
        &&& self.alignment_for_annotations_on_package == lookup_alignment(m, "org.eclipse.jdt.core.formatter.alignment_for_annotations_on_package"@)
        &&& self.alignment_for_annotations_on_parameter == lookup_alignment(m, "org.eclipse.jdt.core.formatter.alignment_for_annotations_on_parameter"@)
        &&& self.alignment_for_annotations_on_type == lookup_alignment(m, "org.eclipse.jdt.core.formatter.alignment_for_annotations_on_type"@)
        &&& self.alignment_for_arguments_in_allocation_expression == lookup_alignment(m, "org.eclipse.jdt.core.formatter.alignment_for_arguments_in_allocation_expression"@)
        &&& self.alignment_for_arguments_in_annotation == lookup_alignment(m, "org.eclipse.jdt.core.formatter.alignment_for_arguments_in_annotation"@)
        &&& self.alignment_for_arguments_in_enum_constant == lookup_alignment(m, "org.eclipse.jdt.core.formatter.alignment_for_arguments_in_enum_constant"@)
        &&& self.alignment_for_arguments_in_explicit_constructor_call == lookup_alignment(m, "org.eclipse.jdt.core.formatter.alignment_for_arguments_in_explicit_constructor_call"@)
        &&& self.alignment_for_arguments_in_method_invocation == lookup_alignment(m, "org.eclipse.jdt.core.formatter.alignment_for_arguments_in_method_invocation"@)
        &&& self.alignment_for_arguments_in_qualified_allocation_expression == lookup_alignment(m, "org.eclipse.jdt.core.formatter.alignment_for_arguments_in_qualified_allocation_expression"@)
        &&& self.alignment_for_assertion_message == lookup_alignment(m, "org.eclipse.jdt.core.formatter.alignment_for_assertion_message"@)
        &&& self.alignment_for_assignment == lookup_alignment(m, "org.eclipse.jdt.core.formatter.alignment_for_assignment"@)
        &&& self.alignment_for_binary_expression == lookup_alignment(m, "org.eclipse.jdt.core.formatter.alignment_for_binary_expression"@)
        &&& self.alignment_for_bitwise_operator == lookup_alignment(m, "org.eclipse.jdt.core.formatter.alignment_for_bitwise_operator"@)
        &&& self.alignment_for_compact_if == lookup_alignment(m, "org.eclipse.jdt.core.formatter.alignment_for_compact_if"@)
        &&& self.alignment_for_compact_loops == lookup_alignment(m, "org.eclipse.jdt.core.formatter.alignment_for_compact_loops"@)
        &&& self.alignment_for_conditional_expression == lookup_alignment(m, "org.eclipse.jdt.core.formatter.alignment_for_conditional_expression"@)
        &&& self.alignment_for_conditional_expression_chain == lookup_alignment(m, "org.eclipse.jdt.core.formatter.alignment_for_conditional_expression_chain"@)
        &&& self.alignment_for_enum_constants == lookup_alignment(m, "org.eclipse.jdt.core.formatter.alignment_for_enum_constants"@)
        &&& self.alignment_for_expressions_in_array_initializer == lookup_alignment(m, "org.eclipse.jdt.core.formatter.alignment_for_expressions_in_array_initializer"@)
        &&& self.alignment_for_expressions_in_for_loop_header == lookup_alignment(m, "org.eclipse.jdt.core.formatter.alignment_for_expressions_in_for_loop_header"@)
        &&& self.alignment_for_expressions_in_switch_case_with_arrow == lookup_alignment(m, "org.eclipse.jdt.core.formatter.alignment_for_expressions_in_switch_case_with_arrow"@)
        &&& self.alignment_for_expressions_in_switch_case_with_colon == lookup_alignment(m, "org.eclipse.jdt.core.formatter.alignment_for_expressions_in_switch_case_with_colon"@)
        &&& self.alignment_for_logical_operator == lookup_alignment(m, "org.eclipse.jdt.core.formatter.alignment_for_logical_operator"@)
        &&& self.alignment_for_method_declaration == lookup_alignment(m, "org.eclipse.jdt.core.formatter.alignment_for_method_declaration"@)
        &&& self.alignment_for_module_statements == lookup_alignment(m, "org.eclipse.jdt.core.formatter.alignment_for_module_statements"@)
        &&& self.alignment_for_multiple_fields == lookup_alignment(m, "org.eclipse.jdt.core.formatter.alignment_for_multiple_fields"@)
        &&& self.alignment_for_multiplicative_operator == lookup_alignment(m, "org.eclipse.jdt.core.formatter.alignment_for_multiplicative_operator"@)
        &&& self.alignment_for_parameterized_type_references == lookup_alignment(m, "org.eclipse.jdt.core.formatter.alignment_for_parameterized_type_references"@)
        &&& self.alignment_for_parameters_in_constructor_declaration == lookup_alignment(m, "org.eclipse.jdt.core.formatter.alignment_for_parameters_in_constructor_declaration"@)
        &&& self.alignment_for_parameters_in_method_declaration == lookup_alignment(m, "org.eclipse.jdt.core.formatter.alignment_for_parameters_in_method_declaration"@)
        &&& self.alignment_for_permitted_types_in_type_declaration == lookup_alignment(m, "org.eclipse.jdt.core.formatter.alignment_for_permitted_types_in_type_declaration"@)
        &&& self.alignment_for_record_components == lookup_alignment(m, "org.eclipse.jdt.core.formatter.alignment_for_record_components"@)
        &&& self.alignment_for_relational_operator == lookup_alignment(m, "org.eclipse.jdt.core.formatter.alignment_for_relational_operator"@)
        &&& self.alignment_for_resources_in_try == lookup_alignment(m, "org.eclipse.jdt.core.formatter.alignment_for_resources_in_try"@)
        &&& self.alignment_for_selector_in_method_invocation == lookup_alignment(m, "org.eclipse.jdt.core.formatter.alignment_for_selector_in_method_invocation"@)
        &&& self.alignment_for_shift_operator == lookup_alignment(m, "org.eclipse.jdt.core.formatter.alignment_for_shift_operator"@)
        &&& self.alignment_for_string_concatenation == lookup_alignment(m, "org.eclipse.jdt.core.formatter.alignment_for_string_concatenation"@)
        &&& self.alignment_for_superclass_in_type_declaration == lookup_alignment(m, "org.eclipse.jdt.core.formatter.alignment_for_superclass_in_type_declaration"@)
        &&& self.alignment_for_superinterfaces_in_enum_declaration == lookup_alignment(m, "org.eclipse.jdt.core.formatter.alignment_for_superinterfaces_in_enum_declaration"@)
        &&& self.alignment_for_superinterfaces_in_record_declaration == lookup_alignment(m, "org.eclipse.jdt.core.formatter.alignment_for_superinterfaces_in_record_declaration"@)
        &&& self.alignment_for_superinterfaces_in_type_declaration == lookup_alignment(m, "org.eclipse.jdt.core.formatter.alignment_for_superinterfaces_in_type_declaration"@)
        &&& self.alignment_for_switch_case_with_arrow == lookup_alignment(m, "org.eclipse.jdt.core.formatter.alignment_for_switch_case_with_arrow"@)
        &&& self.alignment_for_throws_clause_in_constructor_declaration == lookup_alignment(m, "org.eclipse.jdt.core.formatter.alignment_for_throws_clause_in_constructor_declaration"@)
        &&& self.alignment_for_throws_clause_in_method_declaration == lookup_alignment(m, "org.eclipse.jdt.core.formatter.alignment_for_throws_clause_in_method_declaration"@)
        &&& self.alignment_for_type_annotations == lookup_alignment(m, "org.eclipse.jdt.core.formatter.alignment_for_type_annotations"@)
        &&& self.alignment_for_type_arguments == lookup_alignment(m, "org.eclipse.jdt.core.formatter.alignment_for_type_arguments"@)
        &&& self.alignment_for_type_parameters == lookup_alignment(m, "org.eclipse.jdt.core.formatter.alignment_for_type_parameters"@)
        &&& self.alignment_for_union_type_in_multicatch == lookup_alignment(m, "org.eclipse.jdt.core.formatter.alignment_for_union_type_in_multicatch"@)
    }

    /// Read every field from the flat settings map; an id the map lacks, or a value that
    /// does not parse, leaves the field unset.
    #[verifier::rlimit(30)]
    pub fn from_map(m: &KvMap) -> (r: Self)
        ensures
            r.reads(m@),
    {
        reveal(Alignments::reads);
        Alignments {
            alignment_for_additive_operator: Alignment::field(m, "org.eclipse.jdt.core.formatter.alignment_for_additive_operator"),
            alignment_for_annotations_on_enum_constant: Alignment::field(m, "org.eclipse.jdt.core.formatter.alignment_for_annotations_on_enum_constant"),
            alignment_for_annotations_on_field: Alignment::field(m, "org.eclipse.jdt.core.formatter.alignment_for_annotations_on_field"),
            alignment_for_annotations_on_local_variable: Alignment::field(m, "org.eclipse.jdt.core.formatter.alignment_for_annotations_on_local_variable"),
            alignment_for_annotations_on_method: Alignment::field(m, "org.eclipse.jdt.core.formatter.alignment_for_annotations_on_method"),
            alignment_for_annotations_on_package: Alignment::field(m, "org.eclipse.jdt.core.formatter.alignment_for_annotations_on_package"),
            alignment_for_annotations_on_parameter: Alignment::field(m, "org.eclipse.jdt.core.formatter.alignment_for_annotations_on_parameter"),
            alignment_for_annotations_on_type: Alignment::field(m, "org.eclipse.jdt.core.formatter.alignment_for_annotations_on_type"),
            alignment_for_arguments_in_allocation_expression: Alignment::field(m, "org.eclipse.jdt.core.formatter.alignment_for_arguments_in_allocation_expression"),
            alignment_for_arguments_in_annotation: Alignment::field(m, "org.eclipse.jdt.core.formatter.alignment_for_arguments_in_annotation"),
            alignment_for_arguments_in_enum_constant: Alignment::field(m, "org.eclipse.jdt.core.formatter.alignment_for_arguments_in_enum_constant"),
            alignment_for_arguments_in_explicit_constructor_call: Alignment::field(m, "org.eclipse.jdt.core.formatter.alignment_for_arguments_in_explicit_constructor_call"),
            alignment_for_arguments_in_method_invocation: Alignment::field(m, "org.eclipse.jdt.core.formatter.alignment_for_arguments_in_method_invocation"),
            alignment_for_arguments_in_qualified_allocation_expression: Alignment::field(m, "org.eclipse.jdt.core.formatter.alignment_for_arguments_in_qualified_allocation_expression"),
            alignment_for_assertion_message: Alignment::field(m, "org.eclipse.jdt.core.formatter.alignment_for_assertion_message"),
            alignment_for_assignment: Alignment::field(m, "org.eclipse.jdt.core.formatter.alignment_for_assignment"),
            alignment_for_binary_expression: Alignment::field(m, "org.eclipse.jdt.core.formatter.alignment_for_binary_expression"),
            alignment_for_bitwise_operator: Alignment::field(m, "org.eclipse.jdt.core.formatter.alignment_for_bitwise_operator"),
            alignment_for_compact_if: Alignment::field(m, "org.eclipse.jdt.core.formatter.alignment_for_compact_if"),
            alignment_for_compact_loops: Alignment::field(m, "org.eclipse.jdt.core.formatter.alignment_for_compact_loops"),
            alignment_for_conditional_expression: Alignment::field(m, "org.eclipse.jdt.core.formatter.alignment_for_conditional_expression"),
            alignment_for_conditional_expression_chain: Alignment::field(m, "org.eclipse.jdt.core.formatter.alignment_for_conditional_expression_chain"),
            alignment_for_enum_constants: Alignment::field(m, "org.eclipse.jdt.core.formatter.alignment_for_enum_constants"),
            alignment_for_expressions_in_array_initializer: Alignment::field(m, "org.eclipse.jdt.core.formatter.alignment_for_expressions_in_array_initializer"),
            alignment_for_expressions_in_for_loop_header: Alignment::field(m, "org.eclipse.jdt.core.formatter.alignment_for_expressions_in_for_loop_header"),
            alignment_for_expressions_in_switch_case_with_arrow: Alignment::field(m, "org.eclipse.jdt.core.formatter.alignment_for_expressions_in_switch_case_with_arrow"),
            alignment_for_expressions_in_switch_case_with_colon: Alignment::field(m, "org.eclipse.jdt.core.formatter.alignment_for_expressions_in_switch_case_with_colon"),
            alignment_for_logical_operator: Alignment::field(m, "org.eclipse.jdt.core.formatter.alignment_for_logical_operator"),
            alignment_for_method_declaration: Alignment::field(m, "org.eclipse.jdt.core.formatter.alignment_for_method_declaration"),
            alignment_for_module_statements: Alignment::field(m, "org.eclipse.jdt.core.formatter.alignment_for_module_statements"),
            alignment_for_multiple_fields: Alignment::field(m, "org.eclipse.jdt.core.formatter.alignment_for_multiple_fields"),
            alignment_for_multiplicative_operator: Alignment::field(m, "org.eclipse.jdt.core.formatter.alignment_for_multiplicative_operator"),
            alignment_for_parameterized_type_references: Alignment::field(m, "org.eclipse.jdt.core.formatter.alignment_for_parameterized_type_references"),
            alignment_for_parameters_in_constructor_declaration: Alignment::field(m, "org.eclipse.jdt.core.formatter.alignment_for_parameters_in_constructor_declaration"),
            alignment_for_parameters_in_method_declaration: Alignment::field(m, "org.eclipse.jdt.core.formatter.alignment_for_parameters_in_method_declaration"),
            alignment_for_permitted_types_in_type_declaration: Alignment::field(m, "org.eclipse.jdt.core.formatter.alignment_for_permitted_types_in_type_declaration"),
            alignment_for_record_components: Alignment::field(m, "org.eclipse.jdt.core.formatter.alignment_for_record_components"),
            alignment_for_relational_operator: Alignment::field(m, "org.eclipse.jdt.core.formatter.alignment_for_relational_operator"),
            alignment_for_resources_in_try: Alignment::field(m, "org.eclipse.jdt.core.formatter.alignment_for_resources_in_try"),
            alignment_for_selector_in_method_invocation: Alignment::field(m, "org.eclipse.jdt.core.formatter.alignment_for_selector_in_method_invocation"),
            alignment_for_shift_operator: Alignment::field(m, "org.eclipse.jdt.core.formatter.alignment_for_shift_operator"),
            alignment_for_string_concatenation: Alignment::field(m, "org.eclipse.jdt.core.formatter.alignment_for_string_concatenation"),
            alignment_for_superclass_in_type_declaration: Alignment::field(m, "org.eclipse.jdt.core.formatter.alignment_for_superclass_in_type_declaration"),
            alignment_for_superinterfaces_in_enum_declaration: Alignment::field(m, "org.eclipse.jdt.core.formatter.alignment_for_superinterfaces_in_enum_declaration"),
            alignment_for_superinterfaces_in_record_declaration: Alignment::field(m, "org.eclipse.jdt.core.formatter.alignment_for_superinterfaces_in_record_declaration"),
            alignment_for_superinterfaces_in_type_declaration: Alignment::field(m, "org.eclipse.jdt.core.formatter.alignment_for_superinterfaces_in_type_declaration"),
            alignment_for_switch_case_with_arrow: Alignment::field(m, "org.eclipse.jdt.core.formatter.alignment_for_switch_case_with_arrow"),
            alignment_for_throws_clause_in_constructor_declaration: Alignment::field(m, "org.eclipse.jdt.core.formatter.alignment_for_throws_clause_in_constructor_declaration"),
            alignment_for_throws_clause_in_method_declaration: Alignment::field(m, "org.eclipse.jdt.core.formatter.alignment_for_throws_clause_in_method_declaration"),
            alignment_for_type_annotations: Alignment::field(m, "org.eclipse.jdt.core.formatter.alignment_for_type_annotations"),
            alignment_for_type_arguments: Alignment::field(m, "org.eclipse.jdt.core.formatter.alignment_for_type_arguments"),
            alignment_for_type_parameters: Alignment::field(m, "org.eclipse.jdt.core.formatter.alignment_for_type_parameters"),
            alignment_for_union_type_in_multicatch: Alignment::field(m, "org.eclipse.jdt.core.formatter.alignment_for_union_type_in_multicatch"),
        }
    }
}

} // verus!
