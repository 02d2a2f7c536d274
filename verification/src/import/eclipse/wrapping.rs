//! Eclipse JDT — `wrap_before_*` break placement and `parentheses_positions_in_*`.
//!
//! `wrap_before_*` decides whether a break falls before or after the operator; the
//! `parentheses_positions_in_*` family decides where a wrapped list's delimiters go. Note the
//! two id typos Eclipse ships and that this model reproduces verbatim:
//! `parentheses_positions_in_for_statment` and `..._in_method_delcaration`.

use vstd::prelude::*;

use crate::import::kv::KvMap;
use crate::import::serde_kv::{Kv, lookup_bool, lookup_enum};
use super::values::{ParenthesisPositions};

verus! {

/// The break-placement and delimiter-position settings of a profile.
#[derive(Debug, Clone, Copy, Default, PartialEq, Eq)]
pub struct Wrapping {
    /// `parentheses_positions_in_annotation`.
    pub parentheses_positions_in_annotation: Option<ParenthesisPositions>,
    /// `parentheses_positions_in_catch_clause`.
    pub parentheses_positions_in_catch_clause: Option<ParenthesisPositions>,
    /// `parentheses_positions_in_enum_constant_declaration`.
    pub parentheses_positions_in_enum_constant_declaration: Option<ParenthesisPositions>,
    /// `parentheses_positions_in_for_statment`.
    pub parentheses_positions_in_for_statment: Option<ParenthesisPositions>,
    /// `parentheses_positions_in_if_while_statement`.
    pub parentheses_positions_in_if_while_statement: Option<ParenthesisPositions>,
    /// `parentheses_positions_in_lambda_declaration`.
    pub parentheses_positions_in_lambda_declaration: Option<ParenthesisPositions>,
    /// `parentheses_positions_in_method_delcaration`.
    pub parentheses_positions_in_method_delcaration: Option<ParenthesisPositions>,
    /// `parentheses_positions_in_method_invocation`.
    pub parentheses_positions_in_method_invocation: Option<ParenthesisPositions>,
    /// `parentheses_positions_in_record_declaration`.
    pub parentheses_positions_in_record_declaration: Option<ParenthesisPositions>,
    /// `parentheses_positions_in_switch_statement`.
    pub parentheses_positions_in_switch_statement: Option<ParenthesisPositions>,
    /// `parentheses_positions_in_try_clause`.
    pub parentheses_positions_in_try_clause: Option<ParenthesisPositions>,
    /// `wrap_before_additive_operator`.
    pub wrap_before_additive_operator: Option<bool>,
    /// `wrap_before_assertion_message_operator`.
    pub wrap_before_assertion_message_operator: Option<bool>,
    /// `wrap_before_assignment_operator`.
    pub wrap_before_assignment_operator: Option<bool>,
    /// `wrap_before_binary_operator`. Deprecated: JDT still reads it and fans it out into the finer settings above.
    pub wrap_before_binary_operator: Option<bool>,
    /// `wrap_before_bitwise_operator`.
    pub wrap_before_bitwise_operator: Option<bool>,
    /// `wrap_before_conditional_operator`.
    pub wrap_before_conditional_operator: Option<bool>,
    /// `wrap_before_logical_operator`.
    pub wrap_before_logical_operator: Option<bool>,
    /// `wrap_before_multiplicative_operator`.
    pub wrap_before_multiplicative_operator: Option<bool>,
    /// `wrap_before_or_operator_multicatch`.
    pub wrap_before_or_operator_multicatch: Option<bool>,
    /// `wrap_before_relational_operator`.
    pub wrap_before_relational_operator: Option<bool>,
    /// `wrap_before_shift_operator`.
    pub wrap_before_shift_operator: Option<bool>,
    /// `wrap_before_string_concatenation`.
    pub wrap_before_string_concatenation: Option<bool>,
    /// `wrap_before_switch_case_arrow_operator`.
    pub wrap_before_switch_case_arrow_operator: Option<bool>,
}

impl Wrapping {
    /// Whether every field holds what the settings map gives its id.
    #[verifier::opaque]
    pub open spec fn reads(&self, m: Map<Seq<char>, Seq<char>>) -> bool {
        &&& self.parentheses_positions_in_annotation == lookup_enum::<ParenthesisPositions>(m, "org.eclipse.jdt.core.formatter.parentheses_positions_in_annotation"@)
        &&& self.parentheses_positions_in_catch_clause == lookup_enum::<ParenthesisPositions>(m, "org.eclipse.jdt.core.formatter.parentheses_positions_in_catch_clause"@)
        &&& self.parentheses_positions_in_enum_constant_declaration == lookup_enum::<ParenthesisPositions>(m, "org.eclipse.jdt.core.formatter.parentheses_positions_in_enum_constant_declaration"@)
        &&& self.parentheses_positions_in_for_statment == lookup_enum::<ParenthesisPositions>(m, "org.eclipse.jdt.core.formatter.parentheses_positions_in_for_statment"@)
        &&& self.parentheses_positions_in_if_while_statement == lookup_enum::<ParenthesisPositions>(m, "org.eclipse.jdt.core.formatter.parentheses_positions_in_if_while_statement"@)
        &&& self.parentheses_positions_in_lambda_declaration == lookup_enum::<ParenthesisPositions>(m, "org.eclipse.jdt.core.formatter.parentheses_positions_in_lambda_declaration"@)
        &&& self.parentheses_positions_in_method_delcaration == lookup_enum::<ParenthesisPositions>(m, "org.eclipse.jdt.core.formatter.parentheses_positions_in_method_delcaration"@)
        &&& self.parentheses_positions_in_method_invocation == lookup_enum::<ParenthesisPositions>(m, "org.eclipse.jdt.core.formatter.parentheses_positions_in_method_invocation"@)
        &&& self.parentheses_positions_in_record_declaration == lookup_enum::<ParenthesisPositions>(m, "org.eclipse.jdt.core.formatter.parentheses_positions_in_record_declaration"@)
        &&& self.parentheses_positions_in_switch_statement == lookup_enum::<ParenthesisPositions>(m, "org.eclipse.jdt.core.formatter.parentheses_positions_in_switch_statement"@)
        &&& self.parentheses_positions_in_try_clause == lookup_enum::<ParenthesisPositions>(m, "org.eclipse.jdt.core.formatter.parentheses_positions_in_try_clause"@)
        &&& self.wrap_before_additive_operator == lookup_bool(m, "org.eclipse.jdt.core.formatter.wrap_before_additive_operator"@)
        &&& self.wrap_before_assertion_message_operator == lookup_bool(m, "org.eclipse.jdt.core.formatter.wrap_before_assertion_message_operator"@)
        &&& self.wrap_before_assignment_operator == lookup_bool(m, "org.eclipse.jdt.core.formatter.wrap_before_assignment_operator"@)
        &&& self.wrap_before_binary_operator == lookup_bool(m, "org.eclipse.jdt.core.formatter.wrap_before_binary_operator"@)
        &&& self.wrap_before_bitwise_operator == lookup_bool(m, "org.eclipse.jdt.core.formatter.wrap_before_bitwise_operator"@)
        &&& self.wrap_before_conditional_operator == lookup_bool(m, "org.eclipse.jdt.core.formatter.wrap_before_conditional_operator"@)
        &&& self.wrap_before_logical_operator == lookup_bool(m, "org.eclipse.jdt.core.formatter.wrap_before_logical_operator"@)
        &&& self.wrap_before_multiplicative_operator == lookup_bool(m, "org.eclipse.jdt.core.formatter.wrap_before_multiplicative_operator"@)
        &&& self.wrap_before_or_operator_multicatch == lookup_bool(m, "org.eclipse.jdt.core.formatter.wrap_before_or_operator_multicatch"@)
        &&& self.wrap_before_relational_operator == lookup_bool(m, "org.eclipse.jdt.core.formatter.wrap_before_relational_operator"@)
        &&& self.wrap_before_shift_operator == lookup_bool(m, "org.eclipse.jdt.core.formatter.wrap_before_shift_operator"@)
        &&& self.wrap_before_string_concatenation == lookup_bool(m, "org.eclipse.jdt.core.formatter.wrap_before_string_concatenation"@)
        &&& self.wrap_before_switch_case_arrow_operator == lookup_bool(m, "org.eclipse.jdt.core.formatter.wrap_before_switch_case_arrow_operator"@)
    }

    /// Read every field from the flat settings map; an id the map lacks, or a value that
    /// does not parse, leaves the field unset.
    pub fn from_map(m: &KvMap) -> (r: Self)
        ensures
            r.reads(m@),
    {
        reveal(Wrapping::reads);
        Wrapping {
            parentheses_positions_in_annotation: Kv::field_enum(m, "org.eclipse.jdt.core.formatter.parentheses_positions_in_annotation"),
            parentheses_positions_in_catch_clause: Kv::field_enum(m, "org.eclipse.jdt.core.formatter.parentheses_positions_in_catch_clause"),
            parentheses_positions_in_enum_constant_declaration: Kv::field_enum(m, "org.eclipse.jdt.core.formatter.parentheses_positions_in_enum_constant_declaration"),
            parentheses_positions_in_for_statment: Kv::field_enum(m, "org.eclipse.jdt.core.formatter.parentheses_positions_in_for_statment"),
            parentheses_positions_in_if_while_statement: Kv::field_enum(m, "org.eclipse.jdt.core.formatter.parentheses_positions_in_if_while_statement"),
            parentheses_positions_in_lambda_declaration: Kv::field_enum(m, "org.eclipse.jdt.core.formatter.parentheses_positions_in_lambda_declaration"),
            parentheses_positions_in_method_delcaration: Kv::field_enum(m, "org.eclipse.jdt.core.formatter.parentheses_positions_in_method_delcaration"),
            parentheses_positions_in_method_invocation: Kv::field_enum(m, "org.eclipse.jdt.core.formatter.parentheses_positions_in_method_invocation"),
            parentheses_positions_in_record_declaration: Kv::field_enum(m, "org.eclipse.jdt.core.formatter.parentheses_positions_in_record_declaration"),
            parentheses_positions_in_switch_statement: Kv::field_enum(m, "org.eclipse.jdt.core.formatter.parentheses_positions_in_switch_statement"),
            parentheses_positions_in_try_clause: Kv::field_enum(m, "org.eclipse.jdt.core.formatter.parentheses_positions_in_try_clause"),
            wrap_before_additive_operator: Kv::field_bool(m, "org.eclipse.jdt.core.formatter.wrap_before_additive_operator"),
            wrap_before_assertion_message_operator: Kv::field_bool(m, "org.eclipse.jdt.core.formatter.wrap_before_assertion_message_operator"),
            wrap_before_assignment_operator: Kv::field_bool(m, "org.eclipse.jdt.core.formatter.wrap_before_assignment_operator"),
            wrap_before_binary_operator: Kv::field_bool(m, "org.eclipse.jdt.core.formatter.wrap_before_binary_operator"),
            wrap_before_bitwise_operator: Kv::field_bool(m, "org.eclipse.jdt.core.formatter.wrap_before_bitwise_operator"),
            wrap_before_conditional_operator: Kv::field_bool(m, "org.eclipse.jdt.core.formatter.wrap_before_conditional_operator"),
            wrap_before_logical_operator: Kv::field_bool(m, "org.eclipse.jdt.core.formatter.wrap_before_logical_operator"),
            wrap_before_multiplicative_operator: Kv::field_bool(m, "org.eclipse.jdt.core.formatter.wrap_before_multiplicative_operator"),
            wrap_before_or_operator_multicatch: Kv::field_bool(m, "org.eclipse.jdt.core.formatter.wrap_before_or_operator_multicatch"),
            wrap_before_relational_operator: Kv::field_bool(m, "org.eclipse.jdt.core.formatter.wrap_before_relational_operator"),
            wrap_before_shift_operator: Kv::field_bool(m, "org.eclipse.jdt.core.formatter.wrap_before_shift_operator"),
            wrap_before_string_concatenation: Kv::field_bool(m, "org.eclipse.jdt.core.formatter.wrap_before_string_concatenation"),
            wrap_before_switch_case_arrow_operator: Kv::field_bool(m, "org.eclipse.jdt.core.formatter.wrap_before_switch_case_arrow_operator"),
        }
    }
}

} // verus!
