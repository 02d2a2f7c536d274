//! Eclipse JDT — the 14 `keep_*_on_one_line` settings.
//!
//! Five-valued ([`OneLine`]) — the vocabulary jals adopted wholesale as `KeepOnOneLine`,
//! because it is a strict superset of IntelliJ's `KEEP_SIMPLE_*_IN_ONE_LINE` booleans.

use vstd::prelude::*;

use crate::import::kv::KvMap;
use crate::import::serde_kv::{Kv, lookup_bool, lookup_enum};
use super::values::{OneLine};

verus! {

/// The one-line-body settings of a profile.
#[derive(Debug, Clone, Copy, Default, PartialEq, Eq)]
pub struct OneLineBodies {
    /// `keep_annotation_declaration_on_one_line`.
    pub keep_annotation_declaration_on_one_line: Option<OneLine>,
    /// `keep_anonymous_type_declaration_on_one_line`.
    pub keep_anonymous_type_declaration_on_one_line: Option<OneLine>,
    /// `keep_code_block_on_one_line`.
    pub keep_code_block_on_one_line: Option<OneLine>,
    /// `keep_empty_array_initializer_on_one_line`.
    pub keep_empty_array_initializer_on_one_line: Option<bool>,
    /// `keep_enum_constant_declaration_on_one_line`.
    pub keep_enum_constant_declaration_on_one_line: Option<OneLine>,
    /// `keep_enum_declaration_on_one_line`.
    pub keep_enum_declaration_on_one_line: Option<OneLine>,
    /// `keep_if_then_body_block_on_one_line`.
    pub keep_if_then_body_block_on_one_line: Option<OneLine>,
    /// `keep_imple_if_on_one_line`.
    pub keep_imple_if_on_one_line: Option<bool>,
    /// `keep_lambda_body_block_on_one_line`.
    pub keep_lambda_body_block_on_one_line: Option<OneLine>,
    /// `keep_loop_body_block_on_one_line`.
    pub keep_loop_body_block_on_one_line: Option<OneLine>,
    /// `keep_method_body_on_one_line`.
    pub keep_method_body_on_one_line: Option<OneLine>,
    /// `keep_record_constructor_on_one_line`.
    pub keep_record_constructor_on_one_line: Option<OneLine>,
    /// `keep_record_declaration_on_one_line`.
    pub keep_record_declaration_on_one_line: Option<OneLine>,
    /// `keep_simple_getter_setter_on_one_line`.
    pub keep_simple_getter_setter_on_one_line: Option<bool>,
    /// `keep_switch_body_block_on_one_line`.
    pub keep_switch_body_block_on_one_line: Option<OneLine>,
    /// `keep_switch_case_with_arrow_on_one_line`.
    pub keep_switch_case_with_arrow_on_one_line: Option<OneLine>,
    /// `keep_type_declaration_on_one_line`.
    pub keep_type_declaration_on_one_line: Option<OneLine>,
}

impl OneLineBodies {
    /// Whether every field holds what the settings map gives its id.
    #[verifier::opaque]
    pub open spec fn reads(&self, m: Map<Seq<char>, Seq<char>>) -> bool {
        &&& self.keep_annotation_declaration_on_one_line == lookup_enum::<OneLine>(m, "org.eclipse.jdt.core.formatter.keep_annotation_declaration_on_one_line"@)
        &&& self.keep_anonymous_type_declaration_on_one_line == lookup_enum::<OneLine>(m, "org.eclipse.jdt.core.formatter.keep_anonymous_type_declaration_on_one_line"@)
        &&& self.keep_code_block_on_one_line == lookup_enum::<OneLine>(m, "org.eclipse.jdt.core.formatter.keep_code_block_on_one_line"@)
        &&& self.keep_empty_array_initializer_on_one_line == lookup_bool(m, "org.eclipse.jdt.core.formatter.keep_empty_array_initializer_on_one_line"@)
        &&& self.keep_enum_constant_declaration_on_one_line == lookup_enum::<OneLine>(m, "org.eclipse.jdt.core.formatter.keep_enum_constant_declaration_on_one_line"@)
        &&& self.keep_enum_declaration_on_one_line == lookup_enum::<OneLine>(m, "org.eclipse.jdt.core.formatter.keep_enum_declaration_on_one_line"@)
        &&& self.keep_if_then_body_block_on_one_line == lookup_enum::<OneLine>(m, "org.eclipse.jdt.core.formatter.keep_if_then_body_block_on_one_line"@)
        &&& self.keep_imple_if_on_one_line == lookup_bool(m, "org.eclipse.jdt.core.formatter.keep_imple_if_on_one_line"@)
        &&& self.keep_lambda_body_block_on_one_line == lookup_enum::<OneLine>(m, "org.eclipse.jdt.core.formatter.keep_lambda_body_block_on_one_line"@)
        &&& self.keep_loop_body_block_on_one_line == lookup_enum::<OneLine>(m, "org.eclipse.jdt.core.formatter.keep_loop_body_block_on_one_line"@)
        &&& self.keep_method_body_on_one_line == lookup_enum::<OneLine>(m, "org.eclipse.jdt.core.formatter.keep_method_body_on_one_line"@)
        &&& self.keep_record_constructor_on_one_line == lookup_enum::<OneLine>(m, "org.eclipse.jdt.core.formatter.keep_record_constructor_on_one_line"@)
        &&& self.keep_record_declaration_on_one_line == lookup_enum::<OneLine>(m, "org.eclipse.jdt.core.formatter.keep_record_declaration_on_one_line"@)
        &&& self.keep_simple_getter_setter_on_one_line == lookup_bool(m, "org.eclipse.jdt.core.formatter.keep_simple_getter_setter_on_one_line"@)
        &&& self.keep_switch_body_block_on_one_line == lookup_enum::<OneLine>(m, "org.eclipse.jdt.core.formatter.keep_switch_body_block_on_one_line"@)
        &&& self.keep_switch_case_with_arrow_on_one_line == lookup_enum::<OneLine>(m, "org.eclipse.jdt.core.formatter.keep_switch_case_with_arrow_on_one_line"@)
        &&& self.keep_type_declaration_on_one_line == lookup_enum::<OneLine>(m, "org.eclipse.jdt.core.formatter.keep_type_declaration_on_one_line"@)
    }

    /// Read every field from the flat settings map; an id the map lacks, or a value that
    /// does not parse, leaves the field unset.
    pub fn from_map(m: &KvMap) -> (r: Self)
        ensures
            r.reads(m@),
    {
        reveal(OneLineBodies::reads);
        OneLineBodies {
            keep_annotation_declaration_on_one_line: Kv::field_enum(m, "org.eclipse.jdt.core.formatter.keep_annotation_declaration_on_one_line"),
            keep_anonymous_type_declaration_on_one_line: Kv::field_enum(m, "org.eclipse.jdt.core.formatter.keep_anonymous_type_declaration_on_one_line"),
            keep_code_block_on_one_line: Kv::field_enum(m, "org.eclipse.jdt.core.formatter.keep_code_block_on_one_line"),
            keep_empty_array_initializer_on_one_line: Kv::field_bool(m, "org.eclipse.jdt.core.formatter.keep_empty_array_initializer_on_one_line"),
            keep_enum_constant_declaration_on_one_line: Kv::field_enum(m, "org.eclipse.jdt.core.formatter.keep_enum_constant_declaration_on_one_line"),
            keep_enum_declaration_on_one_line: Kv::field_enum(m, "org.eclipse.jdt.core.formatter.keep_enum_declaration_on_one_line"),
            keep_if_then_body_block_on_one_line: Kv::field_enum(m, "org.eclipse.jdt.core.formatter.keep_if_then_body_block_on_one_line"),
            keep_imple_if_on_one_line: Kv::field_bool(m, "org.eclipse.jdt.core.formatter.keep_imple_if_on_one_line"),
            keep_lambda_body_block_on_one_line: Kv::field_enum(m, "org.eclipse.jdt.core.formatter.keep_lambda_body_block_on_one_line"),
            keep_loop_body_block_on_one_line: Kv::field_enum(m, "org.eclipse.jdt.core.formatter.keep_loop_body_block_on_one_line"),
            keep_method_body_on_one_line: Kv::field_enum(m, "org.eclipse.jdt.core.formatter.keep_method_body_on_one_line"),
            keep_record_constructor_on_one_line: Kv::field_enum(m, "org.eclipse.jdt.core.formatter.keep_record_constructor_on_one_line"),
            keep_record_declaration_on_one_line: Kv::field_enum(m, "org.eclipse.jdt.core.formatter.keep_record_declaration_on_one_line"),
            keep_simple_getter_setter_on_one_line: Kv::field_bool(m, "org.eclipse.jdt.core.formatter.keep_simple_getter_setter_on_one_line"),
            keep_switch_body_block_on_one_line: Kv::field_enum(m, "org.eclipse.jdt.core.formatter.keep_switch_body_block_on_one_line"),
            keep_switch_case_with_arrow_on_one_line: Kv::field_enum(m, "org.eclipse.jdt.core.formatter.keep_switch_case_with_arrow_on_one_line"),
            keep_type_declaration_on_one_line: Kv::field_enum(m, "org.eclipse.jdt.core.formatter.keep_type_declaration_on_one_line"),
        }
    }
}

} // verus!
