//! Eclipse JDT — the 15 `brace_position_for_*` settings.
//!
//! Four-valued ([`BracePosition`]), one per construct. jals's `[braces]` section keeps six of

use vstd::prelude::*;

use crate::import::kv::KvMap;
use crate::import::serde_kv::{Kv, lookup_enum};
use super::values::{BracePosition};

verus! {

/// The `brace_position_for_*` settings of a profile.
#[derive(Debug, Clone, Copy, Default, PartialEq, Eq)]
pub struct Braces {
    /// `brace_position_for_annotation_type_declaration`.
    pub brace_position_for_annotation_type_declaration: Option<BracePosition>,
    /// `brace_position_for_anonymous_type_declaration`.
    pub brace_position_for_anonymous_type_declaration: Option<BracePosition>,
    /// `brace_position_for_array_initializer`.
    pub brace_position_for_array_initializer: Option<BracePosition>,
    /// `brace_position_for_block`.
    pub brace_position_for_block: Option<BracePosition>,
    /// `brace_position_for_block_in_case`.
    pub brace_position_for_block_in_case: Option<BracePosition>,
    /// `brace_position_for_block_in_case_after_arrow`.
    pub brace_position_for_block_in_case_after_arrow: Option<BracePosition>,
    /// `brace_position_for_constructor_declaration`.
    pub brace_position_for_constructor_declaration: Option<BracePosition>,
    /// `brace_position_for_enum_constant`.
    pub brace_position_for_enum_constant: Option<BracePosition>,
    /// `brace_position_for_enum_declaration`.
    pub brace_position_for_enum_declaration: Option<BracePosition>,
    /// `brace_position_for_lambda_body`.
    pub brace_position_for_lambda_body: Option<BracePosition>,
    /// `brace_position_for_method_declaration`.
    pub brace_position_for_method_declaration: Option<BracePosition>,
    /// `brace_position_for_record_constructor`.
    pub brace_position_for_record_constructor: Option<BracePosition>,
    /// `brace_position_for_record_declaration`.
    pub brace_position_for_record_declaration: Option<BracePosition>,
    /// `brace_position_for_switch`.
    pub brace_position_for_switch: Option<BracePosition>,
    /// `brace_position_for_type_declaration`.
    pub brace_position_for_type_declaration: Option<BracePosition>,
}

impl Braces {
    /// Whether every field holds what the settings map gives its id.
    #[verifier::opaque]
    pub open spec fn reads(&self, m: Map<Seq<char>, Seq<char>>) -> bool {
        &&& self.brace_position_for_annotation_type_declaration == lookup_enum::<BracePosition>(m, "org.eclipse.jdt.core.formatter.brace_position_for_annotation_type_declaration"@)
        &&& self.brace_position_for_anonymous_type_declaration == lookup_enum::<BracePosition>(m, "org.eclipse.jdt.core.formatter.brace_position_for_anonymous_type_declaration"@)
        &&& self.brace_position_for_array_initializer == lookup_enum::<BracePosition>(m, "org.eclipse.jdt.core.formatter.brace_position_for_array_initializer"@)
        &&& self.brace_position_for_block == lookup_enum::<BracePosition>(m, "org.eclipse.jdt.core.formatter.brace_position_for_block"@)
        &&& self.brace_position_for_block_in_case == lookup_enum::<BracePosition>(m, "org.eclipse.jdt.core.formatter.brace_position_for_block_in_case"@)
        &&& self.brace_position_for_block_in_case_after_arrow == lookup_enum::<BracePosition>(m, "org.eclipse.jdt.core.formatter.brace_position_for_block_in_case_after_arrow"@)
        &&& self.brace_position_for_constructor_declaration == lookup_enum::<BracePosition>(m, "org.eclipse.jdt.core.formatter.brace_position_for_constructor_declaration"@)
        &&& self.brace_position_for_enum_constant == lookup_enum::<BracePosition>(m, "org.eclipse.jdt.core.formatter.brace_position_for_enum_constant"@)
        &&& self.brace_position_for_enum_declaration == lookup_enum::<BracePosition>(m, "org.eclipse.jdt.core.formatter.brace_position_for_enum_declaration"@)
        &&& self.brace_position_for_lambda_body == lookup_enum::<BracePosition>(m, "org.eclipse.jdt.core.formatter.brace_position_for_lambda_body"@)
        &&& self.brace_position_for_method_declaration == lookup_enum::<BracePosition>(m, "org.eclipse.jdt.core.formatter.brace_position_for_method_declaration"@)
        &&& self.brace_position_for_record_constructor == lookup_enum::<BracePosition>(m, "org.eclipse.jdt.core.formatter.brace_position_for_record_constructor"@)
        &&& self.brace_position_for_record_declaration == lookup_enum::<BracePosition>(m, "org.eclipse.jdt.core.formatter.brace_position_for_record_declaration"@)
        &&& self.brace_position_for_switch == lookup_enum::<BracePosition>(m, "org.eclipse.jdt.core.formatter.brace_position_for_switch"@)
        &&& self.brace_position_for_type_declaration == lookup_enum::<BracePosition>(m, "org.eclipse.jdt.core.formatter.brace_position_for_type_declaration"@)
    }

    /// Read every field from the flat settings map; an id the map lacks, or a value that
    /// does not parse, leaves the field unset.
    pub fn from_map(m: &KvMap) -> (r: Self)
        ensures
            r.reads(m@),
    {
        reveal(Braces::reads);
        Braces {
            brace_position_for_annotation_type_declaration: Kv::field_enum(m, "org.eclipse.jdt.core.formatter.brace_position_for_annotation_type_declaration"),
            brace_position_for_anonymous_type_declaration: Kv::field_enum(m, "org.eclipse.jdt.core.formatter.brace_position_for_anonymous_type_declaration"),
            brace_position_for_array_initializer: Kv::field_enum(m, "org.eclipse.jdt.core.formatter.brace_position_for_array_initializer"),
            brace_position_for_block: Kv::field_enum(m, "org.eclipse.jdt.core.formatter.brace_position_for_block"),
            brace_position_for_block_in_case: Kv::field_enum(m, "org.eclipse.jdt.core.formatter.brace_position_for_block_in_case"),
            brace_position_for_block_in_case_after_arrow: Kv::field_enum(m, "org.eclipse.jdt.core.formatter.brace_position_for_block_in_case_after_arrow"),
            brace_position_for_constructor_declaration: Kv::field_enum(m, "org.eclipse.jdt.core.formatter.brace_position_for_constructor_declaration"),
            brace_position_for_enum_constant: Kv::field_enum(m, "org.eclipse.jdt.core.formatter.brace_position_for_enum_constant"),
            brace_position_for_enum_declaration: Kv::field_enum(m, "org.eclipse.jdt.core.formatter.brace_position_for_enum_declaration"),
            brace_position_for_lambda_body: Kv::field_enum(m, "org.eclipse.jdt.core.formatter.brace_position_for_lambda_body"),
            brace_position_for_method_declaration: Kv::field_enum(m, "org.eclipse.jdt.core.formatter.brace_position_for_method_declaration"),
            brace_position_for_record_constructor: Kv::field_enum(m, "org.eclipse.jdt.core.formatter.brace_position_for_record_constructor"),
            brace_position_for_record_declaration: Kv::field_enum(m, "org.eclipse.jdt.core.formatter.brace_position_for_record_declaration"),
            brace_position_for_switch: Kv::field_enum(m, "org.eclipse.jdt.core.formatter.brace_position_for_switch"),
            brace_position_for_type_declaration: Kv::field_enum(m, "org.eclipse.jdt.core.formatter.brace_position_for_type_declaration"),
        }
    }
}

} // verus!
