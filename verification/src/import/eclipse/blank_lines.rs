//! Eclipse JDT — the `blank_lines_*` and `number_of_*` counts.
//!
//! Both the *enforced* counts (`blank_lines_before_method`) and the *preserved* ones
//! (`number_of_empty_lines_to_preserve`), which is the split jals's `[blank-lines]` mirrors.

use vstd::prelude::*;

use crate::import::kv::KvMap;
use crate::import::serde_kv::{Kv, lookup_usize};

verus! {

/// The blank-line counts of a profile.
#[derive(Debug, Clone, Copy, Default, PartialEq, Eq)]
pub struct BlankLines {
    /// `blank_lines_after_imports`.
    pub blank_lines_after_imports: Option<usize>,
    /// `blank_lines_after_last_class_body_declaration`.
    pub blank_lines_after_last_class_body_declaration: Option<usize>,
    /// `blank_lines_after_package`.
    pub blank_lines_after_package: Option<usize>,
    /// `blank_lines_before_abstract_method`.
    pub blank_lines_before_abstract_method: Option<usize>,
    /// `blank_lines_before_field`.
    pub blank_lines_before_field: Option<usize>,
    /// `blank_lines_before_first_class_body_declaration`.
    pub blank_lines_before_first_class_body_declaration: Option<usize>,
    /// `blank_lines_before_imports`.
    pub blank_lines_before_imports: Option<usize>,
    /// `blank_lines_before_member_type`.
    pub blank_lines_before_member_type: Option<usize>,
    /// `blank_lines_before_method`.
    pub blank_lines_before_method: Option<usize>,
    /// `blank_lines_before_new_chunk`.
    pub blank_lines_before_new_chunk: Option<usize>,
    /// `blank_lines_before_package`.
    pub blank_lines_before_package: Option<usize>,
    /// `blank_lines_between_import_groups`.
    pub blank_lines_between_import_groups: Option<usize>,
    /// `blank_lines_between_statement_group_in_switch`.
    pub blank_lines_between_statement_group_in_switch: Option<usize>,
    /// `blank_lines_between_type_declarations`.
    pub blank_lines_between_type_declarations: Option<usize>,
    /// `number_of_blank_lines_after_code_block`.
    pub number_of_blank_lines_after_code_block: Option<usize>,
    /// `number_of_blank_lines_at_beginning_of_code_block`.
    pub number_of_blank_lines_at_beginning_of_code_block: Option<usize>,
    /// `number_of_blank_lines_at_beginning_of_method_body`.
    pub number_of_blank_lines_at_beginning_of_method_body: Option<usize>,
    /// `number_of_blank_lines_at_end_of_code_block`.
    pub number_of_blank_lines_at_end_of_code_block: Option<usize>,
    /// `number_of_blank_lines_at_end_of_method_body`.
    pub number_of_blank_lines_at_end_of_method_body: Option<usize>,
    /// `number_of_blank_lines_before_code_block`.
    pub number_of_blank_lines_before_code_block: Option<usize>,
    /// `number_of_empty_lines_to_preserve`.
    pub number_of_empty_lines_to_preserve: Option<usize>,
}

impl BlankLines {
    /// Whether every field holds what the settings map gives its id.
    #[verifier::opaque]
    pub open spec fn reads(&self, m: Map<Seq<char>, Seq<char>>) -> bool {
        &&& self.blank_lines_after_imports == lookup_usize(m, "org.eclipse.jdt.core.formatter.blank_lines_after_imports"@)
        &&& self.blank_lines_after_last_class_body_declaration == lookup_usize(m, "org.eclipse.jdt.core.formatter.blank_lines_after_last_class_body_declaration"@)
        &&& self.blank_lines_after_package == lookup_usize(m, "org.eclipse.jdt.core.formatter.blank_lines_after_package"@)
        &&& self.blank_lines_before_abstract_method == lookup_usize(m, "org.eclipse.jdt.core.formatter.blank_lines_before_abstract_method"@)
        &&& self.blank_lines_before_field == lookup_usize(m, "org.eclipse.jdt.core.formatter.blank_lines_before_field"@)
        &&& self.blank_lines_before_first_class_body_declaration == lookup_usize(m, "org.eclipse.jdt.core.formatter.blank_lines_before_first_class_body_declaration"@)
        &&& self.blank_lines_before_imports == lookup_usize(m, "org.eclipse.jdt.core.formatter.blank_lines_before_imports"@)
        &&& self.blank_lines_before_member_type == lookup_usize(m, "org.eclipse.jdt.core.formatter.blank_lines_before_member_type"@)
        &&& self.blank_lines_before_method == lookup_usize(m, "org.eclipse.jdt.core.formatter.blank_lines_before_method"@)
        &&& self.blank_lines_before_new_chunk == lookup_usize(m, "org.eclipse.jdt.core.formatter.blank_lines_before_new_chunk"@)
        &&& self.blank_lines_before_package == lookup_usize(m, "org.eclipse.jdt.core.formatter.blank_lines_before_package"@)
        &&& self.blank_lines_between_import_groups == lookup_usize(m, "org.eclipse.jdt.core.formatter.blank_lines_between_import_groups"@)
        &&& self.blank_lines_between_statement_group_in_switch == lookup_usize(m, "org.eclipse.jdt.core.formatter.blank_lines_between_statement_group_in_switch"@)
        &&& self.blank_lines_between_type_declarations == lookup_usize(m, "org.eclipse.jdt.core.formatter.blank_lines_between_type_declarations"@)
        &&& self.number_of_blank_lines_after_code_block == lookup_usize(m, "org.eclipse.jdt.core.formatter.number_of_blank_lines_after_code_block"@)
        &&& self.number_of_blank_lines_at_beginning_of_code_block == lookup_usize(m, "org.eclipse.jdt.core.formatter.number_of_blank_lines_at_beginning_of_code_block"@)
        &&& self.number_of_blank_lines_at_beginning_of_method_body == lookup_usize(m, "org.eclipse.jdt.core.formatter.number_of_blank_lines_at_beginning_of_method_body"@)
        &&& self.number_of_blank_lines_at_end_of_code_block == lookup_usize(m, "org.eclipse.jdt.core.formatter.number_of_blank_lines_at_end_of_code_block"@)
        &&& self.number_of_blank_lines_at_end_of_method_body == lookup_usize(m, "org.eclipse.jdt.core.formatter.number_of_blank_lines_at_end_of_method_body"@)
        &&& self.number_of_blank_lines_before_code_block == lookup_usize(m, "org.eclipse.jdt.core.formatter.number_of_blank_lines_before_code_block"@)
        &&& self.number_of_empty_lines_to_preserve == lookup_usize(m, "org.eclipse.jdt.core.formatter.number_of_empty_lines_to_preserve"@)
    }

    /// Read every field from the flat settings map; an id the map lacks, or a value that
    /// does not parse, leaves the field unset.
    pub fn from_map(m: &KvMap) -> (r: Self)
        ensures
            r.reads(m@),
    {
        reveal(BlankLines::reads);
        BlankLines {
            blank_lines_after_imports: Kv::field_usize(m, "org.eclipse.jdt.core.formatter.blank_lines_after_imports"),
            blank_lines_after_last_class_body_declaration: Kv::field_usize(m, "org.eclipse.jdt.core.formatter.blank_lines_after_last_class_body_declaration"),
            blank_lines_after_package: Kv::field_usize(m, "org.eclipse.jdt.core.formatter.blank_lines_after_package"),
            blank_lines_before_abstract_method: Kv::field_usize(m, "org.eclipse.jdt.core.formatter.blank_lines_before_abstract_method"),
            blank_lines_before_field: Kv::field_usize(m, "org.eclipse.jdt.core.formatter.blank_lines_before_field"),
            blank_lines_before_first_class_body_declaration: Kv::field_usize(m, "org.eclipse.jdt.core.formatter.blank_lines_before_first_class_body_declaration"),
            blank_lines_before_imports: Kv::field_usize(m, "org.eclipse.jdt.core.formatter.blank_lines_before_imports"),
            blank_lines_before_member_type: Kv::field_usize(m, "org.eclipse.jdt.core.formatter.blank_lines_before_member_type"),
            blank_lines_before_method: Kv::field_usize(m, "org.eclipse.jdt.core.formatter.blank_lines_before_method"),
            blank_lines_before_new_chunk: Kv::field_usize(m, "org.eclipse.jdt.core.formatter.blank_lines_before_new_chunk"),
            blank_lines_before_package: Kv::field_usize(m, "org.eclipse.jdt.core.formatter.blank_lines_before_package"),
            blank_lines_between_import_groups: Kv::field_usize(m, "org.eclipse.jdt.core.formatter.blank_lines_between_import_groups"),
            blank_lines_between_statement_group_in_switch: Kv::field_usize(m, "org.eclipse.jdt.core.formatter.blank_lines_between_statement_group_in_switch"),
            blank_lines_between_type_declarations: Kv::field_usize(m, "org.eclipse.jdt.core.formatter.blank_lines_between_type_declarations"),
            number_of_blank_lines_after_code_block: Kv::field_usize(m, "org.eclipse.jdt.core.formatter.number_of_blank_lines_after_code_block"),
            number_of_blank_lines_at_beginning_of_code_block: Kv::field_usize(m, "org.eclipse.jdt.core.formatter.number_of_blank_lines_at_beginning_of_code_block"),
            number_of_blank_lines_at_beginning_of_method_body: Kv::field_usize(m, "org.eclipse.jdt.core.formatter.number_of_blank_lines_at_beginning_of_method_body"),
            number_of_blank_lines_at_end_of_code_block: Kv::field_usize(m, "org.eclipse.jdt.core.formatter.number_of_blank_lines_at_end_of_code_block"),
            number_of_blank_lines_at_end_of_method_body: Kv::field_usize(m, "org.eclipse.jdt.core.formatter.number_of_blank_lines_at_end_of_method_body"),
            number_of_blank_lines_before_code_block: Kv::field_usize(m, "org.eclipse.jdt.core.formatter.number_of_blank_lines_before_code_block"),
            number_of_empty_lines_to_preserve: Kv::field_usize(m, "org.eclipse.jdt.core.formatter.number_of_empty_lines_to_preserve"),
        }
    }
}

} // verus!
