//! Eclipse JDT — the 25 `insert_new_line_*` settings.
//!
//! Line breaks at fixed structural positions (after an annotation, before `else`, at end of
//! file, …), each the two-valued [`Insert`].

use vstd::prelude::*;

use crate::import::kv::KvMap;
use crate::import::serde_kv::{Kv, lookup_enum};
use super::values::{Insert};

verus! {

/// The `insert_new_line_*` settings of a profile.
#[derive(Debug, Clone, Copy, Default, PartialEq, Eq)]
pub struct NewLines {
    /// `insert_new_line_after_annotation`. Deprecated: JDT still reads it and fans it out into the finer settings above.
    pub insert_new_line_after_annotation: Option<Insert>,
    /// `insert_new_line_after_annotation_on_enum_constant`.
    pub insert_new_line_after_annotation_on_enum_constant: Option<Insert>,
    /// `insert_new_line_after_annotation_on_field`.
    pub insert_new_line_after_annotation_on_field: Option<Insert>,
    /// `insert_new_line_after_annotation_on_local_variable`.
    pub insert_new_line_after_annotation_on_local_variable: Option<Insert>,
    /// `insert_new_line_after_annotation_on_member`. Deprecated: JDT still reads it and fans it out into the finer settings above.
    pub insert_new_line_after_annotation_on_member: Option<Insert>,
    /// `insert_new_line_after_annotation_on_method`.
    pub insert_new_line_after_annotation_on_method: Option<Insert>,
    /// `insert_new_line_after_annotation_on_package`.
    pub insert_new_line_after_annotation_on_package: Option<Insert>,
    /// `insert_new_line_after_annotation_on_parameter`.
    pub insert_new_line_after_annotation_on_parameter: Option<Insert>,
    /// `insert_new_line_after_annotation_on_type`.
    pub insert_new_line_after_annotation_on_type: Option<Insert>,
    /// `insert_new_line_after_label`.
    pub insert_new_line_after_label: Option<Insert>,
    /// `insert_new_line_after_opening_brace_in_array_initializer`.
    pub insert_new_line_after_opening_brace_in_array_initializer: Option<Insert>,
    /// `insert_new_line_after_type_annotation`.
    pub insert_new_line_after_type_annotation: Option<Insert>,
    /// `insert_new_line_at_end_of_file_if_missing`.
    pub insert_new_line_at_end_of_file_if_missing: Option<Insert>,
    /// `insert_new_line_before_catch_in_try_statement`.
    pub insert_new_line_before_catch_in_try_statement: Option<Insert>,
    /// `insert_new_line_before_closing_brace_in_array_initializer`.
    pub insert_new_line_before_closing_brace_in_array_initializer: Option<Insert>,
    /// `insert_new_line_before_else_in_if_statement`.
    pub insert_new_line_before_else_in_if_statement: Option<Insert>,
    /// `insert_new_line_before_finally_in_try_statement`.
    pub insert_new_line_before_finally_in_try_statement: Option<Insert>,
    /// `insert_new_line_before_while_in_do_statement`.
    pub insert_new_line_before_while_in_do_statement: Option<Insert>,
    /// `insert_new_line_in_empty_annotation_declaration`. Deprecated: JDT still reads it and fans it out into the finer settings above.
    pub insert_new_line_in_empty_annotation_declaration: Option<Insert>,
    /// `insert_new_line_in_empty_anonymous_type_declaration`. Deprecated: JDT still reads it and fans it out into the finer settings above.
    pub insert_new_line_in_empty_anonymous_type_declaration: Option<Insert>,
    /// `insert_new_line_in_empty_block`. Deprecated: JDT still reads it and fans it out into the finer settings above.
    pub insert_new_line_in_empty_block: Option<Insert>,
    /// `insert_new_line_in_empty_enum_constant`. Deprecated: JDT still reads it and fans it out into the finer settings above.
    pub insert_new_line_in_empty_enum_constant: Option<Insert>,
    /// `insert_new_line_in_empty_enum_declaration`. Deprecated: JDT still reads it and fans it out into the finer settings above.
    pub insert_new_line_in_empty_enum_declaration: Option<Insert>,
    /// `insert_new_line_in_empty_method_body`. Deprecated: JDT still reads it and fans it out into the finer settings above.
    pub insert_new_line_in_empty_method_body: Option<Insert>,
    /// `insert_new_line_in_empty_type_declaration`. Deprecated: JDT still reads it and fans it out into the finer settings above.
    pub insert_new_line_in_empty_type_declaration: Option<Insert>,
}

impl NewLines {
    /// Whether every field holds what the settings map gives its id.
    #[verifier::opaque]
    pub open spec fn reads(&self, m: Map<Seq<char>, Seq<char>>) -> bool {
        &&& self.insert_new_line_after_annotation == lookup_enum::<Insert>(m, "org.eclipse.jdt.core.formatter.insert_new_line_after_annotation"@)
        &&& self.insert_new_line_after_annotation_on_enum_constant == lookup_enum::<Insert>(m, "org.eclipse.jdt.core.formatter.insert_new_line_after_annotation_on_enum_constant"@)
        &&& self.insert_new_line_after_annotation_on_field == lookup_enum::<Insert>(m, "org.eclipse.jdt.core.formatter.insert_new_line_after_annotation_on_field"@)
        &&& self.insert_new_line_after_annotation_on_local_variable == lookup_enum::<Insert>(m, "org.eclipse.jdt.core.formatter.insert_new_line_after_annotation_on_local_variable"@)
        &&& self.insert_new_line_after_annotation_on_member == lookup_enum::<Insert>(m, "org.eclipse.jdt.core.formatter.insert_new_line_after_annotation_on_member"@)
        &&& self.insert_new_line_after_annotation_on_method == lookup_enum::<Insert>(m, "org.eclipse.jdt.core.formatter.insert_new_line_after_annotation_on_method"@)
        &&& self.insert_new_line_after_annotation_on_package == lookup_enum::<Insert>(m, "org.eclipse.jdt.core.formatter.insert_new_line_after_annotation_on_package"@)
        &&& self.insert_new_line_after_annotation_on_parameter == lookup_enum::<Insert>(m, "org.eclipse.jdt.core.formatter.insert_new_line_after_annotation_on_parameter"@)
        &&& self.insert_new_line_after_annotation_on_type == lookup_enum::<Insert>(m, "org.eclipse.jdt.core.formatter.insert_new_line_after_annotation_on_type"@)
        &&& self.insert_new_line_after_label == lookup_enum::<Insert>(m, "org.eclipse.jdt.core.formatter.insert_new_line_after_label"@)
        &&& self.insert_new_line_after_opening_brace_in_array_initializer == lookup_enum::<Insert>(m, "org.eclipse.jdt.core.formatter.insert_new_line_after_opening_brace_in_array_initializer"@)
        &&& self.insert_new_line_after_type_annotation == lookup_enum::<Insert>(m, "org.eclipse.jdt.core.formatter.insert_new_line_after_type_annotation"@)
        &&& self.insert_new_line_at_end_of_file_if_missing == lookup_enum::<Insert>(m, "org.eclipse.jdt.core.formatter.insert_new_line_at_end_of_file_if_missing"@)
        &&& self.insert_new_line_before_catch_in_try_statement == lookup_enum::<Insert>(m, "org.eclipse.jdt.core.formatter.insert_new_line_before_catch_in_try_statement"@)
        &&& self.insert_new_line_before_closing_brace_in_array_initializer == lookup_enum::<Insert>(m, "org.eclipse.jdt.core.formatter.insert_new_line_before_closing_brace_in_array_initializer"@)
        &&& self.insert_new_line_before_else_in_if_statement == lookup_enum::<Insert>(m, "org.eclipse.jdt.core.formatter.insert_new_line_before_else_in_if_statement"@)
        &&& self.insert_new_line_before_finally_in_try_statement == lookup_enum::<Insert>(m, "org.eclipse.jdt.core.formatter.insert_new_line_before_finally_in_try_statement"@)
        &&& self.insert_new_line_before_while_in_do_statement == lookup_enum::<Insert>(m, "org.eclipse.jdt.core.formatter.insert_new_line_before_while_in_do_statement"@)
        &&& self.insert_new_line_in_empty_annotation_declaration == lookup_enum::<Insert>(m, "org.eclipse.jdt.core.formatter.insert_new_line_in_empty_annotation_declaration"@)
        &&& self.insert_new_line_in_empty_anonymous_type_declaration == lookup_enum::<Insert>(m, "org.eclipse.jdt.core.formatter.insert_new_line_in_empty_anonymous_type_declaration"@)
        &&& self.insert_new_line_in_empty_block == lookup_enum::<Insert>(m, "org.eclipse.jdt.core.formatter.insert_new_line_in_empty_block"@)
        &&& self.insert_new_line_in_empty_enum_constant == lookup_enum::<Insert>(m, "org.eclipse.jdt.core.formatter.insert_new_line_in_empty_enum_constant"@)
        &&& self.insert_new_line_in_empty_enum_declaration == lookup_enum::<Insert>(m, "org.eclipse.jdt.core.formatter.insert_new_line_in_empty_enum_declaration"@)
        &&& self.insert_new_line_in_empty_method_body == lookup_enum::<Insert>(m, "org.eclipse.jdt.core.formatter.insert_new_line_in_empty_method_body"@)
        &&& self.insert_new_line_in_empty_type_declaration == lookup_enum::<Insert>(m, "org.eclipse.jdt.core.formatter.insert_new_line_in_empty_type_declaration"@)
    }

    /// Read every field from the flat settings map; an id the map lacks, or a value that
    /// does not parse, leaves the field unset.
    pub fn from_map(m: &KvMap) -> (r: Self)
        ensures
            r.reads(m@),
    {
        reveal(NewLines::reads);
        NewLines {
            insert_new_line_after_annotation: Kv::field_enum(m, "org.eclipse.jdt.core.formatter.insert_new_line_after_annotation"),
            insert_new_line_after_annotation_on_enum_constant: Kv::field_enum(m, "org.eclipse.jdt.core.formatter.insert_new_line_after_annotation_on_enum_constant"),
            insert_new_line_after_annotation_on_field: Kv::field_enum(m, "org.eclipse.jdt.core.formatter.insert_new_line_after_annotation_on_field"),
            insert_new_line_after_annotation_on_local_variable: Kv::field_enum(m, "org.eclipse.jdt.core.formatter.insert_new_line_after_annotation_on_local_variable"),
            insert_new_line_after_annotation_on_member: Kv::field_enum(m, "org.eclipse.jdt.core.formatter.insert_new_line_after_annotation_on_member"),
            insert_new_line_after_annotation_on_method: Kv::field_enum(m, "org.eclipse.jdt.core.formatter.insert_new_line_after_annotation_on_method"),
            insert_new_line_after_annotation_on_package: Kv::field_enum(m, "org.eclipse.jdt.core.formatter.insert_new_line_after_annotation_on_package"),
            insert_new_line_after_annotation_on_parameter: Kv::field_enum(m, "org.eclipse.jdt.core.formatter.insert_new_line_after_annotation_on_parameter"),
            insert_new_line_after_annotation_on_type: Kv::field_enum(m, "org.eclipse.jdt.core.formatter.insert_new_line_after_annotation_on_type"),
            insert_new_line_after_label: Kv::field_enum(m, "org.eclipse.jdt.core.formatter.insert_new_line_after_label"),
            insert_new_line_after_opening_brace_in_array_initializer: Kv::field_enum(m, "org.eclipse.jdt.core.formatter.insert_new_line_after_opening_brace_in_array_initializer"),
            insert_new_line_after_type_annotation: Kv::field_enum(m, "org.eclipse.jdt.core.formatter.insert_new_line_after_type_annotation"),
            insert_new_line_at_end_of_file_if_missing: Kv::field_enum(m, "org.eclipse.jdt.core.formatter.insert_new_line_at_end_of_file_if_missing"),
            insert_new_line_before_catch_in_try_statement: Kv::field_enum(m, "org.eclipse.jdt.core.formatter.insert_new_line_before_catch_in_try_statement"),
            insert_new_line_before_closing_brace_in_array_initializer: Kv::field_enum(m, "org.eclipse.jdt.core.formatter.insert_new_line_before_closing_brace_in_array_initializer"),
            insert_new_line_before_else_in_if_statement: Kv::field_enum(m, "org.eclipse.jdt.core.formatter.insert_new_line_before_else_in_if_statement"),
            insert_new_line_before_finally_in_try_statement: Kv::field_enum(m, "org.eclipse.jdt.core.formatter.insert_new_line_before_finally_in_try_statement"),
            insert_new_line_before_while_in_do_statement: Kv::field_enum(m, "org.eclipse.jdt.core.formatter.insert_new_line_before_while_in_do_statement"),
            insert_new_line_in_empty_annotation_declaration: Kv::field_enum(m, "org.eclipse.jdt.core.formatter.insert_new_line_in_empty_annotation_declaration"),
            insert_new_line_in_empty_anonymous_type_declaration: Kv::field_enum(m, "org.eclipse.jdt.core.formatter.insert_new_line_in_empty_anonymous_type_declaration"),
            insert_new_line_in_empty_block: Kv::field_enum(m, "org.eclipse.jdt.core.formatter.insert_new_line_in_empty_block"),
            insert_new_line_in_empty_enum_constant: Kv::field_enum(m, "org.eclipse.jdt.core.formatter.insert_new_line_in_empty_enum_constant"),
            insert_new_line_in_empty_enum_declaration: Kv::field_enum(m, "org.eclipse.jdt.core.formatter.insert_new_line_in_empty_enum_declaration"),
            insert_new_line_in_empty_method_body: Kv::field_enum(m, "org.eclipse.jdt.core.formatter.insert_new_line_in_empty_method_body"),
            insert_new_line_in_empty_type_declaration: Kv::field_enum(m, "org.eclipse.jdt.core.formatter.insert_new_line_in_empty_type_declaration"),
        }
    }
}

} // verus!
