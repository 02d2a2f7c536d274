//! IntelliJ — the code-generation and refactoring preferences of `JavaCodeStyleSettings`.
//!
//! Like [`super::naming`], these live in the `ij_java_*` surface without being formatter

use vstd::prelude::*;

use crate::import::kv::KvMap;
use crate::import::serde_kv::{Kv, lookup_bool, lookup_list, opt_strings_view};

verus! {

/// The code-generation preferences of a Java code style (not formatter rules).
#[derive(Debug, Clone, Default, PartialEq, Eq)]
pub struct IntellijCodegen {
    /// `GENERATE_FINAL_LOCALS` in `<JavaCodeStyleSettings>`; `ij_java_generate_final_locals` in `.editorconfig`.
    pub generate_final_locals: Option<bool>,
    /// `GENERATE_FINAL_PARAMETERS` in `<JavaCodeStyleSettings>`; `ij_java_generate_final_parameters` in `.editorconfig`.
    pub generate_final_parameters: Option<bool>,
    /// `GENERATE_USE_TYPE_ANNOTATION_BEFORE_TYPE` in `<JavaCodeStyleSettings>`; `ij_java_generate_use_type_annotation_before_type` in `.editorconfig`.
    pub generate_use_type_annotation_before_type: Option<bool>,
    /// `INSERT_OVERRIDE_ANNOTATION` in `<JavaCodeStyleSettings>`; `ij_java_insert_override_annotation` in `.editorconfig`.
    pub insert_override_annotation: Option<bool>,
    /// `REPEAT_ANNOTATIONS` in `<JavaCodeStyleSettings>`; `ij_java_repeat_annotations` in `.editorconfig`.
    pub repeat_annotations: Option<Vec<String>>,
    /// `REPEAT_SYNCHRONIZED` in `<JavaCodeStyleSettings>`; `ij_java_repeat_synchronized` in `.editorconfig`.
    pub repeat_synchronized: Option<bool>,
    /// `REPLACE_CAST` in `<JavaCodeStyleSettings>`; `ij_java_replace_cast` in `.editorconfig`.
    pub replace_cast: Option<bool>,
    /// `REPLACE_INSTANCEOF` in `<JavaCodeStyleSettings>`; `ij_java_replace_instanceof` in `.editorconfig`.
    pub replace_instanceof: Option<bool>,
    /// `REPLACE_INSTANCEOF_AND_CAST` in `<JavaCodeStyleSettings>`; `ij_java_replace_instanceof_and_cast` in `.editorconfig`.
    pub replace_instanceof_and_cast: Option<bool>,
    /// `REPLACE_NULL_CHECK` in `<JavaCodeStyleSettings>`; `ij_java_replace_null_check` in `.editorconfig`.
    pub replace_null_check: Option<bool>,
    /// `REPLACE_SUM` in `<JavaCodeStyleSettings>`; `ij_java_replace_sum_lambda_with_method_ref` in `.editorconfig`.
    pub replace_sum: Option<bool>,
    /// `USE_EXTERNAL_ANNOTATIONS` in `<JavaCodeStyleSettings>`; `ij_java_use_external_annotations` in `.editorconfig`.
    pub use_external_annotations: Option<bool>,
}

impl IntellijCodegen {
    /// Whether every field holds what the settings map gives its id.
    #[verifier::opaque]
    pub open spec fn reads(&self, m: Map<Seq<char>, Seq<char>>) -> bool {
        &&& self.generate_final_locals == lookup_bool(m, "GENERATE_FINAL_LOCALS"@)
        &&& self.generate_final_parameters == lookup_bool(m, "GENERATE_FINAL_PARAMETERS"@)
        &&& self.generate_use_type_annotation_before_type == lookup_bool(m, "GENERATE_USE_TYPE_ANNOTATION_BEFORE_TYPE"@)
        &&& self.insert_override_annotation == lookup_bool(m, "INSERT_OVERRIDE_ANNOTATION"@)
        &&& opt_strings_view(self.repeat_annotations) == lookup_list(m, "REPEAT_ANNOTATIONS"@)
        &&& self.repeat_synchronized == lookup_bool(m, "REPEAT_SYNCHRONIZED"@)
        &&& self.replace_cast == lookup_bool(m, "REPLACE_CAST"@)
        &&& self.replace_instanceof == lookup_bool(m, "REPLACE_INSTANCEOF"@)
        &&& self.replace_instanceof_and_cast == lookup_bool(m, "REPLACE_INSTANCEOF_AND_CAST"@)
        &&& self.replace_null_check == lookup_bool(m, "REPLACE_NULL_CHECK"@)
        &&& self.replace_sum == lookup_bool(m, "REPLACE_SUM"@)
        &&& self.use_external_annotations == lookup_bool(m, "USE_EXTERNAL_ANNOTATIONS"@)
    }

    /// Read every field from the flat settings map; an id the map lacks, or a value that
    /// does not parse, leaves the field unset.
    pub fn from_map(m: &KvMap) -> (r: Self)
        ensures
            r.reads(m@),
    {
        reveal(IntellijCodegen::reads);
        IntellijCodegen {
            generate_final_locals: Kv::field_bool(m, "GENERATE_FINAL_LOCALS"),
            generate_final_parameters: Kv::field_bool(m, "GENERATE_FINAL_PARAMETERS"),
            generate_use_type_annotation_before_type: Kv::field_bool(m, "GENERATE_USE_TYPE_ANNOTATION_BEFORE_TYPE"),
            insert_override_annotation: Kv::field_bool(m, "INSERT_OVERRIDE_ANNOTATION"),
            repeat_annotations: Kv::field_list(m, "REPEAT_ANNOTATIONS"),
            repeat_synchronized: Kv::field_bool(m, "REPEAT_SYNCHRONIZED"),
            replace_cast: Kv::field_bool(m, "REPLACE_CAST"),
            replace_instanceof: Kv::field_bool(m, "REPLACE_INSTANCEOF"),
            replace_instanceof_and_cast: Kv::field_bool(m, "REPLACE_INSTANCEOF_AND_CAST"),
            replace_null_check: Kv::field_bool(m, "REPLACE_NULL_CHECK"),
            replace_sum: Kv::field_bool(m, "REPLACE_SUM"),
            use_external_annotations: Kv::field_bool(m, "USE_EXTERNAL_ANNOTATIONS"),
        }
    }
}

} // verus!
