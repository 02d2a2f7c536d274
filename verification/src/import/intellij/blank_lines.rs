//! IntelliJ — the `BLANK_LINES_*` (enforced) and `KEEP_BLANK_LINES_*` (preserved) counts.

use vstd::prelude::*;

use crate::import::kv::KvMap;
use crate::import::serde_kv::{Kv, lookup_i64};

verus! {

/// The blank-line settings of a Java code style.
#[derive(Debug, Clone, Copy, Default, PartialEq, Eq)]
pub struct IntellijBlankLines {
    /// `BLANK_LINES_AFTER_ANONYMOUS_CLASS_HEADER` in `<codeStyleSettings language="JAVA">`; `ij_java_blank_lines_after_anonymous_class_header` in `.editorconfig`.
    pub blank_lines_after_anonymous_class_header: Option<i64>,
    /// `BLANK_LINES_AFTER_CLASS_HEADER` in `<codeStyleSettings language="JAVA">`; `ij_java_blank_lines_after_class_header` in `.editorconfig`.
    pub blank_lines_after_class_header: Option<i64>,
    /// `BLANK_LINES_AFTER_IMPORTS` in `<codeStyleSettings language="JAVA">`; `ij_java_blank_lines_after_imports` in `.editorconfig`.
    pub blank_lines_after_imports: Option<i64>,
    /// `BLANK_LINES_AFTER_PACKAGE` in `<codeStyleSettings language="JAVA">`; `ij_java_blank_lines_after_package` in `.editorconfig`.
    pub blank_lines_after_package: Option<i64>,
    /// `BLANK_LINES_AROUND_CLASS` in `<codeStyleSettings language="JAVA">`; `ij_java_blank_lines_around_class` in `.editorconfig`.
    pub blank_lines_around_class: Option<i64>,
    /// `BLANK_LINES_AROUND_FIELD` in `<codeStyleSettings language="JAVA">`; `ij_java_blank_lines_around_field` in `.editorconfig`.
    pub blank_lines_around_field: Option<i64>,
    /// `BLANK_LINES_AROUND_FIELD_IN_INTERFACE` in `<codeStyleSettings language="JAVA">`; `ij_java_blank_lines_around_field_in_interface` in `.editorconfig`.
    pub blank_lines_around_field_in_interface: Option<i64>,
    /// `BLANK_LINES_AROUND_FIELD_WITH_ANNOTATIONS` in `<JavaCodeStyleSettings>`; `ij_java_blank_lines_around_field_with_annotations` in `.editorconfig`.
    pub blank_lines_around_field_with_annotations: Option<i64>,
    /// `BLANK_LINES_AROUND_INITIALIZER` in `<JavaCodeStyleSettings>`; `ij_java_blank_lines_around_initializer` in `.editorconfig`.
    pub blank_lines_around_initializer: Option<i64>,
    /// `BLANK_LINES_AROUND_METHOD` in `<codeStyleSettings language="JAVA">`; `ij_java_blank_lines_around_method` in `.editorconfig`.
    pub blank_lines_around_method: Option<i64>,
    /// `BLANK_LINES_AROUND_METHOD_IN_INTERFACE` in `<codeStyleSettings language="JAVA">`; `ij_java_blank_lines_around_method_in_interface` in `.editorconfig`.
    pub blank_lines_around_method_in_interface: Option<i64>,
    /// `BLANK_LINES_BEFORE_CLASS_END` in `<codeStyleSettings language="JAVA">`; `ij_java_blank_lines_before_class_end` in `.editorconfig`.
    pub blank_lines_before_class_end: Option<i64>,
    /// `BLANK_LINES_BEFORE_IMPORTS` in `<codeStyleSettings language="JAVA">`; `ij_java_blank_lines_before_imports` in `.editorconfig`.
    pub blank_lines_before_imports: Option<i64>,
    /// `BLANK_LINES_BEFORE_METHOD_BODY` in `<codeStyleSettings language="JAVA">`; `ij_java_blank_lines_before_method_body` in `.editorconfig`.
    pub blank_lines_before_method_body: Option<i64>,
    /// `BLANK_LINES_BEFORE_PACKAGE` in `<codeStyleSettings language="JAVA">`; `ij_java_blank_lines_before_package` in `.editorconfig`.
    pub blank_lines_before_package: Option<i64>,
    /// `BLANK_LINES_BETWEEN_CASE_BLOCKS` in `<codeStyleSettings language="JAVA">`; `ij_java_blank_lines_between_case_blocks` in `.editorconfig`.
    pub blank_lines_between_case_blocks: Option<i64>,
    /// `BLANK_LINES_BETWEEN_RECORD_COMPONENTS` in `<JavaCodeStyleSettings>`; `ij_java_blank_lines_between_record_components` in `.editorconfig`.
    pub blank_lines_between_record_components: Option<i64>,
    /// `KEEP_BLANK_LINES_BEFORE_RBRACE` in `<codeStyleSettings language="JAVA">`; `ij_java_keep_blank_lines_before_right_brace` in `.editorconfig`.
    pub keep_blank_lines_before_rbrace: Option<i64>,
    /// `KEEP_BLANK_LINES_BETWEEN_PACKAGE_DECLARATION_AND_HEADER` in `<codeStyleSettings language="JAVA">`; `ij_java_keep_blank_lines_between_package_declaration_and_header` in `.editorconfig`.
    pub keep_blank_lines_between_package_declaration_and_header: Option<i64>,
    /// `KEEP_BLANK_LINES_IN_CODE` in `<codeStyleSettings language="JAVA">`; `ij_java_keep_blank_lines_in_code` in `.editorconfig`.
    pub keep_blank_lines_in_code: Option<i64>,
    /// `KEEP_BLANK_LINES_IN_DECLARATIONS` in `<codeStyleSettings language="JAVA">`; `ij_java_keep_blank_lines_in_declarations` in `.editorconfig`.
    pub keep_blank_lines_in_declarations: Option<i64>,
}

impl IntellijBlankLines {
    /// Whether every field holds what the settings map gives its id.
    #[verifier::opaque]
    pub open spec fn reads(&self, m: Map<Seq<char>, Seq<char>>) -> bool {
        &&& self.blank_lines_after_anonymous_class_header == lookup_i64(m, "BLANK_LINES_AFTER_ANONYMOUS_CLASS_HEADER"@)
        &&& self.blank_lines_after_class_header == lookup_i64(m, "BLANK_LINES_AFTER_CLASS_HEADER"@)
        &&& self.blank_lines_after_imports == lookup_i64(m, "BLANK_LINES_AFTER_IMPORTS"@)
        &&& self.blank_lines_after_package == lookup_i64(m, "BLANK_LINES_AFTER_PACKAGE"@)
        &&& self.blank_lines_around_class == lookup_i64(m, "BLANK_LINES_AROUND_CLASS"@)
        &&& self.blank_lines_around_field == lookup_i64(m, "BLANK_LINES_AROUND_FIELD"@)
        &&& self.blank_lines_around_field_in_interface == lookup_i64(m, "BLANK_LINES_AROUND_FIELD_IN_INTERFACE"@)
        &&& self.blank_lines_around_field_with_annotations == lookup_i64(m, "BLANK_LINES_AROUND_FIELD_WITH_ANNOTATIONS"@)
        &&& self.blank_lines_around_initializer == lookup_i64(m, "BLANK_LINES_AROUND_INITIALIZER"@)
        &&& self.blank_lines_around_method == lookup_i64(m, "BLANK_LINES_AROUND_METHOD"@)
        &&& self.blank_lines_around_method_in_interface == lookup_i64(m, "BLANK_LINES_AROUND_METHOD_IN_INTERFACE"@)
        &&& self.blank_lines_before_class_end == lookup_i64(m, "BLANK_LINES_BEFORE_CLASS_END"@)
        &&& self.blank_lines_before_imports == lookup_i64(m, "BLANK_LINES_BEFORE_IMPORTS"@)
        &&& self.blank_lines_before_method_body == lookup_i64(m, "BLANK_LINES_BEFORE_METHOD_BODY"@)
        &&& self.blank_lines_before_package == lookup_i64(m, "BLANK_LINES_BEFORE_PACKAGE"@)
        &&& self.blank_lines_between_case_blocks == lookup_i64(m, "BLANK_LINES_BETWEEN_CASE_BLOCKS"@)
        &&& self.blank_lines_between_record_components == lookup_i64(m, "BLANK_LINES_BETWEEN_RECORD_COMPONENTS"@)
        &&& self.keep_blank_lines_before_rbrace == lookup_i64(m, "KEEP_BLANK_LINES_BEFORE_RBRACE"@)
        &&& self.keep_blank_lines_between_package_declaration_and_header == lookup_i64(m, "KEEP_BLANK_LINES_BETWEEN_PACKAGE_DECLARATION_AND_HEADER"@)
        &&& self.keep_blank_lines_in_code == lookup_i64(m, "KEEP_BLANK_LINES_IN_CODE"@)
        &&& self.keep_blank_lines_in_declarations == lookup_i64(m, "KEEP_BLANK_LINES_IN_DECLARATIONS"@)
    }

    /// Read every field from the flat settings map; an id the map lacks, or a value that
    /// does not parse, leaves the field unset.
    pub fn from_map(m: &KvMap) -> (r: Self)
        ensures
            r.reads(m@),
    {
        reveal(IntellijBlankLines::reads);
        IntellijBlankLines {
            blank_lines_after_anonymous_class_header: Kv::field_i64(m, "BLANK_LINES_AFTER_ANONYMOUS_CLASS_HEADER"),
            blank_lines_after_class_header: Kv::field_i64(m, "BLANK_LINES_AFTER_CLASS_HEADER"),
            blank_lines_after_imports: Kv::field_i64(m, "BLANK_LINES_AFTER_IMPORTS"),
            blank_lines_after_package: Kv::field_i64(m, "BLANK_LINES_AFTER_PACKAGE"),
            blank_lines_around_class: Kv::field_i64(m, "BLANK_LINES_AROUND_CLASS"),
            blank_lines_around_field: Kv::field_i64(m, "BLANK_LINES_AROUND_FIELD"),
            blank_lines_around_field_in_interface: Kv::field_i64(m, "BLANK_LINES_AROUND_FIELD_IN_INTERFACE"),
            blank_lines_around_field_with_annotations: Kv::field_i64(m, "BLANK_LINES_AROUND_FIELD_WITH_ANNOTATIONS"),
            blank_lines_around_initializer: Kv::field_i64(m, "BLANK_LINES_AROUND_INITIALIZER"),
            blank_lines_around_method: Kv::field_i64(m, "BLANK_LINES_AROUND_METHOD"),
            blank_lines_around_method_in_interface: Kv::field_i64(m, "BLANK_LINES_AROUND_METHOD_IN_INTERFACE"),
            blank_lines_before_class_end: Kv::field_i64(m, "BLANK_LINES_BEFORE_CLASS_END"),
            blank_lines_before_imports: Kv::field_i64(m, "BLANK_LINES_BEFORE_IMPORTS"),
            blank_lines_before_method_body: Kv::field_i64(m, "BLANK_LINES_BEFORE_METHOD_BODY"),
            blank_lines_before_package: Kv::field_i64(m, "BLANK_LINES_BEFORE_PACKAGE"),
            blank_lines_between_case_blocks: Kv::field_i64(m, "BLANK_LINES_BETWEEN_CASE_BLOCKS"),
            blank_lines_between_record_components: Kv::field_i64(m, "BLANK_LINES_BETWEEN_RECORD_COMPONENTS"),
            keep_blank_lines_before_rbrace: Kv::field_i64(m, "KEEP_BLANK_LINES_BEFORE_RBRACE"),
            keep_blank_lines_between_package_declaration_and_header: Kv::field_i64(m, "KEEP_BLANK_LINES_BETWEEN_PACKAGE_DECLARATION_AND_HEADER"),
            keep_blank_lines_in_code: Kv::field_i64(m, "KEEP_BLANK_LINES_IN_CODE"),
            keep_blank_lines_in_declarations: Kv::field_i64(m, "KEEP_BLANK_LINES_IN_DECLARATIONS"),
        }
    }
}

} // verus!
