//! IntelliJ — the Javadoc settings of `JavaCodeStyleSettings`.
//!
//! Their fields are named `JD_*` but every one carries an `@Property(externalName = "doc_*")`,
//! so the XML name and the editorconfig key differ by more than case here.

use vstd::prelude::*;

use crate::import::kv::KvMap;
use crate::import::serde_kv::{Kv, lookup_bool, lookup_i64};

verus! {

/// The Javadoc settings of a Java code style.
#[derive(Debug, Clone, Copy, Default, PartialEq, Eq)]
pub struct IntellijJavadoc {
    /// `CLASS_NAMES_IN_JAVADOC` in `<JavaCodeStyleSettings>`; `ij_java_class_names_in_javadoc` in `.editorconfig`.
    pub class_names_in_javadoc: Option<i64>,
    /// `ENABLE_JAVADOC_FORMATTING` in `<JavaCodeStyleSettings>`; `ij_java_doc_enable_formatting` in `.editorconfig`.
    pub enable_javadoc_formatting: Option<bool>,
    /// `JD_ADD_BLANK_AFTER_DESCRIPTION` in `<JavaCodeStyleSettings>`; `ij_java_doc_add_blank_line_after_description` in `.editorconfig`.
    pub jd_add_blank_after_description: Option<bool>,
    /// `JD_ADD_BLANK_AFTER_PARM_COMMENTS` in `<JavaCodeStyleSettings>`; `ij_java_doc_add_blank_line_after_param_comments` in `.editorconfig`.
    pub jd_add_blank_after_parm_comments: Option<bool>,
    /// `JD_ADD_BLANK_AFTER_RETURN` in `<JavaCodeStyleSettings>`; `ij_java_doc_add_blank_line_after_return` in `.editorconfig`.
    pub jd_add_blank_after_return: Option<bool>,
    /// `JD_ALIGN_EXCEPTION_COMMENTS` in `<JavaCodeStyleSettings>`; `ij_java_doc_align_exception_comments` in `.editorconfig`.
    pub jd_align_exception_comments: Option<bool>,
    /// `JD_ALIGN_PARAM_COMMENTS` in `<JavaCodeStyleSettings>`; `ij_java_doc_align_param_comments` in `.editorconfig`.
    pub jd_align_param_comments: Option<bool>,
    /// `JD_DO_NOT_WRAP_ONE_LINE_COMMENTS` in `<JavaCodeStyleSettings>`; `ij_java_doc_do_not_wrap_if_one_line` in `.editorconfig`.
    pub jd_do_not_wrap_one_line_comments: Option<bool>,
    /// `JD_INDENT_ON_CONTINUATION` in `<JavaCodeStyleSettings>`; `ij_java_doc_indent_on_continuation` in `.editorconfig`.
    pub jd_indent_on_continuation: Option<bool>,
    /// `JD_KEEP_EMPTY_EXCEPTION` in `<JavaCodeStyleSettings>`; `ij_java_doc_keep_empty_throws_tag` in `.editorconfig`.
    pub jd_keep_empty_exception: Option<bool>,
    /// `JD_KEEP_EMPTY_LINES` in `<JavaCodeStyleSettings>`; `ij_java_doc_keep_empty_lines` in `.editorconfig`.
    pub jd_keep_empty_lines: Option<bool>,
    /// `JD_KEEP_EMPTY_PARAMETER` in `<JavaCodeStyleSettings>`; `ij_java_doc_keep_empty_parameter_tag` in `.editorconfig`.
    pub jd_keep_empty_parameter: Option<bool>,
    /// `JD_KEEP_EMPTY_RETURN` in `<JavaCodeStyleSettings>`; `ij_java_doc_keep_empty_return_tag` in `.editorconfig`.
    pub jd_keep_empty_return: Option<bool>,
    /// `JD_KEEP_INVALID_TAGS` in `<JavaCodeStyleSettings>`; `ij_java_doc_keep_invalid_tags` in `.editorconfig`.
    pub jd_keep_invalid_tags: Option<bool>,
    /// `JD_LEADING_ASTERISKS_ARE_ENABLED` in `<JavaCodeStyleSettings>`; `ij_java_doc_enable_leading_asterisks` in `.editorconfig`.
    pub jd_leading_asterisks_are_enabled: Option<bool>,
    /// `JD_PARAM_DESCRIPTION_ON_NEW_LINE` in `<JavaCodeStyleSettings>`; `ij_java_doc_param_description_on_new_line` in `.editorconfig`.
    pub jd_param_description_on_new_line: Option<bool>,
    /// `JD_PRESERVE_LINE_FEEDS` in `<JavaCodeStyleSettings>`; `ij_java_doc_preserve_line_breaks` in `.editorconfig`.
    pub jd_preserve_line_feeds: Option<bool>,
    /// `JD_P_AT_EMPTY_LINES` in `<JavaCodeStyleSettings>`; `ij_java_doc_add_p_tag_on_empty_lines` in `.editorconfig`.
    pub jd_p_at_empty_lines: Option<bool>,
    /// `JD_USE_THROWS_NOT_EXCEPTION` in `<JavaCodeStyleSettings>`; `ij_java_doc_use_throws_not_exception_tag` in `.editorconfig`.
    pub jd_use_throws_not_exception: Option<bool>,
}

impl IntellijJavadoc {
    /// Whether every field holds what the settings map gives its id.
    #[verifier::opaque]
    pub open spec fn reads(&self, m: Map<Seq<char>, Seq<char>>) -> bool {
        &&& self.class_names_in_javadoc == lookup_i64(m, "CLASS_NAMES_IN_JAVADOC"@)
        &&& self.enable_javadoc_formatting == lookup_bool(m, "ENABLE_JAVADOC_FORMATTING"@)
        &&& self.jd_add_blank_after_description == lookup_bool(m, "JD_ADD_BLANK_AFTER_DESCRIPTION"@)
        &&& self.jd_add_blank_after_parm_comments == lookup_bool(m, "JD_ADD_BLANK_AFTER_PARM_COMMENTS"@)
        &&& self.jd_add_blank_after_return == lookup_bool(m, "JD_ADD_BLANK_AFTER_RETURN"@)
        &&& self.jd_align_exception_comments == lookup_bool(m, "JD_ALIGN_EXCEPTION_COMMENTS"@)
        &&& self.jd_align_param_comments == lookup_bool(m, "JD_ALIGN_PARAM_COMMENTS"@)
        &&& self.jd_do_not_wrap_one_line_comments == lookup_bool(m, "JD_DO_NOT_WRAP_ONE_LINE_COMMENTS"@)
        &&& self.jd_indent_on_continuation == lookup_bool(m, "JD_INDENT_ON_CONTINUATION"@)
        &&& self.jd_keep_empty_exception == lookup_bool(m, "JD_KEEP_EMPTY_EXCEPTION"@)
        &&& self.jd_keep_empty_lines == lookup_bool(m, "JD_KEEP_EMPTY_LINES"@)
        &&& self.jd_keep_empty_parameter == lookup_bool(m, "JD_KEEP_EMPTY_PARAMETER"@)
        &&& self.jd_keep_empty_return == lookup_bool(m, "JD_KEEP_EMPTY_RETURN"@)
        &&& self.jd_keep_invalid_tags == lookup_bool(m, "JD_KEEP_INVALID_TAGS"@)
        &&& self.jd_leading_asterisks_are_enabled == lookup_bool(m, "JD_LEADING_ASTERISKS_ARE_ENABLED"@)
        &&& self.jd_param_description_on_new_line == lookup_bool(m, "JD_PARAM_DESCRIPTION_ON_NEW_LINE"@)
        &&& self.jd_preserve_line_feeds == lookup_bool(m, "JD_PRESERVE_LINE_FEEDS"@)
        &&& self.jd_p_at_empty_lines == lookup_bool(m, "JD_P_AT_EMPTY_LINES"@)
        &&& self.jd_use_throws_not_exception == lookup_bool(m, "JD_USE_THROWS_NOT_EXCEPTION"@)
    }

    /// Read every field from the flat settings map; an id the map lacks, or a value that
    /// does not parse, leaves the field unset.
    pub fn from_map(m: &KvMap) -> (r: Self)
        ensures
            r.reads(m@),
    {
        reveal(IntellijJavadoc::reads);
        IntellijJavadoc {
            class_names_in_javadoc: Kv::field_i64(m, "CLASS_NAMES_IN_JAVADOC"),
            enable_javadoc_formatting: Kv::field_bool(m, "ENABLE_JAVADOC_FORMATTING"),
            jd_add_blank_after_description: Kv::field_bool(m, "JD_ADD_BLANK_AFTER_DESCRIPTION"),
            jd_add_blank_after_parm_comments: Kv::field_bool(m, "JD_ADD_BLANK_AFTER_PARM_COMMENTS"),
            jd_add_blank_after_return: Kv::field_bool(m, "JD_ADD_BLANK_AFTER_RETURN"),
            jd_align_exception_comments: Kv::field_bool(m, "JD_ALIGN_EXCEPTION_COMMENTS"),
            jd_align_param_comments: Kv::field_bool(m, "JD_ALIGN_PARAM_COMMENTS"),
            jd_do_not_wrap_one_line_comments: Kv::field_bool(m, "JD_DO_NOT_WRAP_ONE_LINE_COMMENTS"),
            jd_indent_on_continuation: Kv::field_bool(m, "JD_INDENT_ON_CONTINUATION"),
            jd_keep_empty_exception: Kv::field_bool(m, "JD_KEEP_EMPTY_EXCEPTION"),
            jd_keep_empty_lines: Kv::field_bool(m, "JD_KEEP_EMPTY_LINES"),
            jd_keep_empty_parameter: Kv::field_bool(m, "JD_KEEP_EMPTY_PARAMETER"),
            jd_keep_empty_return: Kv::field_bool(m, "JD_KEEP_EMPTY_RETURN"),
            jd_keep_invalid_tags: Kv::field_bool(m, "JD_KEEP_INVALID_TAGS"),
            jd_leading_asterisks_are_enabled: Kv::field_bool(m, "JD_LEADING_ASTERISKS_ARE_ENABLED"),
            jd_param_description_on_new_line: Kv::field_bool(m, "JD_PARAM_DESCRIPTION_ON_NEW_LINE"),
            jd_preserve_line_feeds: Kv::field_bool(m, "JD_PRESERVE_LINE_FEEDS"),
            jd_p_at_empty_lines: Kv::field_bool(m, "JD_P_AT_EMPTY_LINES"),
            jd_use_throws_not_exception: Kv::field_bool(m, "JD_USE_THROWS_NOT_EXCEPTION"),
        }
    }
}

} // verus!
