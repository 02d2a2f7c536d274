//! IntelliJ — `<indentOptions>`: the 14 `CommonCodeStyleSettings.IndentOptions` fields.
//!
//! Java exposes only six of them to `.editorconfig` (the `SmartIndentOptionsEditor` subset);
//! the other eight are reachable through the XML scheme alone, which is why the model is keyed
//! by the XML option name rather than by the editorconfig key.

use vstd::prelude::*;

use crate::import::kv::KvMap;
use crate::import::serde_kv::{Kv, lookup_bool, lookup_i64, lookup_tab_flag};

verus! {

/// The `<indentOptions>` block of a Java code style.
#[derive(Debug, Clone, Copy, Default, PartialEq, Eq)]
pub struct IntellijIndent {
    /// `ARRAY_ELEMENT_INDENT` in `<indentOptions>`; `XML only` in `.editorconfig`.
    pub array_element_indent: Option<i64>,
    /// `CALL_PARAMETER_INDENT` in `<indentOptions>`; `XML only` in `.editorconfig`.
    pub call_parameter_indent: Option<i64>,
    /// `CHAINED_CALL_INDENT` in `<indentOptions>`; `XML only` in `.editorconfig`.
    pub chained_call_indent: Option<i64>,
    /// `CONTINUATION_INDENT_SIZE` in `<indentOptions>`; `ij_continuation_indent_size` in `.editorconfig`.
    pub continuation_indent_size: Option<i64>,
    /// `DECLARATION_PARAMETER_INDENT` in `<indentOptions>`; `XML only` in `.editorconfig`.
    pub declaration_parameter_indent: Option<i64>,
    /// `GENERIC_TYPE_PARAMETER_INDENT` in `<indentOptions>`; `XML only` in `.editorconfig`.
    pub generic_type_parameter_indent: Option<i64>,
    /// `INDENT_SIZE` in `<indentOptions>`; `indent_size` in `.editorconfig`.
    pub indent_size: Option<i64>,
    /// `KEEP_INDENTS_ON_EMPTY_LINES` in `<indentOptions>`; `ij_java_keep_indents_on_empty_lines` in `.editorconfig`.
    pub keep_indents_on_empty_lines: Option<bool>,
    /// `LABEL_INDENT_ABSOLUTE` in `<indentOptions>`; `XML only` in `.editorconfig`.
    pub label_indent_absolute: Option<bool>,
    /// `LABEL_INDENT_SIZE` in `<indentOptions>`; `XML only` in `.editorconfig`.
    pub label_indent_size: Option<i64>,
    /// `SMART_TABS` in `<indentOptions>`; `ij_smart_tabs` in `.editorconfig`.
    pub smart_tabs: Option<bool>,
    /// `TAB_SIZE` in `<indentOptions>`; `tab_width` in `.editorconfig`.
    pub tab_size: Option<i64>,
    /// `USE_RELATIVE_INDENTS` in `<indentOptions>`; `XML only` in `.editorconfig`.
    pub use_relative_indents: Option<bool>,
    /// `USE_TAB_CHARACTER` in `<indentOptions>`; `indent_style` in `.editorconfig`.
    pub use_tab_character: Option<bool>,
}

impl IntellijIndent {
    /// Whether every field holds what the settings map gives its id.
    #[verifier::opaque]
    pub open spec fn reads(&self, m: Map<Seq<char>, Seq<char>>) -> bool {
        &&& self.array_element_indent == lookup_i64(m, "ARRAY_ELEMENT_INDENT"@)
        &&& self.call_parameter_indent == lookup_i64(m, "CALL_PARAMETER_INDENT"@)
        &&& self.chained_call_indent == lookup_i64(m, "CHAINED_CALL_INDENT"@)
        &&& self.continuation_indent_size == lookup_i64(m, "CONTINUATION_INDENT_SIZE"@)
        &&& self.declaration_parameter_indent == lookup_i64(m, "DECLARATION_PARAMETER_INDENT"@)
        &&& self.generic_type_parameter_indent == lookup_i64(m, "GENERIC_TYPE_PARAMETER_INDENT"@)
        &&& self.indent_size == lookup_i64(m, "INDENT_SIZE"@)
        &&& self.keep_indents_on_empty_lines == lookup_bool(m, "KEEP_INDENTS_ON_EMPTY_LINES"@)
        &&& self.label_indent_absolute == lookup_bool(m, "LABEL_INDENT_ABSOLUTE"@)
        &&& self.label_indent_size == lookup_i64(m, "LABEL_INDENT_SIZE"@)
        &&& self.smart_tabs == lookup_bool(m, "SMART_TABS"@)
        &&& self.tab_size == lookup_i64(m, "TAB_SIZE"@)
        &&& self.use_relative_indents == lookup_bool(m, "USE_RELATIVE_INDENTS"@)
        &&& self.use_tab_character == lookup_tab_flag(m, "USE_TAB_CHARACTER"@)
    }

    /// Read every field from the flat settings map; an id the map lacks, or a value that
    /// does not parse, leaves the field unset.
    pub fn from_map(m: &KvMap) -> (r: Self)
        ensures
            r.reads(m@),
    {
        reveal(IntellijIndent::reads);
        IntellijIndent {
            array_element_indent: Kv::field_i64(m, "ARRAY_ELEMENT_INDENT"),
            call_parameter_indent: Kv::field_i64(m, "CALL_PARAMETER_INDENT"),
            chained_call_indent: Kv::field_i64(m, "CHAINED_CALL_INDENT"),
            continuation_indent_size: Kv::field_i64(m, "CONTINUATION_INDENT_SIZE"),
            declaration_parameter_indent: Kv::field_i64(m, "DECLARATION_PARAMETER_INDENT"),
            generic_type_parameter_indent: Kv::field_i64(m, "GENERIC_TYPE_PARAMETER_INDENT"),
            indent_size: Kv::field_i64(m, "INDENT_SIZE"),
            keep_indents_on_empty_lines: Kv::field_bool(m, "KEEP_INDENTS_ON_EMPTY_LINES"),
            label_indent_absolute: Kv::field_bool(m, "LABEL_INDENT_ABSOLUTE"),
            label_indent_size: Kv::field_i64(m, "LABEL_INDENT_SIZE"),
            smart_tabs: Kv::field_bool(m, "SMART_TABS"),
            tab_size: Kv::field_i64(m, "TAB_SIZE"),
            use_relative_indents: Kv::field_bool(m, "USE_RELATIVE_INDENTS"),
            use_tab_character: Kv::field_tab_flag(m, "USE_TAB_CHARACTER"),
        }
    }
}

} // verus!
