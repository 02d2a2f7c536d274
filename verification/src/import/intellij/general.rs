//! IntelliJ — the language-neutral settings, plus the EditorConfig core properties.
//!
//! `GeneralCodeStylePropertyMapper`'s `GENERAL_FIELDS` live on `<code_scheme>` itself and take
//! the bare `ij_` editorconfig domain rather than `ij_java_`. The three trailing entries have no
//! XML representation at all — they are EditorConfig core properties IntelliJ honors from
//! outside the code-style scheme, and they are keyed by their editorconfig name.

use vstd::prelude::*;

use crate::import::kv::KvMap;
use crate::import::serde_kv::{Kv, lookup, lookup_bool, opt_view};

verus! {

/// The language-neutral scheme settings and EditorConfig core properties.
#[derive(Debug, Clone, Default, PartialEq, Eq)]
pub struct IntellijGeneral {
    /// `LINE_SEPARATOR` in `<code_scheme>`; `end_of_line` in `.editorconfig`.
    pub line_separator: Option<String>,
    /// `FORMATTER_TAGS_ENABLED` in `<code_scheme>`; `ij_formatter_tags_enabled` in `.editorconfig`.
    pub formatter_tags_enabled: Option<bool>,
    /// `FORMATTER_OFF_TAG` in `<code_scheme>`; `ij_formatter_off_tag` in `.editorconfig`.
    pub formatter_off_tag: Option<String>,
    /// `FORMATTER_ON_TAG` in `<code_scheme>`; `ij_formatter_on_tag` in `.editorconfig`.
    pub formatter_on_tag: Option<String>,
    /// `FORMATTER_TAGS_ACCEPT_REGEXP` in `<code_scheme>`; `ij_formatter_tags_accept_regexp` in `.editorconfig`.
    pub formatter_tags_accept_regexp: Option<bool>,
    /// `WRAP_WHEN_TYPING_REACHES_RIGHT_MARGIN` in `<code_scheme>`; `ij_wrap_on_typing` in `.editorconfig`.
    pub wrap_when_typing_reaches_right_margin: Option<bool>,
    /// `insert_final_newline` in EditorConfig core; `insert_final_newline` in `.editorconfig`.
    pub insert_final_newline: Option<bool>,
    /// `trim_trailing_whitespace` in EditorConfig core; `trim_trailing_whitespace` in `.editorconfig`.
    pub trim_trailing_whitespace: Option<bool>,
    /// `charset` in EditorConfig core; `charset` in `.editorconfig`.
    pub charset: Option<String>,
}

impl IntellijGeneral {
    /// Whether every field holds what the settings map gives its id.
    #[verifier::opaque]
    pub open spec fn reads(&self, m: Map<Seq<char>, Seq<char>>) -> bool {
        &&& opt_view(self.line_separator) == lookup(m, "LINE_SEPARATOR"@)
        &&& self.formatter_tags_enabled == lookup_bool(m, "FORMATTER_TAGS_ENABLED"@)
        &&& opt_view(self.formatter_off_tag) == lookup(m, "FORMATTER_OFF_TAG"@)
        &&& opt_view(self.formatter_on_tag) == lookup(m, "FORMATTER_ON_TAG"@)
        &&& self.formatter_tags_accept_regexp == lookup_bool(m, "FORMATTER_TAGS_ACCEPT_REGEXP"@)
        &&& self.wrap_when_typing_reaches_right_margin == lookup_bool(m, "WRAP_WHEN_TYPING_REACHES_RIGHT_MARGIN"@)
        &&& self.insert_final_newline == lookup_bool(m, "insert_final_newline"@)
        &&& self.trim_trailing_whitespace == lookup_bool(m, "trim_trailing_whitespace"@)
        &&& opt_view(self.charset) == lookup(m, "charset"@)
    }

    /// Read every field from the flat settings map; an id the map lacks, or a value that
    /// does not parse, leaves the field unset.
    pub fn from_map(m: &KvMap) -> (r: Self)
        ensures
            r.reads(m@),
    {
        reveal(IntellijGeneral::reads);
        IntellijGeneral {
            line_separator: Kv::field_string(m, "LINE_SEPARATOR"),
            formatter_tags_enabled: Kv::field_bool(m, "FORMATTER_TAGS_ENABLED"),
            formatter_off_tag: Kv::field_string(m, "FORMATTER_OFF_TAG"),
            formatter_on_tag: Kv::field_string(m, "FORMATTER_ON_TAG"),
            formatter_tags_accept_regexp: Kv::field_bool(m, "FORMATTER_TAGS_ACCEPT_REGEXP"),
            wrap_when_typing_reaches_right_margin: Kv::field_bool(m, "WRAP_WHEN_TYPING_REACHES_RIGHT_MARGIN"),
            insert_final_newline: Kv::field_bool(m, "insert_final_newline"),
            trim_trailing_whitespace: Kv::field_bool(m, "trim_trailing_whitespace"),
            charset: Kv::field_string(m, "charset"),
        }
    }
}

} // verus!
