//! IntelliJ — the `CommonCodeStyleSettings` fields belonging to no larger family:
//! the column limit, the line-comment / block-comment commenter settings, and `WRAP_COMMENTS`.

use vstd::prelude::*;

use crate::import::kv::KvMap;
use crate::import::serde_kv::{Kv, lookup_bool, lookup_i64};

verus! {

/// The remaining language-common settings of a Java code style.
#[derive(Debug, Clone, Copy, Default, PartialEq, Eq)]
pub struct IntellijCommon {
    /// `BLOCK_COMMENT_ADD_SPACE` in `<codeStyleSettings language="JAVA">`; `ij_java_block_comment_add_space` in `.editorconfig`.
    pub block_comment_add_space: Option<bool>,
    /// `BLOCK_COMMENT_AT_FIRST_COLUMN` in `<codeStyleSettings language="JAVA">`; `ij_java_block_comment_at_first_column` in `.editorconfig`.
    pub block_comment_at_first_column: Option<bool>,
    /// `DOCUMENTATION_LINE_COMMENT_PREFERRED` in `<codeStyleSettings language="JAVA">`; `ij_java_documentation_line_comment_preferred` in `.editorconfig`.
    pub documentation_line_comment_preferred: Option<bool>,
    /// `LINE_COMMENT_ADD_SPACE` in `<codeStyleSettings language="JAVA">`; `ij_java_line_comment_add_space` in `.editorconfig`.
    pub line_comment_add_space: Option<bool>,
    /// `LINE_COMMENT_ADD_SPACE_IN_SUPPRESSION` in `<codeStyleSettings language="JAVA">`; `ij_java_line_comment_add_space_in_suppression` in `.editorconfig`.
    pub line_comment_add_space_in_suppression: Option<bool>,
    /// `LINE_COMMENT_ADD_SPACE_ON_REFORMAT` in `<codeStyleSettings language="JAVA">`; `ij_java_line_comment_add_space_on_reformat` in `.editorconfig`.
    pub line_comment_add_space_on_reformat: Option<bool>,
    /// `LINE_COMMENT_AT_FIRST_COLUMN` in `<codeStyleSettings language="JAVA">`; `ij_java_line_comment_at_first_column` in `.editorconfig`.
    pub line_comment_at_first_column: Option<bool>,
    /// `RIGHT_MARGIN` in `<codeStyleSettings language="JAVA">`; `max_line_length` in `.editorconfig`.
    pub right_margin: Option<i64>,
    /// `STRIP_WHITESPACE_FROM_BLANK_LINES_IN_TEXT_BLOCKS` in `<JavaCodeStyleSettings>`; `ij_java_strip_whitespace_from_blank_lines_in_text_blocks` in `.editorconfig`.
    pub strip_whitespace_from_blank_lines_in_text_blocks: Option<bool>,
}

impl IntellijCommon {
    /// Whether every field holds what the settings map gives its id.
    #[verifier::opaque]
    pub open spec fn reads(&self, m: Map<Seq<char>, Seq<char>>) -> bool {
        &&& self.block_comment_add_space == lookup_bool(m, "BLOCK_COMMENT_ADD_SPACE"@)
        &&& self.block_comment_at_first_column == lookup_bool(m, "BLOCK_COMMENT_AT_FIRST_COLUMN"@)
        &&& self.documentation_line_comment_preferred == lookup_bool(m, "DOCUMENTATION_LINE_COMMENT_PREFERRED"@)
        &&& self.line_comment_add_space == lookup_bool(m, "LINE_COMMENT_ADD_SPACE"@)
        &&& self.line_comment_add_space_in_suppression == lookup_bool(m, "LINE_COMMENT_ADD_SPACE_IN_SUPPRESSION"@)
        &&& self.line_comment_add_space_on_reformat == lookup_bool(m, "LINE_COMMENT_ADD_SPACE_ON_REFORMAT"@)
        &&& self.line_comment_at_first_column == lookup_bool(m, "LINE_COMMENT_AT_FIRST_COLUMN"@)
        &&& self.right_margin == lookup_i64(m, "RIGHT_MARGIN"@)
        &&& self.strip_whitespace_from_blank_lines_in_text_blocks == lookup_bool(m, "STRIP_WHITESPACE_FROM_BLANK_LINES_IN_TEXT_BLOCKS"@)
    }

    /// Read every field from the flat settings map; an id the map lacks, or a value that
    /// does not parse, leaves the field unset.
    pub fn from_map(m: &KvMap) -> (r: Self)
        ensures
            r.reads(m@),
    {
        reveal(IntellijCommon::reads);
        IntellijCommon {
            block_comment_add_space: Kv::field_bool(m, "BLOCK_COMMENT_ADD_SPACE"),
            block_comment_at_first_column: Kv::field_bool(m, "BLOCK_COMMENT_AT_FIRST_COLUMN"),
            documentation_line_comment_preferred: Kv::field_bool(m, "DOCUMENTATION_LINE_COMMENT_PREFERRED"),
            line_comment_add_space: Kv::field_bool(m, "LINE_COMMENT_ADD_SPACE"),
            line_comment_add_space_in_suppression: Kv::field_bool(m, "LINE_COMMENT_ADD_SPACE_IN_SUPPRESSION"),
            line_comment_add_space_on_reformat: Kv::field_bool(m, "LINE_COMMENT_ADD_SPACE_ON_REFORMAT"),
            line_comment_at_first_column: Kv::field_bool(m, "LINE_COMMENT_AT_FIRST_COLUMN"),
            right_margin: Kv::field_i64(m, "RIGHT_MARGIN"),
            strip_whitespace_from_blank_lines_in_text_blocks: Kv::field_bool(m, "STRIP_WHITESPACE_FROM_BLANK_LINES_IN_TEXT_BLOCKS"),
        }
    }
}

} // verus!
