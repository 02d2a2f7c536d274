//! Eclipse JDT — the 25 `comment.*` settings.
//!
//! Declared in `DefaultCodeFormatterConstants` as full literal ids rather than through the
//! `JavaCore.PLUGIN_ID + ".formatter."` concatenation the other 391 use, which is why they are
//! easy to miss when enumerating the surface.

use vstd::prelude::*;

use crate::import::kv::KvMap;
use crate::import::serde_kv::{Kv, lookup_bool, lookup_enum, lookup_usize};
use super::values::{Insert};

verus! {

/// The `comment.*` settings of a profile.
#[derive(Debug, Clone, Copy, Default, PartialEq, Eq)]
pub struct Comments {
    /// `comment.align_tags_descriptions_grouped`.
    pub comment_align_tags_descriptions_grouped: Option<bool>,
    /// `comment.align_tags_names_descriptions`.
    pub comment_align_tags_names_descriptions: Option<bool>,
    /// `comment.clear_blank_lines`. Deprecated: JDT still reads it and fans it out into the finer settings above.
    pub comment_clear_blank_lines: Option<bool>,
    /// `comment.clear_blank_lines_in_block_comment`.
    pub comment_clear_blank_lines_in_block_comment: Option<bool>,
    /// `comment.clear_blank_lines_in_javadoc_comment`.
    pub comment_clear_blank_lines_in_javadoc_comment: Option<bool>,
    /// `comment.count_line_length_from_starting_position`.
    pub comment_count_line_length_from_starting_position: Option<bool>,
    /// `comment.format_block_comments`.
    pub comment_format_block_comments: Option<bool>,
    /// `comment.format_comments`. Deprecated: JDT still reads it and fans it out into the finer settings above.
    pub comment_format_comments: Option<bool>,
    /// `comment.format_header`.
    pub comment_format_header: Option<bool>,
    /// `comment.format_html`.
    pub comment_format_html: Option<bool>,
    /// `comment.format_javadoc_comments`.
    pub comment_format_javadoc_comments: Option<bool>,
    /// `comment.format_line_comments`.
    pub comment_format_line_comments: Option<bool>,
    /// `comment.format_markdown_comments`.
    pub comment_format_markdown_comments: Option<bool>,
    /// `comment.format_source_code`.
    pub comment_format_source_code: Option<bool>,
    /// `comment.indent_parameter_description`.
    pub comment_indent_parameter_description: Option<bool>,
    /// `comment.indent_root_tags`.
    pub comment_indent_root_tags: Option<bool>,
    /// `comment.indent_tag_description`.
    pub comment_indent_tag_description: Option<bool>,
    /// `comment.insert_new_line_before_root_tags`.
    pub comment_insert_new_line_before_root_tags: Option<Insert>,
    /// `comment.insert_new_line_between_different_tags`.
    pub comment_insert_new_line_between_different_tags: Option<Insert>,
    /// `comment.insert_new_line_for_parameter`.
    pub comment_insert_new_line_for_parameter: Option<Insert>,
    /// `comment.javadoc_do_not_separate_block_tags`.
    pub comment_javadoc_do_not_separate_block_tags: Option<bool>,
    /// `comment.line_length`.
    pub comment_line_length: Option<usize>,
    /// `comment.new_lines_at_block_boundaries`.
    pub comment_new_lines_at_block_boundaries: Option<bool>,
    /// `comment.new_lines_at_javadoc_boundaries`.
    pub comment_new_lines_at_javadoc_boundaries: Option<bool>,
    /// `comment.preserve_white_space_between_code_and_line_comments`.
    pub comment_preserve_white_space_between_code_and_line_comments: Option<bool>,
}

impl Comments {
    /// Whether every field holds what the settings map gives its id.
    #[verifier::opaque]
    pub open spec fn reads(&self, m: Map<Seq<char>, Seq<char>>) -> bool {
        &&& self.comment_align_tags_descriptions_grouped == lookup_bool(m, "org.eclipse.jdt.core.formatter.comment.align_tags_descriptions_grouped"@)
        &&& self.comment_align_tags_names_descriptions == lookup_bool(m, "org.eclipse.jdt.core.formatter.comment.align_tags_names_descriptions"@)
        &&& self.comment_clear_blank_lines == lookup_bool(m, "org.eclipse.jdt.core.formatter.comment.clear_blank_lines"@)
        &&& self.comment_clear_blank_lines_in_block_comment == lookup_bool(m, "org.eclipse.jdt.core.formatter.comment.clear_blank_lines_in_block_comment"@)
        &&& self.comment_clear_blank_lines_in_javadoc_comment == lookup_bool(m, "org.eclipse.jdt.core.formatter.comment.clear_blank_lines_in_javadoc_comment"@)
        &&& self.comment_count_line_length_from_starting_position == lookup_bool(m, "org.eclipse.jdt.core.formatter.comment.count_line_length_from_starting_position"@)
        &&& self.comment_format_block_comments == lookup_bool(m, "org.eclipse.jdt.core.formatter.comment.format_block_comments"@)
        &&& self.comment_format_comments == lookup_bool(m, "org.eclipse.jdt.core.formatter.comment.format_comments"@)
        &&& self.comment_format_header == lookup_bool(m, "org.eclipse.jdt.core.formatter.comment.format_header"@)
        &&& self.comment_format_html == lookup_bool(m, "org.eclipse.jdt.core.formatter.comment.format_html"@)
        &&& self.comment_format_javadoc_comments == lookup_bool(m, "org.eclipse.jdt.core.formatter.comment.format_javadoc_comments"@)
        &&& self.comment_format_line_comments == lookup_bool(m, "org.eclipse.jdt.core.formatter.comment.format_line_comments"@)
        &&& self.comment_format_markdown_comments == lookup_bool(m, "org.eclipse.jdt.core.formatter.comment.format_markdown_comments"@)
        &&& self.comment_format_source_code == lookup_bool(m, "org.eclipse.jdt.core.formatter.comment.format_source_code"@)
        &&& self.comment_indent_parameter_description == lookup_bool(m, "org.eclipse.jdt.core.formatter.comment.indent_parameter_description"@)
        &&& self.comment_indent_root_tags == lookup_bool(m, "org.eclipse.jdt.core.formatter.comment.indent_root_tags"@)
        &&& self.comment_indent_tag_description == lookup_bool(m, "org.eclipse.jdt.core.formatter.comment.indent_tag_description"@)
        &&& self.comment_insert_new_line_before_root_tags == lookup_enum::<Insert>(m, "org.eclipse.jdt.core.formatter.comment.insert_new_line_before_root_tags"@)
        &&& self.comment_insert_new_line_between_different_tags == lookup_enum::<Insert>(m, "org.eclipse.jdt.core.formatter.comment.insert_new_line_between_different_tags"@)
        &&& self.comment_insert_new_line_for_parameter == lookup_enum::<Insert>(m, "org.eclipse.jdt.core.formatter.comment.insert_new_line_for_parameter"@)
        &&& self.comment_javadoc_do_not_separate_block_tags == lookup_bool(m, "org.eclipse.jdt.core.formatter.comment.javadoc_do_not_separate_block_tags"@)
        &&& self.comment_line_length == lookup_usize(m, "org.eclipse.jdt.core.formatter.comment.line_length"@)
        &&& self.comment_new_lines_at_block_boundaries == lookup_bool(m, "org.eclipse.jdt.core.formatter.comment.new_lines_at_block_boundaries"@)
        &&& self.comment_new_lines_at_javadoc_boundaries == lookup_bool(m, "org.eclipse.jdt.core.formatter.comment.new_lines_at_javadoc_boundaries"@)
        &&& self.comment_preserve_white_space_between_code_and_line_comments == lookup_bool(m, "org.eclipse.jdt.core.formatter.comment.preserve_white_space_between_code_and_line_comments"@)
    }

    /// Read every field from the flat settings map; an id the map lacks, or a value that
    /// does not parse, leaves the field unset.
    pub fn from_map(m: &KvMap) -> (r: Self)
        ensures
            r.reads(m@),
    {
        reveal(Comments::reads);
        Comments {
            comment_align_tags_descriptions_grouped: Kv::field_bool(m, "org.eclipse.jdt.core.formatter.comment.align_tags_descriptions_grouped"),
            comment_align_tags_names_descriptions: Kv::field_bool(m, "org.eclipse.jdt.core.formatter.comment.align_tags_names_descriptions"),
            comment_clear_blank_lines: Kv::field_bool(m, "org.eclipse.jdt.core.formatter.comment.clear_blank_lines"),
            comment_clear_blank_lines_in_block_comment: Kv::field_bool(m, "org.eclipse.jdt.core.formatter.comment.clear_blank_lines_in_block_comment"),
            comment_clear_blank_lines_in_javadoc_comment: Kv::field_bool(m, "org.eclipse.jdt.core.formatter.comment.clear_blank_lines_in_javadoc_comment"),
            comment_count_line_length_from_starting_position: Kv::field_bool(m, "org.eclipse.jdt.core.formatter.comment.count_line_length_from_starting_position"),
            comment_format_block_comments: Kv::field_bool(m, "org.eclipse.jdt.core.formatter.comment.format_block_comments"),
            comment_format_comments: Kv::field_bool(m, "org.eclipse.jdt.core.formatter.comment.format_comments"),
            comment_format_header: Kv::field_bool(m, "org.eclipse.jdt.core.formatter.comment.format_header"),
            comment_format_html: Kv::field_bool(m, "org.eclipse.jdt.core.formatter.comment.format_html"),
            comment_format_javadoc_comments: Kv::field_bool(m, "org.eclipse.jdt.core.formatter.comment.format_javadoc_comments"),
            comment_format_line_comments: Kv::field_bool(m, "org.eclipse.jdt.core.formatter.comment.format_line_comments"),
            comment_format_markdown_comments: Kv::field_bool(m, "org.eclipse.jdt.core.formatter.comment.format_markdown_comments"),
            comment_format_source_code: Kv::field_bool(m, "org.eclipse.jdt.core.formatter.comment.format_source_code"),
            comment_indent_parameter_description: Kv::field_bool(m, "org.eclipse.jdt.core.formatter.comment.indent_parameter_description"),
            comment_indent_root_tags: Kv::field_bool(m, "org.eclipse.jdt.core.formatter.comment.indent_root_tags"),
            comment_indent_tag_description: Kv::field_bool(m, "org.eclipse.jdt.core.formatter.comment.indent_tag_description"),
            comment_insert_new_line_before_root_tags: Kv::field_enum(m, "org.eclipse.jdt.core.formatter.comment.insert_new_line_before_root_tags"),
            comment_insert_new_line_between_different_tags: Kv::field_enum(m, "org.eclipse.jdt.core.formatter.comment.insert_new_line_between_different_tags"),
            comment_insert_new_line_for_parameter: Kv::field_enum(m, "org.eclipse.jdt.core.formatter.comment.insert_new_line_for_parameter"),
            comment_javadoc_do_not_separate_block_tags: Kv::field_bool(m, "org.eclipse.jdt.core.formatter.comment.javadoc_do_not_separate_block_tags"),
            comment_line_length: Kv::field_usize(m, "org.eclipse.jdt.core.formatter.comment.line_length"),
            comment_new_lines_at_block_boundaries: Kv::field_bool(m, "org.eclipse.jdt.core.formatter.comment.new_lines_at_block_boundaries"),
            comment_new_lines_at_javadoc_boundaries: Kv::field_bool(m, "org.eclipse.jdt.core.formatter.comment.new_lines_at_javadoc_boundaries"),
            comment_preserve_white_space_between_code_and_line_comments: Kv::field_bool(m, "org.eclipse.jdt.core.formatter.comment.preserve_white_space_between_code_and_line_comments"),
        }
    }
}

} // verus!
