//! google-java-format — the whole (deliberately tiny) configuration surface, and the profile
//! the GJF family shares.
//!
//! # Coverage
//!
//! GJF has **no config file**; non-configurability is an explicit design goal. Its entire
//! surface is `JavaFormatterOptions` — `style`, `formatJavadoc`, `reorderModifiers`,
//! `reflowLongStrings` — plus the two `CommandLineOptions` toggles that decide whether the
//! import passes run. [`GoogleJavaFormatConfig`] models all six, so nothing is missing.
//!
//! What is deliberately *not* modeled is `CommandLineOptions`' range selection (`--lines`,
//! `--offset`, `--length`, `--assume-filename`) and its process flags (`--dry-run`,
//! `--set-exit-if-changed`): those pick *what* to format and how to report, not how the output
//! looks, so they have no place in a style config.
//!
//! # The family profile
//!
//! palantir-java-format inherits GJF's token-level passes and canonical conventions verbatim and
//! differs only in its break engine (which no config can express) plus the style-derived indents
//! and column limit. Both projections therefore funnel through
//! [`GoogleJavaFormatConfig::family`].

use vstd::prelude::*;

use crate::config::{
    Braces, Comments, Config, ImportOrder, IndentStyle, InlineAnnotations, KeepOnOneLine, Layout,
    ParenPositions, Spacing, WrapPolicy, Wrapping,
};
use crate::import::{catch_all, static_group, strings_view};
use crate::strs::string_of;

verus! {

/// The two published google-java-format style variants.
///
/// The only difference is the indent multiplier (`JavaFormatterOptions`: `GOOGLE(1)` /
/// `AOSP(2)`); the 100-column limit is shared.
#[derive(Debug, Clone, Copy, PartialEq, Eq, Structural)]
pub enum GjfStyle {
    /// Google Java Style: block indent 2, continuation indent 4.
    Google,
    /// The AOSP variant: doubled indents (block 4, continuation 8).
    Aosp,
}

impl Default for GjfStyle {
    fn default() -> (r: Self)
        ensures
            r == GjfStyle::Google,
    {
        GjfStyle::Google
    }
}

impl GjfStyle {
    /// `(block indent, continuation indent)` in columns.
    pub open spec fn indent_pair(self) -> (usize, usize) {
        match self {
            GjfStyle::Google => (2, 4),
            GjfStyle::Aosp => (4, 8),
        }
    }

    /// `(block indent, continuation indent)` in columns.
    pub fn indents(self) -> (r: (usize, usize))
        ensures
            r == self.indent_pair(),
    {
        match self {
            GjfStyle::Google => (2, 4),
            GjfStyle::Aosp => (4, 8),
        }
    }
}

/// google-java-format's whole configuration surface.
#[derive(Debug, Clone, Copy, PartialEq, Eq, Structural)]
pub struct GoogleJavaFormatConfig {
    /// `JavaFormatterOptions.style` — the CLI's `--aosp`.
    pub style: GjfStyle,
    /// `JavaFormatterOptions.formatJavadoc` — the CLI's `--skip-javadoc-formatting` inverted.
    pub format_javadoc: bool,
    /// `JavaFormatterOptions.reorderModifiers` — runs `ModifierOrderer`.
    pub reorder_modifiers: bool,
    /// `JavaFormatterOptions.reflowLongStrings` — runs `StringWrapper`. Projects onto
    /// `wrapping.reflow-long-strings`.
    pub reflow_long_strings: bool,
    /// `--skip-sorting-imports` inverted — runs `ImportOrderer`.
    pub sort_imports: bool,
    /// `--skip-removing-unused-imports` inverted — runs `RemoveUnusedImports`. Projects onto
    /// `imports.remove-unused`, whose name test is syntactic — no classpath is consulted.
    pub remove_unused_imports: bool,
}

impl Default for GoogleJavaFormatConfig {
    fn default() -> (r: Self)
        ensures
            r == (GoogleJavaFormatConfig {
                style: GjfStyle::Google,
                format_javadoc: true,
                reorder_modifiers: true,
                reflow_long_strings: true,
                sort_imports: true,
                remove_unused_imports: true,
            }),
    {
        GoogleJavaFormatConfig {
            style: GjfStyle::Google,
            format_javadoc: true,
            reorder_modifiers: true,
            reflow_long_strings: true,
            sort_imports: true,
            remove_unused_imports: true,
        }
    }
}

impl GoogleJavaFormatConfig {
    /// Whether `after` is `base` with the GJF family profile laid over it, for the given
    /// style-derived indents and column limit.
    ///
    /// Each non-default choice is anchored to a documented GJF behavior:
    ///
    /// - one column limit drives every wrap, so no construct gets its own threshold; a method
    ///   chain, a parameter list, a ternary and every other all-or-nothing break that does not
    ///   fit goes one item per line, while an argument list fills while its items are short;
    /// - `paren-*` are all `common-lines`: GJF never puts a `)` on its own line;
    /// - `tabular-array-initializers`: GJF keeps a grid-shaped initializer's source rows;
    /// - enum constants, resources and labels always break;
    /// - comments are always reflowed (Javadoc only when `formatJavadoc`), block comments never,
    ///   and both GJF-specific comment rewrites are on;
    /// - imports: a static block first, then everything else, one blank line between, and an
    ///   unused one deleted.
    pub open spec fn shapes(
        &self,
        indent_width: usize,
        continuation_indent: usize,
        max_width: usize,
        base: Config,
        after: Config,
    ) -> bool {
        &&& after.layout == (Layout {
            indent_style: IndentStyle::Space,
            indent_width,
            tab_width: indent_width,
            continuation_indent: Some(continuation_indent),
            max_width,
            ..base.layout
        })
        &&& after.blank_lines == base.blank_lines
        &&& after.braces == (Braces {
            keep_type_body_on_one_line: KeepOnOneLine::IfEmpty,
            keep_method_body_on_one_line: KeepOnOneLine::IfEmpty,
            keep_control_statement_on_one_line: true,
            ..base.braces
        })
        &&& after.wrapping == (Wrapping {
            method_chain: WrapPolicy::IfLongPerItem,
            ternary: WrapPolicy::IfLongPerItem,
            method_parameters: WrapPolicy::IfLongPerItem,
            case_labels: WrapPolicy::IfLongPerItem,
            type_arguments: WrapPolicy::IfLongPerItem,
            type_parameters: WrapPolicy::IfLongPerItem,
            deconstruction_list: WrapPolicy::IfLongPerItem,
            multi_catch_types: WrapPolicy::IfLongPerItem,
            for_statement: WrapPolicy::IfLongPerItem,
            annotation_arguments: WrapPolicy::IfLongPerItem,
            extends_list: WrapPolicy::IfLongPerItem,
            throws_list: WrapPolicy::IfLongPerItem,
            enum_constants: WrapPolicy::AlwaysPerItem,
            resource_list: WrapPolicy::AlwaysPerItem,
            paren_method_declaration: ParenPositions::CommonLines,
            paren_method_invocation: ParenPositions::CommonLines,
            paren_control: ParenPositions::CommonLines,
            paren_annotation: ParenPositions::CommonLines,
            paren_lambda: ParenPositions::CommonLines,
            paren_record: ParenPositions::CommonLines,
            tabular_array_initializers: true,
            fill_item_width: 10,
            format_string_arguments: true,
            labeled_statement: WrapPolicy::AlwaysPerItem,
            parameter_annotations: WrapPolicy::AlwaysPerItem,
            variable_annotations: WrapPolicy::AlwaysPerItem,
            inline_argumentless_annotations: InlineAnnotations::Declarations,
            reflow_long_strings: self.reflow_long_strings,
            ..base.wrapping
        })
        &&& after.spacing == (Spacing { before_array_initializer_left_brace: true, ..base.spacing })
        &&& after.comments == (Comments {
            format_line: true,
            format_block: false,
            format_javadoc: self.format_javadoc,
            format_header: true,
            format_html: true,
            width: max_width,
            blank_line_before_tags: true,
            normalize_parameter_comments: true,
            inline_block_comments: true,
            ..base.comments
        })
        &&& after.imports.order == (if self.sort_imports {
            ImportOrder::Group
        } else {
            ImportOrder::Preserve
        })
        &&& strings_view(after.imports.groups@) == seq![static_group(), catch_all()]
        &&& after.imports.static_first
        &&& after.imports.reorder_modifiers == self.reorder_modifiers
        &&& after.imports.remove_unused == self.remove_unused_imports
    }

    /// The jals config shared by the whole GJF family, parameterized by the style-derived
    /// indents and column limit: the defaults with the family profile laid over it.
    pub fn family(
        indent_width: usize,
        continuation_indent: usize,
        max_width: usize,
        native: Self,
    ) -> (r: Config)
        ensures
            exists|base: Config| base.is_default() && native.shapes(indent_width, continuation_indent, max_width, base, r),
    {
        let mut config = Config::default();
        let ghost base = config;
        config.layout.indent_style = IndentStyle::Space;
        config.layout.indent_width = indent_width;
        config.layout.tab_width = indent_width;
        config.layout.continuation_indent = Some(continuation_indent);
        config.layout.max_width = max_width;
        // GJF collapses an empty body to `{}` and never joins a non-empty one; every brace is
        // K&R. `visitStatement` separates a braceless body from its header with a break whose
        // flat form is a space, so `if (a) return;` stays on one line when it fits.
        config.braces = Braces {
            keep_type_body_on_one_line: KeepOnOneLine::IfEmpty,
            keep_method_body_on_one_line: KeepOnOneLine::IfEmpty,
            keep_control_statement_on_one_line: true,
            ..config.braces
        };
        config.wrapping = Wrapping {
            method_chain: WrapPolicy::IfLongPerItem,
            // `?` and `:` break together or not at all.
            ternary: WrapPolicy::IfLongPerItem,
            // A parameter list that does not fit goes one parameter per line; an argument list
            // is the fill, and `fill-item-width` decides it.
            method_parameters: WrapPolicy::IfLongPerItem,
            case_labels: WrapPolicy::IfLongPerItem,
            type_arguments: WrapPolicy::IfLongPerItem,
            type_parameters: WrapPolicy::IfLongPerItem,
            deconstruction_list: WrapPolicy::IfLongPerItem,
            multi_catch_types: WrapPolicy::IfLongPerItem,
            for_statement: WrapPolicy::IfLongPerItem,
            annotation_arguments: WrapPolicy::IfLongPerItem,
            extends_list: WrapPolicy::IfLongPerItem,
            throws_list: WrapPolicy::IfLongPerItem,
            enum_constants: WrapPolicy::AlwaysPerItem,
            resource_list: WrapPolicy::AlwaysPerItem,
            paren_method_declaration: ParenPositions::CommonLines,
            paren_method_invocation: ParenPositions::CommonLines,
            paren_control: ParenPositions::CommonLines,
            paren_annotation: ParenPositions::CommonLines,
            paren_lambda: ParenPositions::CommonLines,
            paren_record: ParenPositions::CommonLines,
            tabular_array_initializers: true,
            // An argument list fills only while every argument is under 10 source columns.
            fill_item_width: 10,
            // A leading format string takes the first continuation line and the values it
            // interpolates pack onto the next.
            format_string_arguments: true,
            labeled_statement: WrapPolicy::AlwaysPerItem,
            // Every variable puts its annotations on their own lines, unless none of them takes
            // arguments.
            parameter_annotations: WrapPolicy::AlwaysPerItem,
            variable_annotations: WrapPolicy::AlwaysPerItem,
            inline_argumentless_annotations: InlineAnnotations::Declarations,
            reflow_long_strings: native.reflow_long_strings,
            ..config.wrapping
        };
        // `new String[] {…}` and `{{1}, {2}}` both take a space before the initializer's brace.
        config.spacing = Spacing { before_array_initializer_left_brace: true, ..config.spacing };
        config.comments = Comments {
            format_line: true,
            // Only a Javadoc is refilled; a `/* … */` comment is trimmed and re-indented, never
            // refilled.
            format_block: false,
            format_javadoc: native.format_javadoc,
            // The file's leading comment gets no special treatment.
            format_header: true,
            format_html: true,
            width: max_width,
            blank_line_before_tags: true,
            normalize_parameter_comments: true,
            inline_block_comments: true,
            ..config.comments
        };
        config.imports.order = if native.sort_imports {
            ImportOrder::Group
        } else {
            ImportOrder::Preserve
        };
        let static_text = string_of(&['s', 't', 'a', 't', 'i', 'c']);
        let catch_all_text = string_of(&['*']);
        assert(static_text@ == static_group());
        assert(catch_all_text@ == catch_all());
        let mut groups: Vec<String> = Vec::new();
        groups.push(static_text);
        groups.push(catch_all_text);
        assert(strings_view(groups@) =~= seq![static_group(), catch_all()]);
        config.imports.groups = groups;
        config.imports.static_first = true;
        config.imports.reorder_modifiers = native.reorder_modifiers;
        config.imports.remove_unused = native.remove_unused_imports;
        config
    }

    /// Whether `config` is the jals configuration these options denote.
    pub open spec fn produces(&self, config: Config) -> bool {
        let (indent, continuation) = self.style.indent_pair();
        exists|base: Config| base.is_default() && self.shapes(indent, continuation, 100, base, config)
    }

    /// The jals configuration these options denote: the family profile at the style's indents
    /// and the shared 100-column limit.
    pub fn to_config(&self) -> (r: Config)
        ensures
            self.produces(r),
    {
        let (indent_width, continuation_indent) = self.style.indents();
        Self::family(indent_width, continuation_indent, 100, *self)
    }
}

/// A google-java-format family profile's metrics touch its metrics alone: laid over the
/// defaults, the indents and column limit fix the layout's widths and the comment width, and two
/// profiles of one configuration, whatever metrics they take, agree on every other rule.
pub proof fn law_the_family_metrics_touch_only_the_metrics(
    native: GoogleJavaFormatConfig,
    i1: usize,
    c1: usize,
    w1: usize,
    b1: Config,
    f1: Config,
    i2: usize,
    c2: usize,
    w2: usize,
    b2: Config,
    f2: Config,
)
    requires
        b1.is_default(),
        b2.is_default(),
        native.shapes(i1, c1, w1, b1, f1),
        native.shapes(i2, c2, w2, b2, f2),
    ensures
        f1.layout.indent_width == i1,
        f1.layout.tab_width == i1,
        f1.layout.continuation_indent == Some(c1),
        f1.layout.max_width == w1,
        f1.comments.width == w1,
        f1.blank_lines == f2.blank_lines,
        f1.braces == f2.braces,
        f1.wrapping == f2.wrapping,
        f1.spacing == f2.spacing,
        (Comments { width: 0, ..f1.comments }) == (Comments { width: 0, ..f2.comments }),
        f1.imports.order == f2.imports.order,
        strings_view(f1.imports.groups@) == strings_view(f2.imports.groups@),
        f1.imports.static_first == f2.imports.static_first,
        f1.imports.reorder_modifiers == f2.imports.reorder_modifiers,
        f1.imports.remove_unused == f2.imports.remove_unused,
{
}

} // verus!
