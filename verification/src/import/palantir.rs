//! palantir-java-format — the whole (near-empty) configuration surface.
//!
//! # Coverage
//!
//! Palantir inherits google-java-format's non-configurability verbatim, down to the javadoc
//! wording. `JavaFormatterOptions` has exactly two members — the [`Style`](PalantirStyle) and
//! `formatJavadoc` (default `false`, unlike GJF, and reachable only through the API, the Gradle
//! plugin, or Spotless `.formatJavadoc(true)`) — and [`PalantirJavaFormatConfig`] models both.
//! There is no config file to detect or parse.
//!
//! The projection reuses the GJF family profile: Palantir keeps GJF's token-level passes and
//! canonical conventions, and differs in its break *engine* (`BreakBehaviour` /
//! `PartialInlineability` / `Obs` backtracking), which a config cannot express at all. Two of
//! its own emission rules do show: it keeps only a *local*'s argument-less annotations on its
//! line, and it leaves the blank lines around a documented member as written.

use vstd::prelude::*;

use crate::config::{BlankLines, Config, DocumentedMember, InlineAnnotations, Wrapping};
use crate::import::gjf::{GjfStyle, GoogleJavaFormatConfig};

verus! {

/// palantir-java-format's `Style`: the only layout degree of freedom.
#[derive(Debug, Clone, Copy, PartialEq, Eq, Structural)]
pub enum PalantirStyle {
    /// The Palantir style: doubled indents (block 4, continuation 8) and a 120-column limit.
    Palantir,
    /// GJF's Google style: block 2, continuation 4, 100 columns.
    Google,
    /// GJF's AOSP variant: block 4, continuation 8, 100 columns.
    Aosp,
}

impl Default for PalantirStyle {
    fn default() -> (r: Self)
        ensures
            r == PalantirStyle::Palantir,
    {
        PalantirStyle::Palantir
    }
}

impl PalantirStyle {
    /// `(block indent, continuation indent, column limit)`.
    pub open spec fn metric_triple(self) -> (usize, usize, usize) {
        match self {
            PalantirStyle::Palantir => (4, 8, 120),
            PalantirStyle::Google => (2, 4, 100),
            PalantirStyle::Aosp => (4, 8, 100),
        }
    }

    /// `(block indent, continuation indent, column limit)`.
    pub fn metrics(self) -> (r: (usize, usize, usize))
        ensures
            r == self.metric_triple(),
    {
        match self {
            PalantirStyle::Palantir => (4, 8, 120),
            PalantirStyle::Google => (2, 4, 100),
            PalantirStyle::Aosp => (4, 8, 100),
        }
    }
}

/// palantir-java-format's whole configuration surface: style plus `formatJavadoc`.
#[derive(Debug, Clone, Copy, PartialEq, Eq, Structural)]
pub struct PalantirJavaFormatConfig {
    /// `JavaFormatterOptions.style`.
    pub style: PalantirStyle,
    /// `JavaFormatterOptions.formatJavadoc` — off by default, unlike GJF.
    pub format_javadoc: bool,
}

impl Default for PalantirJavaFormatConfig {
    fn default() -> (r: Self)
        ensures
            r == (PalantirJavaFormatConfig { style: PalantirStyle::Palantir, format_javadoc: false }),
    {
        PalantirJavaFormatConfig { style: PalantirStyle::Palantir, format_javadoc: false }
    }
}

impl PalantirJavaFormatConfig {
    /// The google-java-format options Palantir runs with: GJF's defaults, with its own
    /// `formatJavadoc`.
    pub open spec fn passes(&self) -> GoogleJavaFormatConfig {
        GoogleJavaFormatConfig {
            style: GjfStyle::Google,
            format_javadoc: self.format_javadoc,
            reorder_modifiers: true,
            reflow_long_strings: true,
            sort_imports: true,
            remove_unused_imports: true,
        }
    }

    /// Whether `config` is the jals configuration these options denote: the GJF family profile
    /// at the style's metrics, with Palantir's two own emission rules over it.
    pub open spec fn produces(&self, config: Config) -> bool {
        let (indent, continuation, width) = self.style.metric_triple();
        exists|family: Config| {
            &&& exists|base: Config| base.is_default() && self.passes().shapes(indent, continuation, width, base, family)
            &&& config.wrapping == (Wrapping { inline_argumentless_annotations: InlineAnnotations::Locals, ..family.wrapping })
            &&& config.blank_lines == (BlankLines { around_documented_member: DocumentedMember::Preserve, ..family.blank_lines })
            &&& config.layout == family.layout
            &&& config.braces == family.braces
            &&& config.spacing == family.spacing
            &&& config.comments == family.comments
            &&& config.imports == family.imports
        }
    }

    /// The jals configuration these options denote.
    pub fn to_config(&self) -> (r: Config)
        ensures
            self.produces(r),
    {
        let (indent_width, continuation_indent, max_width) = self.style.metrics();
        let passes = GoogleJavaFormatConfig {
            style: GjfStyle::Google,
            format_javadoc: self.format_javadoc,
            reorder_modifiers: true,
            reflow_long_strings: true,
            sort_imports: true,
            remove_unused_imports: true,
        };
        let mut config = GoogleJavaFormatConfig::family(indent_width, continuation_indent, max_width, passes);
        let ghost family = config;
        config.wrapping.inline_argumentless_annotations = InlineAnnotations::Locals;
        config.blank_lines.around_documented_member = DocumentedMember::Preserve;
        assert(config.wrapping == (Wrapping { inline_argumentless_annotations: InlineAnnotations::Locals, ..family.wrapping }));
        assert(config.blank_lines == (BlankLines { around_documented_member: DocumentedMember::Preserve, ..family.blank_lines }));
        config
    }
}

} // verus!
