//! Spotless — an orchestrator, not a formatter.
//!
//! Spotless owns no Java layout engine of its own: a `java { }` block selects one delegate
//! (google-java-format, palantir-java-format, or Eclipse JDT) and wraps it in generic steps —
//! newline and whitespace hygiene, leading-whitespace conversion, formatter on/off toggles, and
//! import ordering. The model is the delegate plus those steps; the projection starts from the
//! delegate's own projection and lays the steps over it. What no formatter rule can express —
//! the license header, the annotation formatter, custom steps — is modeled and carried no
//! further.

use vstd::prelude::*;

use crate::config::{Config, ImportOrder, IndentStyle, Layout};
use crate::import::eclipse::EclipseConfig;
use crate::import::gjf::GoogleJavaFormatConfig;
use crate::import::palantir::PalantirJavaFormatConfig;
use crate::import::{
    group_prefix, lemma_one_static_group_kept, one_static_group, or_keep, or_keep_of, strings_view,
    with_static, ImportGroups,
};
use crate::strs::{chars_of, starts_with};

verus! {

/// The formatter a Spotless `java { }` block delegates layout to.
#[derive(Debug, Clone, PartialEq, Eq)]
pub enum SpotlessDelegate {
    /// `googleJavaFormat()`.
    GoogleJavaFormat(GoogleJavaFormatConfig),
    /// `palantirJavaFormat()`.
    PalantirJavaFormat(PalantirJavaFormatConfig),
    /// `eclipse().configFile(...)`: the stringified profile, handed over verbatim.
    Eclipse(EclipseConfig),
}

impl Default for SpotlessDelegate {
    fn default() -> (r: Self)
        ensures
            r matches SpotlessDelegate::GoogleJavaFormat(g) && g == (GoogleJavaFormatConfig {
                style: crate::import::gjf::GjfStyle::Google,
                format_javadoc: true,
                reorder_modifiers: true,
                reflow_long_strings: true,
                sort_imports: true,
                remove_unused_imports: true,
            }),
    {
        SpotlessDelegate::GoogleJavaFormat(GoogleJavaFormatConfig::default())
    }
}

impl SpotlessDelegate {
    /// Whether `config` is the jals configuration the delegate denotes.
    pub open spec fn produces(&self, config: Config) -> bool {
        match self {
            SpotlessDelegate::GoogleJavaFormat(gjf) => gjf.produces(config),
            SpotlessDelegate::PalantirJavaFormat(palantir) => palantir.produces(config),
            SpotlessDelegate::Eclipse(eclipse) => eclipse.produces(config),
        }
    }

    /// The jals configuration the delegate denotes.
    pub fn to_config(&self) -> (r: Config)
        ensures
            self.produces(r),
    {
        match self {
            SpotlessDelegate::GoogleJavaFormat(gjf) => gjf.to_config(),
            SpotlessDelegate::PalantirJavaFormat(palantir) => palantir.to_config(),
            SpotlessDelegate::Eclipse(eclipse) => eclipse.to_config(),
        }
    }
}

/// `indentWithSpaces(n)` / `indentWithTabs(n)`.
#[derive(Debug, Clone, Copy, PartialEq, Eq, Structural)]
pub enum LeadingWhitespace {
    /// `indentWithSpaces`.
    Spaces,
    /// `indentWithTabs`.
    Tabs,
}

/// A Spotless `java { }` pipeline: the delegate and the generic steps around it.
#[derive(Debug, Clone, PartialEq, Eq)]
pub struct SpotlessConfig {
    /// The layout engine.
    pub delegate: SpotlessDelegate,
    /// `endWithNewline()`.
    pub end_with_newline: Option<bool>,
    /// `trimTrailingWhitespace()`.
    pub trim_trailing_whitespace: Option<bool>,
    /// `indentWithSpaces` / `indentWithTabs`.
    pub leading_whitespace: Option<LeadingWhitespace>,
    /// The `n` of `indentWithSpaces(n)` / `indentWithTabs(n)`.
    pub leading_whitespace_size: Option<usize>,
    /// `importOrder(...)`: package prefixes, `""` for everything else, `\#` or `#` for statics.
    pub import_order: Vec<String>,
    /// `removeUnusedImports()`.
    pub remove_unused_imports: bool,
    /// `formatAnnotations()`.
    pub format_annotations: bool,
    /// `toggleOffOn()`.
    pub toggle_off_on: bool,
    /// The off tag of `toggleOffOn(off, on)`.
    pub toggle_off_tag: Option<String>,
    /// The on tag of `toggleOffOn(off, on)`.
    pub toggle_on_tag: Option<String>,
    /// `licenseHeader(...)`.
    pub license_header: Option<String>,
    /// How many custom steps the pipeline runs.
    pub custom_steps: usize,
}

impl Default for SpotlessConfig {
    fn default() -> (r: Self)
        ensures
            r.delegate == SpotlessDelegate::GoogleJavaFormat(GoogleJavaFormatConfig {
                style: crate::import::gjf::GjfStyle::Google,
                format_javadoc: true,
                reorder_modifiers: true,
                reflow_long_strings: true,
                sort_imports: true,
                remove_unused_imports: true,
            }),
            r.end_with_newline is None,
            r.trim_trailing_whitespace is None,
            r.leading_whitespace is None,
            r.leading_whitespace_size is None,
            r.import_order@.len() == 0,
            !r.remove_unused_imports,
            !r.format_annotations,
            !r.toggle_off_on,
            r.toggle_off_tag is None,
            r.toggle_on_tag is None,
            r.license_header is None,
            r.custom_steps == 0,
    {
        SpotlessConfig {
            delegate: SpotlessDelegate::default(),
            end_with_newline: None,
            trim_trailing_whitespace: None,
            leading_whitespace: None,
            leading_whitespace_size: None,
            import_order: Vec::new(),
            remove_unused_imports: false,
            format_annotations: false,
            toggle_off_on: false,
            toggle_off_tag: None,
            toggle_on_tag: None,
            license_header: None,
            custom_steps: 0,
        }
    }
}

/// Whether an `importOrder` entry names the static imports (`\#…` or `#…`).
pub open spec fn is_static_entry(entry: Seq<char>) -> bool {
    starts_with(entry, seq!['\\', '#']) || starts_with(entry, seq!['#'])
}

/// The jals import groups an `importOrder` list lowers to: every static entry collapses into the
/// one static group, and every other entry is a dotted prefix (`""` the catch-all).
pub open spec fn spotless_groups(order: Seq<Seq<char>>) -> Seq<Seq<char>>
    decreases order.len(),
{
    if order.len() == 0 {
        Seq::empty()
    } else {
        let acc = spotless_groups(order.drop_last());
        if is_static_entry(order.last()) {
            with_static(acc)
        } else {
            acc.push(group_prefix(order.last()))
        }
    }
}

/// What `indentWithSpaces` / `indentWithTabs` set the indent style to, or `keep`.
pub open spec fn leading_or(leading: Option<LeadingWhitespace>, keep: IndentStyle) -> IndentStyle {
    match leading {
        Some(LeadingWhitespace::Spaces) => IndentStyle::Space,
        Some(LeadingWhitespace::Tabs) => IndentStyle::Tab,
        None => keep,
    }
}

impl SpotlessConfig {
    /// The width the leading-whitespace step fixes: its `n`, which is both the level width and
    /// the tab stop; only meaningful when the step is configured.
    pub open spec fn step_width(&self) -> Option<usize> {
        if self.leading_whitespace is Some {
            self.leading_whitespace_size
        } else {
            None
        }
    }

    /// Whether `after` is the delegate's `before` with the generic steps laid over it.
    pub open spec fn layers(&self, before: Config, after: Config) -> bool {
        let groups = spotless_groups(strings_view(self.import_order@));
        &&& after.layout == (Layout {
            insert_final_newline: or_keep(self.end_with_newline, before.layout.insert_final_newline),
            trim_trailing_whitespace: or_keep(self.trim_trailing_whitespace, before.layout.trim_trailing_whitespace),
            indent_style: leading_or(self.leading_whitespace, before.layout.indent_style),
            indent_width: or_keep(self.step_width(), before.layout.indent_width),
            tab_width: or_keep(self.step_width(), before.layout.tab_width),
            formatter_tags: self.toggle_off_on || before.layout.formatter_tags,
            formatter_off_tag: if self.toggle_off_on {
                or_keep(self.toggle_off_tag, before.layout.formatter_off_tag)
            } else {
                before.layout.formatter_off_tag
            },
            formatter_on_tag: if self.toggle_off_on {
                or_keep(self.toggle_on_tag, before.layout.formatter_on_tag)
            } else {
                before.layout.formatter_on_tag
            },
            ..before.layout
        })
        &&& if groups.len() > 0 {
            &&& after.imports.order == ImportOrder::Group
            &&& strings_view(after.imports.groups@) == groups
        } else {
            &&& after.imports.order == before.imports.order
            &&& after.imports.groups == before.imports.groups
        }
        &&& after.imports.static_first == before.imports.static_first
        &&& after.imports.reorder_modifiers == before.imports.reorder_modifiers
        &&& after.imports.remove_unused == before.imports.remove_unused
        &&& after.blank_lines == before.blank_lines
        &&& after.braces == before.braces
        &&& after.wrapping == before.wrapping
        &&& after.spacing == before.spacing
        &&& after.comments == before.comments
    }

    /// Whether `config` is the jals configuration this pipeline denotes.
    pub open spec fn produces(&self, config: Config) -> bool {
        exists|delegated: Config| self.delegate.produces(delegated) && self.layers(delegated, config)
    }

    /// Lower an `importOrder` list to jals import groups.
    pub fn map_import_order(order: &[String]) -> (r: Vec<String>)
        ensures
            strings_view(r@) == spotless_groups(strings_view(order@)),
    {
        let mut groups: Vec<String> = Vec::new();
        let mut i: usize = 0;
        assert(strings_view(order@).take(0) =~= Seq::<Seq<char>>::empty());
        assert(strings_view(groups@) =~= Seq::<Seq<char>>::empty());
        while i < order.len()
            invariant
                i <= order@.len(),
                strings_view(groups@) == spotless_groups(strings_view(order@).take(i as int)),
            decreases order@.len() - i,
        {
            let ghost prefix = strings_view(order@).take(i + 1);
            assert(prefix.drop_last() =~= strings_view(order@).take(i as int));
            assert(prefix.last() == order@[i as int]@);
            let entry = chars_of(order[i].as_str());
            let slash_hash = entry.len() >= 2 && entry[0] == '\\' && entry[1] == '#';
            let hash = entry.len() >= 1 && entry[0] == '#';
            assert(slash_hash == starts_with(entry@, seq!['\\', '#'])) by {
                if starts_with(entry@, seq!['\\', '#']) {
                    assert(entry@.take(2)[0] == entry@[0] && entry@.take(2)[1] == entry@[1]);
                }
                if slash_hash {
                    assert(entry@.take(2) =~= seq!['\\', '#']);
                }
            }
            assert(hash == starts_with(entry@, seq!['#'])) by {
                if starts_with(entry@, seq!['#']) {
                    assert(entry@.take(1)[0] == entry@[0]);
                }
                if hash {
                    assert(entry@.take(1) =~= seq!['#']);
                }
            }
            if slash_hash || hash {
                ImportGroups::push_static(&mut groups);
            } else {
                let ghost before = strings_view(groups@);
                let group = ImportGroups::prefix(&entry);
                groups.push(group);
                assert(strings_view(groups@) =~= before.push(group@));
            }
            i += 1;
        }
        assert(strings_view(order@).take(order@.len() as int) =~= strings_view(order@));
        groups
    }

    /// The width the leading-whitespace step fixes, if any.
    pub fn step_width_setting(&self) -> (r: Option<usize>)
        ensures
            r == self.step_width(),
    {
        if self.leading_whitespace.is_some() {
            self.leading_whitespace_size
        } else {
            None
        }
    }

    /// A formatter tag after the toggle step: the configured one when the toggle is on and
    /// names one, otherwise `keep`.
    fn tag(&self, value: &Option<String>, keep: &String) -> (r: String)
        ensures
            r == (if self.toggle_off_on {
                or_keep(*value, *keep)
            } else {
                *keep
            }),
    {
        match value {
            Some(v) => if self.toggle_off_on {
                v.clone()
            } else {
                keep.clone()
            },
            None => keep.clone(),
        }
    }

    /// Lay the generic steps over the delegate's configuration.
    pub fn layer(&self, config: &mut Config)
        ensures
            self.layers(*old(config), *final(config)),
    {
        let width = self.step_width_setting();
        config.layout = Layout {
            insert_final_newline: or_keep_of(self.end_with_newline, config.layout.insert_final_newline),
            trim_trailing_whitespace: or_keep_of(self.trim_trailing_whitespace, config.layout.trim_trailing_whitespace),
            indent_style: match self.leading_whitespace {
                Some(LeadingWhitespace::Spaces) => IndentStyle::Space,
                Some(LeadingWhitespace::Tabs) => IndentStyle::Tab,
                None => config.layout.indent_style,
            },
            // The step's `n` is the tab stop, so it fixes the tab's display width too.
            indent_width: or_keep_of(width, config.layout.indent_width),
            tab_width: or_keep_of(width, config.layout.tab_width),
            formatter_tags: self.toggle_off_on || config.layout.formatter_tags,
            formatter_off_tag: self.tag(&self.toggle_off_tag, &config.layout.formatter_off_tag),
            formatter_on_tag: self.tag(&self.toggle_on_tag, &config.layout.formatter_on_tag),
            ..config.layout
        };
        let groups = Self::map_import_order(&self.import_order);
        if groups.len() > 0 {
            config.imports.order = ImportOrder::Group;
            config.imports.groups = groups;
        }
    }

    /// The jals configuration this pipeline denotes: the delegate's, with the generic steps laid
    /// over it.
    pub fn to_config(&self) -> (r: Config)
        ensures
            self.produces(r),
    {
        let mut config = self.delegate.to_config();
        let ghost delegated = config;
        self.layer(&mut config);
        assert(self.delegate.produces(delegated) && self.layers(delegated, config));
        config
    }
}

/// A Spotless import order lowers to at most one static group, however many static entries it
/// lists.
pub proof fn law_import_order_holds_one_static_group(order: Seq<Seq<char>>)
    ensures
        one_static_group(spotless_groups(order)),
    decreases order.len(),
{
    if order.len() > 0 {
        law_import_order_holds_one_static_group(order.drop_last());
        lemma_one_static_group_kept(spotless_groups(order.drop_last()), order.last());
    }
}

/// A pipeline with no generic step configured is exactly its delegate.
pub proof fn law_an_unconfigured_pipeline_is_its_delegate(pipeline: SpotlessConfig, delegated: Config, config: Config)
    requires
        pipeline.end_with_newline is None,
        pipeline.trim_trailing_whitespace is None,
        pipeline.leading_whitespace is None,
        !pipeline.toggle_off_on,
        pipeline.import_order@.len() == 0,
        pipeline.layers(delegated, config),
    ensures
        config.layout == delegated.layout,
        config.blank_lines == delegated.blank_lines,
        config.braces == delegated.braces,
        config.wrapping == delegated.wrapping,
        config.spacing == delegated.spacing,
        config.comments == delegated.comments,
        config.imports == delegated.imports,
{
    assert(strings_view(pipeline.import_order@) =~= Seq::<Seq<char>>::empty());
}

/// The leading-whitespace step decides how the result indents, over whatever the delegate
/// said: `indentWithSpaces(n)` indents with spaces and `indentWithTabs(n)` with tabs, each `n`
/// columns a level with its tab stop at `n`; without the step the delegate's indentation stands.
pub proof fn law_leading_whitespace_decides_the_indent(pipeline: SpotlessConfig, before: Config, after: Config)
    requires
        pipeline.layers(before, after),
    ensures
        pipeline.leading_whitespace == Some(LeadingWhitespace::Spaces) ==> after.layout.indent_style == IndentStyle::Space,
        pipeline.leading_whitespace == Some(LeadingWhitespace::Tabs) ==> after.layout.indent_style == IndentStyle::Tab,
        pipeline.leading_whitespace is Some && pipeline.leading_whitespace_size is Some ==> {
            &&& after.layout.indent_width == pipeline.leading_whitespace_size.unwrap()
            &&& after.layout.tab_width == pipeline.leading_whitespace_size.unwrap()
        },
        pipeline.leading_whitespace is None ==> {
            &&& after.layout.indent_style == before.layout.indent_style
            &&& after.layout.indent_width == before.layout.indent_width
            &&& after.layout.tab_width == before.layout.tab_width
        },
{
}

/// Whatever the delegate, a pipeline with `indentWithSpaces` indents with spaces and one with
/// `indentWithTabs` indents with tabs.
pub proof fn law_a_pipeline_indents_as_its_whitespace_step(pipeline: SpotlessConfig, config: Config)
    requires
        pipeline.produces(config),
    ensures
        pipeline.leading_whitespace == Some(LeadingWhitespace::Spaces) ==> config.layout.indent_style == IndentStyle::Space,
        pipeline.leading_whitespace == Some(LeadingWhitespace::Tabs) ==> config.layout.indent_style == IndentStyle::Tab,
{
    let delegated = choose|delegated: Config| pipeline.delegate.produces(delegated) && pipeline.layers(delegated, config);
    law_leading_whitespace_decides_the_indent(pipeline, delegated, config);
}

} // verus!
