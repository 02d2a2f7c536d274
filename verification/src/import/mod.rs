//! **Config importers** — lower a native Java-formatter configuration into a jals [`Config`].
//!
//! Each importer is two pieces: a typed **model** of the native config, read from the flat
//! `key → value` settings map its file lowers to, and a **projection** onto jals's option
//! surface. The two have deliberately different completeness criteria:
//!
//! - the **model is total** — every option the vendor has: 416 for Eclipse, 297 for IntelliJ,
//!   6 for google-java-format, 2 for palantir-java-format, and Spotless's whole step list;
//! - the **projection is partial**, because [`Config`] is a curated common vocabulary rather
//!   than the union of four surfaces. A native option with no jals equivalent is still modeled,
//!   named, and typed — it just is not carried across.
//!
//! Native values stay **typed** rather than stringly-typed — an enum is a Rust enum, Eclipse's
//! `alignment_for_*` is a bitmask newtype, an import layout is an ordered list — so two distinct
//! native values can never collapse before the projection decides.

use vstd::prelude::*;

use crate::config::{
    Braces, Comments, Config, ForceBraces, ImportOrder, Imports, Layout, LineEnding, WrapPolicy, Wrapping,
};
use crate::strs::{chars_of, push_all, slice_vec, string_of};

pub mod eclipse;
pub mod gjf;
pub mod intellij;
pub mod kv;
pub mod palantir;
pub mod serde_kv;
pub mod spotless;
pub mod text;
pub mod xml;

verus! {

/// A failure while importing a native formatter config.
#[derive(Debug, Clone, PartialEq, Eq)]
pub enum ImportError {
    /// The parsed key/value settings did not fit the importer model. Carries a human-readable
    /// detail.
    Deserialize(String),
    /// The XML document was malformed.
    Xml(String),
}

/// The message an [`ImportError`] is displayed as.
pub open spec fn error_message(e: ImportError) -> Seq<char> {
    match e {
        ImportError::Deserialize(detail) => "config deserialization failed: "@ + detail@,
        ImportError::Xml(detail) => "config XML is malformed: "@ + detail@,
    }
}

impl ImportError {
    /// The error as a human-readable message.
    pub fn to_string(&self) -> (r: String)
        ensures
            r@ == error_message(*self),
    {
        let (lead, detail) = match self {
            ImportError::Deserialize(detail) => ("config deserialization failed: ", detail),
            ImportError::Xml(detail) => ("config XML is malformed: ", detail),
        };
        let mut text = chars_of(lead);
        push_all(&mut text, &chars_of(detail.as_str()));
        string_of(&text)
    }
}

/// A native formatter config that can be parsed from its file text and lowered to a jals
/// [`Config`]: implemented by the file-backed importers, Eclipse's and IntelliJ's.
/// google-java-format and palantir-java-format have no file to parse, and Spotless resolves to
/// a delegate, so they skip it.
pub trait ConfigImporter {
    /// The typed model of the native config.
    type Native;

    /// Parse the native config's file text into its model.
    fn parse(src: &str) -> Result<Self::Native, ImportError>;

    /// Parse and lower to a jals [`Config`] in one step.
    fn import(src: &str) -> Result<Config, ImportError>;
}

/// Pin the Java-idiomatic floor over a configuration: LF line endings, imports in their written
/// order, parameter lists wrapped when too long with no fill width, import groups never wrapped,
/// nested parentheses kept, no separate code-block budget, switch arms never forced into braces.
/// The library defaults already hold this floor, so pinning it over them changes nothing; the
/// importers lower onto the defaults directly.
pub fn pin_java_baseline(config: &mut Config)
    ensures
        pins(*old(config), *final(config)),
{
    config.layout.line_ending = LineEnding::Lf;
    config.imports.order = ImportOrder::Preserve;
    let wrapping = Wrapping {
        method_parameters: WrapPolicy::IfLong,
        fill_item_width: 0,
        import_group: WrapPolicy::Never,
        remove_nested_parens: false,
        ..config.wrapping
    };
    config.wrapping = wrapping;
    config.comments = Comments { code_block_width: 0, ..config.comments };
    config.braces = Braces { force_switch_arm: ForceBraces::Never, ..config.braces };
}

/// The value `o` holds, or `keep` when it holds none.
pub open spec fn or_keep<T>(o: Option<T>, keep: T) -> T {
    match o {
        Some(v) => v,
        None => keep,
    }
}

/// The value `o` holds, or `keep` when it holds none.
pub fn or_keep_of<T: Copy>(o: Option<T>, keep: T) -> (r: T)
    ensures
        r == or_keep(o, keep),
{
    match o {
        Some(v) => v,
        None => keep,
    }
}

/// `a` when it holds a value, otherwise `b`: the finer of two settings wins over the coarser one
/// it refines.
pub open spec fn either<T>(a: Option<T>, b: Option<T>) -> Option<T> {
    if a is Some {
        a
    } else {
        b
    }
}

/// `a` when it holds a value, otherwise `b`.
pub fn either_of<T: Copy>(a: Option<T>, b: Option<T>) -> (r: Option<T>)
    ensures
        r == either(a, b),
{
    if a.is_some() {
        a
    } else {
        b
    }
}

/// The catch-all import group: every import no named prefix claims.
pub open spec fn catch_all() -> Seq<char> {
    seq!['*']
}

/// The one group static imports collapse into.
pub open spec fn static_group() -> Seq<char> {
    seq!['s', 't', 'a', 't', 'i', 'c']
}

/// A package prefix as a jals import group: the catch-all when empty, otherwise dotted, so that
/// `java` cannot also capture `javax`.
pub open spec fn group_prefix(package: Seq<char>) -> Seq<char> {
    if package.len() == 0 {
        catch_all()
    } else if package.last() == '.' {
        package
    } else {
        package.push('.')
    }
}

/// The groups with the static group added unless one is already there.
pub open spec fn with_static(groups: Seq<Seq<char>>) -> Seq<Seq<char>> {
    if groups.contains(static_group()) {
        groups
    } else {
        groups.push(static_group())
    }
}

/// The view of a list of strings.
pub open spec fn strings_view(v: Seq<String>) -> Seq<Seq<char>> {
    v.map_values(|s: String| s@)
}

/// The shared normalization of a native import-group entry into a jals import-group prefix.
///
/// Every native formatter spells its groups differently (IntelliJ `java.**`, Spotless `java`),
/// but they all mean the package and everything under it. jals matches groups by raw string
/// prefix, so the representation carries a trailing `.`. Every importer goes through here so
/// none can drift on the encoding.
pub struct ImportGroups;

impl ImportGroups {
    /// Normalize one package prefix, already stripped of its native wildcard or marker syntax.
    /// An empty prefix is the catch-all; anything else is returned dotted.
    pub fn prefix(package: &[char]) -> (r: String)
        ensures
            r@ == group_prefix(package@),
    {
        if package.len() == 0 {
            string_of(&['*'])
        } else if package[package.len() - 1] == '.' {
            string_of(package)
        } else {
            let mut text = slice_vec(package, 0, package.len());
            text.push('.');
            assert(package@.subrange(0, package@.len() as int) == package@);
            string_of(&text)
        }
    }

    /// Append the static group unless it is already present: native configs may declare several
    /// static groups, and jals models only one.
    pub fn push_static(groups: &mut Vec<String>)
        ensures
            strings_view(final(groups)@) == with_static(strings_view(old(groups)@)),
    {
        let target = string_of(&['s', 't', 'a', 't', 'i', 'c']);
        let ghost before = strings_view(groups@);
        let mut i: usize = 0;
        while i < groups.len()
            invariant
                0 <= i <= groups@.len(),
                before == strings_view(groups@),
                target@ == static_group(),
                forall|j: int| 0 <= j < i ==> #[trigger] before[j] != static_group(),
            decreases groups@.len() - i,
        {
            if groups[i] == target {
                assert(before[i as int] == static_group());
                return;
            }
            i += 1;
        }
        assert(!before.contains(static_group())) by {
            if before.contains(static_group()) {
                let k = choose|k: int| 0 <= k < before.len() && before[k] == static_group();
                assert(before[k] != static_group());
            }
        }
        groups.push(target);
        assert(strings_view(groups@) =~= before.push(static_group()));
    }
}

/// Whether `after` is `before` with the Java floor pinned over it.
pub open spec fn pins(before: Config, after: Config) -> bool {
    &&& after.layout == (Layout { line_ending: LineEnding::Lf, ..before.layout })
    &&& after.imports == (Imports { order: ImportOrder::Preserve, ..before.imports })
    &&& after.wrapping == (Wrapping {
        method_parameters: WrapPolicy::IfLong,
        fill_item_width: 0,
        import_group: WrapPolicy::Never,
        remove_nested_parens: false,
        ..before.wrapping
    })
    &&& after.comments == (Comments { code_block_width: 0, ..before.comments })
    &&& after.braces == (Braces { force_switch_arm: ForceBraces::Never, ..before.braces })
    &&& after.blank_lines == before.blank_lines
    &&& after.spacing == before.spacing
}

/// Pinning the Java floor a second time changes nothing.
pub proof fn law_pinning_is_idempotent(config: Config, once: Config, twice: Config)
    requires
        pins(config, once),
        pins(once, twice),
    ensures
        twice.layout == once.layout,
        twice.blank_lines == once.blank_lines,
        twice.braces == once.braces,
        twice.wrapping == once.wrapping,
        twice.spacing == once.spacing,
        twice.comments == once.comments,
        twice.imports == once.imports,
{
}

/// The defaults already hold the Java floor: pinning it over them leaves them the defaults.
pub proof fn law_the_defaults_hold_the_java_floor(config: Config, pinned: Config)
    requires
        config.is_default(),
        pins(config, pinned),
    ensures
        pinned.is_default(),
{
}

/// An import-group prefix is the catch-all or ends in a dot, and normalizing it again changes
/// nothing: every importer's groups share one encoding.
pub proof fn law_group_prefixes_are_dotted_once(package: Seq<char>)
    ensures
        group_prefix(package) == catch_all() || group_prefix(package).last() == '.',
        package.len() > 0 ==> group_prefix(group_prefix(package)) == group_prefix(package),
        group_prefix(package) != static_group(),
{
    if group_prefix(package) == static_group() {
        assert(static_group().last() == 'c');
        assert(catch_all().len() == 1);
    }
}

/// Adding the static group is idempotent, and it appears once.
pub proof fn law_static_group_is_added_once(groups: Seq<Seq<char>>)
    ensures
        with_static(with_static(groups)) == with_static(groups),
        with_static(groups).contains(static_group()),
{
    if !groups.contains(static_group()) {
        assert(groups.push(static_group())[groups.len() as int] == static_group());
    }
}

/// Whether no group of `groups` occurs twice as the static group.
pub open spec fn one_static_group(groups: Seq<Seq<char>>) -> bool {
    forall|i: int, j: int|
        0 <= i < groups.len() && 0 <= j < groups.len() && groups[i] == static_group() && groups[j] == static_group() ==> i == j
}

/// Adding the static group, or a dotted package group, keeps the static group unique.
pub proof fn lemma_one_static_group_kept(groups: Seq<Seq<char>>, package: Seq<char>)
    requires
        one_static_group(groups),
    ensures
        one_static_group(with_static(groups)),
        one_static_group(groups.push(group_prefix(package))),
{
    law_group_prefixes_are_dotted_once(package);
    if !groups.contains(static_group()) {
        let g = groups.push(static_group());
        assert forall|i: int, j: int|
            0 <= i < g.len() && 0 <= j < g.len() && g[i] == static_group() && g[j] == static_group() implies i == j by {
            if i < groups.len() {
                assert(groups.contains(static_group()));
            }
            if j < groups.len() {
                assert(groups.contains(static_group()));
            }
        }
    }
    let h = groups.push(group_prefix(package));
    assert forall|i: int, j: int|
        0 <= i < h.len() && 0 <= j < h.len() && h[i] == static_group() && h[j] == static_group() implies i == j by {
        assert(i < groups.len() && j < groups.len());
    }
}

} // verus!
