use jals_fmt::config::{
    BlankLines, Braces, Comments, Config, DocumentedMember, ForceBraces, ImportOrder, IndentStyle,
    InlineAnnotations, KeepOnOneLine, Layout, LineEnding, WrapPolicy, Wrapping,
};
use jals_fmt::import::eclipse::{EclipseConfig, EclipsePrefs, EclipseXmlProfile};
use jals_fmt::import::gjf::{GjfStyle, GoogleJavaFormatConfig};
use jals_fmt::import::intellij::IntellijEditorConfig;
use jals_fmt::import::kv::KvMap;
use jals_fmt::import::palantir::{PalantirJavaFormatConfig, PalantirStyle};
use jals_fmt::import::spotless::{LeadingWhitespace, SpotlessConfig, SpotlessDelegate};
use jals_fmt::import::{pin_java_baseline, ConfigImporter, ImportError, ImportGroups};

#[test]
fn google_java_format_defaults_to_google_style() {
    let config = GoogleJavaFormatConfig::default().to_config();
    assert_eq!(config.layout.indent_style, IndentStyle::Space);
    assert_eq!(config.layout.indent_width, 2);
    assert_eq!(config.layout.continuation_indent, Some(4));
    assert_eq!(config.layout.max_width, 100);
    assert_eq!(config.comments.width, 100);
    assert!(config.comments.format_javadoc);
    assert!(config.comments.normalize_parameter_comments);
    assert!(config.comments.inline_block_comments);
    assert_eq!(config.wrapping.method_chain, WrapPolicy::IfLongPerItem);
    assert!(config.wrapping.tabular_array_initializers);
    assert_eq!(config.imports.order, ImportOrder::Group);
    assert_eq!(config.imports.groups, ["static", "*"]);
    assert!(config.imports.static_first);
    assert!(config.imports.reorder_modifiers);
}

#[test]
fn the_aosp_variant_only_doubles_the_indents() {
    let google = GoogleJavaFormatConfig::default().to_config();
    let aosp = GoogleJavaFormatConfig { style: GjfStyle::Aosp, ..GoogleJavaFormatConfig::default() }.to_config();
    assert_eq!(aosp.layout.indent_width, 4);
    assert_eq!(aosp.layout.continuation_indent, Some(8));
    assert_eq!(aosp.layout.max_width, google.layout.max_width);
    assert_eq!(aosp.wrapping, google.wrapping);
    assert_eq!(aosp.spacing, google.spacing);
    assert_eq!(aosp.imports, google.imports);
}

#[test]
fn skipping_a_google_java_format_pass_shows_up_in_the_config() {
    let config = GoogleJavaFormatConfig { format_javadoc: false, sort_imports: false, ..GoogleJavaFormatConfig::default() }.to_config();
    assert!(!config.comments.format_javadoc);
    assert!(config.comments.format_line);
    assert!(!config.comments.format_block);
    assert_eq!(config.imports.order, ImportOrder::Preserve);
    assert!(config.imports.reorder_modifiers);
}

#[test]
fn palantir_defaults_to_its_own_style() {
    let config = PalantirJavaFormatConfig::default().to_config();
    assert_eq!(config.layout.indent_width, 4);
    assert_eq!(config.layout.continuation_indent, Some(8));
    assert_eq!(config.layout.max_width, 120);
    assert!(!config.comments.format_javadoc);
}

#[test]
fn palantirs_borrowed_styles_take_google_java_formats_metrics() {
    let palantir_google = PalantirJavaFormatConfig { style: PalantirStyle::Google, format_javadoc: true }.to_config();
    let gjf = GoogleJavaFormatConfig::default().to_config();
    assert_eq!(palantir_google.layout, gjf.layout);
    assert_eq!(palantir_google.spacing, gjf.spacing);
    assert_eq!(palantir_google.braces, gjf.braces);
    assert_eq!(palantir_google.imports, gjf.imports);
    assert_eq!(palantir_google.comments, gjf.comments);
    assert_eq!(palantir_google.wrapping.inline_argumentless_annotations, InlineAnnotations::Locals);
    assert_eq!(palantir_google.blank_lines.around_documented_member, DocumentedMember::Preserve);
    assert_eq!(
        Config { wrapping: gjf.wrapping, blank_lines: gjf.blank_lines, ..palantir_google.clone() },
        Config {
            wrapping: Wrapping {
                inline_argumentless_annotations: InlineAnnotations::Declarations,
                ..palantir_google.wrapping
            },
            blank_lines: BlankLines {
                around_documented_member: DocumentedMember::AtLeast(1),
                ..palantir_google.blank_lines
            },
            ..gjf
        },
    );
}

#[test]
fn the_style_metrics_are_exact() {
    assert_eq!(GjfStyle::Google.indents(), (2, 4));
    assert_eq!(GjfStyle::Aosp.indents(), (4, 8));
    assert_eq!(PalantirStyle::Palantir.metrics(), (4, 8, 120));
    assert_eq!(PalantirStyle::Google.metrics(), (2, 4, 100));
    assert_eq!(PalantirStyle::Aosp.metrics(), (4, 8, 100));
}

#[test]
fn spotless_starts_from_its_delegate() {
    let config = SpotlessConfig::default().to_config();
    let gjf = GoogleJavaFormatConfig::default().to_config();
    assert_eq!(config, gjf, "an unconfigured pipeline is exactly its default delegate");
    let palantir = SpotlessConfig {
        delegate: SpotlessDelegate::PalantirJavaFormat(PalantirJavaFormatConfig::default()),
        ..SpotlessConfig::default()
    }
    .to_config();
    assert_eq!(palantir.layout.max_width, 120);
}

#[test]
fn spotless_generic_steps_layer_over_the_delegate() {
    let config = SpotlessConfig {
        end_with_newline: Some(false),
        trim_trailing_whitespace: Some(false),
        leading_whitespace: Some(LeadingWhitespace::Tabs),
        leading_whitespace_size: Some(8),
        toggle_off_on: true,
        toggle_off_tag: Some("spotless:off".to_owned()),
        toggle_on_tag: Some("spotless:on".to_owned()),
        import_order: vec!["java".to_owned(), "javax".to_owned(), String::new(), "\\#".to_owned()],
        ..SpotlessConfig::default()
    }
    .to_config();
    assert!(!config.layout.insert_final_newline);
    assert!(!config.layout.trim_trailing_whitespace);
    assert_eq!(config.layout.indent_style, IndentStyle::Tab);
    assert_eq!(config.layout.indent_width, 8);
    assert_eq!(config.layout.tab_width, 8);
    assert!(config.layout.formatter_tags);
    assert_eq!(config.layout.formatter_off_tag, "spotless:off");
    assert_eq!(config.layout.formatter_on_tag, "spotless:on");
    assert_eq!(config.imports.order, ImportOrder::Group);
    assert_eq!(config.imports.groups, ["java.", "javax.", "*", "static"]);
}

#[test]
fn a_leading_whitespace_size_alone_changes_nothing() {
    let config = SpotlessConfig { leading_whitespace_size: Some(8), ..SpotlessConfig::default() }.to_config();
    assert_eq!(config.layout.indent_width, 2);
    let tags_without_toggle = SpotlessConfig { toggle_off_tag: Some("x".to_owned()), ..SpotlessConfig::default() }.to_config();
    assert_eq!(tags_without_toggle.layout.formatter_off_tag, "@formatter:off");
    assert!(!tags_without_toggle.layout.formatter_tags);
}

#[test]
fn spotless_delegates_to_an_eclipse_profile() {
    let mut pairs = KvMap::new();
    pairs.insert("org.eclipse.jdt.core.formatter.lineSplit", "140");
    pairs.insert("org.eclipse.jdt.core.formatter.tabulation.size", "8");
    let native = SpotlessConfig {
        delegate: SpotlessDelegate::Eclipse(EclipseConfig::from_pairs(&pairs).expect("pipeline should parse")),
        ..SpotlessConfig::default()
    };
    let config = native.to_config();
    assert_eq!(config.layout.max_width, 140);
    assert_eq!(config.layout.indent_width, 8);
}

#[test]
fn the_import_group_encoding_is_shared_across_importers() {
    let spotless = SpotlessConfig {
        import_order: vec!["\\#".to_owned(), "java".to_owned(), "javax".to_owned(), String::new()],
        ..SpotlessConfig::default()
    }
    .to_config();
    let intellij = IntellijEditorConfig::parse("[*.java]\nij_java_imports_layout = $*, |, java.**, javax.**, |, *\n")
        .expect("editorconfig should parse")
        .to_config();
    assert_eq!(spotless.imports.groups, ["static", "java.", "javax.", "*"]);
    assert_eq!(spotless.imports.groups, intellij.imports.groups);
}

#[test]
fn several_static_groups_collapse_into_one() {
    let config = SpotlessConfig {
        import_order: vec!["\\#com.acme".to_owned(), "\\#".to_owned(), String::new()],
        ..SpotlessConfig::default()
    }
    .to_config();
    assert_eq!(config.imports.groups, ["static", "*"]);
    let order = ["#".to_owned(), "org.".to_owned()];
    assert_eq!(SpotlessConfig::map_import_order(&order), ["static", "org."]);
}

#[test]
fn a_malformed_xml_document_is_an_error_not_a_panic() {
    let err = EclipseXmlProfile::parse("<profile><setting id=").expect_err("malformed");
    assert!(matches!(err, ImportError::Xml(_)), "{err:?}");
    assert!(err.to_string().contains("XML"));
    let _ = ImportError::Deserialize("unused".to_owned());
}

#[test]
fn an_import_error_names_its_kind() {
    assert_eq!(ImportError::Xml("bad".to_owned()).to_string(), "config XML is malformed: bad");
    assert_eq!(ImportError::Deserialize("bad".to_owned()).to_string(), "config deserialization failed: bad");
}

#[test]
fn every_config_section_is_reachable_from_some_vendor() {
    let defaults = Config::default();
    let eclipse = EclipsePrefs::parse(
        "org.eclipse.jdt.core.formatter.lineSplit=120\n\
         org.eclipse.jdt.core.formatter.blank_lines_before_method=2\n\
         org.eclipse.jdt.core.formatter.brace_position_for_type_declaration=next_line\n\
         org.eclipse.jdt.core.formatter.alignment_for_enum_constants=2147483647\n\
         org.eclipse.jdt.core.formatter.insert_space_before_comma_in_method_invocation_arguments=insert\n\
         org.eclipse.jdt.core.formatter.comment.format_javadoc_comments=true\n",
    )
    .expect("profile should parse")
    .to_config();
    assert_ne!(eclipse.layout, defaults.layout);
    assert_ne!(eclipse.blank_lines, defaults.blank_lines);
    assert_ne!(eclipse.braces, defaults.braces);
    assert_ne!(eclipse.wrapping, defaults.wrapping);
    assert_ne!(eclipse.spacing, defaults.spacing);
    assert_ne!(eclipse.comments, defaults.comments);
    let gjf = GoogleJavaFormatConfig::default().to_config();
    assert_ne!(gjf.imports, defaults.imports);
}

#[test]
fn the_gjf_family_profile_is_the_google_preset() {
    let config = GoogleJavaFormatConfig::default().to_config();
    assert_eq!(
        config.layout,
        Layout { indent_width: 2, tab_width: 2, continuation_indent: Some(4), line_ending: LineEnding::Lf, ..Layout::default() }
    );
    assert_eq!(
        config.comments,
        Comments {
            format_line: true,
            format_javadoc: true,
            format_header: true,
            width: 100,
            blank_line_before_tags: true,
            reflow_unclosed_html: false,
            normalize_parameter_comments: true,
            inline_block_comments: true,
            code_block_width: 0,
            ..Comments::default()
        }
    );
    assert_eq!(
        config.wrapping,
        Wrapping {
            method_chain: WrapPolicy::IfLongPerItem,
            ternary: WrapPolicy::IfLongPerItem,
            method_parameters: WrapPolicy::IfLongPerItem,
            case_labels: WrapPolicy::IfLongPerItem,
            enum_constants: WrapPolicy::AlwaysPerItem,
            resource_list: WrapPolicy::AlwaysPerItem,
            type_arguments: WrapPolicy::IfLongPerItem,
            type_parameters: WrapPolicy::IfLongPerItem,
            deconstruction_list: WrapPolicy::IfLongPerItem,
            multi_catch_types: WrapPolicy::IfLongPerItem,
            for_statement: WrapPolicy::IfLongPerItem,
            annotation_arguments: WrapPolicy::IfLongPerItem,
            extends_list: WrapPolicy::IfLongPerItem,
            throws_list: WrapPolicy::IfLongPerItem,
            tabular_array_initializers: true,
            fill_item_width: 10,
            format_string_arguments: true,
            parameter_annotations: WrapPolicy::AlwaysPerItem,
            variable_annotations: WrapPolicy::AlwaysPerItem,
            labeled_statement: WrapPolicy::AlwaysPerItem,
            inline_argumentless_annotations: InlineAnnotations::Declarations,
            reflow_long_strings: true,
            import_group: WrapPolicy::Never,
            remove_nested_parens: false,
            ..Wrapping::default()
        }
    );
    assert_eq!(
        config.braces,
        Braces {
            keep_type_body_on_one_line: KeepOnOneLine::IfEmpty,
            keep_method_body_on_one_line: KeepOnOneLine::IfEmpty,
            keep_control_statement_on_one_line: true,
            force_switch_arm: ForceBraces::Never,
            ..Braces::default()
        }
    );
    assert!(config.imports.remove_unused, "google-java-format runs RemoveUnusedImports by default");
}

#[test]
fn the_defaults_already_hold_the_java_floor() {
    let mut config = Config::default();
    pin_java_baseline(&mut config);
    assert_eq!(config, Config::default());
    assert_eq!(config.layout.line_ending, LineEnding::Lf);
    assert_eq!(config.wrapping.import_group, WrapPolicy::Never);
    assert_eq!(config.comments.code_block_width, 0);
    assert_eq!(config.braces.force_switch_arm, ForceBraces::Never);
    assert_eq!(config.blank_lines, Config::default().blank_lines);
    // Pinning twice changes nothing more.
    pin_java_baseline(&mut config);
    assert_eq!(config, Config::default());
}

#[test]
fn import_group_prefixes_are_dotted_once() {
    let chars = |s: &str| s.chars().collect::<Vec<_>>();
    assert_eq!(ImportGroups::prefix(&chars("java")), "java.");
    assert_eq!(ImportGroups::prefix(&chars("java.")), "java.");
    assert_eq!(ImportGroups::prefix(&chars("")), "*");
    let mut groups = vec!["java.".to_owned()];
    ImportGroups::push_static(&mut groups);
    ImportGroups::push_static(&mut groups);
    assert_eq!(groups, ["java.", "static"]);
}

#[test]
fn the_file_backed_importers_share_one_interface() {
    let prefs = "org.eclipse.jdt.core.formatter.lineSplit=120\n";
    let through_trait = <EclipsePrefs as ConfigImporter>::import(prefs).expect("prefs parse");
    assert_eq!(through_trait.layout.max_width, 120);
    let native = <EclipsePrefs as ConfigImporter>::parse(prefs).expect("prefs parse");
    assert_eq!(native.to_config(), through_trait);
    let empty = <IntellijEditorConfig as ConfigImporter>::import("").expect("empty parses");
    assert_eq!(empty, Config::default());
}
