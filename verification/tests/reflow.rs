use jals_fmt::config::{Comments, IndentStyle, Layout, ParagraphTags, TagAlignment};
use jals_fmt::javadoc::reflow::{render, render_block, CommentKind, Placement};
use jals_fmt::javadoc::reindent::{reindent_code_region, CodeIndent};

/// The comment width the tests reflow against.
const WIDTH: usize = 100;

/// The step a tag's description continues at when descriptions are indented.
const CONTINUATION: usize = 4;

fn c(s: &str) -> Vec<char> {
    s.chars().collect()
}

fn s(v: &[char]) -> String {
    v.iter().collect()
}

/// Comment settings that reflow Javadoc, with `edit` applied on top.
fn reflowing(edit: impl FnOnce(&mut Comments)) -> Comments {
    let mut cfg = Comments::default();
    cfg.format_javadoc = true;
    edit(&mut cfg);
    cfg
}

/// A member's comment on a line of its own.
fn member() -> Placement {
    Placement { is_header: false, own_line: true, alone_on_line: true }
}

/// Render a member's Javadoc written at indent 2 (the source's leading spaces dropped), with its
/// continuation lines put back under the opening delimiter as the writer does.
fn format(source: &str, cfg: &Comments) -> String {
    let text = source.trim_start();
    let out = s(&render(&c(text), CommentKind::Doc, 2, 2, member(), cfg, &Layout::default(), WIDTH, CONTINUATION));
    format!("  {}", out.replace('\n', "\n   "))
}

#[test]
fn a_requested_blank_line_is_a_fixed_point() {
    let config = reflowing(|config| config.preserve_blank_lines = false);
    for body in [
        "  /**\n   * Intro.\n   * <pre>\n   * code\n   * </pre>\n   * Outro.\n   */",
        "  /**\n   * Intro.\n   * <ul>\n   * <li>one\n   * </ul>\n   * Outro.\n   */",
        "  /**\n   * Intro.\n   * <h2>Title</h2>\n   * Outro.\n   */",
        "  /**\n   * Intro.\n   *\n   * <p>Outro.\n   */",
    ] {
        let once = format(body, &config);
        let twice = format(&once, &config);
        assert_eq!(once, twice, "not a fixed point:\n{once}\n--- became ---\n{twice}");
    }
}

#[test]
fn a_paragraph_tag_is_never_deleted_or_moved_past_a_block() {
    let config = reflowing(|_| {});

    let two = format("  /**\n   * A.\n   *\n   * <p>\n   *\n   * <p>B follows.\n   */", &config);
    assert_eq!(two.matches("<p>").count(), 2, "a `<p>` was dropped:\n{two}");

    let heading = format(
        "  /**\n   * Intro text.\n   *\n   * <p>\n   * <h2>Title</h2>\n   * More text.\n   */",
        &config,
    );
    let at_p = heading.find("<p>").expect("the tag survives");
    let at_h2 = heading.find("<h2>").expect("the heading survives");
    assert!(at_p < at_h2, "the `<p>` moved past the heading:\n{heading}");

    let quote = format(
        "  /**\n   * Intro text.\n   *\n   * <p>\n   * <blockquote>quoted</blockquote>\n   */",
        &config,
    );
    assert!(!quote.contains("<p>quoted"), "the `<p>` moved inside the quote:\n{quote}");
}

#[test]
fn a_preformatted_region_keeps_the_lines_it_holds() {
    let out = format(
        "  /**\n   * <pre>\n   * before\n   * </p>\n   * </li>\n   * after\n   * </pre>\n   */",
        &reflowing(|_| {}),
    );
    assert!(out.contains("</p>"), "a `</p>` inside `<pre>` was deleted:\n{out}");
    assert!(out.contains("</li>"), "a `</li>` inside `<pre>` was deleted:\n{out}");
}

#[test]
fn a_bare_multi_line_inline_code_tag_closes_itself() {
    let out = format(
        "  /**\n   * Example:\n   *\n   * {@code\n   * int x = 1;\n   * }\n   *\n   * @param x the first\n   */",
        &reflowing(|config| config.blank_line_before_tags = true),
    );
    assert!(out.contains("@param x the first"), "the footer tag was swallowed by the region:\n{out}");
}

#[test]
fn an_inline_tag_keeps_the_spacing_it_was_written_with() {
    let out = format(
        "  /**\n   * See {@code a<br>b} for details.\n   */",
        &reflowing(|config| config.break_inside_inline_tags = false),
    );
    assert!(out.contains("{@code a<br>b}"), "the inline tag's content was respaced:\n{out}");
}

#[test]
fn a_paragraph_tag_inside_an_inline_tag_is_not_a_paragraph() {
    for mode in [ParagraphTags::Authored, ParagraphTags::OwnLine] {
        let out = format(
            "  /** Use {@code <p>} to open a paragraph in this doc comment. */",
            &reflowing(|config| config.paragraph_tags = mode),
        );
        assert!(out.contains("{@code <p>}"), "the inline tag was split under {mode:?}:\n{out}");
    }
}

#[test]
fn a_word_ending_in_a_tag_that_is_not_a_block_still_opens_a_paragraph() {
    let out = format(
        "  /**\n   * A sentence ending in <param>\n   *\n   * Another paragraph.\n   */",
        &reflowing(|_| {}),
    );
    assert!(out.contains("<p>Another paragraph."), "the paragraph break was lost:\n{out}");
}

#[test]
fn a_balanced_list_pair_on_one_line_leaves_the_depth_alone() {
    let out = format(
        "  /**\n   * <ul>\n   * <li>see {@code <ul>x</ul>} for details\n   * <li>second item\n   * </ul>\n   */",
        &reflowing(|_| {}),
    );
    let indent = |needle: &str| {
        let at = out.find(needle).expect("the item is written");
        let head = out[..at].rsplit('\n').next().expect("a line");
        head.len() - head.trim_start().len()
    };
    assert_eq!(
        indent("<li>see"),
        indent("<li>second"),
        "two items of one list took different indents:\n{out}",
    );
}

#[test]
fn a_tag_description_and_what_continues_it_share_one_column() {
    let config = reflowing(|config| {
        config.tag_alignment = TagAlignment::All;
        config.indent_tag_description = true;
    });
    let out = format(
        "  /**\n   * @param first a description\n   * <h2>Note</h2>\n   * @throws IllegalArgumentException never\n   */",
        &config,
    );
    let column = |needle: &str| {
        let at = out.find(needle).expect("written");
        let head = out[..at].rsplit('\n').next().expect("a line");
        head.chars().count()
    };
    assert_eq!(
        column("a description"),
        column("<h2>"),
        "the continuation and the description took different columns:\n{out}",
    );
}

/// Render a block comment written alone on its line at indent 2, block comments normalised or
/// not.
fn normalized(text: &str, kind: CommentKind, alone: bool, normalize: bool) -> String {
    let mut cfg = Comments::default();
    cfg.normalize_block_comments = normalize;
    let at = Placement { is_header: false, own_line: alone, alone_on_line: alone };
    s(&render(&c(text), kind, 2, 2, at, &cfg, &Layout::default(), WIDTH, CONTINUATION))
}

#[test]
fn an_own_line_block_comment_becomes_a_line_comment() {
    assert!(normalized("/* a note */", CommentKind::Block, true, false).contains("/* a note */"));
    let out = normalized("/* a note */", CommentKind::Block, true, true);
    assert!(out.contains("// a note"), "{out}");
    assert!(!out.contains("/*"), "{out}");
}

#[test]
fn a_multi_line_block_becomes_a_run_of_line_comments() {
    let out = normalized("/*\n   * first\n   * second\n   */", CommentKind::Block, true, true);
    assert!(out.contains("// first"), "{out}");
    assert!(out.contains("// second"), "{out}");
}

#[test]
fn a_comment_sharing_its_line_with_code_is_left_alone() {
    let why = normalized("/* why */", CommentKind::Block, false, true);
    let trailing = normalized("/* trailing */", CommentKind::Block, false, true);
    assert!(why.contains("/* why */"), "{why}");
    assert!(trailing.contains("/* trailing */"), "{trailing}");
}

#[test]
fn a_javadoc_is_not_a_block_comment() {
    let out = normalized("/** documented */", CommentKind::Doc, true, true);
    assert!(out.contains("/** documented */"), "{out}");
}

#[test]
fn a_short_javadoc_collapses_to_one_line() {
    let cfg = reflowing(|_| {});
    let out = render_block(&c("/**\n   * Returns the value.\n   */"), true, 2, 2, true, &cfg, &Layout::default(), WIDTH, CONTINUATION);
    assert_eq!(s(&out), "/** Returns the value. */");
}

#[test]
fn a_javadoc_with_boundaries_on_own_lines_keeps_them() {
    let cfg = reflowing(|config| config.javadoc_boundaries_on_own_lines = true);
    let out = render_block(&c("/** Returns the value. */"), true, 2, 2, true, &cfg, &Layout::default(), WIDTH, CONTINUATION);
    assert_eq!(s(&out), "/**\n* Returns the value.\n */");
}

#[test]
fn an_empty_javadoc_becomes_the_empty_pair() {
    let cfg = reflowing(|_| {});
    assert_eq!(s(&render_block(&c("/**\n   *\n   */"), true, 0, 0, true, &cfg, &Layout::default(), WIDTH, CONTINUATION)), "/** */");
    assert_eq!(s(&render_block(&c("/*   */"), false, 0, 0, true, &cfg, &Layout::default(), WIDTH, CONTINUATION)), "/* */");
}

#[test]
fn text_without_delimiters_is_left_as_written() {
    let cfg = reflowing(|_| {});
    assert_eq!(s(&render_block(&c("/** open"), true, 0, 0, true, &cfg, &Layout::default(), WIDTH, CONTINUATION)), "/** open");
}

#[test]
fn an_unclosed_html_javadoc_is_only_moved() {
    let cfg = reflowing(|_| {});
    let text = "/**\n * <pre>never closed\n */";
    let out = render_block(&c(text), true, 6, 2, true, &cfg, &Layout::default(), WIDTH, CONTINUATION);
    assert_eq!(s(&out), "/**\n     * <pre>never closed\n     */");
}

#[test]
fn prose_refills_within_the_budget() {
    let cfg = reflowing(|_| {});
    let text = "/**\n * one two three four five six seven eight nine ten eleven twelve\n * thirteen\n */";
    let out = render_block(&c(text), true, 0, 0, true, &cfg, &Layout::default(), 30, CONTINUATION);
    assert_eq!(
        s(&out),
        "/**\n* one two three four five six\n* seven eight nine ten eleven\n* twelve thirteen\n */"
    );
}

#[test]
fn the_first_tag_is_set_off_by_a_blank_line() {
    let cfg = reflowing(|config| config.blank_line_before_tags = true);
    let text = "/**\n * Does it.\n * @param x the value\n * @return nothing\n */";
    let out = render_block(&c(text), true, 0, 0, true, &cfg, &Layout::default(), WIDTH, CONTINUATION);
    assert_eq!(s(&out), "/**\n* Does it.\n*\n* @param x the value\n* @return nothing\n */");
}

#[test]
fn aligned_tags_share_the_widest_head() {
    let cfg = reflowing(|config| config.tag_alignment = TagAlignment::All);
    let text = "/**\n * @param x the value\n * @param longer another\n */";
    let out = render_block(&c(text), true, 0, 0, true, &cfg, &Layout::default(), WIDTH, CONTINUATION);
    assert_eq!(s(&out), "/**\n* @param x      the value\n* @param longer another\n */");
}

#[test]
fn a_line_comment_gets_its_space_when_line_comments_are_reflowed() {
    let mut cfg = Comments::default();
    cfg.format_line = true;
    let out = render(&c("//note"), CommentKind::Line, 0, 0, member(), &cfg, &Layout::default(), WIDTH, CONTINUATION);
    assert_eq!(s(&out), "// note");
    cfg.format_line = false;
    let out = render(&c("//note"), CommentKind::Line, 0, 0, member(), &cfg, &Layout::default(), WIDTH, CONTINUATION);
    assert_eq!(s(&out), "//note");
}

#[test]
fn the_header_is_held_unless_headers_are_reflowed() {
    let cfg = reflowing(|_| {});
    let header = Placement { is_header: true, own_line: true, alone_on_line: true };
    let text = "/**\n * Header.\n */";
    assert_eq!(s(&render(&c(text), CommentKind::Doc, 0, 0, header, &cfg, &Layout::default(), WIDTH, CONTINUATION)), text);
    let cfg = reflowing(|config| config.format_header = true);
    assert_eq!(s(&render(&c(text), CommentKind::Doc, 0, 0, header, &cfg, &Layout::default(), WIDTH, CONTINUATION)), "/** Header. */");
}

/// Render a member's Javadoc at indent 2 under `cfg` and `layout`, continuation lines put back
/// under the opening delimiter.
fn format_with(source: &str, cfg: &Comments, layout: &Layout) -> String {
    let text = source.trim_start();
    let out = s(&render(&c(text), CommentKind::Doc, 2, 2, member(), cfg, layout, WIDTH, CONTINUATION));
    format!("  {}", out.replace('\n', "\n   "))
}

#[test]
fn formatting_source_in_comments_reaches_a_bare_pre() {
    let cfg = reflowing(|config| config.format_source_in_comments = true);
    let layout = Layout { indent_width: 4, ..Layout::default() };
    let out = format_with("  /**\n   * <pre>\n   * if (a) {\n   *   b();\n   * }\n   * </pre>\n   */", &cfg, &layout);
    assert!(out.contains("*     b();"), "the snippet was not re-indented:\n{out}");
}

/// A Javadoc `<pre>` whose lines are indented far enough that re-indenting moves them.
const SNIPPET: &str = "  /**\n   * <pre>\n   * if (a) {\n   *      b();\n   * }\n   * </pre>\n   */";

fn formatted_snippet(code_block_width: usize) -> String {
    let cfg = reflowing(|config| {
        config.format_source_in_comments = true;
        config.code_block_width = code_block_width;
    });
    format_with(SNIPPET, &cfg, &Layout::default())
}

#[test]
fn the_default_budget_lets_a_short_snippet_be_reindented() {
    let out = formatted_snippet(0);
    assert!(!out.contains("*      b();"), "{out}");
    assert!(out.contains("*     b();"), "{out}");
}

#[test]
fn a_budget_the_snippet_cannot_meet_leaves_it_as_written() {
    let out = formatted_snippet(3);
    assert!(out.contains("*      b();"), "{out}");
}

#[test]
fn source_in_comments_is_left_alone_unless_asked_for() {
    let out = format_with(SNIPPET, &reflowing(|_| {}), &Layout::default());
    assert!(out.contains("*      b();"), "{out}");
}

fn lines(ls: &[&str]) -> Vec<Vec<char>> {
    ls.iter().map(|l| c(l)).collect()
}

fn texts(ls: &[Vec<char>]) -> Vec<String> {
    ls.iter().map(|l| s(l)).collect()
}

#[test]
fn a_code_region_takes_the_layout_indentation() {
    let code = CodeIndent { tab_width: 4, indent_cols: 4, style: IndentStyle::Tab, budget: 100 };
    let mut region = lines(&["```java", "if (a) {", "  b();", "    c();", "}", "```"]);
    reindent_code_region(&mut region, &code);
    assert_eq!(texts(&region), vec!["```java", "if (a) {", "\tb();", "\t\tc();", "}", "```"]);

    let spaces = CodeIndent { tab_width: 4, indent_cols: 3, style: IndentStyle::Space, budget: 100 };
    let mut region = lines(&["<PRE>", "x", "\ty", "</pre>"]);
    reindent_code_region(&mut region, &spaces);
    assert_eq!(texts(&region), vec!["<PRE>", "x", "   y", "</pre>"]);
}

#[test]
fn a_region_that_is_not_code_or_does_not_fit_keeps_its_shape() {
    let code = CodeIndent { tab_width: 4, indent_cols: 8, style: IndentStyle::Space, budget: 10 };
    let mut table = lines(&["<table>", "  <tr>", "</table>"]);
    reindent_code_region(&mut table, &code);
    assert_eq!(texts(&table), vec!["<table>", "  <tr>", "</table>"]);

    let mut wide = lines(&["<pre>", "  longer();", "</pre>"]);
    reindent_code_region(&mut wide, &code);
    assert_eq!(texts(&wide), vec!["<pre>", "  longer();", "</pre>"]);
}
