use jals_fmt::config::{Comments, TagAlignment};
use jals_fmt::javadoc::blocks::{
    block_tag, ends_block_tag, flush, infer_paragraph_tags, join_inline_tags, paragraph_line,
    release_pending, request_blank, split_paragraph_tags, tag_columns, Block,
};
use jals_fmt::javadoc::code::{dedent_code_region, normalize_pre_code_block};
use jals_fmt::javadoc::comment::{
    break_at, is_non_nls, shift, space_after_slashes, to_line_comments, wrap_line,
};
use jals_fmt::javadoc::lines::{
    brace_delta, brace_fence, closes_fence, closes_list, closing_tag_at, drop_paragraph_close,
    has_paragraph_close, is_blockquote, is_heading, is_html_block, list_depth, list_indents,
    opens_fence, opens_list, paragraph_open, self_closing_fence, split_after_fence_close,
    split_block_tag, split_html_comment,
};
use jals_fmt::javadoc::render::{body, join_lines, push_indented, push_line, push_tag, render_line};
use jals_fmt::javadoc::tokens::{
    fill_two, is_break_tag, is_item_tag, is_known_tag, standardize_tag, tokenize, tokens_of, Word,
};
use jals_fmt::javadoc::{html_tag, lexes_cleanly, opens_footer_tag};

fn c(s: &str) -> Vec<char> {
    s.chars().collect()
}

fn s(v: &[char]) -> String {
    v.iter().collect()
}

fn w(text: &str, space: bool) -> Word {
    Word { text: c(text), space }
}

fn texts(words: &[Word]) -> Vec<(String, bool)> {
    words.iter().map(|w| (s(&w.text), w.space)).collect()
}

fn prose_texts(block: &Block) -> Vec<String> {
    match block {
        Block::Prose { words, .. } => words.iter().map(|w| s(&w.text)).collect(),
        _ => panic!("not prose"),
    }
}

#[test]
fn an_unclosed_region_does_not_lex() {
    assert!(lexes_cleanly(&c("<pre>x</pre> and {@code y}")));
    assert!(!lexes_cleanly(&c("<pre>x")));
    assert!(!lexes_cleanly(&c("{@code x")));
    assert!(lexes_cleanly(&c("a </code> stray close closes nothing")));
}

#[test]
fn a_tag_name_ends_at_a_word_boundary() {
    assert_eq!(html_tag(&c("<p>x"), 0, "p", false), Some(3));
    assert_eq!(html_tag(&c("<param>"), 0, "p", false), None);
    assert_eq!(html_tag(&c("a</p >"), 1, "p", true), Some(5));
    assert_eq!(html_tag(&c("<p"), 0, "p", false), None);
    assert!(opens_footer_tag(&c("@param x"), 0));
    assert!(!opens_footer_tag(&c("@Override"), 0));
}

#[test]
fn fences_open_and_close_on_their_markers() {
    assert!(opens_fence(&c("```java"), false));
    assert!(opens_fence(&c("<PRE>"), false));
    assert!(opens_fence(&c("{@code x"), false));
    assert!(!opens_fence(&c("{@code x}"), false));
    assert!(opens_fence(&c("<table>"), true));
    assert!(!opens_fence(&c("<table>"), false));
    assert!(closes_fence(&c("</PRE>"), false));
    assert!(!closes_fence(&c("</table>"), false));
    assert!(self_closing_fence(&c("<pre>x</pre>"), false));
    assert!(!self_closing_fence(&c("<pre>x"), false));
    assert!(brace_fence(&c("{@snippet :")));
    assert!(brace_fence(&c("{@CODE x")));
    assert!(!brace_fence(&c("a {@code x")));
}

#[test]
fn a_brace_count_is_opens_less_closes() {
    assert_eq!(brace_delta(&c("{@code {x}}")), 0);
    assert_eq!(brace_delta(&c("{{")), 2);
    assert_eq!(brace_delta(&c("}")), -1);
    // Braces inside a string or a character literal are not counted.
    assert_eq!(brace_delta(&c("s = \"{\";")), 0);
    assert_eq!(brace_delta(&c("c = '{'; d = '\\}';")), 0);
    assert_eq!(brace_delta(&c("\"a\\\"{\" {")), 1);
    // An apostrophe in prose opens no literal.
    assert_eq!(brace_delta(&c("don't {@code x")), 1);
}

#[test]
fn list_depth_counts_each_tag_once() {
    assert_eq!(list_depth(0, &c("<ul><li>a")), 1);
    assert_eq!(list_depth(1, &c("</ul>")), 0);
    assert_eq!(list_depth(0, &c("{@code <ul>x</ul>}")), 0);
    assert_eq!(list_depth(0, &c("</ol>")), 0);
    assert_eq!(list_depth(0, &c("<ulx>")), 0);
}

#[test]
fn list_indents_follow_the_level() {
    assert_eq!(list_indents(0, &c("<li>a")), (0, 0));
    assert_eq!(list_indents(1, &c("<li>a")), (2, 6));
    assert_eq!(list_indents(1, &c("text")), (6, 6));
    assert_eq!(list_indents(1, &c("</ul>")), (0, 0));
    assert_eq!(list_indents(2, &c("<LI>")), (8, 12));
}

#[test]
fn paragraph_tags_in_every_simple_spelling() {
    assert_eq!(paragraph_open(&c("<p>Hello")).map(|v| s(&v)), Some("Hello".into()));
    assert_eq!(paragraph_open(&c("<P />  x")).map(|v| s(&v)), Some("x".into()));
    assert_eq!(paragraph_open(&c("<pre>")), None);
    assert!(closing_tag_at(&c("a</p>"), "p"));
    assert!(!closing_tag_at(&c("</param>"), "p"));
    assert!(has_paragraph_close(&c("x</LI>")));
    assert!(!has_paragraph_close(&c("x</ul>")));
    assert_eq!(s(&drop_paragraph_close(&c("a</p> b</P >c</param>"))), "a bc</param>");
}

#[test]
fn an_html_comment_is_split_out_of_its_line() {
    let (a, b, d) = split_html_comment(&c("a <!-- c --> b")).unwrap();
    assert_eq!((s(&a), s(&b), s(&d)), ("a".into(), "<!-- c -->".into(), "b".into()));
    assert!(split_html_comment(&c("a <!-- open")).is_none());
}

#[test]
fn block_level_tags_get_lines_of_their_own() {
    let (a, b) = split_after_fence_close(&c("x</pre></blockquote>"), false).unwrap();
    assert_eq!((s(&a), s(&b)), ("x</pre>".into(), "</blockquote>".into()));
    assert!(split_after_fence_close(&c("x</pre>"), false).is_none());
    let (a, b) = split_block_tag(&c("<blockquote><pre>")).unwrap();
    assert_eq!((s(&a), s(&b)), ("<blockquote>".into(), "<pre>".into()));
    let (a, b) = split_block_tag(&c("text <ul>")).unwrap();
    assert_eq!((s(&a), s(&b)), ("text".into(), "<ul>".into()));
    assert!(split_block_tag(&c("{@code <ul>}")).is_none());
    assert!(split_block_tag(&c("<ul>")).is_none());
}

#[test]
fn html_blocks_and_headings_are_recognised() {
    assert!(is_html_block(&c("  <UL>"), false));
    assert!(is_html_block(&c("<table>"), false));
    assert!(!is_html_block(&c("<table>"), true));
    assert!(!is_html_block(&c("<br>"), false));
    assert!(is_heading(&c("<h2>Title")));
    assert!(!is_heading(&c("<hr>")));
    assert!(is_blockquote(&c(" </BLOCKQUOTE>")));
    assert!(opens_list(&c("<ol>")));
    assert!(closes_list(&c("</ul>")));
    assert!(!closes_list(&c("</ul> x")));
    assert!(!closes_list(&c("</ul></li>")));
}

#[test]
fn a_space_goes_after_the_slashes() {
    assert_eq!(s(&space_after_slashes(&c("//foo"))), "// foo");
    assert_eq!(s(&space_after_slashes(&c("//noinspection X"))), "//noinspection X");
    assert_eq!(s(&space_after_slashes(&c("//$NON-NLS-1$"))), "//$NON-NLS-1$");
    assert_eq!(s(&space_after_slashes(&c("// a"))), "// a");
    assert_eq!(s(&space_after_slashes(&c("/x"))), "/x");
    assert!(is_non_nls(&c("$NON-NLS-1$")));
    assert!(!is_non_nls(&c("$NON-NLS-$")));
    assert!(!is_non_nls(&c("$NON-NLS-12")));
}

#[test]
fn a_block_comment_becomes_line_comments() {
    assert_eq!(s(&to_line_comments(&c("/* a\n * b\n */"), 4)), "// a\n    // b\n    //");
    assert_eq!(s(&to_line_comments(&c("/**/"), 0)), "//");
}

#[test]
fn a_moved_comment_takes_its_lines_with_it() {
    assert_eq!(s(&shift(&c("/* a\n   b\n\n*/"), 6, 2)), "/* a\n       b\n\n    */");
    assert_eq!(s(&shift(&c("/* a\n b */"), 2, 6)), "/* a\n b */");
    assert_eq!(s(&shift(&c("/* a */"), 6, 2)), "/* a */");
}

#[test]
fn a_line_comment_breaks_at_whitespace() {
    assert_eq!(break_at(&c("// aaa bbb ccc"), 10), Some(10));
    assert_eq!(break_at(&c("// aaaaaaaaaa"), 10), None);
    let lines: Vec<String> = wrap_line(&c("// aaa bbb ccc"), 0, 10).iter().map(|l| s(l)).collect();
    assert_eq!(lines, ["// aaa bbb", "// ccc"]);
    assert_eq!(s(&render_line(&c("//foo bar baz"), 0, 8)), "// foo\n// bar\n// baz");
    assert_eq!(s(&render_line(&c("// MOE: begin_strip long words here"), 0, 8)), "// MOE: begin_strip long words here");
}

#[test]
fn known_tags_are_tokens_of_their_own() {
    assert!(is_known_tag(&c("p")));
    assert!(is_known_tag(&c("/UL")));
    assert!(is_known_tag(&c(" h3 class=x")));
    assert!(!is_known_tag(&c("em")));
    assert!(!is_known_tag(&c("h7")));
    assert_eq!(s(&standardize_tag(&c("<BR/>"))), "<br>");
    assert_eq!(s(&standardize_tag(&c("<P >"))), "<p>");
    assert_eq!(s(&standardize_tag(&c("<CODE>"))), "<CODE>");
    assert!(is_break_tag(&c("<BR>")));
    assert!(is_item_tag(&c("<li>")));
    assert!(is_item_tag(&c("<a href=\"x\">")));
    assert!(!is_item_tag(&c("<dt")));
    assert!(is_item_tag(&c("<h2>")));
    assert!(!is_item_tag(&c("<p>")));
}

#[test]
fn a_run_splits_at_known_tags() {
    let mut out = Vec::new();
    tokenize(&c("a<code>b</code>c"), true, &mut out);
    assert_eq!(
        texts(&out),
        [("a".into(), true), ("<code>".into(), false), ("b".into(), false), ("</code>".into(), false), ("c".into(), false)]
    );
    let mut out = Vec::new();
    tokenize(&c("{@code <p>}"), true, &mut out);
    assert_eq!(texts(&out), [("{@code <p>}".to_string(), true)]);
    let mut out = Vec::new();
    tokenize(&c("<em>x</em>"), false, &mut out);
    assert_eq!(texts(&out), [("<em>x</em>".to_string(), false)]);
    let mut out = Vec::new();
    tokens_of(&c("<li> item text"), &mut out);
    assert_eq!(texts(&out), [("<li>".into(), true), ("item".into(), false), ("text".into(), true)]);
}

#[test]
fn refilling_keeps_tags_and_breaks() {
    let lines: Vec<String> = fill_two(&[w("aa", true), w("bb", true), w("cc", true)], 5, 5).iter().map(|l| s(l)).collect();
    assert_eq!(lines, ["aa bb", "cc"]);
    let lines: Vec<String> = fill_two(&[w("aaaa", true), w("@x", true)], 4, 4).iter().map(|l| s(l)).collect();
    assert_eq!(lines, ["aaaa @x"]);
    let lines: Vec<String> = fill_two(&[w("a", true), w("<br>", true), w("b", true)], 80, 80).iter().map(|l| s(l)).collect();
    assert_eq!(lines, ["a <br>", "b"]);
}

#[test]
fn a_block_tag_takes_its_argument() {
    match block_tag(&c("@param x the value")) {
        Some(Block::Tag { name, argument, words }) => {
            assert_eq!(s(&name), "@param");
            assert_eq!(argument.map(|a| s(&a)), Some("x".into()));
            assert_eq!(texts(&words), [("the".into(), true), ("value".into(), true)]);
        },
        _ => panic!("not a tag"),
    }
    match block_tag(&c("@return the")) {
        Some(Block::Tag { argument, .. }) => assert!(argument.is_none()),
        _ => panic!("not a tag"),
    }
    assert!(block_tag(&c("@Override")).is_none());
    assert!(block_tag(&c("text")).is_none());
}

#[test]
fn blank_requests_and_flushes() {
    let mut blocks = Vec::new();
    request_blank(&mut blocks);
    assert!(blocks.is_empty());
    blocks.push(Block::Blank { requested: false });
    request_blank(&mut blocks);
    assert!(matches!(blocks.as_slice(), [Block::Blank { requested: true }]));
    let mut prose = vec![w("a", true)];
    flush(&mut prose, &mut blocks, 2, 4);
    assert!(prose.is_empty());
    assert!(matches!(blocks.last(), Some(Block::Prose { first: 2, rest: 4, .. })));
    request_blank(&mut blocks);
    assert_eq!(blocks.len(), 3);
    let mut pending = Some(c("<p>word"));
    let mut prose = Vec::new();
    release_pending(&mut pending, &mut prose);
    assert!(pending.is_none());
    assert_eq!(texts(&prose), [("<p>".into(), true), ("word".into(), false)]);
    assert_eq!(prose_texts(&paragraph_line(3)), ["<p>"]);
}

#[test]
fn a_paragraph_ending_in_a_block_tag_is_not_a_literal() {
    let list = Block::Prose { words: vec![w("text</UL>", true)], first: 0, rest: 0 };
    assert!(ends_block_tag(&list));
    let param = Block::Prose { words: vec![w("<param>", true)], first: 0, rest: 0 };
    assert!(!ends_block_tag(&param));
}

#[test]
fn a_blank_line_between_paragraphs_gets_a_paragraph_tag() {
    let make = || {
        vec![
            Block::Prose { words: vec![w("a", true)], first: 0, rest: 0 },
            Block::Blank { requested: false },
            Block::Prose { words: vec![w("b", true)], first: 0, rest: 0 },
        ]
    };
    let mut glued = make();
    infer_paragraph_tags(&mut glued, false);
    assert_eq!(prose_texts(&glued[2]), ["<p>b"]);
    let mut own = make();
    infer_paragraph_tags(&mut own, true);
    assert_eq!(own.len(), 4);
    assert_eq!(prose_texts(&own[2]), ["<p>"]);
    assert_eq!(prose_texts(&own[3]), ["b"]);
}

#[test]
fn every_paragraph_tag_gets_a_line_of_its_own() {
    let mut blocks = vec![Block::Prose { words: vec![w("a", true), w("<p>", true), w("b", true)], first: 0, rest: 2 }];
    split_paragraph_tags(&mut blocks);
    assert_eq!(blocks.len(), 3);
    assert_eq!(prose_texts(&blocks[0]), ["a"]);
    assert_eq!(prose_texts(&blocks[1]), ["<p>"]);
    assert_eq!(prose_texts(&blocks[2]), ["b"]);
    assert!(matches!(blocks[2], Block::Prose { first: 2, rest: 2, .. }));
    let mut inside = vec![Block::Prose { words: vec![w("{@code", true), w("<p>", true), w("}", true)], first: 0, rest: 0 }];
    split_paragraph_tags(&mut inside);
    assert_eq!(inside.len(), 1);
}

#[test]
fn an_inline_tag_is_fused_while_it_fits() {
    let mut words = vec![w("{@code", true), w("a", true), w("b}", true), w("c", true)];
    join_inline_tags(&mut words, 80);
    assert_eq!(texts(&words), [("{@code a b}".into(), true), ("c".into(), true)]);
    let mut narrow = vec![w("{@code", true), w("a", true), w("b}", true)];
    join_inline_tags(&mut narrow, 5);
    assert_eq!(narrow.len(), 3);
    let mut open = vec![w("{@code", true), w("a", true)];
    join_inline_tags(&mut open, 80);
    assert_eq!(open.len(), 2);
}

#[test]
fn tag_descriptions_line_up_by_mode() {
    let tag = |name: &str, arg: Option<&str>| Block::Tag { name: c(name), argument: arg.map(c), words: Vec::new() };
    let blocks = vec![
        tag("@param", Some("x")),
        tag("@param", Some("longer")),
        tag("@return", None),
        Block::Blank { requested: false },
    ];
    assert_eq!(tag_columns(&blocks, TagAlignment::Grouped), [Some(13), Some(13), Some(7), None]);
    assert_eq!(tag_columns(&blocks, TagAlignment::All), [Some(13), Some(13), Some(13), None]);
    assert_eq!(tag_columns(&blocks, TagAlignment::Unaligned), [None, None, None, None]);
    let split = vec![tag("@param", Some("a")), tag("@throws", Some("E")), tag("@param", Some("bb"))];
    assert_eq!(tag_columns(&split, TagAlignment::Grouped), [Some(8), Some(9), Some(9)]);
}

#[test]
fn body_lines_are_written_with_their_asterisks() {
    let mut out = Vec::new();
    push_line(&mut out, &c("x"), true);
    push_line(&mut out, &c(""), true);
    push_line(&mut out, &c("y"), false);
    assert_eq!(s(&out), "\n* x\n*\ny");
    let mut out = Vec::new();
    push_indented(&mut out, &c("x"), 2, true);
    assert_eq!(s(&out), "\n*   x");
    assert_eq!(s(&join_lines(&vec![c("a"), c("b")])), "a\nb");
}

#[test]
fn a_block_tag_is_written_with_its_description() {
    let cfg = Comments::default();
    let mut out = Vec::new();
    push_tag(&mut out, &c("@param"), &Some(c("x")), &[w("the", true), w("value", true)], 80, None, &cfg, 4);
    assert_eq!(s(&out), "\n* @param x the value");
    let mut out = Vec::new();
    push_tag(&mut out, &c("@param"), &Some(c("x")), &[w("the", true)], 80, Some(12), &cfg, 4);
    assert_eq!(s(&out), "\n* @param x     the");
    let mut out = Vec::new();
    push_tag(&mut out, &c("@return"), &None, &[], 80, None, &cfg, 4);
    assert_eq!(s(&out), "\n* @return");
}

#[test]
fn the_body_is_what_lies_between_the_delimiters() {
    assert_eq!(body(&c("/**\n * a\n * b\n */"), true).map(|b| s(&b)), Some("\n a\n b\n ".into()));
    assert_eq!(body(&c("/* x */"), false).map(|b| s(&b)), Some(" x ".into()));
    assert_eq!(body(&c("/* x"), false), None);
    assert_eq!(body(&c("/* x */"), true), None);
}

#[test]
fn a_code_region_is_dedented_and_its_delimiters_moved() {
    let mut lines = vec![c("<pre>{@code"), c("    a"), c("      b"), c("}</pre>")];
    dedent_code_region(&mut lines);
    let got: Vec<String> = lines.iter().map(|l| s(l)).collect();
    assert_eq!(got, ["<pre>{@code", "a", "  b", "}</pre>"]);
    let mut lines = vec![c("<pre> {@code"), c(""), c("  foo();"), c("}"), c("</pre>")];
    normalize_pre_code_block(&mut lines);
    let got: Vec<String> = lines.iter().map(|l| s(l)).collect();
    assert_eq!(got, ["<pre>{@code", "foo();", "}</pre>"]);
    let mut plain = vec![c("<pre>{@code foo}"), c("</pre>")];
    normalize_pre_code_block(&mut plain);
    assert_eq!(plain.len(), 2);
}

fn block_shape(b: &Block) -> String {
    match b {
        Block::Prose { words, first, rest } => {
            let ws: Vec<String> = words.iter().map(|w| format!("{}{}", if w.space { " " } else { "" }, s(&w.text))).collect();
            format!("P{}/{}[{}]", first, rest, ws.join("|"))
        },
        Block::Verbatim { lines, first } => {
            let ls: Vec<String> = lines.iter().map(|l| s(l)).collect();
            format!("V{}[{}]", first, ls.join("|"))
        },
        Block::Tag { name, argument, words } => {
            let ws: Vec<String> = words.iter().map(|w| s(&w.text)).collect();
            format!("T[{} {:?} {}]", s(name), argument.as_ref().map(|a| s(a)), ws.join("|"))
        },
        Block::Blank { requested } => format!("B{}", requested),
    }
}

fn parsed(body: &str, cfg: &Comments) -> Vec<String> {
    jals_fmt::javadoc::parse::parse(&c(body), cfg, &jals_fmt::config::Layout::default()).iter().map(block_shape).collect()
}

#[test]
fn a_body_reads_into_prose_regions_and_blanks() {
    let cfg = Comments::default();
    assert_eq!(
        parsed("\n Intro.\n <pre>\n code\n </pre>\n Outro.\n ", &cfg),
        ["P0/0[ Intro.]", "Btrue", "V0[<pre>|code|</pre>]", "Btrue", "P0/0[ Outro.]"]
    );
}

#[test]
fn a_blank_line_between_paragraphs_reads_as_a_paragraph_tag() {
    let cfg = Comments::default();
    assert_eq!(parsed("A.\n\nB.", &cfg), ["P0/0[ A.]", "Bfalse", "P0/0[ <p>B.]"]);
}

#[test]
fn a_block_tag_takes_the_lines_that_continue_it() {
    let cfg = Comments::default();
    assert_eq!(
        parsed("@param x the value\n  more words", &cfg),
        ["T[@param Some(\"x\") the|value|more|words]"]
    );
}

#[test]
fn a_list_reads_at_its_indents() {
    let cfg = Comments::default();
    assert_eq!(
        parsed("<ul>\n<li>one\n</ul>\nAfter.", &cfg),
        ["P0/0[ <ul>]", "P2/6[ <li>|one]", "P0/0[ </ul>]", "Btrue", "P0/0[ After.]"]
    );
}

#[test]
fn an_at_word_stays_on_the_line_it_would_overflow() {
    let words = [w("the", false), w("@Override", true), w("annotation", true)];
    let lines: Vec<String> = fill_two(&words, 5, 5).iter().map(|l| s(l)).collect();
    assert_eq!(lines, vec!["the @Override".to_string(), "annotation".to_string()]);
}

#[test]
fn refilling_keeps_every_character_but_spaces() {
    let words = [w("one", false), w("{@code a b}", true), w("<br>", false), w("two", true), w("three", true)];
    let lines = fill_two(&words, 20, 20);
    let joined: String = lines.iter().map(|l| s(l)).collect::<String>().chars().filter(|c| *c != ' ').collect();
    let source: String = words.iter().map(|w| s(&w.text)).collect::<String>().chars().filter(|c| *c != ' ').collect();
    assert_eq!(joined, source);
    assert_eq!(s(&lines[0]), "one {@code a b}<br>");
    assert_eq!(s(&lines[1]), "two three");
}

#[test]
fn every_wrapped_line_is_a_line_comment() {
    let lines = wrap_line(&c("// alpha beta gamma delta epsilon"), 4, 20);
    assert!(lines.len() > 1);
    for line in &lines {
        assert!(s(line).starts_with("//"), "{:?}", s(line));
    }
    assert_eq!(s(&lines[0]), "// alpha beta");
}

#[test]
fn fusing_keeps_the_text_as_written() {
    let written = |words: &[Word]| -> String {
        words.iter().map(|w| format!("{}{}", if w.space { " " } else { "" }, s(&w.text))).collect()
    };
    let mut words = vec![w("See", false), w("{@code", true), w("a<br>b}", true), w("now", true)];
    let before = written(&words);
    join_inline_tags(&mut words, 40);
    assert_eq!(texts(&words)[1], ("{@code a<br>b}".to_string(), true));
    assert_eq!(written(&words), before);
}
