use markdown_to_html::entity::{ErrorKind, Markdown, MarkdownInline, ParseError};
use markdown_to_html::parser::{parse_horizontal_rule, parse_markdown, parse_strike};
use markdown_to_html::translator::translate;

fn convert(markdown: &str) -> String {
    translate(parse_markdown(markdown).unwrap().1)
}

fn plain(x: &str) -> MarkdownInline {
    MarkdownInline::Plaintext(String::from(x))
}

#[test]
fn test_convert() {
    assert_eq!(convert("# h1\n"), String::from("<h1>h1</h1>"));
    assert_eq!(convert("## h2\n"), String::from("<h2>h2</h2>"));
    assert_eq!(
        convert("- a\n- b\n- c\n"),
        String::from("<ul><li>a</li><li>b</li><li>c</li></ul>")
    );
}

#[test]
fn same_input_same_output() {
    let doc = "# Title\n\nSome *text* with `code`.\n- a\n1. b\n```rust\nfn main() {}\n```\n";
    let first = parse_markdown(doc);
    let second = parse_markdown(doc);
    assert_eq!(first, second);
    assert_eq!(convert(doc), convert(doc));
}

#[test]
fn heading_document() {
    let parsed = parse_markdown("# h1\n");
    assert_eq!(parsed, Ok(("", vec![Markdown::Heading(1, vec![plain("h1")])])));
    assert_eq!(translate(parsed.unwrap().1), String::from("<h1>h1</h1>"));
}

#[test]
fn heading_level_with_two_digits() {
    assert_eq!(convert("########## deep\n"), String::from("<h10>deep</h10>"));
}

#[test]
fn unordered_list_document() {
    let parsed = parse_markdown("- a\n- b\n- c\n");
    assert_eq!(
        parsed,
        Ok((
            "",
            vec![Markdown::UnorderedList(vec![
                vec![plain("a")],
                vec![plain("b")],
                vec![plain("c")],
            ])]
        ))
    );
    assert_eq!(
        translate(parsed.unwrap().1),
        String::from("<ul><li>a</li><li>b</li><li>c</li></ul>")
    );
}

#[test]
fn ordered_list_document() {
    assert_eq!(
        convert("1. one\n2. two\n"),
        String::from("<ol><li>one</li><li>two</li></ol>")
    );
}

#[test]
fn escaped_delimiters_are_literal() {
    assert_eq!(
        parse_markdown("\\*\\[\\]\n"),
        Ok(("", vec![Markdown::Line(vec![plain("*[]")])]))
    );
    assert_eq!(convert("\\*\\[\\]\n"), String::from("*[]"));
}

#[test]
fn unmatched_star_is_plain_text() {
    assert_eq!(
        parse_markdown("a * b\n"),
        Ok(("", vec![Markdown::Line(vec![plain("a "), plain("* b")])]))
    );
    assert_eq!(convert("a * b\n"), String::from("a * b"));
}

#[test]
fn unmatched_bracket_is_plain_text() {
    assert_eq!(convert("see [x and *y*\n"), String::from("see [x and <em>y</em>"));
}

#[test]
fn span_does_not_cross_lines() {
    assert_eq!(
        parse_markdown("*a\nb*\n"),
        Ok((
            "",
            vec![
                Markdown::Line(vec![plain("*a")]),
                Markdown::Line(vec![plain("b"), plain("*")]),
            ]
        ))
    );
}

#[test]
fn code_block_body_is_verbatim() {
    let parsed = parse_markdown("```\na`b\n```\n");
    assert_eq!(
        parsed,
        Ok((
            "",
            vec![
                Markdown::Codeblock(String::from(""), String::from("a`b\n")),
                Markdown::Line(vec![]),
            ]
        ))
    );
    assert_eq!(
        translate(parsed.unwrap().1),
        String::from("<pre><code>a`b\n</code></pre>")
    );
}

#[test]
fn code_block_with_language() {
    assert_eq!(
        convert("```rust\nlet x = *y;\n```"),
        String::from("<pre><code class=\"language-rust\">let x = *y;\n</code></pre>")
    );
}

#[test]
fn mixed_list_markers_make_two_lists() {
    let parsed = parse_markdown("- a\n1. b\n");
    assert_eq!(
        parsed,
        Ok((
            "",
            vec![
                Markdown::UnorderedList(vec![vec![plain("a")]]),
                Markdown::OrderedList(vec![vec![plain("b")]]),
            ]
        ))
    );
    assert_eq!(
        translate(parsed.unwrap().1),
        String::from("<ul><li>a</li></ul><ol><li>b</li></ol>")
    );
}

#[test]
fn heading_marker_without_space_fails() {
    assert_eq!(
        parse_markdown("#text\n"),
        Err(ParseError { input: "text\n", kind: ErrorKind::Tag })
    );
    assert_eq!(
        parse_markdown("# ok\n##no\n"),
        Err(ParseError { input: "no\n", kind: ErrorKind::Tag })
    );
}

#[test]
fn unterminated_fence_fails() {
    assert_eq!(
        parse_markdown("```\nabc\n"),
        Err(ParseError { input: "abc\n", kind: ErrorKind::TakeUntil })
    );
    assert_eq!(
        parse_markdown("```rust"),
        Err(ParseError { input: "", kind: ErrorKind::CrLf })
    );
}

#[test]
fn empty_document_fails() {
    assert_eq!(
        parse_markdown(""),
        Err(ParseError { input: "", kind: ErrorKind::Tag })
    );
}

#[test]
fn unterminated_last_line_fails() {
    assert_eq!(
        parse_markdown("abc\ndef"),
        Err(ParseError { input: "", kind: ErrorKind::Tag })
    );
}

#[test]
fn every_inline_element_rendered() {
    assert_eq!(
        convert("**b** *i* ~s~ `c` [l](u) ![a](p)\n"),
        String::from(
            "<strong>b</strong> <em>i</em> <del>s</del> <code>c</code> <a href=\"u\">l</a> <img src=\"p\" alt=\"a\"/>"
        )
    );
}

#[test]
fn text_is_not_escaped() {
    assert_eq!(convert("a <b> & c\n"), String::from("a <b> & c"));
}

#[test]
fn strike_span() {
    assert_eq!(parse_strike("~gone~ rest"), Ok((" rest", String::from("gone"))));
    assert_eq!(
        parse_strike("~gone"),
        Err(ParseError { input: "", kind: ErrorKind::Tag })
    );
    assert_eq!(
        parse_strike("~~"),
        Err(ParseError { input: "~", kind: ErrorKind::IsNot })
    );
}

#[test]
fn horizontal_rule_block() {
    assert_eq!(parse_horizontal_rule("---\nx"), Ok(("x", String::from("\n"))));
    assert_eq!(
        parse_horizontal_rule("---x"),
        Err(ParseError { input: "x", kind: ErrorKind::CrLf })
    );
    assert_eq!(
        parse_markdown("---\n- a\n"),
        Ok((
            "",
            vec![
                Markdown::HorizontalRule,
                Markdown::UnorderedList(vec![vec![plain("a")]]),
            ]
        ))
    );
    assert_eq!(convert("---\r\ntext\n"), String::from("<hr/>text"));
}

#[test]
fn unicode_text_is_kept() {
    assert_eq!(convert("# héllo wörld ✓\n"), String::from("<h1>héllo wörld ✓</h1>"));
}
