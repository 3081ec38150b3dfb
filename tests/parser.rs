use markdown_to_html::entity::{ErrorKind, Markdown, MarkdownInline, ParseError};
use markdown_to_html::parser::{
    parse_boldtext, parse_code_block, parse_header, parse_header_tag, parse_image,
    parse_inline_code, parse_italics, parse_link, parse_markdown, parse_markdown_inline,
    parse_markdown_text, parse_ordered_list, parse_ordered_list_element, parse_ordered_list_tag,
    parse_plaintext, parse_unordered_list, parse_unordered_list_element,
    parse_unordered_list_tag,
};

fn s(x: &str) -> String {
    String::from(x)
}

fn err<T>(input: &str, kind: ErrorKind) -> Result<(&str, T), ParseError<'_>> {
    Err(ParseError { input, kind })
}

#[test]
fn test_parse_italics() {
    assert_eq!(
        parse_italics("*here is italic*"),
        Ok(("", s("here is italic")))
    );
    assert_eq!(parse_italics("*here is italic"), err("", ErrorKind::Tag));
    assert_eq!(
        parse_italics("here is italic*"),
        err("here is italic*", ErrorKind::Tag)
    );
    assert_eq!(
        parse_italics("here is italic"),
        err("here is italic", ErrorKind::Tag)
    );
    assert_eq!(parse_italics("*"), err("", ErrorKind::IsNot));
    assert_eq!(parse_italics("**"), err("*", ErrorKind::IsNot));
    assert_eq!(parse_italics(""), err("", ErrorKind::Tag));
    assert_eq!(
        parse_italics("**we are doing bold**"),
        err("*we are doing bold**", ErrorKind::IsNot)
    );
}

#[test]
fn test_parse_boldtext() {
    assert_eq!(parse_boldtext("**here is bold**"), Ok(("", s("here is bold"))));
    assert_eq!(parse_boldtext("**here is bold"), err("", ErrorKind::Tag));
    assert_eq!(
        parse_boldtext("here is bold**"),
        err("here is bold**", ErrorKind::Tag)
    );
    assert_eq!(
        parse_boldtext("here is bold"),
        err("here is bold", ErrorKind::Tag)
    );
    assert_eq!(parse_boldtext("****"), err("**", ErrorKind::IsNot));
    assert_eq!(parse_boldtext("**"), err("", ErrorKind::IsNot));
    assert_eq!(parse_boldtext("*"), err("*", ErrorKind::Tag));
    assert_eq!(parse_boldtext(""), err("", ErrorKind::Tag));
    assert_eq!(
        parse_boldtext("*this is italic*"),
        err("*this is italic*", ErrorKind::Tag)
    );
}

#[test]
fn test_parse_inline_code() {
    assert_eq!(
        parse_boldtext("**here is bold**\n"),
        Ok(("\n", s("here is bold")))
    );
    assert_eq!(parse_inline_code("`here is code"), err("", ErrorKind::Tag));
    assert_eq!(
        parse_inline_code("here is code`"),
        err("here is code`", ErrorKind::Tag)
    );
    assert_eq!(parse_inline_code("``"), err("`", ErrorKind::IsNot));
    assert_eq!(parse_inline_code("`"), err("", ErrorKind::IsNot));
    assert_eq!(parse_inline_code(""), err("", ErrorKind::Tag));
}

#[test]
fn test_parse_link() {
    assert_eq!(
        parse_link("[title](https://www.example.com)"),
        Ok(("", (s("title"), s("https://www.example.com"))))
    );
    assert_eq!(parse_inline_code(""), err("", ErrorKind::Tag));
}

#[test]
fn test_parse_image() {
    assert_eq!(
        parse_image("![alt text](image.jpg)"),
        Ok(("", (s("alt text"), s("image.jpg"))))
    );
    assert_eq!(parse_inline_code(""), err("", ErrorKind::Tag));
}

#[test]
fn test_parse_plaintext() {
    assert_eq!(
        parse_plaintext("1234567890"),
        Ok(("", String::from("1234567890")))
    );
    assert_eq!(
        parse_plaintext("oh my gosh!"),
        Ok(("", String::from("oh my gosh!")))
    );
    assert_eq!(
        parse_plaintext("oh my gosh!["),
        Ok(("![", String::from("oh my gosh")))
    );
    assert_eq!(
        parse_plaintext("oh my gosh!*"),
        Ok(("*", String::from("oh my gosh!")))
    );
    assert_eq!(
        parse_plaintext("*bold babey bold*"),
        err("*bold babey bold*", ErrorKind::Tag)
    );
    assert_eq!(
        parse_plaintext("[link babey](and then somewhat)"),
        err("[link babey](and then somewhat)", ErrorKind::Tag)
    );
    assert_eq!(
        parse_plaintext("`codeblock for bums`"),
        err("`codeblock for bums`", ErrorKind::Tag)
    );
    assert_eq!(
        parse_plaintext("![ but wait theres more](jk)"),
        err("![ but wait theres more](jk)", ErrorKind::Tag)
    );
    assert_eq!(
        parse_plaintext("here is plaintext"),
        Ok(("", String::from("here is plaintext")))
    );
    assert_eq!(
        parse_plaintext("here is plaintext!"),
        Ok(("", String::from("here is plaintext!")))
    );
    assert_eq!(
        parse_plaintext("here is plaintext![image starting"),
        Ok(("![image starting", String::from("here is plaintext")))
    );
    assert_eq!(
        parse_plaintext("here is plaintext\n"),
        Ok(("\n", String::from("here is plaintext")))
    );
    assert_eq!(
        parse_plaintext("*here is italic*"),
        err("*here is italic*", ErrorKind::Tag)
    );
    assert_eq!(
        parse_plaintext("**here is bold**"),
        err("**here is bold**", ErrorKind::Tag)
    );
    assert_eq!(
        parse_plaintext("`here is code`"),
        err("`here is code`", ErrorKind::Tag)
    );
    assert_eq!(
        parse_plaintext("[title](https://www.example.com)"),
        err("[title](https://www.example.com)", ErrorKind::Tag)
    );
    assert_eq!(
        parse_plaintext("![alt text](image.jpg)"),
        err("![alt text](image.jpg)", ErrorKind::Tag)
    );
    assert_eq!(parse_plaintext(""), err("", ErrorKind::Tag));
    assert_eq!(parse_plaintext("\\*\\[\\]"), Ok(("", String::from("*[]"))));
}

#[test]
fn test_parse_markdown_inline() {
    assert_eq!(
        parse_markdown_inline("*here is italic*"),
        Ok(("", MarkdownInline::Italic(String::from("here is italic"))))
    );
    assert_eq!(
        parse_markdown_inline("**here is bold**"),
        Ok(("", MarkdownInline::Bold(String::from("here is bold"))))
    );
    assert_eq!(
        parse_markdown_inline("`here is code`"),
        Ok(("", MarkdownInline::InlineCode(String::from("here is code"))))
    );
    assert_eq!(
        parse_markdown_inline("[title](https://www.example.com)"),
        Ok((
            "",
            (MarkdownInline::Link(
                String::from("title"),
                String::from("https://www.example.com")
            ))
        ))
    );
    assert_eq!(
        parse_markdown_inline("![alt text](image.jpg)"),
        Ok((
            "",
            (MarkdownInline::Image(String::from("alt text"), String::from("image.jpg")))
        ))
    );
    assert_eq!(
        parse_markdown_inline("here is plaintext!"),
        Ok((
            "",
            MarkdownInline::Plaintext(String::from("here is plaintext!"))
        ))
    );
    assert_eq!(
        parse_markdown_inline("here is some plaintext *but what if we italicize?"),
        Ok((
            "*but what if we italicize?",
            MarkdownInline::Plaintext(String::from("here is some plaintext "))
        ))
    );
    assert_eq!(
        parse_markdown_inline("here is some plaintext \n*but what if we italicize?"),
        Ok((
            "\n*but what if we italicize?",
            MarkdownInline::Plaintext(String::from("here is some plaintext "))
        ))
    );
    assert_eq!(parse_markdown_inline("\n"), err("\n", ErrorKind::Tag));
    assert_eq!(parse_markdown_inline(""), err("", ErrorKind::Tag));
}

#[test]
fn test_parse_markdown_text() {
    assert_eq!(parse_markdown_text("\n"), Ok(("", vec![])));
    assert_eq!(
        parse_markdown_text("here is some plaintext\n"),
        Ok((
            "",
            vec![MarkdownInline::Plaintext(String::from(
                "here is some plaintext"
            ))]
        ))
    );
    assert_eq!(
        parse_markdown_text("here is some plaintext *but what if we italicize?*\n"),
        Ok((
            "",
            vec![
                MarkdownInline::Plaintext(String::from("here is some plaintext ")),
                MarkdownInline::Italic(String::from("but what if we italicize?")),
            ]
        ))
    );
    assert_eq!(
        parse_markdown_text("here is some plaintext *but what if we italicize?* I guess it doesnt **matter** in my `code`\n"),
        Ok(("", vec![
            MarkdownInline::Plaintext(String::from("here is some plaintext ")),
            MarkdownInline::Italic(String::from("but what if we italicize?")),
            MarkdownInline::Plaintext(String::from(" I guess it doesnt ")),
            MarkdownInline::Bold(String::from("matter")),
            MarkdownInline::Plaintext(String::from(" in my ")),
            MarkdownInline::InlineCode(String::from("code")),
        ]))
    );
    assert_eq!(
        parse_markdown_text("here is some plaintext *but what if we italicize?*\n"),
        Ok((
            "",
            vec![
                MarkdownInline::Plaintext(String::from("here is some plaintext ")),
                MarkdownInline::Italic(String::from("but what if we italicize?")),
            ]
        ))
    );
    assert_eq!(
        parse_markdown_text("here is some plaintext *but what if we italicize?"),
        err("*but what if we italicize?", ErrorKind::Tag)
    );
}

#[test]
fn test_parse_header_tag() {
    assert_eq!(parse_header_tag("# "), Ok(("", 1)));
    assert_eq!(parse_header_tag("### "), Ok(("", 3)));
    assert_eq!(parse_header_tag("# h1"), Ok(("h1", 1)));
    assert_eq!(parse_header_tag("# h1"), Ok(("h1", 1)));
    assert_eq!(parse_header_tag(" "), err(" ", ErrorKind::TakeWhile1));
    assert_eq!(parse_header_tag("#"), err("", ErrorKind::Tag));
}

#[test]
fn test_parse_header() {
    assert_eq!(
        parse_header("# h1\n"),
        Ok(("", (1, vec![MarkdownInline::Plaintext(String::from("h1"))])))
    );
    assert_eq!(
        parse_header("## h2\n"),
        Ok(("", (2, vec![MarkdownInline::Plaintext(String::from("h2"))])))
    );
    assert_eq!(
        parse_header("###  h3\n"),
        Ok((
            "",
            (3, vec![MarkdownInline::Plaintext(String::from(" h3"))])
        ))
    );
    assert_eq!(parse_header("###h3"), err("h3", ErrorKind::Tag));
    assert_eq!(parse_header("###"), err("", ErrorKind::Tag));
    assert_eq!(parse_header(""), err("", ErrorKind::TakeWhile1));
    assert_eq!(parse_header("#"), err("", ErrorKind::Tag));
    assert_eq!(parse_header("# \n"), Ok(("", (1, vec![]))));
    assert_eq!(parse_header("# test"), err("", ErrorKind::Tag));
}

#[test]
fn test_parse_unordered_list_tag() {
    assert_eq!(parse_unordered_list_tag("- "), Ok(("", s("-"))));
    assert_eq!(
        parse_unordered_list_tag("- and some more"),
        Ok(("and some more", s("-")))
    );
    assert_eq!(parse_unordered_list_tag("-"), err("", ErrorKind::Tag));
    assert_eq!(
        parse_unordered_list_tag("-and some more"),
        err("and some more", ErrorKind::Tag)
    );
    assert_eq!(parse_unordered_list_tag("--"), err("-", ErrorKind::Tag));
    assert_eq!(parse_unordered_list_tag(""), err("", ErrorKind::Tag));
}

#[test]
fn test_parse_unordered_list_element() {
    assert_eq!(
        parse_unordered_list_element("- this is an element\n"),
        Ok((
            "",
            vec![MarkdownInline::Plaintext(String::from(
                "this is an element"
            ))]
        ))
    );
    assert_eq!(
        parse_unordered_list_element("- this is an element\n- this is another element\n"),
        Ok((
            "- this is another element\n",
            vec![MarkdownInline::Plaintext(String::from(
                "this is an element"
            ))]
        ))
    );
    assert_eq!(parse_unordered_list_element(""), err("", ErrorKind::Tag));
    assert_eq!(parse_unordered_list_element("- \n"), Ok(("", vec![])));
    assert_eq!(parse_unordered_list_element("- "), err("", ErrorKind::Tag));
    assert_eq!(
        parse_unordered_list_element("- test"),
        err("", ErrorKind::Tag)
    );
    assert_eq!(parse_unordered_list_element("-"), err("", ErrorKind::Tag));
}

#[test]
fn test_parse_unordered_list() {
    assert_eq!(
        parse_unordered_list("- this is an element"),
        err("", ErrorKind::Tag)
    );
    assert_eq!(
        parse_unordered_list("- this is an element\n"),
        Ok((
            "",
            vec![vec![MarkdownInline::Plaintext(String::from(
                "this is an element"
            ))]]
        ))
    );
    assert_eq!(
        parse_unordered_list("- this is an element\n- here is another\n"),
        Ok((
            "",
            vec![
                vec![MarkdownInline::Plaintext(String::from(
                    "this is an element"
                ))],
                vec![MarkdownInline::Plaintext(String::from("here is another"))]
            ]
        ))
    );
}

#[test]
fn test_parse_ordered_list_tag() {
    assert_eq!(parse_ordered_list_tag("1. "), Ok(("", s("1"))));
    assert_eq!(parse_ordered_list_tag("1234567. "), Ok(("", s("1234567"))));
    assert_eq!(
        parse_ordered_list_tag("3. and some more"),
        Ok(("and some more", s("3")))
    );
    assert_eq!(parse_ordered_list_tag("1"), err("", ErrorKind::Tag));
    assert_eq!(
        parse_ordered_list_tag("1.and some more"),
        err("and some more", ErrorKind::Tag)
    );
    assert_eq!(parse_ordered_list_tag("1111."), err("", ErrorKind::Tag));
    assert_eq!(parse_ordered_list_tag(""), err("", ErrorKind::TakeWhile1));
}

#[test]
fn test_parse_ordered_list_element() {
    assert_eq!(
        parse_ordered_list_element("1. this is an element\n"),
        Ok((
            "",
            vec![MarkdownInline::Plaintext(String::from(
                "this is an element"
            ))]
        ))
    );
    assert_eq!(
        parse_ordered_list_element("1. this is an element\n1. here is another\n"),
        Ok((
            "1. here is another\n",
            vec![MarkdownInline::Plaintext(String::from(
                "this is an element"
            ))]
        ))
    );
    assert_eq!(
        parse_ordered_list_element(""),
        err("", ErrorKind::TakeWhile1)
    );
    assert_eq!(
        parse_ordered_list_element(""),
        err("", ErrorKind::TakeWhile1)
    );
    assert_eq!(parse_ordered_list_element("1. \n"), Ok(("", vec![])));
    assert_eq!(
        parse_ordered_list_element("1. test"),
        err("", ErrorKind::Tag)
    );
    assert_eq!(parse_ordered_list_element("1. "), err("", ErrorKind::Tag));
    assert_eq!(parse_ordered_list_element("1."), err("", ErrorKind::Tag));
}

#[test]
fn test_parse_ordered_list() {
    assert_eq!(
        parse_ordered_list("1. this is an element\n"),
        Ok((
            "",
            vec![vec![MarkdownInline::Plaintext(String::from(
                "this is an element"
            ))]]
        ))
    );
    assert_eq!(parse_ordered_list("1. test"), err("", ErrorKind::Tag));
    assert_eq!(
        parse_ordered_list("1. this is an element\n2. here is another\n"),
        Ok((
            "",
            vec![
                vec!(MarkdownInline::Plaintext(String::from(
                    "this is an element"
                ))),
                vec![MarkdownInline::Plaintext(String::from("here is another"))]
            ]
        ))
    );
}

#[test]
fn test_parse_codeblock() {
    assert_eq!(
        parse_code_block("```bash\npip install foobar\n```"),
        Ok(("", (s("bash"), s("pip install foobar\n"))))
    );
    assert_eq!(
        parse_code_block("```\nimport foobar\n\n```"),
        Ok(("", (s(""), s("import foobar\n\n"))))
    );
    assert_eq!(
        parse_code_block("```python\nimport foobar\n\n```"),
        Ok(("", (s("python"), s("import foobar\n\n"))))
    );
    assert_eq!(
        parse_code_block("```\npip `install` foobar\n```"),
        Ok(("", (s(""), s("pip `install` foobar\n"))))
    );
}

#[test]
fn test_parse_markdown() {
    assert_eq!(
        parse_markdown("# Foobar\n\nFoobar is a Python library for dealing with word pluralization.\n\n```bash\n pip install foobar\n```\n## Installation\n\nUse the package manager [pip](https://pip.pypa.io/en/stable/) to install foobar.\n```python\nimport foobar\n\nfoobar.pluralize('word') # returns 'words'\nfoobar.pluralize('goose') # returns 'geese'\nfoobar.singularize('phenomena') # returns 'phenomenon'\n```"),
        Ok(("", vec![
            Markdown::Heading(1, vec![MarkdownInline::Plaintext(String::from("Foobar"))]),
            Markdown::Line(vec![]),
            Markdown::Line(vec![MarkdownInline::Plaintext(String::from("Foobar is a Python library for dealing with word pluralization."))]),
            Markdown::Line(vec![]),
            Markdown::Codeblock(String::from("bash"), String::from(" pip install foobar\n")),
            Markdown::Line(vec![]),
            Markdown::Heading(2, vec![MarkdownInline::Plaintext(String::from("Installation"))]),
            Markdown::Line(vec![]),
            Markdown::Line(vec![
                MarkdownInline::Plaintext(String::from("Use the package manager ")),
                MarkdownInline::Link(String::from("pip"), String::from("https://pip.pypa.io/en/stable/")),
                MarkdownInline::Plaintext(String::from(" to install foobar.")),
            ]),
            Markdown::Codeblock(String::from("python"), String::from("import foobar\n\nfoobar.pluralize('word') # returns 'words'\nfoobar.pluralize('goose') # returns 'geese'\nfoobar.singularize('phenomena') # returns 'phenomenon'\n")),
        ]))
    )
}
