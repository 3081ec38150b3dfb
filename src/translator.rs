//! Rendering of parsed blocks as HTML. Text is copied as it is, without escaping.
use vstd::prelude::*;

use crate::chars::push_char;
use crate::entity::{BlockModel, InlineModel, Markdown, MarkdownInline, MarkdownText};

verus! {

/// The decimal digit for `d < 10`.
pub open spec fn digit_char(d: nat) -> char {
    ((d + 48) as u8) as char
}

/// The decimal notation of `n`, without leading zeros.
pub open spec fn decimal(n: nat) -> Seq<char>
    decreases n,
{
    if n < 10 {
        seq![digit_char(n)]
    } else {
        decimal(n / 10).push(digit_char(n % 10))
    }
}

/// The markup of one inline element.
pub open spec fn render_inline(m: InlineModel) -> Seq<char> {
    match m {
        InlineModel::Link(label, target) => "<a href=\""@ + target + "\">"@ + label + "</a>"@,
        InlineModel::Image(alt, target) => "<img src=\""@ + target + "\" alt=\""@ + alt
            + "\"/>"@,
        InlineModel::InlineCode(c) => "<code>"@ + c + "</code>"@,
        InlineModel::Bold(t) => "<strong>"@ + t + "</strong>"@,
        InlineModel::Italic(t) => "<em>"@ + t + "</em>"@,
        InlineModel::Strike(t) => "<del>"@ + t + "</del>"@,
        InlineModel::Plaintext(t) => t,
    }
}

/// The markup of a line's content: its elements' markup, concatenated.
pub open spec fn render_text(t: Seq<InlineModel>) -> Seq<char>
    decreases t.len(),
{
    if t.len() == 0 {
        seq![]
    } else {
        render_text(t.drop_last()) + render_inline(t.last())
    }
}

/// The `<li>` elements of a list's items.
pub open spec fn render_items(items: Seq<Seq<InlineModel>>) -> Seq<char>
    decreases items.len(),
{
    if items.len() == 0 {
        seq![]
    } else {
        render_items(items.drop_last()) + "<li>"@ + render_text(items.last()) + "</li>"@
    }
}

/// The markup of one block.
pub open spec fn render_block(b: BlockModel) -> Seq<char> {
    match b {
        BlockModel::HorizontalRule => "<hr/>"@,
        BlockModel::Heading(n, t) => "<h"@ + decimal(n) + ">"@ + render_text(t) + "</h"@
            + decimal(n) + ">"@,
        BlockModel::UnorderedList(items) => "<ul>"@ + render_items(items) + "</ul>"@,
        BlockModel::OrderedList(items) => "<ol>"@ + render_items(items) + "</ol>"@,
        BlockModel::Line(t) => render_text(t),
        BlockModel::Codeblock(lang, body) => if lang.len() == 0 {
            "<pre><code>"@ + body + "</code></pre>"@
        } else {
            "<pre><code class=\"language-"@ + lang + "\">"@ + body + "</code></pre>"@
        },
    }
}

/// The markup of a document: its blocks' markup, concatenated.
pub open spec fn render(bs: Seq<BlockModel>) -> Seq<char>
    decreases bs.len(),
{
    if bs.len() == 0 {
        seq![]
    } else {
        render(bs.drop_last()) + render_block(bs.last())
    }
}

fn push_decimal(out: &mut String, n: usize)
    ensures
        final(out)@ == old(out)@ + decimal(n as nat),
    decreases n,
{
    if n >= 10 {
        push_decimal(out, n / 10);
    }
    let d = n % 10;
    push_char(out, ((d as u8) + 48) as char);
    assert(final(out)@ =~= old(out)@ + decimal(n as nat));
}

fn push_inline(out: &mut String, m: &MarkdownInline)
    ensures
        final(out)@ == old(out)@ + render_inline(m.deep_view()),
{
    let ghost start = out@;
    match m {
        MarkdownInline::Link(label, target) => {
            out.append("<a href=\"");
            out.append(target.as_str());
            out.append("\">");
            out.append(label.as_str());
            out.append("</a>");
        },
        MarkdownInline::Image(alt, target) => {
            out.append("<img src=\"");
            out.append(target.as_str());
            out.append("\" alt=\"");
            out.append(alt.as_str());
            out.append("\"/>");
        },
        MarkdownInline::InlineCode(c) => {
            out.append("<code>");
            out.append(c.as_str());
            out.append("</code>");
        },
        MarkdownInline::Bold(t) => {
            out.append("<strong>");
            out.append(t.as_str());
            out.append("</strong>");
        },
        MarkdownInline::Italic(t) => {
            out.append("<em>");
            out.append(t.as_str());
            out.append("</em>");
        },
        MarkdownInline::Strike(t) => {
            out.append("<del>");
            out.append(t.as_str());
            out.append("</del>");
        },
        MarkdownInline::Plaintext(t) => {
            out.append(t.as_str());
        },
    }
    assert(out@ =~= start + render_inline(m.deep_view()));
}

fn push_text(out: &mut String, t: &MarkdownText)
    ensures
        final(out)@ == old(out)@ + render_text(t.deep_view()),
{
    let ghost start = out@;
    let ghost tv = t.deep_view();
    let mut i: usize = 0;
    while i < t.len()
        invariant
            i <= t@.len(),
            tv == t.deep_view(),
            tv.len() == t@.len(),
            out@ == start + render_text(tv.subrange(0, i as int)),
        decreases t@.len() - i,
    {
        push_inline(out, &t[i]);
        assert(tv.subrange(0, i + 1).drop_last() =~= tv.subrange(0, i as int));
        i += 1;
    }
    assert(tv.subrange(0, i as int) =~= tv);
}

fn push_items(out: &mut String, items: &Vec<MarkdownText>)
    ensures
        final(out)@ == old(out)@ + render_items(items.deep_view()),
{
    let ghost start = out@;
    let ghost iv = items.deep_view();
    let mut i: usize = 0;
    while i < items.len()
        invariant
            i <= items@.len(),
            iv == items.deep_view(),
            iv.len() == items@.len(),
            out@ == start + render_items(iv.subrange(0, i as int)),
        decreases items@.len() - i,
    {
        out.append("<li>");
        push_text(out, &items[i]);
        out.append("</li>");
        assert(iv.subrange(0, i + 1).drop_last() =~= iv.subrange(0, i as int));
        i += 1;
    }
    assert(iv.subrange(0, i as int) =~= iv);
}

fn push_block(out: &mut String, b: &Markdown)
    ensures
        final(out)@ == old(out)@ + render_block(b.deep_view()),
{
    let ghost start = out@;
    match b {
        Markdown::HorizontalRule => {
            out.append("<hr/>");
        },
        Markdown::Heading(n, t) => {
            out.append("<h");
            push_decimal(out, *n);
            out.append(">");
            push_text(out, t);
            out.append("</h");
            push_decimal(out, *n);
            out.append(">");
        },
        Markdown::UnorderedList(items) => {
            out.append("<ul>");
            push_items(out, items);
            out.append("</ul>");
        },
        Markdown::OrderedList(items) => {
            out.append("<ol>");
            push_items(out, items);
            out.append("</ol>");
        },
        Markdown::Line(t) => {
            push_text(out, t);
        },
        Markdown::Codeblock(lang, body) => {
            if lang.unicode_len() == 0 {
                out.append("<pre><code>");
            } else {
                out.append("<pre><code class=\"language-");
                out.append(lang.as_str());
                out.append("\">");
            }
            out.append(body.as_str());
            out.append("</code></pre>");
        },
    }
    assert(out@ =~= start + render_block(b.deep_view()));
}

/// Renders the blocks of a document as one HTML string.
pub fn translate(md: Vec<Markdown>) -> (r: String)
    ensures
        r@ == render(md.deep_view()),
{
    let ghost bv = md.deep_view();
    let mut out = String::new();
    let mut i: usize = 0;
    while i < md.len()
        invariant
            i <= md@.len(),
            bv == md.deep_view(),
            bv.len() == md@.len(),
            out@ == render(bv.subrange(0, i as int)),
        decreases md@.len() - i,
    {
        push_block(&mut out, &md[i]);
        assert(bv.subrange(0, i + 1).drop_last() =~= bv.subrange(0, i as int));
        i += 1;
    }
    assert(bv.subrange(0, i as int) =~= bv);
    out
}

} // verus!
