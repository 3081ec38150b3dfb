use vstd::prelude::*;

verus! {

/// The content of one line: inline elements in source order.
pub type MarkdownText = Vec<MarkdownInline>;

/// A block of the document; each one covers one or more whole lines.
#[derive(Clone, Debug, PartialEq)]
pub enum Markdown {
    HorizontalRule,
    Heading(usize, MarkdownText),
    OrderedList(Vec<MarkdownText>),
    UnorderedList(Vec<MarkdownText>),
    Line(MarkdownText),
    Codeblock(String, String),
}

/// An element inside a line.
#[derive(Clone, Debug, PartialEq)]
pub enum MarkdownInline {
    Link(String, String),
    Image(String, String),
    InlineCode(String),
    Bold(String),
    Italic(String),
    Strike(String),
    Plaintext(String),
}

/// Mathematical value of an inline element: its strings as character sequences.
pub enum InlineModel {
    Link(Seq<char>, Seq<char>),
    Image(Seq<char>, Seq<char>),
    InlineCode(Seq<char>),
    Bold(Seq<char>),
    Italic(Seq<char>),
    Strike(Seq<char>),
    Plaintext(Seq<char>),
}

/// Mathematical value of a block.
pub enum BlockModel {
    HorizontalRule,
    Heading(nat, Seq<InlineModel>),
    OrderedList(Seq<Seq<InlineModel>>),
    UnorderedList(Seq<Seq<InlineModel>>),
    Line(Seq<InlineModel>),
    Codeblock(Seq<char>, Seq<char>),
}

impl DeepView for MarkdownInline {
    type V = InlineModel;

    open spec fn deep_view(&self) -> InlineModel {
        match self {
            MarkdownInline::Link(l, u) => InlineModel::Link(l@, u@),
            MarkdownInline::Image(a, u) => InlineModel::Image(a@, u@),
            MarkdownInline::InlineCode(c) => InlineModel::InlineCode(c@),
            MarkdownInline::Bold(t) => InlineModel::Bold(t@),
            MarkdownInline::Italic(t) => InlineModel::Italic(t@),
            MarkdownInline::Strike(t) => InlineModel::Strike(t@),
            MarkdownInline::Plaintext(t) => InlineModel::Plaintext(t@),
        }
    }
}

impl DeepView for Markdown {
    type V = BlockModel;

    open spec fn deep_view(&self) -> BlockModel {
        match self {
            Markdown::HorizontalRule => BlockModel::HorizontalRule,
            Markdown::Heading(n, t) => BlockModel::Heading(*n as nat, t.deep_view()),
            Markdown::OrderedList(items) => BlockModel::OrderedList(items.deep_view()),
            Markdown::UnorderedList(items) => BlockModel::UnorderedList(items.deep_view()),
            Markdown::Line(t) => BlockModel::Line(t.deep_view()),
            Markdown::Codeblock(lang, body) => BlockModel::Codeblock(lang@, body@),
        }
    }
}

/// Why a parse stopped: the grammar step that could not match.
#[derive(Clone, Copy, Debug, PartialEq, Eq, Structural)]
pub enum ErrorKind {
    /// A fixed marker was expected.
    Tag,
    /// A span delimiter was followed directly by its closer or by the end of line.
    IsNot,
    /// A run of at least one marker character was expected.
    TakeWhile1,
    /// A line terminator was expected.
    CrLf,
    /// No closing code fence follows.
    TakeUntil,
}

/// A failed parse: the input that was left where it stopped, and why.
#[derive(Clone, Copy, Debug, PartialEq, Eq)]
pub struct ParseError<'a> {
    pub input: &'a str,
    pub kind: ErrorKind,
}

} // verus!
