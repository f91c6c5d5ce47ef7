//! The structural event model the transpiler consumes: an ordered sequence of
//! scope-start/scope-end markers and leaf events, as an extended-Markdown
//! parser produces them. The spec-level mirror types carry character
//! sequences in place of strings.

use vstd::prelude::*;

verus! {

/// The kind of a link or image.
#[derive(Debug, Clone, Copy, PartialEq, Eq)]
pub enum LinkType {
    Inline,
    Reference,
    ReferenceUnknown,
    Collapsed,
    CollapsedUnknown,
    Shortcut,
    ShortcutUnknown,
    Autolink,
    Email,
}

/// The alignment hint of a table column. It is recorded but has no effect on
/// rendering.
#[derive(Debug, Clone, Copy, PartialEq, Eq)]
pub enum Alignment {
    Unspecified,
    Left,
    Center,
    Right,
}

/// A structural scope marker: what kind of block or span starts or ends.
#[derive(Debug, PartialEq)]
pub enum Tag {
    Paragraph,
    Rule,
    /// A heading with its level.
    Header(i32),
    BlockQuote,
    /// A fenced code block with its info string.
    CodeBlock(String),
    /// A list; for an ordered list, the number of the first item.
    List(Option<usize>),
    Item,
    FootnoteDefinition(String),
    HtmlBlock,
    Table(Vec<Alignment>),
    TableHead,
    TableRow,
    TableCell,
    Emphasis,
    Strong,
    Strikethrough,
    Link(LinkType, String, String),
    Image(LinkType, String, String),
}

/// One event of the input sequence.
#[derive(Debug, PartialEq)]
pub enum Event {
    Start(Tag),
    End(Tag),
    Text(String),
    Code(String),
    Html(String),
    InlineHtml(String),
    FootnoteReference(String),
    SoftBreak,
    HardBreak,
    TaskListMarker(bool),
}

/// Spec-level mirror of `Tag`.
#[verifier::ext_equal]
pub enum TagS {
    Paragraph,
    Rule,
    Header(i32),
    BlockQuote,
    CodeBlock(Seq<char>),
    List(Option<usize>),
    Item,
    FootnoteDefinition(Seq<char>),
    HtmlBlock,
    Table(Seq<Alignment>),
    TableHead,
    TableRow,
    TableCell,
    Emphasis,
    Strong,
    Strikethrough,
    Link(LinkType, Seq<char>, Seq<char>),
    Image(LinkType, Seq<char>, Seq<char>),
}

/// Spec-level mirror of `Event`.
#[verifier::ext_equal]
pub enum EventS {
    Start(TagS),
    End(TagS),
    Text(Seq<char>),
    Code(Seq<char>),
    Html(Seq<char>),
    InlineHtml(Seq<char>),
    FootnoteReference(Seq<char>),
    SoftBreak,
    HardBreak,
    TaskListMarker(bool),
}

impl View for Tag {
    type V = TagS;

    open spec fn view(&self) -> TagS {
        match self {
            Tag::Paragraph => TagS::Paragraph,
            Tag::Rule => TagS::Rule,
            Tag::Header(level) => TagS::Header(*level),
            Tag::BlockQuote => TagS::BlockQuote,
            Tag::CodeBlock(info) => TagS::CodeBlock(info@),
            Tag::List(start) => TagS::List(*start),
            Tag::Item => TagS::Item,
            Tag::FootnoteDefinition(name) => TagS::FootnoteDefinition(name@),
            Tag::HtmlBlock => TagS::HtmlBlock,
            Tag::Table(aligns) => TagS::Table(aligns@),
            Tag::TableHead => TagS::TableHead,
            Tag::TableRow => TagS::TableRow,
            Tag::TableCell => TagS::TableCell,
            Tag::Emphasis => TagS::Emphasis,
            Tag::Strong => TagS::Strong,
            Tag::Strikethrough => TagS::Strikethrough,
            Tag::Link(kind, dest, title) => TagS::Link(*kind, dest@, title@),
            Tag::Image(kind, dest, title) => TagS::Image(*kind, dest@, title@),
        }
    }
}

impl DeepView for Tag {
    type V = TagS;

    open spec fn deep_view(&self) -> TagS {
        self.view()
    }
}

impl View for Event {
    type V = EventS;

    open spec fn view(&self) -> EventS {
        match self {
            Event::Start(tag) => EventS::Start(tag@),
            Event::End(tag) => EventS::End(tag@),
            Event::Text(text) => EventS::Text(text@),
            Event::Code(text) => EventS::Code(text@),
            Event::Html(html) => EventS::Html(html@),
            Event::InlineHtml(html) => EventS::InlineHtml(html@),
            Event::FootnoteReference(name) => EventS::FootnoteReference(name@),
            Event::SoftBreak => EventS::SoftBreak,
            Event::HardBreak => EventS::HardBreak,
            Event::TaskListMarker(checked) => EventS::TaskListMarker(*checked),
        }
    }
}

impl DeepView for Event {
    type V = EventS;

    open spec fn deep_view(&self) -> EventS {
        self.view()
    }
}

} // verus!
