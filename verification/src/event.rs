//! The event stream of a parsed Markdown document.
//!
//! A document is an ordered sequence of [`Event`]s. The passes read and rewrite
//! this sequence; every text an event carries is an owned `String`, so a stream
//! can be built, inspected and compared without reference to the parser that
//! produced it.

use vstd::prelude::*;

verus! {

/// The level of a heading, `H1` being the document title.
#[derive(Clone, Copy, Debug, PartialEq, Eq, Structural)]
pub enum HeadingLevel {
    H1,
    H2,
    H3,
    H4,
    H5,
    H6,
}

impl HeadingLevel {
    /// The level as a number from 1 to 6.
    pub open spec fn spec_number(self) -> nat {
        match self {
            HeadingLevel::H1 => 1,
            HeadingLevel::H2 => 2,
            HeadingLevel::H3 => 3,
            HeadingLevel::H4 => 4,
            HeadingLevel::H5 => 5,
            HeadingLevel::H6 => 6,
        }
    }

    /// The level as a number from 1 to 6.
    pub fn number(self) -> (n: usize)
        ensures
            n == self.spec_number(),
            1 <= n <= 6,
    {
        match self {
            HeadingLevel::H1 => 1,
            HeadingLevel::H2 => 2,
            HeadingLevel::H3 => 3,
            HeadingLevel::H4 => 4,
            HeadingLevel::H5 => 5,
            HeadingLevel::H6 => 6,
        }
    }
}

/// The flavour of an admonition block quote.
#[derive(Clone, Copy, Debug, PartialEq, Eq, Structural)]
pub enum BlockQuoteKind {
    Note,
    Tip,
    Important,
    Warning,
    Caution,
}

/// The delimiter style of a front-matter block.
#[derive(Clone, Copy, Debug, PartialEq, Eq, Structural)]
pub enum MetadataBlockKind {
    YamlStyle,
    PlusesStyle,
}

/// How a link or an image was written in the source.
#[derive(Clone, Copy, Debug, PartialEq, Eq, Structural)]
pub enum LinkType {
    Inline,
    Reference,
    ReferenceUnknown,
    Collapsed,
    CollapsedUnknown,
    Shortcut,
    ShortcutUnknown,
    Autolink,
    Email,
    WikiLink { has_pothole: bool },
}

/// The alignment of a table column.
#[derive(Clone, Copy, Debug, PartialEq, Eq, Structural)]
pub enum Alignment {
    Unaligned,
    Left,
    Center,
    Right,
}

/// Whether a code block is indented or fenced; a fenced block carries its info
/// string.
#[derive(Clone, Debug, PartialEq, Eq)]
pub enum CodeBlockKind {
    Indented,
    Fenced(String),
}

/// The opening of an element.
#[derive(Clone, Debug, PartialEq, Eq)]
pub enum Tag {
    Paragraph,
    Heading {
        level: HeadingLevel,
        id: Option<String>,
        classes: Vec<String>,
        attrs: Vec<(String, Option<String>)>,
    },
    BlockQuote(Option<BlockQuoteKind>),
    CodeBlock(CodeBlockKind),
    HtmlBlock,
    List(Option<u64>),
    Item,
    FootnoteDefinition(String),
    DefinitionList,
    DefinitionListTitle,
    DefinitionListDefinition,
    Table(Vec<Alignment>),
    TableHead,
    TableRow,
    TableCell,
    Emphasis,
    Strong,
    Strikethrough,
    Superscript,
    Subscript,
    Link { link_type: LinkType, dest_url: String, title: String, id: String },
    Image { link_type: LinkType, dest_url: String, title: String, id: String },
    MetadataBlock(MetadataBlockKind),
}

/// The closing of an element.
#[derive(Clone, Copy, Debug, PartialEq, Eq, Structural)]
pub enum TagEnd {
    Paragraph,
    Heading(HeadingLevel),
    BlockQuote(Option<BlockQuoteKind>),
    CodeBlock,
    HtmlBlock,
    List(bool),
    Item,
    FootnoteDefinition,
    DefinitionList,
    DefinitionListTitle,
    DefinitionListDefinition,
    Table,
    TableHead,
    TableRow,
    TableCell,
    Emphasis,
    Strong,
    Strikethrough,
    Superscript,
    Subscript,
    Link,
    Image,
    MetadataBlock(MetadataBlockKind),
}

/// One node of a document's event stream.
#[derive(Clone, Debug, PartialEq, Eq)]
pub enum Event {
    Start(Tag),
    End(TagEnd),
    Text(String),
    Code(String),
    InlineMath(String),
    DisplayMath(String),
    Html(String),
    InlineHtml(String),
    FootnoteReference(String),
    SoftBreak,
    HardBreak,
    Rule,
    TaskListMarker(bool),
}

/// The mathematical value of a [`CodeBlockKind`].
pub enum CodeBlockKindView {
    Indented,
    Fenced(Seq<char>),
}

/// The mathematical value of a [`Tag`].
pub enum TagView {
    Paragraph,
    Heading {
        level: HeadingLevel,
        id: Option<Seq<char>>,
        classes: Seq<Seq<char>>,
        attrs: Seq<(Seq<char>, Option<Seq<char>>)>,
    },
    BlockQuote(Option<BlockQuoteKind>),
    CodeBlock(CodeBlockKindView),
    HtmlBlock,
    List(Option<u64>),
    Item,
    FootnoteDefinition(Seq<char>),
    DefinitionList,
    DefinitionListTitle,
    DefinitionListDefinition,
    Table(Seq<Alignment>),
    TableHead,
    TableRow,
    TableCell,
    Emphasis,
    Strong,
    Strikethrough,
    Superscript,
    Subscript,
    Link { link_type: LinkType, dest_url: Seq<char>, title: Seq<char>, id: Seq<char> },
    Image { link_type: LinkType, dest_url: Seq<char>, title: Seq<char>, id: Seq<char> },
    MetadataBlock(MetadataBlockKind),
}

/// The mathematical value of an [`Event`].
pub enum EventView {
    Start(TagView),
    End(TagEnd),
    Text(Seq<char>),
    Code(Seq<char>),
    InlineMath(Seq<char>),
    DisplayMath(Seq<char>),
    Html(Seq<char>),
    InlineHtml(Seq<char>),
    FootnoteReference(Seq<char>),
    SoftBreak,
    HardBreak,
    Rule,
    TaskListMarker(bool),
}

impl View for CodeBlockKind {
    type V = CodeBlockKindView;

    open spec fn view(&self) -> CodeBlockKindView {
        match self {
            CodeBlockKind::Indented => CodeBlockKindView::Indented,
            CodeBlockKind::Fenced(info) => CodeBlockKindView::Fenced(info@),
        }
    }
}

impl View for Tag {
    type V = TagView;

    open spec fn view(&self) -> TagView {
        match self {
            Tag::Paragraph => TagView::Paragraph,
            Tag::Heading { level, id, classes, attrs } => TagView::Heading {
                level: *level,
                id: id.deep_view(),
                classes: classes.deep_view(),
                attrs: attrs.deep_view(),
            },
            Tag::BlockQuote(kind) => TagView::BlockQuote(*kind),
            Tag::CodeBlock(kind) => TagView::CodeBlock(kind@),
            Tag::HtmlBlock => TagView::HtmlBlock,
            Tag::List(start) => TagView::List(*start),
            Tag::Item => TagView::Item,
            Tag::FootnoteDefinition(label) => TagView::FootnoteDefinition(label@),
            Tag::DefinitionList => TagView::DefinitionList,
            Tag::DefinitionListTitle => TagView::DefinitionListTitle,
            Tag::DefinitionListDefinition => TagView::DefinitionListDefinition,
            Tag::Table(alignments) => TagView::Table(alignments@),
            Tag::TableHead => TagView::TableHead,
            Tag::TableRow => TagView::TableRow,
            Tag::TableCell => TagView::TableCell,
            Tag::Emphasis => TagView::Emphasis,
            Tag::Strong => TagView::Strong,
            Tag::Strikethrough => TagView::Strikethrough,
            Tag::Superscript => TagView::Superscript,
            Tag::Subscript => TagView::Subscript,
            Tag::Link { link_type, dest_url, title, id } => TagView::Link {
                link_type: *link_type,
                dest_url: dest_url@,
                title: title@,
                id: id@,
            },
            Tag::Image { link_type, dest_url, title, id } => TagView::Image {
                link_type: *link_type,
                dest_url: dest_url@,
                title: title@,
                id: id@,
            },
            Tag::MetadataBlock(kind) => TagView::MetadataBlock(*kind),
        }
    }
}

impl View for Event {
    type V = EventView;

    open spec fn view(&self) -> EventView {
        match self {
            Event::Start(tag) => EventView::Start(tag@),
            Event::End(tag) => EventView::End(*tag),
            Event::Text(text) => EventView::Text(text@),
            Event::Code(text) => EventView::Code(text@),
            Event::InlineMath(text) => EventView::InlineMath(text@),
            Event::DisplayMath(text) => EventView::DisplayMath(text@),
            Event::Html(text) => EventView::Html(text@),
            Event::InlineHtml(text) => EventView::InlineHtml(text@),
            Event::FootnoteReference(text) => EventView::FootnoteReference(text@),
            Event::SoftBreak => EventView::SoftBreak,
            Event::HardBreak => EventView::HardBreak,
            Event::Rule => EventView::Rule,
            Event::TaskListMarker(checked) => EventView::TaskListMarker(*checked),
        }
    }
}

impl DeepView for Event {
    type V = EventView;

    open spec fn deep_view(&self) -> EventView {
        self@
    }
}

} // verus!
