//! The markdown events that the renderer consumes, and their spec models.

use vstd::prelude::*;

verus! {

/// The kind of a block or span that a start or end event opens or closes.
#[derive(Clone, Debug, PartialEq, Eq)]
pub enum MdTag {
    /// A heading of the given level (1 to 6).
    Heading(u32),
    Item,
    /// A list; ordered lists carry the number of their first item.
    List(Option<u64>),
    Paragraph,
    /// A link to the given destination.
    Link(String),
    BlockQuote,
    CodeBlock,
    Strong,
    Emphasis,
    Strikethrough,
    /// Any other construct: tables, images, footnote definitions.
    Other,
}

/// One event of a parsed markdown document.
#[derive(Clone, Debug, PartialEq, Eq)]
pub enum MdEvent {
    Start(MdTag),
    End(MdTag),
    Text(String),
    Code(String),
    Html(String),
    FootnoteRef(String),
    SoftBreak,
    HardBreak,
    Rule,
    TaskMarker(bool),
}

/// Spec model of [`MdTag`].
pub enum TagV {
    Heading(u32),
    Item,
    List(Option<u64>),
    Paragraph,
    Link(Seq<char>),
    BlockQuote,
    CodeBlock,
    Strong,
    Emphasis,
    Strikethrough,
    Other,
}

/// Spec model of [`MdEvent`].
pub enum EventV {
    Start(TagV),
    End(TagV),
    Text(Seq<char>),
    Code(Seq<char>),
    Html(Seq<char>),
    FootnoteRef(Seq<char>),
    SoftBreak,
    HardBreak,
    Rule,
    TaskMarker(bool),
}

impl View for MdTag {
    type V = TagV;

    open spec fn view(&self) -> TagV {
        match self {
            MdTag::Heading(n) => TagV::Heading(*n),
            MdTag::Item => TagV::Item,
            MdTag::List(s) => TagV::List(*s),
            MdTag::Paragraph => TagV::Paragraph,
            MdTag::Link(d) => TagV::Link(d@),
            MdTag::BlockQuote => TagV::BlockQuote,
            MdTag::CodeBlock => TagV::CodeBlock,
            MdTag::Strong => TagV::Strong,
            MdTag::Emphasis => TagV::Emphasis,
            MdTag::Strikethrough => TagV::Strikethrough,
            MdTag::Other => TagV::Other,
        }
    }
}

impl View for MdEvent {
    type V = EventV;

    open spec fn view(&self) -> EventV {
        match self {
            MdEvent::Start(t) => EventV::Start(t@),
            MdEvent::End(t) => EventV::End(t@),
            MdEvent::Text(s) => EventV::Text(s@),
            MdEvent::Code(s) => EventV::Code(s@),
            MdEvent::Html(s) => EventV::Html(s@),
            MdEvent::FootnoteRef(s) => EventV::FootnoteRef(s@),
            MdEvent::SoftBreak => EventV::SoftBreak,
            MdEvent::HardBreak => EventV::HardBreak,
            MdEvent::Rule => EventV::Rule,
            MdEvent::TaskMarker(b) => EventV::TaskMarker(*b),
        }
    }
}

/// The models of a sequence of events.
pub open spec fn events_view(v: Seq<MdEvent>) -> Seq<EventV> {
    v.map_values(|e: MdEvent| e@)
}

} // verus!
