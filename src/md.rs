//! Markdown documents: parsing with `pulldown_cmark` and rendering for the
//! terminal.

use vstd::prelude::*;
use pulldown_cmark::{Event, Options, Parser, Tag};
use crate::event::{EventV, MdEvent, MdTag, events_view};
use crate::render::{MD, rendered};

verus! {

#[verifier::external_type_specification]
#[verifier::external_body]
pub struct ExEvent<'a>(Event<'a>);

#[verifier::external_type_specification]
#[verifier::external_body]
pub struct ExTag<'a>(Tag<'a>);

#[verifier::external_type_specification]
#[verifier::external_body]
pub struct ExIoError(std::io::Error);

/// The events that `pulldown_cmark` yields for document `s`, with
/// strikethrough and task lists enabled, each in the library's event model.
pub uninterp spec fn parsed_events(s: Seq<char>) -> Seq<EventV>;

/// Relies on `pulldown_cmark::Parser::new_ext`: the events of `input`, a
/// function of the text and the options alone.
#[verifier::external_body]
pub(crate) fn parse_events(input: &str) -> (r: Vec<MdEvent>)
    ensures
        events_view(r@) == parsed_events(input@),
{
    let mut options = Options::empty();
    options.insert(Options::ENABLE_STRIKETHROUGH);
    options.insert(Options::ENABLE_TASKLISTS);
    Parser::new_ext(input, options).map(event_from).collect()
}

/// Moves the fields of a `pulldown_cmark` event into the library's model.
#[verifier::external_body]
fn event_from(e: Event) -> MdEvent {
    match e {
        Event::Start(t) => MdEvent::Start(tag_from(t)),
        Event::End(t) => MdEvent::End(tag_from(t)),
        Event::Text(s) => MdEvent::Text(s.into_string()),
        Event::Code(s) => MdEvent::Code(s.into_string()),
        Event::Html(s) => MdEvent::Html(s.into_string()),
        Event::FootnoteReference(s) => MdEvent::FootnoteRef(s.into_string()),
        Event::SoftBreak => MdEvent::SoftBreak,
        Event::HardBreak => MdEvent::HardBreak,
        Event::Rule => MdEvent::Rule,
        Event::TaskListMarker(done) => MdEvent::TaskMarker(done),
    }
}

/// Moves the fields of a `pulldown_cmark` tag into the library's model.
#[verifier::external_body]
fn tag_from(t: Tag) -> MdTag {
    match t {
        Tag::Heading(level) => MdTag::Heading(level),
        Tag::Item => MdTag::Item,
        Tag::List(first) => MdTag::List(first),
        Tag::Paragraph => MdTag::Paragraph,
        Tag::Link(_, dest, _) => MdTag::Link(dest.into_string()),
        Tag::BlockQuote => MdTag::BlockQuote,
        Tag::CodeBlock(_) => MdTag::CodeBlock,
        Tag::Strong => MdTag::Strong,
        Tag::Emphasis => MdTag::Emphasis,
        Tag::Strikethrough => MdTag::Strikethrough,
        _ => MdTag::Other,
    }
}

/// What rendering document `s` produces.
pub open spec fn rendered_doc(s: Seq<char>) -> Seq<char> {
    rendered(parsed_events(s))
}

/// Renders the markdown document `input` for the terminal and appends the
/// result to `output`. Rendering cannot fail.
pub fn print_anscii_md(input: &String, output: &mut String) -> (r: std::io::Result<()>)
    ensures
        r is Ok,
        final(output)@ == old(output)@ + rendered_doc(input@),
{
    let events = parse_events(input.as_str());
    let mut md = MD::new();
    md.write(&events);
    output.append(md.output().as_str());
    Ok(())
}

} // verus!
