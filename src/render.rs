//! The markdown-to-terminal renderer: a single forward pass over markdown
//! events that keeps a style, an indentation, a list and a link context.

use vstd::prelude::*;
use crate::event::{EventV, MdEvent, MdTag, TagV, events_view};
use crate::style::{Colour, TextStyle, paint, painted, plain};

verus! {

/// Glyph written for an item of an unordered list.
pub const BULLET: &'static str = "•";

/// Glyphs written for a thematic break.
pub const RULE: &'static str = "⎼⎼⎼";

/// Marker written for a checked task.
pub const TASK_DONE: &'static str = "[✓] ";

/// Marker written for an open task.
pub const TASK_OPEN: &'static str = "[ ] ";

/// Palette entry of block-quote text.
pub const QUOTE_GRAY: u8 = 244;

/// Palette entry of the background of inline code.
pub const CODE_GRAY: u8 = 239;

/// Indentation added by a list.
pub const LIST_INDENT: usize = 2;

/// Indentation added by a block quote.
pub const QUOTE_INDENT: usize = 3;

/// Indentation added by a code block.
pub const CODE_INDENT: usize = 4;

/// The list that items currently belong to.
#[derive(Clone, Copy, Debug, PartialEq, Eq, Structural)]
pub enum ListKind {
    Unordered,
    /// An ordered list whose next item gets this number.
    Ordered(u64),
}

/// Spec model of a render session.
pub struct RState {
    pub out: Seq<char>,
    pub style: TextStyle,
    pub indent: nat,
    pub list: Option<ListKind>,
    pub link: Option<Seq<char>>,
}

// ---- text emission ----

/// `s` written `n` times.
pub open spec fn repeat(s: Seq<char>, n: nat) -> Seq<char>
    decreases n,
{
    if n == 0 {
        Seq::empty()
    } else {
        repeat(s, (n - 1) as nat) + s
    }
}

pub open spec fn spaces(n: nat) -> Seq<char> {
    repeat(seq![' '], n)
}

/// The pieces of `t` from `i` on, each ending after a line terminator (the
/// last one possibly without), each indented by `pad` and painted in `style`;
/// `start` is where the piece that holds position `i` begins.
pub open spec fn lines_from(pad: nat, style: TextStyle, t: Seq<char>, start: int, i: int) -> Seq<char>
    decreases t.len() - i,
{
    if i >= t.len() {
        if start < t.len() {
            spaces(pad) + painted(style, t.subrange(start, t.len() as int))
        } else {
            Seq::empty()
        }
    } else if t[i] == '\n' {
        spaces(pad) + painted(style, t.subrange(start, i + 1)) + lines_from(pad, style, t, i + 1, i + 1)
    } else {
        lines_from(pad, style, t, start, i + 1)
    }
}

/// What writing `t` in `style` at indentation `pad` produces: without
/// indentation the text is painted whole; with it, line by line.
pub open spec fn emit(pad: nat, style: TextStyle, t: Seq<char>) -> Seq<char> {
    if pad > 0 {
        lines_from(pad, style, t, 0, 0)
    } else {
        painted(style, t)
    }
}

/// The decimal digits of `n`.
pub open spec fn decimal(n: nat) -> Seq<char>
    decreases n,
{
    if n < 10 {
        seq![digit(n)]
    } else {
        decimal(n / 10) + seq![digit(n % 10)]
    }
}

pub open spec fn digit(d: nat) -> char {
    (('0' as nat) + d) as char
}

// ---- styles ----

pub open spec fn heading_style() -> TextStyle {
    TextStyle { fg: Some(Colour::Black), bg: Some(Colour::White), bold: true, ..plain() }
}

pub open spec fn quote_style() -> TextStyle {
    TextStyle { fg: Some(Colour::Fixed(QUOTE_GRAY)), ..plain() }
}

pub open spec fn code_block_style() -> TextStyle {
    TextStyle { fg: Some(Colour::Green), ..plain() }
}

pub open spec fn code_style() -> TextStyle {
    TextStyle { fg: Some(Colour::White), bg: Some(Colour::Fixed(CODE_GRAY)), ..plain() }
}

pub open spec fn link_style() -> TextStyle {
    TextStyle { fg: Some(Colour::Blue), ..plain() }
}

// ---- one event ----

pub open spec fn initial() -> RState {
    RState { out: Seq::empty(), style: plain(), indent: 0, list: None, link: None }
}

/// `s` with `t` written at its indentation in its style.
pub open spec fn emit_text(s: RState, t: Seq<char>) -> RState {
    RState { out: s.out + emit(s.indent, s.style, t), ..s }
}

/// `s` with `n` line terminators written.
pub open spec fn newlines(s: RState, n: nat) -> RState {
    RState { out: s.out + repeat(seq!['\n'], n), ..s }
}

pub open spec fn grow(i: nat, d: usize) -> nat {
    if i + d > usize::MAX { usize::MAX as nat } else { (i + d) as nat }
}

pub open spec fn shrink(i: nat, d: usize) -> nat {
    if i >= d { (i - d) as nat } else { 0 }
}

/// The number after `i`, wrapping at the top of `u64`.
pub open spec fn next_number(i: u64) -> u64 {
    if i == u64::MAX { 0 } else { (i + 1) as u64 }
}

pub open spec fn start_step(s: RState, tag: TagV) -> RState {
    match tag {
        TagV::Heading(n) => RState {
            style: heading_style(),
            ..emit_text(newlines(s, 1), repeat(seq!['#'], n as nat) + seq![' '])
        },
        TagV::Item => match s.list {
            Some(ListKind::Ordered(i)) => RState {
                list: Some(ListKind::Ordered(next_number(i))),
                ..emit_text(s, decimal(i as nat))
            },
            Some(ListKind::Unordered) => emit_text(s, BULLET@),
            None => s,
        },
        TagV::List(first) => newlines(
            RState {
                list: Some(
                    match first {
                        Some(i) => ListKind::Ordered(i),
                        None => ListKind::Unordered,
                    },
                ),
                indent: grow(s.indent, LIST_INDENT),
                ..s
            },
            1,
        ),
        TagV::Link(d) => RState { link: Some(d), ..s },
        TagV::BlockQuote => RState { indent: grow(s.indent, QUOTE_INDENT), style: quote_style(), ..s },
        TagV::CodeBlock => RState { indent: grow(s.indent, CODE_INDENT), style: code_block_style(), ..s },
        TagV::Strong => RState { style: TextStyle { bold: true, ..s.style }, ..s },
        TagV::Emphasis => RState { style: TextStyle { underline: true, ..s.style }, ..s },
        TagV::Strikethrough => RState { style: TextStyle { strikethrough: true, ..s.style }, ..s },
        _ => s,
    }
}

pub open spec fn end_step(s: RState, tag: TagV) -> RState {
    match tag {
        TagV::Heading(_) => newlines(RState { style: plain(), ..s }, 2),
        TagV::Item => newlines(s, 1),
        TagV::List(_) => newlines(RState { list: None, indent: shrink(s.indent, LIST_INDENT), ..s }, 1),
        TagV::Paragraph => newlines(s, 2),
        TagV::Link(_) => RState { link: None, ..s },
        TagV::BlockQuote => RState { indent: shrink(s.indent, QUOTE_INDENT), style: plain(), ..s },
        TagV::CodeBlock => RState { indent: shrink(s.indent, CODE_INDENT), style: plain(), ..s },
        TagV::Strong => RState { style: TextStyle { bold: false, ..s.style }, ..s },
        TagV::Emphasis => RState { style: TextStyle { underline: false, ..s.style }, ..s },
        TagV::Strikethrough => RState { style: TextStyle { strikethrough: false, ..s.style }, ..s },
        _ => s,
    }
}

pub open spec fn is_anchor(d: Seq<char>) -> bool {
    d.len() > 0 && d[0] == '#'
}

/// Text inside a link to `d`: the text in blue, then, unless `d` is an
/// anchor, ` (`, the destination underlined, and `)`.
pub open spec fn link_text_step(s: RState, t: Seq<char>, d: Seq<char>) -> RState {
    let s1 = RState { style: s.style, ..emit_text(RState { style: link_style(), ..s }, t) };
    if is_anchor(d) {
        s1
    } else {
        let s2 = emit_text(s1, seq![' ', '(']);
        let s3 = emit_text(RState { style: TextStyle { underline: true, ..s2.style }, ..s2 }, d);
        emit_text(RState { style: TextStyle { underline: false, ..s3.style }, ..s3 }, seq![')'])
    }
}

/// The session after one event.
pub open spec fn step(s: RState, e: EventV) -> RState {
    match e {
        EventV::Start(tag) => start_step(s, tag),
        EventV::End(tag) => end_step(s, tag),
        EventV::Text(t) => match s.link {
            Some(d) => link_text_step(s, t, d),
            None => emit_text(s, t),
        },
        EventV::Code(t) => RState { style: plain(), ..emit_text(RState { style: code_style(), ..s }, t) },
        EventV::Html(h) => RState { out: s.out + "?html: "@ + h + seq!['\n'], ..s },
        EventV::FootnoteRef(n) => RState { out: s.out + "footnote: "@ + n + seq!['\n'], ..s },
        EventV::SoftBreak => newlines(s, 1),
        EventV::HardBreak => newlines(s, 2),
        EventV::Rule => newlines(emit_text(s, RULE@), 1),
        EventV::TaskMarker(done) => emit_text(s, if done { TASK_DONE@ } else { TASK_OPEN@ }),
    }
}

/// The session after the events `es`, in order.
pub open spec fn run(s: RState, es: Seq<EventV>) -> RState
    decreases es.len(),
{
    if es.len() == 0 {
        s
    } else {
        step(run(s, es.drop_last()), es.last())
    }
}

/// The text that a fresh session produces from `es`.
pub open spec fn rendered(es: Seq<EventV>) -> Seq<char> {
    run(initial(), es).out
}

// ---- the session ----

/// A render session: the text written so far and the context that decides
/// how the next event is written.
pub struct MD {
    output: String,
    style: TextStyle,
    indentation: usize,
    cur_list: Option<ListKind>,
    cur_link: Option<String>,
}

impl View for MD {
    type V = RState;

    closed spec fn view(&self) -> RState {
        RState {
            out: self.output@,
            style: self.style,
            indent: self.indentation as nat,
            list: self.cur_list,
            link: match self.cur_link {
                Some(d) => Some(d@),
                None => None,
            },
        }
    }
}

/// `s` written `n` times.
fn repeat_str(s: &str, n: usize) -> (r: String)
    ensures
        r@ == repeat(s@, n as nat),
{
    let mut r = String::new();
    let mut i: usize = 0;
    while i < n
        invariant
            i <= n,
            r@ == repeat(s@, i as nat),
        decreases n - i,
    {
        r.append(s);
        i += 1;
    }
    r
}

const DIGITS: &'static str = "0123456789";

/// The decimal digits of `n`.
pub(crate) fn decimal_string(n: u64) -> (r: String)
    ensures
        r@ == decimal(n as nat),
    decreases n,
{
    proof {
        reveal_strlit("0123456789");
    }
    let d: usize = (n % 10) as usize;
    let last = DIGITS.substring_char(d, d + 1);
    assert(last@ =~= seq![digit(d as nat)]);
    if n < 10 {
        last.to_string()
    } else {
        let mut r = decimal_string(n / 10);
        r.append(last);
        r
    }
}

fn grow_by(i: usize, d: usize) -> (r: usize)
    ensures
        r as nat == grow(i as nat, d),
{
    if i > usize::MAX - d {
        usize::MAX
    } else {
        i + d
    }
}

fn shrink_by(i: usize, d: usize) -> (r: usize)
    ensures
        r as nat == shrink(i as nat, d),
{
    if i >= d {
        i - d
    } else {
        0
    }
}

impl MD {
    /// A fresh session: nothing written, plain style, no indentation, no
    /// list and no link.
    pub fn new() -> (r: MD)
        ensures
            r@ == initial(),
    {
        MD { output: String::new(), style: TextStyle::new(), indentation: 0, cur_list: None, cur_link: None }
    }

    /// The text written so far.
    pub fn output(&self) -> (r: &String)
        ensures
            r@ == self@.out,
    {
        &self.output
    }

    /// The session's text, taking the session apart.
    pub fn into_output(self) -> (r: String)
        ensures
            r@ == self@.out,
    {
        self.output
    }

    /// Writes `count` line terminators.
    pub fn newline(&mut self, count: u32)
        ensures
            final(self)@ == newlines(old(self)@, count as nat),
    {
        proof {
            reveal_strlit("\n");
            assert("\n"@ =~= seq!['\n']);
        }
        let mut i: u32 = 0;
        while i < count
            invariant
                i <= count,
                "\n"@ == seq!['\n'],
                self@ == newlines(old(self)@, i as nat),
            decreases count - i,
        {
            self.output.append("\n");
            i += 1;
            assert(self.output@ =~= old(self).output@ + repeat(seq!['\n'], i as nat));
        }
    }

    /// Writes `t` at the current indentation in the current style.
    pub fn text(&mut self, t: &str)
        ensures
            final(self)@ == emit_text(old(self)@, t@),
    {
        if self.indentation > 0 {
            let prefix = repeat_str(" ", self.indentation);
            proof {
                reveal_strlit(" ");
                assert(" "@ =~= seq![' ']);
            }
            let ghost pad = self.indentation as nat;
            let ghost st = self.style;
            let n = t.unicode_len();
            let mut start: usize = 0;
            let mut i: usize = 0;
            while i < n
                invariant
                    start <= i <= n,
                    n == t@.len(),
                    pad == self.indentation,
                    pad > 0,
                    st == self.style,
                    prefix@ == spaces(pad),
                    self.style == old(self).style,
                    self.indentation == old(self).indentation,
                    self.cur_list == old(self).cur_list,
                    self.cur_link == old(self).cur_link,
                    self.output@ + lines_from(pad, st, t@, start as int, i as int)
                        == old(self).output@ + lines_from(pad, st, t@, 0, 0),
                decreases n - i,
            {
                if t.get_char(i) == '\n' {
                    let piece = t.substring_char(start, i + 1);
                    let painted_piece = paint(self.style, piece);
                    let ghost before = self.output@;
                    self.output.append(prefix.as_str());
                    self.output.append(painted_piece.as_str());
                    assert(before + lines_from(pad, st, t@, start as int, i as int) =~= self.output@
                        + lines_from(pad, st, t@, i + 1, i + 1));
                    start = i + 1;
                }
                i += 1;
            }
            if start < n {
                let piece = t.substring_char(start, n);
                let painted_piece = paint(self.style, piece);
                self.output.append(prefix.as_str());
                self.output.append(painted_piece.as_str());
            }
            assert(self.output@ =~= old(self).output@ + emit(pad, st, t@));
        } else {
            let painted_text = paint(self.style, t);
            self.output.append(painted_text.as_str());
        }
    }

    /// Handles the start of a construct.
    pub fn start_tag(&mut self, tag: &MdTag)
        ensures
            final(self)@ == start_step(old(self)@, tag@),
    {
        match tag {
            MdTag::Heading(level) => {
                self.newline(1);
                let mut hdr = repeat_str("#", *level as usize);
                hdr.append(" ");
                proof {
                    reveal_strlit("#");
                    reveal_strlit(" ");
                    assert("#"@ =~= seq!['#']);
                    assert(" "@ =~= seq![' ']);
                }
                self.text(hdr.as_str());
                self.style = TextStyle::new().on(Colour::White).fg(Colour::Black).bold();
            },
            MdTag::Item => match self.cur_list {
                Some(ListKind::Ordered(i)) => {
                    let number = decimal_string(i);
                    self.text(number.as_str());
                    let next = if i == u64::MAX {
                        0
                    } else {
                        i + 1
                    };
                    self.cur_list = Some(ListKind::Ordered(next));
                },
                Some(ListKind::Unordered) => {
                    self.text(BULLET);
                },
                None => {},
            },
            MdTag::List(first) => {
                self.cur_list = Some(
                    match first {
                        Some(i) => ListKind::Ordered(*i),
                        None => ListKind::Unordered,
                    },
                );
                self.indentation = grow_by(self.indentation, LIST_INDENT);
                self.newline(1);
            },
            MdTag::Paragraph => {},
            MdTag::Link(dest) => {
                self.cur_link = Some(dest.clone());
            },
            MdTag::BlockQuote => {
                self.indentation = grow_by(self.indentation, QUOTE_INDENT);
                self.style = TextStyle::new().fg(Colour::Fixed(QUOTE_GRAY));
            },
            MdTag::CodeBlock => {
                self.indentation = grow_by(self.indentation, CODE_INDENT);
                self.style = TextStyle::new().fg(Colour::Green);
            },
            MdTag::Strong => {
                self.style = self.style.bold();
            },
            MdTag::Emphasis => {
                self.style = self.style.underline();
            },
            MdTag::Strikethrough => {
                self.style = self.style.strikethrough();
            },
            MdTag::Other => {},
        }
    }

    /// Handles the end of a construct.
    pub fn end_tag(&mut self, tag: &MdTag)
        ensures
            final(self)@ == end_step(old(self)@, tag@),
    {
        match tag {
            MdTag::Heading(_) => {
                self.style = TextStyle::new();
                self.newline(2);
            },
            MdTag::Item => {
                self.newline(1);
            },
            MdTag::List(_) => {
                self.cur_list = None;
                self.indentation = shrink_by(self.indentation, LIST_INDENT);
                self.newline(1);
            },
            MdTag::Paragraph => {
                self.newline(2);
            },
            MdTag::Link(_) => {
                self.cur_link = None;
            },
            MdTag::BlockQuote => {
                self.indentation = shrink_by(self.indentation, QUOTE_INDENT);
                self.style = TextStyle::new();
            },
            MdTag::Strong => {
                self.style.bold = false;
            },
            MdTag::Emphasis => {
                self.style.underline = false;
            },
            MdTag::Strikethrough => {
                self.style.strikethrough = false;
            },
            MdTag::CodeBlock => {
                self.indentation = shrink_by(self.indentation, CODE_INDENT);
                self.style = TextStyle::new();
            },
            MdTag::Other => {},
        }
    }

    /// Writes text that stands inside a link to `url`.
    fn link_text(&mut self, t: &str, url: &String)
        requires
            old(self)@.link == Some(url@),
        ensures
            final(self)@ == link_text_step(old(self)@, t@, url@),
    {
        let prev_style = self.style;
        self.style = TextStyle::new().fg(Colour::Blue);
        self.text(t);
        self.style = prev_style;
        let anchor = url.as_str().unicode_len() > 0 && url.as_str().get_char(0) == '#';
        if !anchor {
            proof {
                reveal_strlit(" (");
                reveal_strlit(")");
                assert(" ("@ =~= seq![' ', '(']);
                assert(")"@ =~= seq![')']);
            }
            self.text(" (");
            self.style.underline = true;
            self.text(url.as_str());
            self.style.underline = false;
            self.text(")");
        }
    }

    /// Handles one event.
    pub fn event(&mut self, e: &MdEvent)
        ensures
            final(self)@ == step(old(self)@, e@),
    {
        match e {
            MdEvent::Start(tag) => {
                self.start_tag(tag);
            },
            MdEvent::End(tag) => {
                self.end_tag(tag);
            },
            MdEvent::Text(t) => {
                match &self.cur_link {
                    Some(dest) => {
                        let url = dest.clone();
                        self.link_text(t.as_str(), &url);
                    },
                    None => {
                        self.text(t.as_str());
                    },
                }
            },
            MdEvent::Code(t) => {
                self.style = TextStyle::new().on(Colour::Fixed(CODE_GRAY)).fg(Colour::White);
                self.text(t.as_str());
                self.style = TextStyle::new();
            },
            MdEvent::Html(h) => {
                self.output.append("?html: ");
                self.output.append(h.as_str());
                self.newline(1);
                proof {
                    assert(repeat(seq!['\n'], 0) =~= Seq::<char>::empty());
                    assert(repeat(seq!['\n'], 1) =~= seq!['\n']);
                }
            },
            MdEvent::FootnoteRef(name) => {
                self.output.append("footnote: ");
                self.output.append(name.as_str());
                self.newline(1);
                proof {
                    assert(repeat(seq!['\n'], 0) =~= Seq::<char>::empty());
                    assert(repeat(seq!['\n'], 1) =~= seq!['\n']);
                }
            },
            MdEvent::SoftBreak => {
                self.newline(1);
            },
            MdEvent::HardBreak => {
                self.newline(2);
            },
            MdEvent::Rule => {
                self.text(RULE);
                self.newline(1);
            },
            MdEvent::TaskMarker(done) => {
                if *done {
                    self.text(TASK_DONE);
                } else {
                    self.text(TASK_OPEN);
                }
            },
        }
    }

    /// Handles the events `events`, in order.
    pub fn write(&mut self, events: &Vec<MdEvent>)
        ensures
            final(self)@ == run(old(self)@, events_view(events@)),
    {
        let ghost es = events_view(events@);
        let mut i: usize = 0;
        while i < events.len()
            invariant
                i <= events.len(),
                es == events_view(events@),
                self@ == run(old(self)@, es.take(i as int)),
            decreases events.len() - i,
        {
            self.event(&events[i]);
            proof {
                assert(es.take(i + 1).drop_last() =~= es.take(i as int));
            }
            i += 1;
        }
        assert(es.take(i as int) =~= es);
    }
}

/// Renders the events `events` in a fresh session.
pub fn render_events(events: &Vec<MdEvent>) -> (r: String)
    ensures
        r@ == rendered(events_view(events@)),
{
    let mut md = MD::new();
    md.write(events);
    md.into_output()
}

} // verus!
