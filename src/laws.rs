//! Properties of the renderer, proved over its spec model.

use vstd::prelude::*;
use crate::event::{EventV, TagV};
use crate::md::rendered_doc;
use crate::render::{
    ListKind, RState, code_style, decimal, emit, heading_style, initial, is_anchor, lines_from,
    link_style, next_number, repeat, rendered, run, spaces, step,
};
use crate::style::{TextStyle, is_plain, painted, plain, reset_code, style_prefix};

verus! {

/// Plain text written outside any construct comes out unchanged: no
/// escape sequence, no indentation.
pub proof fn lemma_plain_text(s: RState, t: Seq<char>)
    requires
        s.style == plain(),
        s.indent == 0,
        s.link is None,
    ensures
        step(s, EventV::Text(t)).out == s.out + t,
        step(s, EventV::Text(t)).style == s.style,
        step(s, EventV::Text(t)).indent == s.indent,
{
}

/// A document that is one paragraph of plain text renders as that text
/// followed by two line terminators.
pub proof fn lemma_plain_paragraph(t: Seq<char>)
    ensures
        rendered(seq![EventV::Start(TagV::Paragraph), EventV::Text(t), EventV::End(TagV::Paragraph)])
            == t + seq!['\n', '\n'],
{
    let es = seq![EventV::Start(TagV::Paragraph), EventV::Text(t), EventV::End(TagV::Paragraph)];
    assert(es.drop_last() =~= seq![EventV::Start(TagV::Paragraph), EventV::Text(t)]);
    assert(es.drop_last().drop_last() =~= seq![EventV::Start(TagV::Paragraph)]);
    assert(es.drop_last().drop_last().drop_last() =~= Seq::<EventV>::empty());
    reveal_with_fuel(run, 4);
    assert(repeat(seq!['\n'], 0) =~= Seq::<char>::empty());
    assert(repeat(seq!['\n'], 1) =~= seq!['\n']);
    assert(repeat(seq!['\n'], 2) =~= seq!['\n', '\n']);
    let s1 = step(initial(), EventV::Start(TagV::Paragraph));
    assert(s1 == initial());
    let s2 = step(s1, EventV::Text(t));
    assert(s2.out =~= t);
    assert(rendered(es) =~= t + seq!['\n', '\n']);
}

/// A heading of level `n` renders as a line terminator, `n` hash signs and a
/// space, the heading text in the heading style, and two line terminators.
pub proof fn lemma_heading(n: u32, t: Seq<char>)
    ensures
        rendered(seq![EventV::Start(TagV::Heading(n)), EventV::Text(t), EventV::End(TagV::Heading(n))])
            == seq!['\n'] + repeat(seq!['#'], n as nat) + seq![' '] + painted(heading_style(), t)
            + seq!['\n', '\n'],
{
    let es = seq![EventV::Start(TagV::Heading(n)), EventV::Text(t), EventV::End(TagV::Heading(n))];
    assert(es.drop_last() =~= seq![EventV::Start(TagV::Heading(n)), EventV::Text(t)]);
    assert(es.drop_last().drop_last() =~= seq![EventV::Start(TagV::Heading(n))]);
    assert(es.drop_last().drop_last().drop_last() =~= Seq::<EventV>::empty());
    assert(repeat(seq!['\n'], 0) =~= Seq::<char>::empty());
    assert(repeat(seq!['\n'], 1) =~= seq!['\n']);
    assert(repeat(seq!['\n'], 2) =~= seq!['\n', '\n']);
    reveal_with_fuel(run, 4);
    let s1 = step(initial(), EventV::Start(TagV::Heading(n)));
    assert(s1.out =~= seq!['\n'] + repeat(seq!['#'], n as nat) + seq![' ']);
    assert(s1.style == heading_style() && s1.link is None && s1.indent == 0);
    let s2 = step(s1, EventV::Text(t));
    assert(s2.out =~= s1.out + painted(heading_style(), t));
    assert(rendered(es) =~= seq!['\n'] + repeat(seq!['#'], n as nat) + seq![' '] + painted(
        heading_style(),
        t,
    ) + seq!['\n', '\n']);
}

/// Ordered lists: a list that starts at `k` numbers its next item `k`
/// whatever list was open before; each item writes its number and
/// advances it by one; the end of any list leaves no list open, so an
/// enclosing list does not resume its numbering.
pub proof fn lemma_ordered_numbering(s: RState, k: u64, i: u64, first: Option<u64>)
    ensures
        step(s, EventV::Start(TagV::List(Some(k)))).list == Some(ListKind::Ordered(k)),
        s.list == Some(ListKind::Ordered(i)) ==> step(s, EventV::Start(TagV::Item)).out == s.out
            + emit(s.indent, s.style, decimal(i as nat)),
        s.list == Some(ListKind::Ordered(i)) ==> step(s, EventV::Start(TagV::Item)).list == Some(
            ListKind::Ordered(next_number(i)),
        ),
        i < u64::MAX ==> next_number(i) == i + 1,
        step(s, EventV::End(TagV::List(first))).list is None,
        step(step(s, EventV::End(TagV::List(first))), EventV::Start(TagV::Item)).out
            == step(s, EventV::End(TagV::List(first))).out,
{
}

/// Inline code is painted in its own, non-plain style, and the style is
/// plain right after it, whatever it was before.
pub proof fn lemma_inline_code(s: RState, t: Seq<char>)
    ensures
        !is_plain(code_style()),
        step(s, EventV::Code(t)).out == s.out + emit(s.indent, code_style(), t),
        s.indent == 0 ==> step(s, EventV::Code(t)).out == s.out + style_prefix(code_style()) + t
            + reset_code(),
        step(s, EventV::Code(t)).style == plain(),
{
}

/// Text inside a link is written in blue; unless the destination is an
/// anchor, ` (`, the destination underlined, and `)` follow.
pub proof fn lemma_link_text(s: RState, t: Seq<char>, d: Seq<char>)
    requires
        s.link == Some(d),
    ensures
        is_anchor(d) ==> step(s, EventV::Text(t)).out == s.out + emit(s.indent, link_style(), t),
        !is_anchor(d) ==> step(s, EventV::Text(t)).out == s.out + emit(s.indent, link_style(), t)
            + emit(s.indent, s.style, seq![' ', '('])
            + emit(s.indent, TextStyle { underline: true, ..s.style }, d)
            + emit(s.indent, TextStyle { underline: false, ..s.style }, seq![')']),
{
}

/// Indentation is cumulative: a list inside a block quote indents by five,
/// so text written there begins with five more spaces than before; closing
/// both returns to the indentation from before, provided that what stands
/// between leaves the indentation as it found it.
pub proof fn lemma_quote_list_indent(s: RState, first: Option<u64>, body: Seq<EventV>, t: Seq<char>)
    requires
        s.indent + 5 <= usize::MAX,
        run(step(step(s, EventV::Start(TagV::BlockQuote)), EventV::Start(TagV::List(first))), body).indent
            == s.indent + 5,
    ensures
        ({
            let inner = step(step(s, EventV::Start(TagV::BlockQuote)), EventV::Start(TagV::List(first)));
            &&& inner.indent == s.indent + 5
            &&& s.link is None && t.len() > 0 ==> step(inner, EventV::Text(t)).out.subrange(
                inner.out.len() as int,
                inner.out.len() + s.indent + 5 as int,
            ) == spaces(s.indent + 5)
            &&& step(
                step(run(inner, body), EventV::End(TagV::List(first))),
                EventV::End(TagV::BlockQuote),
            ).indent == s.indent
        }),
{
    let inner = step(step(s, EventV::Start(TagV::BlockQuote)), EventV::Start(TagV::List(first)));
    if s.link is None && t.len() > 0 {
        lemma_indented_text(inner.indent, inner.style, t);
        let e = emit(inner.indent, inner.style, t);
        assert(step(inner, EventV::Text(t)).out == inner.out + e);
        assert((inner.out + e).subrange(inner.out.len() as int, inner.out.len() + s.indent + 5 as int)
            =~= e.take(inner.indent as int));
    }
}

proof fn lemma_spaces_len(n: nat)
    ensures
        spaces(n).len() == n,
    decreases n,
{
    if n > 0 {
        lemma_spaces_len((n - 1) as nat);
    }
}

proof fn lemma_lines_from_indented(pad: nat, style: TextStyle, t: Seq<char>, start: int, i: int)
    requires
        0 <= start <= i,
        start < t.len(),
    ensures
        lines_from(pad, style, t, start, i).len() >= pad,
        lines_from(pad, style, t, start, i).take(pad as int) == spaces(pad),
    decreases t.len() - i,
{
    lemma_spaces_len(pad);
    if i < t.len() && t[i] != '\n' {
        lemma_lines_from_indented(pad, style, t, start, i + 1);
    } else if i < t.len() {
        let rest = painted(style, t.subrange(start, i + 1)) + lines_from(pad, style, t, i + 1, i + 1);
        assert((spaces(pad) + rest).take(pad as int) =~= spaces(pad));
        assert(spaces(pad) + painted(style, t.subrange(start, i + 1)) + lines_from(pad, style, t, i + 1, i + 1)
            =~= spaces(pad) + rest);
    } else {
        let rest = painted(style, t.subrange(start, t.len() as int));
        assert((spaces(pad) + rest).take(pad as int) =~= spaces(pad));
    }
}

/// Text written at a non-zero indentation begins with that many spaces.
pub proof fn lemma_indented_text(pad: nat, style: TextStyle, t: Seq<char>)
    requires
        pad > 0,
        t.len() > 0,
    ensures
        emit(pad, style, t).len() >= pad,
        emit(pad, style, t).take(pad as int) == spaces(pad),
{
    lemma_lines_from_indented(pad, style, t, 0, 0);
}

/// Rendering is a function of the document alone: equal documents render
/// to equal text.
pub proof fn lemma_render_deterministic(a: Seq<char>, b: Seq<char>)
    requires
        a == b,
    ensures
        rendered_doc(a) == rendered_doc(b),
{
}

} // verus!
