use note::event::{MdEvent, MdTag};
use note::md::print_anscii_md;
use note::render::{render_events, MD};

fn render(s: &str) -> String {
    let mut out = String::new();
    print_anscii_md(&s.to_string(), &mut out).unwrap();
    out
}

fn text(s: &str) -> MdEvent {
    MdEvent::Text(s.to_string())
}

#[test]
fn test_md() {
    let content = String::from(
        "# Week 19, 2021
---

## Monday, 10-May-2021
- Here is some text from a list
- Second item
  - Indented list
  - Another indented item

  ```
  code block here
  second line of code blcok
  ```

OK _what_ is **that**
Here is a [link](example.com)

## Tuesday, 11-May-2021

## Wednesday, 12-May-2021

## Thursday, 13-May-2021

## Friday, 14-May-2021


TODO:
- [ ] Do this
- [x] Done!
",
    );

    let mut out = String::new();
    print_anscii_md(&content, &mut out).unwrap();
    println!("{}", out);
}

#[test]
fn plain_text_is_unchanged() {
    assert_eq!(render("hello world"), "hello world\n\n");
}

#[test]
fn empty_document_renders_empty() {
    assert_eq!(render(""), "");
}

#[test]
fn output_is_appended() {
    let mut out = String::from("before:");
    print_anscii_md(&"hi".to_string(), &mut out).unwrap();
    assert_eq!(out, "before:hi\n\n");
}

#[test]
fn heading_is_styled() {
    assert_eq!(render("# Title"), "\n# \x1b[1;47;30mTitle\x1b[0m\n\n");
}

#[test]
fn second_level_heading() {
    assert_eq!(render("## Day"), "\n## \x1b[1;47;30mDay\x1b[0m\n\n");
}

#[test]
fn inline_code_is_styled_and_reset() {
    assert_eq!(render("`x` y"), "\x1b[48;5;239;37mx\x1b[0m y\n\n");
}

#[test]
fn link_shows_destination() {
    assert_eq!(
        render("[text](http://example.com)"),
        "\x1b[34mtext\x1b[0m (\x1b[4mhttp://example.com\x1b[0m)\n\n"
    );
}

#[test]
fn anchor_link_hides_destination() {
    assert_eq!(render("[a](#top)"), "\x1b[34ma\x1b[0m\n\n");
}

#[test]
fn rendering_twice_is_identical() {
    let doc = "# T\n\n- a\n- b\n\n> quote `c` [l](x)\n";
    assert_eq!(render(doc), render(doc));
}

#[test]
fn emphasis_strong_and_strike_compose() {
    let events = vec![
        MdEvent::Start(MdTag::Emphasis),
        MdEvent::Start(MdTag::Strong),
        text("a"),
        MdEvent::End(MdTag::Strong),
        text("b"),
        MdEvent::End(MdTag::Emphasis),
        MdEvent::Start(MdTag::Strikethrough),
        text("c"),
        MdEvent::End(MdTag::Strikethrough),
    ];
    assert_eq!(
        render_events(&events),
        "\x1b[1;4ma\x1b[0m\x1b[4mb\x1b[0m\x1b[9mc\x1b[0m"
    );
}

#[test]
fn ordered_list_numbers_items() {
    let events = vec![
        MdEvent::Start(MdTag::List(Some(1))),
        MdEvent::Start(MdTag::Item),
        text("a"),
        MdEvent::End(MdTag::Item),
        MdEvent::Start(MdTag::Item),
        text("b"),
        MdEvent::End(MdTag::Item),
        MdEvent::End(MdTag::List(Some(1))),
    ];
    assert_eq!(render_events(&events), "\n  1  a\n  2  b\n\n");
}

#[test]
fn ordered_list_from_markdown() {
    assert_eq!(render("1. a\n2. b\n"), "\n  1  a\n  2  b\n\n");
}

#[test]
fn ordered_list_starts_at_its_number() {
    let events = vec![
        MdEvent::Start(MdTag::List(Some(10))),
        MdEvent::Start(MdTag::Item),
        MdEvent::End(MdTag::Item),
        MdEvent::Start(MdTag::Item),
        MdEvent::End(MdTag::Item),
        MdEvent::End(MdTag::List(Some(10))),
    ];
    assert_eq!(render_events(&events), "\n  10\n  11\n\n");
}

#[test]
fn nested_list_clobbers_outer_numbering() {
    let events = vec![
        MdEvent::Start(MdTag::List(Some(1))),
        MdEvent::Start(MdTag::Item),
        MdEvent::Start(MdTag::List(Some(5))),
        MdEvent::Start(MdTag::Item),
        MdEvent::End(MdTag::Item),
        MdEvent::End(MdTag::List(Some(5))),
        MdEvent::End(MdTag::Item),
        MdEvent::Start(MdTag::Item),
        text("x"),
        MdEvent::End(MdTag::Item),
        MdEvent::End(MdTag::List(Some(1))),
    ];
    // The second outer item has no number: the inner list's end left no list.
    assert_eq!(render_events(&events), "\n  1\n    5\n\n\n  x\n\n");
}

#[test]
fn unordered_list_uses_bullets() {
    assert_eq!(render("- a\n- b\n"), "\n  •  a\n  •  b\n\n");
}

#[test]
fn list_in_quote_indents_by_five() {
    let events = vec![
        MdEvent::Start(MdTag::BlockQuote),
        MdEvent::Start(MdTag::List(None)),
        MdEvent::Start(MdTag::Item),
        text("i"),
        MdEvent::End(MdTag::Item),
        MdEvent::End(MdTag::List(None)),
        MdEvent::End(MdTag::BlockQuote),
        text("z"),
    ];
    assert_eq!(
        render_events(&events),
        "\n     \x1b[38;5;244m•\x1b[0m     \x1b[38;5;244mi\x1b[0m\n\nz"
    );
}

#[test]
fn code_block_indents_each_line() {
    let events = vec![
        MdEvent::Start(MdTag::CodeBlock),
        text("l1\nl2\n"),
        MdEvent::End(MdTag::CodeBlock),
        text("t"),
    ];
    assert_eq!(
        render_events(&events),
        "    \x1b[32ml1\n\x1b[0m    \x1b[32ml2\n\x1b[0mt"
    );
}

#[test]
fn indented_text_without_final_newline() {
    let events = vec![
        MdEvent::Start(MdTag::List(None)),
        text("a\nb"),
        MdEvent::End(MdTag::List(None)),
    ];
    assert_eq!(render_events(&events), "\n  a\n  b\n");
}

#[test]
fn breaks_rules_html_footnotes_and_tasks() {
    let events = vec![
        text("a"),
        MdEvent::SoftBreak,
        text("b"),
        MdEvent::HardBreak,
        MdEvent::Rule,
        MdEvent::Html("<b>".to_string()),
        MdEvent::FootnoteRef("n1".to_string()),
        MdEvent::TaskMarker(true),
        MdEvent::TaskMarker(false),
    ];
    assert_eq!(
        render_events(&events),
        "a\nb\n\n⎼⎼⎼\n?html: <b>\nfootnote: n1\n[✓] [ ] "
    );
}

#[test]
fn heading_resets_style_at_end() {
    let mut md = MD::new();
    md.event(&MdEvent::Start(MdTag::Strong));
    md.event(&MdEvent::Start(MdTag::Heading(1)));
    md.event(&MdEvent::End(MdTag::Heading(1)));
    md.event(&text("p"));
    assert_eq!(md.into_output(), "\n\x1b[1m# \x1b[0m\n\np");
}

#[test]
fn link_inside_heading_is_blue() {
    let events = vec![
        MdEvent::Start(MdTag::Heading(1)),
        MdEvent::Start(MdTag::Link("u".to_string())),
        text("l"),
        MdEvent::End(MdTag::Link("u".to_string())),
        MdEvent::End(MdTag::Heading(1)),
    ];
    assert_eq!(
        render_events(&events),
        "\n# \x1b[34ml\x1b[0m\x1b[1;47;30m (\x1b[0m\x1b[1;4;47;30mu\x1b[0m\x1b[1;47;30m)\x1b[0m\n\n"
    );
}
