//! Terminal text styles and how a piece of text is painted with one.

use vstd::prelude::*;

verus! {

/// The colours that the renderer uses.
#[derive(Clone, Copy, Debug, PartialEq, Eq, Structural)]
pub enum Colour {
    Black,
    White,
    Blue,
    Green,
    /// An entry of the 256-colour palette.
    Fixed(u8),
}

/// A bundle of terminal text attributes.
#[derive(Clone, Copy, Debug, PartialEq, Eq, Structural)]
pub struct TextStyle {
    pub fg: Option<Colour>,
    pub bg: Option<Colour>,
    pub bold: bool,
    pub underline: bool,
    pub strikethrough: bool,
}

/// The style with no attribute set.
pub open spec fn plain() -> TextStyle {
    TextStyle { fg: None, bg: None, bold: false, underline: false, strikethrough: false }
}

pub open spec fn is_plain(s: TextStyle) -> bool {
    s == plain()
}

/// The escape sequence that ends a styled piece of text.
pub open spec fn reset_code() -> Seq<char> {
    seq!['\x1b', '[', '0', 'm']
}

/// The escape sequence that `ansi_term` writes before text in style `s`.
pub uninterp spec fn style_prefix(s: TextStyle) -> Seq<char>;

/// Text `t` painted in style `s`: unchanged in the plain style, else between
/// the style's prefix and a reset.
pub open spec fn painted(s: TextStyle, t: Seq<char>) -> Seq<char> {
    if is_plain(s) {
        t
    } else {
        style_prefix(s) + t + reset_code()
    }
}

impl TextStyle {
    pub fn new() -> (r: TextStyle)
        ensures
            r == plain(),
    {
        TextStyle { fg: None, bg: None, bold: false, underline: false, strikethrough: false }
    }

    /// This style with the foreground set to `c`.
    pub fn fg(self, c: Colour) -> (r: TextStyle)
        ensures
            r == (TextStyle { fg: Some(c), ..self }),
    {
        TextStyle { fg: Some(c), ..self }
    }

    /// This style with the background set to `c`.
    pub fn on(self, c: Colour) -> (r: TextStyle)
        ensures
            r == (TextStyle { bg: Some(c), ..self }),
    {
        TextStyle { bg: Some(c), ..self }
    }

    /// This style in bold.
    pub fn bold(self) -> (r: TextStyle)
        ensures
            r == (TextStyle { bold: true, ..self }),
    {
        TextStyle { bold: true, ..self }
    }

    /// This style underlined.
    pub fn underline(self) -> (r: TextStyle)
        ensures
            r == (TextStyle { underline: true, ..self }),
    {
        TextStyle { underline: true, ..self }
    }

    /// This style struck through.
    pub fn strikethrough(self) -> (r: TextStyle)
        ensures
            r == (TextStyle { strikethrough: true, ..self }),
    {
        TextStyle { strikethrough: true, ..self }
    }

    pub fn is_plain(&self) -> (r: bool)
        ensures
            r == is_plain(*self),
    {
        self.fg.is_none() && self.bg.is_none() && !self.bold && !self.underline
            && !self.strikethrough
    }
}

/// Relies on `ansi_term::Style::paint` and its `Display`: the text is written
/// between the style's prefix and suffix; a plain style writes neither, any
/// other writes `ESC [`, at least one code and `m` before it, and a reset after.
#[verifier::external_body]
pub(crate) fn paint(style: TextStyle, text: &str) -> (r: String)
    ensures
        is_plain(style) ==> r@ == text@,
        !is_plain(style) ==> r@ == style_prefix(style) + text@ + reset_code(),
        !is_plain(style) ==> r@.len() >= text@.len() + 7 && r@[0] == '\x1b' && r@[1] == '[',
{
    let c = |c: Colour| match c {
        Colour::Black => ansi_term::Colour::Black,
        Colour::White => ansi_term::Colour::White,
        Colour::Blue => ansi_term::Colour::Blue,
        Colour::Green => ansi_term::Colour::Green,
        Colour::Fixed(n) => ansi_term::Colour::Fixed(n),
    };
    let mut s = ansi_term::Style::new();
    s.foreground = style.fg.map(c);
    s.background = style.bg.map(c);
    s.is_bold = style.bold;
    s.is_underline = style.underline;
    s.is_strikethrough = style.strikethrough;
    s.paint(text).to_string()
}

} // verus!
