//! What is drawn: lines of styled text.

use vstd::prelude::*;

verus! {

/// The colours in use; `Plain` leaves the terminal's own colour.
#[derive(Clone, Copy, Debug, PartialEq, Eq, Structural)]
pub enum Color {
    Plain,
    Black,
    Red,
    Green,
    Yellow,
    Blue,
    Magenta,
    Cyan,
    Gray,
    DarkGray,
    White,
}

/// How a piece of text is drawn.
#[derive(Clone, Copy, Debug, PartialEq, Eq, Structural)]
pub struct Style {
    pub fg: Color,
    pub bg: Color,
    pub bold: bool,
    pub dim: bool,
    pub italic: bool,
}

/// The style with one foreground colour and nothing else.
pub open spec fn colored(c: Color) -> Style {
    Style { fg: c, bg: Color::Plain, bold: false, dim: false, italic: false }
}

pub fn color(c: Color) -> (r: Style)
    ensures
        r == colored(c),
{
    Style { fg: c, bg: Color::Plain, bold: false, dim: false, italic: false }
}

/// The same style in bold.
pub open spec fn bolded(s: Style) -> Style {
    Style { bold: true, ..s }
}

pub fn bold(s: Style) -> (r: Style)
    ensures
        r == bolded(s),
{
    Style { fg: s.fg, bg: s.bg, bold: true, dim: s.dim, italic: s.italic }
}

/// The same style in italics.
pub open spec fn slanted(s: Style) -> Style {
    Style { italic: true, ..s }
}

pub fn slant(s: Style) -> (r: Style)
    ensures
        r == slanted(s),
{
    Style { fg: s.fg, bg: s.bg, bold: s.bold, dim: s.dim, italic: true }
}

/// The same style, dimmed.
pub open spec fn dimmed(s: Style) -> Style {
    Style { dim: true, ..s }
}

pub fn dim(s: Style) -> (r: Style)
    ensures
        r == dimmed(s),
{
    Style { fg: s.fg, bg: s.bg, bold: s.bold, dim: true, italic: s.italic }
}

/// The same style on a background.
pub open spec fn backed(s: Style, c: Color) -> Style {
    Style { bg: c, ..s }
}

pub fn on(s: Style, c: Color) -> (r: Style)
    ensures
        r == backed(s, c),
{
    Style { fg: s.fg, bg: c, bold: s.bold, dim: s.dim, italic: s.italic }
}

/// A piece of text in one style.
pub struct Span {
    pub text: String,
    pub style: Style,
}

impl View for Span {
    type V = (Seq<char>, Style);

    open spec fn view(&self) -> (Seq<char>, Style) {
        (self.text@, self.style)
    }
}

/// A line: pieces of text side by side.
pub struct Line {
    pub spans: Vec<Span>,
}

impl View for Line {
    type V = Seq<(Seq<char>, Style)>;

    open spec fn view(&self) -> Seq<(Seq<char>, Style)> {
        Seq::new(self.spans@.len(), |i: int| self.spans@[i]@)
    }
}

/// The views of a sequence of lines.
pub open spec fn drawn(v: Seq<Line>) -> Seq<Seq<(Seq<char>, Style)>> {
    Seq::new(v.len(), |i: int| v[i]@)
}

pub fn span(text: &str, style: Style) -> (r: Span)
    ensures
        r@ == (text@, style),
{
    Span { text: text.to_owned(), style }
}

impl Line {
    /// The line without any text.
    pub fn blank() -> (r: Line)
        ensures
            r@ == Seq::<(Seq<char>, Style)>::empty(),
    {
        let r = Line { spans: Vec::new() };
        assert(r@ =~= Seq::<(Seq<char>, Style)>::empty());
        r
    }

    /// The line with one piece of text more.
    pub fn with(self, text: &str, style: Style) -> (r: Line)
        ensures
            r@ == self@.push((text@, style)),
    {
        let mut spans = self.spans;
        let ghost before = spans@;
        spans.push(span(text, style));
        let r = Line { spans };
        assert(r@ =~= self@.push((text@, style)));
        r
    }
}

/// A line of one piece.
pub fn line1(a: &str, s: Style) -> (r: Line)
    ensures
        r@ == seq![(a@, s)],
{
    let r = Line::blank().with(a, s);
    assert(r@ =~= seq![(a@, s)]);
    r
}

/// A line of two pieces.
pub fn line2(a: &str, s: Style, b: &str, t: Style) -> (r: Line)
    ensures
        r@ == seq![(a@, s), (b@, t)],
{
    let r = Line::blank().with(a, s).with(b, t);
    assert(r@ =~= seq![(a@, s), (b@, t)]);
    r
}

/// Appends a line.
pub fn add_line(lines: &mut Vec<Line>, l: Line)
    ensures
        drawn(final(lines)@) == drawn(old(lines)@).push(l@),
{
    lines.push(l);
    assert(drawn(lines@) =~= drawn(old(lines)@).push(l@));
}

/// A style has the colour that it was given, and what is added to it changes nothing
/// else.
pub proof fn law_styles(c: Color, d: Color, s: Style)
    ensures
        colored(c).fg == c,
        colored(c).bg == Color::Plain,
        !colored(c).bold && !colored(c).dim && !colored(c).italic,
        bolded(s).bold && bolded(s).fg == s.fg && bolded(s).bg == s.bg && bolded(s).dim == s.dim,
        dimmed(s).dim && dimmed(s).fg == s.fg && dimmed(s).bg == s.bg && dimmed(s).bold == s.bold,
        slanted(s).italic && slanted(s).fg == s.fg && slanted(s).bg == s.bg,
        backed(s, d).bg == d && backed(s, d).fg == s.fg && backed(s, d).bold == s.bold,
{
}

} // verus!
