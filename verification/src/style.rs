//! Styled text: the spans that a frame is made of, and what the library
//! takes from the crates that know colours, glyphs and escape codes.

use vstd::prelude::*;

verus! {

/// A colour of the terminal.
#[derive(Clone, Copy, Debug, PartialEq, Eq, Structural)]
pub enum Shade {
    Reset,
    Black,
    Red,
    Green,
    Yellow,
    Blue,
    Magenta,
    Cyan,
    Gray,
    DarkGray,
    LightRed,
    LightGreen,
    LightYellow,
    LightBlue,
    LightMagenta,
    LightCyan,
    White,
    Rgb(u8, u8, u8),
    Indexed(u8),
}

/// The modifier bit of bold text.
pub const BOLD: u16 = 0x0001;

/// The modifier bit of underlined text.
pub const UNDERLINED: u16 = 0x0008;

/// How a span looks: its colours, and the modifiers that it adds and takes
/// away, as bits.
#[derive(Clone, Copy, Debug, PartialEq, Eq)]
pub struct Look {
    pub fg: Option<Shade>,
    pub bg: Option<Shade>,
    pub add_modifier: u16,
    pub sub_modifier: u16,
}

/// A piece of text with one look.
#[derive(Clone, Debug, PartialEq, Eq)]
pub struct Span {
    pub content: String,
    pub look: Look,
}

/// What a span holds.
pub struct SpanView {
    pub content: Seq<char>,
    pub look: Look,
}

impl View for Span {
    type V = SpanView;

    open spec fn view(&self) -> SpanView {
        SpanView { content: self.content@, look: self.look }
    }
}

impl DeepView for Span {
    type V = SpanView;

    open spec fn deep_view(&self) -> SpanView {
        self@
    }
}

/// The look of text without any styling.
pub open spec fn plain() -> Look {
    Look { fg: None, bg: None, add_modifier: 0, sub_modifier: 0 }
}

/// The look of text in one colour.
pub open spec fn tinted(shade: Shade) -> Look {
    Look { fg: Some(shade), bg: None, add_modifier: 0, sub_modifier: 0 }
}

/// A span without styling.
pub open spec fn raw(content: Seq<char>) -> SpanView {
    SpanView { content, look: plain() }
}

/// A span in one colour.
pub open spec fn colored(content: Seq<char>, shade: Shade) -> SpanView {
    SpanView { content, look: tinted(shade) }
}

/// A span without styling.
pub fn raw_span(content: String) -> (s: Span)
    ensures
        s@ == raw(content@),
{
    Span { content, look: Look { fg: None, bg: None, add_modifier: 0, sub_modifier: 0 } }
}

/// A span in one colour.
pub fn colored_span(content: String, shade: Shade) -> (s: Span)
    ensures
        s@ == colored(content@, shade),
{
    Span { content, look: Look { fg: Some(shade), bg: None, add_modifier: 0, sub_modifier: 0 } }
}

/// The glyphs that mark a file in a list.
#[derive(Clone, Copy, Debug, PartialEq, Eq, Structural)]
pub enum Icon {
    CheckboxBlankOutline,
    CheckboxMarked,
    MinusBox,
    FileDocumentEdit,
    FilePlus,
    FileRemove,
    FileMove,
    FileSwap,
}

/// The text of a glyph: one character of the private use area in which the
/// patched fonts keep the Material Design icons.
pub open spec fn glyph_of(icon: Icon) -> Seq<char> {
    match icon {
        Icon::CheckboxBlankOutline => seq!['\u{f0131}'],
        Icon::CheckboxMarked => seq!['\u{f0132}'],
        Icon::MinusBox => seq!['\u{f0375}'],
        Icon::FileDocumentEdit => seq!['\u{f0dc8}'],
        Icon::FilePlus => seq!['\u{f0752}'],
        Icon::FileRemove => seq!['\u{f0b98}'],
        Icon::FileMove => seq!['\u{f0ab9}'],
        Icon::FileSwap => seq!['\u{f0fb4}'],
    }
}

/// The constants of `nerd_font_symbols::md` for the glyphs of the library,
/// each a string of the one character that `glyph_of` gives.
#[verifier::external_body]
pub(crate) fn glyph(icon: Icon) -> (s: &'static str)
    ensures
        s@ == glyph_of(icon),
{
    match icon {
        Icon::CheckboxBlankOutline => nerd_font_symbols::md::MD_CHECKBOX_BLANK_OUTLINE,
        Icon::CheckboxMarked => nerd_font_symbols::md::MD_CHECKBOX_MARKED,
        Icon::MinusBox => nerd_font_symbols::md::MD_MINUS_BOX,
        Icon::FileDocumentEdit => nerd_font_symbols::md::MD_FILE_DOCUMENT_EDIT,
        Icon::FilePlus => nerd_font_symbols::md::MD_FILE_PLUS,
        Icon::FileRemove => nerd_font_symbols::md::MD_FILE_REMOVE,
        Icon::FileMove => nerd_font_symbols::md::MD_FILE_MOVE,
        Icon::FileSwap => nerd_font_symbols::md::MD_FILE_SWAP,
    }
}

/// The bright colours in which a status is printed.
#[derive(Clone, Copy, Debug, PartialEq, Eq, Structural)]
pub enum Bright {
    Black,
    Red,
    Green,
    Yellow,
    Blue,
    Magenta,
}

/// The escape code that switches the foreground to a bright colour.
pub open spec fn bright_code(color: Bright) -> Seq<char> {
    match color {
        Bright::Black => seq!['\u{1b}', '[', '9', '0', 'm'],
        Bright::Red => seq!['\u{1b}', '[', '9', '1', 'm'],
        Bright::Green => seq!['\u{1b}', '[', '9', '2', 'm'],
        Bright::Yellow => seq!['\u{1b}', '[', '9', '3', 'm'],
        Bright::Blue => seq!['\u{1b}', '[', '9', '4', 'm'],
        Bright::Magenta => seq!['\u{1b}', '[', '9', '5', 'm'],
    }
}

/// The escape code that switches the foreground back to its default.
pub open spec fn default_code() -> Seq<char> {
    seq!['\u{1b}', '[', '3', '9', 'm']
}

/// Text in a bright colour: the code of the colour, the text, and the code
/// that ends the colour.
pub open spec fn painted(text: Seq<char>, color: Bright) -> Seq<char> {
    bright_code(color) + text + default_code()
}

/// `OwoColorize::color` with one of the bright `AnsiColors`, formatted: the
/// text between the escape code of the colour and the code that sets the
/// foreground back.
#[verifier::external_body]
pub(crate) fn paint(text: &str, color: Bright) -> (s: String)
    ensures
        s@ == painted(text@, color),
{
    let ansi = match color {
        Bright::Black => owo_colors::AnsiColors::BrightBlack,
        Bright::Red => owo_colors::AnsiColors::BrightRed,
        Bright::Green => owo_colors::AnsiColors::BrightGreen,
        Bright::Yellow => owo_colors::AnsiColors::BrightYellow,
        Bright::Blue => owo_colors::AnsiColors::BrightBlue,
        Bright::Magenta => owo_colors::AnsiColors::BrightMagenta,
    };
    format!("{}", owo_colors::OwoColorize::color(&text, ansi))
}

/// `ratatui::style::Color`, a colour as the terminal library names it, with
/// its variants.
#[verifier::external_type_specification]
pub struct ExColor(ratatui::style::Color);

/// The shade that a colour of the terminal library stands for: the one of
/// the same name.
pub open spec fn spec_shade_of(color: ratatui::style::Color) -> Shade {
    match color {
        ratatui::style::Color::Reset => Shade::Reset,
        ratatui::style::Color::Black => Shade::Black,
        ratatui::style::Color::Red => Shade::Red,
        ratatui::style::Color::Green => Shade::Green,
        ratatui::style::Color::Yellow => Shade::Yellow,
        ratatui::style::Color::Blue => Shade::Blue,
        ratatui::style::Color::Magenta => Shade::Magenta,
        ratatui::style::Color::Cyan => Shade::Cyan,
        ratatui::style::Color::Gray => Shade::Gray,
        ratatui::style::Color::DarkGray => Shade::DarkGray,
        ratatui::style::Color::LightRed => Shade::LightRed,
        ratatui::style::Color::LightGreen => Shade::LightGreen,
        ratatui::style::Color::LightYellow => Shade::LightYellow,
        ratatui::style::Color::LightBlue => Shade::LightBlue,
        ratatui::style::Color::LightMagenta => Shade::LightMagenta,
        ratatui::style::Color::LightCyan => Shade::LightCyan,
        ratatui::style::Color::White => Shade::White,
        ratatui::style::Color::Rgb(r, g, b) => Shade::Rgb(r, g, b),
        ratatui::style::Color::Indexed(i) => Shade::Indexed(i),
    }
}

/// The shade that a colour of the terminal library stands for.
pub fn shade_of(color: ratatui::style::Color) -> (s: Shade)
    ensures
        s == spec_shade_of(color),
{
    match color {
        ratatui::style::Color::Reset => Shade::Reset,
        ratatui::style::Color::Black => Shade::Black,
        ratatui::style::Color::Red => Shade::Red,
        ratatui::style::Color::Green => Shade::Green,
        ratatui::style::Color::Yellow => Shade::Yellow,
        ratatui::style::Color::Blue => Shade::Blue,
        ratatui::style::Color::Magenta => Shade::Magenta,
        ratatui::style::Color::Cyan => Shade::Cyan,
        ratatui::style::Color::Gray => Shade::Gray,
        ratatui::style::Color::DarkGray => Shade::DarkGray,
        ratatui::style::Color::LightRed => Shade::LightRed,
        ratatui::style::Color::LightGreen => Shade::LightGreen,
        ratatui::style::Color::LightYellow => Shade::LightYellow,
        ratatui::style::Color::LightBlue => Shade::LightBlue,
        ratatui::style::Color::LightMagenta => Shade::LightMagenta,
        ratatui::style::Color::LightCyan => Shade::LightCyan,
        ratatui::style::Color::White => Shade::White,
        ratatui::style::Color::Rgb(r, g, b) => Shade::Rgb(r, g, b),
        ratatui::style::Color::Indexed(i) => Shade::Indexed(i),
    }
}

/// What the escape codes of a text make of it: its lines, each as spans with
/// the look that the codes before them set; nothing where the text cannot be
/// read.
pub uninterp spec fn ansi_lines(text: Seq<char>) -> Option<Seq<Seq<SpanView>>>;

/// Lines of spans, where there are any, as what they hold.
pub open spec fn lines_view(parsed: Option<Vec<Vec<Span>>>) -> Option<Seq<Seq<SpanView>>> {
    match parsed {
        Some(lines) => Some(lines.deep_view()),
        None => None,
    }
}

/// `IntoText::into_text` of `ansi_to_tui`, with each span's content and the
/// colours and modifiers of its style copied out.
#[verifier::external_body]
pub(crate) fn parse_ansi(text: &str) -> (r: Option<Vec<Vec<Span>>>)
    ensures
        lines_view(r) == ansi_lines(text@),
{
    let parsed = ansi_to_tui::IntoText::into_text(&text).ok()?;
    Some(parsed.lines.into_iter().map(|line| line.spans.into_iter().map(|span| Span {
        content: span.content.into_owned(),
        look: Look {
            fg: span.style.fg.map(shade_of),
            bg: span.style.bg.map(shade_of),
            add_modifier: span.style.add_modifier.bits(),
            sub_modifier: span.style.sub_modifier.bits(),
        },
    }).collect()).collect())
}

} // verus!
