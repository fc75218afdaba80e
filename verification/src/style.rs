//! Styles: how a text is colored, emphasized and aligned, and the text that
//! a terminal gets for it.

use crate::ansi::{
    escaped_after, lemma_plain_visible, lemma_read_concat, lemma_sequence_hidden,
    lemma_sgr_is_sequence, sgr, visible_from, visible_len, visible_length, write_sgr,
};
use crate::text::push_char;
use vstd::prelude::*;
use vstd::string::StringExecFns;

verus! {

/// The speed of text blinking for [`Style::blink`].
#[derive(Clone, Copy, Debug, PartialEq, Eq)]
pub enum Blink {
    /// Less than 150 times per minute.
    Slow,
    /// Greater than 150 times per minute.
    Rapid,
}

/// Alignment options for text.
#[derive(Clone, Copy, Debug, PartialEq, Eq)]
pub enum Align {
    /// Align text left.
    Left,
    /// Align text center.
    Center,
    /// Align text right.
    Right,
}

impl Default for Align {
    fn default() -> (r: Self)
        ensures
            r == Align::Left,
    {
        Align::Left
    }
}

/// A color of the terminal.
#[derive(Clone, Copy, Debug, PartialEq, Eq)]
pub enum Color {
    /// The terminal's default color.
    Reset,
    Black,
    DarkGrey,
    Red,
    DarkRed,
    Green,
    DarkGreen,
    Yellow,
    DarkYellow,
    Blue,
    DarkBlue,
    Magenta,
    DarkMagenta,
    Cyan,
    DarkCyan,
    White,
    Grey,
    /// A color by its red, green and blue parts.
    Rgb { r: u8, g: u8, b: u8 },
    /// A color by its number in the 256-color palette.
    AnsiValue(u8),
}

/// The number of a named color in the 16-color palette: the dark colors are
/// 0 to 7, the bright ones 8 to 15.
pub open spec fn palette_index(color: Color) -> Option<u8> {
    match color {
        Color::Black => Some(0u8),
        Color::DarkRed => Some(1u8),
        Color::DarkGreen => Some(2u8),
        Color::DarkYellow => Some(3u8),
        Color::DarkBlue => Some(4u8),
        Color::DarkMagenta => Some(5u8),
        Color::DarkCyan => Some(6u8),
        Color::Grey => Some(7u8),
        Color::DarkGrey => Some(8u8),
        Color::Red => Some(9u8),
        Color::Green => Some(10u8),
        Color::Yellow => Some(11u8),
        Color::Blue => Some(12u8),
        Color::Magenta => Some(13u8),
        Color::Cyan => Some(14u8),
        Color::White => Some(15u8),
        _ => None,
    }
}

/// What a color applies to.
pub ghost enum Layer {
    Text,
    Background,
    Underline,
}

/// The parameters that select `color` for `layer`.
///
/// A named color of the text is 30 to 37 (dark) or 90 to 97 (bright), of the
/// background ten more; the underline takes the palette number after `58;5`.
/// A color given by parts or by number follows `38`, `48` or `58`.
pub open spec fn color_parameters(layer: Layer, color: Color) -> Seq<u8> {
    let extended: u8 = match layer {
        Layer::Text => 38,
        Layer::Background => 48,
        Layer::Underline => 58,
    };
    match color {
        Color::Reset => match layer {
            Layer::Text => seq![0u8],
            Layer::Background => seq![49u8],
            Layer::Underline => seq![59u8],
        },
        Color::Rgb { r, g, b } => seq![extended, 2u8, r, g, b],
        Color::AnsiValue(v) => seq![extended, 5u8, v],
        _ => {
            let index = palette_index(color).unwrap();
            let base: u8 = if index < 8 {
                (30 + index) as u8
            } else {
                (82 + index) as u8
            };
            match layer {
                Layer::Text => seq![base],
                Layer::Background => seq![(base + 10) as u8],
                Layer::Underline => seq![58u8, 5u8, index],
            }
        },
    }
}

/// Write the ANSI code for text with the given color.
pub fn write_fg_color(f: &mut String, color: &Color)
    ensures
        final(f)@ == old(f)@ + sgr(color_parameters(Layer::Text, *color)),
{
    match color {
        Color::Reset => write_sgr(f, &[0]),
        Color::Black => write_sgr(f, &[30]),
        Color::DarkGrey => write_sgr(f, &[90]),
        Color::Red => write_sgr(f, &[91]),
        Color::DarkRed => write_sgr(f, &[31]),
        Color::Green => write_sgr(f, &[92]),
        Color::DarkGreen => write_sgr(f, &[32]),
        Color::Yellow => write_sgr(f, &[93]),
        Color::DarkYellow => write_sgr(f, &[33]),
        Color::Blue => write_sgr(f, &[94]),
        Color::DarkBlue => write_sgr(f, &[34]),
        Color::Magenta => write_sgr(f, &[95]),
        Color::DarkMagenta => write_sgr(f, &[35]),
        Color::Cyan => write_sgr(f, &[96]),
        Color::DarkCyan => write_sgr(f, &[36]),
        Color::White => write_sgr(f, &[97]),
        Color::Grey => write_sgr(f, &[37]),
        Color::Rgb { r, g, b } => write_sgr(f, &[38, 2, *r, *g, *b]),
        Color::AnsiValue(v) => write_sgr(f, &[38, 5, *v]),
    }
}

/// Write the ANSI code for a background with the given color.
pub fn write_bg_color(f: &mut String, color: &Color)
    ensures
        final(f)@ == old(f)@ + sgr(color_parameters(Layer::Background, *color)),
{
    match color {
        Color::Reset => write_sgr(f, &[49]),
        Color::Black => write_sgr(f, &[40]),
        Color::DarkGrey => write_sgr(f, &[100]),
        Color::Red => write_sgr(f, &[101]),
        Color::DarkRed => write_sgr(f, &[41]),
        Color::Green => write_sgr(f, &[102]),
        Color::DarkGreen => write_sgr(f, &[42]),
        Color::Yellow => write_sgr(f, &[103]),
        Color::DarkYellow => write_sgr(f, &[43]),
        Color::Blue => write_sgr(f, &[104]),
        Color::DarkBlue => write_sgr(f, &[44]),
        Color::Magenta => write_sgr(f, &[105]),
        Color::DarkMagenta => write_sgr(f, &[45]),
        Color::Cyan => write_sgr(f, &[106]),
        Color::DarkCyan => write_sgr(f, &[46]),
        Color::White => write_sgr(f, &[107]),
        Color::Grey => write_sgr(f, &[47]),
        Color::Rgb { r, g, b } => write_sgr(f, &[48, 2, *r, *g, *b]),
        Color::AnsiValue(v) => write_sgr(f, &[48, 5, *v]),
    }
}

/// Write the ANSI code for a underline with the given color.
pub fn write_underline_color(f: &mut String, color: &Color)
    ensures
        final(f)@ == old(f)@ + sgr(color_parameters(Layer::Underline, *color)),
{
    match color {
        Color::Reset => write_sgr(f, &[59]),
        Color::Black => write_sgr(f, &[58, 5, 0]),
        Color::DarkGrey => write_sgr(f, &[58, 5, 8]),
        Color::Red => write_sgr(f, &[58, 5, 9]),
        Color::DarkRed => write_sgr(f, &[58, 5, 1]),
        Color::Green => write_sgr(f, &[58, 5, 10]),
        Color::DarkGreen => write_sgr(f, &[58, 5, 2]),
        Color::Yellow => write_sgr(f, &[58, 5, 11]),
        Color::DarkYellow => write_sgr(f, &[58, 5, 3]),
        Color::Blue => write_sgr(f, &[58, 5, 12]),
        Color::DarkBlue => write_sgr(f, &[58, 5, 4]),
        Color::Magenta => write_sgr(f, &[58, 5, 13]),
        Color::DarkMagenta => write_sgr(f, &[58, 5, 5]),
        Color::Cyan => write_sgr(f, &[58, 5, 14]),
        Color::DarkCyan => write_sgr(f, &[58, 5, 6]),
        Color::White => write_sgr(f, &[58, 5, 15]),
        Color::Grey => write_sgr(f, &[58, 5, 7]),
        Color::Rgb { r, g, b } => write_sgr(f, &[58, 2, *r, *g, *b]),
        Color::AnsiValue(v) => write_sgr(f, &[58, 5, *v]),
    }
}

/// Change how the text is displayed to the user.
#[derive(Clone, Copy, Debug)]
pub struct Style {
    fg: Option<Color>,
    bg: Option<Color>,
    bold: bool,
    dim: bool,
    italic: bool,
    underline: bool,
    underline_color: Option<Color>,
    blink: Option<Blink>,
    reverse: bool,
    crossed_out: bool,
    align: Align,
}

/// What a [`Style`] holds.
pub ghost struct Attributes {
    pub fg: Option<Color>,
    pub bg: Option<Color>,
    pub bold: bool,
    pub dim: bool,
    pub italic: bool,
    pub underline: bool,
    pub underline_color: Option<Color>,
    pub blink: Option<Blink>,
    pub reverse: bool,
    pub crossed_out: bool,
    pub align: Align,
}

impl View for Style {
    type V = Attributes;

    closed spec fn view(&self) -> Attributes {
        Attributes {
            fg: self.fg,
            bg: self.bg,
            bold: self.bold,
            dim: self.dim,
            italic: self.italic,
            underline: self.underline,
            underline_color: self.underline_color,
            blink: self.blink,
            reverse: self.reverse,
            crossed_out: self.crossed_out,
            align: self.align,
        }
    }
}

impl Default for Style {
    fn default() -> (r: Self)
        ensures
            r@ == plain(),
    {
        Style::new()
    }
}

/// The style that changes nothing: no color, no attribute, text to the left.
pub open spec fn plain() -> Attributes {
    Attributes {
        fg: None,
        bg: None,
        bold: false,
        dim: false,
        italic: false,
        underline: false,
        underline_color: None,
        blink: None,
        reverse: false,
        crossed_out: false,
        align: Align::Left,
    }
}

/// The sequence with the one parameter `code` if `on`, else nothing.
pub open spec fn attribute_code(on: bool, code: u8) -> Seq<char> {
    if on {
        sgr(seq![code])
    } else {
        Seq::empty()
    }
}

/// The sequence that starts the blinking, if any.
pub open spec fn blink_code(blink: Option<Blink>) -> Seq<char> {
    match blink {
        Some(Blink::Slow) => sgr(seq![5u8]),
        Some(Blink::Rapid) => sgr(seq![6u8]),
        None => Seq::empty(),
    }
}

/// The sequence that selects the color of a layer, if one is set.
pub open spec fn color_code(layer: Layer, color: Option<Color>) -> Seq<char> {
    match color {
        Some(c) => sgr(color_parameters(layer, c)),
        None => Seq::empty(),
    }
}

/// The sequences that switch a style on, in the order in which they are written.
pub open spec fn opening(a: Attributes) -> Seq<char> {
    attribute_code(a.bold, 1) + attribute_code(a.dim, 2) + attribute_code(a.italic, 3)
        + attribute_code(a.underline, 4) + blink_code(a.blink) + attribute_code(a.reverse, 7)
        + attribute_code(a.crossed_out, 9) + color_code(Layer::Text, a.fg) + color_code(
        Layer::Background,
        a.bg,
    ) + color_code(Layer::Underline, a.underline_color)
}

/// Whether a text of `len` visible characters can be aligned in `cols` columns.
pub open spec fn fits(align: Align, len: nat, cols: nat) -> bool {
    match align {
        Align::Left => true,
        Align::Center => len / 2 <= cols / 2,
        Align::Right => len <= cols,
    }
}

/// The number of spaces that stand before a text of `len` visible characters
/// in a terminal of `cols` columns.
pub open spec fn indent(align: Align, len: nat, cols: nat) -> nat {
    match align {
        Align::Left => 0,
        Align::Center => (cols / 2 - len / 2) as nat,
        Align::Right => (cols - len) as nat,
    }
}

/// `n` spaces.
pub open spec fn spaces(n: nat) -> Seq<char> {
    Seq::new(n, |i: int| ' ')
}

/// A text as a style shows it in a terminal of `cols` columns: the opening
/// sequences, the indent, the text, and the sequence that resets the style.
pub open spec fn rendered(a: Attributes, text: Seq<char>, cols: nat) -> Seq<char> {
    opening(a) + spaces(indent(a.align, visible_len(text), cols)) + text + sgr(seq![0u8])
}

/// Write `n` spaces.
fn write_spaces(f: &mut String, n: usize)
    ensures
        final(f)@ == old(f)@ + spaces(n as nat),
{
    let mut i: usize = 0;
    while i < n
        invariant
            i <= n,
            f@ == old(f)@ + spaces(i as nat),
        decreases n - i,
    {
        push_char(f, ' ');
        i += 1;
    }
}

impl Style {
    /// Create a new style with default values.
    pub fn new() -> (r: Self)
        ensures
            r@ == plain(),
    {
        Self {
            fg: None,
            bg: None,
            bold: false,
            dim: false,
            italic: false,
            underline: false,
            underline_color: None,
            blink: None,
            reverse: false,
            crossed_out: false,
            align: Align::Left,
        }
    }

    /// Set the color of the text.
    pub fn fg(self, color: Color) -> (r: Self)
        ensures
            r@ == (Attributes { fg: Some(color), ..self@ }),
    {
        Self { fg: Some(color), ..self }
    }

    /// Set the color of the background.
    pub fn bg(self, color: Color) -> (r: Self)
        ensures
            r@ == (Attributes { bg: Some(color), ..self@ }),
    {
        Self { bg: Some(color), ..self }
    }

    /// Set the color of the underline, and underline the text.
    pub fn underline_color(self, color: Color) -> (r: Self)
        ensures
            r@ == (Attributes { underline: true, underline_color: Some(color), ..self@ }),
    {
        Self { underline: true, underline_color: Some(color), ..self }
    }

    /// Enable blinking and set its speed.
    ///
    /// See [`Style::slow_blink`] and [`Style::rapid_blink`] for shorthands.
    pub fn blink(self, blink: Blink) -> (r: Self)
        ensures
            r@ == (Attributes { blink: Some(blink), ..self@ }),
    {
        Self { blink: Some(blink), ..self }
    }

    /// Set the alignment of the text.
    ///
    /// See [`Style::left`], [`Style::center`] and [`Style::right`] for shorthands.
    pub fn align(self, align: Align) -> (r: Self)
        ensures
            r@ == (Attributes { align: align, ..self@ }),
    {
        Self { align: align, ..self }
    }

    /// Align the text to the left.
    pub fn left(self) -> (r: Self)
        ensures
            r@ == (Attributes { align: Align::Left, ..self@ }),
    {
        Self { align: Align::Left, ..self }
    }

    /// Align the text in the center.
    pub fn center(self) -> (r: Self)
        ensures
            r@ == (Attributes { align: Align::Center, ..self@ }),
    {
        Self { align: Align::Center, ..self }
    }

    /// Align the text to the right.
    pub fn right(self) -> (r: Self)
        ensures
            r@ == (Attributes { align: Align::Right, ..self@ }),
    {
        Self { align: Align::Right, ..self }
    }

    /// Make the text bold.
    pub fn bold(self) -> (r: Self)
        ensures
            r@ == (Attributes { bold: true, ..self@ }),
    {
        Self { bold: true, ..self }
    }

    /// Make the text dim.
    pub fn dim(self) -> (r: Self)
        ensures
            r@ == (Attributes { dim: true, ..self@ }),
    {
        Self { dim: true, ..self }
    }

    /// Make the text italic.
    pub fn italic(self) -> (r: Self)
        ensures
            r@ == (Attributes { italic: true, ..self@ }),
    {
        Self { italic: true, ..self }
    }

    /// Underline the text.
    pub fn underline(self) -> (r: Self)
        ensures
            r@ == (Attributes { underline: true, ..self@ }),
    {
        Self { underline: true, ..self }
    }

    /// Blink the text slowly.
    pub fn slow_blink(self) -> (r: Self)
        ensures
            r@ == (Attributes { blink: Some(Blink::Slow), ..self@ }),
    {
        Self { blink: Some(Blink::Slow), ..self }
    }

    /// Blink the text rapidly.
    pub fn rapid_blink(self) -> (r: Self)
        ensures
            r@ == (Attributes { blink: Some(Blink::Rapid), ..self@ }),
    {
        Self { blink: Some(Blink::Rapid), ..self }
    }

    /// Swap the text and background colors.
    pub fn reverse(self) -> (r: Self)
        ensures
            r@ == (Attributes { reverse: true, ..self@ }),
    {
        Self { reverse: true, ..self }
    }

    /// Cross the text.
    pub fn crossed_out(self) -> (r: Self)
        ensures
            r@ == (Attributes { crossed_out: true, ..self@ }),
    {
        Self { crossed_out: true, ..self }
    }

    /// Set the text color to black.
    pub fn black(self) -> (r: Self)
        ensures
            r@ == (Attributes { fg: Some(Color::Black), ..self@ }),
    {
        Self { fg: Some(Color::Black), ..self }
    }

    /// Set the text color to dark grey.
    pub fn dark_grey(self) -> (r: Self)
        ensures
            r@ == (Attributes { fg: Some(Color::DarkGrey), ..self@ }),
    {
        Self { fg: Some(Color::DarkGrey), ..self }
    }

    /// Set the text color to red.
    pub fn red(self) -> (r: Self)
        ensures
            r@ == (Attributes { fg: Some(Color::Red), ..self@ }),
    {
        Self { fg: Some(Color::Red), ..self }
    }

    /// Set the text color to dark red.
    pub fn dark_red(self) -> (r: Self)
        ensures
            r@ == (Attributes { fg: Some(Color::DarkRed), ..self@ }),
    {
        Self { fg: Some(Color::DarkRed), ..self }
    }

    /// Set the text color to green.
    pub fn green(self) -> (r: Self)
        ensures
            r@ == (Attributes { fg: Some(Color::Green), ..self@ }),
    {
        Self { fg: Some(Color::Green), ..self }
    }

    /// Set the text color to dark green.
    pub fn dark_green(self) -> (r: Self)
        ensures
            r@ == (Attributes { fg: Some(Color::DarkGreen), ..self@ }),
    {
        Self { fg: Some(Color::DarkGreen), ..self }
    }

    /// Set the text color to yellow.
    pub fn yellow(self) -> (r: Self)
        ensures
            r@ == (Attributes { fg: Some(Color::Yellow), ..self@ }),
    {
        Self { fg: Some(Color::Yellow), ..self }
    }

    /// Set the text color to dark yellow.
    pub fn dark_yellow(self) -> (r: Self)
        ensures
            r@ == (Attributes { fg: Some(Color::DarkYellow), ..self@ }),
    {
        Self { fg: Some(Color::DarkYellow), ..self }
    }

    /// Set the text color to blue.
    pub fn blue(self) -> (r: Self)
        ensures
            r@ == (Attributes { fg: Some(Color::Blue), ..self@ }),
    {
        Self { fg: Some(Color::Blue), ..self }
    }

    /// Set the text color to dark blue.
    pub fn dark_blue(self) -> (r: Self)
        ensures
            r@ == (Attributes { fg: Some(Color::DarkBlue), ..self@ }),
    {
        Self { fg: Some(Color::DarkBlue), ..self }
    }

    /// Set the text color to magenta.
    pub fn magenta(self) -> (r: Self)
        ensures
            r@ == (Attributes { fg: Some(Color::Magenta), ..self@ }),
    {
        Self { fg: Some(Color::Magenta), ..self }
    }

    /// Set the text color to dark magenta.
    pub fn dark_magenta(self) -> (r: Self)
        ensures
            r@ == (Attributes { fg: Some(Color::DarkMagenta), ..self@ }),
    {
        Self { fg: Some(Color::DarkMagenta), ..self }
    }

    /// Set the text color to cyan.
    pub fn cyan(self) -> (r: Self)
        ensures
            r@ == (Attributes { fg: Some(Color::Cyan), ..self@ }),
    {
        Self { fg: Some(Color::Cyan), ..self }
    }

    /// Set the text color to dark cyan.
    pub fn dark_cyan(self) -> (r: Self)
        ensures
            r@ == (Attributes { fg: Some(Color::DarkCyan), ..self@ }),
    {
        Self { fg: Some(Color::DarkCyan), ..self }
    }

    /// Set the text color to white.
    pub fn white(self) -> (r: Self)
        ensures
            r@ == (Attributes { fg: Some(Color::White), ..self@ }),
    {
        Self { fg: Some(Color::White), ..self }
    }

    /// Set the text color to grey.
    pub fn grey(self) -> (r: Self)
        ensures
            r@ == (Attributes { fg: Some(Color::Grey), ..self@ }),
    {
        Self { fg: Some(Color::Grey), ..self }
    }

    /// Set the color to black. Like [`Style::black`], this sets the color of the text:
    /// the background is set by [`Style::bg`].
    pub fn on_black(self) -> (r: Self)
        ensures
            r@ == (Attributes { fg: Some(Color::Black), ..self@ }),
    {
        Self { fg: Some(Color::Black), ..self }
    }

    /// Set the color to dark grey. Like [`Style::dark_grey`], this sets the color of the text:
    /// the background is set by [`Style::bg`].
    pub fn on_dark_grey(self) -> (r: Self)
        ensures
            r@ == (Attributes { fg: Some(Color::DarkGrey), ..self@ }),
    {
        Self { fg: Some(Color::DarkGrey), ..self }
    }

    /// Set the color to red. Like [`Style::red`], this sets the color of the text:
    /// the background is set by [`Style::bg`].
    pub fn on_red(self) -> (r: Self)
        ensures
            r@ == (Attributes { fg: Some(Color::Red), ..self@ }),
    {
        Self { fg: Some(Color::Red), ..self }
    }

    /// Set the color to dark red. Like [`Style::dark_red`], this sets the color of the text:
    /// the background is set by [`Style::bg`].
    pub fn on_dark_red(self) -> (r: Self)
        ensures
            r@ == (Attributes { fg: Some(Color::DarkRed), ..self@ }),
    {
        Self { fg: Some(Color::DarkRed), ..self }
    }

    /// Set the color to green. Like [`Style::green`], this sets the color of the text:
    /// the background is set by [`Style::bg`].
    pub fn on_green(self) -> (r: Self)
        ensures
            r@ == (Attributes { fg: Some(Color::Green), ..self@ }),
    {
        Self { fg: Some(Color::Green), ..self }
    }

    /// Set the color to dark green. Like [`Style::dark_green`], this sets the color of the text:
    /// the background is set by [`Style::bg`].
    pub fn on_dark_green(self) -> (r: Self)
        ensures
            r@ == (Attributes { fg: Some(Color::DarkGreen), ..self@ }),
    {
        Self { fg: Some(Color::DarkGreen), ..self }
    }

    /// Set the color to yellow. Like [`Style::yellow`], this sets the color of the text:
    /// the background is set by [`Style::bg`].
    pub fn on_yellow(self) -> (r: Self)
        ensures
            r@ == (Attributes { fg: Some(Color::Yellow), ..self@ }),
    {
        Self { fg: Some(Color::Yellow), ..self }
    }

    /// Set the color to dark yellow. Like [`Style::dark_yellow`], this sets the color of the text:
    /// the background is set by [`Style::bg`].
    pub fn on_dark_yellow(self) -> (r: Self)
        ensures
            r@ == (Attributes { fg: Some(Color::DarkYellow), ..self@ }),
    {
        Self { fg: Some(Color::DarkYellow), ..self }
    }

    /// Set the color to blue. Like [`Style::blue`], this sets the color of the text:
    /// the background is set by [`Style::bg`].
    pub fn on_blue(self) -> (r: Self)
        ensures
            r@ == (Attributes { fg: Some(Color::Blue), ..self@ }),
    {
        Self { fg: Some(Color::Blue), ..self }
    }

    /// Set the color to dark blue. Like [`Style::dark_blue`], this sets the color of the text:
    /// the background is set by [`Style::bg`].
    pub fn on_dark_blue(self) -> (r: Self)
        ensures
            r@ == (Attributes { fg: Some(Color::DarkBlue), ..self@ }),
    {
        Self { fg: Some(Color::DarkBlue), ..self }
    }

    /// Set the color to magenta. Like [`Style::magenta`], this sets the color of the text:
    /// the background is set by [`Style::bg`].
    pub fn on_magenta(self) -> (r: Self)
        ensures
            r@ == (Attributes { fg: Some(Color::Magenta), ..self@ }),
    {
        Self { fg: Some(Color::Magenta), ..self }
    }

    /// Set the color to dark magenta. Like [`Style::dark_magenta`], this sets the color of the text:
    /// the background is set by [`Style::bg`].
    pub fn on_dark_magenta(self) -> (r: Self)
        ensures
            r@ == (Attributes { fg: Some(Color::DarkMagenta), ..self@ }),
    {
        Self { fg: Some(Color::DarkMagenta), ..self }
    }

    /// Set the color to cyan. Like [`Style::cyan`], this sets the color of the text:
    /// the background is set by [`Style::bg`].
    pub fn on_cyan(self) -> (r: Self)
        ensures
            r@ == (Attributes { fg: Some(Color::Cyan), ..self@ }),
    {
        Self { fg: Some(Color::Cyan), ..self }
    }

    /// Set the color to dark cyan. Like [`Style::dark_cyan`], this sets the color of the text:
    /// the background is set by [`Style::bg`].
    pub fn on_dark_cyan(self) -> (r: Self)
        ensures
            r@ == (Attributes { fg: Some(Color::DarkCyan), ..self@ }),
    {
        Self { fg: Some(Color::DarkCyan), ..self }
    }

    /// Set the color to white. Like [`Style::white`], this sets the color of the text:
    /// the background is set by [`Style::bg`].
    pub fn on_white(self) -> (r: Self)
        ensures
            r@ == (Attributes { fg: Some(Color::White), ..self@ }),
    {
        Self { fg: Some(Color::White), ..self }
    }

    /// Set the color to grey. Like [`Style::grey`], this sets the color of the text:
    /// the background is set by [`Style::bg`].
    pub fn on_grey(self) -> (r: Self)
        ensures
            r@ == (Attributes { fg: Some(Color::Grey), ..self@ }),
    {
        Self { fg: Some(Color::Grey), ..self }
    }

    /// Set the underline color to black. The text is underlined only if
    /// [`Style::underline`] says so.
    pub fn underline_black(self) -> (r: Self)
        ensures
            r@ == (Attributes { underline_color: Some(Color::Black), ..self@ }),
    {
        Self { underline_color: Some(Color::Black), ..self }
    }

    /// Set the underline color to dark grey. The text is underlined only if
    /// [`Style::underline`] says so.
    pub fn underline_dark_grey(self) -> (r: Self)
        ensures
            r@ == (Attributes { underline_color: Some(Color::DarkGrey), ..self@ }),
    {
        Self { underline_color: Some(Color::DarkGrey), ..self }
    }

    /// Set the underline color to red. The text is underlined only if
    /// [`Style::underline`] says so.
    pub fn underline_red(self) -> (r: Self)
        ensures
            r@ == (Attributes { underline_color: Some(Color::Red), ..self@ }),
    {
        Self { underline_color: Some(Color::Red), ..self }
    }

    /// Set the underline color to dark red. The text is underlined only if
    /// [`Style::underline`] says so.
    pub fn underline_dark_red(self) -> (r: Self)
        ensures
            r@ == (Attributes { underline_color: Some(Color::DarkRed), ..self@ }),
    {
        Self { underline_color: Some(Color::DarkRed), ..self }
    }

    /// Set the underline color to green. The text is underlined only if
    /// [`Style::underline`] says so.
    pub fn underline_green(self) -> (r: Self)
        ensures
            r@ == (Attributes { underline_color: Some(Color::Green), ..self@ }),
    {
        Self { underline_color: Some(Color::Green), ..self }
    }

    /// Set the underline color to dark green. The text is underlined only if
    /// [`Style::underline`] says so.
    pub fn underline_dark_green(self) -> (r: Self)
        ensures
            r@ == (Attributes { underline_color: Some(Color::DarkGreen), ..self@ }),
    {
        Self { underline_color: Some(Color::DarkGreen), ..self }
    }

    /// Set the underline color to yellow. The text is underlined only if
    /// [`Style::underline`] says so.
    pub fn underline_yellow(self) -> (r: Self)
        ensures
            r@ == (Attributes { underline_color: Some(Color::Yellow), ..self@ }),
    {
        Self { underline_color: Some(Color::Yellow), ..self }
    }

    /// Set the underline color to dark yellow. The text is underlined only if
    /// [`Style::underline`] says so.
    pub fn underline_dark_yellow(self) -> (r: Self)
        ensures
            r@ == (Attributes { underline_color: Some(Color::DarkYellow), ..self@ }),
    {
        Self { underline_color: Some(Color::DarkYellow), ..self }
    }

    /// Set the underline color to blue. The text is underlined only if
    /// [`Style::underline`] says so.
    pub fn underline_blue(self) -> (r: Self)
        ensures
            r@ == (Attributes { underline_color: Some(Color::Blue), ..self@ }),
    {
        Self { underline_color: Some(Color::Blue), ..self }
    }

    /// Set the underline color to dark blue. The text is underlined only if
    /// [`Style::underline`] says so.
    pub fn underline_dark_blue(self) -> (r: Self)
        ensures
            r@ == (Attributes { underline_color: Some(Color::DarkBlue), ..self@ }),
    {
        Self { underline_color: Some(Color::DarkBlue), ..self }
    }

    /// Set the underline color to magenta. The text is underlined only if
    /// [`Style::underline`] says so.
    pub fn underline_magenta(self) -> (r: Self)
        ensures
            r@ == (Attributes { underline_color: Some(Color::Magenta), ..self@ }),
    {
        Self { underline_color: Some(Color::Magenta), ..self }
    }

    /// Set the underline color to dark magenta. The text is underlined only if
    /// [`Style::underline`] says so.
    pub fn underline_dark_magenta(self) -> (r: Self)
        ensures
            r@ == (Attributes { underline_color: Some(Color::DarkMagenta), ..self@ }),
    {
        Self { underline_color: Some(Color::DarkMagenta), ..self }
    }

    /// Set the underline color to cyan. The text is underlined only if
    /// [`Style::underline`] says so.
    pub fn underline_cyan(self) -> (r: Self)
        ensures
            r@ == (Attributes { underline_color: Some(Color::Cyan), ..self@ }),
    {
        Self { underline_color: Some(Color::Cyan), ..self }
    }

    /// Set the underline color to dark cyan. The text is underlined only if
    /// [`Style::underline`] says so.
    pub fn underline_dark_cyan(self) -> (r: Self)
        ensures
            r@ == (Attributes { underline_color: Some(Color::DarkCyan), ..self@ }),
    {
        Self { underline_color: Some(Color::DarkCyan), ..self }
    }

    /// Set the underline color to white. The text is underlined only if
    /// [`Style::underline`] says so.
    pub fn underline_white(self) -> (r: Self)
        ensures
            r@ == (Attributes { underline_color: Some(Color::White), ..self@ }),
    {
        Self { underline_color: Some(Color::White), ..self }
    }

    /// Set the underline color to grey. The text is underlined only if
    /// [`Style::underline`] says so.
    pub fn underline_grey(self) -> (r: Self)
        ensures
            r@ == (Attributes { underline_color: Some(Color::Grey), ..self@ }),
    {
        Self { underline_color: Some(Color::Grey), ..self }
    }

    /// Whether `text` can be aligned in `cols` columns as this style asks:
    /// whether [`Style::render`] can be called.
    pub fn fits(&self, text: &str, cols: usize) -> (r: bool)
        ensures
            r == fits(self@.align, visible_len(text@), cols as nat),
    {
        let len = visible_length(text);
        match self.align {
            Align::Left => true,
            Align::Center => len / 2 <= cols / 2,
            Align::Right => len <= cols,
        }
    }

    /// Render text with this style, for a terminal that is `cols` columns wide.
    pub fn render(&self, text: &str, cols: usize) -> (result: String)
        requires
            fits(self@.align, visible_len(text@), cols as nat),
        ensures
            result@ == rendered(self@, text@, cols as nat),
    {
        let mut result = String::new();

        if self.bold {
            write_sgr(&mut result, &[1]);
        }
        if self.dim {
            write_sgr(&mut result, &[2]);
        }
        if self.italic {
            write_sgr(&mut result, &[3]);
        }
        if self.underline {
            write_sgr(&mut result, &[4]);
        }
        if let Some(speed) = &self.blink {
            match speed {
                Blink::Slow => write_sgr(&mut result, &[5]),
                Blink::Rapid => write_sgr(&mut result, &[6]),
            }
        }
        if self.reverse {
            write_sgr(&mut result, &[7]);
        }
        if self.crossed_out {
            write_sgr(&mut result, &[9]);
        }

        if let Some(color) = &self.fg {
            write_fg_color(&mut result, color);
        }
        if let Some(color) = &self.bg {
            write_bg_color(&mut result, color);
        }
        if let Some(color) = &self.underline_color {
            write_underline_color(&mut result, color);
        }
        let len = visible_length(text);

        match self.align {
            Align::Left => {},
            Align::Center => write_spaces(&mut result, cols / 2 - len / 2),
            Align::Right => write_spaces(&mut result, cols - len),
        }
        result.append(text);
        write_sgr(&mut result, &[0]);
        result
    }
}

/// Whether reading `s` from outside shows nothing and ends outside.
spec fn hidden(s: Seq<char>) -> bool {
    !escaped_after(false, s) && visible_from(false, s) == 0
}

/// A hidden text stays hidden when a control sequence, or nothing, follows it.
proof fn lemma_hidden_extended(a: Seq<char>, on: bool, ps: Seq<u8>)
    requires
        hidden(a),
    ensures
        hidden(
            a + if on {
                sgr(ps)
            } else {
                Seq::empty()
            },
        ),
{
    if on {
        lemma_sgr_is_sequence(ps);
        lemma_read_concat(false, a, sgr(ps));
        lemma_sequence_hidden(false, sgr(ps));
    }
}

/// The sequence of the blinking is `5` or `6`, or nothing.
proof fn lemma_hidden_blink(a: Seq<char>, blink: Option<Blink>)
    requires
        hidden(a),
    ensures
        hidden(a + blink_code(blink)),
{
    match blink {
        Some(Blink::Slow) => lemma_hidden_extended(a, true, seq![5u8]),
        Some(Blink::Rapid) => lemma_hidden_extended(a, true, seq![6u8]),
        None => lemma_hidden_extended(a, false, seq![5u8]),
    }
}

/// The sequence of a color is a control sequence, or nothing.
proof fn lemma_hidden_color(a: Seq<char>, layer: Layer, color: Option<Color>)
    requires
        hidden(a),
    ensures
        hidden(a + color_code(layer, color)),
{
    match color {
        Some(c) => lemma_hidden_extended(a, true, color_parameters(layer, c)),
        None => lemma_hidden_extended(a, false, seq![0u8]),
    }
}

/// The opening of a style shows nothing and leaves the reader outside.
pub proof fn lemma_opening_hidden(a: Attributes)
    ensures
        !escaped_after(false, opening(a)),
        visible_from(false, opening(a)) == 0,
{
    let s0 = Seq::<char>::empty();
    let s1 = s0 + attribute_code(a.bold, 1);
    let s2 = s1 + attribute_code(a.dim, 2);
    let s3 = s2 + attribute_code(a.italic, 3);
    let s4 = s3 + attribute_code(a.underline, 4);
    let s5 = s4 + blink_code(a.blink);
    let s6 = s5 + attribute_code(a.reverse, 7);
    let s7 = s6 + attribute_code(a.crossed_out, 9);
    let s8 = s7 + color_code(Layer::Text, a.fg);
    let s9 = s8 + color_code(Layer::Background, a.bg);
    let s10 = s9 + color_code(Layer::Underline, a.underline_color);
    assert(hidden(s1)) by {
        lemma_hidden_extended(s0, a.bold, seq![1u8]);
    }
    assert(hidden(s2)) by {
        lemma_hidden_extended(s1, a.dim, seq![2u8]);
    }
    assert(hidden(s3)) by {
        lemma_hidden_extended(s2, a.italic, seq![3u8]);
    }
    assert(hidden(s4)) by {
        lemma_hidden_extended(s3, a.underline, seq![4u8]);
    }
    assert(hidden(s5)) by {
        lemma_hidden_blink(s4, a.blink);
    }
    assert(hidden(s6)) by {
        lemma_hidden_extended(s5, a.reverse, seq![7u8]);
    }
    assert(hidden(s7)) by {
        lemma_hidden_extended(s6, a.crossed_out, seq![9u8]);
    }
    assert(hidden(s8)) by {
        lemma_hidden_color(s7, Layer::Text, a.fg);
    }
    assert(hidden(s9)) by {
        lemma_hidden_color(s8, Layer::Background, a.bg);
    }
    assert(hidden(s10)) by {
        lemma_hidden_color(s9, Layer::Underline, a.underline_color);
    }
}

/// A rendered text shows its indent and what the text itself shows: of the
/// sequences that the style adds, however many they are, nothing is counted.
pub proof fn law_rendered_visible(a: Attributes, text: Seq<char>, cols: nat)
    ensures
        visible_len(rendered(a, text, cols)) == indent(a.align, visible_len(text), cols)
            + visible_len(text),
{
    let pad = spaces(indent(a.align, visible_len(text), cols));
    let reset = sgr(seq![0u8]);
    lemma_opening_hidden(a);
    lemma_plain_visible(pad);
    lemma_read_concat(false, opening(a), pad);
    lemma_read_concat(false, opening(a) + pad, text);
    lemma_sgr_is_sequence(seq![0u8]);
    lemma_sequence_hidden(escaped_after(false, opening(a) + pad + text), reset);
    lemma_read_concat(false, opening(a) + pad + text, reset);
}

} // verus!
