//! Terminal styling sequences embedded in displayed names.
use vstd::prelude::*;

verus! {

/// The styles that displayed names and cells use.
#[derive(Debug, Clone, Copy, PartialEq, Eq, Structural)]
pub enum Style {
    Bold,
    Red,
    Green,
    Yellow,
    Blue,
    Cyan,
    Reset,
}

/// The escape sequence of a style: ESC `[` code `m`, with code 1 for bold,
/// 31 to 36 for the colors and 39 for the default color.
pub open spec fn ansi(s: Style) -> Seq<char> {
    match s {
        Style::Bold => seq!['\x1b', '[', '1', 'm'],
        Style::Red => seq!['\x1b', '[', '3', '1', 'm'],
        Style::Green => seq!['\x1b', '[', '3', '2', 'm'],
        Style::Yellow => seq!['\x1b', '[', '3', '3', 'm'],
        Style::Blue => seq!['\x1b', '[', '3', '4', 'm'],
        Style::Cyan => seq!['\x1b', '[', '3', '6', 'm'],
        Style::Reset => seq!['\x1b', '[', '3', '9', 'm'],
    }
}

/// Relies on `inline_colorization::style_bold`, the sequence [`ansi`] gives for
/// `Style::Bold`.
#[verifier::external_body]
fn style_bold() -> (r: &'static str)
    ensures
        r@ == ansi(Style::Bold),
{
    inline_colorization::style_bold
}

/// Relies on `inline_colorization::color_red`, the sequence [`ansi`] gives for
/// `Style::Red`.
#[verifier::external_body]
fn color_red() -> (r: &'static str)
    ensures
        r@ == ansi(Style::Red),
{
    inline_colorization::color_red
}

/// Relies on `inline_colorization::color_green`, the sequence [`ansi`] gives for
/// `Style::Green`.
#[verifier::external_body]
fn color_green() -> (r: &'static str)
    ensures
        r@ == ansi(Style::Green),
{
    inline_colorization::color_green
}

/// Relies on `inline_colorization::color_yellow`, the sequence [`ansi`] gives for
/// `Style::Yellow`.
#[verifier::external_body]
fn color_yellow() -> (r: &'static str)
    ensures
        r@ == ansi(Style::Yellow),
{
    inline_colorization::color_yellow
}

/// Relies on `inline_colorization::color_blue`, the sequence [`ansi`] gives for
/// `Style::Blue`.
#[verifier::external_body]
fn color_blue() -> (r: &'static str)
    ensures
        r@ == ansi(Style::Blue),
{
    inline_colorization::color_blue
}

/// Relies on `inline_colorization::color_cyan`, the sequence [`ansi`] gives for
/// `Style::Cyan`.
#[verifier::external_body]
fn color_cyan() -> (r: &'static str)
    ensures
        r@ == ansi(Style::Cyan),
{
    inline_colorization::color_cyan
}

/// Relies on `inline_colorization::color_reset`, the sequence [`ansi`] gives for
/// `Style::Reset`.
#[verifier::external_body]
fn color_reset() -> (r: &'static str)
    ensures
        r@ == ansi(Style::Reset),
{
    inline_colorization::color_reset
}

/// The escape sequence that switches to `s`.
pub fn style_code(s: Style) -> (r: &'static str)
    ensures
        r@ == ansi(s),
{
    match s {
        Style::Bold => style_bold(),
        Style::Red => color_red(),
        Style::Green => color_green(),
        Style::Yellow => color_yellow(),
        Style::Blue => color_blue(),
        Style::Cyan => color_cyan(),
        Style::Reset => color_reset(),
    }
}

} // verus!
