//! Colour-painted text: each function wraps a piece of text in the ANSI
//! control sequences of one fixed style, exactly as the terminal-colour
//! crate emits them.

use vstd::prelude::*;
use crate::decimal::decimal_digits;

verus! {

/// The control sequence that returns the terminal to its default style.
pub open spec fn sgr_reset() -> Seq<char> {
    seq!['\u{1b}', '[', '0', 'm']
}

/// Text wrapped in the 256-colour-palette foreground sequence for the given
/// colour number.
pub open spec fn fixed_paint(colour: u8, text: Seq<char>) -> Seq<char> {
    seq!['\u{1b}', '[', '3', '8', ';', '5', ';'] + decimal_digits(colour as nat) + seq!['m']
        + text + sgr_reset()
}

/// Text wrapped in the green-foreground sequence.
pub open spec fn green_paint(text: Seq<char>) -> Seq<char> {
    seq!['\u{1b}', '[', '3', '2', 'm'] + text + sgr_reset()
}

/// Text wrapped in the red-foreground sequence.
pub open spec fn red_paint(text: Seq<char>) -> Seq<char> {
    seq!['\u{1b}', '[', '3', '1', 'm'] + text + sgr_reset()
}

/// Text wrapped in the yellow-foreground sequence.
pub open spec fn yellow_paint(text: Seq<char>) -> Seq<char> {
    seq!['\u{1b}', '[', '3', '3', 'm'] + text + sgr_reset()
}

/// Text wrapped in the bold, white-foreground sequence.
pub open spec fn white_bold_paint(text: Seq<char>) -> Seq<char> {
    seq!['\u{1b}', '[', '1', ';', '3', '7', 'm'] + text + sgr_reset()
}

/// Relies on `ansi_term::Colour::Fixed(..).paint` and the `Display` of the
/// painted string: the prefix `ESC [ 3 8 ; 5 ;` with the colour number in
/// decimal and a closing `m`, the text, then the reset suffix `ESC [ 0 m`.
#[verifier::external_body]
pub(crate) fn paint_fixed(colour: u8, text: &str) -> (r: String)
    ensures
        r@ == fixed_paint(colour, text@),
{
    ansi_term::Colour::Fixed(colour).paint(text).to_string()
}

/// Relies on `ansi_term::Colour::Green.paint` and the `Display` of the painted
/// string: the prefix `ESC [ 3 2 m`, the text, then the reset suffix.
#[verifier::external_body]
pub(crate) fn paint_green(text: &str) -> (r: String)
    ensures
        r@ == green_paint(text@),
{
    ansi_term::Colour::Green.paint(text).to_string()
}

/// Relies on `ansi_term::Colour::Red.paint` and the `Display` of the painted
/// string: the prefix `ESC [ 3 1 m`, the text, then the reset suffix.
#[verifier::external_body]
pub(crate) fn paint_red(text: &str) -> (r: String)
    ensures
        r@ == red_paint(text@),
{
    ansi_term::Colour::Red.paint(text).to_string()
}

/// Relies on `ansi_term::Colour::Yellow.paint` and the `Display` of the
/// painted string: the prefix `ESC [ 3 3 m`, the text, then the reset suffix.
#[verifier::external_body]
pub(crate) fn paint_yellow(text: &str) -> (r: String)
    ensures
        r@ == yellow_paint(text@),
{
    ansi_term::Colour::Yellow.paint(text).to_string()
}

/// Relies on `ansi_term::Colour::White.bold().paint` and the `Display` of the
/// painted string: the prefix `ESC [ 1 ; 3 7 m` (bold, then the white
/// foreground), the text, then the reset suffix.
#[verifier::external_body]
pub(crate) fn paint_white_bold(text: &str) -> (r: String)
    ensures
        r@ == white_bold_paint(text@),
{
    ansi_term::Colour::White.bold().paint(text).to_string()
}

} // verus!
