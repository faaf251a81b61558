//! Colours of the status LEDs.
//!
//! The named colours are those of the `smart_leds` palette; each is read
//! from that crate, so the values stated here are claims about it.

use vstd::prelude::*;

verus! {

/// One LED colour, eight bits per channel.
#[derive(Clone, Copy, Debug, PartialEq, Eq, Structural)]
pub struct Rgb {
    pub r: u8,
    pub g: u8,
    pub b: u8,
}

/// Black.
pub open spec fn black() -> Rgb {
    Rgb { r: 0x00, g: 0x00, b: 0x00 }
}

/// White.
pub open spec fn white() -> Rgb {
    Rgb { r: 0xFF, g: 0xFF, b: 0xFF }
}

/// Red.
pub open spec fn red() -> Rgb {
    Rgb { r: 0xFF, g: 0x00, b: 0x00 }
}

/// Green, at half strength.
pub open spec fn green() -> Rgb {
    Rgb { r: 0x00, g: 0x80, b: 0x00 }
}

/// Blue.
pub open spec fn blue() -> Rgb {
    Rgb { r: 0x00, g: 0x00, b: 0xFF }
}

/// Yellow.
pub open spec fn yellow() -> Rgb {
    Rgb { r: 0xFF, g: 0xFF, b: 0x00 }
}

/// Magenta.
pub open spec fn magenta() -> Rgb {
    Rgb { r: 0xFF, g: 0x00, b: 0xFF }
}

/// Cyan.
pub open spec fn cyan() -> Rgb {
    Rgb { r: 0x00, g: 0xFF, b: 0xFF }
}

/// Orange.
pub open spec fn orange() -> Rgb {
    Rgb { r: 0xFF, g: 0xA5, b: 0x00 }
}

/// Purple.
pub open spec fn purple() -> Rgb {
    Rgb { r: 0x80, g: 0x00, b: 0x80 }
}

/// Dark red.
pub open spec fn dark_red() -> Rgb {
    Rgb { r: 0x8B, g: 0x00, b: 0x00 }
}

/// Dark olive green.
pub open spec fn dark_olive_green() -> Rgb {
    Rgb { r: 0x55, g: 0x6B, b: 0x2F }
}

/// Reads `smart_leds::colors::BLACK`; the contract claims its three
/// channels.
#[verifier::external_body]
pub(crate) fn palette_black() -> (c: Rgb)
    ensures
        c == black(),
{
    let c = smart_leds::colors::BLACK;
    Rgb { r: c.r, g: c.g, b: c.b }
}

/// Reads `smart_leds::colors::WHITE`; the contract claims its three
/// channels.
#[verifier::external_body]
pub(crate) fn palette_white() -> (c: Rgb)
    ensures
        c == white(),
{
    let c = smart_leds::colors::WHITE;
    Rgb { r: c.r, g: c.g, b: c.b }
}

/// Reads `smart_leds::colors::RED`; the contract claims its three channels.
#[verifier::external_body]
pub(crate) fn palette_red() -> (c: Rgb)
    ensures
        c == red(),
{
    let c = smart_leds::colors::RED;
    Rgb { r: c.r, g: c.g, b: c.b }
}

/// Reads `smart_leds::colors::GREEN`; the contract claims its three
/// channels.
#[verifier::external_body]
pub(crate) fn palette_green() -> (c: Rgb)
    ensures
        c == green(),
{
    let c = smart_leds::colors::GREEN;
    Rgb { r: c.r, g: c.g, b: c.b }
}

/// Reads `smart_leds::colors::BLUE`; the contract claims its three
/// channels.
#[verifier::external_body]
pub(crate) fn palette_blue() -> (c: Rgb)
    ensures
        c == blue(),
{
    let c = smart_leds::colors::BLUE;
    Rgb { r: c.r, g: c.g, b: c.b }
}

/// Reads `smart_leds::colors::YELLOW`; the contract claims its three
/// channels.
#[verifier::external_body]
pub(crate) fn palette_yellow() -> (c: Rgb)
    ensures
        c == yellow(),
{
    let c = smart_leds::colors::YELLOW;
    Rgb { r: c.r, g: c.g, b: c.b }
}

/// Reads `smart_leds::colors::MAGENTA`; the contract claims its three
/// channels.
#[verifier::external_body]
pub(crate) fn palette_magenta() -> (c: Rgb)
    ensures
        c == magenta(),
{
    let c = smart_leds::colors::MAGENTA;
    Rgb { r: c.r, g: c.g, b: c.b }
}

/// Reads `smart_leds::colors::CYAN`; the contract claims its three
/// channels.
#[verifier::external_body]
pub(crate) fn palette_cyan() -> (c: Rgb)
    ensures
        c == cyan(),
{
    let c = smart_leds::colors::CYAN;
    Rgb { r: c.r, g: c.g, b: c.b }
}

/// Reads `smart_leds::colors::ORANGE`; the contract claims its three
/// channels.
#[verifier::external_body]
pub(crate) fn palette_orange() -> (c: Rgb)
    ensures
        c == orange(),
{
    let c = smart_leds::colors::ORANGE;
    Rgb { r: c.r, g: c.g, b: c.b }
}

/// Reads `smart_leds::colors::PURPLE`; the contract claims its three
/// channels.
#[verifier::external_body]
pub(crate) fn palette_purple() -> (c: Rgb)
    ensures
        c == purple(),
{
    let c = smart_leds::colors::PURPLE;
    Rgb { r: c.r, g: c.g, b: c.b }
}

/// Reads `smart_leds::colors::DARK_RED`; the contract claims its three
/// channels.
#[verifier::external_body]
pub(crate) fn palette_dark_red() -> (c: Rgb)
    ensures
        c == dark_red(),
{
    let c = smart_leds::colors::DARK_RED;
    Rgb { r: c.r, g: c.g, b: c.b }
}

/// Reads `smart_leds::colors::DARK_OLIVE_GREEN`; the contract claims its
/// three channels.
#[verifier::external_body]
pub(crate) fn palette_dark_olive_green() -> (c: Rgb)
    ensures
        c == dark_olive_green(),
{
    let c = smart_leds::colors::DARK_OLIVE_GREEN;
    Rgb { r: c.r, g: c.g, b: c.b }
}

} // verus!
