//! The bus model: everything the driver does to the panel, in order.
//!
//! The controller sits behind a byte-oriented serial bus and three control
//! lines (chip-select, data/command, hardware reset).  A drawing operation
//! is fully described by the ordered sequence of actions it performs, so
//! the driver records its output as [`BusAction`] values and a host layer
//! carries each one out on the hardware.

use vstd::prelude::*;

verus! {

/// One step of bus or control-line activity.
///
/// The data/command side-band line is folded into `Command` and `Data`:
/// performing `Command(b)` means driving the line low and then writing the
/// byte `b`; performing `Data(b)` means driving it high and then writing
/// `b`.  `Pixel(p)` stands for the two-byte transfer of one wire-format
/// pixel value, high byte first, with the data/command line high.
#[derive(Clone, Copy, Debug, PartialEq, Eq, Structural)]
pub enum BusAction {
    /// Drive chip-select low: the controller listens.
    SelectLow,
    /// Drive chip-select high: the controller is released.
    SelectHigh,
    /// Drive the hardware reset line low.
    ResetLow,
    /// Drive the hardware reset line high.
    ResetHigh,
    /// Wait at least this many milliseconds before the next action.
    DelayMs(u32),
    /// Write one command byte with the data/command line low.
    Command(u8),
    /// Write one parameter byte with the data/command line high.
    Data(u8),
    /// Stream one 16-bit wire pixel, high byte first, data/command high.
    Pixel(u16),
}

/// The register-write protocol for one addressing window: column-address-set
/// with the window's first and last column, row-address-set with its first
/// and last row, then memory-write to arm the controller for exactly
/// `width * height` pixels.  Each 16-bit coordinate is sent high byte first;
/// the high byte is always zero, which limits coordinates to one byte.
pub open spec fn window_actions(x: u8, y: u8, width: u8, height: u8) -> Seq<BusAction> {
    seq![
        BusAction::Command(0x2A),
        BusAction::Data(0x00),
        BusAction::Data(x),
        BusAction::Data(0x00),
        BusAction::Data((x + width - 1) as u8),
        BusAction::Command(0x2B),
        BusAction::Data(0x00),
        BusAction::Data(y),
        BusAction::Data(0x00),
        BusAction::Data((y + height - 1) as u8),
        BusAction::Command(0x2C),
    ]
}

/// `count` copies of the same wire pixel.
pub open spec fn repeated_pixels(p: u16, count: nat) -> Seq<BusAction> {
    Seq::new(count, |i: int| BusAction::Pixel(p))
}

/// A window whose extent stays on the 240x240 panel: both dimensions are at
/// least one pixel, and the window's last column and last row are at most
/// 239.  Coordinates outside this range would silently wrap in the one-byte
/// protocol fields, so the driver rejects them instead.
pub open spec fn valid_window(x: int, y: int, width: int, height: int) -> bool {
    &&& 1 <= width
    &&& 1 <= height
    &&& x + width <= 240
    &&& y + height <= 240
}

} // verus!
