//! Driver logic for a 240x240 SPI TFT panel (ST7789-class controller).
//!
//! The crate models everything the driver sends over the bus — command
//! bytes, parameter bytes, pixel values, control-line transitions and the
//! mandatory settling delays — as a sequence of [`bus::BusAction`] values.
//! The drawing operations are verified to emit exactly the byte streams the
//! controller's protocol demands; a thin host layer performs the actions on
//! real hardware (or any other sink) in order.

use vstd::prelude::*;

pub mod artemis;
pub mod atm0130;
pub mod bus;
pub mod color;
pub mod font;

verus! {

/// The fields of a filesystem timestamp, as plain values.
///
/// The host passes a time source to the SD-card filesystem; this driver has
/// no clock, so the one time source it offers reports the epoch.
#[derive(Clone, Copy, Debug, PartialEq, Eq, Structural)]
pub struct TimestampFields {
    pub year_since_1970: u8,
    pub zero_indexed_month: u8,
    pub zero_indexed_day: u8,
    pub hours: u8,
    pub minutes: u8,
    pub seconds: u8,
}

/// A time source that always reports the epoch.
#[derive(Clone, Copy, Debug, PartialEq, Eq, Structural)]
pub struct DummyTimesource();

impl Default for DummyTimesource {
    fn default() -> (d: DummyTimesource)
        ensures
            d == DummyTimesource(),
    {
        DummyTimesource()
    }
}

impl DummyTimesource {
    /// The timestamp handed to the filesystem: all fields zero.
    pub fn get_timestamp(&self) -> (t: TimestampFields)
        ensures
            t.year_since_1970 == 0,
            t.zero_indexed_month == 0,
            t.zero_indexed_day == 0,
            t.hours == 0,
            t.minutes == 0,
            t.seconds == 0,
    {
        TimestampFields {
            year_since_1970: 0,
            zero_indexed_month: 0,
            zero_indexed_day: 0,
            hours: 0,
            minutes: 0,
            seconds: 0,
        }
    }
}

} // verus!
