use vstd::prelude::*;

verus! {

/// A transport that drives the display's lines.
pub trait Interface {
    /// Sets the control lines from `config` (register select in bit 0, enable lines
    /// from bit 2 up) and the data lines from the upper nibble of `data`.
    fn send(&mut self, config: u8, data: u8);
}

/// The byte written to an I2C backpack for one transport write: register select,
/// read/write and the first enable line from `config` in bits 0 to 2, the backlight
/// always on in bit 3, and the data nibble in bits 4 to 7. Further enable lines are
/// dropped: such a module drives one display.
pub fn i2c_frame(config: u8, data: u8) -> (r: u8)
    ensures
        r == (config & 0x07) | (data & 0xF0) | 0x08,
        r & 0x01 == config & 0x01,
        r & 0x04 == config & 0x04,
        r & 0x08 == 0x08,
        r & 0xF0 == data & 0xF0,
{
    let r = (config & 0b0000_0111) | (data & 0xF0) | 0x08;
    assert(r & 0x01 == config & 0x01 && r & 0x04 == config & 0x04 && r & 0x08 == 0x08 && r & 0xF0
        == data & 0xF0) by (bit_vector)
        requires
            r == (config & 0x07) | (data & 0xF0) | 0x08,
    ;
    r
}

/// Levels of the seven output pins of a parallel wiring: four data lines, register
/// select and two enable lines (one per panel).
#[derive(Clone, Copy, Debug, PartialEq, Eq, Structural)]
pub struct PinLevels {
    pub d1: bool,
    pub d2: bool,
    pub d3: bool,
    pub d4: bool,
    pub rs: bool,
    pub en: bool,
    pub en2: bool,
}

/// Pin levels for one transport write on a parallel wiring: data lines from bits 4 to
/// 7 of `data`, register select from bit 0 of `config`, enables from bits 2 and 3.
pub fn parallel_levels(config: u8, data: u8) -> (r: PinLevels)
    ensures
        r == (PinLevels {
            d1: data & 0x10 != 0,
            d2: data & 0x20 != 0,
            d3: data & 0x40 != 0,
            d4: data & 0x80 != 0,
            rs: config & 0x01 != 0,
            en: config & 0x04 != 0,
            en2: config & 0x08 != 0,
        }),
{
    PinLevels {
        d1: (data & 0b0001_0000) != 0,
        d2: (data & 0b0010_0000) != 0,
        d3: (data & 0b0100_0000) != 0,
        d4: (data & 0b1000_0000) != 0,
        rs: (config & 0b0000_0001) != 0,
        en: (config & 0b0000_0100) != 0,
        en2: (config & 0b0000_1000) != 0,
    }
}

} // verus!
