use vstd::prelude::*;

use crate::bus::{high_nibble, low_nibble, push_strobe, strobe, Step};

verus! {

/// A driver for up to eight four-bit panels that share data lines, each with its own
/// enable line.
pub struct LiquidCrystal4Bits {
    corrent_enable: u8,
}

/// An eight-bit driver for panels behind a multiplexer of `multiplex_level` lines.
pub struct LiquidCrystal8Bits {
    corrent_enable: u8,
    multiplex_level: u8,
}

/// What `LiquidCrystal4Bits::init` appends: the reset sequence ending in four-bit mode.
pub open spec fn init4_steps(enable: u8) -> Seq<Step> {
    seq![Step::DelayUs(150)] + strobe(0x30, 0, enable) + seq![Step::DelayUs(5000)]
        + strobe(0x30, 0, enable) + seq![Step::DelayUs(160)] + strobe(0x30, 0, enable)
        + seq![Step::DelayUs(160)] + strobe(0x20, 0, enable) + seq![Step::DelayUs(10000)]
}

/// What `LiquidCrystal4Bits::send` appends: both nibbles, then a short wait after data
/// or the clear-and-home wait after an instruction.
pub open spec fn send4_steps(data: u8, rs_state: u8, enable: u8) -> Seq<Step> {
    strobe(high_nibble(data), rs_state, enable) + strobe(low_nibble(data), rs_state, enable)
        + seq![Step::DelayUs(if rs_state != 0 { 5u32 } else { 2000u32 })]
}

impl LiquidCrystal4Bits {
    /// The enable lines (bit 0: first panel) that the next transfers strobe.
    pub closed spec fn enable_mask(&self) -> u8 {
        self.corrent_enable
    }

    /// A driver addressing the first panel.
    pub fn new() -> (r: Self)
        ensures
            r.enable_mask() == 1,
    {
        LiquidCrystal4Bits { corrent_enable: 1 }
    }

    /// One nibble: enable low, high, held, low again, with the lines unchanged.
    fn send4bits(&self, steps: &mut Vec<Step>, data: u8, rs_state: u8)
        ensures
            final(steps)@ == old(steps)@ + strobe(data, rs_state, self.enable_mask()),
    {
        push_strobe(steps, data, rs_state, self.corrent_enable);
    }

    /// Resets the selected panels into four-bit mode.
    pub fn init(&mut self, steps: &mut Vec<Step>) -> (r: &mut Self)
        ensures
            final(steps)@ == old(steps)@ + init4_steps(old(self).enable_mask()),
            *r == *old(self),
            *final(self) == *final(r),
    {
        let ghost start = steps@;
        steps.push(Step::DelayUs(150));
        self.send4bits(steps, 0x30, 0x00);
        steps.push(Step::DelayUs(5000));
        self.send4bits(steps, 0x30, 0x00);
        steps.push(Step::DelayUs(160));
        self.send4bits(steps, 0x30, 0x00);
        steps.push(Step::DelayUs(160));
        self.send4bits(steps, 0x20, 0x00);
        steps.push(Step::DelayUs(10000));
        assert(steps@ =~= start + init4_steps(self.enable_mask()));
        self
    }

    /// Sends one byte as two nibbles: `rs_state` nonzero for data, zero for an instruction.
    pub fn send(&self, steps: &mut Vec<Step>, data: u8, rs_state: u8)
        ensures
            final(steps)@ == old(steps)@ + send4_steps(data, rs_state, self.enable_mask()),
    {
        let high_bits = data & 0xF0;
        let low_bits = (data << 4) & 0xF0;
        assert(((data << 4u8) & 0xF0) == data << 4u8) by (bit_vector);
        self.send4bits(steps, high_bits, rs_state);
        self.send4bits(steps, low_bits, rs_state);
        if rs_state != 0 {
            steps.push(Step::DelayUs(5));
        } else {
            steps.push(Step::DelayUs(2000));
        }
        assert(steps@ =~= old(steps)@ + send4_steps(data, rs_state, self.enable_mask()));
    }

    /// Addresses only panel `enable` (taken modulo eight) from now on.
    pub fn select_display(&mut self, enable: u8)
        ensures
            final(self).enable_mask() == 1u8 << (enable & 0x07),
    {
        assert(enable & 0x07 < 8) by (bit_vector);
        self.corrent_enable = 1 << (enable & 0b0000_0111);
    }

    /// Addresses the first four panels at once from now on.
    pub fn echo(&mut self)
        ensures
            final(self).enable_mask() == 0x0F,
    {
        self.corrent_enable = 0x0F;
    }
}

impl LiquidCrystal8Bits {
    /// The enable lines (bit 0: first panel) that the next transfers strobe.
    pub closed spec fn enable_mask(&self) -> u8 {
        self.corrent_enable
    }

    /// Number of multiplexer lines given at construction.
    pub closed spec fn multiplex(&self) -> u8 {
        self.multiplex_level
    }

    /// A driver addressing the first panel behind a multiplexer of `multiplex_level` lines.
    pub fn new(multiplex_level: u8) -> (r: Self)
        ensures
            r.enable_mask() == 1,
            r.multiplex() == multiplex_level,
    {
        LiquidCrystal8Bits { corrent_enable: 1, multiplex_level }
    }
}

} // verus!
