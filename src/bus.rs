use vstd::prelude::*;

verus! {

/// Register-select bit: set for a data (character) write, clear for an instruction.
pub const RS: u8 = 0b0000_0001;

/// First enable line, as it appears in the control bits of a transport write.
pub const EN: u8 = 0b0000_0100;

/// Read/write line; this driver never reads, so it is always low.
pub const _RW: u8 = 0b0000_0010;

/// How long an enable line is held high, in microseconds.
pub const PULSE_HOLD_US: u32 = 5;

/// Bus address of the common PCF8574 backpack (LCM1602 IIC module).
pub const I2C_ADDRESS: u8 = 0x27;

/// One action on the wire: drive the lines, or wait.
///
/// `Send` sets the control lines to `config` (register select in bit 0, the enable
/// lines from bit 2 up) and the data lines to `data` (the upper four bits carry a
/// nibble on a four-line bus).
#[derive(Clone, Copy, Debug, PartialEq, Eq, Structural)]
pub enum Step {
    Send { config: u8, data: u8 },
    DelayUs(u32),
    DelayMs(u32),
}

/// How many data lines connect the controller.
#[derive(Clone, Copy, Debug, PartialEq, Eq, Structural)]
pub enum BusBits {
    Bus4Bits,
    Bus8Bits,
}

/// Control bits with register select `rs` and the enable lines of `enable` raised.
pub open spec fn raised(rs: u8, enable: u8) -> u8 {
    rs | (enable << 2u8)
}

/// One enable pulse latching `data`: lines settle with enable low, enable goes
/// high, is held, and falls again with the data unchanged.
pub open spec fn strobe(data: u8, rs: u8, enable: u8) -> Seq<Step> {
    seq![
        Step::Send { config: rs, data },
        Step::Send { config: raised(rs, enable), data },
        Step::DelayUs(PULSE_HOLD_US),
        Step::Send { config: rs, data },
    ]
}

/// Upper nibble of a byte, in place.
pub open spec fn high_nibble(value: u8) -> u8 {
    value & 0xF0
}

/// Lower nibble of a byte, moved to the upper four lines.
pub open spec fn low_nibble(value: u8) -> u8 {
    value << 4u8
}

/// The pulses that carry one byte: one on an eight-line bus, two (high nibble
/// first) on a four-line bus.
pub open spec fn byte_steps(bus: BusBits, value: u8, rs: u8, enable: u8) -> Seq<Step> {
    match bus {
        BusBits::Bus8Bits => strobe(value, rs, enable),
        BusBits::Bus4Bits => strobe(high_nibble(value), rs, enable) + seq![Step::DelayUs(1)]
            + strobe(low_nibble(value), rs, enable),
    }
}

/// Execution time waited after a byte: short after data, longer after an instruction.
pub open spec fn settle_us(rs: u8) -> u32 {
    if rs == 1 {
        2
    } else {
        40
    }
}

/// A complete byte transfer: its pulses, then the execution wait.
pub open spec fn send_steps(bus: BusBits, value: u8, rs: u8, enable: u8) -> Seq<Step> {
    byte_steps(bus, value, rs, enable).push(Step::DelayUs(settle_us(rs)))
}

/// Data writes of each byte of `bytes`, in order.
pub open spec fn data_steps(bus: BusBits, bytes: Seq<u8>, enable: u8) -> Seq<Step>
    decreases bytes.len(),
{
    if bytes.len() == 0 {
        seq![]
    } else {
        data_steps(bus, bytes.drop_last(), enable) + send_steps(bus, bytes.last(), RS, enable)
    }
}

/// The (register select, data) pairs that the controller latches from `steps`:
/// one for each write that raises an enable line.
pub open spec fn pulses(steps: Seq<Step>) -> Seq<(u8, u8)>
    decreases steps.len(),
{
    if steps.len() == 0 {
        seq![]
    } else {
        let rest = pulses(steps.drop_last());
        match steps.last() {
            Step::Send { config, data } => if config & 0x0C != 0 {
                rest.push((config & 1, data))
            } else {
                rest
            },
            _ => rest,
        }
    }
}

/// Latched pulses of consecutive step sequences are the pulses of each, in order.
pub proof fn lemma_pulses_concat(a: Seq<Step>, b: Seq<Step>)
    ensures
        pulses(a + b) == pulses(a) + pulses(b),
    decreases b.len(),
{
    if b.len() == 0 {
        assert(a + b =~= a);
        assert(pulses(a) + pulses(b) =~= pulses(a));
    } else {
        lemma_pulses_concat(a, b.drop_last());
        assert((a + b).drop_last() =~= a + b.drop_last());
        assert((a + b).last() == b.last());
        assert(pulses(a) + pulses(b) =~= pulses(a) + pulses(b.drop_last()) + (pulses(b).subrange(
            pulses(b.drop_last()).len() as int,
            pulses(b).len() as int,
        )));
    }
}

proof fn lemma_strobe_bits(rs: u8, enable: u8)
    requires
        rs <= 1,
        enable & 3 != 0,
    ensures
        rs & 0x0C == 0,
        raised(rs, enable) & 0x0C != 0,
        raised(rs, enable) & 1 == rs,
{
    assert(rs & 0x0C == 0) by (bit_vector)
        requires
            rs <= 1,
    ;
    assert((rs | (enable << 2u8)) & 0x0C != 0 && (rs | (enable << 2u8)) & 1 == rs) by (bit_vector)
        requires
            rs <= 1,
            enable & 3 != 0,
    ;
}

proof fn lemma_pulses_push(s: Seq<Step>, x: Step)
    ensures
        pulses(s.push(x)) == match x {
            Step::Send { config, data } => if config & 0x0C != 0 {
                pulses(s).push((config & 1, data))
            } else {
                pulses(s)
            },
            _ => pulses(s),
        },
{
    assert(s.push(x).drop_last() =~= s);
}

/// An enable pulse is latched exactly once, with the register select and data it carries.
pub proof fn lemma_strobe_pulses(data: u8, rs: u8, enable: u8)
    requires
        rs <= 1,
        enable & 3 != 0,
    ensures
        pulses(strobe(data, rs, enable)) == seq![(rs, data)],
{
    lemma_strobe_bits(rs, enable);
    let e = Seq::<Step>::empty();
    let s0 = e.push(Step::Send { config: rs, data });
    let s1 = s0.push(Step::Send { config: raised(rs, enable), data });
    let s2 = s1.push(Step::DelayUs(PULSE_HOLD_US));
    let s3 = s2.push(Step::Send { config: rs, data });
    assert(pulses(e) =~= seq![]);
    lemma_pulses_push(e, Step::Send { config: rs, data });
    lemma_pulses_push(s0, Step::Send { config: raised(rs, enable), data });
    lemma_pulses_push(s1, Step::DelayUs(PULSE_HOLD_US));
    lemma_pulses_push(s2, Step::Send { config: rs, data });
    assert(strobe(data, rs, enable) =~= s3);
    assert(pulses(s3) =~= seq![(rs, data)]);
}

/// A wait latches nothing.
pub proof fn lemma_wait_pulses(wait: Step)
    requires
        !(wait is Send),
    ensures
        pulses(seq![wait]) == Seq::<(u8, u8)>::empty(),
{
    let e = Seq::<Step>::empty();
    assert(pulses(e) =~= seq![]);
    lemma_pulses_push(e, wait);
    assert(seq![wait] =~= e.push(wait));
}

/// On a four-line bus a byte goes out as exactly two pulses with the same register
/// select: the high nibble, then the low nibble moved up; together they give the byte back.
pub proof fn lemma_four_bit_send(value: u8, rs: u8, enable: u8)
    requires
        rs <= 1,
        enable & 3 != 0,
    ensures
        pulses(send_steps(BusBits::Bus4Bits, value, rs, enable)) == seq![
            (rs, high_nibble(value)),
            (rs, low_nibble(value)),
        ],
        high_nibble(value) & 0x0F == 0,
        low_nibble(value) & 0x0F == 0,
        high_nibble(value) | (low_nibble(value) >> 4u8) == value,
{
    let hi = strobe(high_nibble(value), rs, enable);
    let lo = strobe(low_nibble(value), rs, enable);
    let gap = seq![Step::DelayUs(1)];
    let tail = seq![Step::DelayUs(settle_us(rs))];
    lemma_strobe_pulses(high_nibble(value), rs, enable);
    lemma_strobe_pulses(low_nibble(value), rs, enable);
    lemma_pulses_concat(hi, gap);
    lemma_pulses_concat(hi + gap, lo);
    lemma_pulses_concat(hi + gap + lo, tail);
    lemma_wait_pulses(Step::DelayUs(1));
    lemma_wait_pulses(Step::DelayUs(settle_us(rs)));
    assert(send_steps(BusBits::Bus4Bits, value, rs, enable) =~= hi + gap + lo + tail);
    assert((value & 0xF0) & 0x0F == 0 && (value << 4u8) & 0x0F == 0 && (value & 0xF0) | ((value
        << 4u8) >> 4u8) == value) by (bit_vector);
}

/// On an eight-line bus a byte goes out as a single pulse carrying it unchanged.
pub proof fn lemma_eight_bit_send(value: u8, rs: u8, enable: u8)
    requires
        rs <= 1,
        enable & 3 != 0,
    ensures
        pulses(send_steps(BusBits::Bus8Bits, value, rs, enable)) == seq![(rs, value)],
{
    let one = strobe(value, rs, enable);
    let tail = seq![Step::DelayUs(settle_us(rs))];
    lemma_strobe_pulses(value, rs, enable);
    lemma_pulses_concat(one, tail);
    lemma_wait_pulses(Step::DelayUs(settle_us(rs)));
    assert(send_steps(BusBits::Bus8Bits, value, rs, enable) =~= one + tail);
}

/// The pulses that carry one byte: itself on an eight-line bus, its two nibbles on a
/// four-line bus.
pub open spec fn instruction_pulses(bus: BusBits, value: u8, rs: u8) -> Seq<(u8, u8)> {
    match bus {
        BusBits::Bus8Bits => seq![(rs, value)],
        BusBits::Bus4Bits => seq![(rs, high_nibble(value)), (rs, low_nibble(value))],
    }
}

/// A byte transfer latches exactly the pulses of its byte, whatever the bus width.
pub proof fn lemma_send_pulses(bus: BusBits, value: u8, rs: u8, enable: u8)
    requires
        rs <= 1,
        enable & 3 != 0,
    ensures
        pulses(send_steps(bus, value, rs, enable)) == instruction_pulses(bus, value, rs),
{
    match bus {
        BusBits::Bus8Bits => lemma_eight_bit_send(value, rs, enable),
        BusBits::Bus4Bits => lemma_four_bit_send(value, rs, enable),
    }
}

/// The pulses of data writes of each byte of `bytes`, in order.
pub open spec fn data_pulses(bus: BusBits, bytes: Seq<u8>) -> Seq<(u8, u8)>
    decreases bytes.len(),
{
    if bytes.len() == 0 {
        seq![]
    } else {
        data_pulses(bus, bytes.drop_last()) + instruction_pulses(bus, bytes.last(), RS)
    }
}

/// Data writes latch one data instruction per byte, in order, and nothing else.
pub proof fn lemma_data_pulses(bus: BusBits, bytes: Seq<u8>, enable: u8)
    requires
        enable & 3 != 0,
    ensures
        pulses(data_steps(bus, bytes, enable)) == data_pulses(bus, bytes),
        forall|i: int|
            0 <= i < data_pulses(bus, bytes).len() ==> (#[trigger] data_pulses(bus, bytes)[i]).0
                == RS,
    decreases bytes.len(),
{
    if bytes.len() == 0 {
        assert(pulses(Seq::<Step>::empty()) =~= seq![]);
    } else {
        lemma_data_pulses(bus, bytes.drop_last(), enable);
        lemma_send_pulses(bus, bytes.last(), RS, enable);
        lemma_pulses_concat(
            data_steps(bus, bytes.drop_last(), enable),
            send_steps(bus, bytes.last(), RS, enable),
        );
        let front = data_pulses(bus, bytes.drop_last());
        let back = instruction_pulses(bus, bytes.last(), RS);
        assert forall|i: int| 0 <= i < (front + back).len() implies (#[trigger] (front + back)[i]).0
            == RS by {
            if i < front.len() {
                assert((front + back)[i] == front[i]);
            }
        }
    }
}

/// On an eight-line bus, data writes latch exactly the bytes, each as data.
pub proof fn lemma_eight_bit_data_pulses(bytes: Seq<u8>)
    ensures
        data_pulses(BusBits::Bus8Bits, bytes) == Seq::new(bytes.len(), |i: int| (RS, bytes[i])),
    decreases bytes.len(),
{
    if bytes.len() > 0 {
        lemma_eight_bit_data_pulses(bytes.drop_last());
    }
    assert(data_pulses(BusBits::Bus8Bits, bytes) =~= Seq::new(bytes.len(), |i: int| (RS, bytes[i])));
}

/// Appends one enable pulse latching `data`.
pub fn push_strobe(steps: &mut Vec<Step>, data: u8, rs: u8, enable: u8)
    ensures
        final(steps)@ == old(steps)@ + strobe(data, rs, enable),
{
    steps.push(Step::Send { config: rs, data });
    steps.push(Step::Send { config: rs | (enable << 2), data });
    steps.push(Step::DelayUs(PULSE_HOLD_US));
    steps.push(Step::Send { config: rs, data });
    assert(steps@ =~= old(steps)@ + strobe(data, rs, enable));
}

/// Appends the pulses of one byte: directly on an eight-line bus, as two nibbles on
/// a four-line bus.
pub fn push_byte(steps: &mut Vec<Step>, bus: BusBits, value: u8, rs: u8, enable: u8)
    ensures
        final(steps)@ == old(steps)@ + byte_steps(bus, value, rs, enable),
{
    match bus {
        BusBits::Bus8Bits => push_strobe(steps, value, rs, enable),
        BusBits::Bus4Bits => {
            push_strobe(steps, value & 0xF0, rs, enable);
            steps.push(Step::DelayUs(1));
            push_strobe(steps, value << 4, rs, enable);
        },
    }
    assert(steps@ =~= old(steps)@ + byte_steps(bus, value, rs, enable));
}

/// Appends a complete byte transfer, execution wait included.
pub fn push_send(steps: &mut Vec<Step>, bus: BusBits, value: u8, rs: u8, enable: u8)
    ensures
        final(steps)@ == old(steps)@ + send_steps(bus, value, rs, enable),
{
    push_byte(steps, bus, value, rs, enable);
    if rs == 1 {
        steps.push(Step::DelayUs(2));
    } else {
        steps.push(Step::DelayUs(40));
    }
    assert(steps@ =~= old(steps)@ + send_steps(bus, value, rs, enable));
}

/// Appends a data write of each byte of `bytes`, in order.
pub fn push_data(steps: &mut Vec<Step>, bus: BusBits, bytes: &[u8], enable: u8)
    ensures
        final(steps)@ == old(steps)@ + data_steps(bus, bytes@, enable),
{
    let mut i: usize = 0;
    while i < bytes.len()
        invariant
            i <= bytes@.len(),
            steps@ == old(steps)@ + data_steps(bus, bytes@.take(i as int), enable),
        decreases bytes@.len() - i,
    {
        push_send(steps, bus, bytes[i], RS, enable);
        assert(bytes@.take(i + 1).drop_last() =~= bytes@.take(i as int));
        i = i + 1;
    }
    assert(bytes@.take(i as int) =~= bytes@);
}

} // verus!
