use core::marker::PhantomData;
use vstd::prelude::*;

use crate::bus::{
    data_pulses, data_steps, instruction_pulses, lemma_data_pulses, lemma_wait_pulses, lemma_pulses_concat, lemma_send_pulses,
    lemma_strobe_pulses, pulses, push_data, push_send, push_strobe, send_steps, settle_us, strobe, BusBits,
    Step, RS,
};
use crate::commands::{command_code, Commands};
use crate::layout::Layout;

verus! {

/// Entry-mode flag: shift the display after each write.
pub const LCD_SHIFT_MODE: u8 = 0x01;

/// Entry-mode flag: move the address counter up after each write.
pub const LCD_DIRECTION: u8 = 0x02;

/// Display-control flag: blinking block cursor.
pub const LCD_BLINK: u8 = 0x01;

/// Display-control flag: underline cursor.
pub const LCD_CURSOR: u8 = 0x02;

/// Display-control flag: display on.
pub const LCD_DISPLAY: u8 = 0x04;

/// Entry-mode instruction after construction: left to right, no shift.
pub const ENTRY_MODE_DEFAULT: u8 = 0x06;

/// Display-control instruction after construction: display on, cursor and blink off.
pub const DISPLAY_CONTROL_DEFAULT: u8 = 0x0C;

/// Enable mask that addresses every panel.
pub const ALL_PANELS: u8 = 0b11;

/// Marker: the steps are meant to be run with blocking delays.
pub struct Blocking;

/// Marker: the steps are meant to be run with awaited delays.
pub struct Async;

/// What `write` puts on the display.
pub enum SendType<'s> {
    Command(Commands),
    Text(&'s str),
    CustomChar(u8),
}

/// The state of a controller, as its contracts speak of it.
pub struct LcdView {
    pub bus: BusBits,
    /// Enable lines that the next transfers strobe (bit 0: first panel, bit 1: second).
    pub enable: u8,
    /// Entry-mode instruction byte staged for `update_config`.
    pub entry_mode: u8,
    /// Display-control instruction byte staged for `update_config`.
    pub display_control: u8,
    /// Set-DDRAM-address byte of the first character of each line.
    pub addrs: Seq<u8>,
    /// Characters per line.
    pub cols: u8,
}

/// Display driver state: bus width, layout, selected panels and staged settings.
///
/// Every operation appends to a list of `Step`s what has to happen on the wire; the
/// caller runs them on its transport and delay provider, blocking or awaiting as
/// `MODE` says.
pub struct LiquidCrystal<const COLS: u8, const LINES: usize, MODE = Blocking> {
    bus: BusBits,
    layout: Layout<COLS, LINES>,
    enable: u8,
    entry_mode: u8,
    display_control: u8,
    _mode: PhantomData<MODE>,
}

/// Character code sent for `c`: its low eight bits.
pub open spec fn char_code(c: char) -> u8 {
    (c as u32) as u8
}

/// Character codes of a text.
pub open spec fn char_codes(s: Seq<char>) -> Seq<u8> {
    Seq::new(s.len(), |i: int| char_code(s[i]))
}

/// An instruction byte followed by the long wait that clear and home need.
pub open spec fn command_steps(bus: BusBits, code: u8, enable: u8) -> Seq<Step> {
    send_steps(bus, code, 0, enable).push(Step::DelayUs(2000))
}

/// Set-CGRAM-address instruction for the first row of glyph `slot`.
pub open spec fn cgram_address(slot: u8) -> u8 {
    (0x40 + slot * 8) as u8
}

/// Set-DDRAM-address instruction for `column` of a line starting at `base`.
pub open spec fn cursor_address(base: u8, column: u8) -> u8 {
    ((base + column) % 256) as u8
}

/// What `write` appends.
pub open spec fn write_steps(v: LcdView, data: SendType<'_>) -> Seq<Step> {
    match data {
        SendType::Command(c) => command_steps(v.bus, command_code(c), v.enable),
        SendType::Text(s) => data_steps(v.bus, char_codes(s@), v.enable),
        SendType::CustomChar(slot) => if slot < 8 {
            send_steps(v.bus, slot, RS, v.enable)
        } else {
            seq![]
        },
    }
}

/// What `set_cursor` appends: one address instruction, or nothing off the display.
pub open spec fn cursor_steps(v: LcdView, line: usize, column: u8) -> Seq<Step> {
    if line < v.addrs.len() && column < v.cols {
        send_steps(v.bus, cursor_address(v.addrs[line as int], column), 0, v.enable)
    } else {
        seq![]
    }
}

/// What `custom_char` appends: the glyph rows behind their address (only for a slot
/// below eight), then return home.
pub open spec fn glyph_steps(v: LcdView, rows: Seq<u8>, slot: u8) -> Seq<Step> {
    (if slot < 8 {
        send_steps(v.bus, cgram_address(slot), 0, v.enable) + data_steps(v.bus, rows, v.enable)
    } else {
        seq![]
    }) + command_steps(v.bus, command_code(Commands::Reset), v.enable)
}

/// What `update_config` appends: display control, then entry mode.
pub open spec fn config_steps(v: LcdView) -> Seq<Step> {
    send_steps(v.bus, v.display_control, 0, v.enable) + send_steps(v.bus, v.entry_mode, 0, v.enable)
}

/// Function set for the bus width, each instruction followed by its execution wait:
/// the full function set in one eight-bit transfer, or the switch to four bits (an
/// eight-bit pulse) followed by the full function set sent as two nibbles.
pub open spec fn function_set_steps(bus: BusBits, enable: u8) -> Seq<Step> {
    match bus {
        BusBits::Bus8Bits => send_steps(bus, 0x38, 0, enable),
        BusBits::Bus4Bits => strobe(0x20, 0, enable).push(Step::DelayUs(settle_us(0)))
            + send_steps(bus, 0x28, 0, enable),
    }
}

/// What `begin` appends: power-on wait, three eight-bit function-set probes with
/// their waits, the function set, clear, return home, and the default settings.
pub open spec fn begin_steps(bus: BusBits, enable: u8) -> Seq<Step> {
    seq![Step::DelayMs(50)] + strobe(0x30, 0, enable) + seq![Step::DelayUs(4100)] + strobe(
        0x30,
        0,
        enable,
    ) + seq![Step::DelayUs(100)] + strobe(0x30, 0, enable) + seq![Step::DelayUs(100)]
        + function_set_steps(bus, enable) + command_steps(
        bus,
        command_code(Commands::Clear),
        enable,
    ) + command_steps(bus, command_code(Commands::Reset), enable) + send_steps(
        bus,
        DISPLAY_CONTROL_DEFAULT,
        0,
        enable,
    ) + send_steps(bus, ENTRY_MODE_DEFAULT, 0, enable)
}

/// `byte` with the bits of `flag` set.
pub open spec fn set_flag(byte: u8, flag: u8) -> u8 {
    byte | flag
}

/// `byte` with the bits of `flag` cleared.
pub open spec fn clear_flag(byte: u8, flag: u8) -> u8 {
    byte & !flag
}

/// The settings that the controller's state always satisfies.
pub open spec fn config_valid(v: LcdView) -> bool {
    &&& (v.enable == 1 || v.enable == 2 || v.enable == 3)
    &&& v.entry_mode & 0xFC == 0x04
    &&& v.display_control & 0xF8 == 0x08
}

proof fn lemma_flag_updates(em: u8, dc: u8)
    by (bit_vector)
    requires
        em & 0xFC == 0x04,
        dc & 0xF8 == 0x08,
    ensures
        (em | 0x01) & 0xFC == 0x04,
        (em | 0x02) & 0xFC == 0x04,
        (em & !0x01u8) & 0xFC == 0x04,
        (em & !0x02u8) & 0xFC == 0x04,
        (dc | 0x01) & 0xF8 == 0x08,
        (dc | 0x02) & 0xF8 == 0x08,
        (dc | 0x04) & 0xF8 == 0x08,
        (dc & !0x01u8) & 0xF8 == 0x08,
        (dc & !0x02u8) & 0xF8 == 0x08,
        (dc & !0x04u8) & 0xF8 == 0x08,
{
}

proof fn lemma_defaults_valid()
    by (bit_vector)
    ensures
        ENTRY_MODE_DEFAULT & 0xFC == 0x04,
        DISPLAY_CONTROL_DEFAULT & 0xF8 == 0x08,
{
}

proof fn lemma_enable_raises_a_line(enable: u8)
    by (bit_vector)
    requires
        enable == 1 || enable == 2 || enable == 3,
    ensures
        enable & 3 != 0,
{
}

impl<const COLS: u8, const LINES: usize, MODE> View for LiquidCrystal<COLS, LINES, MODE> {
    type V = LcdView;

    closed spec fn view(&self) -> LcdView {
        LcdView {
            bus: self.bus,
            enable: self.enable,
            entry_mode: self.entry_mode,
            display_control: self.display_control,
            addrs: self.layout.addrs@,
            cols: COLS,
        }
    }
}

impl<const COLS: u8, const LINES: usize, MODE> LiquidCrystal<COLS, LINES, MODE> {
    /// Always holds: a live controller selects at least one panel, stages valid
    /// entry-mode and display-control instructions, and has one line address per line.
    #[verifier::type_invariant]
    pub open spec fn inv(&self) -> bool {
        &&& config_valid(self@)
        &&& self@.addrs.len() == LINES
        &&& self@.cols == COLS
    }
}

impl<const COLS: u8, const LINES: usize> LiquidCrystal<COLS, LINES, Blocking> {
    /// A driver for a display wired with `bus` and shaped as `layout`, addressing every
    /// panel, with the display on and cursor, blink and shift off.
    pub fn new(bus: BusBits, layout: Layout<COLS, LINES>) -> (r: Self)
        ensures
            r@ == (LcdView {
                bus,
                enable: ALL_PANELS,
                entry_mode: ENTRY_MODE_DEFAULT,
                display_control: DISPLAY_CONTROL_DEFAULT,
                addrs: layout.addrs@,
                cols: COLS,
            }),
    {
        proof {
            lemma_defaults_valid();
        }
        LiquidCrystal {
            bus,
            layout,
            enable: ALL_PANELS,
            entry_mode: ENTRY_MODE_DEFAULT,
            display_control: DISPLAY_CONTROL_DEFAULT,
            _mode: PhantomData,
        }
    }

    /// The same driver, meant to be run with awaited delays.
    pub fn asynch(self) -> (r: LiquidCrystal<COLS, LINES, Async>)
        ensures
            r@ == self@,
    {
        proof {
            use_type_invariant(&self);
        }
        LiquidCrystal {
            bus: self.bus,
            layout: self.layout,
            enable: self.enable,
            entry_mode: self.entry_mode,
            display_control: self.display_control,
            _mode: PhantomData,
        }
    }
}

impl<const COLS: u8, const LINES: usize> LiquidCrystal<COLS, LINES, Async> {
    /// The same driver, meant to be run with blocking delays.
    pub fn blocking(self) -> (r: LiquidCrystal<COLS, LINES, Blocking>)
        ensures
            r@ == self@,
    {
        proof {
            use_type_invariant(&self);
        }
        LiquidCrystal {
            bus: self.bus,
            layout: self.layout,
            enable: self.enable,
            entry_mode: self.entry_mode,
            display_control: self.display_control,
            _mode: PhantomData,
        }
    }
}

impl<const COLS: u8, const LINES: usize, MODE> LiquidCrystal<COLS, LINES, MODE> {
    /// Low-level transfer of one byte: `rs_state` 1 for data, 0 for an instruction.
    /// The byte goes out as one pulse on an eight-line bus, as two nibbles on a
    /// four-line bus, followed by its execution wait.
    pub fn send(&self, steps: &mut Vec<Step>, data: u8, rs_state: u8)
        ensures
            final(steps)@ == old(steps)@ + send_steps(self@.bus, data, rs_state, self@.enable),
    {
        push_send(steps, self.bus, data, rs_state, self.enable);
    }

    /// Writes a command, a text (one data write per character, in order) or a custom
    /// glyph (only for a slot below eight).
    pub fn write(&mut self, steps: &mut Vec<Step>, data: SendType<'_>) -> (r: &mut Self)
        ensures
            final(steps)@ == old(steps)@ + write_steps(old(self)@, data),
            r@ == old(self)@,
            final(self)@ == final(r)@,
    {
        match data {
            SendType::Command(x) => {
                self.send(steps, x.code(), 0x00);
                steps.push(Step::DelayUs(2000));
            },
            SendType::Text(x) => {
                let ghost start = steps@;
                let ghost codes = char_codes(x@);
                for c in it: x.chars()
                    invariant
                        it.seq() == x@,
                        codes == char_codes(x@),
                        steps@ == start + data_steps(
                            self@.bus,
                            codes.take(it.index() as int),
                            self@.enable,
                        ),
                {
                    let ghost i = it.index() as int;
                    assert(c == x@[i] && i < codes.len());
                    let point: u32 = c as u32;
                    let code: u8 = #[verifier::truncate] (point as u8);
                    self.send(steps, code, RS);
                    proof {
                        assert(codes.take(i + 1).drop_last() =~= codes.take(i));
                        assert(codes.take(i + 1).last() == code);
                    }
                }
                assert(codes.take(codes.len() as int) =~= codes);
            },
            SendType::CustomChar(slot) => {
                if slot < 8 {
                    self.send(steps, slot, RS);
                }
            },
        }
        self
    }

    /// Initialises the controller: waits for power-up, forces eight-bit mode with three
    /// probes, selects the bus width, clears, returns home, and applies the default
    /// settings, which it also stages again.
    pub fn begin(&mut self, steps: &mut Vec<Step>)
        ensures
            final(steps)@ == old(steps)@ + begin_steps(old(self)@.bus, old(self)@.enable),
            final(self)@ == (LcdView {
                entry_mode: ENTRY_MODE_DEFAULT,
                display_control: DISPLAY_CONTROL_DEFAULT,
                ..old(self)@
            }),
    {
        let ghost start = steps@;
        let bus = self.bus;
        let enable = self.enable;
        steps.push(Step::DelayMs(50));
        push_strobe(steps, 0x30, 0, enable);
        steps.push(Step::DelayUs(4100));
        push_strobe(steps, 0x30, 0, enable);
        steps.push(Step::DelayUs(100));
        push_strobe(steps, 0x30, 0, enable);
        steps.push(Step::DelayUs(100));
        match bus {
            BusBits::Bus8Bits => self.send(steps, 0x38, 0),
            BusBits::Bus4Bits => {
                push_strobe(steps, 0x20, 0, enable);
                steps.push(Step::DelayUs(40));
                self.send(steps, 0x28, 0);
            },
        }
        self.write(steps, SendType::Command(Commands::Clear));
        self.write(steps, SendType::Command(Commands::Reset));
        proof {
            use_type_invariant(&*self);
            lemma_defaults_valid();
        }
        self.entry_mode = ENTRY_MODE_DEFAULT;
        self.display_control = DISPLAY_CONTROL_DEFAULT;
        self.update_config(steps);
        assert(steps@ =~= start + begin_steps(bus, enable));
    }

    /// Sends the staged settings: the display-control byte, then the entry-mode byte.
    pub fn update_config(&mut self, steps: &mut Vec<Step>) -> (r: &mut Self)
        ensures
            final(steps)@ == old(steps)@ + config_steps(old(self)@),
            r@ == old(self)@,
            final(self)@ == final(r)@,
    {
        self.send(steps, self.display_control, 0);
        self.send(steps, self.entry_mode, 0);
        assert(steps@ =~= old(steps)@ + config_steps(old(self)@));
        self
    }

    /// Moves the cursor to `colum` of `line` (both from zero); a position off the
    /// display is ignored.
    pub fn set_cursor(&mut self, steps: &mut Vec<Step>, line: usize, colum: u8) -> (r: &mut Self)
        ensures
            final(steps)@ == old(steps)@ + cursor_steps(old(self)@, line, colum),
            line < LINES && colum < COLS ==> final(steps)@ == old(steps)@ + send_steps(
                old(self)@.bus,
                cursor_address(old(self)@.addrs[line as int], colum),
                0,
                old(self)@.enable,
            ),
            !(line < LINES && colum < COLS) ==> final(steps)@ == old(steps)@,
            r@ == old(self)@,
            final(self)@ == final(r)@,
    {
        proof {
            use_type_invariant(&*self);
        }
        if line < LINES && colum < COLS {
            let address = self.layout.addrs[line].wrapping_add(colum);
            self.send(steps, address, 0);
        }
        self
    }

    /// Defines glyph `slot` (0 to 7) from eight pixel rows, five low bits each; a
    /// slot of eight or more writes no glyph. Either way the cursor returns home,
    /// since the definition leaves the address counter in glyph memory.
    pub fn custom_char(&mut self, steps: &mut Vec<Step>, char_array: &[u8; 8], slot: u8) -> (r:
        &mut Self)
        ensures
            final(steps)@ == old(steps)@ + glyph_steps(old(self)@, char_array@, slot),
            r@ == old(self)@,
            final(self)@ == final(r)@,
    {
        let ghost start = steps@;
        if slot < 8 {
            assert(0x40 | (slot << 3u8) == (0x40 + slot * 8) as u8) by (bit_vector)
                requires
                    slot < 8,
            ;
            self.send(steps, 0x40 | (slot << 3), 0x00);
            push_data(steps, self.bus, char_array.as_slice(), self.enable);
        }
        self.write(steps, SendType::Command(Commands::Reset));
        assert(steps@ =~= start + glyph_steps(old(self)@, char_array@, slot));
        self
    }

    /// Addresses every panel from now on.
    pub fn echo(&mut self) -> (r: &mut Self)
        ensures
            r@ == (LcdView { enable: ALL_PANELS, ..old(self)@ }),
            final(self)@ == final(r)@,
    {
        proof {
            use_type_invariant(&*self);
        }
        self.enable = ALL_PANELS;
        self
    }

    /// Addresses only panel `en` (0: first enable line, 1: second) from now on; any
    /// other value is ignored.
    pub fn select_lcd(&mut self, en: u8) -> (r: &mut Self)
        ensures
            r@ == (LcdView { enable: if en < 2 { (1u8 << en) as u8 } else { old(self)@.enable }, ..old(self)@ }),
            final(self)@ == final(r)@,
    {
        proof {
            use_type_invariant(&*self);
        }
        if en < 2 {
            assert(1u8 << en == 1 || 1u8 << en == 2) by (bit_vector)
                requires
                    en < 2,
            ;
            self.enable = 1 << en;
        }
        self
    }

    /// Turns the blinking cursor on; staged until `update_config`.
    pub fn enable_blink(&mut self) -> (r: &mut Self)
        ensures
            r@ == (LcdView { display_control: set_flag(old(self)@.display_control, LCD_BLINK), ..old(self)@ }),
            final(self)@ == final(r)@,
    {
        proof {
            use_type_invariant(&*self);
            lemma_flag_updates(self.entry_mode, self.display_control);
        }
        self.display_control = self.display_control | LCD_BLINK;
        self
    }

    /// Turns the underline cursor on; staged until `update_config`.
    pub fn enable_cursor(&mut self) -> (r: &mut Self)
        ensures
            r@ == (LcdView { display_control: set_flag(old(self)@.display_control, LCD_CURSOR), ..old(self)@ }),
            final(self)@ == final(r)@,
    {
        proof {
            use_type_invariant(&*self);
            lemma_flag_updates(self.entry_mode, self.display_control);
        }
        self.display_control = self.display_control | LCD_CURSOR;
        self
    }

    /// Turns the display on; staged until `update_config`.
    pub fn enable_display(&mut self) -> (r: &mut Self)
        ensures
            r@ == (LcdView { display_control: set_flag(old(self)@.display_control, LCD_DISPLAY), ..old(self)@ }),
            final(self)@ == final(r)@,
    {
        proof {
            use_type_invariant(&*self);
            lemma_flag_updates(self.entry_mode, self.display_control);
        }
        self.display_control = self.display_control | LCD_DISPLAY;
        self
    }

    /// Turns shifting of the display after each write on; staged until `update_config`.
    pub fn enable_autoscroll(&mut self) -> (r: &mut Self)
        ensures
            r@ == (LcdView { entry_mode: set_flag(old(self)@.entry_mode, LCD_SHIFT_MODE), ..old(self)@ }),
            final(self)@ == final(r)@,
    {
        proof {
            use_type_invariant(&*self);
            lemma_flag_updates(self.entry_mode, self.display_control);
        }
        self.entry_mode = self.entry_mode | LCD_SHIFT_MODE;
        self
    }

    /// Turns the blinking cursor off; staged until `update_config`.
    pub fn disable_blink(&mut self) -> (r: &mut Self)
        ensures
            r@ == (LcdView { display_control: clear_flag(old(self)@.display_control, LCD_BLINK), ..old(self)@ }),
            final(self)@ == final(r)@,
    {
        proof {
            use_type_invariant(&*self);
            lemma_flag_updates(self.entry_mode, self.display_control);
        }
        self.display_control = self.display_control & !LCD_BLINK;
        self
    }

    /// Turns the underline cursor off; staged until `update_config`.
    pub fn disable_cursor(&mut self) -> (r: &mut Self)
        ensures
            r@ == (LcdView { display_control: clear_flag(old(self)@.display_control, LCD_CURSOR), ..old(self)@ }),
            final(self)@ == final(r)@,
    {
        proof {
            use_type_invariant(&*self);
            lemma_flag_updates(self.entry_mode, self.display_control);
        }
        self.display_control = self.display_control & !LCD_CURSOR;
        self
    }

    /// Turns the display off; staged until `update_config`.
    pub fn disable_display(&mut self) -> (r: &mut Self)
        ensures
            r@ == (LcdView { display_control: clear_flag(old(self)@.display_control, LCD_DISPLAY), ..old(self)@ }),
            final(self)@ == final(r)@,
    {
        proof {
            use_type_invariant(&*self);
            lemma_flag_updates(self.entry_mode, self.display_control);
        }
        self.display_control = self.display_control & !LCD_DISPLAY;
        self
    }

    /// Turns shifting of the display after each write off; staged until `update_config`.
    pub fn disable_autoscroll(&mut self) -> (r: &mut Self)
        ensures
            r@ == (LcdView { entry_mode: clear_flag(old(self)@.entry_mode, LCD_SHIFT_MODE), ..old(self)@ }),
            final(self)@ == final(r)@,
    {
        proof {
            use_type_invariant(&*self);
            lemma_flag_updates(self.entry_mode, self.display_control);
        }
        self.entry_mode = self.entry_mode & !LCD_SHIFT_MODE;
        self
    }

    /// Makes the address counter move up after each write; staged until `update_config`.
    pub fn set_autoscroll_increment(&mut self) -> (r: &mut Self)
        ensures
            r@ == (LcdView { entry_mode: set_flag(old(self)@.entry_mode, LCD_DIRECTION), ..old(self)@ }),
            final(self)@ == final(r)@,
    {
        proof {
            use_type_invariant(&*self);
            lemma_flag_updates(self.entry_mode, self.display_control);
        }
        self.entry_mode = self.entry_mode | LCD_DIRECTION;
        self
    }

    /// Makes the address counter move down after each write; staged until `update_config`.
    pub fn set_autoscroll_decrement(&mut self) -> (r: &mut Self)
        ensures
            r@ == (LcdView { entry_mode: clear_flag(old(self)@.entry_mode, LCD_DIRECTION), ..old(self)@ }),
            final(self)@ == final(r)@,
    {
        proof {
            use_type_invariant(&*self);
            lemma_flag_updates(self.entry_mode, self.display_control);
        }
        self.entry_mode = self.entry_mode & !LCD_DIRECTION;
        self
    }
}

/// Setting a flag twice is setting it once; clearing likewise; and changes to flags
/// that share no bit can be made in either order with the same result.
pub proof fn lemma_toggles_idempotent_commute(byte: u8, f: u8, g: u8)
    ensures
        set_flag(set_flag(byte, f), f) == set_flag(byte, f),
        clear_flag(clear_flag(byte, f), f) == clear_flag(byte, f),
        set_flag(set_flag(byte, f), g) == set_flag(set_flag(byte, g), f),
        clear_flag(clear_flag(byte, f), g) == clear_flag(clear_flag(byte, g), f),
        f & g == 0 ==> set_flag(clear_flag(byte, f), g) == clear_flag(set_flag(byte, g), f),
{
    assert(((byte | f) | f) == (byte | f) && ((byte & !f) & !f) == (byte & !f) && ((byte | f) | g)
        == ((byte | g) | f) && ((byte & !f) & !g) == ((byte & !g) & !f)) by (bit_vector);
    assert(f & g == 0 ==> ((byte & !f) | g) == ((byte | g) & !f)) by (bit_vector);
}

/// Applying the staged settings sends exactly two instructions, display control then
/// entry mode, however many toggles staged them.
pub proof fn lemma_update_config_pulses(v: LcdView)
    requires
        config_valid(v),
    ensures
        pulses(config_steps(v)) == instruction_pulses(v.bus, v.display_control, 0)
            + instruction_pulses(v.bus, v.entry_mode, 0),
{
    lemma_enable_raises_a_line(v.enable);
    lemma_send_pulses(v.bus, v.display_control, 0, v.enable);
    lemma_send_pulses(v.bus, v.entry_mode, 0, v.enable);
    lemma_pulses_concat(
        send_steps(v.bus, v.display_control, 0, v.enable),
        send_steps(v.bus, v.entry_mode, 0, v.enable),
    );
}

/// An instruction with the long wait latches the pulses of its byte only.
pub proof fn lemma_command_pulses(bus: BusBits, code: u8, enable: u8)
    requires
        enable & 3 != 0,
    ensures
        pulses(command_steps(bus, code, enable)) == instruction_pulses(bus, code, 0),
{
    lemma_send_pulses(bus, code, 0, enable);
    lemma_wait_pulses(Step::DelayUs(2000));
    lemma_pulses_concat(send_steps(bus, code, 0, enable), seq![Step::DelayUs(2000)]);
    assert(command_steps(bus, code, enable) =~= send_steps(bus, code, 0, enable) + seq![
        Step::DelayUs(2000),
    ]);
}

/// Pulses of the function set for each bus width.
pub open spec fn function_set_pulses(bus: BusBits) -> Seq<(u8, u8)> {
    match bus {
        BusBits::Bus8Bits => seq![(0u8, 0x38u8)],
        BusBits::Bus4Bits => seq![(0u8, 0x20u8)] + instruction_pulses(bus, 0x28, 0),
    }
}

/// Initialisation latches, in order: three eight-bit function-set probes, the function
/// set of the bus width, clear, return home, display control and entry mode at their
/// defaults.
pub proof fn lemma_begin_pulses(bus: BusBits, enable: u8)
    requires
        enable & 3 != 0,
    ensures
        pulses(begin_steps(bus, enable)) == seq![(0u8, 0x30u8), (0u8, 0x30u8), (0u8, 0x30u8)]
            + function_set_pulses(bus) + instruction_pulses(bus, command_code(Commands::Clear), 0)
            + instruction_pulses(bus, command_code(Commands::Reset), 0) + instruction_pulses(
            bus,
            DISPLAY_CONTROL_DEFAULT,
            0,
        ) + instruction_pulses(bus, ENTRY_MODE_DEFAULT, 0),
{
    let probe = strobe(0x30, 0, enable);
    let p0 = seq![Step::DelayMs(50)];
    let d1 = seq![Step::DelayUs(4100)];
    let d2 = seq![Step::DelayUs(100)];
    let fs = function_set_steps(bus, enable);
    let clear = command_steps(bus, command_code(Commands::Clear), enable);
    let home = command_steps(bus, command_code(Commands::Reset), enable);
    let dc = send_steps(bus, DISPLAY_CONTROL_DEFAULT, 0, enable);
    let em = send_steps(bus, ENTRY_MODE_DEFAULT, 0, enable);
    lemma_wait_pulses(Step::DelayMs(50));
    lemma_wait_pulses(Step::DelayUs(4100));
    lemma_wait_pulses(Step::DelayUs(100));
    lemma_strobe_pulses(0x30, 0, enable);
    match bus {
        BusBits::Bus8Bits => lemma_send_pulses(bus, 0x38, 0, enable),
        BusBits::Bus4Bits => {
            let switch = strobe(0x20, 0, enable);
            let wait = seq![Step::DelayUs(settle_us(0))];
            lemma_strobe_pulses(0x20, 0, enable);
            lemma_wait_pulses(Step::DelayUs(settle_us(0)));
            lemma_send_pulses(bus, 0x28, 0, enable);
            lemma_pulses_concat(switch, wait);
            lemma_pulses_concat(switch + wait, send_steps(bus, 0x28, 0, enable));
            assert(switch.push(Step::DelayUs(settle_us(0))) =~= switch + wait);
        },
    }
    lemma_command_pulses(bus, command_code(Commands::Clear), enable);
    lemma_command_pulses(bus, command_code(Commands::Reset), enable);
    lemma_send_pulses(bus, DISPLAY_CONTROL_DEFAULT, 0, enable);
    lemma_send_pulses(bus, ENTRY_MODE_DEFAULT, 0, enable);
    let a1 = p0 + probe;
    let a2 = a1 + d1;
    let a3 = a2 + probe;
    let a4 = a3 + d2;
    let a5 = a4 + probe;
    let a6 = a5 + d2;
    let a7 = a6 + fs;
    let a8 = a7 + clear;
    let a9 = a8 + home;
    let a10 = a9 + dc;
    let a11 = a10 + em;
    lemma_pulses_concat(p0, probe);
    lemma_pulses_concat(a1, d1);
    lemma_pulses_concat(a2, probe);
    lemma_pulses_concat(a3, d2);
    lemma_pulses_concat(a4, probe);
    lemma_pulses_concat(a5, d2);
    lemma_pulses_concat(a6, fs);
    lemma_pulses_concat(a7, clear);
    lemma_pulses_concat(a8, home);
    lemma_pulses_concat(a9, dc);
    lemma_pulses_concat(a10, em);
    assert(begin_steps(bus, enable) == a11);
    assert(pulses(a6) =~= seq![(0u8, 0x30u8), (0u8, 0x30u8), (0u8, 0x30u8)]);
}

/// A position on the display sends exactly one instruction, the line's base address
/// plus the column when that sum is a byte; a position off the display sends nothing.
pub proof fn lemma_cursor_pulses(v: LcdView, line: usize, column: u8)
    requires
        config_valid(v),
    ensures
        line < v.addrs.len() && column < v.cols && v.addrs[line as int] + column < 256 ==> pulses(
            cursor_steps(v, line, column),
        ) == instruction_pulses(v.bus, (v.addrs[line as int] + column) as u8, 0),
        !(line < v.addrs.len() && column < v.cols) ==> cursor_steps(v, line, column).len() == 0,
{
    lemma_enable_raises_a_line(v.enable);
    if line < v.addrs.len() && column < v.cols {
        lemma_send_pulses(v.bus, cursor_address(v.addrs[line as int], column), 0, v.enable);
    }
}

/// Defining a glyph in slots 0 to 7 sends its address instruction (64 plus eight times
/// the slot), its eight rows as data in order, then return home; any other slot sends
/// return home only.
pub proof fn lemma_glyph_pulses(v: LcdView, rows: Seq<u8>, slot: u8)
    requires
        config_valid(v),
        rows.len() == 8,
    ensures
        pulses(glyph_steps(v, rows, slot)) == (if slot < 8 {
            instruction_pulses(v.bus, cgram_address(slot), 0) + data_pulses(v.bus, rows)
        } else {
            seq![]
        }) + instruction_pulses(v.bus, command_code(Commands::Reset), 0),
        slot < 8 ==> cgram_address(slot) == 0x40 + slot * 8,
{
    lemma_enable_raises_a_line(v.enable);
    let home = command_steps(v.bus, command_code(Commands::Reset), v.enable);
    lemma_command_pulses(v.bus, command_code(Commands::Reset), v.enable);
    if slot < 8 {
        let addr = send_steps(v.bus, cgram_address(slot), 0, v.enable);
        let data = data_steps(v.bus, rows, v.enable);
        lemma_send_pulses(v.bus, cgram_address(slot), 0, v.enable);
        lemma_data_pulses(v.bus, rows, v.enable);
        lemma_pulses_concat(addr, data);
        lemma_pulses_concat(addr + data, home);
    } else {
        assert(glyph_steps(v, rows, slot) =~= home);
    }
}

/// Writing a text sends one data instruction per character, its code, in order, and
/// no instruction in between.
pub proof fn lemma_text_pulses(v: LcdView, text: &str)
    requires
        config_valid(v),
    ensures
        pulses(write_steps(v, SendType::Text(text))) == data_pulses(v.bus, char_codes(text@)),
        forall|i: int|
            0 <= i < pulses(write_steps(v, SendType::Text(text))).len() ==> (#[trigger] pulses(
                write_steps(v, SendType::Text(text)),
            )[i]).0 == RS,
        v.bus == BusBits::Bus8Bits ==> pulses(write_steps(v, SendType::Text(text))) == Seq::new(
            text@.len(),
            |i: int| (RS, char_code(text@[i])),
        ),
{
    lemma_enable_raises_a_line(v.enable);
    lemma_data_pulses(v.bus, char_codes(text@), v.enable);
    crate::bus::lemma_eight_bit_data_pulses(char_codes(text@));
    assert(Seq::new(char_codes(text@).len(), |i: int| (RS, char_codes(text@)[i])) =~= Seq::new(
        text@.len(),
        |i: int| (RS, char_code(text@[i])),
    ));
}

} // verus!
