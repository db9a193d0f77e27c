use liquid_crystal::{
    lcd16x2, lcd20x4, BusBits, Commands, LiquidCrystal, SendType, Step, RS,
};

/// The (register select, data) pairs latched by a list of steps: one per write that
/// raises an enable line.
fn pulses(steps: &[Step]) -> Vec<(u8, u8)> {
    let mut out = Vec::new();
    for s in steps {
        if let Step::Send { config, data } = *s {
            if config & 0x0C != 0 {
                out.push((config & 1, data));
            }
        }
    }
    out
}

fn waits(steps: &[Step]) -> Vec<Step> {
    steps
        .iter()
        .copied()
        .filter(|s| !matches!(s, Step::Send { .. }))
        .collect()
}

#[test]
fn four_bit_send_is_two_nibbles() {
    let lcd = LiquidCrystal::new(BusBits::Bus4Bits, lcd16x2());
    let mut steps = Vec::new();
    lcd.send(&mut steps, 0xA5, RS);
    assert_eq!(
        steps,
        vec![
            Step::Send { config: 0x01, data: 0xA0 },
            Step::Send { config: 0x0D, data: 0xA0 },
            Step::DelayUs(5),
            Step::Send { config: 0x01, data: 0xA0 },
            Step::DelayUs(1),
            Step::Send { config: 0x01, data: 0x50 },
            Step::Send { config: 0x0D, data: 0x50 },
            Step::DelayUs(5),
            Step::Send { config: 0x01, data: 0x50 },
            Step::DelayUs(2),
        ]
    );
    let p = pulses(&steps);
    assert_eq!(p.len(), 2);
    assert_eq!(p[0].0, p[1].0);
    assert_eq!(p[0].1 | (p[1].1 >> 4), 0xA5);
}

#[test]
fn four_bit_send_recombines_every_byte() {
    let lcd = LiquidCrystal::new(BusBits::Bus4Bits, lcd16x2());
    for value in 0..=255u8 {
        for rs in 0..=1u8 {
            let mut steps = Vec::new();
            lcd.send(&mut steps, value, rs);
            let p = pulses(&steps);
            assert_eq!(p, vec![(rs, value & 0xF0), (rs, value << 4)]);
            assert_eq!(p[0].1 | (p[1].1 >> 4), value);
        }
    }
}

#[test]
fn eight_bit_send_is_one_transaction() {
    let lcd = LiquidCrystal::new(BusBits::Bus8Bits, lcd16x2());
    let mut steps = Vec::new();
    lcd.send(&mut steps, 0x3C, 0);
    assert_eq!(
        steps,
        vec![
            Step::Send { config: 0x00, data: 0x3C },
            Step::Send { config: 0x0C, data: 0x3C },
            Step::DelayUs(5),
            Step::Send { config: 0x00, data: 0x3C },
            Step::DelayUs(40),
        ]
    );
    assert_eq!(pulses(&steps), vec![(0, 0x3C)]);
}

#[test]
fn set_cursor_in_range_sends_address() {
    let mut lcd = LiquidCrystal::new(BusBits::Bus8Bits, lcd16x2());
    let mut steps = Vec::new();
    lcd.set_cursor(&mut steps, 1, 3);
    assert_eq!(pulses(&steps), vec![(0, 0xC3)]);
    assert_eq!(waits(&steps).last(), Some(&Step::DelayUs(40)));

    let mut lcd = LiquidCrystal::new(BusBits::Bus8Bits, lcd20x4());
    let mut steps = Vec::new();
    lcd.set_cursor(&mut steps, 3, 19);
    assert_eq!(pulses(&steps), vec![(0, 0xD4 + 19)]);
    let mut steps = Vec::new();
    lcd.set_cursor(&mut steps, 0, 0);
    assert_eq!(pulses(&steps), vec![(0, 0x80)]);
}

#[test]
fn set_cursor_out_of_range_sends_nothing() {
    let mut lcd = LiquidCrystal::new(BusBits::Bus4Bits, lcd16x2());
    let mut steps = Vec::new();
    lcd.set_cursor(&mut steps, 2, 0);
    lcd.set_cursor(&mut steps, 0, 16);
    lcd.set_cursor(&mut steps, 5, 40);
    assert!(steps.is_empty());
}

#[test]
fn custom_char_defines_glyph_then_returns_home() {
    let rows: [u8; 8] = [0b00001, 0b00011, 0b00011, 0b01110, 0b11100, 0b11000, 0b01000, 0b01000];
    let mut lcd = LiquidCrystal::new(BusBits::Bus8Bits, lcd16x2());
    let mut steps = Vec::new();
    lcd.custom_char(&mut steps, &rows, 3);
    let mut expected = vec![(0u8, 0x40u8 + 3 * 8)];
    for r in rows {
        expected.push((1, r));
    }
    expected.push((0, 0x02));
    assert_eq!(pulses(&steps), expected);
    assert_eq!(steps.last(), Some(&Step::DelayUs(2000)));
}

#[test]
fn custom_char_last_slot_address() {
    let mut lcd = LiquidCrystal::new(BusBits::Bus8Bits, lcd16x2());
    let mut steps = Vec::new();
    lcd.custom_char(&mut steps, &[0x1F; 8], 7);
    assert_eq!(pulses(&steps)[0], (0, 0x78));
    assert_eq!(pulses(&steps).len(), 10);
}

#[test]
fn custom_char_bad_slot_only_returns_home() {
    let mut lcd = LiquidCrystal::new(BusBits::Bus4Bits, lcd16x2());
    let mut steps = Vec::new();
    lcd.custom_char(&mut steps, &[0x1F; 8], 8);
    assert_eq!(pulses(&steps), vec![(0, 0x00), (0, 0x20)]);
    assert_eq!(steps.last(), Some(&Step::DelayUs(2000)));
}

#[test]
fn write_text_sends_character_codes() {
    let mut lcd = LiquidCrystal::new(BusBits::Bus8Bits, lcd16x2());
    let mut steps = Vec::new();
    lcd.write(&mut steps, SendType::Text("AB"));
    assert_eq!(pulses(&steps), vec![(1, b'A'), (1, b'B')]);
    assert_eq!(waits(&steps), vec![Step::DelayUs(5), Step::DelayUs(2), Step::DelayUs(5), Step::DelayUs(2)]);
}

#[test]
fn write_text_four_bit_and_empty() {
    let mut lcd = LiquidCrystal::new(BusBits::Bus4Bits, lcd16x2());
    let mut steps = Vec::new();
    lcd.write(&mut steps, SendType::Text(""));
    assert!(steps.is_empty());
    lcd.write(&mut steps, SendType::Text("Hi"));
    assert_eq!(pulses(&steps), vec![(1, 0x40), (1, 0x80), (1, 0x60), (1, 0x90)]);
}

#[test]
fn write_text_keeps_low_byte_of_character() {
    let mut lcd = LiquidCrystal::new(BusBits::Bus8Bits, lcd16x2());
    let mut steps = Vec::new();
    lcd.write(&mut steps, SendType::Text("é€"));
    assert_eq!(pulses(&steps), vec![(1, 0xE9), (1, 0xAC)]);
}

#[test]
fn write_command_waits_long() {
    let mut lcd = LiquidCrystal::new(BusBits::Bus8Bits, lcd16x2());
    let mut steps = Vec::new();
    lcd.write(&mut steps, SendType::Command(Commands::Clear))
        .write(&mut steps, SendType::Command(Commands::MoveLine2));
    assert_eq!(pulses(&steps), vec![(0, 0x01), (0, 0xC0)]);
    assert_eq!(
        waits(&steps),
        vec![
            Step::DelayUs(5),
            Step::DelayUs(40),
            Step::DelayUs(2000),
            Step::DelayUs(5),
            Step::DelayUs(40),
            Step::DelayUs(2000),
        ]
    );
}

#[test]
fn write_custom_char_slots() {
    let mut lcd = LiquidCrystal::new(BusBits::Bus8Bits, lcd16x2());
    let mut steps = Vec::new();
    lcd.write(&mut steps, SendType::CustomChar(5));
    assert_eq!(pulses(&steps), vec![(1, 5)]);
    let mut steps = Vec::new();
    lcd.write(&mut steps, SendType::CustomChar(8));
    assert!(steps.is_empty());
}

#[test]
fn command_codes() {
    assert_eq!(Commands::Clear.code(), 0x01);
    assert_eq!(Commands::Reset.code(), 0x02);
    assert_eq!(Commands::ShiftCursotLeft.code(), 0x10);
    assert_eq!(Commands::ShiftCursotRight.code(), 0x14);
    assert_eq!(Commands::ShiftDisplayLeft.code(), 0x18);
    assert_eq!(Commands::ShiftDisplayRight.code(), 0x1C);
    assert_eq!(Commands::MoveLine1.code(), 0x80);
    assert_eq!(Commands::MoveLine2.code(), 0xC0);
}

fn config_pulses(lcd: &mut LiquidCrystal<16, 2>) -> Vec<(u8, u8)> {
    let mut steps = Vec::new();
    lcd.update_config(&mut steps);
    pulses(&steps)
}

#[test]
fn update_config_after_construction_sends_defaults() {
    let mut lcd = LiquidCrystal::new(BusBits::Bus8Bits, lcd16x2());
    assert_eq!(config_pulses(&mut lcd), vec![(0, 0x0C), (0, 0x06)]);
}

#[test]
fn toggles_are_idempotent() {
    let mut once = LiquidCrystal::new(BusBits::Bus8Bits, lcd16x2());
    once.enable_cursor();
    let mut twice = LiquidCrystal::new(BusBits::Bus8Bits, lcd16x2());
    twice.enable_cursor().enable_cursor();
    assert_eq!(config_pulses(&mut once), config_pulses(&mut twice));
    assert_eq!(config_pulses(&mut once), vec![(0, 0x0E), (0, 0x06)]);
}

#[test]
fn toggles_commute() {
    let mut a = LiquidCrystal::new(BusBits::Bus8Bits, lcd16x2());
    a.enable_cursor().enable_blink();
    let mut b = LiquidCrystal::new(BusBits::Bus8Bits, lcd16x2());
    b.enable_blink().enable_cursor();
    assert_eq!(config_pulses(&mut a), config_pulses(&mut b));
    assert_eq!(config_pulses(&mut a), vec![(0, 0x0F), (0, 0x06)]);
}

#[test]
fn every_toggle_changes_its_bit() {
    let mut lcd = LiquidCrystal::new(BusBits::Bus8Bits, lcd16x2());
    lcd.disable_display();
    assert_eq!(config_pulses(&mut lcd), vec![(0, 0x08), (0, 0x06)]);
    lcd.enable_display().enable_blink().disable_blink();
    assert_eq!(config_pulses(&mut lcd), vec![(0, 0x0C), (0, 0x06)]);
    lcd.enable_cursor().disable_cursor();
    assert_eq!(config_pulses(&mut lcd), vec![(0, 0x0C), (0, 0x06)]);
    lcd.enable_autoscroll();
    assert_eq!(config_pulses(&mut lcd), vec![(0, 0x0C), (0, 0x07)]);
    lcd.disable_autoscroll().set_autoscroll_decrement();
    assert_eq!(config_pulses(&mut lcd), vec![(0, 0x0C), (0, 0x04)]);
    lcd.set_autoscroll_increment();
    assert_eq!(config_pulses(&mut lcd), vec![(0, 0x0C), (0, 0x06)]);
}

#[test]
fn update_config_after_many_toggles_sends_two_instructions() {
    let mut lcd = LiquidCrystal::new(BusBits::Bus4Bits, lcd16x2());
    lcd.enable_blink()
        .enable_cursor()
        .disable_display()
        .enable_autoscroll()
        .set_autoscroll_decrement()
        .enable_display();
    let mut steps = Vec::new();
    lcd.update_config(&mut steps);
    assert_eq!(pulses(&steps), vec![(0, 0x00), (0, 0xF0), (0, 0x00), (0, 0x50)]);
    assert_eq!(steps.len(), 20);
}

#[test]
fn begin_four_bit_sequence() {
    let mut lcd = LiquidCrystal::new(BusBits::Bus4Bits, lcd16x2());
    let mut steps = Vec::new();
    lcd.begin(&mut steps);
    assert_eq!(
        pulses(&steps),
        vec![
            (0, 0x30),
            (0, 0x30),
            (0, 0x30),
            (0, 0x20),
            (0, 0x20),
            (0, 0x80),
            (0, 0x00),
            (0, 0x10),
            (0, 0x00),
            (0, 0x20),
            (0, 0x00),
            (0, 0xC0),
            (0, 0x00),
            (0, 0x60),
        ]
    );
    assert_eq!(steps[0], Step::DelayMs(50));
    let w = waits(&steps);
    assert_eq!(&w[..7], &[
        Step::DelayMs(50),
        Step::DelayUs(5),
        Step::DelayUs(4100),
        Step::DelayUs(5),
        Step::DelayUs(100),
        Step::DelayUs(5),
        Step::DelayUs(100),
    ]);
    assert_eq!(w.iter().filter(|s| **s == Step::DelayUs(2000)).count(), 2);
    // the switch to four bits (fourth pulse) gets its execution wait before 0x28
    assert_eq!(w[7..10], [Step::DelayUs(5), Step::DelayUs(40), Step::DelayUs(5)]);
}

#[test]
fn begin_eight_bit_sequence() {
    let mut lcd = LiquidCrystal::new(BusBits::Bus8Bits, lcd20x4());
    let mut steps = Vec::new();
    lcd.begin(&mut steps);
    assert_eq!(
        pulses(&steps),
        vec![(0, 0x30), (0, 0x30), (0, 0x30), (0, 0x38), (0, 0x01), (0, 0x02), (0, 0x0C), (0, 0x06)]
    );
    // the function set is followed by its execution wait before clear
    let w = waits(&steps);
    assert_eq!(w[7..10], [Step::DelayUs(5), Step::DelayUs(40), Step::DelayUs(5)]);
    assert_eq!(steps[19], Step::Send { config: 0x00, data: 0x38 });
    assert_eq!(steps[20], Step::DelayUs(40));
    assert_eq!(steps[21], Step::Send { config: 0x00, data: 0x01 });
}

#[test]
fn set_cursor_every_position_of_20x4() {
    let mut lcd = LiquidCrystal::new(BusBits::Bus8Bits, lcd20x4());
    let bases = [0x80u8, 0xC0, 0x94, 0xD4];
    for line in 0..6usize {
        for col in 0..25u8 {
            let mut steps = Vec::new();
            lcd.set_cursor(&mut steps, line, col);
            if line < 4 && col < 20 {
                assert_eq!(pulses(&steps), vec![(0, bases[line] + col)]);
                assert_eq!(steps.last(), Some(&Step::DelayUs(40)));
            } else {
                assert!(steps.is_empty());
            }
        }
    }
}

#[test]
fn begin_restores_default_settings() {
    let mut lcd = LiquidCrystal::new(BusBits::Bus8Bits, lcd16x2());
    lcd.enable_blink().enable_autoscroll();
    let mut steps = Vec::new();
    lcd.begin(&mut steps);
    let p = pulses(&steps);
    assert_eq!(&p[p.len() - 2..], &[(0, 0x0C), (0, 0x06)]);
    assert_eq!(config_pulses(&mut lcd), vec![(0, 0x0C), (0, 0x06)]);
}

#[test]
fn select_lcd_and_echo_choose_enable_lines() {
    let mut lcd = LiquidCrystal::new(BusBits::Bus8Bits, lcd16x2());
    let mut steps = Vec::new();
    lcd.select_lcd(1);
    lcd.send(&mut steps, 0x41, RS);
    assert_eq!(steps[1], Step::Send { config: 0x09, data: 0x41 });
    let mut steps = Vec::new();
    lcd.select_lcd(0);
    lcd.send(&mut steps, 0x41, RS);
    assert_eq!(steps[1], Step::Send { config: 0x05, data: 0x41 });
    let mut steps = Vec::new();
    lcd.select_lcd(2);
    lcd.send(&mut steps, 0x41, RS);
    assert_eq!(steps[1], Step::Send { config: 0x05, data: 0x41 });
    let mut steps = Vec::new();
    lcd.echo();
    lcd.send(&mut steps, 0x41, RS);
    assert_eq!(steps[1], Step::Send { config: 0x0D, data: 0x41 });
}

#[test]
fn asynch_and_blocking_keep_state() {
    let mut lcd = LiquidCrystal::new(BusBits::Bus4Bits, lcd16x2());
    lcd.enable_cursor().select_lcd(1);
    let mut a = lcd.asynch();
    let mut steps = Vec::new();
    a.update_config(&mut steps);
    assert_eq!(pulses(&steps), vec![(0, 0x00), (0, 0xE0), (0, 0x00), (0, 0x60)]);
    assert_eq!(steps[1], Step::Send { config: 0x08, data: 0x00 });
    let mut b = a.blocking();
    let mut again = Vec::new();
    b.update_config(&mut again);
    assert_eq!(steps, again);
}
