use vstd::prelude::*;

verus! {

/// Entry mode: direction in which the address counter moves after a write.
#[derive(Clone, Copy, Debug, PartialEq, Eq, Structural)]
pub enum ShiftConfig {
    Increment,
    Decrement,
}

/// Entry mode: whether the whole display shifts after a write.
#[derive(Clone, Copy, Debug, PartialEq, Eq, Structural)]
pub enum ShiftState {
    On,
    Off,
}

/// Display control: display on or off.
#[derive(Clone, Copy, Debug, PartialEq, Eq, Structural)]
pub enum Display {
    On,
    Off,
}

/// Display control: underline cursor on or off.
#[derive(Clone, Copy, Debug, PartialEq, Eq, Structural)]
pub enum Cursor {
    On,
    Off,
}

/// Display control: blinking block cursor on or off.
#[derive(Clone, Copy, Debug, PartialEq, Eq, Structural)]
pub enum Blink {
    On,
    Off,
}

/// Cursor or display shift: what moves.
#[derive(Clone, Copy, Debug, PartialEq, Eq, Structural)]
pub enum ShiftMode {
    ShiftCursor,
    ShiftDisplay,
}

/// Cursor or display shift: which way.
#[derive(Clone, Copy, Debug, PartialEq, Eq, Structural)]
pub enum ShiftDirection {
    Left,
    Right,
}

/// Function set: interface width.
#[derive(Clone, Copy, Debug, PartialEq, Eq, Structural)]
pub enum Bits {
    Four,
}

/// Function set: number of display lines.
#[derive(Clone, Copy, Debug, PartialEq, Eq, Structural)]
pub enum DisplayLines {
    One,
    Two,
}

/// Function set: character font.
#[derive(Clone, Copy, Debug, PartialEq, Eq, Structural)]
pub enum CharSize {
    C5X10,
    C5X8,
}

impl ShiftConfig {
    /// Flag bit of this setting in the entry-mode instruction.
    pub fn bits(self) -> (r: u8)
        ensures
            r == (if self == ShiftConfig::Increment { 0b0000_0010u8 } else { 0u8 }),
    {
        match self {
            ShiftConfig::Increment => 0b0000_0010,
            ShiftConfig::Decrement => 0,
        }
    }
}

impl ShiftState {
    /// Flag bit of this setting in the entry-mode instruction.
    pub fn bits(self) -> (r: u8)
        ensures
            r == (if self == ShiftState::On { 0b0000_0001u8 } else { 0u8 }),
    {
        match self {
            ShiftState::On => 0b0000_0001,
            ShiftState::Off => 0,
        }
    }
}

impl Display {
    /// Flag bit of this setting in the display-control instruction.
    pub fn bits(self) -> (r: u8)
        ensures
            r == (if self == Display::On { 0b0000_0100u8 } else { 0u8 }),
    {
        match self {
            Display::On => 0b0000_0100,
            Display::Off => 0,
        }
    }
}

impl Cursor {
    /// Flag bit of this setting in the display-control instruction.
    pub fn bits(self) -> (r: u8)
        ensures
            r == (if self == Cursor::On { 0b0000_0010u8 } else { 0u8 }),
    {
        match self {
            Cursor::On => 0b0000_0010,
            Cursor::Off => 0,
        }
    }
}

impl Blink {
    /// Flag bit of this setting in the display-control instruction.
    pub fn bits(self) -> (r: u8)
        ensures
            r == (if self == Blink::On { 0b0000_0001u8 } else { 0u8 }),
    {
        match self {
            Blink::On => 0b0000_0001,
            Blink::Off => 0,
        }
    }
}

impl ShiftMode {
    /// Flag bit of this setting in the cursor/display shift instruction.
    pub fn bits(self) -> (r: u8)
        ensures
            r == (if self == ShiftMode::ShiftDisplay { 0b0000_1000u8 } else { 0u8 }),
    {
        match self {
            ShiftMode::ShiftCursor => 0,
            ShiftMode::ShiftDisplay => 0b0000_1000,
        }
    }
}

impl ShiftDirection {
    /// Flag bit of this setting in the cursor/display shift instruction.
    pub fn bits(self) -> (r: u8)
        ensures
            r == (if self == ShiftDirection::Right { 0b0000_0100u8 } else { 0u8 }),
    {
        match self {
            ShiftDirection::Left => 0,
            ShiftDirection::Right => 0b0000_0100,
        }
    }
}

impl Bits {
    /// Flag bit of this setting in the function-set instruction.
    pub fn bits(self) -> (r: u8)
        ensures
            r == 0,
    {
        match self {
            Bits::Four => 0,
        }
    }
}

impl DisplayLines {
    /// Flag bit of this setting in the function-set instruction.
    pub fn bits(self) -> (r: u8)
        ensures
            r == (if self == DisplayLines::Two { 0b0000_1000u8 } else { 0u8 }),
    {
        match self {
            DisplayLines::One => 0,
            DisplayLines::Two => 0b0000_1000,
        }
    }
}

impl CharSize {
    /// Flag bit of this setting in the function-set instruction.
    pub fn bits(self) -> (r: u8)
        ensures
            r == (if self == CharSize::C5X10 { 0b0000_0100u8 } else { 0u8 }),
    {
        match self {
            CharSize::C5X10 => 0b0000_0100,
            CharSize::C5X8 => 0,
        }
    }
}

/// A full set of controller settings, grouped by the instruction that carries them.
#[derive(Clone, Copy, Debug)]
pub struct FastConfig {
    pub entry_mode: (ShiftConfig, ShiftState),
    pub display: (Display, Cursor, Blink),
    pub display_config: (Bits, DisplayLines, CharSize),
    pub write_config: (ShiftMode, ShiftDirection),
}

impl Default for FastConfig {
    /// Decrementing entry without shift; display, cursor and blink on; four-bit bus,
    /// two lines, 5x8 font; cursor moves left.
    fn default() -> (r: Self)
        ensures
            r == (FastConfig {
                entry_mode: (ShiftConfig::Decrement, ShiftState::Off),
                display: (Display::On, Cursor::On, Blink::On),
                display_config: (Bits::Four, DisplayLines::Two, CharSize::C5X8),
                write_config: (ShiftMode::ShiftCursor, ShiftDirection::Left),
            }),
    {
        FastConfig {
            entry_mode: (ShiftConfig::Decrement, ShiftState::Off),
            display: (Display::On, Cursor::On, Blink::On),
            display_config: (Bits::Four, DisplayLines::Two, CharSize::C5X8),
            write_config: (ShiftMode::ShiftCursor, ShiftDirection::Left),
        }
    }
}

} // verus!
