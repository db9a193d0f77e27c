//! Driver logic for HD44780-compatible character displays.
//!
//! Every operation appends to a list of `Step`s what must happen on the wire (line
//! levels and waits); the caller runs them on its transport and delay provider.
pub mod bus;
pub mod commands;
pub mod fast_config;
pub mod interfaces;
pub mod layout;
pub mod lcd;
pub mod lcd_bus;

pub use bus::{BusBits, Step, EN, I2C_ADDRESS, PULSE_HOLD_US, RS, _RW};
pub use commands::Commands;
pub use fast_config::{
    Bits, Blink, CharSize, Cursor, Display, DisplayLines, FastConfig, ShiftConfig, ShiftDirection,
    ShiftMode, ShiftState,
};
pub use interfaces::{i2c_frame, parallel_levels, Interface, PinLevels};
pub use layout::{lcd16x2, lcd20x4, Layout};
pub use lcd::{Async, Blocking, LcdView, LiquidCrystal, SendType};
pub use lcd_bus::{LiquidCrystal4Bits, LiquidCrystal8Bits};
