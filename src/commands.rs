use vstd::prelude::*;

verus! {

/// Single-byte controller instructions that can be sent with `SendType::Command`.
#[derive(Clone, Copy, Debug, PartialEq, Eq, Structural)]
pub enum Commands {
    Clear,
    Reset,
    ShiftCursotLeft,
    ShiftCursotRight,
    ShiftDisplayLeft,
    ShiftDisplayRight,
    MoveLine1,
    MoveLine2,
}

/// Instruction byte of each command.
pub open spec fn command_code(c: Commands) -> u8 {
    match c {
        Commands::Clear => 0x01,
        Commands::Reset => 0x02,
        Commands::ShiftCursotLeft => 0x10,
        Commands::ShiftCursotRight => 0x14,
        Commands::ShiftDisplayLeft => 0x18,
        Commands::ShiftDisplayRight => 0x1C,
        Commands::MoveLine1 => 0x80,
        Commands::MoveLine2 => 0xC0,
    }
}

impl Commands {
    /// The instruction byte sent to the controller for this command.
    pub fn code(self) -> (r: u8)
        ensures
            r == command_code(self),
    {
        match self {
            Commands::Clear => 0x01,
            Commands::Reset => 0x02,
            Commands::ShiftCursotLeft => 0x10,
            Commands::ShiftCursotRight => 0x14,
            Commands::ShiftDisplayLeft => 0x18,
            Commands::ShiftDisplayRight => 0x1C,
            Commands::MoveLine1 => 0x80,
            Commands::MoveLine2 => 0xC0,
        }
    }
}

} // verus!
