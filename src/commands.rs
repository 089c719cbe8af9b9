//! Instruction encoding: each function ORs an opcode with parameter bits.
use vstd::prelude::*;

verus! {

/// The instruction opcodes of the controller.
#[derive(Clone, Copy, Debug, PartialEq, Eq, Structural)]
pub enum Command {
    ClearDisplay,
    ReturnHome,
    SetEntryMode,
    ControlDisplay,
    ShiftDisplay,
    ShiftCursor,
    SetFunction,
    SetCgramAddr,
    SetDdramAddr,
}

impl Command {
    pub open spec fn spec_code(self) -> u8 {
        match self {
            Command::ClearDisplay => 0x01,
            Command::ReturnHome => 0x02,
            Command::SetEntryMode => 0x04,
            Command::ControlDisplay => 0x08,
            Command::ShiftDisplay => 0x10,
            Command::ShiftCursor => 0x18,
            Command::SetFunction => 0x20,
            Command::SetCgramAddr => 0x40,
            Command::SetDdramAddr => 0x80,
        }
    }

    /// The opcode bits of this instruction.
    #[verifier::when_used_as_spec(spec_code)]
    pub fn code(self) -> (r: u8)
        ensures
            r == self.spec_code(),
    {
        match self {
            Command::ClearDisplay => 0x01,
            Command::ReturnHome => 0x02,
            Command::SetEntryMode => 0x04,
            Command::ControlDisplay => 0x08,
            Command::ShiftDisplay => 0x10,
            Command::ShiftCursor => 0x18,
            Command::SetFunction => 0x20,
            Command::SetCgramAddr => 0x40,
            Command::SetDdramAddr => 0x80,
        }
    }
}

/// Specifies where to move the pointer after writing/reading data.
#[derive(Clone, Copy, Debug, PartialEq, Eq, Structural)]
pub enum TextDirection {
    /// Decrement the pointer after reading/writing.
    ///
    /// This means the next character will be to the left.
    RightToLeft,
    /// Increment the pointer after reading/writing.
    ///
    /// This means the next character will be to the right.
    LeftToRight,
}

impl TextDirection {
    pub open spec fn spec_bits(self) -> u8 {
        match self {
            TextDirection::RightToLeft => 0,
            TextDirection::LeftToRight => 0x02,
        }
    }

    /// The parameter bit of the entry-mode instruction.
    #[verifier::when_used_as_spec(spec_bits)]
    pub fn bits(self) -> (r: u8)
        ensures
            r == self.spec_bits(),
    {
        match self {
            TextDirection::RightToLeft => 0,
            TextDirection::LeftToRight => 0x02,
        }
    }

    /// Reads the direction back from its bit of `data`.
    pub fn from_u8(data: u8) -> (r: Self)
        ensures
            r == (if data & 0x02 != 0 { TextDirection::LeftToRight } else { TextDirection::RightToLeft }),
    {
        if (data & TextDirection::LeftToRight.bits()) != 0 {
            TextDirection::LeftToRight
        } else {
            TextDirection::RightToLeft
        }
    }
}

/// A direction for shifting the display or the cursor.
#[derive(Clone, Copy, Debug, PartialEq, Eq, Structural)]
pub enum Direction {
    Left,
    Right,
}

impl Direction {
    pub open spec fn spec_bits(self) -> u8 {
        match self {
            Direction::Left => 0,
            Direction::Right => 0x04,
        }
    }

    /// The parameter bit of the shift instructions.
    #[verifier::when_used_as_spec(spec_bits)]
    pub fn bits(self) -> (r: u8)
        ensures
            r == self.spec_bits(),
    {
        match self {
            Direction::Left => 0,
            Direction::Right => 0x04,
        }
    }

    /// Reads the direction back from its bit of `data`.
    pub fn from_u8(data: u8) -> (r: Self)
        ensures
            r == (if data & 0x04 != 0 { Direction::Right } else { Direction::Left }),
    {
        if (data & Direction::Right.bits()) != 0 {
            Direction::Right
        } else {
            Direction::Left
        }
    }
}

/// The number of display lines the controller drives.
#[derive(Clone, Copy, Debug, PartialEq, Eq, Structural)]
pub enum LineCount {
    One,
    Two,
}

impl LineCount {
    pub open spec fn spec_bits(self) -> u8 {
        match self {
            LineCount::One => 0,
            LineCount::Two => 0x08,
        }
    }

    /// The parameter bit of the function-set instruction.
    #[verifier::when_used_as_spec(spec_bits)]
    pub fn bits(self) -> (r: u8)
        ensures
            r == self.spec_bits(),
    {
        match self {
            LineCount::One => 0,
            LineCount::Two => 0x08,
        }
    }

    /// Reads the line count back from its bit of `data`.
    pub fn from_u8(data: u8) -> (r: Self)
        ensures
            r == (if data & 0x08 != 0 { LineCount::Two } else { LineCount::One }),
    {
        if (data & LineCount::Two.bits()) != 0 {
            LineCount::Two
        } else {
            LineCount::One
        }
    }
}

/// The pixel size of one character cell.
#[derive(Clone, Copy, Debug, PartialEq, Eq, Structural)]
pub enum CharacterGrid {
    C5x8,
    C5x11,
}

impl CharacterGrid {
    pub open spec fn spec_bits(self) -> u8 {
        match self {
            CharacterGrid::C5x8 => 0,
            CharacterGrid::C5x11 => 0x04,
        }
    }

    /// The parameter bit of the function-set instruction.
    #[verifier::when_used_as_spec(spec_bits)]
    pub fn bits(self) -> (r: u8)
        ensures
            r == self.spec_bits(),
    {
        match self {
            CharacterGrid::C5x8 => 0,
            CharacterGrid::C5x11 => 0x04,
        }
    }

    /// Reads the character grid back from its bit of `data`.
    pub fn from_u8(data: u8) -> (r: Self)
        ensures
            r == (if data & 0x04 != 0 { CharacterGrid::C5x11 } else { CharacterGrid::C5x8 }),
    {
        if (data & CharacterGrid::C5x11.bits()) != 0 {
            CharacterGrid::C5x11
        } else {
            CharacterGrid::C5x8
        }
    }
}

/// Display-on bit of the display-control instruction.
pub fn show_display(display: bool) -> (r: u8)
    ensures
        r == (if display { 0x04u8 } else { 0u8 }),
{
    let b: u8 = display as u8;
    assert(b == 0 || b == 1 ==> (b == 1 <==> b << 2u8 == 4u8) && (b == 0 <==> b << 2u8 == 0u8))
        by (bit_vector);
    b << 2u8
}

/// Cursor-on bit of the display-control instruction.
pub fn show_cursor(cursor: bool) -> (r: u8)
    ensures
        r == (if cursor { 0x02u8 } else { 0u8 }),
{
    let b: u8 = cursor as u8;
    assert(b == 0 || b == 1 ==> (b == 1 <==> b << 1u8 == 2u8) && (b == 0 <==> b << 1u8 == 0u8))
        by (bit_vector);
    b << 1u8
}

/// Blink-on bit of the display-control instruction.
pub fn show_blinking(blinking: bool) -> (r: u8)
    ensures
        r == (if blinking { 0x01u8 } else { 0u8 }),
{
    blinking as u8
}

/// Bus-width bit of the function-set instruction: set for an 8-line bus.
pub fn line_count(is_8_bit: bool) -> (r: u8)
    ensures
        r == (if is_8_bit { 0x10u8 } else { 0u8 }),
{
    let b: u8 = is_8_bit as u8;
    assert(b == 0 || b == 1 ==> (b == 1 <==> b << 4u8 == 16u8) && (b == 0 <==> b << 4u8 == 0u8))
        by (bit_vector);
    b << 4u8
}

/// Keeps the six bits of a character-generator address.
pub fn cgram_mask(addr: u8) -> (r: u8)
    ensures
        r == addr & 0x3F,
        r < 64,
{
    let r = addr & 0b00111111;
    assert(addr & 0x3F < 64) by (bit_vector);
    r
}

pub open spec fn flag(b: bool, bit: u8) -> u8 {
    if b { bit } else { 0 }
}

pub open spec fn spec_entry_mode(direction: TextDirection, auto_shift_display: bool) -> u8 {
    Command::SetEntryMode.spec_code() | direction.spec_bits() | flag(auto_shift_display, 0x01)
}

pub open spec fn spec_display_control(display: bool, cursor: bool, blinking: bool) -> u8 {
    Command::ControlDisplay.spec_code() | flag(display, 0x04) | flag(cursor, 0x02) | flag(
        blinking,
        0x01,
    )
}

pub open spec fn spec_display_shift(direction: Direction) -> u8 {
    Command::ShiftDisplay.spec_code() | direction.spec_bits()
}

pub open spec fn spec_cursor_shift(direction: Direction) -> u8 {
    Command::ShiftCursor.spec_code() | direction.spec_bits()
}

pub open spec fn spec_function_set(is_8_bit: bool, lines: LineCount, characters: CharacterGrid) -> u8 {
    Command::SetFunction.spec_code() | flag(is_8_bit, 0x10) | lines.spec_bits()
        | characters.spec_bits()
}

pub open spec fn spec_cgram_address(addr: u8) -> u8 {
    Command::SetCgramAddr.spec_code() | (addr & 0x3F)
}

pub open spec fn spec_ddram_address(addr: u8) -> u8 {
    Command::SetDdramAddr.spec_code() | addr
}

/// Entry-mode instruction: pointer direction and display auto-shift.
pub fn entry_mode(direction: TextDirection, auto_shift_display: bool) -> (r: u8)
    ensures
        r == spec_entry_mode(direction, auto_shift_display),
{
    Command::SetEntryMode.code() | direction.bits() | show_blinking(auto_shift_display)
}

/// Display-control instruction: display, cursor and blink flags.
pub fn display_control(display: bool, cursor: bool, blinking: bool) -> (r: u8)
    ensures
        r == spec_display_control(display, cursor, blinking),
{
    Command::ControlDisplay.code() | show_display(display) | show_cursor(cursor) | show_blinking(
        blinking,
    )
}

/// Instruction that shifts the whole display one position.
pub fn display_shift(direction: Direction) -> (r: u8)
    ensures
        r == spec_display_shift(direction),
{
    Command::ShiftDisplay.code() | direction.bits()
}

/// Instruction that moves the cursor one position.
pub fn cursor_shift(direction: Direction) -> (r: u8)
    ensures
        r == spec_cursor_shift(direction),
{
    Command::ShiftCursor.code() | direction.bits()
}

/// Function-set instruction: bus width, line count and character grid.
pub fn function_set(is_8_bit: bool, lines: LineCount, characters: CharacterGrid) -> (r: u8)
    ensures
        r == spec_function_set(is_8_bit, lines, characters),
{
    Command::SetFunction.code() | line_count(is_8_bit) | lines.bits() | characters.bits()
}

/// Set-CGRAM-address instruction; the address is silently cut to six bits.
pub fn cgram_address(addr: u8) -> (r: u8)
    ensures
        r == spec_cgram_address(addr),
{
    Command::SetCgramAddr.code() | cgram_mask(addr)
}

/// Set-DDRAM-address instruction; the address is passed through unchecked.
pub fn ddram_address(addr: u8) -> (r: u8)
    ensures
        r == spec_ddram_address(addr),
{
    Command::SetDdramAddr.code() | addr
}

} // verus!
