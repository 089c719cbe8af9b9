use lcd_hd44780::commands::{
    cgram_address,
    cgram_mask,
    cursor_shift,
    ddram_address,
    display_control,
    display_shift,
    entry_mode,
    function_set,
    line_count,
    show_blinking,
    show_cursor,
    show_display,
    CharacterGrid,
    Command,
    Direction,
    LineCount,
    TextDirection,
};

#[test]
fn clear_and_home_opcodes() {
    assert_eq!(Command::ClearDisplay.code(), 0x01);
    assert_eq!(Command::ReturnHome.code(), 0x02);
}

#[test]
fn opcode_positions() {
    assert_eq!(Command::SetEntryMode.code(), 0x04);
    assert_eq!(Command::ControlDisplay.code(), 0x08);
    assert_eq!(Command::ShiftDisplay.code(), 0x10);
    assert_eq!(Command::ShiftCursor.code(), 0x18);
    assert_eq!(Command::SetFunction.code(), 0x20);
    assert_eq!(Command::SetCgramAddr.code(), 0x40);
    assert_eq!(Command::SetDdramAddr.code(), 0x80);
}

#[test]
fn entry_mode_encoding() {
    assert_eq!(entry_mode(TextDirection::LeftToRight, true), 0x07);
    assert_eq!(entry_mode(TextDirection::RightToLeft, false), 0x04);
    assert_eq!(entry_mode(TextDirection::LeftToRight, false), 0x06);
    assert_eq!(entry_mode(TextDirection::RightToLeft, true), 0x05);
}

#[test]
fn display_control_encoding() {
    assert_eq!(display_control(true, true, true), 0x0F);
    assert_eq!(display_control(false, false, false), 0x08);
    assert_eq!(display_control(true, false, false), 0x0C);
    assert_eq!(display_control(false, true, false), 0x0A);
    assert_eq!(display_control(false, false, true), 0x09);
}

#[test]
fn cgram_address_drops_upper_bits() {
    assert_eq!(cgram_address(0xFF), 0x7F);
    assert_eq!(cgram_address(0x08), 0x48);
    assert_eq!(cgram_mask(0xFF), 0x3F);
    assert_eq!(cgram_mask(0x40), 0x00);
    assert_eq!(cgram_mask(0x15), 0x15);
}

#[test]
fn ddram_address_passes_through() {
    assert_eq!(ddram_address(0x45), 0xC5);
    assert_eq!(ddram_address(0x00), 0x80);
    assert_eq!(ddram_address(0xFF), 0xFF);
}

#[test]
fn shift_encoding() {
    assert_eq!(display_shift(Direction::Left), 0x10);
    assert_eq!(display_shift(Direction::Right), 0x14);
    assert_eq!(cursor_shift(Direction::Left), 0x18);
    assert_eq!(cursor_shift(Direction::Right), 0x1C);
}

#[test]
fn function_set_encoding() {
    assert_eq!(function_set(true, LineCount::Two, CharacterGrid::C5x8), 0x38);
    assert_eq!(function_set(false, LineCount::Two, CharacterGrid::C5x8), 0x28);
    assert_eq!(function_set(false, LineCount::One, CharacterGrid::C5x11), 0x24);
    assert_eq!(function_set(false, LineCount::One, CharacterGrid::C5x8), 0x20);
}

#[test]
fn flag_helpers() {
    assert_eq!(show_display(true), 0x04);
    assert_eq!(show_display(false), 0);
    assert_eq!(show_cursor(true), 0x02);
    assert_eq!(show_cursor(false), 0);
    assert_eq!(show_blinking(true), 0x01);
    assert_eq!(show_blinking(false), 0);
    assert_eq!(line_count(true), 0x10);
    assert_eq!(line_count(false), 0);
}

#[test]
fn parameters_from_bits() {
    assert_eq!(TextDirection::from_u8(0x02), TextDirection::LeftToRight);
    assert_eq!(TextDirection::from_u8(0xFD), TextDirection::RightToLeft);
    assert_eq!(Direction::from_u8(0x04), Direction::Right);
    assert_eq!(Direction::from_u8(0xFB), Direction::Left);
    assert_eq!(LineCount::from_u8(0x08), LineCount::Two);
    assert_eq!(LineCount::from_u8(0xF7), LineCount::One);
    assert_eq!(CharacterGrid::from_u8(0x04), CharacterGrid::C5x11);
    assert_eq!(CharacterGrid::from_u8(0x00), CharacterGrid::C5x8);
}

#[test]
fn parameter_bits_round_trip() {
    for d in [TextDirection::LeftToRight, TextDirection::RightToLeft] {
        assert_eq!(TextDirection::from_u8(d.bits()), d);
    }
    for d in [Direction::Left, Direction::Right] {
        assert_eq!(Direction::from_u8(d.bits()), d);
    }
    for l in [LineCount::One, LineCount::Two] {
        assert_eq!(LineCount::from_u8(l.bits()), l);
    }
    for g in [CharacterGrid::C5x8, CharacterGrid::C5x11] {
        assert_eq!(CharacterGrid::from_u8(g.bits()), g);
    }
}
