//! The controller's command surface and the power-on initialization.
use vstd::prelude::*;
use crate::commands::{
    cgram_address,
    cursor_shift,
    ddram_address,
    display_control,
    display_shift,
    entry_mode,
    function_set,
    spec_cgram_address,
    spec_cursor_shift,
    spec_ddram_address,
    spec_display_control,
    spec_display_shift,
    spec_entry_mode,
    spec_function_set,
    CharacterGrid,
    Command,
    Direction,
    LineCount,
    TextDirection,
};
use crate::gpio::{
    lemma_eight_lines_timing,
    lemma_four_lines_timing,
    lemma_pulse_waits_concat,
    only_pulse_waits,
    EightLines,
    FourLines,
    PinGroup,
    Signal,
};

verus! {

/// Extra wait after clear-display and return-home, in microseconds: these
/// two instructions run far slower than the others.
pub const SLOW_COMMAND_US: u32 = 2000;

/// Distance between the first cells of two consecutive rows in display memory.
pub const ROW_OFFSET: u8 = 0x40;

/// Send `byte` to the instruction register.
pub open spec fn command<G: PinGroup>(byte: u8) -> Seq<Signal> {
    seq![Signal::RegisterSelect(false)] + G::byte_signals(byte)
}

/// The transfers of `bytes`, one after another, in order.
pub open spec fn byte_stream<G: PinGroup>(bytes: Seq<u8>) -> Seq<Signal>
    decreases bytes.len(),
{
    if bytes.len() == 0 {
        Seq::empty()
    } else {
        byte_stream::<G>(bytes.drop_last()) + G::byte_signals(bytes.last())
    }
}

/// Send `bytes` to the data register.
pub open spec fn data_write<G: PinGroup>(bytes: Seq<u8>) -> Seq<Signal> {
    seq![Signal::RegisterSelect(true)] + byte_stream::<G>(bytes)
}

/// The bus-width recovery sequence: nibble 3 twice puts the controller in
/// 8-bit mode whatever its state; a 4-line group then adds nibble 2 to
/// select 4-bit mode. Read/write is then held low for good.
pub open spec fn init_signals<G: PinGroup>() -> Seq<Signal> {
    G::nibble_signals(0x3) + G::nibble_signals(0x3) + (if G::spec_is_8_bit() {
        Seq::empty()
    } else {
        G::nibble_signals(0x2)
    }) + seq![Signal::ReadWrite(false)]
}

/// Display-memory address of a cell: `col + row * 0x40`, cut to a byte.
pub open spec fn cell_address(row: u8, col: u8) -> u8 {
    ((col as int + row as int * ROW_OFFSET as int) % 256) as u8
}

/// Main trait for controlling a HD44780 display.
///
/// Operations do not touch pins themselves: each appends the signals it
/// needs to the driver's pending queue, in the order the bus must see them.
pub trait Driver {
    /// The pin group the bytes travel over.
    type Bus: PinGroup;

    /// Signals emitted and not yet handed out.
    spec fn pending(&self) -> Seq<Signal>;

    /// Clears the display. This adds a 2 ms wait.
    fn clear_display(&mut self)
        ensures
            final(self).pending() == old(self).pending() + command::<Self::Bus>(
                Command::ClearDisplay.spec_code(),
            ) + seq![Signal::Sleep(SLOW_COMMAND_US)],
    ;

    /// Moves the cursor to the start of the memory. This adds a 2 ms wait.
    fn return_home(&mut self)
        ensures
            final(self).pending() == old(self).pending() + command::<Self::Bus>(
                Command::ReturnHome.spec_code(),
            ) + seq![Signal::Sleep(SLOW_COMMAND_US)],
    ;

    /// Sets what happens when data is written to the display memory.
    ///
    /// * `text_direction`: `LeftToRight` increments the address pointer
    ///   after each write, `RightToLeft` decrements it.
    /// * `auto_shift_display`: if `true`, writing a character shifts the
    ///   display as well as the address pointer.
    fn set_entry_mode(&mut self, text_direction: TextDirection, auto_shift_display: bool)
        ensures
            final(self).pending() == old(self).pending() + command::<Self::Bus>(
                spec_entry_mode(text_direction, auto_shift_display),
            ),
    ;

    /// Controls what appears on the LCD: the display itself, an underline
    /// cursor, and blinking of the character under the cursor.
    fn control_display(&mut self, display: bool, cursor: bool, blinking: bool)
        ensures
            final(self).pending() == old(self).pending() + command::<Self::Bus>(
                spec_display_control(display, cursor, blinking),
            ),
    ;

    /// Shifts the display in the given direction; the data memory is unchanged.
    fn shift_display(&mut self, direction: Direction)
        ensures
            final(self).pending() == old(self).pending() + command::<Self::Bus>(
                spec_display_shift(direction),
            ),
    ;

    /// Moves the cursor in the given direction.
    fn shift_cursor(&mut self, direction: Direction)
        ensures
            final(self).pending() == old(self).pending() + command::<Self::Bus>(
                spec_cursor_shift(direction),
            ),
    ;

    /// Sets the line count and the character grid. The bus-width bit comes
    /// from the pin group.
    fn set_function(&mut self, lines: LineCount, characters: CharacterGrid)
        ensures
            final(self).pending() == old(self).pending() + command::<Self::Bus>(
                spec_function_set(<Self::Bus as PinGroup>::spec_is_8_bit(), lines, characters),
            ),
    ;

    /// Sets the address counter to the given character-generator address,
    /// silently cut to six bits.
    fn set_cgram_address(&mut self, addr: u8)
        ensures
            final(self).pending() == old(self).pending() + command::<Self::Bus>(
                spec_cgram_address(addr),
            ),
    ;

    /// Sets the address counter to the given display-memory address.
    fn set_ddram_address(&mut self, addr: u8)
        ensures
            final(self).pending() == old(self).pending() + command::<Self::Bus>(
                spec_ddram_address(addr),
            ),
    ;

    /// Writes a byte of data at the current address.
    fn write_data(&mut self, data: u8)
        ensures
            final(self).pending() == old(self).pending() + data_write::<Self::Bus>(seq![data]),
    ;

    /// Writes the bytes of `data` one by one at the current address.
    fn write_slice(&mut self, data: &[u8])
        ensures
            final(self).pending() == old(self).pending() + data_write::<Self::Bus>(data@),
    ;

    /// Defines custom glyph `glyph_id` from one byte per row; only the low
    /// 5 bits of each row are shown. The caller supplies as many rows as the
    /// active character grid has.
    fn define_glyph(&mut self, glyph_id: u8, data: &[u8])
        ensures
            final(self).pending() == old(self).pending() + command::<Self::Bus>(
                spec_cgram_address(glyph_id << 3u8),
            ) + data_write::<Self::Bus>(data@),
    {
        self.set_cgram_address(glyph_id << 3u8);
        self.write_slice(data);
    }

    /// Writes `data` starting at the cell of `row` and `col`.
    fn write_at(&mut self, row: u8, col: u8, data: &[u8])
        ensures
            final(self).pending() == old(self).pending() + command::<Self::Bus>(
                spec_ddram_address(cell_address(row, col)),
            ) + data_write::<Self::Bus>(data@),
    {
        self.set_cursor(row, col);
        self.write_slice(data);
    }

    /// Moves the cursor to the cell of `row` and `col`.
    fn set_cursor(&mut self, row: u8, col: u8)
        ensures
            final(self).pending() == old(self).pending() + command::<Self::Bus>(
                spec_ddram_address(cell_address(row, col)),
            ),
    {
        let sum: u16 = col as u16 + row as u16 * 0x40u16;
        let addr: u8 = #[verifier::truncate] (sum as u8);
        assert(addr == sum % 256) by (bit_vector)
            requires
                addr == sum as u8,
        ;
        assert(addr == cell_address(row, col));
        self.set_ddram_address(addr);
    }
}

/// The driver: it owns the pin group and the queue of signals that the
/// pins still have to play.
pub struct PinDriver<Data: PinGroup> {
    data: Data,
    signals: Vec<Signal>,
}

impl<Data: PinGroup> PinDriver<Data> {
    /// Creates a driver over the given pin group and runs the
    /// initialization sequence, which is then pending.
    pub fn new(data: Data) -> (r: Self)
        ensures
            r.pending() == init_signals::<Data>(),
    {
        let mut driver = PinDriver { data: data, signals: Vec::new() };
        driver.initialize_bits();
        driver.signals.push(Signal::ReadWrite(false));
        assert(driver.signals@ =~= init_signals::<Data>());
        driver
    }

    /// Hands out the pending signals, oldest first, and empties the queue.
    pub fn take_signals(&mut self) -> (r: Vec<Signal>)
        ensures
            r@ == old(self).pending(),
            final(self).pending() == Seq::<Signal>::empty(),
    {
        let mut out: Vec<Signal> = Vec::new();
        std::mem::swap(&mut out, &mut self.signals);
        assert(self.signals@ =~= Seq::<Signal>::empty());
        out
    }

    fn write_u4(&mut self, data: u8)
        ensures
            final(self).pending() == old(self).pending() + Data::nibble_signals(data),
    {
        self.data.write_u4(data, &mut self.signals);
    }

    fn write(&mut self, data: u8)
        ensures
            final(self).pending() == old(self).pending() + Data::byte_signals(data),
    {
        self.data.write(data, &mut self.signals);
    }

    fn command(&mut self, byte: u8)
        ensures
            final(self).pending() == old(self).pending() + command::<Data>(byte),
    {
        self.signals.push(Signal::RegisterSelect(false));
        self.write(byte);
        assert(self.signals@ =~= old(self).signals@ + command::<Data>(byte));
    }

    fn initialize_bits(&mut self)
        ensures
            final(self).pending() == old(self).pending() + Data::nibble_signals(0x3)
                + Data::nibble_signals(0x3) + (if Data::spec_is_8_bit() {
                Seq::empty()
            } else {
                Data::nibble_signals(0x2)
            }),
    {
        // The controller may be in 8-bit mode, or halfway through a 4-bit
        // instruction. Nibble 3 twice selects 8-bit mode in either case.
        self.write_u4(0x3);
        self.write_u4(0x3);
        if !Data::is_8_bit() {
            // From a known 8-bit state, switch to 4-bit mode.
            self.write_u4(0x2);
        }
        assert(self.signals@ =~= old(self).signals@ + Data::nibble_signals(0x3)
            + Data::nibble_signals(0x3) + (if Data::spec_is_8_bit() {
            Seq::empty()
        } else {
            Data::nibble_signals(0x2)
        }));
    }
}

impl<Data: PinGroup> Driver for PinDriver<Data> {
    type Bus = Data;

    closed spec fn pending(&self) -> Seq<Signal> {
        self.signals@
    }

    fn clear_display(&mut self) {
        self.command(Command::ClearDisplay.code());
        self.signals.push(Signal::Sleep(SLOW_COMMAND_US));
    }

    fn return_home(&mut self) {
        self.command(Command::ReturnHome.code());
        self.signals.push(Signal::Sleep(SLOW_COMMAND_US));
    }

    fn set_entry_mode(&mut self, text_direction: TextDirection, auto_shift_display: bool) {
        self.command(entry_mode(text_direction, auto_shift_display));
    }

    fn control_display(&mut self, display: bool, cursor: bool, blinking: bool) {
        self.command(display_control(display, cursor, blinking));
    }

    fn shift_display(&mut self, direction: Direction) {
        self.command(display_shift(direction));
    }

    fn shift_cursor(&mut self, direction: Direction) {
        self.command(cursor_shift(direction));
    }

    fn set_function(&mut self, lines: LineCount, characters: CharacterGrid) {
        self.command(function_set(Data::is_8_bit(), lines, characters));
    }

    fn set_cgram_address(&mut self, addr: u8) {
        self.command(cgram_address(addr));
    }

    fn set_ddram_address(&mut self, addr: u8) {
        self.command(ddram_address(addr));
    }

    fn write_data(&mut self, data: u8) {
        self.signals.push(Signal::RegisterSelect(true));
        self.write(data);
        assert(seq![data].drop_last() =~= Seq::<u8>::empty());
        assert(byte_stream::<Data>(Seq::empty()) =~= Seq::<Signal>::empty());
        assert(self.signals@ =~= old(self).signals@ + data_write::<Data>(seq![data]));
    }

    fn write_slice(&mut self, data: &[u8]) {
        self.signals.push(Signal::RegisterSelect(true));
        let mut i: usize = 0;
        while i < data.len()
            invariant
                i <= data@.len(),
                self.signals@ == old(self).signals@ + seq![Signal::RegisterSelect(true)]
                    + byte_stream::<Data>(data@.take(i as int)),
            decreases data@.len() - i,
        {
            self.write(data[i]);
            assert(data@.take(i + 1).drop_last() =~= data@.take(i as int));
            i = i + 1;
        }
        assert(data@.take(data@.len() as int) =~= data@);
        assert(self.signals@ =~= old(self).signals@ + data_write::<Data>(data@));
    }
}

proof fn lemma_stream_timing<G: PinGroup>(bytes: Seq<u8>)
    requires
        forall|b: u8| only_pulse_waits(#[trigger] G::byte_signals(b)),
    ensures
        only_pulse_waits(byte_stream::<G>(bytes)),
    decreases bytes.len(),
{
    if bytes.len() == 0 {
        assert(byte_stream::<G>(bytes) =~= Seq::<Signal>::empty());
    } else {
        lemma_stream_timing::<G>(bytes.drop_last());
        lemma_pulse_waits_concat(byte_stream::<G>(bytes.drop_last()), G::byte_signals(bytes.last()));
    }
}

proof fn lemma_transfer_timing<G: PinGroup>(byte: u8, bytes: Seq<u8>)
    requires
        forall|b: u8| only_pulse_waits(#[trigger] G::byte_signals(b)),
    ensures
        only_pulse_waits(command::<G>(byte)),
        only_pulse_waits(data_write::<G>(bytes)),
{
    let rs_low = seq![Signal::RegisterSelect(false)];
    let rs_high = seq![Signal::RegisterSelect(true)];
    assert(rs_low[0] == Signal::RegisterSelect(false));
    assert(rs_high[0] == Signal::RegisterSelect(true));
    assert(only_pulse_waits(rs_low));
    assert(only_pulse_waits(rs_high));
    lemma_pulse_waits_concat(rs_low, G::byte_signals(byte));
    lemma_stream_timing::<G>(bytes);
    lemma_pulse_waits_concat(rs_high, byte_stream::<G>(bytes));
}

/// Only clear-display and return-home wait beyond the enable-pulse timing.
///
/// Every driver operation appends instruction transfers (`command`) and data
/// transfers (`data_write`); over either pin group these wait only 1 µs or
/// 100 µs at a time. Clear-display and return-home alone append a further
/// wait of `SLOW_COMMAND_US` (2000 µs) after their instruction.
pub proof fn lemma_only_slow_commands_wait(byte: u8, bytes: Seq<u8>)
    ensures
        only_pulse_waits(command::<EightLines>(byte)),
        only_pulse_waits(data_write::<EightLines>(bytes)),
        only_pulse_waits(command::<FourLines>(byte)),
        only_pulse_waits(data_write::<FourLines>(bytes)),
        SLOW_COMMAND_US >= 2000,
{
    assert forall|b: u8| only_pulse_waits(#[trigger] EightLines::byte_signals(b)) by {
        lemma_eight_lines_timing(b);
    }
    assert forall|b: u8| only_pulse_waits(#[trigger] FourLines::byte_signals(b)) by {
        lemma_four_lines_timing(b);
    }
    lemma_transfer_timing::<EightLines>(byte, bytes);
    lemma_transfer_timing::<FourLines>(byte, bytes);
}

} // verus!
