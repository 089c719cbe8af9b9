//! How a byte travels over the data lines of a pin group.
//!
//! The bus is described as a sequence of [`Signal`]s: pin levels to drive
//! and waits to observe, in order. Whoever owns the physical pins plays
//! the sequence back; the controller gives no feedback, so nothing else
//! is needed to reproduce the protocol.
use vstd::prelude::*;

verus! {

/// Shortest high time of the enable line, in microseconds.
pub const ENABLE_PULSE_US: u32 = 1;

/// Time the controller needs after an enable pulse, in microseconds.
pub const SETTLE_US: u32 = 100;

/// One step of bus activity.
#[derive(Clone, Copy, Debug, PartialEq, Eq, Structural)]
pub enum Signal {
    /// Drive register-select: low selects the instruction register, high
    /// the data register.
    RegisterSelect(bool),
    /// Drive the read/write line: low means write.
    ReadWrite(bool),
    /// Drive the enable line, which latches the data lines on its falling edge.
    Enable(bool),
    /// Drive a data line of the pin group, numbered from 0 (the lowest bit).
    Data(u8, bool),
    /// Wait at least this many microseconds.
    Sleep(u32),
}

/// Bit `i` of `data`, counted from the least significant bit.
pub open spec fn bit(data: u8, i: u8) -> bool {
    (data >> i) & 1u8 == 1u8
}

/// Drive the first `n` data lines to the low `n` bits of `data`, line `i`
/// taking bit `i`.
pub open spec fn data_lines(data: u8, n: nat) -> Seq<Signal> {
    Seq::new(n, |i: int| Signal::Data(i as u8, bit(data, i as u8)))
}

/// Latch the data lines: enable high, short wait, enable low, settle.
pub open spec fn enable_pulse() -> Seq<Signal> {
    seq![
        Signal::Enable(true),
        Signal::Sleep(ENABLE_PULSE_US),
        Signal::Enable(false),
        Signal::Sleep(SETTLE_US),
    ]
}

/// Appends the levels of the first `n` data lines for `data`.
fn push_data_lines(data: u8, n: u8, out: &mut Vec<Signal>)
    requires
        n <= 8,
    ensures
        final(out)@ == old(out)@ + data_lines(data, n as nat),
{
    let mut i: u8 = 0;
    while i < n
        invariant
            i <= n <= 8,
            out@ == old(out)@ + data_lines(data, i as nat),
        decreases n - i,
    {
        let high = data & (1u8 << i) != 0;
        assert((data & (1u8 << i) != 0) == ((data >> i) & 1u8 == 1u8)) by (bit_vector)
            requires
                i < 8,
        ;
        out.push(Signal::Data(i, high));
        assert(data_lines(data, (i + 1) as nat) =~= data_lines(data, i as nat).push(
            Signal::Data(i, high),
        ));
        i = i + 1;
    }
}

/// Appends one enable pulse with its timing.
fn push_enable_pulse(out: &mut Vec<Signal>)
    ensures
        final(out)@ == old(out)@ + enable_pulse(),
{
    out.push(Signal::Enable(true));
    out.push(Signal::Sleep(ENABLE_PULSE_US));
    out.push(Signal::Enable(false));
    out.push(Signal::Sleep(SETTLE_US));
    assert(final(out)@ =~= old(out)@ + enable_pulse());
}

/// A group of data lines plus the enable line, used for data transfer.
///
/// With 8 lines a byte goes over in one step; with 4 lines a byte goes
/// over in two steps, high nibble first. The width is a fixed property of
/// the type.
pub trait PinGroup {
    /// What `write` emits for a full byte.
    spec fn byte_signals(data: u8) -> Seq<Signal>;

    /// What `write_u4` emits for the low 4 bits of `data`.
    spec fn nibble_signals(data: u8) -> Seq<Signal>;

    /// Whether the group has 8 data lines.
    spec fn spec_is_8_bit() -> bool;

    /// Sends a full 8-bit value.
    fn write(&self, data: u8, out: &mut Vec<Signal>)
        ensures
            final(out)@ == old(out)@ + Self::byte_signals(data),
    ;

    /// Sends a 4-bit value, the low nibble of `data`.
    fn write_u4(&self, data: u8, out: &mut Vec<Signal>)
        ensures
            final(out)@ == old(out)@ + Self::nibble_signals(data),
    ;

    /// Returns `true` if this group uses 8 data lines.
    fn is_8_bit() -> (r: bool)
        ensures
            r == Self::spec_is_8_bit(),
    ;
}

/// Eight data lines: bit `i` of a byte drives line `i`.
#[derive(Clone, Copy, Debug, PartialEq, Eq, Structural)]
pub struct EightLines;

/// Four data lines, wired to the controller's upper four data inputs.
#[derive(Clone, Copy, Debug, PartialEq, Eq, Structural)]
pub struct FourLines;

impl PinGroup for EightLines {
    open spec fn byte_signals(data: u8) -> Seq<Signal> {
        data_lines(data, 8) + enable_pulse()
    }

    /// In 8-line mode a nibble is sent as the upper half of a byte.
    open spec fn nibble_signals(data: u8) -> Seq<Signal> {
        Self::byte_signals(data << 4u8)
    }

    open spec fn spec_is_8_bit() -> bool {
        true
    }

    fn write(&self, data: u8, out: &mut Vec<Signal>) {
        push_data_lines(data, 8, out);
        push_enable_pulse(out);
        assert(final(out)@ =~= old(out)@ + Self::byte_signals(data));
    }

    fn write_u4(&self, data: u8, out: &mut Vec<Signal>) {
        self.write(data << 4u8, out);
    }

    fn is_8_bit() -> (r: bool) {
        true
    }
}

impl PinGroup for FourLines {
    /// High nibble first, then low nibble, each with its own pulse.
    open spec fn byte_signals(data: u8) -> Seq<Signal> {
        Self::nibble_signals(data >> 4u8) + Self::nibble_signals(data)
    }

    open spec fn nibble_signals(data: u8) -> Seq<Signal> {
        data_lines(data, 4) + enable_pulse()
    }

    open spec fn spec_is_8_bit() -> bool {
        false
    }

    fn write(&self, data: u8, out: &mut Vec<Signal>) {
        self.write_u4(data >> 4u8, out);
        self.write_u4(data, out);
        assert(final(out)@ =~= old(out)@ + Self::byte_signals(data));
    }

    fn write_u4(&self, data: u8, out: &mut Vec<Signal>) {
        push_data_lines(data, 4, out);
        push_enable_pulse(out);
        assert(final(out)@ =~= old(out)@ + Self::nibble_signals(data));
    }

    fn is_8_bit() -> (r: bool) {
        false
    }
}

/// No step of `s` waits for anything but the enable-pulse timing.
pub open spec fn only_pulse_waits(s: Seq<Signal>) -> bool {
    forall|i: int|
        0 <= i < s.len() ==> match #[trigger] s[i] {
            Signal::Sleep(us) => us == ENABLE_PULSE_US || us == SETTLE_US,
            _ => true,
        }
}

/// Two sequences that wait only for the enable pulse still do so one after
/// the other.
pub proof fn lemma_pulse_waits_concat(a: Seq<Signal>, b: Seq<Signal>)
    requires
        only_pulse_waits(a),
        only_pulse_waits(b),
    ensures
        only_pulse_waits(a + b),
{
    assert forall|i: int| 0 <= i < (a + b).len() implies match #[trigger] (a + b)[i] {
        Signal::Sleep(us) => us == ENABLE_PULSE_US || us == SETTLE_US,
        _ => true,
    } by {
        if i < a.len() {
            assert((a + b)[i] == a[i]);
        } else {
            assert((a + b)[i] == b[i - a.len()]);
        }
    }
}

proof fn lemma_lines_and_pulse_waits(data: u8, n: nat)
    ensures
        only_pulse_waits(data_lines(data, n) + enable_pulse()),
{
    let p = enable_pulse();
    assert(p[0] == Signal::Enable(true));
    assert(p[1] == Signal::Sleep(ENABLE_PULSE_US));
    assert(p[2] == Signal::Enable(false));
    assert(p[3] == Signal::Sleep(SETTLE_US));
    assert(only_pulse_waits(p));
    assert(only_pulse_waits(data_lines(data, n)));
    lemma_pulse_waits_concat(data_lines(data, n), p);
}

/// A byte or nibble sent over eight lines waits only for the enable pulse:
/// 1 µs with enable high, then 100 µs after it falls.
pub proof fn lemma_eight_lines_timing(data: u8)
    ensures
        only_pulse_waits(EightLines::byte_signals(data)),
        only_pulse_waits(EightLines::nibble_signals(data)),
{
    lemma_lines_and_pulse_waits(data, 8);
    lemma_lines_and_pulse_waits(data << 4u8, 8);
}

/// A byte or nibble sent over four lines waits only for the enable pulses:
/// 1 µs with enable high, then 100 µs after it falls.
pub proof fn lemma_four_lines_timing(data: u8)
    ensures
        only_pulse_waits(FourLines::byte_signals(data)),
        only_pulse_waits(FourLines::nibble_signals(data)),
{
    lemma_lines_and_pulse_waits(data, 4);
    lemma_lines_and_pulse_waits(data >> 4u8, 4);
    lemma_pulse_waits_concat(FourLines::nibble_signals(data >> 4u8), FourLines::nibble_signals(data));
}

} // verus!
