use vstd::prelude::*;
use vstd::string::{StrSliceExecFns, StringSliceAdditionalSpecFns};

verus! {

/// Expander bit of the register select line: 0 command, 1 data.
pub const RS_BIT: u8 = 0b0000_0001;

/// Expander bit of the enable strobe.
pub const EN_BIT: u8 = 0b0000_0100;

/// Expander bit of the backlight.
pub const BL_BIT: u8 = 0b0000_1000;

/// Bus address of the I2C port expander in front of the character LCD.
pub const LCD_ADDRESS: u8 = 0x27;

/// One step of talking to the character LCD through its port expander: a byte written to
/// the expander, or a pause.
#[derive(Clone, Copy, Debug, PartialEq, Eq, Structural)]
pub enum LcdStep {
    Write(u8),
    DelayUs(u32),
}

/// The expander byte that puts `nibble` on the data lines D4..D7, with the register select
/// line set for data when `rs` holds, and the backlight on.
pub open spec fn nibble_data(nibble: u8, rs: bool) -> u8 {
    ((nibble % 16) * 16 + (if rs { 1int } else { 0int }) + 8) as u8
}

/// Latches `data`: written with the enable strobe high, held, then written with it low.
pub open spec fn pulse_steps(data: u8) -> Seq<LcdStep> {
    seq![LcdStep::Write(data | EN_BIT), LcdStep::DelayUs(50), LcdStep::Write(data & !EN_BIT), LcdStep::DelayUs(100)]
}

/// Sends one nibble.
pub open spec fn nibble_steps(nibble: u8, rs: bool) -> Seq<LcdStep> {
    pulse_steps(nibble_data(nibble, rs))
}

/// Sends one byte in 4-bit mode, high nibble first.
pub open spec fn byte_steps(byte: u8, rs: bool) -> Seq<LcdStep> {
    nibble_steps(byte / 16, rs) + nibble_steps(byte % 16, rs)
}

/// Writes the characters of `s` one after the other.
pub open spec fn text_steps(s: Seq<u8>) -> Seq<LcdStep>
    decreases s.len(),
{
    if s.len() == 0 {
        Seq::empty()
    } else {
        text_steps(s.drop_last()) + byte_steps(s.last(), true)
    }
}

/// The display data address of column `col` on row `row`: the second row starts at 0x40.
pub open spec fn cursor_address(col: u8, row: u8) -> int {
    if row == 1 {
        col + 0x40
    } else {
        col as int
    }
}

/// The power-up sequence: three resets to 8-bit mode, the switch to 4-bit mode, then function
/// set (two lines, 5x8 dots), display on with no cursor, left-to-right entry, clear, and home.
pub open spec fn init_steps() -> Seq<LcdStep> {
    nibble_steps(0x03, false) + seq![LcdStep::DelayUs(5000)] + nibble_steps(0x03, false) + seq![
        LcdStep::DelayUs(100),
    ] + nibble_steps(0x03, false) + seq![LcdStep::DelayUs(100)] + nibble_steps(0x02, false) + seq![
        LcdStep::DelayUs(100),
    ] + byte_steps(0x28, false) + seq![LcdStep::DelayUs(50)] + byte_steps(0x0C, false) + seq![
        LcdStep::DelayUs(50),
    ] + byte_steps(0x06, false) + seq![LcdStep::DelayUs(50)] + byte_steps(0x01, false) + seq![
        LcdStep::DelayUs(2000),
    ] + byte_steps(0x80, false) + seq![LcdStep::DelayUs(50)]
}

fn emit_pulse(out: &mut Vec<LcdStep>, data: u8)
    ensures
        final(out)@ == old(out)@ + pulse_steps(data),
{
    out.push(LcdStep::Write(data | EN_BIT));
    out.push(LcdStep::DelayUs(50));
    out.push(LcdStep::Write(data & !EN_BIT));
    out.push(LcdStep::DelayUs(100));
    assert(final(out)@ =~= old(out)@ + pulse_steps(data));
}

fn emit_nibble(out: &mut Vec<LcdStep>, nibble: u8, rs: bool)
    ensures
        final(out)@ == old(out)@ + nibble_steps(nibble, rs),
{
    let mut data: u8 = (nibble & 0x0F) << 4;
    if rs {
        data |= RS_BIT;
    }
    data |= BL_BIT;
    assert(data == nibble_data(nibble, rs)) by {
        let low: u8 = nibble & 0x0F;
        let shifted: u8 = low << 4;
        assert(low == nibble % 16 && shifted == low * 16) by (bit_vector)
            requires
                low == nibble & 0x0F,
                shifted == low << 4,
        ;
        if rs {
            assert((shifted | 1u8) | 8u8 == shifted + 9) by (bit_vector)
                requires
                    shifted == (nibble & 0x0F) << 4,
            ;
        } else {
            assert(shifted | 8u8 == shifted + 8) by (bit_vector)
                requires
                    shifted == (nibble & 0x0F) << 4,
            ;
        }
    }
    emit_pulse(out, data);
}

fn emit_byte(out: &mut Vec<LcdStep>, byte: u8, rs: bool)
    ensures
        final(out)@ == old(out)@ + byte_steps(byte, rs),
{
    let high: u8 = byte >> 4;
    let low: u8 = byte & 0x0F;
    assert(high == byte / 16 && low == byte % 16) by (bit_vector)
        requires
            high == byte >> 4,
            low == byte & 0x0F,
    ;
    emit_nibble(out, high, rs);
    emit_nibble(out, low, rs);
    assert(final(out)@ =~= old(out)@ + byte_steps(byte, rs));
}

/// The writes that latch the expander byte `data` into the LCD.
pub fn pulse_en(data: u8) -> (r: Vec<LcdStep>)
    ensures
        r@ == pulse_steps(data),
{
    let mut out: Vec<LcdStep> = Vec::new();
    emit_pulse(&mut out, data);
    assert(out@ =~= pulse_steps(data));
    out
}

/// The writes that send the low four bits of `nibble`, as data when `rs` holds, else as a
/// command.
pub fn send_nibble(nibble: u8, rs: bool) -> (r: Vec<LcdStep>)
    ensures
        r@ == nibble_steps(nibble, rs),
{
    let mut out: Vec<LcdStep> = Vec::new();
    emit_nibble(&mut out, nibble, rs);
    assert(out@ =~= nibble_steps(nibble, rs));
    out
}

/// The writes that send `byte`, high nibble first.
pub fn send_byte(byte: u8, rs: bool) -> (r: Vec<LcdStep>)
    ensures
        r@ == byte_steps(byte, rs),
{
    let mut out: Vec<LcdStep> = Vec::new();
    emit_byte(&mut out, byte, rs);
    assert(out@ =~= byte_steps(byte, rs));
    out
}

/// The writes that send the instruction `cmd`.
pub fn command(cmd: u8) -> (r: Vec<LcdStep>)
    ensures
        r@ == byte_steps(cmd, false),
{
    send_byte(cmd, false)
}

/// The writes that put character `c` at the cursor.
pub fn write_char(c: u8) -> (r: Vec<LcdStep>)
    ensures
        r@ == byte_steps(c, true),
{
    send_byte(c, true)
}

/// The writes that put the bytes of `s` at the cursor, in order.
pub fn write_str(s: &str) -> (r: Vec<LcdStep>)
    ensures
        r@ == text_steps(s.spec_bytes()),
{
    let bytes: Vec<u8> = s.as_bytes_vec();
    let mut out: Vec<LcdStep> = Vec::new();
    let mut i: usize = 0;
    while i < bytes.len()
        invariant
            bytes@ == s.spec_bytes(),
            i <= bytes@.len(),
            out@ == text_steps(bytes@.take(i as int)),
        decreases bytes@.len() - i,
    {
        emit_byte(&mut out, bytes[i], true);
        proof {
            assert(bytes@.take(i + 1).drop_last() =~= bytes@.take(i as int));
        }
        i = i + 1;
    }
    assert(bytes@.take(i as int) =~= bytes@);
    out
}

/// The writes that clear the display, with the pause that clearing takes.
pub fn clear() -> (r: Vec<LcdStep>)
    ensures
        r@ == byte_steps(0x01, false) + seq![LcdStep::DelayUs(2000)],
{
    let mut out: Vec<LcdStep> = Vec::new();
    emit_byte(&mut out, 0x01, false);
    out.push(LcdStep::DelayUs(2000));
    assert(out@ =~= byte_steps(0x01, false) + seq![LcdStep::DelayUs(2000)]);
    out
}

/// The power-up sequence of the LCD in 4-bit mode.
pub fn init() -> (r: Vec<LcdStep>)
    ensures
        r@ == init_steps(),
{
    let mut out: Vec<LcdStep> = Vec::new();
    emit_nibble(&mut out, 0x03, false);
    out.push(LcdStep::DelayUs(5000));
    emit_nibble(&mut out, 0x03, false);
    out.push(LcdStep::DelayUs(100));
    emit_nibble(&mut out, 0x03, false);
    out.push(LcdStep::DelayUs(100));
    emit_nibble(&mut out, 0x02, false);
    out.push(LcdStep::DelayUs(100));
    emit_byte(&mut out, 0x28, false);
    out.push(LcdStep::DelayUs(50));
    emit_byte(&mut out, 0x0C, false);
    out.push(LcdStep::DelayUs(50));
    emit_byte(&mut out, 0x06, false);
    out.push(LcdStep::DelayUs(50));
    emit_byte(&mut out, 0x01, false);
    out.push(LcdStep::DelayUs(2000));
    emit_byte(&mut out, 0x80, false);
    out.push(LcdStep::DelayUs(50));
    assert(out@ =~= init_steps());
    out
}

/// The writes that move the cursor to column `col` of row `row` (row 1 is the second row,
/// any other value the first).
pub fn set_cursor(col: u8, row: u8) -> (r: Vec<LcdStep>)
    requires
        row == 1 ==> col < 0xC0,
    ensures
        r@ == byte_steps((0x80u8 | (cursor_address(col, row) as u8)), false),
{
    let mut address: u8 = col;
    if row == 1 {
        address += 0x40;
    }
    command(0x80 | address)
}

} // verus!
