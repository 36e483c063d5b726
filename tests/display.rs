use asm_firmware::display::{
    clear, command, init, pulse_en, send_byte, send_nibble, set_cursor, write_char, write_str, LcdStep,
};

use LcdStep::{DelayUs, Write};

fn writes(steps: &[LcdStep]) -> Vec<u8> {
    steps
        .iter()
        .filter_map(|s| match s {
            Write(b) => Some(*b),
            DelayUs(_) => None,
        })
        .collect()
}

#[test]
fn pulse_raises_then_drops_enable() {
    assert_eq!(pulse_en(0x38), vec![Write(0x3C), DelayUs(50), Write(0x38), DelayUs(100)]);
    assert_eq!(pulse_en(0xFF), vec![Write(0xFF), DelayUs(50), Write(0xFB), DelayUs(100)]);
}

#[test]
fn nibble_goes_to_the_high_lines_with_backlight() {
    assert_eq!(send_nibble(0x03, false), vec![Write(0x3C), DelayUs(50), Write(0x38), DelayUs(100)]);
    assert_eq!(send_nibble(0x03, true), vec![Write(0x3D), DelayUs(50), Write(0x39), DelayUs(100)]);
    // only the low four bits are sent
    assert_eq!(send_nibble(0xF2, false), send_nibble(0x02, false));
}

#[test]
fn byte_is_high_nibble_then_low_nibble() {
    let steps = send_byte(0x41, true);
    assert_eq!(steps.len(), 8);
    assert_eq!(writes(&steps), vec![0x4D, 0x49, 0x1D, 0x19]);
    assert_eq!(write_char(0x41), steps);
}

#[test]
fn command_uses_the_instruction_register() {
    assert_eq!(writes(&command(0x28)), vec![0x2C, 0x28, 0x8C, 0x88]);
    assert_eq!(command(0x28), send_byte(0x28, false));
}

#[test]
fn text_is_sent_char_by_char() {
    let steps = write_str("Hi");
    let mut expected = write_char(b'H');
    expected.extend(write_char(b'i'));
    assert_eq!(steps, expected);
    assert!(write_str("").is_empty());
}

#[test]
fn clear_waits_after_the_command() {
    let steps = clear();
    assert_eq!(writes(&steps), vec![0x0C, 0x08, 0x1C, 0x18]);
    assert_eq!(steps.last(), Some(&DelayUs(2000)));
    assert_eq!(steps.len(), 9);
}

#[test]
fn cursor_rows_start_at_zero_and_forty_hex() {
    assert_eq!(set_cursor(5, 1), command(0xC5));
    assert_eq!(set_cursor(5, 0), command(0x85));
    assert_eq!(set_cursor(0, 0), command(0x80));
    assert_eq!(writes(&set_cursor(5, 1)), vec![0xCC, 0xC8, 0x5C, 0x58]);
}

#[test]
fn power_up_sequence() {
    let steps = init();
    assert_eq!(
        writes(&steps),
        vec![
            0x3C, 0x38, 0x3C, 0x38, 0x3C, 0x38, 0x2C, 0x28, // three resets, then 4-bit mode
            0x2C, 0x28, 0x8C, 0x88, // function set 0x28
            0x0C, 0x08, 0xCC, 0xC8, // display on 0x0C
            0x0C, 0x08, 0x6C, 0x68, // entry mode 0x06
            0x0C, 0x08, 0x1C, 0x18, // clear 0x01
            0x8C, 0x88, 0x0C, 0x08, // home 0x80
        ]
    );
    assert_eq!(steps[4], DelayUs(5000));
    assert_eq!(steps.last(), Some(&DelayUs(50)));
}
