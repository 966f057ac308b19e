use hd44780_lcd::bus::{send, write4bits, Mode};
use hd44780_lcd::lcd::{
    clear, configure_lines, cursor_address, display, init, set_cursor, set_row_offsets, text,
    ConfigurationError, DisplayState, Lcd, LineSetup, LCD_BLINKON, LCD_CLEARDISPLAY,
    LCD_CURSORON, LCD_DISPLAYCONTROL, LCD_DISPLAYON, LCD_ENTRYLEFT, LCD_ENTRYMODESET,
    LCD_ENTRYSHIFTINCREMENT, LCD_FUNCTIONSET, LCD_SETDDRAMADDR,
};
use hd44780_lcd::line::{BusOp, Level, PinAssignment};
use hd44780_lcd::timing::micros_to_millis;

const PINS: PinAssignment = PinAssignment { rs: 32, en: 33, data: [14, 27, 26, 25] };

fn ready(cols: u8) -> Lcd {
    let mut bus = Vec::new();
    init(cols, 32, 33, 14, 27, 26, 25, LineSetup::Configured, &mut bus).unwrap()
}

fn set(pin: i32, high: bool) -> BusOp {
    BusOp::SetLevel { pin, level: if high { Level::High } else { Level::Low } }
}

fn pause(micros: u64) -> BusOp {
    BusOp::Wait { micros }
}

fn nibble(value: u8) -> Vec<BusOp> {
    vec![
        set(14, value & 1 != 0),
        pause(1),
        set(27, value & 2 != 0),
        pause(1),
        set(26, value & 4 != 0),
        pause(1),
        set(25, value & 8 != 0),
        pause(1),
        set(33, false),
        pause(1),
        set(33, true),
        pause(1),
        set(33, false),
        pause(100),
    ]
}

fn byte(value: u8, data: bool) -> Vec<BusOp> {
    let mut ops = vec![set(32, data)];
    ops.extend(nibble(value >> 4));
    ops.extend(nibble(value & 0x0F));
    ops
}

fn total_wait(ops: &[BusOp]) -> u64 {
    let mut total = 0;
    for op in ops {
        if let BusOp::Wait { micros } = op {
            total += micros;
        }
    }
    total
}

#[test]
fn configure_lines_waits_then_prepares_all_six() {
    let mut bus = Vec::new();
    configure_lines(&PINS, &mut bus);
    assert_eq!(
        bus,
        vec![
            pause(1000),
            BusOp::ConfigureOutput { pin: 32 },
            BusOp::ConfigureOutput { pin: 33 },
            BusOp::ConfigureOutput { pin: 14 },
            BusOp::ConfigureOutput { pin: 27 },
            BusOp::ConfigureOutput { pin: 26 },
            BusOp::ConfigureOutput { pin: 25 },
        ]
    );
}

#[test]
fn init_fails_when_a_line_was_refused() {
    let mut bus = vec![pause(9)];
    let result = init(16, 32, 33, 14, 27, 26, 25, LineSetup::Refused { pin: 27 }, &mut bus);
    assert_eq!(result, Err(ConfigurationError { pin: 27 }));
    // nothing is sent to a display whose lines are not all outputs
    assert_eq!(bus, vec![pause(9)]);
}

#[test]
fn init_reports_the_refused_line_even_if_unassigned() {
    let mut bus = Vec::new();
    let result = init(16, 32, 33, 14, 27, 26, 25, LineSetup::Refused { pin: 99 }, &mut bus);
    assert_eq!(result.unwrap_err().pin, 99);
    assert!(bus.is_empty());
}

#[test]
fn init_runs_the_documented_sequence() {
    let mut bus = Vec::new();
    let lcd = init(16, 32, 33, 14, 27, 26, 25, LineSetup::Configured, &mut bus).unwrap();
    assert_eq!(lcd.pins(), PINS);

    let mut expected = vec![pause(50_000), set(32, false), set(33, false)];
    expected.extend(nibble(0x03));
    expected.push(pause(4500));
    expected.extend(nibble(0x03));
    expected.push(pause(4500));
    expected.extend(nibble(0x03));
    expected.push(pause(150));
    expected.extend(nibble(0x02));
    expected.extend(byte(0x28, false)); // function set: 4-bit, two lines, 5x8
    expected.extend(byte(0x0C, false)); // display on, cursor off, blink off
    expected.extend(byte(0x01, false)); // clear
    expected.push(pause(2000));
    expected.extend(byte(0x06, false)); // entry mode: left to right, no shift
    assert_eq!(bus, expected);
}

#[test]
fn init_sends_whole_registers() {
    let lcd = ready(16);
    let state = lcd.state();
    let mut bus = Vec::new();
    init(16, 32, 33, 14, 27, 26, 25, LineSetup::Configured, &mut bus).unwrap();
    let commands = &bus[3 + 3 * 15 + 14..];
    assert_eq!(&commands[..29], &byte(LCD_FUNCTIONSET | state.function, false)[..]);
    assert_eq!(&commands[29..58], &byte(LCD_DISPLAYCONTROL | state.control, false)[..]);
    assert_eq!(&commands[58..87], &byte(LCD_CLEARDISPLAY, false)[..]);
    assert_eq!(&commands[88..], &byte(LCD_ENTRYMODESET | state.entry, false)[..]);
}

#[test]
fn init_leaves_display_on_cursor_and_blink_off() {
    let state = ready(16).state();
    assert_eq!(state.control, 0x04);
    assert_eq!(state.control & LCD_DISPLAYON, LCD_DISPLAYON);
    assert_eq!(state.control & LCD_CURSORON, 0);
    assert_eq!(state.control & LCD_BLINKON, 0);
}

#[test]
fn init_leaves_entry_left_to_right_without_shift() {
    let state = ready(16).state();
    assert_eq!(state.entry, 0x02);
    assert_eq!(state.entry & LCD_ENTRYLEFT, LCD_ENTRYLEFT);
    assert_eq!(state.entry & LCD_ENTRYSHIFTINCREMENT, 0);
}

#[test]
fn init_selects_four_bits_two_lines_small_font() {
    assert_eq!(ready(16).state().function, 0x08);
    assert_eq!(
        ready(20).state(),
        DisplayState { function: 0x08, control: 0x04, entry: 0x02 }
    );
}

#[test]
fn row_offsets_for_sixteen_columns() {
    let lcd = ready(16);
    assert_eq!(lcd.columns(), 16);
    assert_eq!(lcd.row_offsets(), [0x00, 0x40, 0x10, 0x50]);
}

#[test]
fn row_offsets_follow_the_column_count() {
    assert_eq!(ready(20).row_offsets(), [0x00, 0x40, 0x14, 0x54]);
    assert_eq!(ready(0).row_offsets(), [0x00, 0x40, 0x00, 0x40]);
    assert_eq!(ready(255).row_offsets(), [0, 64, 255, 319]);
}

#[test]
fn set_row_offsets_replaces_the_table() {
    let mut table = [9u16; 4];
    set_row_offsets(&mut table, 0x00, 0x40, 0x14, 0x54);
    assert_eq!(table, [0x00, 0x40, 0x14, 0x54]);
}

#[test]
fn display_turns_on_and_sends_the_whole_register() {
    let mut state = DisplayState { function: 0x08, control: 0x03, entry: 0x02 };
    let mut bus = Vec::new();
    display(&mut state, &PINS, &mut bus);
    assert_eq!(state, DisplayState { function: 0x08, control: 0x07, entry: 0x02 });
    assert_eq!(bus, byte(0x0F, false));
}

#[test]
fn clear_sends_01_as_command_and_waits() {
    let lcd = ready(16);
    let mut bus = Vec::new();
    clear(&lcd, &mut bus);
    let mut expected = byte(0x01, false);
    expected.push(pause(2000));
    assert_eq!(bus, expected);
}

#[test]
fn clear_takes_at_least_the_settle_time() {
    let lcd = ready(16);
    let mut bus = Vec::new();
    clear(&lcd, &mut bus);
    assert_eq!(total_wait(&bus), 2212);
    assert!(total_wait(&bus) >= 1520);
    assert_eq!(bus.last(), Some(&pause(2000)));
    // and still does where every wait is cut to whole milliseconds
    let mut millis: u32 = 0;
    for op in &bus {
        if let BusOp::Wait { micros } = op {
            millis += micros_to_millis(*micros);
        }
    }
    assert_eq!(millis, 2);
}

#[test]
fn set_cursor_addresses_every_position_of_a_16_column_display() {
    let lcd = ready(16);
    let offsets = [0x00u8, 0x40, 0x10, 0x50];
    for row in 0..4usize {
        for col in 0..16u8 {
            let mut bus = Vec::new();
            set_cursor(&lcd, col, row, &mut bus);
            assert_eq!(bus, byte(LCD_SETDDRAMADDR | (col + offsets[row]), false));
        }
    }
}

#[test]
fn set_cursor_second_row_start() {
    let lcd = ready(16);
    let mut bus = Vec::new();
    set_cursor(&lcd, 0, 1, &mut bus);
    assert_eq!(bus, byte(0xC0, false));
}

#[test]
fn set_cursor_does_not_check_the_display_size() {
    let lcd = ready(16);
    let mut bus = Vec::new();
    set_cursor(&lcd, 200, 0, &mut bus);
    assert_eq!(bus, byte(0x80 | 200, false));
}

#[test]
fn cursor_address_is_column_plus_row_offset() {
    let lcd = ready(16);
    assert_eq!(cursor_address(&lcd, 0, 0), Some(0x00));
    assert_eq!(cursor_address(&lcd, 15, 0), Some(0x0F));
    assert_eq!(cursor_address(&lcd, 3, 1), Some(0x43));
    assert_eq!(cursor_address(&lcd, 3, 2), Some(0x13));
    assert_eq!(cursor_address(&lcd, 15, 3), Some(0x5F));
    assert_eq!(cursor_address(&lcd, 255, 0), Some(0xFF));
}

#[test]
fn cursor_address_needs_a_row_and_a_byte() {
    let lcd = ready(16);
    assert_eq!(cursor_address(&lcd, 0, 4), None);
    assert_eq!(cursor_address(&lcd, 0, usize::MAX), None);
    assert_eq!(cursor_address(&lcd, 0xBF, 1), Some(0xFF));
    assert_eq!(cursor_address(&lcd, 0xC0, 1), None);
    let wide = ready(200);
    assert_eq!(cursor_address(&wide, 199, 3), None);
    assert_eq!(cursor_address(&wide, 55, 2), Some(255));
    assert_eq!(cursor_address(&wide, 56, 2), None);
}

#[test]
fn write_sends_a_data_byte() {
    let lcd = ready(16);
    let mut bus = Vec::new();
    hd44780_lcd::lcd::write(&lcd, 0x41, &mut bus);
    assert_eq!(bus, byte(0x41, true));

    let mut by_send = Vec::new();
    send(&PINS, 0x41, Mode::Data, &mut by_send);
    assert_eq!(bus, by_send);
}

#[test]
fn text_ab_is_two_data_bytes_in_order() {
    let lcd = ready(16);
    let mut bus = Vec::new();
    text(&lcd, "AB".to_string(), &mut bus);
    let mut expected = byte(0x41, true);
    expected.extend(byte(0x42, true));
    assert_eq!(bus, expected);
    assert_eq!(bus.len(), 58);
}

#[test]
fn text_uses_the_framing_of_commands() {
    let lcd = ready(16);
    let mut bus = Vec::new();
    text(&lcd, "A".to_string(), &mut bus);
    let mut expected = vec![set(32, true)];
    write4bits(&PINS, 0x04, &mut expected);
    write4bits(&PINS, 0x01, &mut expected);
    assert_eq!(bus, expected);
}

#[test]
fn text_of_nothing_sends_nothing() {
    let lcd = ready(16);
    let mut bus = vec![pause(1)];
    text(&lcd, String::new(), &mut bus);
    assert_eq!(bus, vec![pause(1)]);
}

#[test]
fn text_neither_wraps_nor_truncates() {
    let lcd = ready(16);
    let long = "0123456789abcdefghijklmnopqrstuvwxyz0123456789".to_string();
    let mut bus = Vec::new();
    text(&lcd, long.clone(), &mut bus);
    let mut expected = Vec::new();
    for b in long.bytes() {
        expected.extend(byte(b, true));
    }
    assert_eq!(bus, expected);
}

#[test]
fn text_sends_the_low_byte_of_each_code_point() {
    let lcd = ready(16);
    let mut bus = Vec::new();
    text(&lcd, "C\u{b0}\u{100}\u{1f642}".to_string(), &mut bus);
    let mut expected = byte(0x43, true);
    expected.extend(byte(0xB0, true));
    expected.extend(byte(0x00, true));
    expected.extend(byte(0x42, true));
    assert_eq!(bus, expected);
}

#[test]
fn operations_append_to_the_transcript() {
    let lcd = ready(16);
    let mut bus = Vec::new();
    text(&lcd, "TEMP".to_string(), &mut bus);
    set_cursor(&lcd, 0, 1, &mut bus);
    text(&lcd, "UMI".to_string(), &mut bus);
    clear(&lcd, &mut bus);
    let mut expected = Vec::new();
    for b in "TEMP".bytes() {
        expected.extend(byte(b, true));
    }
    expected.extend(byte(0xC0, false));
    for b in "UMI".bytes() {
        expected.extend(byte(b, true));
    }
    expected.extend(byte(0x01, false));
    expected.push(pause(2000));
    assert_eq!(bus, expected);
}

#[test]
fn every_position_has_an_address_up_to_96_columns() {
    let widest = ready(96);
    for row in 0..4usize {
        for col in 0..96u8 {
            assert!(cursor_address(&widest, col, row).is_some());
        }
    }
    assert_eq!(cursor_address(&widest, 95, 3), Some(255));
    let wider = ready(97);
    assert_eq!(cursor_address(&wider, 96, 3), None);
}
