//! The display: bringing the controller up into 4-bit mode, and the
//! operations that are valid once it is up.
//!
//! The bus is write-only, so the driver keeps its own copy of each register
//! it has written. A register is always sent whole, from that copy.

use vstd::prelude::*;
use crate::bus::{command, nibble_ops, send, send_ops, write4bits, Mode};
use crate::bus::{lemma_send_wait, nibble_wait};
use crate::line::{configure_output, set_level, wait, BusOp, Level, PinAssignment};
use crate::line::{total_millis, total_wait};
use crate::timing::{
    millis_of, CLEAR_SETTLE_MICROS, CLEAR_SETTLE_MIN_MICROS, LINE_SETUP_MICROS,
    POWER_UP_MICROS, RESET_FINAL_MICROS, RESET_RETRY_MICROS,
};

verus! {

// instructions
pub const LCD_CLEARDISPLAY: u8 = 0x01;

pub const LCD_ENTRYMODESET: u8 = 0x04;

pub const LCD_DISPLAYCONTROL: u8 = 0x08;

pub const LCD_FUNCTIONSET: u8 = 0x20;

pub const LCD_SETDDRAMADDR: u8 = 0x80;

// flags of the entry mode
pub const LCD_ENTRYLEFT: u8 = 0x02;

pub const LCD_ENTRYSHIFTINCREMENT: u8 = 0x01;

pub const LCD_ENTRYSHIFTDECREMENT: u8 = 0x00;

// flags of the display control
pub const LCD_DISPLAYON: u8 = 0x04;

pub const LCD_CURSORON: u8 = 0x02;

pub const LCD_CURSOROFF: u8 = 0x00;

pub const LCD_BLINKON: u8 = 0x01;

pub const LCD_BLINKOFF: u8 = 0x00;

// flags of the function set
pub const LCD_4BITMODE: u8 = 0x00;

pub const LCD_2LINE: u8 = 0x08;

pub const LCD_5X8DOTS: u8 = 0x00;

/// The nibble that asks a controller in any state for the 8-bit interface.
pub const RESET_NIBBLE: u8 = 0x03;

/// The nibble that commits the controller to the 4-bit interface.
pub const FOUR_BIT_NIBBLE: u8 = 0x02;

/// The number of rows that have a base address.
pub const ROWS: usize = 4;

/// The widest display on which every position of every row has an address
/// that fits a byte.
pub const MAX_ADDRESSABLE_COLUMNS: u8 = 96;

/// The driver's copy of the three registers it writes.
#[derive(Clone, Copy, Debug, PartialEq, Eq, Structural)]
pub struct DisplayState {
    /// Bus width, number of lines, font.
    pub function: u8,
    /// Display, cursor and blink switches.
    pub control: u8,
    /// Text direction and shift.
    pub entry: u8,
}

/// What came of preparing the six lines as outputs.
#[derive(Clone, Copy, Debug, PartialEq, Eq, Structural)]
pub enum LineSetup {
    /// Every line is an output.
    Configured,
    /// This line could not be made an output.
    Refused { pin: i32 },
}

/// A line could not be prepared, so the display cannot be used.
#[derive(Clone, Copy, Debug, PartialEq, Eq, Structural)]
pub struct ConfigurationError {
    /// The line that was refused.
    pub pin: i32,
}

/// A display that has been brought up and is ready for text.
#[derive(Debug, PartialEq, Eq)]
pub struct Lcd {
    pins: PinAssignment,
    state: DisplayState,
    row_offsets: [u16; 4],
    columns: u8,
}

/// What a display is, to a contract.
pub struct LcdModel {
    pub pins: PinAssignment,
    pub state: DisplayState,
    /// The base address of each row in display memory.
    pub row_offsets: Seq<int>,
    pub columns: int,
}

/// The base address of each row of a display with `cols` columns. Rows three
/// and four continue rows one and two.
pub open spec fn row_offset_table(cols: u8) -> Seq<int> {
    seq![0x00, 0x40, 0x00 + cols, 0x40 + cols]
}

/// The registers as initialization leaves them: 4-bit bus, two lines, 5x8
/// font; display on, cursor off, blink off; left to right, no shift.
pub open spec fn ready_state() -> DisplayState {
    DisplayState {
        function: LCD_4BITMODE | LCD_2LINE | LCD_5X8DOTS,
        control: LCD_DISPLAYON | LCD_CURSOROFF | LCD_BLINKOFF,
        entry: LCD_ENTRYLEFT | LCD_ENTRYSHIFTDECREMENT,
    }
}

/// A display of `cols` columns on `pins`, as initialization leaves it.
pub open spec fn ready_model(cols: u8, pins: PinAssignment) -> LcdModel {
    LcdModel {
        pins,
        state: ready_state(),
        row_offsets: row_offset_table(cols),
        columns: cols as int,
    }
}

impl View for Lcd {
    type V = LcdModel;

    closed spec fn view(&self) -> LcdModel {
        LcdModel {
            pins: self.pins,
            state: self.state,
            row_offsets: Seq::new(4, |i: int| self.row_offsets[i] as int),
            columns: self.columns as int,
        }
    }
}

impl Lcd {
    /// A display exists only as initialization leaves it: nothing changes
    /// its lines, its row addresses or its registers afterwards.
    #[verifier::type_invariant]
    spec fn ready(&self) -> bool {
        self@ == ready_model(self.columns, self.pins)
    }

    /// The lines of this display.
    pub fn pins(&self) -> (pins: PinAssignment)
        ensures
            pins == self@.pins,
    {
        self.pins
    }

    /// The registers as last written.
    pub fn state(&self) -> (state: DisplayState)
        ensures
            state == self@.state,
            state == ready_state(),
    {
        proof {
            use_type_invariant(self);
        }
        self.state
    }

    /// The base address of each row.
    pub fn row_offsets(&self) -> (offsets: [u16; 4])
        ensures
            offsets@.map_values(|o: u16| o as int) == self@.row_offsets,
            self@.row_offsets == row_offset_table(self@.columns as u8),
    {
        proof {
            use_type_invariant(self);
            assert(self.row_offsets@.map_values(|o: u16| o as int) =~= self@.row_offsets);
        }
        self.row_offsets
    }

    /// The number of columns the display was brought up with.
    pub fn columns(&self) -> (columns: u8)
        ensures
            columns == self@.columns,
    {
        self.columns
    }
}

/// The code that a character is sent as: the low eight bits of its code
/// point.
pub open spec fn char_code(c: char) -> u8 {
    ((c as u32) & 0xFF) as u8
}

/// Preparing the lines: a short wait, then each of the six lines as an
/// output, register select and enable first.
pub open spec fn line_setup_ops(pins: PinAssignment) -> Seq<BusOp> {
    seq![
        BusOp::Wait { micros: LINE_SETUP_MICROS },
        BusOp::ConfigureOutput { pin: pins.rs },
        BusOp::ConfigureOutput { pin: pins.en },
        BusOp::ConfigureOutput { pin: pins.data[0] },
        BusOp::ConfigureOutput { pin: pins.data[1] },
        BusOp::ConfigureOutput { pin: pins.data[2] },
        BusOp::ConfigureOutput { pin: pins.data[3] },
    ]
}

/// Waiting for the supply to settle, then register select and enable low.
pub open spec fn power_on_ops(pins: PinAssignment) -> Seq<BusOp> {
    seq![
        BusOp::Wait { micros: POWER_UP_MICROS },
        BusOp::SetLevel { pin: pins.rs, level: Level::Low },
        BusOp::SetLevel { pin: pins.en, level: Level::Low },
    ]
}

/// The reset nibble three times over, with the wait that follows each.
pub open spec fn reset_handshake_ops(pins: PinAssignment) -> Seq<BusOp> {
    nibble_ops(pins, RESET_NIBBLE) + seq![BusOp::Wait { micros: RESET_RETRY_MICROS }]
        + nibble_ops(pins, RESET_NIBBLE) + seq![BusOp::Wait { micros: RESET_RETRY_MICROS }]
        + nibble_ops(pins, RESET_NIBBLE) + seq![BusOp::Wait { micros: RESET_FINAL_MICROS }]
}

/// The nibble that selects the 4-bit interface.
pub open spec fn four_bit_select_ops(pins: PinAssignment) -> Seq<BusOp> {
    nibble_ops(pins, FOUR_BIT_NIBBLE)
}

/// The function register, whole.
pub open spec fn function_set_ops(pins: PinAssignment, state: DisplayState) -> Seq<BusOp> {
    send_ops(pins, LCD_FUNCTIONSET | state.function, Mode::Command)
}

/// The display-control register, whole.
pub open spec fn display_control_ops(pins: PinAssignment, state: DisplayState) -> Seq<BusOp> {
    send_ops(pins, LCD_DISPLAYCONTROL | state.control, Mode::Command)
}

/// The clear instruction and the time it takes.
pub open spec fn clear_ops(pins: PinAssignment) -> Seq<BusOp> {
    send_ops(pins, LCD_CLEARDISPLAY, Mode::Command).push(
        BusOp::Wait { micros: CLEAR_SETTLE_MICROS },
    )
}

/// The entry-mode register, whole.
pub open spec fn entry_mode_ops(pins: PinAssignment, state: DisplayState) -> Seq<BusOp> {
    send_ops(pins, LCD_ENTRYMODESET | state.entry, Mode::Command)
}

/// Everything between configured lines and a display that is ready: power
/// on, reset handshake, 4-bit select, function set, display on, clear, entry
/// mode.
pub open spec fn init_ops(pins: PinAssignment) -> Seq<BusOp> {
    power_on_ops(pins) + reset_handshake_ops(pins) + four_bit_select_ops(pins)
        + function_set_ops(pins, ready_state()) + display_control_ops(pins, ready_state())
        + clear_ops(pins) + entry_mode_ops(pins, ready_state())
}

/// The address in display memory of column `col` in row `row`, where the row
/// has a base address and the sum fits a byte.
pub open spec fn ddram_address(model: LcdModel, col: u8, row: usize) -> Option<u8> {
    if row < ROWS && col + model.row_offsets[row as int] <= 0xFF {
        Some((col + model.row_offsets[row as int]) as u8)
    } else {
        None
    }
}

/// One character code after the other, each as a data byte.
pub open spec fn text_ops(pins: PinAssignment, chars: Seq<char>) -> Seq<BusOp>
    decreases chars.len(),
{
    if chars.len() == 0 {
        Seq::empty()
    } else {
        text_ops(pins, chars.drop_last()) + send_ops(pins, char_code(chars.last()), Mode::Data)
    }
}

/// Replaces the table of row addresses.
pub fn set_row_offsets(offsets: &mut [u16; 4], row0: u16, row1: u16, row2: u16, row3: u16)
    ensures
        final(offsets)@ == seq![row0, row1, row2, row3],
{
    *offsets = [row0, row1, row2, row3];
}

/// Asks for the six lines to be prepared as outputs. What came of it is
/// handed to [`init`].
pub fn configure_lines(pins: &PinAssignment, bus: &mut Vec<BusOp>)
    ensures
        final(bus)@ == old(bus)@ + line_setup_ops(*pins),
{
    wait(LINE_SETUP_MICROS, bus);
    configure_output(pins.rs, bus);
    configure_output(pins.en, bus);
    let mut i: usize = 0;
    while i < 4
        invariant
            i <= 4,
            bus@ == old(bus)@ + line_setup_ops(*pins).take(3 + i),
        decreases 4 - i,
    {
        configure_output(pins.data[i], bus);
        i += 1;
    }
}

/// Turns the display on in the copy of the control register and sends the
/// register whole.
pub fn display(state: &mut DisplayState, pins: &PinAssignment, bus: &mut Vec<BusOp>)
    ensures
        *final(state) == (DisplayState {
            control: old(state).control | LCD_DISPLAYON,
            ..*old(state)
        }),
        final(bus)@ == old(bus)@ + display_control_ops(*pins, *final(state)),
{
    state.control = state.control | LCD_DISPLAYON;
    command(pins, LCD_DISPLAYCONTROL | state.control, bus);
}

/// Brings up a display of `cols` columns on the given lines, once the lines
/// have been prepared.
///
/// Where a line was refused, nothing is sent and the refusal is the result.
/// Otherwise the controller is taken through power on, reset handshake,
/// 4-bit select, function set, display on, clear and entry mode, and the
/// display is ready.
pub fn init(
    cols: u8,
    rs: i32,
    en: i32,
    d0: i32,
    d1: i32,
    d2: i32,
    d3: i32,
    lines: LineSetup,
    bus: &mut Vec<BusOp>,
) -> (result: Result<Lcd, ConfigurationError>)
    ensures
        ({
            let pins = PinAssignment { rs, en, data: [d0, d1, d2, d3] };
            match lines {
                LineSetup::Refused { pin } => {
                    &&& result == Err::<Lcd, ConfigurationError>(ConfigurationError { pin })
                    &&& final(bus)@ == old(bus)@
                },
                LineSetup::Configured => {
                    &&& result is Ok
                    &&& result->Ok_0@ == ready_model(cols, pins)
                    &&& final(bus)@ == old(bus)@ + init_ops(pins)
                },
            }
        }),
        result matches Ok(lcd) ==> {
            let state = lcd@.state;
            &&& state.control & LCD_DISPLAYON == LCD_DISPLAYON
            &&& state.control & LCD_CURSORON == 0
            &&& state.control & LCD_BLINKON == 0
            &&& state.entry & LCD_ENTRYLEFT == LCD_ENTRYLEFT
            &&& state.entry & LCD_ENTRYSHIFTINCREMENT == 0
        },
{
    if let LineSetup::Refused { pin } = lines {
        return Err(ConfigurationError { pin });
    }
    let pins = PinAssignment { rs, en, data: [d0, d1, d2, d3] };
    let mut state = DisplayState {
        function: LCD_4BITMODE | LCD_2LINE | LCD_5X8DOTS,
        control: 0,
        entry: 0,
    };
    let mut row_offsets: [u16; 4] = [0; 4];
    let cols16: u16 = cols as u16;
    set_row_offsets(&mut row_offsets, 0x00, 0x40, 0x00 + cols16, 0x40 + cols16);

    // The data sheet asks for 40 ms after the supply has risen above 2.7 V.
    wait(POWER_UP_MICROS, bus);

    // Register select and enable go low to begin commands.
    set_level(pins.rs, Level::Low, bus);
    set_level(pins.en, Level::Low, bus);

    // The controller may be in 8-bit mode or halfway through a 4-bit
    // transfer: three reset nibbles bring it to a known state.
    write4bits(&pins, RESET_NIBBLE, bus);
    wait(RESET_RETRY_MICROS, bus);
    write4bits(&pins, RESET_NIBBLE, bus);
    wait(RESET_RETRY_MICROS, bus);
    write4bits(&pins, RESET_NIBBLE, bus);
    wait(RESET_FINAL_MICROS, bus);

    // From here on the interface is four bits wide.
    write4bits(&pins, FOUR_BIT_NIBBLE, bus);

    // Number of lines and font.
    command(&pins, LCD_FUNCTIONSET | state.function, bus);

    // Display on, no cursor, no blinking.
    state.control = LCD_DISPLAYON | LCD_CURSOROFF | LCD_BLINKOFF;
    display(&mut state, &pins, bus);

    clear_display(&pins, bus);

    // Text runs left to right.
    state.entry = LCD_ENTRYLEFT | LCD_ENTRYSHIFTDECREMENT;
    command(&pins, LCD_ENTRYMODESET | state.entry, bus);

    proof {
        assert((0x04u8 | 0x00u8 | 0x00u8) | 0x04u8 == 0x04u8 | 0x00u8 | 0x00u8) by (bit_vector);
        assert(state == ready_state());
        assert(bus@ =~= old(bus)@ + init_ops(pins));
        lemma_ready_flags();
        assert(Seq::new(4, |i: int| row_offsets[i] as int) =~= row_offset_table(cols));
    }
    Ok(Lcd { pins, state, row_offsets, columns: cols })
}

/// Sends the clear instruction and waits until the controller has carried it
/// out.
fn clear_display(pins: &PinAssignment, bus: &mut Vec<BusOp>)
    ensures
        final(bus)@ == old(bus)@ + clear_ops(*pins),
{
    command(pins, LCD_CLEARDISPLAY, bus);
    wait(CLEAR_SETTLE_MICROS, bus);  // this command takes a long time
    assert(bus@ =~= old(bus)@ + clear_ops(*pins));
}

/// Clears the display, which also takes the cursor home, and waits until the
/// controller has done so.
pub fn clear(lcd: &Lcd, bus: &mut Vec<BusOp>)
    ensures
        final(bus)@ == old(bus)@ + clear_ops(lcd@.pins),
{
    clear_display(&lcd.pins, bus);
}

/// The address of a cursor position, where there is one.
pub fn cursor_address(lcd: &Lcd, col: u8, row: usize) -> (address: Option<u8>)
    ensures
        address == ddram_address(lcd@, col, row),
        lcd@.row_offsets == row_offset_table(lcd@.columns as u8),
{
    proof {
        use_type_invariant(lcd);
    }
    if row >= ROWS {
        return None;
    }
    let sum: u32 = col as u32 + lcd.row_offsets[row] as u32;
    if sum <= 0xFF {
        Some(sum as u8)
    } else {
        None
    }
}

/// Moves the cursor to column `col` of row `row`. The address is not held
/// against the size of the display memory.
pub fn set_cursor(lcd: &Lcd, col: u8, row: usize, bus: &mut Vec<BusOp>)
    requires
        ddram_address(lcd@, col, row) is Some,
    ensures
        final(bus)@ == old(bus)@ + send_ops(
            lcd@.pins,
            LCD_SETDDRAMADDR | ddram_address(lcd@, col, row)->Some_0,
            Mode::Command,
        ),
        ddram_address(lcd@, col, row)->Some_0 == col + lcd@.row_offsets[row as int],
        lcd@.row_offsets == row_offset_table(lcd@.columns as u8),
{
    proof {
        use_type_invariant(lcd);
    }
    let address: u8 = (col as u16 + lcd.row_offsets[row]) as u8;
    command(&lcd.pins, LCD_SETDDRAMADDR | address, bus);
}

/// Sends one character code to the display memory.
pub fn write(lcd: &Lcd, value: u8, bus: &mut Vec<BusOp>)
    ensures
        final(bus)@ == old(bus)@ + send_ops(lcd@.pins, value, Mode::Data),
{
    send(&lcd.pins, value, Mode::Data, bus);
}

/// Sends a text, character by character. Nothing wraps and nothing is cut
/// off: what happens past the end of a row is the controller's business.
pub fn text(lcd: &Lcd, string: String, bus: &mut Vec<BusOp>)
    ensures
        final(bus)@ == old(bus)@ + text_ops(lcd@.pins, string@),
{
    let chars = string.as_str().chars();
    for c in it: chars
        invariant
            it.seq() == string@,
            bus@ == old(bus)@ + text_ops(lcd@.pins, string@.take(it.index())),
    {
        let code: u32 = c as u32;
        assert(code & 0xFF <= 0xFF) by (bit_vector);
        write(lcd, (code & 0xFF) as u8, bus);
        proof {
            let sent = string@.take(it.index() + 1);
            assert(sent.drop_last() =~= string@.take(it.index()));
            assert(sent.last() == c);
        }
    }
    assert(string@.take(string@.len() as int) =~= string@);
}

/// What the registers hold once the display is ready: display on, cursor
/// off, blink off; left to right, no shift.
pub proof fn lemma_ready_flags()
    ensures
        ready_state().function == 0x08,
        ready_state().control == 0x04,
        ready_state().entry == 0x02,
        ready_state().control & LCD_DISPLAYON == LCD_DISPLAYON,
        ready_state().control & LCD_CURSORON == 0,
        ready_state().control & LCD_BLINKON == 0,
        ready_state().entry & LCD_ENTRYLEFT == LCD_ENTRYLEFT,
        ready_state().entry & LCD_ENTRYSHIFTINCREMENT == 0,
{
    assert(0x00u8 | 0x08u8 | 0x00u8 == 0x08u8) by (bit_vector);
    assert(0x04u8 | 0x00u8 | 0x00u8 == 0x04u8) by (bit_vector);
    assert(0x02u8 | 0x00u8 == 0x02u8) by (bit_vector);
    assert(0x04u8 & 0x04u8 == 0x04u8) by (bit_vector);
    assert(0x04u8 & 0x02u8 == 0u8) by (bit_vector);
    assert(0x04u8 & 0x01u8 == 0u8) by (bit_vector);
    assert(0x02u8 & 0x02u8 == 0x02u8) by (bit_vector);
    assert(0x02u8 & 0x01u8 == 0u8) by (bit_vector);
}

/// Clearing ends on a wait that is no shorter than the data sheet asks, so
/// the whole of it takes at least that long. That still holds where every
/// wait is cut down to whole milliseconds.
pub proof fn lemma_clear_settles(pins: PinAssignment)
    ensures
        clear_ops(pins).last() == (BusOp::Wait { micros: CLEAR_SETTLE_MICROS }),
        CLEAR_SETTLE_MICROS >= CLEAR_SETTLE_MIN_MICROS,
        total_wait(clear_ops(pins)) == 2 * nibble_wait() + CLEAR_SETTLE_MICROS,
        total_wait(clear_ops(pins)) >= CLEAR_SETTLE_MIN_MICROS,
        total_millis(clear_ops(pins)) == millis_of(CLEAR_SETTLE_MICROS),
        total_millis(clear_ops(pins)) == 2,
        1000 * total_millis(clear_ops(pins)) >= CLEAR_SETTLE_MIN_MICROS,
{
    let sent = send_ops(pins, LCD_CLEARDISPLAY, Mode::Command);
    lemma_send_wait(pins, LCD_CLEARDISPLAY, Mode::Command);
    assert(clear_ops(pins).drop_last() =~= sent);
}

/// On a display of up to 96 columns, every column of every row has an
/// address: its column added to the base address of its row.
pub proof fn lemma_positions_have_addresses(cols: u8, pins: PinAssignment, col: u8, row: usize)
    requires
        cols <= MAX_ADDRESSABLE_COLUMNS,
        col < cols,
        row < ROWS,
    ensures
        ddram_address(ready_model(cols, pins), col, row) == Some(
            (col + row_offset_table(cols)[row as int]) as u8,
        ),
        col + row_offset_table(cols)[row as int] <= 0xFF,
{
}

} // verus!
