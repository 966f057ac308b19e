//! The 4-bit bus: a nibble on the data lines, latched by one pulse of the
//! enable line, and a byte framed as two nibbles, high nibble first.

use vstd::prelude::*;
use crate::line::{set_level, wait, BusOp, Level, PinAssignment};
use crate::line::{lemma_levels_on_concat, lemma_wait_sum_concat, levels_on};
use crate::line::{total_millis, total_wait, wait_sum};
use crate::timing::{millis_of, COMMAND_SETTLE_MICROS, DATA_SETUP_MICROS, ENABLE_PULSE_MICROS};

verus! {

/// What the register-select line says of the byte that follows.
#[derive(Clone, Copy, Debug, PartialEq, Eq, Structural)]
pub enum Mode {
    /// An instruction for the controller.
    Command,
    /// A character code for the display memory.
    Data,
}

/// The level of the register-select line for a mode.
pub open spec fn mode_level(mode: Mode) -> Level {
    match mode {
        Mode::Command => Level::Low,
        Mode::Data => Level::High,
    }
}

/// The level that bit `i` of `value` puts on its data line.
pub open spec fn bit_level(value: u8, i: usize) -> Level {
    if (value >> i) & 0x01 == 0x01 {
        Level::High
    } else {
        Level::Low
    }
}

/// The upper four bits of a byte, as a nibble.
pub open spec fn high_nibble(value: u8) -> u8 {
    value >> 4
}

/// The lower four bits of a byte.
pub open spec fn low_nibble(value: u8) -> u8 {
    value & 0x0F
}

/// Driving the first `n` data lines from the low bits of `value`: bit `i` on
/// data line `i`, each followed by its setup wait.
pub open spec fn data_line_ops(pins: PinAssignment, value: u8, n: nat) -> Seq<BusOp>
    decreases n,
{
    if n == 0 {
        Seq::empty()
    } else {
        let i = (n - 1) as usize;
        data_line_ops(pins, value, (n - 1) as nat).push(
            BusOp::SetLevel { pin: pins.data[i as int], level: bit_level(value, i) },
        ).push(BusOp::Wait { micros: DATA_SETUP_MICROS })
    }
}

/// One pulse of the enable line: low, high, low, and then the time the
/// controller needs to take the nibble in.
pub open spec fn pulse_ops(en: i32) -> Seq<BusOp> {
    seq![
        BusOp::SetLevel { pin: en, level: Level::Low },
        BusOp::Wait { micros: ENABLE_PULSE_MICROS },
        BusOp::SetLevel { pin: en, level: Level::High },
        BusOp::Wait { micros: ENABLE_PULSE_MICROS },
        BusOp::SetLevel { pin: en, level: Level::Low },
        BusOp::Wait { micros: COMMAND_SETTLE_MICROS },
    ]
}

/// One nibble on the bus: the four data lines, then one enable pulse.
pub open spec fn nibble_ops(pins: PinAssignment, value: u8) -> Seq<BusOp> {
    data_line_ops(pins, value, 4) + pulse_ops(pins.en)
}

/// One byte on the bus: register select, then the high nibble, then the low
/// nibble.
pub open spec fn send_ops(pins: PinAssignment, value: u8, mode: Mode) -> Seq<BusOp> {
    seq![BusOp::SetLevel { pin: pins.rs, level: mode_level(mode) }] + nibble_ops(
        pins,
        high_nibble(value),
    ) + nibble_ops(pins, low_nibble(value))
}

/// Strobes the enable line once.
pub fn pulse_enable(pins: &PinAssignment, bus: &mut Vec<BusOp>)
    ensures
        final(bus)@ == old(bus)@ + pulse_ops(pins.en),
{
    set_level(pins.en, Level::Low, bus);
    wait(ENABLE_PULSE_MICROS, bus);
    set_level(pins.en, Level::High, bus);
    wait(ENABLE_PULSE_MICROS, bus);  // the pulse must last more than 450 ns
    set_level(pins.en, Level::Low, bus);
    wait(COMMAND_SETTLE_MICROS, bus);  // a command needs more than 37 us to settle
    assert(bus@ =~= old(bus)@ + pulse_ops(pins.en));
}

/// Puts the low four bits of `value` on the data lines, least significant bit
/// on the first, and strobes the enable line once. The upper four bits of
/// `value` play no part.
pub fn write4bits(pins: &PinAssignment, value: u8, bus: &mut Vec<BusOp>)
    ensures
        final(bus)@ == old(bus)@ + nibble_ops(*pins, value),
        nibble_ops(*pins, value) == nibble_ops(*pins, low_nibble(value)),
{
    let mut i: usize = 0;
    while i < 4
        invariant
            i <= 4,
            bus@ == old(bus)@ + data_line_ops(*pins, value, i as nat),
        decreases 4 - i,
    {
        let level = if (value >> i) & 0x01 == 0x01 {
            Level::High
        } else {
            Level::Low
        };
        set_level(pins.data[i], level, bus);
        wait(DATA_SETUP_MICROS, bus);
        i += 1;
    }
    pulse_enable(pins, bus);
    proof {
        lemma_nibble_ignores_high_bits(*pins, value);
    }
}

/// Sends one byte, as a command or as data: the register-select line first,
/// then the high nibble, then the low nibble.
pub fn send(pins: &PinAssignment, value: u8, mode: Mode, bus: &mut Vec<BusOp>)
    ensures
        final(bus)@ == old(bus)@ + send_ops(*pins, value, mode),
{
    let level = match mode {
        Mode::Command => Level::Low,
        Mode::Data => Level::High,
    };
    set_level(pins.rs, level, bus);
    write4bits(pins, value >> 4, bus);
    write4bits(pins, value, bus);
    assert(bus@ =~= old(bus)@ + send_ops(*pins, value, mode));
}

/// Sends one instruction byte.
pub fn command(pins: &PinAssignment, value: u8, bus: &mut Vec<BusOp>)
    ensures
        final(bus)@ == old(bus)@ + send_ops(*pins, value, Mode::Command),
{
    send(pins, value, Mode::Command, bus);
}

/// Only the low four bits of a value reach the data lines.
pub proof fn lemma_nibble_ignores_high_bits(pins: PinAssignment, value: u8)
    ensures
        nibble_ops(pins, value) == nibble_ops(pins, low_nibble(value)),
{
    let low = low_nibble(value);
    assert((value >> 0usize) & 0x01 == ((value & 0x0F) >> 0usize) & 0x01) by (bit_vector);
    assert((value >> 1usize) & 0x01 == ((value & 0x0F) >> 1usize) & 0x01) by (bit_vector);
    assert((value >> 2usize) & 0x01 == ((value & 0x0F) >> 2usize) & 0x01) by (bit_vector);
    assert((value >> 3usize) & 0x01 == ((value & 0x0F) >> 3usize) & 0x01) by (bit_vector);
    reveal_with_fuel(data_line_ops, 5);
    assert(data_line_ops(pins, value, 4) =~= data_line_ops(pins, low, 4));
}

/// A nibble written out in full: the four data lines from the least
/// significant bit up, each with its setup wait, before the enable line moves
/// at all, and then the pulse.
pub proof fn lemma_nibble_unfolded(pins: PinAssignment, value: u8)
    ensures
        nibble_ops(pins, value) == seq![
            BusOp::SetLevel { pin: pins.data[0], level: bit_level(value, 0) },
            BusOp::Wait { micros: DATA_SETUP_MICROS },
            BusOp::SetLevel { pin: pins.data[1], level: bit_level(value, 1) },
            BusOp::Wait { micros: DATA_SETUP_MICROS },
            BusOp::SetLevel { pin: pins.data[2], level: bit_level(value, 2) },
            BusOp::Wait { micros: DATA_SETUP_MICROS },
            BusOp::SetLevel { pin: pins.data[3], level: bit_level(value, 3) },
            BusOp::Wait { micros: DATA_SETUP_MICROS },
            BusOp::SetLevel { pin: pins.en, level: Level::Low },
            BusOp::Wait { micros: ENABLE_PULSE_MICROS },
            BusOp::SetLevel { pin: pins.en, level: Level::High },
            BusOp::Wait { micros: ENABLE_PULSE_MICROS },
            BusOp::SetLevel { pin: pins.en, level: Level::Low },
            BusOp::Wait { micros: COMMAND_SETTLE_MICROS },
        ],
{
    reveal_with_fuel(data_line_ops, 5);
    let written = seq![
        BusOp::SetLevel { pin: pins.data[0], level: bit_level(value, 0) },
        BusOp::Wait { micros: DATA_SETUP_MICROS },
        BusOp::SetLevel { pin: pins.data[1], level: bit_level(value, 1) },
        BusOp::Wait { micros: DATA_SETUP_MICROS },
        BusOp::SetLevel { pin: pins.data[2], level: bit_level(value, 2) },
        BusOp::Wait { micros: DATA_SETUP_MICROS },
        BusOp::SetLevel { pin: pins.data[3], level: bit_level(value, 3) },
        BusOp::Wait { micros: DATA_SETUP_MICROS },
        BusOp::SetLevel { pin: pins.en, level: Level::Low },
        BusOp::Wait { micros: ENABLE_PULSE_MICROS },
        BusOp::SetLevel { pin: pins.en, level: Level::High },
        BusOp::Wait { micros: ENABLE_PULSE_MICROS },
        BusOp::SetLevel { pin: pins.en, level: Level::Low },
        BusOp::Wait { micros: COMMAND_SETTLE_MICROS },
    ];
    assert(nibble_ops(pins, value) =~= written);
}

/// Driving data lines leaves the enable line alone, where no data line shares
/// its pin.
pub proof fn lemma_data_lines_spare_enable(pins: PinAssignment, value: u8, n: nat)
    requires
        pins.enable_is_separate(),
        n <= 4,
    ensures
        levels_on(data_line_ops(pins, value, n), pins.en) == Seq::<Level>::empty(),
    decreases n,
{
    if n > 0 {
        let i = (n - 1) as usize;
        let before = data_line_ops(pins, value, (n - 1) as nat);
        let driven = before.push(
            BusOp::SetLevel { pin: pins.data[i as int], level: bit_level(value, i) },
        );
        let settled = driven.push(BusOp::Wait { micros: DATA_SETUP_MICROS });
        lemma_data_lines_spare_enable(pins, value, (n - 1) as nat);
        assert(pins.data[i as int] != pins.en);
        assert(driven.drop_last() =~= before);
        assert(levels_on(driven, pins.en) == levels_on(before, pins.en));
        assert(settled.drop_last() =~= driven);
        assert(levels_on(settled, pins.en) == levels_on(driven, pins.en));
    }
}

/// Every nibble gives the enable line exactly one pulse, low, high, low,
/// whatever its bits, where no data line shares the enable line's pin.
pub proof fn lemma_one_enable_pulse(pins: PinAssignment, value: u8)
    requires
        pins.enable_is_separate(),
    ensures
        levels_on(nibble_ops(pins, value), pins.en) == seq![Level::Low, Level::High, Level::Low],
{
    let en = pins.en;
    lemma_data_lines_spare_enable(pins, value, 4);
    lemma_levels_on_concat(data_line_ops(pins, value, 4), pulse_ops(en), en);
    lemma_pulse_levels(en);
    assert(Seq::<Level>::empty() + levels_on(pulse_ops(en), en) =~= levels_on(pulse_ops(en), en));
}

/// The enable pulse on its own line: low, high, low.
pub proof fn lemma_pulse_levels(en: i32)
    ensures
        levels_on(pulse_ops(en), en) == seq![Level::Low, Level::High, Level::Low],
{
    let p = pulse_ops(en);
    let p5 = p.drop_last();
    let p4 = p5.drop_last();
    let p3 = p4.drop_last();
    let p2 = p3.drop_last();
    let p1 = p2.drop_last();
    let p0 = p1.drop_last();
    assert(p0.len() == 0);
    assert(levels_on(p0, en) =~= Seq::<Level>::empty());
    assert(levels_on(p1, en) =~= seq![Level::Low]);
    assert(levels_on(p2, en) =~= seq![Level::Low]);
    assert(levels_on(p3, en) =~= seq![Level::Low, Level::High]);
    assert(levels_on(p4, en) =~= seq![Level::Low, Level::High]);
    assert(levels_on(p5, en) =~= seq![Level::Low, Level::High, Level::Low]);
    assert(levels_on(p, en) =~= seq![Level::Low, Level::High, Level::Low]);
}

/// The microseconds that one nibble asks to wait.
pub open spec fn nibble_wait() -> nat {
    (4 * DATA_SETUP_MICROS + 2 * ENABLE_PULSE_MICROS + COMMAND_SETTLE_MICROS) as nat
}

/// The waits of a nibble are four data setups, two halves of the enable
/// pulse and one settle, whatever its bits.
pub proof fn lemma_nibble_wait_sum(pins: PinAssignment, value: u8, unit: spec_fn(u64) -> nat)
    ensures
        wait_sum(nibble_ops(pins, value), unit) == 4 * unit(DATA_SETUP_MICROS) + 2 * unit(
            ENABLE_PULSE_MICROS,
        ) + unit(COMMAND_SETTLE_MICROS),
{
    lemma_nibble_unfolded(pins, value);
    let data = unit(DATA_SETUP_MICROS);
    let pulse = unit(ENABLE_PULSE_MICROS);
    let n = nibble_ops(pins, value);
    let n13 = n.drop_last();
    let n12 = n13.drop_last();
    let n11 = n12.drop_last();
    let n10 = n11.drop_last();
    let n9 = n10.drop_last();
    let n8 = n9.drop_last();
    let n7 = n8.drop_last();
    let n6 = n7.drop_last();
    let n5 = n6.drop_last();
    let n4 = n5.drop_last();
    let n3 = n4.drop_last();
    let n2 = n3.drop_last();
    let n1 = n2.drop_last();
    let n0 = n1.drop_last();
    assert(n0.len() == 0);
    assert(wait_sum(n0, unit) == 0);
    assert(wait_sum(n1, unit) == 0);
    assert(wait_sum(n2, unit) == data);
    assert(wait_sum(n3, unit) == data);
    assert(wait_sum(n4, unit) == 2 * data);
    assert(wait_sum(n5, unit) == 2 * data);
    assert(wait_sum(n6, unit) == 3 * data);
    assert(wait_sum(n7, unit) == 3 * data);
    assert(wait_sum(n8, unit) == 4 * data);
    assert(wait_sum(n9, unit) == 4 * data);
    assert(wait_sum(n10, unit) == 4 * data + pulse);
    assert(wait_sum(n11, unit) == 4 * data + pulse);
    assert(wait_sum(n12, unit) == 4 * data + 2 * pulse);
    assert(wait_sum(n13, unit) == 4 * data + 2 * pulse);
}

/// The waits of a byte are those of two nibbles, whatever it is and whatever
/// its mode.
pub proof fn lemma_send_wait_sum(
    pins: PinAssignment,
    value: u8,
    mode: Mode,
    unit: spec_fn(u64) -> nat,
)
    ensures
        wait_sum(send_ops(pins, value, mode), unit) == 2 * wait_sum(nibble_ops(pins, 0), unit),
{
    let select = seq![BusOp::SetLevel { pin: pins.rs, level: mode_level(mode) }];
    let high = nibble_ops(pins, high_nibble(value));
    let low = nibble_ops(pins, low_nibble(value));
    lemma_nibble_wait_sum(pins, high_nibble(value), unit);
    lemma_nibble_wait_sum(pins, low_nibble(value), unit);
    lemma_nibble_wait_sum(pins, 0, unit);
    lemma_wait_sum_concat(select, high, unit);
    lemma_wait_sum_concat(select + high, low, unit);
    assert(wait_sum(select.drop_last(), unit) == 0);
    assert(wait_sum(select, unit) == 0);
}

/// A nibble asks for the same wait whatever its bits. Cut down to whole
/// milliseconds, nothing of that wait is left.
pub proof fn lemma_nibble_wait(pins: PinAssignment, value: u8)
    ensures
        total_wait(nibble_ops(pins, value)) == nibble_wait(),
        total_millis(nibble_ops(pins, value)) == 0,
{
    lemma_nibble_wait_sum(pins, value, |micros: u64| micros as nat);
    lemma_nibble_wait_sum(pins, value, |micros: u64| millis_of(micros) as nat);
}

/// A byte asks for the wait of two nibbles, whatever it is and whatever its
/// mode. Cut down to whole milliseconds, nothing of that wait is left.
pub proof fn lemma_send_wait(pins: PinAssignment, value: u8, mode: Mode)
    ensures
        total_wait(send_ops(pins, value, mode)) == 2 * nibble_wait(),
        total_millis(send_ops(pins, value, mode)) == 0,
{
    lemma_send_wait_sum(pins, value, mode, |micros: u64| micros as nat);
    lemma_send_wait_sum(pins, value, mode, |micros: u64| millis_of(micros) as nat);
    lemma_nibble_wait(pins, 0);
}

} // verus!
