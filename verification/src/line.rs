//! The six lines of the display and the operations that can be asked of them.
//!
//! Nothing here touches hardware. An operation is recorded on a transcript,
//! a `Vec<BusOp>`, and whoever owns the lines carries the transcript out in
//! order: one entry, one line operation or one wait.

use vstd::prelude::*;
use crate::timing::millis_of;

verus! {

/// The logic level of a line.
#[derive(Clone, Copy, Debug, PartialEq, Eq, Structural)]
pub enum Level {
    Low,
    High,
}

/// One step on the bus.
#[derive(Clone, Copy, Debug, PartialEq, Eq, Structural)]
pub enum BusOp {
    /// Prepare a line as a push-pull output.
    ConfigureOutput { pin: i32 },
    /// Drive a line to a level, at once.
    SetLevel { pin: i32, level: Level },
    /// Let at least this many microseconds pass.
    Wait { micros: u64 },
}

/// Which line is wired where: register select, enable, and the four data
/// lines, least significant first.
#[derive(Clone, Copy, Debug, PartialEq, Eq)]
pub struct PinAssignment {
    pub rs: i32,
    pub en: i32,
    pub data: [i32; 4],
}

impl PinAssignment {
    /// No data line shares its pin with the enable line.
    pub open spec fn enable_is_separate(self) -> bool {
        forall|i: int| 0 <= i < 4 ==> self.data[i] != self.en
    }
}

/// The time that the waits of a transcript take together, where a wait of
/// `m` microseconds takes `unit(m)`.
pub open spec fn wait_sum(ops: Seq<BusOp>, unit: spec_fn(u64) -> nat) -> nat
    decreases ops.len(),
{
    if ops.len() == 0 {
        0
    } else {
        wait_sum(ops.drop_last(), unit) + match ops.last() {
            BusOp::Wait { micros } => unit(micros),
            _ => 0,
        }
    }
}

/// The microseconds that a transcript asks to wait, all waits together.
pub open spec fn total_wait(ops: Seq<BusOp>) -> nat {
    wait_sum(ops, |micros: u64| micros as nat)
}

/// The milliseconds that a transcript takes where each wait is cut down to
/// whole milliseconds before it is slept.
pub open spec fn total_millis(ops: Seq<BusOp>) -> nat {
    wait_sum(ops, |micros: u64| millis_of(micros) as nat)
}

/// The levels that a transcript drives on one pin, in order.
pub open spec fn levels_on(ops: Seq<BusOp>, pin: i32) -> Seq<Level>
    decreases ops.len(),
{
    if ops.len() == 0 {
        Seq::empty()
    } else {
        let before = levels_on(ops.drop_last(), pin);
        match ops.last() {
            BusOp::SetLevel { pin: p, level } => if p == pin {
                before.push(level)
            } else {
                before
            },
            _ => before,
        }
    }
}

/// The waits of two transcripts carried out one after the other add up.
pub proof fn lemma_wait_sum_concat(a: Seq<BusOp>, b: Seq<BusOp>, unit: spec_fn(u64) -> nat)
    ensures
        wait_sum(a + b, unit) == wait_sum(a, unit) + wait_sum(b, unit),
    decreases b.len(),
{
    if b.len() == 0 {
        assert(a + b =~= a);
    } else {
        assert((a + b).drop_last() =~= a + b.drop_last());
        assert((a + b).last() == b.last());
        lemma_wait_sum_concat(a, b.drop_last(), unit);
    }
}

/// What two transcripts drive on a pin is what the first drives, followed by
/// what the second drives.
pub proof fn lemma_levels_on_concat(a: Seq<BusOp>, b: Seq<BusOp>, pin: i32)
    ensures
        levels_on(a + b, pin) == levels_on(a, pin) + levels_on(b, pin),
    decreases b.len(),
{
    if b.len() == 0 {
        assert(a + b =~= a);
        assert(levels_on(a, pin) + levels_on(b, pin) =~= levels_on(a, pin));
    } else {
        assert((a + b).drop_last() =~= a + b.drop_last());
        assert((a + b).last() == b.last());
        lemma_levels_on_concat(a, b.drop_last(), pin);
        let head = levels_on(a, pin);
        let tail = levels_on(b.drop_last(), pin);
        match b.last() {
            BusOp::SetLevel { pin: p, level } => {
                if p == pin {
                    assert((head + tail).push(level) =~= head + tail.push(level));
                }
            },
            _ => {},
        }
    }
}

/// Asks for `pin` to be prepared as an output.
pub fn configure_output(pin: i32, bus: &mut Vec<BusOp>)
    ensures
        final(bus)@ == old(bus)@.push(BusOp::ConfigureOutput { pin }),
{
    bus.push(BusOp::ConfigureOutput { pin });
}

/// Asks for `pin` to be driven to `level`.
pub fn set_level(pin: i32, level: Level, bus: &mut Vec<BusOp>)
    ensures
        final(bus)@ == old(bus)@.push(BusOp::SetLevel { pin, level }),
{
    bus.push(BusOp::SetLevel { pin, level });
}

/// Asks for a wait of `micros` microseconds.
pub fn wait(micros: u64, bus: &mut Vec<BusOp>)
    ensures
        final(bus)@ == old(bus)@.push(BusOp::Wait { micros }),
{
    bus.push(BusOp::Wait { micros });
}

} // verus!
