//! A driver for HD44780-compatible character displays on a 4-bit bus.
//!
//! The driver performs no I/O itself. Every operation records, on a
//! transcript, the exact sequence of line operations and waits that the owner
//! of the six lines has to carry out, in order.

pub mod bus;
pub mod lcd;
pub mod line;
pub mod timing;
