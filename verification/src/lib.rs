//! Device-protocol core of a parking-facility kiosk.
//!
//! The library renders a payment receipt as an exact ESC/POS byte stream
//! for a thermal printer, and drives the decision logic for dispatching a
//! gate-open command over serial ports. All device I/O lives outside the
//! library; the functions here are total over plain values and carry
//! contracts that pin down every byte and every reported outcome.

pub mod escpos;
pub mod gate;
pub mod printer_job;
pub mod quantity;
pub mod receipt;
pub mod transport;
