//! Register-level model of an 8250/16550-family UART.
//!
//! The crate captures how the raw bit patterns held in the eight
//! memory-mapped UART registers are encoded, decoded and mutated:
//! the line-control codec (parity, stop bits, word length), the
//! baud-rate divisor latch, the priority-encoded interrupt cause,
//! and the flag views of the interrupt-enable and status registers.
//!
//! Register state is modelled by [`registers::RegisterBlock`], a
//! byte-addressed register block that reproduces the DLAB-gated
//! aliasing of offsets 0 and 1, so the codecs and the UART facade
//! can be exercised without hardware. Binding the same facade to a
//! real memory-mapped device is left to a thin unverified layer.

pub mod divisor;
pub mod flags;
pub mod interrupt;
pub mod line_control;
pub mod registers;
pub mod uart;

pub use divisor::divisor_for;
pub use interrupt::{ChipFifoInfo, InterruptType};
pub use line_control::{InvalidFieldValue, Parity};
pub use registers::RegisterBlock;
pub use uart::MmioUart8250;
