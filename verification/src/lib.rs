//! Interrupt-driven UART transceiver driver, verified against a bit-exact
//! model of the peripheral's memory-mapped register block.
//!
//! The crate has two layers:
//!
//! * [`regs`] — the register interface: a typed model of the fixed register
//!   layout (interrupt state/enable, control, status, data, FIFO control)
//!   together with the hardware side effects each access has (write-1-to-clear
//!   interrupt latches, FIFO pushes and pops, FIFO reset bits).
//! * [`uart`] — the transceiver engine and interrupt handler: single-slot
//!   buffer ownership per direction, the baud-rate programming sequence, the
//!   transmit progress pump, and the receive drain loop. Completion events are
//!   handed back to the caller as values, exactly once per submitted transfer.

pub mod regs;
pub mod uart;
