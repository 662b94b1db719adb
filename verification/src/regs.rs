//! Register interface: a bit-exact model of the UART peripheral's
//! memory-mapped register block.
//!
//! The hardware block lays its registers out at fixed byte offsets:
//! interrupt state (0x00, write-1-to-clear), interrupt enable (0x04),
//! interrupt test (0x08), alert test (0x0C), control (0x10), status (0x14,
//! read-only), receive data (0x18, read-only), write data (0x1C, write-only),
//! FIFO control (0x20), FIFO status (0x24, read-only), TX pin override
//! (0x28), oversampled RX value (0x2C) and RX timeout control (0x30).
//!
//! [`UartRegisters`] stores the writable registers as plain words and models
//! the registers with access side effects directly: the status and FIFO
//! status registers are derived from the FIFO contents on every read, a read
//! of the receive-data register pops the receive FIFO, a write of the
//! write-data register pushes the transmit FIFO (and is dropped by the
//! hardware when the FIFO is full), a write of the interrupt-state register
//! clears the latch bits that are set in the written word, and the FIFO reset
//! bits of the FIFO control register empty the FIFOs and read back as zero.
//!
//! The `hw_` methods are the hardware's side of the same block: latching an
//! interrupt cause, moving accepted transmit bytes out onto the wire, and
//! arrival of received bytes. They let a harness drive the interrupt-driven
//! driver without a physical transceiver.

use vstd::prelude::*;

verus! {

/// Interrupt cause: transmit FIFO past its watermark.
pub const INTR_TX_WATERMARK: u32 = 0x1;

/// Interrupt cause: receive FIFO past its watermark.
pub const INTR_RX_WATERMARK: u32 = 0x2;

/// Interrupt cause: transmit FIFO drained empty.
pub const INTR_TX_EMPTY: u32 = 0x4;

/// Interrupt cause: receive FIFO overflowed.
pub const INTR_RX_OVERFLOW: u32 = 0x8;

/// Interrupt cause: framing error on receive.
pub const INTR_RX_FRAME_ERR: u32 = 0x10;

/// Interrupt cause: break condition on receive.
pub const INTR_RX_BREAK_ERR: u32 = 0x20;

/// Interrupt cause: receive line idle past the timeout threshold.
pub const INTR_RX_TIMEOUT: u32 = 0x40;

/// Interrupt cause: parity error on receive.
pub const INTR_RX_PARITY_ERR: u32 = 0x80;

/// Control register: transmitter enable.
pub const CTRL_TX: u32 = 0x1;

/// Control register: receiver enable.
pub const CTRL_RX: u32 = 0x2;

/// Number of bits the baud-rate divisor field is shifted into the control
/// register (the divisor occupies bits 16 to 31).
pub const CTRL_NCO_SHIFT: u32 = 16;

/// Status register: transmit FIFO full.
pub const STATUS_TXFULL: u32 = 0x1;

/// Status register: receive FIFO full.
pub const STATUS_RXFULL: u32 = 0x2;

/// Status register: transmit FIFO empty.
pub const STATUS_TXEMPTY: u32 = 0x4;

/// Status register: transmitter idle.
pub const STATUS_TXIDLE: u32 = 0x8;

/// Status register: receiver idle.
pub const STATUS_RXIDLE: u32 = 0x10;

/// Status register: receive FIFO empty.
pub const STATUS_RXEMPTY: u32 = 0x20;

/// FIFO control register: reset the receive FIFO (self-clearing).
pub const FIFO_CTRL_RXRST: u32 = 0x1;

/// FIFO control register: reset the transmit FIFO (self-clearing).
pub const FIFO_CTRL_TXRST: u32 = 0x2;

/// Depth of the hardware transmit FIFO, in bytes.
pub const TX_FIFO_DEPTH: usize = 32;

/// Depth of the hardware receive FIFO, in bytes.
pub const RX_FIFO_DEPTH: usize = 32;

/// The UART register block, with the hardware state that backs the registers
/// whose reads and writes have side effects.
///
/// The read-only status and FIFO-status registers are not stored: their value
/// is a function of the FIFO contents and is recomputed on every read, as the
/// hardware does. The receive-data and write-data registers are windows onto
/// the two FIFOs. `tx_wire` is the sequence of bytes the transmitter has
/// already shifted out onto the line; together with `tx_fifo` it records
/// every byte the hardware ever accepted for transmission.
#[derive(Clone, Debug, PartialEq, Eq)]
pub struct UartRegisters {
    /// Latched interrupt causes (offset 0x00). Writing a word clears the
    /// causes whose bits are set in it.
    pub intr_state: u32,
    /// Interrupt enable mask (offset 0x04).
    pub intr_enable: u32,
    /// Software interrupt injection (offset 0x08).
    pub intr_test: u32,
    /// Alert injection (offset 0x0C).
    pub alert_test: u32,
    /// Control: transceiver enables, loopback, parity and the baud-rate
    /// divisor in bits 16 to 31 (offset 0x10).
    pub ctrl: u32,
    /// FIFO control: reset strobes and interrupt watermark levels
    /// (offset 0x20). The reset bits read back as zero.
    pub fifo_ctrl: u32,
    /// TX pin software override (offset 0x28).
    pub ovrd: u32,
    /// Oversampled RX line value (offset 0x2C).
    pub rx_val: u32,
    /// RX timeout threshold and enable (offset 0x30).
    pub timeout_ctrl: u32,
    /// Bytes accepted through the write-data register and not yet shifted
    /// out; at most [`TX_FIFO_DEPTH`] of them.
    pub tx_fifo: Vec<u8>,
    /// Bytes received by the hardware and not yet read through the
    /// receive-data register; at most [`RX_FIFO_DEPTH`] of them.
    pub rx_fifo: Vec<u8>,
    /// Bytes already shifted out onto the transmit line, oldest first.
    pub tx_wire: Vec<u8>,
}

/// The configuration registers that no driver access other than an explicit
/// write touches.
pub open spec fn cfg_unchanged(pre: &UartRegisters, post: &UartRegisters) -> bool {
    &&& post.ctrl == pre.ctrl
    &&& post.fifo_ctrl == pre.fifo_ctrl
    &&& post.intr_test == pre.intr_test
    &&& post.alert_test == pre.alert_test
    &&& post.ovrd == pre.ovrd
    &&& post.rx_val == pre.rx_val
    &&& post.timeout_ctrl == pre.timeout_ctrl
}

/// Neither interrupt register changed.
pub open spec fn intr_unchanged(pre: &UartRegisters, post: &UartRegisters) -> bool {
    &&& post.intr_state == pre.intr_state
    &&& post.intr_enable == pre.intr_enable
}

/// The transmit side (FIFO and wire) is unchanged.
pub open spec fn tx_unchanged(pre: &UartRegisters, post: &UartRegisters) -> bool {
    &&& post.tx_fifo@ == pre.tx_fifo@
    &&& post.tx_wire@ == pre.tx_wire@
}

/// The receive FIFO is unchanged.
pub open spec fn rx_unchanged(pre: &UartRegisters, post: &UartRegisters) -> bool {
    post.rx_fifo@ == pre.rx_fifo@
}

impl UartRegisters {
    /// The FIFOs never hold more than their hardware depth.
    pub open spec fn wf(&self) -> bool {
        &&& self.tx_fifo@.len() <= TX_FIFO_DEPTH
        &&& self.rx_fifo@.len() <= RX_FIFO_DEPTH
    }

    /// Every byte the transmit side of the hardware has accepted, oldest
    /// first: the bytes already on the wire followed by the bytes still
    /// queued in the transmit FIFO.
    pub open spec fn tx_accepted(&self) -> Seq<u8> {
        self.tx_wire@ + self.tx_fifo@
    }

    /// The register block as it comes out of reset: all registers zero, all
    /// FIFOs empty, nothing on the wire.
    pub open spec fn is_reset(&self) -> bool {
        &&& self.intr_state == 0
        &&& self.intr_enable == 0
        &&& self.intr_test == 0
        &&& self.alert_test == 0
        &&& self.ctrl == 0
        &&& self.fifo_ctrl == 0
        &&& self.ovrd == 0
        &&& self.rx_val == 0
        &&& self.timeout_ctrl == 0
        &&& self.tx_fifo@ == Seq::<u8>::empty()
        &&& self.rx_fifo@ == Seq::<u8>::empty()
        &&& self.tx_wire@ == Seq::<u8>::empty()
    }

    /// A register block in its reset state.
    pub fn new() -> (r: UartRegisters)
        ensures
            r.is_reset(),
            r.wf(),
    {
        UartRegisters {
            intr_state: 0,
            intr_enable: 0,
            intr_test: 0,
            alert_test: 0,
            ctrl: 0,
            fifo_ctrl: 0,
            ovrd: 0,
            rx_val: 0,
            timeout_ctrl: 0,
            tx_fifo: Vec::new(),
            rx_fifo: Vec::new(),
            tx_wire: Vec::new(),
        }
    }

    /// Volatile read of the latched interrupt causes (offset 0x00).
    pub fn read_intr_state(&self) -> (r: u32)
        ensures
            r == self.intr_state,
    {
        self.intr_state
    }

    /// Volatile write of the interrupt-state register (offset 0x00):
    /// write-1-to-clear, so every cause whose bit is set in `v` is
    /// acknowledged and its latch drops.
    pub fn write_intr_state(&mut self, v: u32)
        ensures
            final(self).intr_state == old(self).intr_state & !v,
            final(self).intr_enable == old(self).intr_enable,
            cfg_unchanged(old(self), final(self)),
            tx_unchanged(old(self), final(self)),
            rx_unchanged(old(self), final(self)),
    {
        self.intr_state = self.intr_state & !v;
    }

    /// Volatile read of the interrupt enable mask (offset 0x04).
    pub fn read_intr_enable(&self) -> (r: u32)
        ensures
            r == self.intr_enable,
    {
        self.intr_enable
    }

    /// Volatile write of the interrupt enable mask (offset 0x04).
    pub fn write_intr_enable(&mut self, v: u32)
        ensures
            final(self).intr_enable == v,
            final(self).intr_state == old(self).intr_state,
            cfg_unchanged(old(self), final(self)),
            tx_unchanged(old(self), final(self)),
            rx_unchanged(old(self), final(self)),
    {
        self.intr_enable = v;
    }

    /// Volatile read of the control register (offset 0x10).
    pub fn read_ctrl(&self) -> (r: u32)
        ensures
            r == self.ctrl,
    {
        self.ctrl
    }

    /// Volatile write of the control register (offset 0x10).
    pub fn write_ctrl(&mut self, v: u32)
        ensures
            final(self).ctrl == v,
            final(self).fifo_ctrl == old(self).fifo_ctrl,
            final(self).intr_test == old(self).intr_test,
            final(self).alert_test == old(self).alert_test,
            final(self).ovrd == old(self).ovrd,
            final(self).rx_val == old(self).rx_val,
            final(self).timeout_ctrl == old(self).timeout_ctrl,
            intr_unchanged(old(self), final(self)),
            tx_unchanged(old(self), final(self)),
            rx_unchanged(old(self), final(self)),
    {
        self.ctrl = v;
    }

    /// Volatile read of the status register (offset 0x14). The hardware
    /// derives every flag from the live FIFO occupancy.
    pub fn read_status(&self) -> (r: u32)
        ensures
            (r & STATUS_TXFULL != 0) == (self.tx_fifo@.len() >= TX_FIFO_DEPTH),
            (r & STATUS_RXFULL != 0) == (self.rx_fifo@.len() >= RX_FIFO_DEPTH),
            (r & STATUS_TXEMPTY != 0) == (self.tx_fifo@.len() == 0),
            (r & STATUS_TXIDLE != 0) == (self.tx_fifo@.len() == 0),
            (r & STATUS_RXIDLE != 0) == (self.rx_fifo@.len() == 0),
            (r & STATUS_RXEMPTY != 0) == (self.rx_fifo@.len() == 0),
    {
        let txfull: u32 = if self.tx_fifo.len() >= TX_FIFO_DEPTH {
            1
        } else {
            0
        };
        let rxfull: u32 = if self.rx_fifo.len() >= RX_FIFO_DEPTH {
            1
        } else {
            0
        };
        let txempty: u32 = if self.tx_fifo.len() == 0 {
            1
        } else {
            0
        };
        let rxempty: u32 = if self.rx_fifo.len() == 0 {
            1
        } else {
            0
        };
        let r: u32 = txfull | (rxfull << 1) | (txempty << 2) | (txempty << 3) | (rxempty << 4)
            | (rxempty << 5);
        proof {
            assert((r & STATUS_TXFULL != 0) == (txfull == 1) && (r & STATUS_RXFULL != 0) == (rxfull
                == 1) && (r & STATUS_TXEMPTY != 0) == (txempty == 1) && (r & STATUS_TXIDLE != 0) == (
            txempty == 1) && (r & STATUS_RXIDLE != 0) == (rxempty == 1) && (r & STATUS_RXEMPTY != 0)
                == (rxempty == 1)) by (bit_vector)
                requires
                    r == txfull | (rxfull << 1u32) | (txempty << 2u32) | (txempty << 3u32) | (
                    rxempty << 4u32) | (rxempty << 5u32),
                    txfull <= 1,
                    rxfull <= 1,
                    txempty <= 1,
                    rxempty <= 1,
            ;
        }
        r
    }

    /// Volatile read of the FIFO status register (offset 0x24): the live
    /// occupancy of each FIFO, the transmit level in bits 0 to 4 and the
    /// receive level in bits 16 to 20.
    pub fn read_fifo_status(&self) -> (r: u32)
        requires
            self.wf(),
        ensures
            r == (self.tx_fifo@.len() as u32) | ((self.rx_fifo@.len() as u32) << 16),
    {
        let txlvl = self.tx_fifo.len() as u32;
        let rxlvl = self.rx_fifo.len() as u32;
        txlvl | (rxlvl << 16)
    }

    /// Volatile read of the receive-data register (offset 0x18): pops the
    /// oldest byte off the receive FIFO. When the FIFO is empty the hardware
    /// has nothing to present and the read returns zero.
    pub fn read_rdata(&mut self) -> (r: u8)
        ensures
            old(self).rx_fifo@.len() > 0 ==> r == old(self).rx_fifo@[0] && final(self).rx_fifo@
                == old(self).rx_fifo@.skip(1),
            old(self).rx_fifo@.len() == 0 ==> r == 0 && final(self).rx_fifo@ == old(self).rx_fifo@,
            intr_unchanged(old(self), final(self)),
            cfg_unchanged(old(self), final(self)),
            tx_unchanged(old(self), final(self)),
    {
        if self.rx_fifo.len() > 0 {
            let b = self.rx_fifo.remove(0);
            proof {
                assert(self.rx_fifo@ =~= old(self).rx_fifo@.skip(1));
            }
            b
        } else {
            0
        }
    }

    /// Volatile write of the write-data register (offset 0x1C): queues one
    /// byte in the transmit FIFO. A write while the FIFO is full is dropped
    /// by the hardware.
    pub fn write_wdata(&mut self, b: u8)
        ensures
            old(self).tx_fifo@.len() < TX_FIFO_DEPTH ==> final(self).tx_fifo@ == old(
                self,
            ).tx_fifo@.push(b),
            old(self).tx_fifo@.len() >= TX_FIFO_DEPTH ==> final(self).tx_fifo@ == old(
                self,
            ).tx_fifo@,
            final(self).tx_wire@ == old(self).tx_wire@,
            intr_unchanged(old(self), final(self)),
            cfg_unchanged(old(self), final(self)),
            rx_unchanged(old(self), final(self)),
            old(self).wf() ==> final(self).wf(),
    {
        if self.tx_fifo.len() < TX_FIFO_DEPTH {
            self.tx_fifo.push(b);
        }
    }

    /// Volatile write of the FIFO control register (offset 0x20). A set
    /// receive-reset or transmit-reset bit empties that FIFO; both strobes
    /// self-clear, so the stored value keeps only the watermark fields.
    pub fn write_fifo_ctrl(&mut self, v: u32)
        ensures
            final(self).fifo_ctrl == v & !(FIFO_CTRL_RXRST | FIFO_CTRL_TXRST),
            v & FIFO_CTRL_RXRST != 0 ==> final(self).rx_fifo@ == Seq::<u8>::empty(),
            v & FIFO_CTRL_RXRST == 0 ==> final(self).rx_fifo@ == old(self).rx_fifo@,
            v & FIFO_CTRL_TXRST != 0 ==> final(self).tx_fifo@ == Seq::<u8>::empty(),
            v & FIFO_CTRL_TXRST == 0 ==> final(self).tx_fifo@ == old(self).tx_fifo@,
            final(self).tx_wire@ == old(self).tx_wire@,
            final(self).ctrl == old(self).ctrl,
            final(self).intr_test == old(self).intr_test,
            final(self).alert_test == old(self).alert_test,
            final(self).ovrd == old(self).ovrd,
            final(self).rx_val == old(self).rx_val,
            final(self).timeout_ctrl == old(self).timeout_ctrl,
            intr_unchanged(old(self), final(self)),
            old(self).wf() ==> final(self).wf(),
    {
        if v & FIFO_CTRL_RXRST != 0 {
            self.rx_fifo.clear();
        }
        if v & FIFO_CTRL_TXRST != 0 {
            self.tx_fifo.clear();
        }
        self.fifo_ctrl = v & !(FIFO_CTRL_RXRST | FIFO_CTRL_TXRST);
    }

    /// Hardware side: latch interrupt causes into the interrupt-state
    /// register. The latch is independent of the enable mask; the mask only
    /// gates whether the core is interrupted.
    pub fn hw_latch_interrupt(&mut self, bits: u32)
        ensures
            final(self).intr_state == old(self).intr_state | bits,
            final(self).intr_enable == old(self).intr_enable,
            cfg_unchanged(old(self), final(self)),
            tx_unchanged(old(self), final(self)),
            rx_unchanged(old(self), final(self)),
    {
        self.intr_state = self.intr_state | bits;
    }

    /// Hardware side: the transmitter shifts up to `n` queued bytes out onto
    /// the wire, oldest first.
    pub fn hw_drain_tx(&mut self, n: usize)
        ensures
            final(self).tx_fifo@ == old(self).tx_fifo@.skip(
                vstd::math::min(n as int, old(self).tx_fifo@.len() as int),
            ),
            final(self).tx_wire@ == old(self).tx_wire@ + old(self).tx_fifo@.take(
                vstd::math::min(n as int, old(self).tx_fifo@.len() as int),
            ),
            final(self).tx_accepted() == old(self).tx_accepted(),
            intr_unchanged(old(self), final(self)),
            cfg_unchanged(old(self), final(self)),
            rx_unchanged(old(self), final(self)),
            old(self).wf() ==> final(self).wf(),
    {
        let ghost pre = *self;
        let ghost k = vstd::math::min(n as int, self.tx_fifo@.len() as int);
        let mut i: usize = 0;
        while i < n && self.tx_fifo.len() > 0
            invariant
                i <= k,
                self.tx_fifo@ == pre.tx_fifo@.skip(i as int),
                self.tx_wire@ == pre.tx_wire@ + pre.tx_fifo@.take(i as int),
                k == vstd::math::min(n as int, pre.tx_fifo@.len() as int),
                intr_unchanged(&pre, self),
                cfg_unchanged(&pre, self),
                rx_unchanged(&pre, self),
            decreases n - i,
        {
            let b = self.tx_fifo.remove(0);
            self.tx_wire.push(b);
            proof {
                assert(self.tx_fifo@ =~= pre.tx_fifo@.skip(i + 1));
                assert(self.tx_wire@ =~= pre.tx_wire@ + pre.tx_fifo@.take(i + 1));
            }
            i = i + 1;
        }
        proof {
            assert(i == k);
            assert(self.tx_accepted() =~= pre.tx_accepted());
        }
    }

    /// Hardware side: one byte arrives on the receive line. It is queued when
    /// the receive FIFO has room and lost to overflow otherwise; the result
    /// says whether it was kept.
    pub fn hw_push_rx(&mut self, b: u8) -> (kept: bool)
        ensures
            kept == (old(self).rx_fifo@.len() < RX_FIFO_DEPTH),
            kept ==> final(self).rx_fifo@ == old(self).rx_fifo@.push(b),
            !kept ==> final(self).rx_fifo@ == old(self).rx_fifo@,
            intr_unchanged(old(self), final(self)),
            cfg_unchanged(old(self), final(self)),
            tx_unchanged(old(self), final(self)),
            old(self).wf() ==> final(self).wf(),
    {
        if self.rx_fifo.len() < RX_FIFO_DEPTH {
            self.rx_fifo.push(b);
            true
        } else {
            false
        }
    }

    /// Hardware side: the passage of time while the core busy-waits on a full
    /// transmit FIFO. The transmitter shifts one byte out, so afterwards the
    /// FIFO is guaranteed to have room; nothing the hardware accepted is
    /// lost.
    pub fn hw_wait_tx_not_full(&mut self)
        requires
            old(self).wf(),
        ensures
            final(self).wf(),
            final(self).tx_fifo@.len() < TX_FIFO_DEPTH,
            final(self).tx_accepted() == old(self).tx_accepted(),
            old(self).tx_fifo@.len() < TX_FIFO_DEPTH ==> *final(self) == *old(self),
            intr_unchanged(old(self), final(self)),
            cfg_unchanged(old(self), final(self)),
            rx_unchanged(old(self), final(self)),
    {
        if self.tx_fifo.len() >= TX_FIFO_DEPTH {
            let b = self.tx_fifo.remove(0);
            self.tx_wire.push(b);
            proof {
                assert(self.tx_accepted() =~= old(self).tx_accepted());
            }
        }
    }
}

} // verus!
