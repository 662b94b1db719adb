//! Transceiver engine: transfer slots, the baud-rate programming sequence,
//! the transmit progress pump, the receive drain loop and the interrupt
//! handler.
//!
//! The driver owns no thread and never blocks: every public operation
//! returns at once, and all asynchronous progress is driven by
//! [`Uart::handle_interrupt`]. Each direction has a single transfer slot that
//! owns the client's buffer while a transfer is in flight; ownership comes
//! back to the caller either in a synchronous error or in the completion
//! event, exactly once per submitted request.

use vstd::pervasive::VecAdditionalExecFns;
use vstd::prelude::*;

use crate::regs::{
    cfg_unchanged, intr_unchanged, rx_unchanged, tx_unchanged, UartRegisters, CTRL_NCO_SHIFT,
    CTRL_RX, CTRL_TX, FIFO_CTRL_RXRST, FIFO_CTRL_TXRST, INTR_RX_WATERMARK, INTR_TX_EMPTY,
    STATUS_RXEMPTY, STATUS_TXFULL, TX_FIFO_DEPTH,
};

verus! {

/// Why a call into the driver was refused, or why an in-flight receive ended
/// short.
///
/// `InvalidSize` and `Busy` are returned synchronously from a submission,
/// together with the caller's buffer. `Unsupported` is returned by the
/// operations this hardware cannot perform. `Truncated` is never returned
/// from a call: it is the terminal outcome of a receive whose FIFO ran empty
/// before the requested count, delivered with the completion event.
#[derive(Clone, Copy, Debug, PartialEq, Eq, Structural)]
pub enum ErrorKind {
    /// A requested length of zero, or one beyond the buffer's capacity.
    InvalidSize,
    /// The direction's transfer slot already holds an in-flight buffer.
    Busy,
    /// An abort or single-word operation on buffer-oriented hardware.
    Unsupported,
    /// The receive FIFO ran empty before the requested count was read.
    Truncated,
}

/// Line parameters a client asks for: this transceiver only configures the
/// baud rate.
#[derive(Clone, Copy)]
pub struct UartParams {
    /// Target bit rate, in bits per second.
    pub baud_rate: u32,
}

/// A completion event for the registered client, carrying the buffer whose
/// ownership returns to the caller.
///
/// The interrupt handler produces at most one of these per invocation, and
/// at most one per submitted transfer: once the buffer has been handed back,
/// the driver holds no reference to it.
#[derive(Debug, PartialEq, Eq)]
pub enum Callback {
    /// A transmit request finished: every requested byte was handed to the
    /// hardware. `length` is the number of bytes sent.
    Transmitted { buffer: Vec<u8>, length: usize, outcome: Result<(), ErrorKind> },
    /// A receive request finished. `length` is the number of bytes actually
    /// collected into the buffer; the outcome is `Err(Truncated)` when the
    /// hardware ran empty before the requested count.
    Received { buffer: Vec<u8>, length: usize, outcome: Result<(), ErrorKind> },
}

/// The divisor written into the baud-rate field of the control register:
/// the requested rate scaled by the hardware's 20 fractional oversampling
/// bits, divided by the clock frequency, masked to the 16-bit field.
pub open spec fn nco_of(baud_rate: u32, clock_frequency: u32) -> u64 {
    (((baud_rate as u64) << 20) / (clock_frequency as u64)) & 0xffff
}

/// The control-register word the configuration sequence leaves behind: the
/// divisor in its field, and both transceiver directions enabled.
pub open spec fn ctrl_config_value(baud_rate: u32, clock_frequency: u32) -> u32 {
    ((nco_of(baud_rate, clock_frequency) as u32) << CTRL_NCO_SHIFT) | CTRL_TX | CTRL_RX
}

/// Where the transmit progress pump stops, started at byte `idx` of a
/// request for `len` bytes with `fifo_len` bytes already queued in the
/// hardware FIFO: it advances one byte per free FIFO slot until the request
/// or the FIFO's room is exhausted.
pub open spec fn pump_stop(idx: int, len: int, fifo_len: int) -> int {
    vstd::math::min(len, idx + (TX_FIFO_DEPTH as int - fifo_len))
}

/// Constant bit-field facts about the FIFO control register's reset
/// strobes, used where the driver writes that register.
proof fn lemma_fifo_rst_bits()
    by (bit_vector)
    ensures
        (FIFO_CTRL_RXRST | FIFO_CTRL_TXRST) & FIFO_CTRL_RXRST != 0,
        (FIFO_CTRL_RXRST | FIFO_CTRL_TXRST) & FIFO_CTRL_TXRST != 0,
        (FIFO_CTRL_RXRST | FIFO_CTRL_TXRST) & !(FIFO_CTRL_RXRST | FIFO_CTRL_TXRST) == 0,
        0u32 & FIFO_CTRL_RXRST == 0,
        0u32 & FIFO_CTRL_TXRST == 0,
        0u32 & !(FIFO_CTRL_RXRST | FIFO_CTRL_TXRST) == 0,
{
}

/// The transceiver engine: one transfer slot per direction, the registered
/// clients, and the clock frequency the baud divisor is derived from.
///
/// The engine itself holds no reference to the register block; every
/// operation that touches the hardware takes it explicitly, so exactly one
/// context at a time drives the registers.
#[derive(Clone, Debug, PartialEq, Eq)]
pub struct Uart {
    /// Fixed input clock of the peripheral, in hertz.
    pub clock_frequency: u32,
    /// Whether a transmit client is registered. Without one, a finished
    /// transmit stays in its slot and no completion event is produced.
    pub tx_client_set: bool,
    /// Whether a receive client is registered. Without one, a receive
    /// watermark interrupt drains nothing and produces no event.
    pub rx_client_set: bool,
    /// The transmit slot: the buffer owned by the driver while a transmit
    /// is in flight.
    pub tx_buffer: Option<Vec<u8>>,
    /// Number of bytes of the in-flight transmit request.
    pub tx_len: usize,
    /// How many bytes of the in-flight transmit request the hardware has
    /// accepted so far.
    pub tx_index: usize,
    /// The receive slot: the buffer owned by the driver while a receive is
    /// in flight.
    pub rx_buffer: Option<Vec<u8>>,
    /// Number of bytes of the in-flight receive request.
    pub rx_len: usize,
}

impl Uart {
    /// Well-formedness: the clock is running, and each occupied slot's
    /// request fits its buffer. An empty transmit slot only ever means a
    /// finished (or never started) request, so its index sits at its length.
    pub open spec fn wf(&self) -> bool {
        &&& self.clock_frequency > 0
        &&& (self.tx_buffer matches Some(b) ==> 0 < self.tx_len <= b@.len() && self.tx_index
            <= self.tx_len)
        &&& (self.tx_buffer is None ==> self.tx_index == self.tx_len)
        &&& (self.rx_buffer matches Some(b) ==> 0 < self.rx_len <= b@.len())
    }

    /// A fresh driver bound to a peripheral clocked at `clock_frequency`:
    /// no client registered, both slots idle.
    pub fn new(clock_frequency: u32) -> (u: Uart)
        requires
            clock_frequency > 0,
        ensures
            u.wf(),
            u.clock_frequency == clock_frequency,
            !u.tx_client_set,
            !u.rx_client_set,
            u.tx_buffer is None,
            u.tx_len == 0,
            u.tx_index == 0,
            u.rx_buffer is None,
            u.rx_len == 0,
    {
        Uart {
            clock_frequency,
            tx_client_set: false,
            rx_client_set: false,
            tx_buffer: None,
            tx_len: 0,
            tx_index: 0,
            rx_buffer: None,
            rx_len: 0,
        }
    }

    /// Register the transmit client. From now on, transmit completions are
    /// delivered instead of being held back.
    pub fn set_transmit_client(&mut self)
        ensures
            final(self).tx_client_set,
            final(self).clock_frequency == old(self).clock_frequency,
            final(self).rx_client_set == old(self).rx_client_set,
            final(self).tx_buffer == old(self).tx_buffer,
            final(self).tx_len == old(self).tx_len,
            final(self).tx_index == old(self).tx_index,
            final(self).rx_buffer == old(self).rx_buffer,
            final(self).rx_len == old(self).rx_len,
    {
        self.tx_client_set = true;
    }

    /// Register the receive client. From now on, receive completions are
    /// delivered instead of being held back.
    pub fn set_receive_client(&mut self)
        ensures
            final(self).rx_client_set,
            final(self).clock_frequency == old(self).clock_frequency,
            final(self).tx_client_set == old(self).tx_client_set,
            final(self).tx_buffer == old(self).tx_buffer,
            final(self).tx_len == old(self).tx_len,
            final(self).tx_index == old(self).tx_index,
            final(self).rx_buffer == old(self).rx_buffer,
            final(self).rx_len == old(self).rx_len,
    {
        self.rx_client_set = true;
    }

    /// Program the baud-rate divisor, enable both directions and reset both
    /// FIFOs, as the hardware's bring-up sequence asks: divisor first, then
    /// the enables, then the FIFO reset strobes.
    fn set_baud_rate(&self, regs: &mut UartRegisters, baud_rate: u32)
        requires
            self.clock_frequency > 0,
        ensures
            final(regs).ctrl == ctrl_config_value(baud_rate, self.clock_frequency),
            final(regs).fifo_ctrl == 0,
            final(regs).tx_fifo@ == Seq::<u8>::empty(),
            final(regs).rx_fifo@ == Seq::<u8>::empty(),
            final(regs).tx_wire@ == old(regs).tx_wire@,
            final(regs).intr_test == old(regs).intr_test,
            final(regs).alert_test == old(regs).alert_test,
            final(regs).ovrd == old(regs).ovrd,
            final(regs).rx_val == old(regs).rx_val,
            final(regs).timeout_ctrl == old(regs).timeout_ctrl,
            intr_unchanged(old(regs), final(regs)),
            final(regs).wf(),
    {
        let nco: u64 = (((baud_rate as u64) << 20) / (self.clock_frequency as u64)) & 0xffff;
        regs.write_ctrl((nco as u32) << CTRL_NCO_SHIFT);
        let c = regs.read_ctrl();
        regs.write_ctrl(c | CTRL_TX | CTRL_RX);
        regs.write_fifo_ctrl(FIFO_CTRL_RXRST | FIFO_CTRL_TXRST);
        proof {
            lemma_fifo_rst_bits();
        }
    }

    /// Configure the transceiver: derive and program the divisor for
    /// `params.baud_rate`, reset both FIFOs and disable every interrupt.
    /// In this hardware model configuration always succeeds.
    pub fn configure(&self, regs: &mut UartRegisters, params: UartParams) -> (r: Result<
        (),
        ErrorKind,
    >)
        requires
            self.wf(),
        ensures
            r is Ok,
            final(regs).ctrl == ctrl_config_value(params.baud_rate, self.clock_frequency),
            final(regs).fifo_ctrl == 0,
            final(regs).intr_enable == 0,
            final(regs).intr_state == old(regs).intr_state,
            final(regs).tx_fifo@ == Seq::<u8>::empty(),
            final(regs).rx_fifo@ == Seq::<u8>::empty(),
            final(regs).tx_wire@ == old(regs).tx_wire@,
            final(regs).intr_test == old(regs).intr_test,
            final(regs).alert_test == old(regs).alert_test,
            final(regs).ovrd == old(regs).ovrd,
            final(regs).rx_val == old(regs).rx_val,
            final(regs).timeout_ctrl == old(regs).timeout_ctrl,
            final(regs).wf(),
    {
        self.set_baud_rate(regs, params.baud_rate);
        regs.write_fifo_ctrl(FIFO_CTRL_RXRST | FIFO_CTRL_TXRST);
        regs.write_intr_enable(0);
        proof {
            lemma_fifo_rst_bits();
        }
        Ok(())
    }

    /// Unmask the transmit-empty interrupt.
    fn enable_tx_interrupt(&self, regs: &mut UartRegisters)
        ensures
            final(regs).intr_enable == old(regs).intr_enable | INTR_TX_EMPTY,
            final(regs).intr_state == old(regs).intr_state,
            cfg_unchanged(old(regs), final(regs)),
            tx_unchanged(old(regs), final(regs)),
            rx_unchanged(old(regs), final(regs)),
    {
        let e = regs.read_intr_enable();
        regs.write_intr_enable(e | INTR_TX_EMPTY);
    }

    /// Mask the transmit-empty interrupt, then acknowledge any latched
    /// occurrence of it: both steps are needed before anything else runs,
    /// or the stale latch would re-enter the handler.
    fn disable_tx_interrupt(&self, regs: &mut UartRegisters)
        ensures
            final(regs).intr_enable == old(regs).intr_enable & !INTR_TX_EMPTY,
            final(regs).intr_state == old(regs).intr_state & !INTR_TX_EMPTY,
            cfg_unchanged(old(regs), final(regs)),
            tx_unchanged(old(regs), final(regs)),
            rx_unchanged(old(regs), final(regs)),
    {
        let e = regs.read_intr_enable();
        regs.write_intr_enable(e & !INTR_TX_EMPTY);
        regs.write_intr_state(INTR_TX_EMPTY);
    }

    /// Unmask the receive-watermark interrupt and drop the watermark to its
    /// lowest level, so the first received byte raises it.
    fn enable_rx_interrupt(&self, regs: &mut UartRegisters)
        ensures
            final(regs).intr_enable == old(regs).intr_enable | INTR_RX_WATERMARK,
            final(regs).intr_state == old(regs).intr_state,
            final(regs).fifo_ctrl == 0,
            final(regs).ctrl == old(regs).ctrl,
            final(regs).intr_test == old(regs).intr_test,
            final(regs).alert_test == old(regs).alert_test,
            final(regs).ovrd == old(regs).ovrd,
            final(regs).rx_val == old(regs).rx_val,
            final(regs).timeout_ctrl == old(regs).timeout_ctrl,
            tx_unchanged(old(regs), final(regs)),
            rx_unchanged(old(regs), final(regs)),
    {
        let e = regs.read_intr_enable();
        regs.write_intr_enable(e | INTR_RX_WATERMARK);
        regs.write_fifo_ctrl(0);
        proof {
            lemma_fifo_rst_bits();
        }
    }

    /// Mask the receive-watermark interrupt, then acknowledge any latched
    /// occurrence of it.
    fn disable_rx_interrupt(&self, regs: &mut UartRegisters)
        ensures
            final(regs).intr_enable == old(regs).intr_enable & !INTR_RX_WATERMARK,
            final(regs).intr_state == old(regs).intr_state & !INTR_RX_WATERMARK,
            cfg_unchanged(old(regs), final(regs)),
            tx_unchanged(old(regs), final(regs)),
            rx_unchanged(old(regs), final(regs)),
    {
        let e = regs.read_intr_enable();
        regs.write_intr_enable(e & !INTR_RX_WATERMARK);
        regs.write_intr_state(INTR_RX_WATERMARK);
    }

    /// The transmit progress pump: with a transmit in flight, unmask the
    /// transmit-empty interrupt and hand bytes of the buffer to the hardware
    /// until the request or the FIFO's room runs out. Stopping early is
    /// safe: the unmasked interrupt fires once the FIFO drains, and the
    /// handler pumps again.
    #[verifier::loop_isolation(false)]
    fn tx_progress(&mut self, regs: &mut UartRegisters)
        requires
            old(self).wf(),
            old(regs).wf(),
        ensures
            final(self).wf(),
            final(regs).wf(),
            final(self).clock_frequency == old(self).clock_frequency,
            final(self).tx_client_set == old(self).tx_client_set,
            final(self).rx_client_set == old(self).rx_client_set,
            final(self).tx_buffer == old(self).tx_buffer,
            final(self).tx_len == old(self).tx_len,
            final(self).rx_buffer == old(self).rx_buffer,
            final(self).rx_len == old(self).rx_len,
            final(regs).intr_state == old(regs).intr_state,
            cfg_unchanged(old(regs), final(regs)),
            rx_unchanged(old(regs), final(regs)),
            final(regs).tx_wire@ == old(regs).tx_wire@,
            old(self).tx_index >= old(self).tx_len ==> final(self).tx_index == old(self).tx_index
                && final(regs).intr_enable == old(regs).intr_enable && final(regs).tx_fifo@ == old(
                regs,
            ).tx_fifo@,
            old(self).tx_index < old(self).tx_len ==> {
                &&& final(regs).intr_enable == old(regs).intr_enable | INTR_TX_EMPTY
                &&& final(self).tx_index == pump_stop(
                    old(self).tx_index as int,
                    old(self).tx_len as int,
                    old(regs).tx_fifo@.len() as int,
                )
                &&& {
                    let b = old(self).tx_buffer->0;
                    final(regs).tx_fifo@ == old(regs).tx_fifo@ + b@.subrange(
                        old(self).tx_index as int,
                        final(self).tx_index as int,
                    )
                }
            },
    {
        let idx = self.tx_index;
        let len = self.tx_len;
        if idx < len {
            self.enable_tx_interrupt(regs);
            let ghost pre = *regs;
            let mut i = idx;
            let mut full = false;
            match &self.tx_buffer {
                Some(buf) => {
                    while i < len && !full
                        invariant
                            idx <= i <= len,
                            regs.tx_fifo@ == pre.tx_fifo@ + buf@.subrange(idx as int, i as int),
                            regs.tx_fifo@.len() <= TX_FIFO_DEPTH,
                            full ==> regs.tx_fifo@.len() == TX_FIFO_DEPTH,
                            regs.intr_state == pre.intr_state,
                            regs.intr_enable == pre.intr_enable,
                            cfg_unchanged(&pre, regs),
                            rx_unchanged(&pre, regs),
                            regs.tx_wire@ == pre.tx_wire@,
                        decreases len - i, (if full { 0int } else { 1int }),
                    {
                        let st = regs.read_status();
                        if st & STATUS_TXFULL != 0 {
                            full = true;
                        } else {
                            let b = buf[i];
                            regs.write_wdata(b);
                            proof {
                                assert(regs.tx_fifo@ =~= pre.tx_fifo@ + buf@.subrange(
                                    idx as int,
                                    i + 1,
                                ));
                            }
                            i = i + 1;
                        }
                    }
                },
                None => {
                    // Unreachable: bytes outstanding means the slot is
                    // occupied.
                    proof {
                        assert(false);
                    }
                },
            }
            self.tx_index = i;
        }
    }

    /// Submit a transmit request for the first `tx_len` bytes of `tx_data`.
    ///
    /// A length of zero or beyond the buffer refuses with `InvalidSize`, an
    /// occupied transmit slot refuses with `Busy`; either way the buffer
    /// comes straight back and neither the driver nor the hardware changes.
    /// An accepted request takes ownership of the buffer, unmasks the
    /// transmit-empty interrupt and immediately pumps as many bytes as the
    /// FIFO will take.
    pub fn transmit_buffer(
        &mut self,
        regs: &mut UartRegisters,
        tx_data: Vec<u8>,
        tx_len: usize,
    ) -> (r: Result<(), (ErrorKind, Vec<u8>)>)
        requires
            old(self).wf(),
            old(regs).wf(),
        ensures
            final(self).wf(),
            final(regs).wf(),
            final(self).clock_frequency == old(self).clock_frequency,
            final(self).tx_client_set == old(self).tx_client_set,
            final(self).rx_client_set == old(self).rx_client_set,
            final(self).rx_buffer == old(self).rx_buffer,
            final(self).rx_len == old(self).rx_len,
            final(regs).intr_state == old(regs).intr_state,
            cfg_unchanged(old(regs), final(regs)),
            rx_unchanged(old(regs), final(regs)),
            final(regs).tx_wire@ == old(regs).tx_wire@,
            tx_len == 0 || tx_len > tx_data@.len() ==> {
                &&& r matches Err((e, b))
                &&& e == ErrorKind::InvalidSize
                &&& b == tx_data
                &&& *final(self) == *old(self)
                &&& *final(regs) == *old(regs)
            },
            0 < tx_len <= tx_data@.len() && old(self).tx_buffer is Some ==> {
                &&& r matches Err((e, b))
                &&& e == ErrorKind::Busy
                &&& b == tx_data
                &&& *final(self) == *old(self)
                &&& *final(regs) == *old(regs)
            },
            0 < tx_len <= tx_data@.len() && old(self).tx_buffer is None ==> {
                &&& r is Ok
                &&& final(self).tx_buffer == Some(tx_data)
                &&& final(self).tx_len == tx_len
                &&& final(self).tx_index == pump_stop(
                    0,
                    tx_len as int,
                    old(regs).tx_fifo@.len() as int,
                )
                &&& final(regs).intr_enable == old(regs).intr_enable | INTR_TX_EMPTY
                &&& final(regs).tx_fifo@ == old(regs).tx_fifo@ + tx_data@.subrange(
                    0,
                    final(self).tx_index as int,
                )
            },
    {
        if tx_len == 0 || tx_len > tx_data.len() {
            Err((ErrorKind::InvalidSize, tx_data))
        } else if self.tx_buffer.is_some() {
            Err((ErrorKind::Busy, tx_data))
        } else {
            self.tx_buffer = Some(tx_data);
            self.tx_len = tx_len;
            self.tx_index = 0;
            self.tx_progress(regs);
            Ok(())
        }
    }

    /// Submit a receive request for the first `rx_len` bytes of
    /// `rx_buffer`.
    ///
    /// A length of zero or beyond the buffer refuses with `InvalidSize`, an
    /// occupied receive slot refuses with `Busy`; either way the buffer
    /// comes straight back and neither the driver nor the hardware changes.
    /// An accepted request takes ownership of the buffer, drops the receive
    /// watermark to its lowest level and unmasks the watermark interrupt,
    /// so the first byte to arrive starts the drain.
    pub fn receive_buffer(
        &mut self,
        regs: &mut UartRegisters,
        rx_buffer: Vec<u8>,
        rx_len: usize,
    ) -> (r: Result<(), (ErrorKind, Vec<u8>)>)
        requires
            old(self).wf(),
            old(regs).wf(),
        ensures
            final(self).wf(),
            final(regs).wf(),
            final(self).clock_frequency == old(self).clock_frequency,
            final(self).tx_client_set == old(self).tx_client_set,
            final(self).rx_client_set == old(self).rx_client_set,
            final(self).tx_buffer == old(self).tx_buffer,
            final(self).tx_len == old(self).tx_len,
            final(self).tx_index == old(self).tx_index,
            final(regs).intr_state == old(regs).intr_state,
            tx_unchanged(old(regs), final(regs)),
            rx_unchanged(old(regs), final(regs)),
            rx_len == 0 || rx_len > rx_buffer@.len() ==> {
                &&& r matches Err((e, b))
                &&& e == ErrorKind::InvalidSize
                &&& b == rx_buffer
                &&& *final(self) == *old(self)
                &&& *final(regs) == *old(regs)
            },
            0 < rx_len <= rx_buffer@.len() && old(self).rx_buffer is Some ==> {
                &&& r matches Err((e, b))
                &&& e == ErrorKind::Busy
                &&& b == rx_buffer
                &&& *final(self) == *old(self)
                &&& *final(regs) == *old(regs)
            },
            0 < rx_len <= rx_buffer@.len() && old(self).rx_buffer is None ==> {
                &&& r is Ok
                &&& final(self).rx_buffer == Some(rx_buffer)
                &&& final(self).rx_len == rx_len
                &&& final(regs).intr_enable == old(regs).intr_enable | INTR_RX_WATERMARK
                &&& final(regs).fifo_ctrl == 0
                &&& final(regs).ctrl == old(regs).ctrl
                &&& final(regs).timeout_ctrl == old(regs).timeout_ctrl
            },
    {
        if rx_len == 0 || rx_len > rx_buffer.len() {
            return Err((ErrorKind::InvalidSize, rx_buffer));
        }
        if self.rx_buffer.is_some() {
            return Err((ErrorKind::Busy, rx_buffer));
        }
        self.enable_rx_interrupt(regs);
        self.rx_buffer = Some(rx_buffer);
        self.rx_len = rx_len;
        Ok(())
    }

    /// Synchronous transmission, for contexts that cannot wait for an
    /// interrupt (a panic message, early bring-up): every byte is handed to
    /// the hardware in order, busy-waiting whenever the FIFO is full. In
    /// the model, waiting is the hardware shifting a byte out onto the
    /// wire, so the sequence the hardware accepts is extended by exactly
    /// `bytes`.
    #[verifier::loop_isolation(false)]
    pub fn transmit_sync(&self, regs: &mut UartRegisters, bytes: &[u8])
        requires
            old(regs).wf(),
        ensures
            final(regs).wf(),
            final(regs).tx_accepted() == old(regs).tx_accepted() + bytes@,
            intr_unchanged(old(regs), final(regs)),
            cfg_unchanged(old(regs), final(regs)),
            rx_unchanged(old(regs), final(regs)),
    {
        let ghost pre = *regs;
        let n = bytes.len();
        let mut i: usize = 0;
        while i < n
            invariant
                i <= n,
                regs.wf(),
                regs.tx_accepted() == pre.tx_accepted() + bytes@.take(i as int),
                intr_unchanged(&pre, regs),
                cfg_unchanged(&pre, regs),
                rx_unchanged(&pre, regs),
            decreases n - i,
        {
            regs.hw_wait_tx_not_full();
            let ghost mid = *regs;
            regs.write_wdata(bytes[i]);
            proof {
                assert(regs.tx_accepted() =~= mid.tx_accepted().push(bytes@[i as int]));
                assert(pre.tx_accepted() + bytes@.take(i + 1) =~= (pre.tx_accepted()
                    + bytes@.take(i as int)).push(bytes@[i as int]));
            }
            i = i + 1;
        }
        proof {
            assert(pre.tx_accepted() + bytes@.take(n as int) =~= pre.tx_accepted() + bytes@);
        }
    }

    /// Service one interrupt of this peripheral: read the latched causes
    /// once and handle whichever of the two sources the driver uses is set,
    /// transmit-empty taking precedence. The source handled is masked and
    /// its latch acknowledged before anything else, so the stale latch
    /// cannot re-enter the handler.
    ///
    /// * Transmit-empty with the request complete: the buffer leaves the
    ///   slot and comes back in a `Transmitted` event — once, and only if a
    ///   transmit client is registered.
    /// * Transmit-empty with bytes still to send: the progress pump runs
    ///   again (re-unmasking the interrupt); no event yet.
    /// * Receive-watermark with a receive in flight and a client
    ///   registered: available bytes are drained into the buffer, up to the
    ///   requested count or until the FIFO runs empty, whichever is first;
    ///   the buffer comes back in a `Received` event whose outcome is
    ///   `Err(Truncated)` exactly when the FIFO ran out early.
    /// * No handled cause set: nothing changes and no event is produced.
    #[verifier::loop_isolation(false)]
    pub fn handle_interrupt(&mut self, regs: &mut UartRegisters) -> (cb: Option<Callback>)
        requires
            old(self).wf(),
            old(regs).wf(),
        ensures
            final(self).wf(),
            final(regs).wf(),
            final(self).clock_frequency == old(self).clock_frequency,
            final(self).tx_client_set == old(self).tx_client_set,
            final(self).rx_client_set == old(self).rx_client_set,
            final(self).tx_len == old(self).tx_len,
            final(self).rx_len == old(self).rx_len,
            cfg_unchanged(old(regs), final(regs)),
            final(regs).tx_wire@ == old(regs).tx_wire@,
            // No cause the driver uses is latched: a strict no-op.
            old(regs).intr_state & INTR_TX_EMPTY == 0 && old(regs).intr_state & INTR_RX_WATERMARK
                == 0 ==> cb is None && *final(self) == *old(self) && *final(regs) == *old(regs),
            // Transmit-empty.
            old(regs).intr_state & INTR_TX_EMPTY != 0 ==> {
                &&& final(regs).intr_state == old(regs).intr_state & !INTR_TX_EMPTY
                &&& rx_unchanged(old(regs), final(regs))
                &&& final(self).rx_buffer == old(self).rx_buffer
                &&& (old(self).tx_index == old(self).tx_len && old(self).tx_client_set && old(
                    self,
                ).tx_buffer is Some ==> {
                    &&& cb == Some(
                        (Callback::Transmitted {
                            buffer: old(self).tx_buffer->0,
                            length: old(self).tx_len,
                            outcome: Ok(()),
                        }),
                    )
                    &&& final(self).tx_buffer is None
                    &&& final(self).tx_index == old(self).tx_index
                    &&& final(regs).intr_enable == old(regs).intr_enable & !INTR_TX_EMPTY
                    &&& final(regs).tx_fifo@ == old(regs).tx_fifo@
                })
                &&& (old(self).tx_index == old(self).tx_len && !(old(self).tx_client_set && old(
                    self,
                ).tx_buffer is Some) ==> {
                    &&& cb is None
                    &&& final(self).tx_buffer == old(self).tx_buffer
                    &&& final(self).tx_index == old(self).tx_index
                    &&& final(regs).intr_enable == old(regs).intr_enable & !INTR_TX_EMPTY
                    &&& final(regs).tx_fifo@ == old(regs).tx_fifo@
                })
                &&& (old(self).tx_index < old(self).tx_len ==> {
                    &&& cb is None
                    &&& final(self).tx_buffer == old(self).tx_buffer
                    &&& final(regs).intr_enable == (old(regs).intr_enable & !INTR_TX_EMPTY)
                        | INTR_TX_EMPTY
                    &&& final(self).tx_index == pump_stop(
                        old(self).tx_index as int,
                        old(self).tx_len as int,
                        old(regs).tx_fifo@.len() as int,
                    )
                    &&& {
                        let b = old(self).tx_buffer->0;
                        final(regs).tx_fifo@ == old(regs).tx_fifo@ + b@.subrange(
                            old(self).tx_index as int,
                            final(self).tx_index as int,
                        )
                    }
                })
            },
            // Receive-watermark (and no transmit-empty).
            old(regs).intr_state & INTR_TX_EMPTY == 0 && old(regs).intr_state & INTR_RX_WATERMARK
                != 0 ==> {
                &&& final(regs).intr_state == old(regs).intr_state & !INTR_RX_WATERMARK
                &&& final(regs).intr_enable == old(regs).intr_enable & !INTR_RX_WATERMARK
                &&& final(regs).tx_fifo@ == old(regs).tx_fifo@
                &&& final(self).tx_buffer == old(self).tx_buffer
                &&& final(self).tx_index == old(self).tx_index
                &&& (old(self).rx_client_set && old(self).rx_buffer is Some ==> {
                    let req = old(self).rx_len as int;
                    let avail = old(regs).rx_fifo@.len() as int;
                    let k = vstd::math::min(avail, req);
                    let b0 = old(self).rx_buffer->0;
                    &&& final(self).rx_buffer is None
                    &&& final(regs).rx_fifo@ == old(regs).rx_fifo@.skip(k)
                    &&& cb matches Some(Callback::Received { buffer, length, outcome })
                    &&& buffer@ == old(regs).rx_fifo@.take(k) + b0@.skip(k)
                    &&& length == k
                    &&& outcome == (if avail < req {
                        Err::<(), ErrorKind>(ErrorKind::Truncated)
                    } else {
                        Ok::<(), ErrorKind>(())
                    })
                })
                &&& (!(old(self).rx_client_set && old(self).rx_buffer is Some) ==> {
                    &&& cb is None
                    &&& final(self).rx_buffer == old(self).rx_buffer
                    &&& rx_unchanged(old(regs), final(regs))
                })
            },
    {
        let intrs = regs.read_intr_state();
        if intrs & INTR_TX_EMPTY != 0 {
            self.disable_tx_interrupt(regs);
            if self.tx_index == self.tx_len {
                if self.tx_client_set {
                    match self.tx_buffer.take() {
                        Some(buf) => Some(
                            Callback::Transmitted {
                                buffer: buf,
                                length: self.tx_len,
                                outcome: Ok(()),
                            },
                        ),
                        None => None,
                    }
                } else {
                    None
                }
            } else {
                self.tx_progress(regs);
                None
            }
        } else if intrs & INTR_RX_WATERMARK != 0 {
            self.disable_rx_interrupt(regs);
            if self.rx_client_set {
                match self.rx_buffer.take() {
                    Some(mut buf) => {
                        let req = self.rx_len;
                        let ghost pre = *regs;
                        let ghost buf0 = buf@;
                        let mut count: usize = 0;
                        let mut truncated = false;
                        while count < req && !truncated
                            invariant
                                count <= req,
                                count <= pre.rx_fifo@.len(),
                                regs.rx_fifo@ == pre.rx_fifo@.skip(count as int),
                                buf@ == pre.rx_fifo@.take(count as int) + buf0.skip(count as int),
                                buf@.len() == buf0.len(),
                                truncated ==> count == pre.rx_fifo@.len() && count < req,
                                regs.intr_state == pre.intr_state,
                                regs.intr_enable == pre.intr_enable,
                                cfg_unchanged(&pre, regs),
                                tx_unchanged(&pre, regs),
                            decreases req - count, (if truncated { 0int } else { 1int }),
                        {
                            let st = regs.read_status();
                            if st & STATUS_RXEMPTY != 0 {
                                truncated = true;
                            } else {
                                let byte = regs.read_rdata();
                                buf.set(count, byte);
                                proof {
                                    assert(regs.rx_fifo@ =~= pre.rx_fifo@.skip(count + 1));
                                    assert(buf@ =~= pre.rx_fifo@.take(count + 1) + buf0.skip(
                                        count + 1,
                                    ));
                                }
                                count = count + 1;
                            }
                        }
                        let outcome: Result<(), ErrorKind> = if truncated {
                            Err(ErrorKind::Truncated)
                        } else {
                            Ok(())
                        };
                        Some(Callback::Received { buffer: buf, length: count, outcome })
                    },
                    None => None,
                }
            } else {
                None
            }
        } else {
            None
        }
    }

    /// Always-refused operations: this transceiver cannot abort an in-flight
    /// transfer and is buffer-oriented only. Taking the driver immutably,
    /// these can touch neither a transfer slot nor the hardware.
    pub fn transmit_abort(&self) -> (r: Result<(), ErrorKind>)
        ensures
            r == Err::<(), ErrorKind>(ErrorKind::Unsupported),
    {
        Err(ErrorKind::Unsupported)
    }

    /// See [`Uart::transmit_abort`]: single-word transmission is refused.
    pub fn transmit_word(&self, _word: u32) -> (r: Result<(), ErrorKind>)
        ensures
            r == Err::<(), ErrorKind>(ErrorKind::Unsupported),
    {
        Err(ErrorKind::Unsupported)
    }

    /// See [`Uart::transmit_abort`]: receive abort is refused.
    pub fn receive_abort(&self) -> (r: Result<(), ErrorKind>)
        ensures
            r == Err::<(), ErrorKind>(ErrorKind::Unsupported),
    {
        Err(ErrorKind::Unsupported)
    }

    /// See [`Uart::transmit_abort`]: single-word reception is refused.
    pub fn receive_word(&self) -> (r: Result<(), ErrorKind>)
        ensures
            r == Err::<(), ErrorKind>(ErrorKind::Unsupported),
    {
        Err(ErrorKind::Unsupported)
    }
}

/// The divisor programming sequence is a pure function of the requested baud
/// rate and the clock frequency: two configuration calls with equal inputs
/// write the identical control-register word, so configuring twice is
/// idempotent.
pub proof fn lemma_configure_deterministic(baud_a: u32, clock_a: u32, baud_b: u32, clock_b: u32)
    requires
        baud_a == baud_b,
        clock_a == clock_b,
    ensures
        ctrl_config_value(baud_a, clock_a) == ctrl_config_value(baud_b, clock_b),
{
}

/// The progress index after a run of pump invocations: `fifo_lens[j]` is the
/// transmit FIFO occupancy the hardware presents when the `j`-th
/// transmit-empty interrupt is serviced mid-transfer.
pub open spec fn tx_pump_after(idx: int, len: int, fifo_lens: Seq<int>) -> int
    decreases fifo_lens.len(),
{
    if fifo_lens.len() == 0 {
        idx
    } else {
        tx_pump_after(pump_stop(idx, len, fifo_lens[0]), len, fifo_lens.skip(1))
    }
}

/// One pump run against a FIFO with room makes strict progress and never
/// overshoots the requested length.
pub proof fn lemma_tx_pump_progress(idx: int, len: int, fifo_len: int)
    requires
        0 <= idx < len,
        0 <= fifo_len < TX_FIFO_DEPTH as int,
    ensures
        idx < pump_stop(idx, len, fifo_len) <= len,
{
}

/// Enough serviced transmit-empty interrupts complete a transfer: if the
/// hardware FIFO has room for at least one byte each time the pump runs,
/// then after at most one run per outstanding byte the progress index has
/// reached the requested length — the state in which the next serviced
/// interrupt hands the buffer back in the single completion event.
pub proof fn lemma_tx_pump_completes(idx: int, len: int, fifo_lens: Seq<int>)
    requires
        0 <= idx <= len,
        fifo_lens.len() >= len - idx,
        forall|j: int| 0 <= j < fifo_lens.len() ==> 0 <= #[trigger] fifo_lens[j] < (
        TX_FIFO_DEPTH as int),
    ensures
        tx_pump_after(idx, len, fifo_lens) == len,
    decreases fifo_lens.len(),
{
    if fifo_lens.len() == 0 {
        assert(idx == len);
    } else {
        let next = pump_stop(idx, len, fifo_lens[0]);
        if idx < len {
            lemma_tx_pump_progress(idx, len, fifo_lens[0]);
        } else {
            assert(next == len);
        }
        assert(forall|j: int|
            0 <= j < fifo_lens.skip(1).len() ==> 0 <= #[trigger] fifo_lens.skip(1)[j] < (
            TX_FIFO_DEPTH as int)) by {
            assert(forall|j: int|
                0 <= j < fifo_lens.skip(1).len() ==> fifo_lens.skip(1)[j] == fifo_lens[j + 1]);
        }
        lemma_tx_pump_completes(next, len, fifo_lens.skip(1));
    }
}

} // verus!
