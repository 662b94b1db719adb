//! End-to-end tests of the transceiver engine against the register model:
//! the hardware side is played by the model's `hw_` methods, so every
//! interrupt the driver services here is one a test chose to raise.

use lowrisc_uart::regs::{UartRegisters, INTR_RX_WATERMARK, INTR_TX_EMPTY};
use lowrisc_uart::uart::{Callback, ErrorKind, Uart, UartParams};

const CLOCK_HZ: u32 = 50_000_000;

fn fresh() -> (Uart, UartRegisters) {
    (Uart::new(CLOCK_HZ), UartRegisters::new())
}

#[test]
fn transmit_completes_over_many_interrupts() {
    let (mut uart, mut regs) = fresh();
    uart.set_transmit_client();
    assert!(uart.configure(&mut regs, UartParams { baud_rate: 115_200 }).is_ok());

    let mut data: Vec<u8> = Vec::with_capacity(100);
    for i in 0..80u8 {
        data.push(i);
    }
    let expected = data.clone();
    let capacity_before = data.capacity();

    assert!(uart.transmit_buffer(&mut regs, data, 80).is_ok());

    let mut callbacks = 0;
    let mut returned: Option<Vec<u8>> = None;
    let mut rounds = 0;
    while returned.is_none() {
        rounds += 1;
        assert!(rounds < 100, "transfer never completed");
        // The transmitter shifts out everything it holds, then raises the
        // transmit-empty interrupt.
        let queued = regs.tx_fifo.len();
        regs.hw_drain_tx(queued);
        regs.hw_latch_interrupt(INTR_TX_EMPTY);
        match uart.handle_interrupt(&mut regs) {
            Some(Callback::Transmitted { buffer, length, outcome }) => {
                callbacks += 1;
                assert_eq!(length, 80);
                assert_eq!(outcome, Ok(()));
                returned = Some(buffer);
            }
            Some(other) => panic!("unexpected event: {:?}", other),
            None => {}
        }
    }

    // Exactly one completion, buffer identity preserved, every byte on the
    // wire in order.
    assert_eq!(callbacks, 1);
    let buffer = returned.unwrap();
    assert_eq!(buffer, expected);
    assert_eq!(buffer.capacity(), capacity_before);
    assert_eq!(regs.tx_wire, expected);
    assert!(uart.tx_buffer.is_none());

    // A further stale transmit-empty latch produces no second callback.
    regs.hw_latch_interrupt(INTR_TX_EMPTY);
    assert!(uart.handle_interrupt(&mut regs).is_none());
}

#[test]
fn transmit_short_request_completes_on_first_interrupt() {
    let (mut uart, mut regs) = fresh();
    uart.set_transmit_client();
    let r = uart.transmit_buffer(&mut regs, vec![0x41, 0x42, 0x43], 3);
    assert!(r.is_ok());
    // All three bytes fit the FIFO at once.
    assert_eq!(uart.tx_index, 3);
    assert_eq!(regs.tx_fifo, vec![0x41, 0x42, 0x43]);

    regs.hw_drain_tx(3);
    regs.hw_latch_interrupt(INTR_TX_EMPTY);
    match uart.handle_interrupt(&mut regs) {
        Some(Callback::Transmitted { buffer, length, outcome }) => {
            assert_eq!(buffer, vec![0x41, 0x42, 0x43]);
            assert_eq!(length, 3);
            assert_eq!(outcome, Ok(()));
        }
        other => panic!("expected a transmit completion, got {:?}", other),
    }
    assert_eq!(regs.tx_wire, vec![0x41, 0x42, 0x43]);
}

#[test]
fn second_transmit_while_outstanding_is_busy() {
    let (mut uart, mut regs) = fresh();
    uart.set_transmit_client();
    assert!(uart.transmit_buffer(&mut regs, vec![1, 2, 3, 4], 4).is_ok());

    let uart_before = uart.clone();
    let regs_before = regs.clone();

    match uart.transmit_buffer(&mut regs, vec![9, 9], 2) {
        Err((kind, buffer)) => {
            assert_eq!(kind, ErrorKind::Busy);
            assert_eq!(buffer, vec![9, 9]);
        }
        Ok(()) => panic!("a second transmit must be refused"),
    }

    // The first transfer's state is untouched.
    assert_eq!(uart, uart_before);
    assert_eq!(regs, regs_before);
}

#[test]
fn transmit_invalid_size_touches_nothing() {
    let (mut uart, mut regs) = fresh();
    uart.set_transmit_client();
    let regs_before = regs.clone();

    match uart.transmit_buffer(&mut regs, vec![5, 6, 7], 0) {
        Err((kind, buffer)) => {
            assert_eq!(kind, ErrorKind::InvalidSize);
            assert_eq!(buffer, vec![5, 6, 7]);
        }
        Ok(()) => panic!("zero length must be refused"),
    }
    match uart.transmit_buffer(&mut regs, vec![5, 6, 7], 4) {
        Err((kind, buffer)) => {
            assert_eq!(kind, ErrorKind::InvalidSize);
            assert_eq!(buffer, vec![5, 6, 7]);
        }
        Ok(()) => panic!("over-capacity length must be refused"),
    }

    // No interrupt enabled, no register or FIFO touched.
    assert_eq!(regs, regs_before);
    assert_eq!(regs.intr_enable, 0);
    assert!(uart.tx_buffer.is_none());
}

#[test]
fn configure_is_deterministic_and_writes_exact_divisor() {
    let (uart, mut regs) = fresh();
    let params = UartParams { baud_rate: 115_200 };

    assert!(uart.configure(&mut regs, params).is_ok());
    let first_ctrl = regs.ctrl;
    assert!(uart.configure(&mut regs, params).is_ok());
    let second_ctrl = regs.ctrl;

    assert_eq!(first_ctrl, second_ctrl);
    // (115_200 << 20) / 50_000_000 = 2415 = 0x96F in the divisor field
    // (bits 16..32), plus the two direction enables.
    assert_eq!(first_ctrl, (0x96F << 16) | 0x3);
}

#[test]
fn configure_resets_fifos_and_masks_interrupts() {
    let (mut uart, mut regs) = fresh();
    uart.set_transmit_client();
    assert!(uart.transmit_buffer(&mut regs, vec![1, 2, 3], 3).is_ok());
    regs.hw_push_rx(0x55);
    assert_ne!(regs.intr_enable, 0);
    assert!(!regs.tx_fifo.is_empty());

    assert!(uart.configure(&mut regs, UartParams { baud_rate: 9600 }).is_ok());
    assert_eq!(regs.intr_enable, 0);
    assert!(regs.tx_fifo.is_empty());
    assert!(regs.rx_fifo.is_empty());
    assert_eq!(regs.fifo_ctrl, 0);
}

#[test]
fn receive_truncated_after_three_of_five() {
    let (mut uart, mut regs) = fresh();
    uart.set_receive_client();
    assert!(uart.receive_buffer(&mut regs, vec![0xAA; 5], 5).is_ok());

    for b in [10u8, 20, 30] {
        assert!(regs.hw_push_rx(b));
    }
    regs.hw_latch_interrupt(INTR_RX_WATERMARK);

    match uart.handle_interrupt(&mut regs) {
        Some(Callback::Received { buffer, length, outcome }) => {
            assert_eq!(length, 3);
            assert_eq!(outcome, Err(ErrorKind::Truncated));
            // The three collected bytes, the rest of the buffer untouched.
            assert_eq!(buffer, vec![10, 20, 30, 0xAA, 0xAA]);
        }
        other => panic!("expected a receive completion, got {:?}", other),
    }
    assert!(uart.rx_buffer.is_none());
    assert!(regs.rx_fifo.is_empty());
}

#[test]
fn receive_full_count_succeeds() {
    let (mut uart, mut regs) = fresh();
    uart.set_receive_client();
    assert!(uart.receive_buffer(&mut regs, vec![0; 5], 5).is_ok());

    for b in [1u8, 2, 3, 4, 5, 6] {
        assert!(regs.hw_push_rx(b));
    }
    regs.hw_latch_interrupt(INTR_RX_WATERMARK);

    match uart.handle_interrupt(&mut regs) {
        Some(Callback::Received { buffer, length, outcome }) => {
            assert_eq!(length, 5);
            assert_eq!(outcome, Ok(()));
            assert_eq!(buffer, vec![1, 2, 3, 4, 5]);
        }
        other => panic!("expected a receive completion, got {:?}", other),
    }
    // The byte beyond the requested count stays in the hardware FIFO.
    assert_eq!(regs.rx_fifo, vec![6]);
}

#[test]
fn second_receive_while_outstanding_is_busy() {
    let (mut uart, mut regs) = fresh();
    uart.set_receive_client();
    assert!(uart.receive_buffer(&mut regs, vec![0; 4], 4).is_ok());

    match uart.receive_buffer(&mut regs, vec![7; 2], 2) {
        Err((kind, buffer)) => {
            assert_eq!(kind, ErrorKind::Busy);
            assert_eq!(buffer, vec![7, 7]);
        }
        Ok(()) => panic!("a second receive must be refused"),
    }
    assert_eq!(uart.rx_len, 4);
}

#[test]
fn receive_invalid_size_touches_nothing() {
    let (mut uart, mut regs) = fresh();
    uart.set_receive_client();
    let regs_before = regs.clone();

    match uart.receive_buffer(&mut regs, vec![0; 3], 0) {
        Err((kind, _)) => assert_eq!(kind, ErrorKind::InvalidSize),
        Ok(()) => panic!("zero length must be refused"),
    }
    match uart.receive_buffer(&mut regs, vec![0; 3], 9) {
        Err((kind, _)) => assert_eq!(kind, ErrorKind::InvalidSize),
        Ok(()) => panic!("over-capacity length must be refused"),
    }
    assert_eq!(regs, regs_before);
    assert!(uart.rx_buffer.is_none());
}

#[test]
fn aborts_always_unsupported_and_mutate_nothing() {
    let (mut uart, mut regs) = fresh();

    // Idle.
    assert_eq!(uart.transmit_abort(), Err(ErrorKind::Unsupported));
    assert_eq!(uart.receive_abort(), Err(ErrorKind::Unsupported));

    // In flight.
    uart.set_transmit_client();
    uart.set_receive_client();
    assert!(uart.transmit_buffer(&mut regs, vec![1, 2], 2).is_ok());
    assert!(uart.receive_buffer(&mut regs, vec![0; 2], 2).is_ok());
    let uart_before = uart.clone();

    assert_eq!(uart.transmit_abort(), Err(ErrorKind::Unsupported));
    assert_eq!(uart.receive_abort(), Err(ErrorKind::Unsupported));
    assert_eq!(uart, uart_before);
}

#[test]
fn word_operations_always_unsupported() {
    let (uart, _regs) = fresh();
    assert_eq!(uart.transmit_word(0x1234), Err(ErrorKind::Unsupported));
    assert_eq!(uart.receive_word(), Err(ErrorKind::Unsupported));
}

#[test]
fn interrupt_with_no_cause_is_a_no_op() {
    let (mut uart, mut regs) = fresh();
    uart.set_transmit_client();
    uart.set_receive_client();
    assert!(uart.transmit_buffer(&mut regs, vec![1, 2, 3], 3).is_ok());

    let uart_before = uart.clone();
    let regs_before = regs.clone();

    assert!(uart.handle_interrupt(&mut regs).is_none());
    assert_eq!(uart, uart_before);
    assert_eq!(regs, regs_before);
}

#[test]
fn completion_waits_for_a_registered_client() {
    let (mut uart, mut regs) = fresh();
    // No transmit client registered.
    assert!(uart.transmit_buffer(&mut regs, vec![0x61, 0x62], 2).is_ok());
    regs.hw_drain_tx(2);
    regs.hw_latch_interrupt(INTR_TX_EMPTY);

    // The finished transfer is held back, not dropped.
    assert!(uart.handle_interrupt(&mut regs).is_none());
    assert!(uart.tx_buffer.is_some());

    // Once a client is registered, the next serviced interrupt delivers it.
    uart.set_transmit_client();
    regs.hw_latch_interrupt(INTR_TX_EMPTY);
    match uart.handle_interrupt(&mut regs) {
        Some(Callback::Transmitted { buffer, length, outcome }) => {
            assert_eq!(buffer, vec![0x61, 0x62]);
            assert_eq!(length, 2);
            assert_eq!(outcome, Ok(()));
        }
        other => panic!("expected the held-back completion, got {:?}", other),
    }
    assert!(uart.tx_buffer.is_none());
}

#[test]
fn receive_interrupt_without_client_drains_nothing() {
    let (mut uart, mut regs) = fresh();
    assert!(regs.hw_push_rx(0x11));
    regs.hw_latch_interrupt(INTR_RX_WATERMARK);

    assert!(uart.handle_interrupt(&mut regs).is_none());
    // The byte is still waiting in the hardware FIFO.
    assert_eq!(regs.rx_fifo, vec![0x11]);
}

#[test]
fn transmit_sync_pushes_every_byte_in_order() {
    let (uart, mut regs) = fresh();
    let message: Vec<u8> = (0..40u8).map(|i| i.wrapping_mul(3)).collect();
    uart.transmit_sync(&mut regs, &message);

    // Everything the hardware accepted, wire first then FIFO, is exactly
    // the message: the busy-wait never loses a byte even past the FIFO
    // depth.
    let mut accepted = regs.tx_wire.clone();
    accepted.extend_from_slice(&regs.tx_fifo);
    assert_eq!(accepted, message);
    // 40 bytes through a 32-deep FIFO forced at least 8 onto the wire.
    assert!(regs.tx_wire.len() >= 8);
}
