use lib::ns16550a::{
    is_uart_rx_interrupt, uart_reg_io_width_supported, uart_register_offset, Serial8250WriteBackend,
    TtyFlipBuffer, TtyPort, TtyXmitFifo, Uart8250Port,
};

fn port() -> Uart8250Port {
    let mut p = Uart8250Port::empty();
    p.registered = true;
    p.line = 0;
    p.device_ref = 3;
    p.membase = 0x1000_0000;
    p.ioremapped = true;
    p.vm_ioremap = true;
    p.io_page_protection = true;
    p.reg_io_width = 1;
    p.reg_shift = 2;
    p
}

#[test]
fn flip_buffer_reads_back_pushed_bytes_in_order() {
    let tty = TtyPort::from_port(port());
    assert!(tty.facts_ready(port()));
    let mut f = TtyFlipBuffer::from_tty_port(tty);
    for b in b"hi\nthere" {
        assert!(f.insert_char(*b));
    }
    let mut out = vec![0u8; 4];
    assert_eq!(f.read_ready_data(&mut out), Some(0));
    assert!(f.push());
    assert_eq!(f.read_ready_available(), Some(true));
    assert_eq!(f.canonical_readable_len(), Some(3));
    assert_eq!(f.read_ready_data_with_mode(&mut out, true), Some(3));
    assert_eq!(&out[..3], b"hi\n");
    let mut rest = vec![0u8; 16];
    assert_eq!(f.read_ready_data_with_mode(&mut rest, true), Some(0));
    assert_eq!(f.read_ready_data(&mut rest), Some(5));
    assert_eq!(&rest[..5], b"there");
    assert_eq!(f.read_ready_available(), Some(false));
}

#[test]
fn flip_buffer_overflows_when_full_and_not_ready() {
    let mut f = TtyFlipBuffer::from_tty_port(TtyPort::from_port(port()));
    for i in 0..64u32 {
        assert!(f.insert_char(i as u8));
    }
    assert!(!f.insert_char(1));
    assert!(f.overflowed);
    let mut n = TtyFlipBuffer::empty();
    assert!(!n.insert_char(1));
    assert_eq!(n.read_ready_data(&mut vec![0u8; 1]), None);
    assert!(f.clear_ready_data());
    assert!(f.seed_ready_data_fixture(b"ab"));
    let mut out = vec![0u8; 1];
    assert_eq!(f.read_ready_data(&mut out), Some(1));
    assert_eq!(out, b"a".to_vec());
}

#[test]
fn flip_buffer_compacts_after_partial_read() {
    let mut f = TtyFlipBuffer::from_tty_port(TtyPort::from_port(port()));
    for i in 0..64u32 {
        f.insert_char(i as u8);
    }
    f.push();
    let mut out = vec![0u8; 10];
    assert_eq!(f.read_ready_data(&mut out), Some(10));
    assert!(f.insert_char(200));
    assert!(f.push());
    let mut all = vec![0u8; 64];
    assert_eq!(f.read_ready_data(&mut all), Some(55));
    assert_eq!(all[0], 10);
    assert_eq!(all[54], 200);
}

#[test]
fn xmit_fifo_is_first_in_first_out() {
    let mut x = TtyXmitFifo::from_tty_port(TtyPort::from_port(port()));
    assert!(x.probe_round_trip(7));
    for i in 0..64u32 {
        assert!(x.enqueue(i as u8));
    }
    assert!(!x.enqueue(0));
    for i in 0..64u32 {
        assert_eq!(x.dequeue_for_tx(), Some(i as u8));
    }
    assert_eq!(x.dequeue_for_tx(), None);
    assert!(x.underflowed);
}

#[test]
fn tx_queue_expands_line_feeds() {
    let mut b = Serial8250WriteBackend::from_port(port()).unwrap();
    assert_eq!(b.lsr_offset, 20);
    assert_eq!(b.lsr_addr, 0x1000_0014);
    assert!(b.uses_uart_membase);
    assert!(b.enable_interrupt_driven());
    assert!(!b.enable_interrupt_driven());
    assert!(b.enqueue_console_bytes(b"a\nb"));
    assert_eq!(b.crlf_insertions, 1);
    let mut out = Vec::new();
    while let Some(c) = b.pop_tx_byte() {
        out.push(c);
    }
    assert_eq!(out, b"a\r\nb".to_vec());
}

#[test]
fn tx_queue_overflows() {
    let mut b = Serial8250WriteBackend::from_port(port()).unwrap();
    b.enable_interrupt_driven();
    let big = vec![b'x'; 513];
    assert!(!b.enqueue_console_bytes(&big));
    assert!(b.tx_queue_overflow);
}

#[test]
fn register_helpers() {
    assert_eq!(uart_register_offset(2, 5), Some(20));
    assert_eq!(uart_register_offset(200, 5), None);
    assert!(uart_reg_io_width_supported(4));
    assert!(!uart_reg_io_width_supported(3));
    assert!(is_uart_rx_interrupt(0x0c));
    assert!(!is_uart_rx_interrupt(0x02));
    let mut p = port();
    p.membase = 0;
    assert!(Serial8250WriteBackend::from_port(p).is_none());
    p.membase = usize::MAX - 4;
    assert!(Serial8250WriteBackend::from_port(p).is_none());
}

#[test]
fn flip_buffer_read_that_empties_readable_reuses_pending_slots() {
    let mut f = TtyFlipBuffer::from_tty_port(TtyPort::from_port(port()));
    assert!(f.insert_char(b'a'));
    assert!(f.push());
    assert!(f.insert_char(b'b'));
    let mut out = vec![0u8; 1];
    assert_eq!(f.read_ready_data(&mut out), Some(1));
    assert_eq!(out, b"a".to_vec());
    assert!(f.push());
    let mut again = vec![0u8; 4];
    assert_eq!(f.read_ready_data(&mut again), Some(1));
    assert_eq!(again[0], b'a');
}
