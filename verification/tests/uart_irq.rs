use lib::ns16550a::{
    uart_irq_rx_done, uart_irq_step, uart_irq_thri_disabled, uart_irq_tx_drained,
    uart_ier_without_thri, uart_mcr_leave_loopback, Uart8250Port, UartIrqCounters, UartTxStep,
};

fn registered_port() -> Uart8250Port {
    let mut p = Uart8250Port::empty();
    p.registered = true;
    p.thre_interrupt_enabled = true;
    p
}

#[test]
fn unregistered_port_only_counts_the_call() {
    let mut c = UartIrqCounters::new();
    let plan = uart_irq_step(&mut c, &Uart8250Port::empty(), true, true, 0x04, 0x61);
    assert!(!plan.handle_rx);
    assert_eq!(plan.tx, UartTxStep::Nothing);
    assert_eq!(c.uart8250_irq_handler_call_count(), 1);
    assert_eq!(c.uart8250_last_iir(), 1);
}

#[test]
fn receive_interrupt_is_taken_in_when_online() {
    let mut c = UartIrqCounters::new();
    let plan = uart_irq_step(&mut c, &registered_port(), true, false, 0xc4, 0x61);
    assert!(plan.handle_rx);
    assert_eq!(plan.tx, UartTxStep::Nothing);
    assert_eq!(c.uart8250_last_iir(), 0xc4);
    assert_eq!(c.uart8250_last_lsr(), 0x61);
    uart_irq_rx_done(&mut c, true);
    assert_eq!(c.uart8250_rx_interrupt_handled_count(), 1);
    let idle = uart_irq_step(&mut c, &registered_port(), true, false, 0xc1, 0x60);
    assert!(!idle.handle_rx);
    assert_eq!(c.uart8250_irq_handler_call_count(), 2);
}

#[test]
fn transmit_interrupt_drains_or_disables() {
    let mut c = UartIrqCounters::new();
    let mut port = registered_port();
    assert_eq!(uart_irq_step(&mut c, &port, true, true, 0x02, 0x60).tx, UartTxStep::DrainQueue);
    assert_eq!(uart_irq_step(&mut c, &port, true, false, 0x02, 0x60).tx, UartTxStep::DisableThri);
    assert_eq!(uart_irq_step(&mut c, &port, true, true, 0x02, 0x00).tx, UartTxStep::Nothing);
    uart_irq_tx_drained(&mut port, &mut c, true, 3);
    assert!(port.thre_interrupt_enabled);
    assert!(!port.thre_interrupt_handled);
    assert_eq!(c.uart8250_thre_interrupt_handled_count(), 1);
    port.thre_interrupt_loopback = true;
    assert!(uart_irq_thri_disabled(&mut port, &mut c, true));
    assert!(!port.thre_interrupt_enabled && port.thre_interrupt_handled && !port.thre_interrupt_loopback);
    assert_eq!(c.uart8250_thri_disabled_by_handler_count(), 1);
    assert_eq!(uart_ier_without_thri(0x07), 0x05);
    assert_eq!(uart_mcr_leave_loopback(0x13), 0x0b);
}
