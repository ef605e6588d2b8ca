use lib::printk::{ConsoleRegistry, PrintkBuffer, PrintkRoute, BUFFER_SIZE};
use lib::randomness::{mix_bytes, mix_early_seed_material, u64_le_bytes, FNV_OFFSET_BASIS};

#[test]
fn ring_keeps_last_bytes_in_order() {
    let mut p = PrintkBuffer::new();
    p.write_bytes(b"lost");
    assert!(p.drain_to().is_empty());
    p.preset().unwrap();
    p.write_bytes(b"hello ");
    p.write_bytes(b"world");
    assert_eq!(p.drain_to(), b"hello world".to_vec());
    assert!(p.drain_to().is_empty());
}

#[test]
fn ring_drops_oldest_when_full() {
    let mut p = PrintkBuffer::new();
    p.preset().unwrap();
    let data: Vec<u8> = (0..BUFFER_SIZE + 10).map(|i| (i % 251) as u8).collect();
    p.write_bytes(&data);
    let out = p.drain_to();
    assert_eq!(out.len(), BUFFER_SIZE - 1);
    assert_eq!(out[..], data[data.len() - (BUFFER_SIZE - 1)..]);
    p.write_bytes(b"x");
    p.discard_delivered();
    assert!(p.drain_to().is_empty());
}

#[test]
fn console_handoff() {
    let mut r = ConsoleRegistry::new();
    assert!(!r.register_serial8250_console(true));
    r.register_boot_console();
    assert_eq!(r.route(), PrintkRoute::BootConsole);
    assert!(r.serial8250_handoff_pending(true));
    assert!(r.register_serial8250_console(true));
    assert_eq!(r.route(), PrintkRoute::Serial8250);
    assert!(!r.boot_console_online);
    assert!(!r.earlycon_drain_allowed());
    assert!(!r.serial8250_handoff_pending(true));
    assert!(r.register_serial8250_console(true));
}

#[test]
fn console_handoff_keeping_bootcon() {
    let mut r = ConsoleRegistry::new();
    r.register_boot_console();
    r.set_keep_bootcon(true);
    assert!(r.register_serial8250_console(true));
    assert!(r.boot_console_online);
    assert!(!r.boot_console_unregistered);
}

#[test]
fn fnv1a_known_values() {
    assert_eq!(mix_bytes(FNV_OFFSET_BASIS, b""), 0xcbf29ce484222325);
    assert_eq!(mix_bytes(FNV_OFFSET_BASIS, b"a"), 0xaf63dc4c8601ec8c);
    assert_eq!(u64_le_bytes(0x0102), vec![2, 1, 0, 0, 0, 0, 0, 0]);
    let direct = mix_bytes(mix_bytes(mix_bytes(FNV_OFFSET_BASIS, b"arceos_ex.random_init_early"), &[0, 0]), b"console=ttyS0");
    assert_eq!(mix_early_seed_material(b"console=ttyS0", 0), direct);
}
