//! Register-protocol behaviour: bring-up sequence, flag parsing,
//! non-blocking receive, blocking send and newline translation.

use pci_serial::flags::{IntEnFlags, LineStsFlags};
use pci_serial::io::UartIo;
use pci_serial::pci::{PciInner, PciMmio};
use pci_serial::scheme::PciScheme;
use pci_serial::sim::SimBus;
use pci_serial::word::HwWord;

const INIT_WRITES: [(usize, u32); 8] = [
    (1, 0x00),
    (3, 0x80),
    (0, 0x03),
    (1, 0x00),
    (3, 0x03),
    (2, 0xC7),
    (4, 0x0B),
    (1, 0x01),
];

#[test]
fn hardware_words_convert_and_combine() {
    let a = <u8 as HwWord>::from_byte(0x81);
    assert_eq!(a.word(), 0x81);
    assert_eq!(a.bit_and(0x0F).word(), 0x01);
    assert_eq!(a.bit_or(0x0F).word(), 0x8F);
    assert_eq!(a.bit_not().word(), 0x7E);
    assert_eq!(a.low_byte(), 0x81);
    let b = <u32 as HwWord>::from_byte(0x81);
    assert_eq!(b.word(), 0x81);
    assert_eq!(b.bit_not(), 0xFFFF_FF7E);
    assert_eq!(b.low_byte(), 0x81);
}

#[test]
fn init_writes_exact_sequence_u8() {
    let mmio = PciMmio::new(SimBus::<u8>::new());
    assert_eq!(mmio.bus_ref().log, INIT_WRITES.to_vec());
}

#[test]
fn init_writes_exact_sequence_u32() {
    let mmio = PciMmio::new(SimBus::<u32>::new());
    assert_eq!(mmio.bus_ref().log, INIT_WRITES.to_vec());
}

#[test]
fn line_sts_flags_truncate_unknown_bits() {
    let all = LineStsFlags::from_bits_truncate(0xFF);
    assert!(all.input_full());
    assert!(all.output_empty());
    // 0x3E has bit 5 set but bit 0 clear.
    let some = LineStsFlags::from_bits_truncate(0x3E);
    assert!(!some.input_full());
    assert!(some.output_empty());
    let none = LineStsFlags::from_bits_truncate(0x1E);
    assert!(!none.input_full());
    assert!(!none.output_empty());
}

#[test]
fn int_en_flags_truncate_reserved_bits() {
    let f = IntEnFlags::from_bits_truncate(0xF3);
    assert_eq!(f.bits(), 0x03);
    assert!(f.has_received());
    assert!(f.contains(IntEnFlags::from_bits_truncate(0x02)));
    assert!(!f.contains(IntEnFlags::from_bits_truncate(0x04)));
}

#[test]
fn try_recv_no_data() {
    let mut uart = PciInner { bus: SimBus::<u8>::new() };
    assert_eq!(uart.try_recv(), Ok(None));
    // Nothing was written along the way.
    assert!(uart.bus.log.is_empty());
}

#[test]
fn try_recv_returns_pending_byte_once() {
    let mut uart = PciInner { bus: SimBus::<u8>::new() };
    uart.bus.feed(0xAA);
    uart.bus.feed(0xBB);
    assert_eq!(uart.try_recv(), Ok(Some(0xAA)));
    // Exactly one byte was consumed from the receive queue.
    assert_eq!(uart.bus.rx_fifo.len(), 1);
    assert_eq!(uart.try_recv(), Ok(Some(0xBB)));
    assert_eq!(uart.try_recv(), Ok(None));
}

#[test]
fn send_writes_exactly_once_when_ready() {
    let mut uart = PciInner { bus: SimBus::<u8>::new() };
    assert_eq!(uart.send(0x41), Ok(()));
    assert_eq!(uart.bus.log, vec![(0, 0x41)]);
    assert_eq!(uart.bus.tx_log, vec![0x41]);
}

#[test]
fn send_spins_until_ready_then_writes_once() {
    let mut uart = PciInner { bus: SimBus::<u8>::new() };
    uart.bus.set_delay(3);
    assert_eq!(uart.send(0x5A), Ok(()));
    // The transmitter had to become ready before the single write.
    assert_eq!(uart.bus.delay, 0);
    assert_eq!(uart.bus.log, vec![(0, 0x5A)]);
    assert_eq!(uart.bus.tx_log, vec![0x5A]);
    // No byte ever went out while the transmitter was not ready.
    assert!(uart.bus.early_tx_log.is_empty());
}

#[test]
fn bus_records_writes_made_before_readiness() {
    // A raw data-register write while the transmitter is busy is
    // exactly what the early-transmit view catches.
    let mut bus = SimBus::<u8>::new();
    bus.set_delay(2);
    bus.write_reg(0, 0x7Fu8);
    assert_eq!(bus.early_tx_log, vec![0x7F]);
    assert_eq!(bus.tx_log, vec![0x7F]);
}

#[test]
fn write_str_never_writes_before_readiness() {
    let mut uart = PciInner { bus: SimBus::<u8>::new() };
    uart.bus.set_delay(5);
    assert_eq!(uart.write_str("hi\n"), Ok(()));
    assert_eq!(uart.bus.tx_log, vec![b'h', b'i', b'\r', b'\n']);
    assert!(uart.bus.early_tx_log.is_empty());
}

#[test]
fn write_str_translates_newlines() {
    let mut uart = PciInner { bus: SimBus::<u8>::new() };
    assert_eq!(uart.write_str("a\nb"), Ok(()));
    assert_eq!(uart.bus.tx_log, vec![b'a', b'\r', b'\n', b'b']);
    // Four sends, all to the data register, in that order.
    assert_eq!(
        uart.bus.log,
        vec![(0, 0x61), (0, 0x0D), (0, 0x0A), (0, 0x62)]
    );
}

#[test]
fn write_str_passes_other_bytes_unchanged() {
    let mut uart = PciInner { bus: SimBus::<u32>::new() };
    assert_eq!(uart.write_str("ok\r"), Ok(()));
    assert_eq!(uart.bus.tx_log, vec![b'o', b'k', b'\r']);
}

#[test]
fn mmio_driver_name() {
    let mmio = PciMmio::new(SimBus::<u8>::new());
    assert_eq!(mmio.name(), "pci-mmio");
}

#[test]
fn mmio_recv_send_through_capability() {
    let mut sim = SimBus::<u8>::new();
    sim.feed(0x10);
    let mut mmio = PciMmio::new(sim);
    assert_eq!(mmio.try_recv(), Ok(Some(0x10)));
    assert_eq!(mmio.try_recv(), Ok(None));
    assert_eq!(mmio.send(0x33), Ok(()));
    // The bring-up wrote the divisor low byte to the data slot first.
    assert_eq!(mmio.bus_ref().tx_log, vec![0x03, 0x33]);
}

#[test]
fn mmio_handle_irq_fires_subscribers_without_touching_registers() {
    let mut mmio = PciMmio::new(SimBus::<u8>::new());
    mmio.subscribe(9, false);
    let writes_before = mmio.bus_ref().log.len();
    let fired = mmio.handle_irq(4);
    assert_eq!(fired, vec![9]);
    assert_eq!(mmio.bus_ref().log.len(), writes_before);
    // Persistent subscribers fire on every interrupt.
    assert_eq!(mmio.handle_irq(4), vec![9]);
}
