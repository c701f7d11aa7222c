//! Buffering decorator and event fan-out: capacity and FIFO laws,
//! event propagation, name composition, and the display accessor.

use pci_serial::buffered::BufferedPci;
use pci_serial::display::{DisplayInfo, PciDisplay};
use pci_serial::event::EventListener;
use pci_serial::pci::PciMmio;
use pci_serial::scheme::PciScheme;
use pci_serial::sim::SimBus;

fn buffered_over_sim(preload: &[u8]) -> BufferedPci<PciMmio<SimBus<u8>>> {
    let mut sim = SimBus::<u8>::new();
    for &b in preload {
        sim.feed(b);
    }
    BufferedPci::new(PciMmio::new(sim), 7)
}

#[test]
fn listener_fires_in_registration_order() {
    let mut listener = EventListener::new();
    listener.subscribe(3, false);
    listener.subscribe(1, false);
    listener.subscribe(2, false);
    assert_eq!(listener.trigger(), vec![3, 1, 2]);
    assert_eq!(listener.trigger(), vec![3, 1, 2]);
}

#[test]
fn listener_discards_oneshot_subscribers_after_firing() {
    let mut listener = EventListener::new();
    listener.subscribe(1, true);
    listener.subscribe(2, false);
    listener.subscribe(3, true);
    assert_eq!(listener.trigger(), vec![1, 2, 3]);
    assert_eq!(listener.trigger(), vec![2]);
    assert_eq!(listener.trigger(), vec![2]);
}

#[test]
fn name_composition() {
    let buffered = buffered_over_sim(&[]);
    assert_eq!(buffered.name(), "pci-mmio-buffered");
}

#[test]
fn drain_keeps_everything_that_fits() {
    let bytes: Vec<u8> = (0..4096u32).map(|i| (i % 251) as u8).collect();
    let mut buffered = buffered_over_sim(&bytes);
    buffered.subscribe(42, false);
    let fired = buffered.handle_irq();
    assert_eq!(fired, Some(vec![42]));
    // The wrapped device was drained completely.
    assert_eq!(buffered.device_ref().bus_ref().rx_fifo.len(), 0);
    for (i, &b) in bytes.iter().enumerate() {
        assert_eq!(buffered.try_recv(), Ok(Some(b)), "byte {}", i);
    }
    assert_eq!(buffered.try_recv(), Ok(None));
}

#[test]
fn drain_discards_overflow_beyond_capacity() {
    let bytes: Vec<u8> = (0..5000u32).map(|i| (i % 199) as u8).collect();
    let mut buffered = buffered_over_sim(&bytes);
    let fired = buffered.handle_irq();
    assert!(fired.is_some());
    // The overflow was consumed from the device, not queued for later.
    assert_eq!(buffered.device_ref().bus_ref().rx_fifo.len(), 0);
    // Exactly the first 4096 bytes survive, in order.
    for &b in bytes.iter().take(4096) {
        assert_eq!(buffered.try_recv(), Ok(Some(b)));
    }
    assert_eq!(buffered.try_recv(), Ok(None));
}

#[test]
fn fifo_order_across_interleaved_drains_and_pops() {
    let mut buffered = buffered_over_sim(&[1, 2, 3]);
    assert!(buffered.handle_irq().is_some());
    assert_eq!(buffered.try_recv(), Ok(Some(1)));
    buffered.device_mut().bus_mut().feed(4);
    buffered.device_mut().bus_mut().feed(5);
    assert!(buffered.handle_irq().is_some());
    assert_eq!(buffered.try_recv(), Ok(Some(2)));
    assert_eq!(buffered.try_recv(), Ok(Some(3)));
    assert_eq!(buffered.try_recv(), Ok(Some(4)));
    assert_eq!(buffered.try_recv(), Ok(Some(5)));
    assert_eq!(buffered.try_recv(), Ok(None));
}

#[test]
fn popping_empty_buffer_returns_no_data_without_mutating() {
    let mut buffered = buffered_over_sim(&[]);
    assert_eq!(buffered.try_recv(), Ok(None));
    assert_eq!(buffered.try_recv(), Ok(None));
}

#[test]
fn pops_never_consult_the_wrapped_device() {
    let mut buffered = buffered_over_sim(&[]);
    // Bytes sit in the device, undrained: a pop must not see them.
    buffered.device_mut().bus_mut().feed(0x11);
    buffered.device_mut().bus_mut().feed(0x22);
    assert_eq!(buffered.try_recv(), Ok(None));
    assert_eq!(buffered.device_ref().bus_ref().rx_fifo.len(), 2);
    // Only the interrupt-driven drain moves them into the buffer.
    assert!(buffered.handle_irq().is_some());
    assert_eq!(buffered.try_recv(), Ok(Some(0x11)));
    // A pop with one byte left does not drain the device either.
    buffered.device_mut().bus_mut().feed(0x33);
    assert_eq!(buffered.try_recv(), Ok(Some(0x22)));
    assert_eq!(buffered.device_ref().bus_ref().rx_fifo.len(), 1);
}

#[test]
fn irq_with_no_data_and_empty_buffer_publishes_nothing() {
    let mut buffered = buffered_over_sim(&[]);
    buffered.subscribe(42, false);
    assert_eq!(buffered.handle_irq(), None);
}

#[test]
fn irq_with_data_publishes_once_per_drain() {
    let mut buffered = buffered_over_sim(&[9]);
    buffered.subscribe(5, false);
    assert_eq!(buffered.handle_irq(), Some(vec![5]));
    // The buffer is still non-empty, so a further interrupt publishes
    // again even though nothing new was drained.
    assert_eq!(buffered.handle_irq(), Some(vec![5]));
    assert_eq!(buffered.try_recv(), Ok(Some(9)));
    assert_eq!(buffered.handle_irq(), None);
}

#[test]
fn decorator_registers_itself_with_the_wrapped_device() {
    let mut buffered = buffered_over_sim(&[]);
    // The wrapped device's interrupt reports the decorator's token.
    assert_eq!(buffered.device_mut().handle_irq(0), vec![7]);
}

#[test]
fn send_and_write_str_pass_through() {
    let mut buffered = buffered_over_sim(&[]);
    assert_eq!(buffered.send(0x55), Ok(()));
    assert_eq!(buffered.write_str("x\ny"), Ok(()));
    let tx = &buffered.device_ref().bus_ref().tx_log;
    // Divisor low byte from bring-up, then the passed-through bytes.
    assert_eq!(tx.as_slice(), &[0x03, 0x55, b'x', b'\r', b'\n', b'y']);
}

#[test]
fn display_reports_its_description() {
    let info = DisplayInfo { width: 640, height: 480, fb_base_vaddr: 0x8000_0000, fb_size: 640 * 480 * 4 };
    let display = PciDisplay::new(info);
    assert_eq!(display.name(), "pci-display");
    assert_eq!(display.info(), info);
}
