//! UART register protocol and the MMIO driver instance: the hardware
//! bring-up sequence, byte-level send/receive, and the driver type
//! that presents one register block as a named, interrupt-aware
//! character-I/O capability.

use vstd::prelude::*;
use vstd::string::StringSliceAdditionalSpecFns;

use crate::event::{EventListener, Subscriber, ids_of, persistent_of};
use crate::flags::LineStsFlags;
use crate::io::{
    REG_DATA, REG_FIFO_CTRL, REG_INT_EN, REG_LINE_CTRL, REG_LINE_STS, REG_MODEM_CTRL, UartIo,
};
use crate::scheme::{PciScheme, lemma_nl_translated_concat, lemma_nl_translated_one, nl_translated};
use crate::word::HwWord;
use crate::{DeviceError, DeviceResult};

verus! {

/// The bring-up write sequence, bit for bit: disable interrupts, set
/// the divisor-latch-access bit, program the divisor low and high
/// bytes, clear latch access and set an 8-bit word length, enable and
/// clear the FIFO with a 14-byte watermark, assert data-terminal-ready
/// with request-to-send and the auxiliary interrupt line, and finally
/// re-enable the received-data interrupt.
pub open spec fn init_writes() -> Seq<(usize, u32)> {
    seq![
        (REG_INT_EN, 0x00u32),
        (REG_LINE_CTRL, 0x80u32),
        (REG_DATA, 0x03u32),
        (REG_INT_EN, 0x00u32),
        (REG_LINE_CTRL, 0x03u32),
        (REG_FIFO_CTRL, 0xC7u32),
        (REG_MODEM_CTRL, 0x0Bu32),
        (REG_INT_EN, 0x01u32),
    ]
}

/// The write trace that `write_str` appends: every translated byte
/// goes to the data register.
pub open spec fn data_writes(bytes: Seq<u8>) -> Seq<(usize, u32)> {
    bytes.map_values(|b: u8| (REG_DATA, b as u32))
}

/// The register-level protocol over one UART register block.
pub struct PciInner<B: UartIo> {
    /// The register block this protocol instance drives.
    pub bus: B,
}

impl<B: UartIo> PciInner<B> {
    /// Run the bring-up sequence: exactly the eight documented values,
    /// in order, to the documented register offsets. The divisor low
    /// byte goes to the data slot without waiting for the
    /// transmitter: programming the divisor is not a transmission.
    pub fn init(&mut self)
        ensures
            final(self).bus.trace() == old(self).bus.trace() + init_writes(),
            final(self).bus.rx() == old(self).bus.rx(),
            final(self).bus.tx() == old(self).bus.tx().push(0x03u8),
            final(self).bus.tx_delay() == old(self).bus.tx_delay(),
            final(self).bus.early_tx() == (if old(self).bus.tx_delay() > 0 {
                old(self).bus.early_tx().push(0x03u8)
            } else {
                old(self).bus.early_tx()
            }),
    {
        // Disable interrupts.
        self.bus.write_reg(REG_INT_EN, <B::Word as HwWord>::from_byte(0x00));
        // Enable the divisor latch.
        self.bus.write_reg(REG_LINE_CTRL, <B::Word as HwWord>::from_byte(0x80));
        // Program the divisor for the fixed baud rate: low byte to the
        // data slot, high byte to the interrupt-enable slot, both
        // repurposed while the latch is active.
        self.bus.write_reg(REG_DATA, <B::Word as HwWord>::from_byte(0x03));
        self.bus.write_reg(REG_INT_EN, <B::Word as HwWord>::from_byte(0x00));
        // Disable the latch and set an 8-bit word length.
        self.bus.write_reg(REG_LINE_CTRL, <B::Word as HwWord>::from_byte(0x03));
        // Enable and clear the FIFO with a 14-byte receive watermark.
        self.bus.write_reg(REG_FIFO_CTRL, <B::Word as HwWord>::from_byte(0xC7));
        // Data terminal ready, request to send, auxiliary output 2 as
        // the interrupt line.
        self.bus.write_reg(REG_MODEM_CTRL, <B::Word as HwWord>::from_byte(0x0B));
        // Re-enable the received-data interrupt.
        self.bus.write_reg(REG_INT_EN, <B::Word as HwWord>::from_byte(0x01));
        proof {
            assert((0x03u32 & 0xFF) as u8 == 0x03u8) by (bit_vector);
            assert(self.bus.trace() =~= old(self).bus.trace() + init_writes());
        }
    }

    /// Read the line-status register, mask to the low eight bits, and
    /// parse the known readiness bits, zeroing the unknown ones.
    pub fn line_sts(&mut self) -> (r: LineStsFlags)
        ensures
            final(self).bus.trace() == old(self).bus.trace(),
            final(self).bus.tx() == old(self).bus.tx(),
            final(self).bus.rx() == old(self).bus.rx(),
            final(self).bus.early_tx() == old(self).bus.early_tx(),
            final(self).bus.tx_delay() == (if old(self).bus.tx_delay() > 0 {
                (old(self).bus.tx_delay() - 1) as nat
            } else {
                0nat
            }),
            r.wf(),
            r.spec_input_full() == (old(self).bus.rx().len() > 0),
            r.spec_output_empty() == (old(self).bus.tx_delay() == 0),
    {
        let w = self.bus.read_reg(REG_LINE_STS);
        let masked = w.bit_and(<B::Word as HwWord>::from_byte(0xFF));
        proof {
            let raw = w.as_word();
            assert(raw & 0xFF <= 0xFF) by (bit_vector);
        }
        let b = masked.low_byte();
        let r = LineStsFlags::from_bits_truncate(b);
        proof {
            let raw = w.as_word();
            assert(b as u32 == raw & 0xFF ==> ((b & 0x01u8 == 0x01) == (raw & 0x01u32 == 0x01)))
                by (bit_vector);
            assert(b as u32 == raw & 0xFF ==> ((b & 0x20u8 == 0x20) == (raw & 0x20u32 == 0x20)))
                by (bit_vector);
        }
        r
    }

    /// Non-blocking receive: the oldest pending byte (the low eight
    /// bits of the data register) if input is full, else no data. The
    /// data register is read at most once, and only when input is
    /// full. Never blocks, never errors.
    pub fn try_recv(&mut self) -> (r: DeviceResult<Option<u8>>)
        ensures
            final(self).bus.trace() == old(self).bus.trace(),
            final(self).bus.tx() == old(self).bus.tx(),
            final(self).bus.early_tx() == old(self).bus.early_tx(),
            match r {
                Ok(Some(b)) => old(self).bus.rx().len() > 0 && b == old(self).bus.rx()[0]
                    && final(self).bus.rx() == old(self).bus.rx().drop_first(),
                Ok(None) => old(self).bus.rx().len() == 0 && final(self).bus.rx() == old(
                    self,
                ).bus.rx(),
                Err(_) => false,
            },
    {
        let sts = self.line_sts();
        if sts.input_full() {
            let w = self.bus.read_reg(REG_DATA);
            let masked = w.bit_and(<B::Word as HwWord>::from_byte(0xFF));
            proof {
                let raw = w.as_word();
                assert(raw <= 0xFF ==> raw & 0xFF == raw) by (bit_vector);
            }
            let b = masked.low_byte();
            Ok(Some(b))
        } else {
            Ok(None)
        }
    }

    /// Blocking send: spin until the transmit buffer reports itself
    /// empty, then write the byte to the data register — exactly one
    /// data write, and none before readiness (`early_tx` stays as it
    /// was).
    pub fn send(&mut self, ch: u8) -> (r: DeviceResult<()>)
        ensures
            final(self).bus.trace() == old(self).bus.trace().push((REG_DATA, ch as u32)),
            final(self).bus.tx() == old(self).bus.tx().push(ch),
            final(self).bus.rx() == old(self).bus.rx(),
            final(self).bus.tx_delay() == 0,
            final(self).bus.early_tx() == old(self).bus.early_tx(),
            r == Ok::<(), DeviceError>(()),
    {
        loop
            invariant
                self.bus.trace() == old(self).bus.trace(),
                self.bus.tx() == old(self).bus.tx(),
                self.bus.rx() == old(self).bus.rx(),
                self.bus.early_tx() == old(self).bus.early_tx(),
            ensures
                self.bus.tx_delay() == 0,
            decreases self.bus.tx_delay(),
        {
            let sts = self.line_sts();
            if sts.output_empty() {
                break ;
            }
        }
        let w = <B::Word as HwWord>::from_byte(ch);
        self.bus.write_reg(REG_DATA, w);
        proof {
            assert((ch as u32 & 0xFF) as u8 == ch) by (bit_vector);
        }
        Ok(())
    }

    /// Send every byte of `s`, emitting carriage-return then line-feed
    /// for each line-feed byte, all other bytes as they are. Fails
    /// only if an individual send fails, which by contract never
    /// happens, short-circuiting on the first failure.
    pub fn write_str(&mut self, s: &str) -> (r: DeviceResult<()>)
        ensures
            final(self).bus.tx() == old(self).bus.tx() + nl_translated(s.spec_bytes()),
            final(self).bus.trace() == old(self).bus.trace() + data_writes(
                nl_translated(s.spec_bytes()),
            ),
            final(self).bus.rx() == old(self).bus.rx(),
            final(self).bus.early_tx() == old(self).bus.early_tx(),
            r == Ok::<(), DeviceError>(()),
    {
        let bytes = s.as_bytes();
        let n = bytes.len();
        let mut i: usize = 0;
        proof {
            assert(s.spec_bytes().take(0) =~= Seq::<u8>::empty());
            assert(nl_translated(Seq::<u8>::empty()) == Seq::<u8>::empty());
            assert(self.bus.tx() =~= old(self).bus.tx() + Seq::<u8>::empty());
            assert(data_writes(Seq::<u8>::empty()) =~= Seq::<(usize, u32)>::empty());
            assert(self.bus.trace() =~= old(self).bus.trace() + Seq::<(usize, u32)>::empty());
        }
        while i < n
            invariant
                n == s.spec_bytes().len(),
                bytes@ == s.spec_bytes(),
                i <= n,
                self.bus.tx() == old(self).bus.tx() + nl_translated(s.spec_bytes().take(i as int)),
                self.bus.trace() == old(self).bus.trace() + data_writes(
                    nl_translated(s.spec_bytes().take(i as int)),
                ),
                self.bus.rx() == old(self).bus.rx(),
                self.bus.early_tx() == old(self).bus.early_tx(),
            decreases n - i,
        {
            let ghost sb = s.spec_bytes();
            let ghost tx_before = self.bus.tx();
            let ghost trace_before = self.bus.trace();
            let b = bytes[i];
            if b == 10 {
                // Canonical newline translation for serial terminals:
                // carriage return, then line feed.
                self.send(13)?;
                self.send(10)?;
            } else {
                self.send(b)?;
            }
            proof {
                let piece: Seq<u8> = if b == 10u8 {
                    seq![13u8, 10u8]
                } else {
                    seq![b]
                };
                assert(self.bus.tx() =~= tx_before + piece);
                assert(self.bus.trace() =~= trace_before + data_writes(piece));
                assert(sb.take(i + 1) =~= sb.take(i as int) + seq![sb[i as int]]);
                lemma_nl_translated_concat(sb.take(i as int), seq![sb[i as int]]);
                lemma_nl_translated_one(sb[i as int]);
                assert(nl_translated(sb.take(i + 1)) =~= nl_translated(sb.take(i as int))
                    + piece);
                assert(self.bus.tx() =~= old(self).bus.tx() + nl_translated(sb.take(i + 1)));
                assert(data_writes(nl_translated(sb.take(i + 1))) =~= data_writes(
                    nl_translated(sb.take(i as int)),
                ) + data_writes(piece));
                assert(self.bus.trace() =~= old(self).bus.trace() + data_writes(
                    nl_translated(sb.take(i + 1)),
                ));
            }
            i = i + 1;
        }
        proof {
            assert(s.spec_bytes().take(n as int) =~= s.spec_bytes());
        }
        Ok(())
    }
}

/// The MMIO driver instance: owns one live register block and
/// presents it as the `"pci-mmio"` character-I/O capability.
///
/// The caller that maps the hardware hands over the register block;
/// construction immediately runs the bring-up sequence. Exclusive
/// ownership of the block for the rest of the program is the
/// handing-over layer's single-owner obligation.
pub struct PciMmio<B: UartIo> {
    inner: PciInner<B>,
    listener: EventListener,
}

impl<B: UartIo> PciMmio<B> {
    /// The register block as the driver sees it.
    pub closed spec fn spec_bus(&self) -> B {
        self.inner.bus
    }

    /// Take exclusive ownership of a register block and bring the
    /// device up.
    pub fn new(bus: B) -> (r: Self)
        ensures
            r.spec_bus().trace() == bus.trace() + init_writes(),
            r.spec_bus().rx() == bus.rx(),
            r.spec_bus().tx() == bus.tx().push(0x03u8),
            r.spec_bus().tx_delay() == bus.tx_delay(),
            r.spec_bus().early_tx() == (if bus.tx_delay() > 0 {
                bus.early_tx().push(0x03u8)
            } else {
                bus.early_tx()
            }),
            r.subscribers() == Seq::<Subscriber>::empty(),
            r.wf(),
    {
        let mut inner = PciInner { bus };
        inner.init();
        PciMmio { inner, listener: EventListener::new() }
    }

    /// Interrupt entry point: performs no draining and touches no
    /// register, only reports the listener's subscribers so the
    /// dispatch layer can invoke them — constant interrupt-context
    /// work, pushed to subscribers.
    pub fn handle_irq(&mut self, _irq_num: usize) -> (fired: Vec<u64>)
        ensures
            fired@ == ids_of(old(self).subscribers()),
            final(self).subscribers() == persistent_of(old(self).subscribers()),
            final(self).spec_bus() == old(self).spec_bus(),
    {
        self.listener.trigger()
    }

    /// Borrow the register block, e.g. to inspect a simulated bus.
    pub fn bus_ref(&self) -> (r: &B)
        ensures
            *r == self.spec_bus(),
    {
        &self.inner.bus
    }

    /// Borrow the register block mutably, e.g. so the layer that owns
    /// the wire can deliver arriving bytes to a simulated bus.
    pub fn bus_mut(&mut self) -> (r: &mut B)
        ensures
            *r == old(self).spec_bus(),
            final(self).spec_bus() == *final(r),
            final(self).subscribers() == old(self).subscribers(),
    {
        &mut self.inner.bus
    }
}

impl<B: UartIo> PciScheme for PciMmio<B> {
    open spec fn wf(&self) -> bool {
        true
    }

    open spec fn name_spec(&self) -> Seq<char> {
        "pci-mmio"@
    }

    open spec fn pending(&self) -> Seq<u8> {
        self.spec_bus().rx()
    }

    open spec fn sent(&self) -> Seq<u8> {
        self.spec_bus().tx()
    }

    closed spec fn subscribers(&self) -> Seq<Subscriber> {
        self.listener.subscribers()
    }

    fn name(&self) -> (r: &str) {
        "pci-mmio"
    }

    /// Registers a subscriber only: no register is touched.
    fn subscribe(&mut self, id: u64, oneshot: bool)
        ensures
            final(self).spec_bus() == old(self).spec_bus(),
    {
        self.listener.subscribe(id, oneshot);
    }

    /// Behaves exactly as the protocol-layer receive: no register is
    /// written.
    fn try_recv(&mut self) -> (r: DeviceResult<Option<u8>>)
        ensures
            final(self).spec_bus().trace() == old(self).spec_bus().trace(),
            final(self).spec_bus().early_tx() == old(self).spec_bus().early_tx(),
    {
        self.inner.try_recv()
    }

    /// Behaves exactly as the protocol-layer send: exactly one
    /// data-register write, only after readiness.
    fn send(&mut self, ch: u8) -> (r: DeviceResult<()>)
        ensures
            final(self).spec_bus().trace() == old(self).spec_bus().trace().push(
                (REG_DATA, ch as u32),
            ),
            final(self).spec_bus().tx_delay() == 0,
            final(self).spec_bus().early_tx() == old(self).spec_bus().early_tx(),
    {
        self.inner.send(ch)
    }

    /// Behaves exactly as the protocol-layer string write: only
    /// data-register writes of the translated bytes, each after
    /// readiness.
    fn write_str(&mut self, s: &str) -> (r: DeviceResult<()>)
        ensures
            final(self).spec_bus().trace() == old(self).spec_bus().trace() + data_writes(
                nl_translated(s.spec_bytes()),
            ),
            final(self).spec_bus().early_tx() == old(self).spec_bus().early_tx(),
    {
        self.inner.write_str(s)
    }
}

} // verus!
