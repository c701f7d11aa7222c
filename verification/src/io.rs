//! Register-access abstraction: seven fixed-offset registers in a
//! defined order, addressed by register-sized slot, with line-status
//! and modem-status never written.
//!
//! The abstraction views a device as quiescent between external
//! events: bytes pending in the receive queue and the transmitter's
//! readiness change only through the operations below (new input is
//! modelled by the concrete bus, not by this trait).

use vstd::prelude::*;

use crate::word::HwWord;

verus! {

/// Offset of the data register (read to receive, write to send).
pub const REG_DATA: usize = 0;

/// Offset of the interrupt-enable register.
pub const REG_INT_EN: usize = 1;

/// Offset of the FIFO-control register.
pub const REG_FIFO_CTRL: usize = 2;

/// Offset of the line-control register.
pub const REG_LINE_CTRL: usize = 3;

/// Offset of the modem-control register.
pub const REG_MODEM_CTRL: usize = 4;

/// Offset of the line-status register (read-only).
pub const REG_LINE_STS: usize = 5;

/// Offset of the modem-status register (read-only).
pub const REG_MODEM_STS: usize = 6;

/// Number of registers in the block.
pub const REG_COUNT: usize = 7;

/// Access to one UART register block, generic over the bus word width.
///
/// The view is the behaviour the protocol layer relies on:
/// - `trace()`: every write performed, in order, as offset and value;
/// - `rx()`: the bytes pending in the receive queue, oldest first;
/// - `tx()`: the bytes handed to the transmitter so far;
/// - `tx_delay()`: how many more line-status polls pass before the
///   transmit buffer reports itself empty. Zero means ready now; a
///   positive value stands for the hardware latency a sender spins
///   through, and each poll brings readiness one step closer.
pub trait UartIo: Sized {
    type Word: HwWord;

    /// Every write performed so far: (register offset, value written).
    /// A bus that models nothing (raw hardware) may leave the default,
    /// unconstrained view.
    open spec fn trace(&self) -> Seq<(usize, u32)> {
        arbitrary()
    }

    /// Bytes pending in the receive queue, oldest first.
    open spec fn rx(&self) -> Seq<u8> {
        arbitrary()
    }

    /// Bytes handed to the transmitter so far, i.e. the low byte of
    /// every value written to the data register.
    open spec fn tx(&self) -> Seq<u8> {
        arbitrary()
    }

    /// Line-status polls remaining until the transmit buffer reports
    /// itself empty.
    open spec fn tx_delay(&self) -> nat {
        arbitrary()
    }

    /// Bytes written to the data register while the transmit buffer
    /// was not ready (`tx_delay() > 0`). A sender that waits for
    /// readiness never adds to this; the bring-up's divisor write
    /// may, since programming the divisor does not wait for the
    /// transmitter.
    open spec fn early_tx(&self) -> Seq<u8> {
        arbitrary()
    }

    /// Store `v` in the register at `off`. The status registers are
    /// read-only and may never be written.
    fn write_reg(&mut self, off: usize, v: Self::Word)
        requires
            off < REG_LINE_STS,
        ensures
            final(self).trace() == old(self).trace().push((off, v.as_word())),
            final(self).tx() == (if off == REG_DATA {
                old(self).tx().push((v.as_word() & 0xFF) as u8)
            } else {
                old(self).tx()
            }),
            final(self).rx() == old(self).rx(),
            final(self).tx_delay() == old(self).tx_delay(),
            final(self).early_tx() == (if off == REG_DATA && old(self).tx_delay() > 0 {
                old(self).early_tx().push((v.as_word() & 0xFF) as u8)
            } else {
                old(self).early_tx()
            }),
    ;

    /// Read the register at `off`.
    ///
    /// Reading the data register consumes the oldest pending byte, if
    /// any. The line-status register reports, in its known bits, the
    /// receive-queue and transmitter state, and polling it brings the
    /// transmitter one step closer to readiness; its other bits are
    /// hardware-defined and unconstrained. No read writes anything.
    fn read_reg(&mut self, off: usize) -> (r: Self::Word)
        requires
            off < REG_COUNT,
        ensures
            final(self).trace() == old(self).trace(),
            final(self).tx() == old(self).tx(),
            final(self).early_tx() == old(self).early_tx(),
            off != REG_DATA ==> final(self).rx() == old(self).rx(),
            off != REG_LINE_STS ==> final(self).tx_delay() == old(self).tx_delay(),
            off == REG_LINE_STS ==> final(self).tx_delay() == (if old(self).tx_delay() > 0 {
                (old(self).tx_delay() - 1) as nat
            } else {
                0nat
            }),
            off == REG_LINE_STS ==> r.as_word() & 0x01 == (if old(self).rx().len() > 0 {
                0x01u32
            } else {
                0x00u32
            }),
            off == REG_LINE_STS ==> r.as_word() & 0x20 == (if old(self).tx_delay() == 0 {
                0x20u32
            } else {
                0x00u32
            }),
            off == REG_DATA && old(self).rx().len() > 0 ==> r.as_word() == old(self).rx()[0]
                as u32 && final(self).rx() == old(self).rx().drop_first(),
            off == REG_DATA && old(self).rx().len() == 0 ==> final(self).rx() == old(self).rx(),
    ;
}

} // verus!
