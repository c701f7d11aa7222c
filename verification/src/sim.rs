//! An in-memory register block: a bus implementation that keeps the
//! write trace, the receive queue and the transmitter state as plain
//! data. It backs the protocol layer in tests and wherever no
//! memory-mapped hardware is present.

use vstd::prelude::*;

use core::marker::PhantomData;
use std::collections::VecDeque;

use crate::io::{REG_DATA, REG_LINE_STS, UartIo};
use crate::word::HwWord;

verus! {

/// A simulated UART register block of word width `W`.
pub struct SimBus<W: HwWord> {
    /// Every write performed, in order: (register offset, value).
    pub log: Vec<(usize, u32)>,
    /// The low byte of every value written to the data register.
    pub tx_log: Vec<u8>,
    /// The low byte of every value written to the data register while
    /// the transmit buffer was not ready.
    pub early_tx_log: Vec<u8>,
    /// Bytes waiting to be received, oldest first.
    pub rx_fifo: VecDeque<u8>,
    /// Line-status polls left before the transmit buffer reports
    /// itself empty; zero means ready now.
    pub delay: usize,
    /// Marker tying the block to its word width.
    pub width: PhantomData<W>,
}

impl<W: HwWord> SimBus<W> {
    /// A fresh block: nothing written, nothing pending, transmitter ready.
    pub fn new() -> (r: Self)
        ensures
            r.trace() == Seq::<(usize, u32)>::empty(),
            r.tx() == Seq::<u8>::empty(),
            r.rx() == Seq::<u8>::empty(),
            r.tx_delay() == 0,
            r.early_tx() == Seq::<u8>::empty(),
    {
        SimBus {
            log: Vec::new(),
            tx_log: Vec::new(),
            early_tx_log: Vec::new(),
            rx_fifo: VecDeque::new(),
            delay: 0,
            width: PhantomData,
        }
    }

    /// A byte arrives on the wire: append it to the receive queue.
    pub fn feed(&mut self, b: u8)
        ensures
            final(self).rx() == old(self).rx().push(b),
            final(self).trace() == old(self).trace(),
            final(self).tx() == old(self).tx(),
            final(self).tx_delay() == old(self).tx_delay(),
            final(self).early_tx() == old(self).early_tx(),
    {
        self.rx_fifo.push_back(b);
    }

    /// Make the transmit buffer report itself empty only after
    /// `polls` more line-status reads.
    pub fn set_delay(&mut self, polls: usize)
        ensures
            final(self).tx_delay() == polls as nat,
            final(self).trace() == old(self).trace(),
            final(self).tx() == old(self).tx(),
            final(self).rx() == old(self).rx(),
            final(self).early_tx() == old(self).early_tx(),
    {
        self.delay = polls;
    }
}

impl<W: HwWord> UartIo for SimBus<W> {
    type Word = W;

    open spec fn trace(&self) -> Seq<(usize, u32)> {
        self.log@
    }

    open spec fn rx(&self) -> Seq<u8> {
        self.rx_fifo@
    }

    open spec fn tx(&self) -> Seq<u8> {
        self.tx_log@
    }

    open spec fn tx_delay(&self) -> nat {
        self.delay as nat
    }

    open spec fn early_tx(&self) -> Seq<u8> {
        self.early_tx_log@
    }

    fn write_reg(&mut self, off: usize, v: W) {
        let w = v.word();
        self.log.push((off, w));
        if off == REG_DATA {
            self.tx_log.push((w & 0xFF) as u8);
            if self.delay > 0 {
                self.early_tx_log.push((w & 0xFF) as u8);
            }
        }
    }

    fn read_reg(&mut self, off: usize) -> (r: W) {
        if off == REG_LINE_STS {
            let has_input = self.rx_fifo.len() > 0;
            let is_ready = self.delay == 0;
            let sts: u8 = if has_input && is_ready {
                0x21
            } else if has_input {
                0x01
            } else if is_ready {
                0x20
            } else {
                0x00
            };
            if self.delay > 0 {
                self.delay = self.delay - 1;
            }
            let r = W::from_byte(sts);
            proof {
                assert(0x21u32 & 0x01 == 0x01 && 0x21u32 & 0x20 == 0x20) by (bit_vector);
                assert(0x01u32 & 0x01 == 0x01 && 0x01u32 & 0x20 == 0x00) by (bit_vector);
                assert(0x20u32 & 0x01 == 0x00 && 0x20u32 & 0x20 == 0x20) by (bit_vector);
                assert(0x00u32 & 0x01 == 0x00 && 0x00u32 & 0x20 == 0x00) by (bit_vector);
            }
            r
        } else if off == REG_DATA {
            match self.rx_fifo.pop_front() {
                Some(b) => W::from_byte(b),
                None => W::from_byte(0),
            }
        } else {
            W::from_byte(0)
        }
    }
}

} // verus!
