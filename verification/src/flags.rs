//! Named-bit sets over the interrupt-enable and line-status registers,
//! with truncating parse from a raw value and query-by-name operations.

use vstd::prelude::*;

verus! {

/// Bit for "data has been received" in the interrupt-enable register.
pub const INT_EN_RECEIVED: u8 = 0x01;

/// Bit for "transmitter is done" in the interrupt-enable register.
pub const INT_EN_SENT: u8 = 0x02;

/// Bit for "a transfer error occurred" in the interrupt-enable register.
pub const INT_EN_ERRORED: u8 = 0x04;

/// Bit for "line or modem status changed" in the interrupt-enable register.
pub const INT_EN_STATUS_CHANGE: u8 = 0x08;

/// The known interrupt-enable bits; bits 4 to 7 are reserved.
pub const INT_EN_MASK: u8 = 0x0F;

/// Bit for "receive buffer holds data" in the line-status register.
pub const LINE_STS_INPUT_FULL: u8 = 0x01;

/// Bit for "transmit buffer can accept a byte" in the line-status register.
pub const LINE_STS_OUTPUT_EMPTY: u8 = 0x20;

/// The line-status bits this protocol understands; the rest are masked off.
pub const LINE_STS_MASK: u8 = 0x21;

/// Interrupt-enable flags: which hardware events raise an interrupt.
#[derive(Clone, Copy, PartialEq, Eq, Structural, Debug)]
pub struct IntEnFlags {
    bits: u8,
}

impl IntEnFlags {
    /// The raw bit pattern held by this flag set.
    pub closed spec fn spec_bits(self) -> u8 {
        self.bits
    }

    /// Only known bits are ever held.
    pub open spec fn wf(self) -> bool {
        self.spec_bits() & INT_EN_MASK == self.spec_bits()
    }

    /// Parse a raw register value, zeroing the reserved bits.
    pub fn from_bits_truncate(raw: u8) -> (r: Self)
        ensures
            r.spec_bits() == raw & INT_EN_MASK,
            r.wf(),
    {
        let r = IntEnFlags { bits: raw & INT_EN_MASK };
        proof {
            assert((raw & 0x0F) & 0x0F == raw & 0x0F) by (bit_vector);
        }
        r
    }

    /// The raw bit pattern, for writing back to the register.
    pub fn bits(self) -> (r: u8)
        ensures
            r == self.spec_bits(),
    {
        self.bits
    }

    /// Does this set hold every bit of `other`?
    pub fn contains(self, other: Self) -> (r: bool)
        ensures
            r == (self.spec_bits() & other.spec_bits() == other.spec_bits()),
    {
        self.bits & other.bits == other.bits
    }

    /// Is the received-data interrupt enabled?
    pub fn has_received(self) -> (r: bool)
        ensures
            r == (self.spec_bits() & INT_EN_RECEIVED == INT_EN_RECEIVED),
    {
        self.bits & INT_EN_RECEIVED == INT_EN_RECEIVED
    }
}

/// Line-status flags: transfer readiness as reported by the device.
#[derive(Clone, Copy, PartialEq, Eq, Structural, Debug)]
pub struct LineStsFlags {
    bits: u8,
}

impl LineStsFlags {
    /// The raw bit pattern held by this flag set.
    pub closed spec fn spec_bits(self) -> u8 {
        self.bits
    }

    /// Only known bits are ever held.
    pub open spec fn wf(self) -> bool {
        self.spec_bits() & LINE_STS_MASK == self.spec_bits()
    }

    /// Whether the receive buffer holds a byte.
    pub open spec fn spec_input_full(self) -> bool {
        self.spec_bits() & LINE_STS_INPUT_FULL == LINE_STS_INPUT_FULL
    }

    /// Whether the transmit buffer can accept a byte.
    pub open spec fn spec_output_empty(self) -> bool {
        self.spec_bits() & LINE_STS_OUTPUT_EMPTY == LINE_STS_OUTPUT_EMPTY
    }

    /// Parse a raw register value, zeroing the unknown bits.
    pub fn from_bits_truncate(raw: u8) -> (r: Self)
        ensures
            r.spec_bits() == raw & LINE_STS_MASK,
            r.wf(),
            r.spec_input_full() == (raw & LINE_STS_INPUT_FULL == LINE_STS_INPUT_FULL),
            r.spec_output_empty() == (raw & LINE_STS_OUTPUT_EMPTY == LINE_STS_OUTPUT_EMPTY),
    {
        let r = LineStsFlags { bits: raw & LINE_STS_MASK };
        proof {
            assert((raw & 0x21) & 0x21 == raw & 0x21) by (bit_vector);
            assert(((raw & 0x21) & 0x01 == 0x01) == (raw & 0x01 == 0x01)) by (bit_vector);
            assert(((raw & 0x21) & 0x20 == 0x20) == (raw & 0x20 == 0x20)) by (bit_vector);
        }
        r
    }

    /// Does the receive buffer hold a byte?
    pub fn input_full(self) -> (r: bool)
        ensures
            r == self.spec_input_full(),
    {
        self.bits & LINE_STS_INPUT_FULL == LINE_STS_INPUT_FULL
    }

    /// Can the transmit buffer accept a byte?
    pub fn output_empty(self) -> (r: bool)
        ensures
            r == self.spec_output_empty(),
    {
        self.bits & LINE_STS_OUTPUT_EMPTY == LINE_STS_OUTPUT_EMPTY
    }
}

} // verus!
