//! Registers of the PS-XADC interface.
use vstd::prelude::*;

use crate::bits;

verus! {

pub const XADC_BASE_ADDR: usize = 0xF8007100;

/// The interrupt bits that are cleared by writing a one to them.
pub const INTERRUPT_ACK_MASK: u32 = 0x3FF;

/// Configuration register.
#[derive(Debug, Clone, Copy, PartialEq, Eq, Structural)]
pub struct Config {
    pub raw: u32,
}

impl Config {
    pub fn new_with_raw_value(raw: u32) -> (r: Self)
        ensures
            r.raw == raw,
    {
        Config { raw }
    }

    pub fn raw_value(&self) -> (r: u32)
        ensures
            r == self.raw,
    {
        self.raw
    }

    pub fn enable(&self) -> (r: bool)
        ensures
            r == bits::bit(self.raw, 31),
    {
        bits::get_bit(self.raw, 31)
    }

    pub fn with_enable(self, value: bool) -> (r: Self)
        ensures
            r.raw == bits::set_bit(self.raw, 31, value),
    {
        Config { raw: bits::with_bit(self.raw, 31, value) }
    }

    pub fn cfifo_threshold(&self) -> (r: u8)
        ensures
            r == bits::field(self.raw, 20, 4),
    {
        proof {
            bits::field_fits(self.raw, 20, 4);
        }
        bits::get_field(self.raw, 20, 4) as u8
    }

    pub fn with_cfifo_threshold(self, value: u8) -> (r: Self)
        requires
            value < 0x10,
        ensures
            r.raw == bits::set_field(self.raw, 20, 4, value as u32),
    {
        Config { raw: bits::with_field(self.raw, 20, 4, value as u32) }
    }

    pub fn dfifo_threshold(&self) -> (r: u8)
        ensures
            r == bits::field(self.raw, 16, 4),
    {
        proof {
            bits::field_fits(self.raw, 16, 4);
        }
        bits::get_field(self.raw, 16, 4) as u8
    }

    pub fn with_dfifo_threshold(self, value: u8) -> (r: Self)
        requires
            value < 0x10,
        ensures
            r.raw == bits::set_field(self.raw, 16, 4, value as u32),
    {
        Config { raw: bits::with_field(self.raw, 16, 4, value as u32) }
    }

    pub fn write_data_active_edge(&self) -> (r: bool)
        ensures
            r == bits::bit(self.raw, 13),
    {
        bits::get_bit(self.raw, 13)
    }

    pub fn with_write_data_active_edge(self, value: bool) -> (r: Self)
        ensures
            r.raw == bits::set_bit(self.raw, 13, value),
    {
        Config { raw: bits::with_bit(self.raw, 13, value) }
    }

    pub fn read_data_active_edge(&self) -> (r: bool)
        ensures
            r == bits::bit(self.raw, 12),
    {
        bits::get_bit(self.raw, 12)
    }

    pub fn with_read_data_active_edge(self, value: bool) -> (r: Self)
        ensures
            r.raw == bits::set_bit(self.raw, 12, value),
    {
        Config { raw: bits::with_bit(self.raw, 12, value) }
    }

    pub fn tck_rate(&self) -> (r: u8)
        ensures
            r == bits::field(self.raw, 8, 2),
    {
        proof {
            bits::field_fits(self.raw, 8, 2);
        }
        bits::get_field(self.raw, 8, 2) as u8
    }

    pub fn with_tck_rate(self, value: u8) -> (r: Self)
        requires
            value < 0x4,
        ensures
            r.raw == bits::set_field(self.raw, 8, 2, value as u32),
    {
        Config { raw: bits::with_field(self.raw, 8, 2, value as u32) }
    }

    pub fn inter_packet_gap(&self) -> (r: u8)
        ensures
            r == bits::field(self.raw, 0, 5),
    {
        proof {
            bits::field_fits(self.raw, 0, 5);
        }
        bits::get_field(self.raw, 0, 5) as u8
    }

    pub fn with_inter_packet_gap(self, value: u8) -> (r: Self)
        requires
            value < 0x20,
        ensures
            r.raw == bits::set_field(self.raw, 0, 5, value as u32),
    {
        Config { raw: bits::with_field(self.raw, 0, 5, value as u32) }
    }
}

/// Interrupt status register.
#[derive(Debug, Clone, Copy, PartialEq, Eq, Structural)]
pub struct InterruptStatus {
    pub raw: u32,
}

impl InterruptStatus {
    pub fn new_with_raw_value(raw: u32) -> (r: Self)
        ensures
            r.raw == raw,
    {
        InterruptStatus { raw }
    }

    pub fn raw_value(&self) -> (r: u32)
        ensures
            r == self.raw,
    {
        self.raw
    }

    pub fn cfifo_below_threshold(&self) -> (r: bool)
        ensures
            r == bits::bit(self.raw, 9),
    {
        bits::get_bit(self.raw, 9)
    }

    pub fn with_cfifo_below_threshold(self, value: bool) -> (r: Self)
        ensures
            r.raw == bits::set_bit(self.raw, 9, value),
    {
        InterruptStatus { raw: bits::with_bit(self.raw, 9, value) }
    }

    pub fn dfifo_above_threshold(&self) -> (r: bool)
        ensures
            r == bits::bit(self.raw, 8),
    {
        bits::get_bit(self.raw, 8)
    }

    pub fn with_dfifo_above_threshold(self, value: bool) -> (r: Self)
        ensures
            r.raw == bits::set_bit(self.raw, 8, value),
    {
        InterruptStatus { raw: bits::with_bit(self.raw, 8, value) }
    }

    pub fn over_temperature(&self) -> (r: bool)
        ensures
            r == bits::bit(self.raw, 7),
    {
        bits::get_bit(self.raw, 7)
    }

    pub fn with_over_temperature(self, value: bool) -> (r: Self)
        ensures
            r.raw == bits::set_bit(self.raw, 7, value),
    {
        InterruptStatus { raw: bits::with_bit(self.raw, 7, value) }
    }

    pub fn alarms(&self) -> (r: u8)
        ensures
            r == bits::field(self.raw, 0, 7),
    {
        proof {
            bits::field_fits(self.raw, 0, 7);
        }
        bits::get_field(self.raw, 0, 7) as u8
    }

    pub fn with_alarms(self, value: u8) -> (r: Self)
        requires
            value < 0x80,
        ensures
            r.raw == bits::set_field(self.raw, 0, 7, value as u32),
    {
        InterruptStatus { raw: bits::with_field(self.raw, 0, 7, value as u32) }
    }

    /// Builds a zero-based W1C write that acknowledges all pending XADC interrupt bits.
    pub fn ack_all() -> (r: Self)
        ensures
            r.raw == INTERRUPT_ACK_MASK,
    {
        InterruptStatus { raw: INTERRUPT_ACK_MASK }
    }

    /// Builds a zero-based W1C write that acknowledges the interrupt bits present in `status`.
    pub fn ack_from(status: Self) -> (r: Self)
        ensures
            r.raw == status.raw & INTERRUPT_ACK_MASK,
    {
        InterruptStatus { raw: status.raw & INTERRUPT_ACK_MASK }
    }
}

/// The interrupt mask register has the layout of the status register.
pub type InterruptMask = InterruptStatus;

/// Miscellaneous status register.
#[derive(Debug, Clone, Copy, PartialEq, Eq, Structural)]
pub struct MiscStatus {
    pub raw: u32,
}

impl MiscStatus {
    pub fn new_with_raw_value(raw: u32) -> (r: Self)
        ensures
            r.raw == raw,
    {
        MiscStatus { raw }
    }

    pub fn raw_value(&self) -> (r: u32)
        ensures
            r == self.raw,
    {
        self.raw
    }

    pub fn cfifo_level(&self) -> (r: u8)
        ensures
            r == bits::field(self.raw, 16, 4),
    {
        proof {
            bits::field_fits(self.raw, 16, 4);
        }
        bits::get_field(self.raw, 16, 4) as u8
    }

    pub fn dfifo_level(&self) -> (r: u8)
        ensures
            r == bits::field(self.raw, 12, 4),
    {
        proof {
            bits::field_fits(self.raw, 12, 4);
        }
        bits::get_field(self.raw, 12, 4) as u8
    }

    pub fn cfifo_full(&self) -> (r: bool)
        ensures
            r == bits::bit(self.raw, 11),
    {
        bits::get_bit(self.raw, 11)
    }

    pub fn cfifo_empty(&self) -> (r: bool)
        ensures
            r == bits::bit(self.raw, 10),
    {
        bits::get_bit(self.raw, 10)
    }

    pub fn dfifo_full(&self) -> (r: bool)
        ensures
            r == bits::bit(self.raw, 9),
    {
        bits::get_bit(self.raw, 9)
    }

    pub fn dfifo_empty(&self) -> (r: bool)
        ensures
            r == bits::bit(self.raw, 8),
    {
        bits::get_bit(self.raw, 8)
    }

    pub fn over_temperature(&self) -> (r: bool)
        ensures
            r == bits::bit(self.raw, 7),
    {
        bits::get_bit(self.raw, 7)
    }

    pub fn alarms(&self) -> (r: u8)
        ensures
            r == bits::field(self.raw, 0, 7),
    {
        proof {
            bits::field_fits(self.raw, 0, 7);
        }
        bits::get_field(self.raw, 0, 7) as u8
    }
}

/// Command FIFO register.
#[derive(Debug, Clone, Copy, PartialEq, Eq, Structural)]
pub struct CommandFifo {
    pub raw: u32,
}

impl CommandFifo {
    pub fn new_with_raw_value(raw: u32) -> (r: Self)
        ensures
            r.raw == raw,
    {
        CommandFifo { raw }
    }

    pub fn raw_value(&self) -> (r: u32)
        ensures
            r == self.raw,
    {
        self.raw
    }

    pub fn command(&self) -> (r: u32)
        ensures
            r == self.raw,
    {
        self.raw
    }
}

/// Data FIFO register.
#[derive(Debug, Clone, Copy, PartialEq, Eq, Structural)]
pub struct DataFifo {
    pub raw: u32,
}

impl DataFifo {
    pub fn new_with_raw_value(raw: u32) -> (r: Self)
        ensures
            r.raw == raw,
    {
        DataFifo { raw }
    }

    pub fn raw_value(&self) -> (r: u32)
        ensures
            r == self.raw,
    {
        self.raw
    }

    pub fn read_data(&self) -> (r: u32)
        ensures
            r == self.raw,
    {
        self.raw
    }
}

/// Miscellaneous control register.
#[derive(Debug, Clone, Copy, PartialEq, Eq, Structural)]
pub struct MiscControl {
    pub raw: u32,
}

impl MiscControl {
    pub fn new_with_raw_value(raw: u32) -> (r: Self)
        ensures
            r.raw == raw,
    {
        MiscControl { raw }
    }

    pub fn raw_value(&self) -> (r: u32)
        ensures
            r == self.raw,
    {
        self.raw
    }

    pub fn reset(&self) -> (r: bool)
        ensures
            r == bits::bit(self.raw, 4),
    {
        bits::get_bit(self.raw, 4)
    }

    pub fn with_reset(self, value: bool) -> (r: Self)
        ensures
            r.raw == bits::set_bit(self.raw, 4, value),
    {
        MiscControl { raw: bits::with_bit(self.raw, 4, value) }
    }
}

/// An acknowledging write holds a one exactly for the interrupt bits that are pending.
pub proof fn interrupt_ack_holds_the_pending_bits(status: u32, j: u32)
    requires
        j < 32,
    ensures
        bits::bit(status & INTERRUPT_ACK_MASK, j) == (bits::bit(status, j) && j < 10),
{
    bits::or_sets_the_mask_bits(status, INTERRUPT_ACK_MASK, j);
    assert(bits::bit(0x3ffu32, j) == (j < 10)) by (bit_vector)
        requires
            j < 32,
    ;
}

} // verus!
