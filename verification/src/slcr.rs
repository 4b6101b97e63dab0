//! Accesses to the system-level control registers, bracketed by unlock and lock.
use vstd::prelude::*;

use crate::clocks::SrcSelIo;
use crate::gpio::MioUpdate;
use crate::hal::usb::UsbId;
use crate::i2c::I2cId;
use crate::sdmmc::SdioId;
use crate::uart::UartId;

pub mod laws;

verus! {

pub const LOCK_KEY: u32 = 0x767B;

pub const UNLOCK_KEY: u32 = 0xDF0D;

/// A peripheral whose bus interface clock is gated by the SLCR.
#[derive(Debug, Clone, Copy, PartialEq, Eq, Structural)]
pub enum AmbaClock {
    Gpio,
    Qspi,
    I2c(I2cId),
    Sdio(SdioId),
    Uart(UartId),
    Usb(UsbId),
}

/// Reset lines of a block with two instances, each with a reference and a bus clock domain.
#[derive(Debug, Clone, Copy, PartialEq, Eq, Structural)]
pub struct DualRefAndClockReset {
    pub periph0_ref_rst: bool,
    pub periph1_ref_rst: bool,
    pub periph0_cpu1x_rst: bool,
    pub periph1_cpu1x_rst: bool,
}

/// Reset lines of a block with two instances in the bus clock domain only.
#[derive(Debug, Clone, Copy, PartialEq, Eq, Structural)]
pub struct DualClockReset {
    pub periph0_cpu1x_rst: bool,
    pub periph1_cpu1x_rst: bool,
}

/// Reset lines of the quad-SPI controller.
#[derive(Debug, Clone, Copy, PartialEq, Eq, Structural)]
pub struct QspiReset {
    pub qspi_ref_reset: bool,
    pub cpu_1x_reset: bool,
}

/// One access to the system-level control registers.
#[derive(Debug, Clone, Copy, PartialEq, Eq, Structural)]
pub enum SlcrOp {
    WriteUnlock(u32),
    WriteLock(u32),
    /// Enable the bus interface clock of a peripheral.
    EnableAmbaClock(AmbaClock),
    /// Apply an update to the configuration of one MIO pin.
    ModifyMioPin { pin: usize, update: MioUpdate },
    /// Level shifter register.
    WriteLevelShifter(u32),
    /// The undocumented L2 cache RAM register.
    WriteMagicL2c(u32),
    /// Reference clock of the SDIO block: source, divisor, and activation of one instance.
    ModifySdioClock { src_sel: SrcSelIo, divisor: u8, activate: SdioId },
    /// Reference clock of the quad-SPI controller, which is activated.
    WriteQspiClock { src_sel: SrcSelIo, divisor: u8 },
    /// Activate the UART reference clock of one instance.
    EnableUartClock(UartId),
    WriteSdioReset(DualRefAndClockReset),
    WriteUartReset(DualRefAndClockReset),
    WriteUsbReset(DualRefAndClockReset),
    WriteI2cReset(DualClockReset),
    WriteQspiReset(QspiReset),
    /// Let this many processor cycles pass.
    Nops(u32),
}

/// `ops` between unlocking and locking the registers.
pub open spec fn unlocked(ops: Seq<SlcrOp>) -> Seq<SlcrOp> {
    seq![SlcrOp::WriteUnlock(UNLOCK_KEY)] + ops + seq![SlcrOp::WriteLock(LOCK_KEY)]
}

/// Brackets a sequence of accesses with unlock and lock.
///
/// The accesses have to run under the reconfiguration lock of [`crate::multicore`].
pub fn with_unlocked(ops: &Vec<SlcrOp>) -> (r: Vec<SlcrOp>)
    ensures
        r@ == unlocked(ops@),
{
    let mut out: Vec<SlcrOp> = Vec::new();
    out.push(SlcrOp::WriteUnlock(UNLOCK_KEY));
    let mut i: usize = 0;
    while i < ops.len()
        invariant
            i <= ops.len(),
            out@ == seq![SlcrOp::WriteUnlock(UNLOCK_KEY)] + ops@.take(i as int),
        decreases ops.len() - i,
    {
        assert(ops@.take(i + 1) =~= ops@.take(i as int).push(ops@[i as int]));
        out.push(ops[i]);
        i += 1;
    }
    assert(ops@.take(i as int) =~= ops@);
    out.push(SlcrOp::WriteLock(LOCK_KEY));
    assert(out@ =~= unlocked(ops@));
    out
}

/// A single access between unlock and lock.
pub open spec fn unlocked_one(op: SlcrOp) -> Seq<SlcrOp> {
    seq![SlcrOp::WriteUnlock(UNLOCK_KEY), op, SlcrOp::WriteLock(LOCK_KEY)]
}

/// [`with_unlocked`] for a single access.
pub fn with_unlocked_one(op: SlcrOp) -> (r: Vec<SlcrOp>)
    ensures
        r@ == unlocked_one(op),
        r@ == unlocked(seq![op]),
{
    let mut out: Vec<SlcrOp> = Vec::new();
    out.push(SlcrOp::WriteUnlock(UNLOCK_KEY));
    out.push(op);
    out.push(SlcrOp::WriteLock(LOCK_KEY));
    assert(out@ =~= unlocked_one(op));
    assert(unlocked_one(op) =~= unlocked(seq![op]));
    out
}

/// Asserting a reset, waiting, and releasing it, under one unlock.
pub open spec fn reset_pulse(assert_reset: SlcrOp, cycles: u32, release: SlcrOp) -> Seq<SlcrOp> {
    seq![
        SlcrOp::WriteUnlock(UNLOCK_KEY),
        assert_reset,
        SlcrOp::Nops(cycles),
        release,
        SlcrOp::WriteLock(LOCK_KEY),
    ]
}

pub fn with_reset_pulse(assert_reset: SlcrOp, cycles: u32, release: SlcrOp) -> (r: Vec<SlcrOp>)
    ensures
        r@ == reset_pulse(assert_reset, cycles, release),
{
    let mut out: Vec<SlcrOp> = Vec::new();
    out.push(SlcrOp::WriteUnlock(UNLOCK_KEY));
    out.push(assert_reset);
    out.push(SlcrOp::Nops(cycles));
    out.push(release);
    out.push(SlcrOp::WriteLock(LOCK_KEY));
    assert(out@ =~= reset_pulse(assert_reset, cycles, release));
    out
}

/// Every bracketed sequence opens with the unlock key and ends locked again.
pub proof fn unlocked_sequence_ends_locked(ops: Seq<SlcrOp>)
    ensures
        unlocked(ops).first() == SlcrOp::WriteUnlock(UNLOCK_KEY),
        unlocked(ops).last() == SlcrOp::WriteLock(LOCK_KEY),
        unlocked(ops).len() == ops.len() + 2,
        forall|i: int| 0 <= i < ops.len() ==> #[trigger] unlocked(ops)[i + 1] == ops[i],
{
}

} // verus!
