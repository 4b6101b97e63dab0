//! What accesses to the system-level control registers do.
use vstd::prelude::*;

use super::{
    reset_pulse, unlocked, unlocked_one, AmbaClock, DualClockReset, DualRefAndClockReset, QspiReset,
    SlcrOp,
};
use crate::clocks::SrcSelIo;
use crate::gpio::MioUpdate;
use crate::sdmmc::SdioId;
use crate::uart::UartId;

verus! {

impl DualRefAndClockReset {
    /// What either asserts.
    pub open spec fn or(self, other: Self) -> Self {
        DualRefAndClockReset {
            periph0_ref_rst: self.periph0_ref_rst || other.periph0_ref_rst,
            periph1_ref_rst: self.periph1_ref_rst || other.periph1_ref_rst,
            periph0_cpu1x_rst: self.periph0_cpu1x_rst || other.periph0_cpu1x_rst,
            periph1_cpu1x_rst: self.periph1_cpu1x_rst || other.periph1_cpu1x_rst,
        }
    }

    pub open spec fn released(self) -> bool {
        &&& !self.periph0_ref_rst
        &&& !self.periph1_ref_rst
        &&& !self.periph0_cpu1x_rst
        &&& !self.periph1_cpu1x_rst
    }

    /// Both domains of one instance are asserted and none of the other.
    pub open spec fn asserts_only(self, first: bool) -> bool {
        &&& self.periph0_ref_rst == first
        &&& self.periph0_cpu1x_rst == first
        &&& self.periph1_ref_rst == !first
        &&& self.periph1_cpu1x_rst == !first
    }
}

/// The registers, and which reset lines were asserted while processor cycles passed.
///
/// Registers other than the keys can only be changed between the unlock key and the
/// lock key.
pub struct Slcr {
    pub unlocked: bool,
    pub amba: Set<AmbaClock>,
    pub uart_clocks: Set<UartId>,
    pub sdio_clocks: Set<SdioId>,
    pub sdio_source: (SrcSelIo, u8),
    pub qspi_source: (SrcSelIo, u8),
    pub qspi_clock: bool,
    pub uart_reset: DualRefAndClockReset,
    pub usb_reset: DualRefAndClockReset,
    pub sdio_reset: DualRefAndClockReset,
    pub i2c_reset: DualClockReset,
    pub qspi_reset: QspiReset,
    pub uart_held: DualRefAndClockReset,
    pub usb_held: DualRefAndClockReset,
    pub sdio_held: DualRefAndClockReset,
    pub i2c_held: DualClockReset,
    pub qspi_held: QspiReset,
    pub level_shifter: u32,
    pub magic_l2c: u32,
    pub pin_updates: Seq<(usize, MioUpdate)>,
}

impl Slcr {
    pub open spec fn after(self, op: SlcrOp) -> Slcr {
        match op {
            SlcrOp::WriteUnlock(key) => Slcr { unlocked: self.unlocked || key == 0xDF0D, ..self },
            SlcrOp::WriteLock(key) => Slcr { unlocked: self.unlocked && key != 0x767B, ..self },
            SlcrOp::Nops(cycles) => if cycles == 0 {
                self
            } else {
                Slcr {
                    uart_held: self.uart_held.or(self.uart_reset),
                    usb_held: self.usb_held.or(self.usb_reset),
                    sdio_held: self.sdio_held.or(self.sdio_reset),
                    i2c_held: DualClockReset {
                        periph0_cpu1x_rst: self.i2c_held.periph0_cpu1x_rst
                            || self.i2c_reset.periph0_cpu1x_rst,
                        periph1_cpu1x_rst: self.i2c_held.periph1_cpu1x_rst
                            || self.i2c_reset.periph1_cpu1x_rst,
                    },
                    qspi_held: QspiReset {
                        qspi_ref_reset: self.qspi_held.qspi_ref_reset
                            || self.qspi_reset.qspi_ref_reset,
                        cpu_1x_reset: self.qspi_held.cpu_1x_reset || self.qspi_reset.cpu_1x_reset,
                    },
                    ..self
                }
            },
            _ => if self.unlocked {
                self.changed(op)
            } else {
                self
            },
        }
    }

    /// The registers after a write that is let through.
    pub open spec fn changed(self, op: SlcrOp) -> Slcr {
        match op {
            SlcrOp::EnableAmbaClock(clock) => Slcr { amba: self.amba.insert(clock), ..self },
            SlcrOp::ModifyMioPin { pin, update } => Slcr {
                pin_updates: self.pin_updates.push((pin, update)),
                ..self
            },
            SlcrOp::WriteLevelShifter(value) => Slcr { level_shifter: value, ..self },
            SlcrOp::WriteMagicL2c(value) => Slcr { magic_l2c: value, ..self },
            SlcrOp::ModifySdioClock { src_sel, divisor, activate } => Slcr {
                sdio_source: (src_sel, divisor),
                sdio_clocks: self.sdio_clocks.insert(activate),
                ..self
            },
            SlcrOp::WriteQspiClock { src_sel, divisor } => Slcr {
                qspi_source: (src_sel, divisor),
                qspi_clock: true,
                ..self
            },
            SlcrOp::EnableUartClock(id) => Slcr {
                uart_clocks: self.uart_clocks.insert(id),
                ..self
            },
            SlcrOp::WriteSdioReset(lines) => Slcr { sdio_reset: lines, ..self },
            SlcrOp::WriteUartReset(lines) => Slcr { uart_reset: lines, ..self },
            SlcrOp::WriteUsbReset(lines) => Slcr { usb_reset: lines, ..self },
            SlcrOp::WriteI2cReset(lines) => Slcr { i2c_reset: lines, ..self },
            SlcrOp::WriteQspiReset(lines) => Slcr { qspi_reset: lines, ..self },
            _ => self,
        }
    }

    /// The registers after the first `n` accesses.
    pub open spec fn after_first(self, ops: Seq<SlcrOp>, n: int) -> Slcr
        decreases n,
    {
        if n <= 0 {
            self
        } else {
            self.after_first(ops, n - 1).after(ops[n - 1])
        }
    }

    pub open spec fn after_all(self, ops: Seq<SlcrOp>) -> Slcr {
        self.after_first(ops, ops.len() as int)
    }
}

/// A bracketed access takes effect, and leaves the registers locked.
pub proof fn bracketed_access_takes_effect(s: Slcr, op: SlcrOp)
    requires
        !(op is WriteUnlock),
        !(op is WriteLock),
        !(op is Nops),
    ensures
        s.after_all(unlocked_one(op)) == (Slcr {
            unlocked: false,
            ..Slcr { unlocked: true, ..s }.changed(op)
        }),
{
    reveal_with_fuel(Slcr::after_first, 4);
}

/// Whatever stands between the brackets, the registers end locked.
pub proof fn bracketed_accesses_end_locked(s: Slcr, ops: Seq<SlcrOp>)
    ensures
        !s.after_all(unlocked(ops)).unlocked,
{
    assert(unlocked(ops)[ops.len() as int + 1] == unlocked(ops).last());
}

/// What a reset pulse does: its first access, some cycles, its second access.
pub open spec fn pulsed(s: Slcr, assert_reset: SlcrOp, cycles: u32, release: SlcrOp) -> Slcr {
    let asserted = Slcr { unlocked: true, ..s }.changed(assert_reset);
    let held = asserted.after(SlcrOp::Nops(cycles));
    Slcr { unlocked: false, ..held.changed(release) }
}

/// The accesses of a reset pulse all take effect, and leave the registers locked.
pub proof fn reset_pulse_takes_effect(s: Slcr, assert_reset: SlcrOp, cycles: u32, release: SlcrOp)
    requires
        !(assert_reset is WriteUnlock) && !(assert_reset is WriteLock) && !(assert_reset is Nops),
        !(release is WriteUnlock) && !(release is WriteLock) && !(release is Nops),
    ensures
        s.after_all(reset_pulse(assert_reset, cycles, release)) == pulsed(
            s,
            assert_reset,
            cycles,
            release,
        ),
{
    let ops = reset_pulse(assert_reset, cycles, release);
    let s1 = s.after(ops[0]);
    let s2 = s1.after(ops[1]);
    let s3 = s2.after(ops[2]);
    let s4 = s3.after(ops[3]);
    assert(s1 == Slcr { unlocked: true, ..s });
    assert(s2 == s1.changed(assert_reset) && s2.unlocked);
    assert(s3.unlocked);
    assert(s4 == s3.changed(release));
    assert(s.after_first(ops, 0) == s);
    assert(s.after_first(ops, 1) == s1);
    assert(s.after_first(ops, 2) == s2);
    assert(s.after_first(ops, 3) == s3);
    assert(s.after_first(ops, 4) == s4);
    assert(s.after_first(ops, 5) == s4.after(ops[4]));
}

proof fn lemma_prefix(s: Slcr, a: Seq<SlcrOp>, b: Seq<SlcrOp>, n: int)
    requires
        0 <= n <= a.len(),
    ensures
        s.after_first(a + b, n) == s.after_first(a, n),
    decreases n,
{
    if n > 0 {
        lemma_prefix(s, a, b, n - 1);
        assert((a + b)[n - 1] == a[n - 1]);
    }
}

proof fn lemma_in_a_row(s: Slcr, a: Seq<SlcrOp>, b: Seq<SlcrOp>, n: int)
    requires
        0 <= n <= b.len(),
    ensures
        s.after_first(a + b, a.len() as int + n) == s.after_all(a).after_first(b, n),
    decreases n,
{
    if n == 0 {
        lemma_prefix(s, a, b, a.len() as int);
    } else {
        lemma_in_a_row(s, a, b, n - 1);
        assert((a + b)[a.len() as int + n - 1] == b[n - 1]);
    }
}

/// Two sequences in a row do what the second does after the first.
pub proof fn sequences_follow_each_other(s: Slcr, a: Seq<SlcrOp>, b: Seq<SlcrOp>)
    ensures
        s.after_all(a + b) == s.after_all(a).after_all(b),
{
    lemma_in_a_row(s, a, b, b.len() as int);
    assert((a + b).len() == a.len() + b.len());
}

} // verus!
