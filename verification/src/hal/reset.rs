//! Reset and reboot of the processing system.
use vstd::prelude::*;

verus! {

/// Image of the reboot status register.
#[derive(Debug, Clone, Copy, PartialEq, Eq, Structural)]
pub struct RebootStatus {
    pub raw: u32,
}

/// The bits that survive into a software reset: all but 24 to 27.
pub const SOFT_RESET_MASK: u32 = 0xF0FF_FFFF;

impl RebootStatus {
    pub fn new_with_raw_value(raw: u32) -> (r: Self)
        ensures
            r.raw == raw,
    {
        RebootStatus { raw }
    }

    pub fn raw_value(&self) -> (r: u32)
        ensures
            r == self.raw,
    {
        self.raw
    }
}

#[derive(Debug, Clone, Copy, PartialEq, Eq, Structural)]
pub enum Cpu {
    Cpu0,
    Cpu1,
}

/// What a private watchdog resets when it expires.
#[derive(Debug, Clone, Copy, PartialEq, Eq, Structural)]
pub enum ApuWatchdogTarget {
    System,
    AssociatedCpu,
}

/// The watchdog reset targets of both processors.
#[derive(Debug, Clone, Copy, PartialEq, Eq, Structural)]
pub struct WatchdogResetTargets {
    pub apu_wdt_0_reset_target: ApuWatchdogTarget,
    pub apu_wdt_1_reset_target: ApuWatchdogTarget,
}

/// The sticky bits are cleared by writing the retained value back.
pub fn clear_reset_status_value(status: RebootStatus) -> (r: RebootStatus)
    ensures
        r == status,
{
    status
}

pub fn soft_reset_status_value(status: RebootStatus) -> (r: RebootStatus)
    ensures
        r.raw == status.raw & SOFT_RESET_MASK,
        r.raw == status.raw & 0xF0FF_FFFF,
{
    RebootStatus { raw: status.raw & SOFT_RESET_MASK }
}

/// The reset targets after setting the one of `cpu`.
pub fn set_apu_watchdog_reset_target(
    targets: WatchdogResetTargets,
    cpu: Cpu,
    target: ApuWatchdogTarget,
) -> (r: WatchdogResetTargets)
    ensures
        r == match cpu {
            Cpu::Cpu0 => WatchdogResetTargets { apu_wdt_0_reset_target: target, ..targets },
            Cpu::Cpu1 => WatchdogResetTargets { apu_wdt_1_reset_target: target, ..targets },
        },
{
    match cpu {
        Cpu::Cpu0 => WatchdogResetTargets { apu_wdt_0_reset_target: target, ..targets },
        Cpu::Cpu1 => WatchdogResetTargets { apu_wdt_1_reset_target: target, ..targets },
    }
}

/// One access of a reboot.
#[derive(Debug, Clone, Copy, PartialEq, Eq, Structural)]
pub enum RebootOp {
    WriteUnlock(u32),
    WriteRebootStatus(RebootStatus),
    SetSoftReset,
    WriteLock(u32),
}

/// The accesses that trigger a software reset, given the reboot status as read.
pub fn reboot_system(status: RebootStatus) -> (ops: Vec<RebootOp>)
    ensures
        ops@ == seq![
            RebootOp::WriteUnlock(crate::slcr::UNLOCK_KEY),
            RebootOp::WriteRebootStatus(RebootStatus { raw: status.raw & SOFT_RESET_MASK }),
            RebootOp::SetSoftReset,
            RebootOp::WriteLock(crate::slcr::LOCK_KEY),
        ],
{
    let mut ops: Vec<RebootOp> = Vec::new();
    ops.push(RebootOp::WriteUnlock(crate::slcr::UNLOCK_KEY));
    ops.push(RebootOp::WriteRebootStatus(soft_reset_status_value(status)));
    ops.push(RebootOp::SetSoftReset);
    ops.push(RebootOp::WriteLock(crate::slcr::LOCK_KEY));
    ops
}

} // verus!
