//! Global timer counter accesses.
use vstd::prelude::*;

verus! {

/// An update of one field of the timer control register.
#[derive(Debug, Clone, Copy, PartialEq, Eq, Structural)]
pub enum ControlUpdate {
    ComparatorEnable(bool),
    Enable(bool),
    Prescaler(u8),
    IrqEnable(bool),
}

/// One access to the global timer registers.
#[derive(Debug, Clone, Copy, PartialEq, Eq, Structural)]
pub enum GtcOp {
    ModifyControl(ControlUpdate),
    WriteComparatorUpper(u32),
    WriteComparatorLower(u32),
    WriteIsr(u32),
}

/// Fields of the timer control register.
#[derive(Debug, Clone, Copy, PartialEq, Eq, Structural)]
pub struct Control {
    pub enable: bool,
    pub comparator_enable: bool,
    pub irq_enable: bool,
    pub prescaler: u8,
}

impl ControlUpdate {
    /// The control register after the update.
    pub fn apply(self, ctrl: Control) -> (r: Control)
        ensures
            r == match self {
                ControlUpdate::ComparatorEnable(v) => Control { comparator_enable: v, ..ctrl },
                ControlUpdate::Enable(v) => Control { enable: v, ..ctrl },
                ControlUpdate::Prescaler(v) => Control { prescaler: v, ..ctrl },
                ControlUpdate::IrqEnable(v) => Control { irq_enable: v, ..ctrl },
            },
    {
        match self {
            ControlUpdate::ComparatorEnable(v) => Control { comparator_enable: v, ..ctrl },
            ControlUpdate::Enable(v) => Control { enable: v, ..ctrl },
            ControlUpdate::Prescaler(v) => Control { prescaler: v, ..ctrl },
            ControlUpdate::IrqEnable(v) => Control { irq_enable: v, ..ctrl },
        }
    }
}

/// The 64-bit global timer that all processors share.
#[derive(Debug, Clone, Copy, PartialEq, Eq, Structural)]
pub struct GlobalTimerCounter;

/// The 64-bit value whose halves are `upper` and `lower`.
pub open spec fn joined(upper: u32, lower: u32) -> int {
    upper * 0x1_0000_0000 + lower
}

/// The accesses that move the comparator, which is off while its halves are written.
pub open spec fn comparator_ops(comparator: u64) -> Seq<GtcOp> {
    seq![
        GtcOp::ModifyControl(ControlUpdate::ComparatorEnable(false)),
        GtcOp::WriteComparatorUpper((comparator / 0x1_0000_0000) as u32),
        GtcOp::WriteComparatorLower((comparator % 0x1_0000_0000) as u32),
        GtcOp::ModifyControl(ControlUpdate::ComparatorEnable(true)),
    ]
}

impl GlobalTimerCounter {
    /// The counter value, if the two reads of the upper half agree.
    ///
    /// The halves cannot be read at once. When the upper half changed between
    /// the two reads the lower half may belong to either, and the caller reads again.
    pub fn read_timer(&self, upper: u32, lower: u32, upper_again: u32) -> (r: Option<u64>)
        ensures
            r == (if upper_again == upper {
                Some(joined(upper, lower) as u64)
            } else {
                None
            }),
    {
        if upper_again == upper {
            Some((upper as u64) * 0x1_0000_0000 + (lower as u64))
        } else {
            None
        }
    }

    /// Moves the comparator, which is off while its halves are written.
    pub fn set_comparator(&self, comparator: u64) -> (ops: Vec<GtcOp>)
        ensures
            ops@ == comparator_ops(comparator),
            joined(
                (comparator / 0x1_0000_0000) as u32,
                (comparator % 0x1_0000_0000) as u32,
            ) == comparator,
    {
        let upper: u32 = (comparator / 0x1_0000_0000) as u32;
        let lower: u32 = (comparator % 0x1_0000_0000) as u32;
        let mut ops: Vec<GtcOp> = Vec::new();
        ops.push(GtcOp::ModifyControl(ControlUpdate::ComparatorEnable(false)));
        ops.push(GtcOp::WriteComparatorUpper(upper));
        ops.push(GtcOp::WriteComparatorLower(lower));
        ops.push(GtcOp::ModifyControl(ControlUpdate::ComparatorEnable(true)));
        ops
    }

    pub fn enable(&self) -> (op: GtcOp)
        ensures
            op == GtcOp::ModifyControl(ControlUpdate::Enable(true)),
    {
        GtcOp::ModifyControl(ControlUpdate::Enable(true))
    }

    pub fn set_prescaler(&self, prescaler: u8) -> (op: GtcOp)
        ensures
            op == GtcOp::ModifyControl(ControlUpdate::Prescaler(prescaler)),
    {
        GtcOp::ModifyControl(ControlUpdate::Prescaler(prescaler))
    }

    pub fn enable_interrupt(&self) -> (op: GtcOp)
        ensures
            op == GtcOp::ModifyControl(ControlUpdate::IrqEnable(true)),
    {
        GtcOp::ModifyControl(ControlUpdate::IrqEnable(true))
    }

    pub fn disable_interrupt(&self) -> (op: GtcOp)
        ensures
            op == GtcOp::ModifyControl(ControlUpdate::IrqEnable(false)),
    {
        GtcOp::ModifyControl(ControlUpdate::IrqEnable(false))
    }

    /// The event flag is cleared by writing a one to it.
    pub fn clear_interrupt_event(&self) -> (op: GtcOp)
        ensures
            op == GtcOp::WriteIsr(1),
    {
        GtcOp::WriteIsr(1)
    }
}

/// A comparator value that was written reads back as the counter value with the same halves.
pub proof fn joined_halves_are_injective(a_upper: u32, a_lower: u32, b_upper: u32, b_lower: u32)
    requires
        joined(a_upper, a_lower) == joined(b_upper, b_lower),
    ensures
        a_upper == b_upper,
        a_lower == b_lower,
{
}

} // verus!
