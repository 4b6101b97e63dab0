//! What the accesses of the time driver do to the global timer.
use vstd::prelude::*;

use super::{armed_ops, cycles_until, start_ops, ticks_at, AlarmStep, GtcTimerDriver};
use crate::arith;
use crate::gtc::{comparator_ops, Control, ControlUpdate, GtcOp};

verus! {

/// The global timer.
pub struct Timer {
    pub control: Control,
    /// The upper and lower half of the comparator.
    pub upper: u32,
    pub lower: u32,
    /// The event flag is set.
    pub flagged: bool,
}

impl Timer {
    pub open spec fn after(self, op: GtcOp) -> Timer {
        match op {
            GtcOp::ModifyControl(ControlUpdate::ComparatorEnable(v)) => Timer {
                control: Control { comparator_enable: v, ..self.control },
                ..self
            },
            GtcOp::ModifyControl(ControlUpdate::Enable(v)) => Timer {
                control: Control { enable: v, ..self.control },
                ..self
            },
            GtcOp::ModifyControl(ControlUpdate::Prescaler(v)) => Timer {
                control: Control { prescaler: v, ..self.control },
                ..self
            },
            GtcOp::ModifyControl(ControlUpdate::IrqEnable(v)) => Timer {
                control: Control { irq_enable: v, ..self.control },
                ..self
            },
            GtcOp::WriteComparatorUpper(upper) => Timer { upper, ..self },
            GtcOp::WriteComparatorLower(lower) => Timer { lower, ..self },
            GtcOp::WriteIsr(raw) => Timer { flagged: self.flagged && raw % 2 == 0, ..self },
        }
    }

    /// The timer after the first `n` accesses.
    pub open spec fn after_first(self, ops: Seq<GtcOp>, n: int) -> Timer
        decreases n,
    {
        if n <= 0 {
            self
        } else {
            self.after_first(ops, n - 1).after(ops[n - 1])
        }
    }

    pub open spec fn after_all(self, ops: Seq<GtcOp>) -> Timer {
        self.after_first(ops, ops.len() as int)
    }

    /// The counter value that the timer is set to.
    pub open spec fn comparator(self) -> int {
        self.upper * 0x1_0000_0000 + self.lower
    }
}

/// A moved comparator holds the whole new value and is on. It is off wherever only a part of
/// the value is written.
pub proof fn moved_comparator_holds_the_value(t: Timer, comparator: u64, n: int)
    ensures
        ({
            let ops = comparator_ops(comparator);
            let after = t.after_all(ops);
            &&& after.comparator() == comparator
            &&& after.control == (Control { comparator_enable: true, ..t.control })
            &&& after.flagged == t.flagged
            &&& 1 <= n < ops.len() ==> !t.after_first(ops, n).control.comparator_enable
        }),
{
    let ops = comparator_ops(comparator);
    assert(t.after_first(ops, 0) == t);
    assert(t.after_first(ops, 1) == t.after(ops[0]));
    assert(t.after_first(ops, 2) == t.after(ops[0]).after(ops[1]));
    assert(t.after_first(ops, 3) == t.after(ops[0]).after(ops[1]).after(ops[2]));
    assert(t.after_first(ops, 4) == t.after_first(ops, 3).after(ops[3]));
}

/// An armed timer holds the value, compares with it and interrupts.
pub proof fn armed_timer_interrupts_at_the_value(t: Timer, comparator: u64)
    ensures
        ({
            let after = t.after_all(armed_ops(comparator));
            &&& after.comparator() == comparator
            &&& after.control == (Control {
                comparator_enable: true,
                irq_enable: true,
                ..t.control
            })
            &&& after.flagged == t.flagged
        }),
{
    let ops = armed_ops(comparator);
    assert(ops.len() == 5);
    assert(t.after_first(ops, 0) == t);
    assert(t.after_first(ops, 1) == t.after(ops[0]));
    assert(t.after_first(ops, 2) == t.after(ops[0]).after(ops[1]));
    assert(t.after_first(ops, 3) == t.after(ops[0]).after(ops[1]).after(ops[2]));
    assert(t.after_first(ops, 4) == t.after_first(ops, 3).after(ops[3]));
    assert(t.after_first(ops, 5) == t.after_first(ops, 4).after(ops[4]));
}

/// A started timer counts every cycle, with no interrupt let through or flagged.
pub proof fn started_timer_counts_every_cycle(t: Timer)
    ensures
        ({
            let after = t.after_all(start_ops());
            &&& after.control.enable && after.control.prescaler == 0 && !after.control.irq_enable
            &&& after.control.comparator_enable == t.control.comparator_enable
            &&& !after.flagged
            &&& after.comparator() == t.comparator()
        }),
{
    let ops = start_ops();
    assert(t.after_first(ops, 0) == t);
    assert(t.after_first(ops, 1) == t.after(ops[0]));
    assert(t.after_first(ops, 2) == t.after(ops[0]).after(ops[1]));
    assert(t.after_first(ops, 3) == t.after(ops[0]).after(ops[1]).after(ops[2]));
    assert(t.after_first(ops, 4) == t.after_first(ops, 3).after(ops[3]));
}

/// The time at a count is in microseconds: the whole ones up to the middle of the cycle.
pub proof fn time_is_in_microseconds(counter: int, cpu_hz: int)
    requires
        counter >= 0,
        cpu_hz > 0,
    ensures
        ticks_at(counter, cpu_hz) * (2 * cpu_hz) <= (2 * counter + 1) * 1_000_000,
        (2 * counter + 1) * 1_000_000 < (ticks_at(counter, cpu_hz) + 1) * (2 * cpu_hz),
{
    let n = (2 * counter + 1) * 1_000_000;
    let d = 2 * cpu_hz;
    let q = n / d;
    vstd::arithmetic::div_mod::lemma_fundamental_div_mod(n, d);
    vstd::arithmetic::div_mod::lemma_mod_bound(n, d);
    assert(q * d <= n < (q + 1) * d) by (nonlinear_arith)
        requires
            n == d * q + n % d,
            0 <= n % d < d,
    ;
}

/// The cycle of a time is the first one that is not before it.
pub proof fn cycle_is_the_first_not_before(ticks: int, cpu_hz: int)
    requires
        ticks >= 0,
        cpu_hz > 0,
    ensures
        ticks * cpu_hz <= cycles_until(ticks, cpu_hz) * 1_000_000 < ticks * cpu_hz + 1_000_000,
{
    assert(ticks * cpu_hz >= 0) by (nonlinear_arith)
        requires
            ticks >= 0,
            cpu_hz > 0,
    ;
    arith::ceil_div_is_least_cover(ticks * cpu_hz, 1_000_000);
}

/// An alarm in the future leaves the timer interrupting at the first cycle that is neither
/// before the alarm nor within three microseconds, and at the last count where there is none.
/// An alarm that is not in the future is refused with the interrupt off, and a driver without
/// a clock refuses every one and touches nothing.
pub proof fn alarm_sets_the_timer(driver: GtcTimerDriver, timestamp: u64, counter: u64, t: Timer)
    requires
        driver.clocked(),
        driver.time_at(counter) + 3 <= u64::MAX,
    ensures
        ({
            let after = t.after_all(driver.alarm_ops(timestamp, counter));
            let step = driver.alarm_step(timestamp, counter);
            let next = driver.alarm_state(timestamp, counter);
            &&& next.cpu == driver.cpu && next.cpu_3x2x_clk_hz == driver.cpu_3x2x_clk_hz
            &&& match driver.cpu_3x2x_clk_hz {
                None => after == t && step == (AlarmStep::Done { armed: false }) && next == driver,
                Some(hz) => {
                    let now = ticks_at(counter as int, hz as int) as u64;
                    let due = if timestamp >= now + 3 {
                        timestamp as int
                    } else {
                        now + 3
                    };
                    if timestamp <= now {
                        &&& after == (Timer {
                            control: Control { irq_enable: false, ..t.control },
                            ..t
                        })
                        &&& step == (AlarmStep::Done { armed: false })
                        &&& next.timestamp == u64::MAX && next.programmed_timestamp == u64::MAX
                    } else {
                        &&& after.control == (Control {
                            comparator_enable: true,
                            irq_enable: true,
                            ..t.control
                        })
                        &&& next.timestamp == timestamp
                        &&& after.comparator() < u64::MAX || step is Confirm ==> due * hz
                            <= after.comparator() * 1_000_000 < due * hz + 1_000_000
                        &&& step is Done ==> after.comparator() == u64::MAX && step == (
                        AlarmStep::Done { armed: true }) && u64::MAX * 1_000_000 < due * hz
                            && next.programmed_timestamp == due
                        &&& step matches AlarmStep::Confirm { programmed_timestamp } ==> {
                            &&& programmed_timestamp == due
                            &&& next.programmed_timestamp == driver.programmed_timestamp
                        }
                    }
                },
            }
        }),
{
    let ops = driver.alarm_ops(timestamp, counter);
    match driver.cpu_3x2x_clk_hz {
        None => {},
        Some(hz) => {
            if timestamp <= driver.time_at(counter) {
                assert(ops.len() == 1);
                assert(t.after_first(ops, 0) == t);
                assert(t.after_first(ops, 1) == t.after(ops[0]));
            } else {
                let due = driver.safe_timestamp(timestamp, counter) as int;
                cycle_is_the_first_not_before(due, hz as int);
                match driver.comparator(timestamp, counter) {
                    Some(comparator) => armed_timer_interrupts_at_the_value(t, comparator),
                    None => armed_timer_interrupts_at_the_value(t, u64::MAX),
                }
            }
        },
    }
}

} // verus!
