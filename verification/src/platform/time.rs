//! A time driver for counters that run at a multiple of the tick rate.
//!
//! In place of the exact conversion of [`crate::time`] this driver divides the
//! counter by a whole number.
use vstd::prelude::*;

use crate::clocks::ArmClocks;
use crate::gtc::{self, ControlUpdate, GlobalTimerCounter, GtcOp};
use crate::time::{tick_hz, TICK_HZ};
use crate::time::laws::Timer;
use crate::Hertz;

verus! {

/// Interrupt handler type for the Embassy global timer driver.
pub struct InterruptHandler;

/// State of the time driver.
#[derive(Debug, Clone, Copy, PartialEq, Eq, Structural)]
pub struct GtcTimerDriver {
    /// Counter cycles per tick, once the driver was initialized.
    pub scale: Option<u64>,
    pub cpu_3x2x_clk: Option<Hertz>,
    /// The next deadline.
    pub timestamp: u64,
}

/// The accesses that start the counter.
pub open spec fn start_ops() -> Seq<GtcOp> {
    seq![
        GtcOp::ModifyControl(ControlUpdate::Prescaler(0)),
        GtcOp::ModifyControl(ControlUpdate::Enable(true)),
    ]
}

/// The accesses that arm the timer interrupt at `comparator`.
pub open spec fn armed_ops(comparator: u64) -> Seq<GtcOp> {
    gtc::comparator_ops(comparator).push(
        GtcOp::ModifyControl(ControlUpdate::IrqEnable(true)),
    )
}

impl GtcTimerDriver {
    pub fn new() -> (r: Self)
        ensures
            r.scale is None,
            r.cpu_3x2x_clk is None,
            r.timestamp == u64::MAX,
    {
        GtcTimerDriver { scale: None, cpu_3x2x_clk: None, timestamp: u64::MAX }
    }

    /// The counter is at least as fast as the ticks.
    pub open spec fn clocked(self) -> bool {
        self.scale != Some(0u64)
    }

    /// The time at `counter`; zero before the driver is initialized.
    pub open spec fn time_at(self, counter: u64) -> u64 {
        match self.scale {
            Some(scale) => counter / scale,
            None => 0,
        }
    }

    /// Starts the counter at the processor clock.
    pub fn init(&mut self, arm_clocks: &ArmClocks, gtc: &GlobalTimerCounter) -> (ops: Vec<GtcOp>)
        requires
            old(self).scale is None,
            old(self).cpu_3x2x_clk is None,
        ensures
            ops@ == start_ops(),
            final(self).cpu_3x2x_clk == Some(arm_clocks.cpu_3x2x_clk),
            final(self).scale == Some((arm_clocks.cpu_3x2x_clk.hz as u64) / TICK_HZ),
            final(self).timestamp == old(self).timestamp,
    {
        self.cpu_3x2x_clk = Some(arm_clocks.cpu_3x2x_clk());
        self.scale = Some(arm_clocks.cpu_3x2x_clk().raw() as u64 / tick_hz());
        let ops: Vec<GtcOp> = vec![gtc.set_prescaler(0), gtc.enable()];
        assert(ops@ =~= start_ops());
        ops
    }

    /// Drops the alarm. The caller arms the next deadline of the queue with
    /// [`GtcTimerDriver::set_alarm`].
    pub fn on_interrupt(&mut self, gtc: &GlobalTimerCounter) -> (op: GtcOp)
        ensures
            op == GtcOp::ModifyControl(ControlUpdate::IrqEnable(false)),
            *final(self) == (GtcTimerDriver { timestamp: u64::MAX, ..*old(self) }),
    {
        self.timestamp = u64::MAX;
        gtc.disable_interrupt()
    }

    /// The comparator value for `timestamp`, moved three ticks ahead where it is close.
    pub open spec fn comparator(self, timestamp: u64, counter: u64) -> int {
        let now = self.time_at(counter);
        let safe = if timestamp < now + 3 {
            now + 3
        } else {
            timestamp as int
        };
        safe * self.scale->0
    }

    /// Arms the alarm for `timestamp`, given the counter value that was just
    /// read. Returns whether the deadline is ahead; one that the counter never
    /// reaches is left without an event.
    pub fn set_alarm(&mut self, timestamp: u64, counter: u64, gtc: &GlobalTimerCounter) -> (r: (
        bool,
        Vec<GtcOp>,
    ))
        requires
            old(self).clocked(),
            timestamp > old(self).time_at(counter) ==> old(self).time_at(counter) + 3 <= u64::MAX,
        ensures
            r.0 == (old(self).scale is Some && timestamp > old(self).time_at(counter)),
            r.1@ == (if old(self).scale is None {
                Seq::empty()
            } else if timestamp <= old(self).time_at(counter) {
                seq![GtcOp::ModifyControl(ControlUpdate::IrqEnable(false))]
            } else if old(self).comparator(timestamp, counter) <= u64::MAX {
                armed_ops(old(self).comparator(timestamp, counter) as u64)
            } else {
                Seq::empty()
            }),
            *final(self) == (GtcTimerDriver {
                timestamp: if old(self).scale is None {
                    old(self).timestamp
                } else if r.0 {
                    timestamp
                } else {
                    u64::MAX
                },
                ..*old(self)
            }),
    {
        let scale: u64 = match self.scale {
            Some(scale) => scale,
            None => {
                let ops: Vec<GtcOp> = Vec::new();
                assert(ops@ =~= Seq::<GtcOp>::empty());
                return (false, ops);
            },
        };
        self.timestamp = timestamp;
        let now: u64 = counter / scale;
        if timestamp <= now {
            self.timestamp = u64::MAX;
            let ops: Vec<GtcOp> = vec![gtc.disable_interrupt()];
            assert(ops@ =~= seq![GtcOp::ModifyControl(ControlUpdate::IrqEnable(false))]);
            return (false, ops);
        }
        let safe_timestamp: u64 = if timestamp < now + 3 {
            now + 3
        } else {
            timestamp
        };
        match safe_timestamp.checked_mul(scale) {
            None => {
                let ops: Vec<GtcOp> = Vec::new();
                assert(ops@ =~= Seq::<GtcOp>::empty());
                (true, ops)
            },
            Some(comparator) => {
                let mut ops = gtc.set_comparator(comparator);
                ops.push(gtc.enable_interrupt());
                assert(ops@ =~= armed_ops(comparator));
                (true, ops)
            },
        }
    }

    /// The time at a counter value that was read.
    pub fn now(&self, counter: u64) -> (r: u64)
        requires
            self.clocked(),
        ensures
            r == self.time_at(counter),
    {
        match self.scale {
            Some(scale) => counter / scale,
            None => 0,
        }
    }
}

/// Initializes the driver. Only the first call does anything.
pub fn init(driver: &mut GtcTimerDriver, arm_clocks: &ArmClocks, gtc: &GlobalTimerCounter) -> (ops:
    Vec<GtcOp>)
    ensures
        old(driver).scale is Some || old(driver).cpu_3x2x_clk is Some ==> ops@
            == Seq::<GtcOp>::empty() && *final(driver) == *old(driver),
        old(driver).scale is None && old(driver).cpu_3x2x_clk is None ==> {
            &&& ops@ == start_ops()
            &&& final(driver).cpu_3x2x_clk == Some(arm_clocks.cpu_3x2x_clk)
            &&& final(driver).scale == Some((arm_clocks.cpu_3x2x_clk.hz as u64) / TICK_HZ)
            &&& final(driver).timestamp == old(driver).timestamp
        },
{
    if driver.scale.is_some() || driver.cpu_3x2x_clk.is_some() {
        let ops: Vec<GtcOp> = Vec::new();
        assert(ops@ =~= Seq::<GtcOp>::empty());
        return ops;
    }
    driver.init(arm_clocks, gtc)
}

/// Interrupt hook for users that dispatch the global timer themselves.
pub fn on_interrupt(driver: &mut GtcTimerDriver, gtc: &GlobalTimerCounter) -> (op: GtcOp)
    ensures
        op == GtcOp::ModifyControl(ControlUpdate::IrqEnable(false)),
        *final(driver) == (GtcTimerDriver { timestamp: u64::MAX, ..*old(driver) }),
{
    driver.on_interrupt(gtc)
}

/// An alarm that was armed raises its event no earlier than it was asked for.
pub proof fn alarm_is_not_early(driver: GtcTimerDriver, timestamp: u64, counter: u64, later: u64)
    requires
        driver.scale is Some,
        driver.clocked(),
        driver.time_at(counter) + 3 <= u64::MAX,
        later >= driver.comparator(timestamp, counter),
    ensures
        driver.time_at(later) >= timestamp,
{
    let scale = driver.scale->0 as int;
    let ahead = driver.time_at(counter) + 3;
    let safe = if timestamp < ahead {
        ahead
    } else {
        timestamp as int
    };
    assert(later as int / scale >= safe) by (nonlinear_arith)
        requires
            later >= safe * scale,
            scale > 0,
    ;
}

/// A started timer counts every cycle, and is else as it was.
pub proof fn started_timer_counts_every_cycle(t: Timer)
    ensures
        t.after_all(start_ops()) == (Timer {
            control: gtc::Control { enable: true, prescaler: 0, ..t.control },
            ..t
        }),
{
    let ops = start_ops();
    assert(t.after_first(ops, 0) == t);
    assert(t.after_first(ops, 1) == t.after(ops[0]));
    assert(t.after_first(ops, 2) == t.after(ops[0]).after(ops[1]));
}

/// An armed timer holds the value, compares with it and interrupts.
pub proof fn armed_timer_interrupts_at_the_value(t: Timer, comparator: u64)
    ensures
        ({
            let after = t.after_all(armed_ops(comparator));
            &&& after.comparator() == comparator
            &&& after.control == (gtc::Control {
                comparator_enable: true,
                irq_enable: true,
                ..t.control
            })
        }),
{
    assert(armed_ops(comparator) =~= crate::time::armed_ops(comparator));
    crate::time::laws::armed_timer_interrupts_at_the_value(t, comparator);
}

/// The count of an alarm is the first one at which its time has come, or, for one within three
/// ticks, the first at which three more ticks have passed.
pub proof fn alarm_count_is_the_first_due(driver: GtcTimerDriver, timestamp: u64, counter: u64)
    requires
        driver.scale is Some,
        driver.clocked(),
    ensures
        ({
            let scale = driver.scale->0 as int;
            let now = counter as int / scale;
            let due = if timestamp >= now + 3 {
                timestamp as int
            } else {
                now + 3
            };
            let count = driver.comparator(timestamp, counter);
            count / scale == due && (count > 0 ==> (count - 1) / scale < due)
        }),
{
    let scale = driver.scale->0 as int;
    let now = counter as int / scale;
    let due = if timestamp >= now + 3 {
        timestamp as int
    } else {
        now + 3
    };
    assert(due >= 0 && (due * scale) / scale == due && (due * scale - 1) / scale < due)
        by (nonlinear_arith)
        requires
            due >= 0,
            scale > 0,
    ;
}

} // verus!
