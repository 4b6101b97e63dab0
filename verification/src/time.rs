//! The Embassy time driver on the global timer.
//!
//! The timer counts processor clock cycles, Embassy counts ticks. The driver
//! converts between them and keeps the comparator on the next deadline.
use vstd::prelude::*;

pub mod laws;

use crate::arith::{self, ceil_div};
use crate::clocks::Clocks;
use crate::gtc::{self, ControlUpdate, GlobalTimerCounter, GtcOp};
use crate::interrupt::{HandlerTable, Interrupt, PpiInterrupt};
use crate::runtime::{self, GicOp};

verus! {

/// Embassy ticks per second.
pub const TICK_HZ: u64 = 1_000_000;

/// The tick rate that `embassy_time_driver::TICK_HZ` holds.
///
/// With none of its `tick-hz` features selected the crate sets the rate to one million.
#[verifier::external_body]
pub(crate) fn tick_hz() -> (r: u64)
    ensures
        r == TICK_HZ,
{
    embassy_time_driver::TICK_HZ
}

/// Whole ticks that have passed in the middle of cycle `counter` of a clock of `cpu_hz`.
pub open spec fn ticks_at(counter: int, cpu_hz: int) -> int {
    ((2 * counter + 1) * TICK_HZ) / (2 * cpu_hz)
}

/// The first cycle of a clock of `cpu_hz` at which `ticks` ticks have passed.
pub open spec fn cycles_until(ticks: int, cpu_hz: int) -> int {
    ceil_div(ticks * cpu_hz, TICK_HZ as int)
}

/// Converts a counter value to whole ticks.
///
/// A counter value is taken to stand for the middle of its cycle.
pub fn counter_to_ticks_with_hz(counter: u64, cpu_hz: u64) -> (r: u64)
    requires
        cpu_hz != 0,
    ensures
        r == ticks_at(counter as int, cpu_hz as int) as u64,
{
    let tick: u64 = tick_hz();
    let half_cycles: u128 = 2 * (counter as u128) + 1;
    assert(half_cycles * tick <= u128::MAX) by (nonlinear_arith)
        requires
            half_cycles <= 0x2_0000_0000_0000_0000u128,
            tick == 1_000_000,
    ;
    let numerator: u128 = half_cycles * (tick as u128);
    let denominator: u128 = 2 * (cpu_hz as u128);
    (numerator / denominator) as u64
}

/// Converts ticks to the first counter value that reaches them, or `None` where
/// the counter never gets there.
pub fn ticks_to_counter_ceil_with_hz(ticks: u64, cpu_hz: u64) -> (r: Option<u64>)
    ensures
        r == (if cycles_until(ticks as int, cpu_hz as int) <= u64::MAX {
            Some(cycles_until(ticks as int, cpu_hz as int) as u64)
        } else {
            None
        }),
{
    assert(0 <= ticks * cpu_hz <= u128::MAX) by (nonlinear_arith)
        requires
            ticks <= u64::MAX,
            cpu_hz <= u64::MAX,
    ;
    let numerator: u128 = (ticks as u128) * (cpu_hz as u128);
    let counter: u128 = arith::div_ceil_u128(numerator, tick_hz() as u128);
    if counter <= u64::MAX as u128 {
        Some(counter as u64)
    } else {
        None
    }
}

/// A deadline that has passed while the comparator was being moved raises no event.
pub fn programmed_alarm_is_stale(programmed_timestamp: u64, now: u64) -> (r: bool)
    ensures
        r == (programmed_timestamp <= now),
{
    programmed_timestamp <= now
}

/// Interrupt handler type for the Embassy global timer driver.
pub struct InterruptHandler;

/// State of the time driver.
#[derive(Debug, Clone, Copy, PartialEq, Eq, Structural)]
pub struct GtcTimerDriver {
    /// Rate of the counter, once the driver was initialized.
    pub cpu_3x2x_clk_hz: Option<u64>,
    /// The processor that takes the timer interrupt.
    pub cpu: Option<u8>,
    /// The next deadline.
    pub timestamp: u64,
    /// The deadline that the comparator stands on.
    pub programmed_timestamp: u64,
}

/// What is left of arming an alarm.
#[derive(Debug, Clone, Copy, PartialEq, Eq, Structural)]
pub enum AlarmStep {
    /// Finished. Without an alarm the caller asks the queue for the next deadline.
    Done { armed: bool },
    /// The comparator was moved: read the counter and call
    /// [`GtcTimerDriver::confirm_alarm`].
    Confirm { programmed_timestamp: u64 },
}

impl GtcTimerDriver {
    pub fn new() -> (r: Self)
        ensures
            r.cpu_3x2x_clk_hz is None,
            r.cpu is None,
            r.no_alarm(),
    {
        GtcTimerDriver {
            cpu_3x2x_clk_hz: None,
            cpu: None,
            timestamp: u64::MAX,
            programmed_timestamp: u64::MAX,
        }
    }

    pub open spec fn no_alarm(self) -> bool {
        self.timestamp == u64::MAX && self.programmed_timestamp == u64::MAX
    }

    /// The counter runs, if its rate is known.
    pub open spec fn clocked(self) -> bool {
        self.cpu_3x2x_clk_hz != Some(0u64)
    }

    /// The time at `counter`; zero before the driver is initialized.
    pub open spec fn time_at(self, counter: u64) -> u64 {
        match self.cpu_3x2x_clk_hz {
            Some(hz) => ticks_at(counter as int, hz as int) as u64,
            None => 0,
        }
    }

    /// Starts the counter at the processor clock, with the interrupt off and no
    /// event pending.
    pub fn init(&mut self, clocks: &Clocks, gtc: &GlobalTimerCounter) -> (ops: Vec<GtcOp>)
        requires
            old(self).cpu_3x2x_clk_hz is None,
        ensures
            ops@ == start_ops(),
            final(self).cpu_3x2x_clk_hz == Some(clocks.arm_clocks.cpu_3x2x_clk.hz as u64),
            final(self).cpu == old(self).cpu,
            final(self).no_alarm(),
    {
        self.cpu_3x2x_clk_hz = Some(clocks.arm_clocks().cpu_3x2x_clk().raw() as u64);
        self.timestamp = u64::MAX;
        self.programmed_timestamp = u64::MAX;
        let ops: Vec<GtcOp> = vec![
            gtc.set_prescaler(0),
            gtc.disable_interrupt(),
            gtc.clear_interrupt_event(),
            gtc.enable(),
        ];
        assert(ops@ =~= start_ops());
        ops
    }

    /// Clears the timer event and drops the alarm. The caller arms the next
    /// deadline of the queue with [`GtcTimerDriver::set_alarm`].
    pub fn on_interrupt(&mut self, gtc: &GlobalTimerCounter) -> (ops: Vec<GtcOp>)
        ensures
            ops@ == seq![
                GtcOp::WriteIsr(1),
                GtcOp::ModifyControl(ControlUpdate::IrqEnable(false)),
            ],
            final(self).no_alarm(),
            final(self).cpu_3x2x_clk_hz == old(self).cpu_3x2x_clk_hz,
            final(self).cpu == old(self).cpu,
    {
        let ops: Vec<GtcOp> = vec![gtc.clear_interrupt_event(), self.trigger_alarm(gtc)];
        assert(ops@ =~= seq![
            GtcOp::WriteIsr(1),
            GtcOp::ModifyControl(ControlUpdate::IrqEnable(false)),
        ]);
        ops
    }

    /// Drops the alarm.
    pub fn trigger_alarm(&mut self, gtc: &GlobalTimerCounter) -> (op: GtcOp)
        ensures
            op == GtcOp::ModifyControl(ControlUpdate::IrqEnable(false)),
            final(self).no_alarm(),
            final(self).cpu_3x2x_clk_hz == old(self).cpu_3x2x_clk_hz,
            final(self).cpu == old(self).cpu,
    {
        self.timestamp = u64::MAX;
        self.programmed_timestamp = u64::MAX;
        gtc.disable_interrupt()
    }

    /// Arms the alarm for `timestamp`, given the counter value that was just read.
    ///
    /// A deadline that has passed is refused. One that is close is moved three
    /// ticks ahead, so that the comparator is written before the counter gets
    /// there. One that the counter never reaches parks the comparator at its end.
    pub fn set_alarm(&mut self, timestamp: u64, counter: u64, gtc: &GlobalTimerCounter) -> (r: (
        AlarmStep,
        Vec<GtcOp>,
    ))
        requires
            old(self).clocked(),
            timestamp > old(self).time_at(counter) ==> old(self).time_at(counter) + 3 <= u64::MAX,
        ensures
            r.0 == old(self).alarm_step(timestamp, counter),
            r.1@ == old(self).alarm_ops(timestamp, counter),
            *final(self) == old(self).alarm_state(timestamp, counter),
    {
        let cpu_hz: u64 = match self.cpu_3x2x_clk_hz {
            Some(hz) => hz,
            None => {
                let ops: Vec<GtcOp> = Vec::new();
                assert(ops@ =~= Seq::<GtcOp>::empty());
                return (AlarmStep::Done { armed: false }, ops);
            },
        };
        self.timestamp = timestamp;
        let now: u64 = counter_to_ticks_with_hz(counter, cpu_hz);
        if timestamp <= now {
            self.timestamp = u64::MAX;
            self.programmed_timestamp = u64::MAX;
            let ops: Vec<GtcOp> = vec![gtc.disable_interrupt()];
            assert(ops@ =~= seq![GtcOp::ModifyControl(ControlUpdate::IrqEnable(false))]);
            return (AlarmStep::Done { armed: false }, ops);
        }
        let safe_timestamp: u64 = if timestamp < now + 3 {
            now + 3
        } else {
            timestamp
        };
        match ticks_to_counter_ceil_with_hz(safe_timestamp, cpu_hz) {
            None => {
                let mut ops = gtc.set_comparator(u64::MAX);
                ops.push(gtc.enable_interrupt());
                self.programmed_timestamp = safe_timestamp;
                assert(ops@ =~= armed_ops(u64::MAX));
                (AlarmStep::Done { armed: true }, ops)
            },
            Some(comparator) => {
                let mut ops = gtc.set_comparator(comparator);
                ops.push(gtc.enable_interrupt());
                assert(ops@ =~= armed_ops(comparator));
                (AlarmStep::Confirm { programmed_timestamp: safe_timestamp }, ops)
            },
        }
    }

    /// The deadline that is programmed in place of `timestamp`.
    pub open spec fn safe_timestamp(self, timestamp: u64, counter: u64) -> u64 {
        let now = self.time_at(counter);
        if timestamp < now + 3 {
            (now + 3) as u64
        } else {
            timestamp
        }
    }

    /// The comparator value of `timestamp`, where the counter reaches one.
    pub open spec fn comparator(self, timestamp: u64, counter: u64) -> Option<u64> {
        let cycles = cycles_until(
            self.safe_timestamp(timestamp, counter) as int,
            self.cpu_3x2x_clk_hz->0 as int,
        );
        if cycles <= u64::MAX {
            Some(cycles as u64)
        } else {
            None
        }
    }

    pub open spec fn alarm_step(self, timestamp: u64, counter: u64) -> AlarmStep {
        if self.cpu_3x2x_clk_hz is None || timestamp <= self.time_at(counter) {
            AlarmStep::Done { armed: false }
        } else if self.comparator(timestamp, counter) is None {
            AlarmStep::Done { armed: true }
        } else {
            AlarmStep::Confirm { programmed_timestamp: self.safe_timestamp(timestamp, counter) }
        }
    }

    pub open spec fn alarm_ops(self, timestamp: u64, counter: u64) -> Seq<GtcOp> {
        if self.cpu_3x2x_clk_hz is None {
            Seq::empty()
        } else if timestamp <= self.time_at(counter) {
            seq![GtcOp::ModifyControl(ControlUpdate::IrqEnable(false))]
        } else {
            match self.comparator(timestamp, counter) {
                Some(comparator) => armed_ops(comparator),
                None => armed_ops(u64::MAX),
            }
        }
    }

    pub open spec fn alarm_state(self, timestamp: u64, counter: u64) -> Self {
        if self.cpu_3x2x_clk_hz is None {
            self
        } else if timestamp <= self.time_at(counter) {
            GtcTimerDriver { timestamp: u64::MAX, programmed_timestamp: u64::MAX, ..self }
        } else if self.comparator(timestamp, counter) is None {
            GtcTimerDriver {
                timestamp,
                programmed_timestamp: self.safe_timestamp(timestamp, counter),
                ..self
            }
        } else {
            GtcTimerDriver { timestamp, ..self }
        }
    }

    /// Decides whether the alarm stands, given the counter value that was read
    /// after the comparator was moved.
    pub fn confirm_alarm(
        &mut self,
        programmed_timestamp: u64,
        counter: u64,
        gtc: &GlobalTimerCounter,
    ) -> (r: (bool, Vec<GtcOp>))
        requires
            old(self).clocked(),
            old(self).cpu_3x2x_clk_hz is Some,
        ensures
            r.0 == (programmed_timestamp > old(self).time_at(counter)),
            r.1@ == (if r.0 {
                Seq::empty()
            } else {
                seq![
                    GtcOp::ModifyControl(ControlUpdate::IrqEnable(false)),
                    GtcOp::WriteIsr(1),
                ]
            }),
            *final(self) == (GtcTimerDriver {
                programmed_timestamp: if r.0 {
                    programmed_timestamp
                } else {
                    u64::MAX
                },
                ..*old(self)
            }),
    {
        if programmed_alarm_is_stale(programmed_timestamp, self.now(counter)) {
            self.programmed_timestamp = u64::MAX;
            let ops: Vec<GtcOp> = vec![gtc.disable_interrupt(), gtc.clear_interrupt_event()];
            assert(ops@ =~= seq![
                GtcOp::ModifyControl(ControlUpdate::IrqEnable(false)),
                GtcOp::WriteIsr(1),
            ]);
            return (false, ops);
        }
        self.programmed_timestamp = programmed_timestamp;
        let ops: Vec<GtcOp> = Vec::new();
        assert(ops@ =~= Seq::<GtcOp>::empty());
        (true, ops)
    }

    /// The time at a counter value that was read.
    pub fn now(&self, counter: u64) -> (r: u64)
        requires
            self.clocked(),
        ensures
            r == self.time_at(counter),
    {
        match self.cpu_3x2x_clk_hz {
            Some(hz) => counter_to_ticks_with_hz(counter, hz),
            None => 0,
        }
    }

    /// The accesses that let the timer interrupt through, on the processor that takes it.
    pub fn enable_local_interrupt(&self, current_cpu: u8) -> (ops: Vec<GicOp>)
        requires
            self.cpu is Some,
        ensures
            ops@ == (if self.cpu == Some(current_cpu) {
                local_interrupt_ops()
            } else {
                Seq::empty()
            }),
    {
        let mut ops: Vec<GicOp> = Vec::new();
        let owner: u8 = match self.cpu {
            Some(cpu) => cpu,
            None => return ops,
        };
        if owner != current_cpu {
            assert(ops@ =~= Seq::<GicOp>::empty());
            return ops;
        }
        let mut unpend = runtime::unpend_interrupt(Interrupt::Ppi(PpiInterrupt::GlobalTimer));
        let mut enable = runtime::enable_interrupt(Interrupt::Ppi(PpiInterrupt::GlobalTimer));
        ops.append(&mut unpend);
        ops.append(&mut enable);
        assert(ops@ =~= local_interrupt_ops());
        ops
    }
}

/// The accesses that let the timer interrupt through on the calling processor.
pub open spec fn local_interrupt_ops() -> Seq<GicOp> {
    runtime::unpend_ops(Interrupt::Ppi(PpiInterrupt::GlobalTimer)) + runtime::enable_ops(
        Interrupt::Ppi(PpiInterrupt::GlobalTimer),
    )
}

/// The accesses that start the counter.
pub open spec fn start_ops() -> Seq<GtcOp> {
    seq![
        GtcOp::ModifyControl(ControlUpdate::Prescaler(0)),
        GtcOp::ModifyControl(ControlUpdate::IrqEnable(false)),
        GtcOp::WriteIsr(1),
        GtcOp::ModifyControl(ControlUpdate::Enable(true)),
    ]
}

/// The accesses that arm the timer interrupt at `comparator`.
pub open spec fn armed_ops(comparator: u64) -> Seq<GtcOp> {
    gtc::comparator_ops(comparator).push(
        GtcOp::ModifyControl(ControlUpdate::IrqEnable(true)),
    )
}

/// Initializes the driver on processor `current_cpu` and registers its handler,
/// the function at `handler`. Only the first call does anything.
pub fn init(
    driver: &mut GtcTimerDriver,
    clocks: &Clocks,
    gtc: &GlobalTimerCounter,
    table: &mut HandlerTable,
    handler: usize,
    current_cpu: u8,
) -> (ops: Vec<GtcOp>)
    requires
        old(driver).cpu is Some <==> old(driver).cpu_3x2x_clk_hz is Some,
        handler != 0,
        old(driver).cpu is None ==> !old(table).conflicts(
            Interrupt::Ppi(PpiInterrupt::GlobalTimer),
            handler,
        ),
    ensures
        final(driver).cpu is Some <==> final(driver).cpu_3x2x_clk_hz is Some,
        old(driver).cpu is Some ==> {
            &&& ops@ == Seq::<GtcOp>::empty()
            &&& *final(driver) == *old(driver)
            &&& final(table)@ == old(table)@
        },
        old(driver).cpu is None ==> {
            &&& ops@ == start_ops()
            &&& final(driver).cpu == Some(current_cpu)
            &&& final(driver).cpu_3x2x_clk_hz == Some(clocks.arm_clocks.cpu_3x2x_clk.hz as u64)
            &&& final(driver).no_alarm()
            &&& final(table)@ == old(table)@.update(
                PpiInterrupt::GlobalTimer.number() as int,
                handler,
            )
        },
{
    match driver.cpu {
        Some(_) => {
            let ops: Vec<GtcOp> = Vec::new();
            assert(ops@ =~= Seq::<GtcOp>::empty());
            ops
        },
        None => {
            let ops = driver.init(clocks, gtc);
            table.register_internal(Interrupt::Ppi(PpiInterrupt::GlobalTimer), handler);
            driver.cpu = Some(current_cpu);
            ops
        },
    }
}

/// Interrupt hook for users that dispatch the global timer themselves.
pub fn on_interrupt(driver: &mut GtcTimerDriver, gtc: &GlobalTimerCounter) -> (ops: Vec<GtcOp>)
    ensures
        ops@ == seq![
            GtcOp::WriteIsr(1),
            GtcOp::ModifyControl(ControlUpdate::IrqEnable(false)),
        ],
        final(driver).no_alarm(),
        final(driver).cpu_3x2x_clk_hz == old(driver).cpu_3x2x_clk_hz,
        final(driver).cpu == old(driver).cpu,
{
    driver.on_interrupt(gtc)
}

/// A later counter value is never an earlier time.
pub proof fn time_is_monotonic(earlier: int, later: int, cpu_hz: int)
    requires
        0 <= earlier <= later,
        cpu_hz > 0,
    ensures
        ticks_at(earlier, cpu_hz) <= ticks_at(later, cpu_hz),
{
    vstd::arithmetic::div_mod::lemma_div_is_ordered(
        (2 * earlier + 1) * TICK_HZ,
        (2 * later + 1) * TICK_HZ,
        2 * cpu_hz,
    );
}

/// When the counter gets to the cycle of a deadline, the deadline has passed.
pub proof fn deadline_is_reached_at_its_cycle(ticks: int, cpu_hz: int)
    requires
        ticks >= 0,
        cpu_hz > 0,
    ensures
        ticks_at(cycles_until(ticks, cpu_hz), cpu_hz) >= ticks,
{
    let c = cycles_until(ticks, cpu_hz);
    let t = TICK_HZ as int;
    assert(ticks * cpu_hz >= 0) by (nonlinear_arith)
        requires
            ticks >= 0,
            cpu_hz > 0,
    ;
    arith::ceil_div_is_least_cover(ticks * cpu_hz, t);
    let n = (2 * c + 1) * t;
    assert(ticks * (2 * cpu_hz) == 2 * (ticks * cpu_hz)) by (nonlinear_arith);
    assert(n == 2 * (c * t) + t) by (nonlinear_arith)
        requires
            n == (2 * c + 1) * t,
    ;
    assert(ticks * (2 * cpu_hz) <= n);
    vstd::arithmetic::div_mod::lemma_div_is_ordered(ticks * (2 * cpu_hz), n, 2 * cpu_hz);
    vstd::arithmetic::div_mod::lemma_div_multiples_vanish(ticks, 2 * cpu_hz);
    assert(ticks * (2 * cpu_hz) == (2 * cpu_hz) * ticks) by (nonlinear_arith);
}

/// One cycle before the cycle of a deadline the time is at most the deadline, on
/// a counter that is at least half as fast as the ticks.
pub proof fn deadline_is_not_passed_before_its_cycle(ticks: int, cpu_hz: int)
    requires
        ticks > 0,
        2 * cpu_hz >= TICK_HZ,
    ensures
        cycles_until(ticks, cpu_hz) > 0,
        ticks_at(cycles_until(ticks, cpu_hz) - 1, cpu_hz) <= ticks,
{
    let c = cycles_until(ticks, cpu_hz);
    let t = TICK_HZ as int;
    assert(ticks * cpu_hz > 0) by (nonlinear_arith)
        requires
            ticks > 0,
            cpu_hz > 0,
    ;
    arith::ceil_div_is_least_cover(ticks * cpu_hz, t);
    let n = (2 * (c - 1) + 1) * t;
    assert(n == 2 * (c * t) - t) by (nonlinear_arith)
        requires
            n == (2 * (c - 1) + 1) * t,
    ;
    let bound = (ticks + 1) * (2 * cpu_hz);
    assert(bound == 2 * (ticks * cpu_hz) + 2 * cpu_hz) by (nonlinear_arith)
        requires
            bound == (ticks + 1) * (2 * cpu_hz),
    ;
    assert(n < bound);
    assert(n / (2 * cpu_hz) < ticks + 1) by (nonlinear_arith)
        requires
            n < (ticks + 1) * (2 * cpu_hz),
            cpu_hz > 0,
    ;
}

/// An alarm that stands raises its event no earlier than it was asked for.
pub proof fn alarm_is_not_early(driver: GtcTimerDriver, timestamp: u64, counter: u64, later: u64)
    requires
        driver.cpu_3x2x_clk_hz is Some,
        driver.clocked(),
        driver.time_at(counter) + 3 <= u64::MAX,
        driver.comparator(timestamp, counter) is Some,
        later >= driver.comparator(timestamp, counter)->0,
    ensures
        ticks_at(later as int, driver.cpu_3x2x_clk_hz->0 as int) >= timestamp,
{
    let hz = driver.cpu_3x2x_clk_hz->0 as int;
    let safe = driver.safe_timestamp(timestamp, counter) as int;
    deadline_is_reached_at_its_cycle(safe, hz);
    assert(safe * hz >= 0) by (nonlinear_arith)
        requires
            safe >= 0,
            hz >= 0,
    ;
    arith::ceil_div_is_least_cover(safe * hz, TICK_HZ as int);
    time_is_monotonic(cycles_until(safe, hz), later as int, hz);
}

} // verus!
