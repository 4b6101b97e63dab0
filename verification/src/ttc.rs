//! Triple timer counter: waveforms with a set frequency and duty cycle.
use vstd::prelude::*;

pub mod laws;

use crate::clocks::Clocks;
use crate::Hertz;

verus! {

/// Largest value of the 16-bit interval register.
pub const MAX_INTERVAL: u32 = 0xffff;

/// Largest prescaler setting in use. Setting `n` divides the clock by `2^(n + 1)`.
pub const MAX_PRESCALER: u8 = 12;

#[derive(Debug, Clone, Copy, PartialEq, Eq, Structural)]
pub enum FrequencyError {
    /// The frequency is zero.
    Zero,
    /// The frequency is out of range for the timer.
    OutOfRange,
}

#[derive(Debug, Clone, Copy, PartialEq, Eq, Structural)]
pub enum DutyCycleError {
    /// The duty cycle percent must be in the range `0..=100`.
    InvalidPercent,
}

#[derive(Debug, Clone, Copy, PartialEq, Eq, Structural)]
pub enum ClockSource {
    Pclk,
    External,
}

/// Fields of a clock control register.
#[derive(Debug, Clone, Copy, PartialEq, Eq, Structural)]
pub struct ClockControl {
    pub ext_clk_edge: bool,
    pub clk_src: ClockSource,
    pub prescaler: u8,
    pub prescale_enable: bool,
}

#[derive(Debug, Clone, Copy, PartialEq, Eq, Structural)]
pub enum WavePolarity {
    HighToLowOnMatch1,
    LowToHighOnMatch1,
}

#[derive(Debug, Clone, Copy, PartialEq, Eq, Structural)]
pub enum Mode {
    Overflow,
    Interval,
}

/// Fields of a counter control register.
#[derive(Debug, Clone, Copy, PartialEq, Eq, Structural)]
pub struct CounterControl {
    pub wave_polarity: WavePolarity,
    /// The waveform output is on.
    pub wave_enable: bool,
    pub reset: bool,
    pub match_enable: bool,
    pub decrementing: bool,
    pub mode: Mode,
    pub disable: bool,
}

/// An update of a counter control register in place.
#[derive(Debug, Clone, Copy, PartialEq, Eq, Structural)]
pub enum ControlUpdate {
    Disable,
    /// Clears the disable bit and restarts the count.
    EnableAndReset,
}

impl ControlUpdate {
    /// The register after the update.
    pub fn apply(self, control: CounterControl) -> (r: CounterControl)
        ensures
            r == match self {
                ControlUpdate::Disable => CounterControl { disable: true, ..control },
                ControlUpdate::EnableAndReset => CounterControl {
                    disable: false,
                    reset: true,
                    ..control
                },
            },
    {
        match self {
            ControlUpdate::Disable => CounterControl { disable: true, ..control },
            ControlUpdate::EnableAndReset => CounterControl {
                disable: false,
                reset: true,
                ..control
            },
        }
    }
}

/// One access to the registers of a channel.
#[derive(Debug, Clone, Copy, PartialEq, Eq, Structural)]
pub enum TtcOp {
    WriteCounterControlRaw(u32),
    WriteCounterControl(CounterControl),
    ModifyCounterControl(ControlUpdate),
    WriteClockControl(ClockControl),
    WriteInterval(u32),
    WriteMatch0(u32),
}

/// One of the three channels of a timer.
#[derive(Debug, Clone, Copy, PartialEq, Eq, Structural)]
pub struct Channel {
    pub id: usize,
}

impl Channel {
    /// The count field of the current counter register.
    pub fn read_counter(&self, register: u32) -> (r: u16)
        ensures
            r == register % 0x1_0000,
    {
        (register % 0x1_0000) as u16
    }
}

/// A timer, split into its channels.
#[derive(Debug, Clone, Copy, PartialEq, Eq, Structural)]
pub struct Ttc {
    pub ch0: Channel,
    pub ch1: Channel,
    pub ch2: Channel,
}

impl Ttc {
    pub fn new() -> (r: Self)
        ensures
            r.ch0.id == 0,
            r.ch1.id == 1,
            r.ch2.id == 2,
    {
        Ttc { ch0: Channel { id: 0 }, ch1: Channel { id: 1 }, ch2: Channel { id: 2 } }
    }
}

/// `hz` halved `times` times, rounding down each time.
pub open spec fn halved(hz: u32, times: nat) -> u32
    decreases times,
{
    if times == 0 {
        hz
    } else {
        halved(hz, (times - 1) as nat) / 2
    }
}

/// Ticks per period of `freq` when the clock is halved `times` times.
pub open spec fn interval(ref_clk: u32, freq: u32, times: nat) -> u32 {
    halved(ref_clk, times) / freq
}

/// The clock has to be halved exactly `times` times for a period to fit the interval register.
pub open spec fn fits_first(ref_clk: u32, freq: u32, times: nat) -> bool {
    &&& interval(ref_clk, freq, times) <= MAX_INTERVAL
    &&& forall|k: nat| k < times ==> #[trigger] interval(ref_clk, freq, k) > MAX_INTERVAL
}

/// The prescaler setting and interval for `freq`.
pub open spec fn settings(ref_clk: u32, freq: u32, r: Result<(Option<u8>, u16), FrequencyError>) -> bool {
    match r {
        Ok((None, ticks)) => freq < ref_clk && fits_first(ref_clk, freq, 0) && ticks == interval(
            ref_clk,
            freq,
            0,
        ),
        Ok((Some(prescaler), ticks)) => {
            &&& freq < ref_clk
            &&& prescaler <= MAX_PRESCALER
            &&& fits_first(ref_clk, freq, (prescaler + 1) as nat)
            &&& ticks == interval(ref_clk, freq, (prescaler + 1) as nat)
        },
        Err(e) => {
            &&& e == FrequencyError::OutOfRange
            &&& freq < ref_clk ==> forall|k: nat|
                k <= MAX_PRESCALER + 1 ==> #[trigger] interval(ref_clk, freq, k) > MAX_INTERVAL
        },
    }
}

/// Finds the smallest clock division with which one period of `freq` fits the
/// interval register, and the ticks per period with it.
pub fn calc_prescaler_reg_and_interval_ticks(ref_clk: Hertz, freq: Hertz) -> (r: Result<
    (Option<u8>, u16),
    FrequencyError,
>)
    requires
        freq.hz != 0 || ref_clk.hz == 0,
    ensures
        settings(ref_clk.hz, freq.hz, r),
        r matches Ok((_, ticks)) ==> ticks > 0,
{
    if freq.raw() >= ref_clk.raw() {
        return Err(FrequencyError::OutOfRange);
    }
    let mut clk: u32 = ref_clk.raw();
    let mut prescaler: Option<u8> = None;
    let mut tick_val: u32 = clk / freq.raw();
    let ghost mut times: nat = 0;
    assert(tick_val > 0) by (nonlinear_arith)
        requires
            tick_val == clk / freq.hz,
            clk > freq.hz,
            freq.hz > 0,
    ;
    while tick_val > MAX_INTERVAL
        invariant
            freq.hz != 0,
            freq.hz < ref_clk.hz,
            times <= MAX_PRESCALER + 1,
            clk == halved(ref_clk.hz, times),
            tick_val == interval(ref_clk.hz, freq.hz, times),
            tick_val > 0,
            prescaler == (if times == 0 {
                None
            } else {
                Some((times - 1) as u8)
            }),
            forall|k: nat|
                k < times ==> #[trigger] interval(ref_clk.hz, freq.hz, k) > MAX_INTERVAL,
        decreases MAX_PRESCALER + 1 - times,
    {
        let ghost before = clk;
        clk = clk / 2;
        match prescaler {
            Some(val) => {
                if val == MAX_PRESCALER {
                    return Err(FrequencyError::OutOfRange);
                }
                prescaler = Some(val + 1);
            },
            None => prescaler = Some(0),
        }
        tick_val = clk / freq.raw();
        proof {
            times = times + 1;
            assert(clk / freq.hz > 0) by (nonlinear_arith)
                requires
                    before / freq.hz > 0xffff,
                    clk == before / 2,
                    freq.hz > 0,
            ;
        }
    }
    Ok((prescaler, tick_val as u16))
}

/// The largest number of halvings, and with it the result, is decided by the clock and the frequency.
pub proof fn settings_are_unique(
    ref_clk: u32,
    freq: u32,
    a: Result<(Option<u8>, u16), FrequencyError>,
    b: Result<(Option<u8>, u16), FrequencyError>,
)
    requires
        settings(ref_clk, freq, a),
        settings(ref_clk, freq, b),
    ensures
        a == b,
{
    let ka: nat = match a {
        Ok((Some(p), _)) => (p + 1) as nat,
        _ => 0,
    };
    let kb: nat = match b {
        Ok((Some(p), _)) => (p + 1) as nat,
        _ => 0,
    };
    let ia = interval(ref_clk, freq, ka);
    let ib = interval(ref_clk, freq, kb);
    assert(ia == interval(ref_clk, freq, ka) && ib == interval(ref_clk, freq, kb));
}

/// A channel that puts out a waveform.
#[derive(Debug, Clone, Copy, PartialEq, Eq, Structural)]
pub struct Pwm {
    pub channel: Channel,
    pub ref_clk: Hertz,
}

/// The accesses that restart a channel with a prescaler setting and an interval.
pub open spec fn configure_ops(prescaler: Option<u8>, ticks: u16) -> Seq<TtcOp> {
    seq![
        TtcOp::WriteCounterControlRaw(1),
        TtcOp::WriteClockControl(
            ClockControl {
                ext_clk_edge: false,
                clk_src: ClockSource::Pclk,
                prescaler: match prescaler {
                    Some(p) => p,
                    None => 0,
                },
                prescale_enable: prescaler is Some,
            },
        ),
        TtcOp::WriteInterval(ticks as u32),
        TtcOp::WriteMatch0(0),
        TtcOp::WriteCounterControl(
            CounterControl {
                wave_polarity: WavePolarity::LowToHighOnMatch1,
                wave_enable: true,
                reset: true,
                match_enable: true,
                decrementing: false,
                mode: Mode::Interval,
                disable: false,
            },
        ),
    ]
}

/// The accesses that change the duty cycle. The channel is off while its match value is written.
pub open spec fn duty_ops(duty: u16) -> Seq<TtcOp> {
    seq![
        TtcOp::ModifyCounterControl(ControlUpdate::Disable),
        TtcOp::WriteMatch0(duty as u32),
        TtcOp::ModifyCounterControl(ControlUpdate::EnableAndReset),
    ]
}

/// What a request for `freq` answers: the accesses, or why there are none.
pub open spec fn frequency_answer(
    ref_clk: u32,
    freq: u32,
    r: Result<Seq<TtcOp>, FrequencyError>,
) -> bool {
    if freq == 0 {
        r == Err::<Seq<TtcOp>, FrequencyError>(FrequencyError::Zero)
    } else {
        exists|s: Result<(Option<u8>, u16), FrequencyError>| #[trigger]
            settings(ref_clk, freq, s) && r == match s {
                Ok((prescaler, ticks)) => Ok::<Seq<TtcOp>, FrequencyError>(
                    configure_ops(prescaler, ticks),
                ),
                Err(e) => Err(e),
            }
    }
}

impl Pwm {
    /// A waveform of `freq` clocked by the processor bus clock.
    pub fn new_with_clocks(channel: Channel, clocks: &Clocks, freq: Hertz) -> (r: Result<
        (Self, Vec<TtcOp>),
        FrequencyError,
    >)
        ensures
            match r {
                Ok((pwm, ops)) => pwm.channel == channel && pwm.ref_clk
                    == clocks.arm_clocks.cpu_1x_clk && frequency_answer(
                    clocks.arm_clocks.cpu_1x_clk.hz,
                    freq.hz,
                    Ok(ops@),
                ),
                Err(e) => frequency_answer(clocks.arm_clocks.cpu_1x_clk.hz, freq.hz, Err(e)),
            },
    {
        Pwm::new_generic(channel, clocks.cpu_1x_clk(), freq)
    }

    /// A waveform of `freq` clocked by `ref_clk`, with the accesses that start it.
    pub fn new_generic(channel: Channel, ref_clk: Hertz, freq: Hertz) -> (r: Result<
        (Self, Vec<TtcOp>),
        FrequencyError,
    >)
        ensures
            match r {
                Ok((pwm, ops)) => pwm.channel == channel && pwm.ref_clk == ref_clk
                    && frequency_answer(ref_clk.hz, freq.hz, Ok(ops@)),
                Err(e) => frequency_answer(ref_clk.hz, freq.hz, Err(e)),
            },
    {
        let pwm = Pwm { channel, ref_clk };
        match pwm.set_frequency(freq) {
            Ok(ops) => Ok((pwm, ops)),
            Err(e) => Err(e),
        }
    }

    /// The accesses that restart the waveform with `freq`.
    pub fn set_frequency(&self, freq: Hertz) -> (r: Result<Vec<TtcOp>, FrequencyError>)
        ensures
            match r {
                Ok(ops) => frequency_answer(self.ref_clk.hz, freq.hz, Ok(ops@)),
                Err(e) => frequency_answer(self.ref_clk.hz, freq.hz, Err(e)),
            },
    {
        if freq.raw() == 0 {
            return Err(FrequencyError::Zero);
        }
        let s = calc_prescaler_reg_and_interval_ticks(self.ref_clk, freq);
        assert(settings(self.ref_clk.hz, freq.hz, s));
        match s {
            Ok((prescaler, ticks)) => Ok(self.set_up_and_configure_pwm(prescaler, ticks)),
            Err(e) => Err(e),
        }
    }

    /// The accesses that set the duty cycle to `percent` of `max_duty`, the interval that was read.
    pub fn set_duty_cycle_percent(&self, percent: u8, max_duty: u16) -> (r: Result<
        Vec<TtcOp>,
        DutyCycleError,
    >)
        ensures
            percent > 100 ==> r == Err::<Vec<TtcOp>, DutyCycleError>(
                DutyCycleError::InvalidPercent,
            ),
            percent <= 100 ==> r is Ok && r->Ok_0@ == duty_ops(duty_of(max_duty, percent)),
    {
        if percent > 100 {
            return Err(DutyCycleError::InvalidPercent);
        }
        assert(max_duty * percent <= 0xffff * 100) by (nonlinear_arith)
            requires
                max_duty <= 0xffff,
                percent <= 100,
        ;
        let duty: u32 = (max_duty as u32) * (percent as u32) / 100;
        Ok(self.set_duty_cycle(duty as u16))
    }

    /// The value field of the interval register.
    pub fn max_duty_cycle(&self, interval_register: u32) -> (r: u16)
        ensures
            r == interval_register % 0x1_0000,
    {
        (interval_register % 0x1_0000) as u16
    }

    pub fn set_duty_cycle(&self, duty: u16) -> (ops: Vec<TtcOp>)
        ensures
            ops@ == duty_ops(duty),
    {
        let ops: Vec<TtcOp> = vec![
            TtcOp::ModifyCounterControl(ControlUpdate::Disable),
            TtcOp::WriteMatch0(duty as u32),
            TtcOp::ModifyCounterControl(ControlUpdate::EnableAndReset),
        ];
        assert(ops@ =~= duty_ops(duty));
        ops
    }

    fn set_up_and_configure_pwm(&self, prescaler: Option<u8>, tick_val: u16) -> (ops: Vec<TtcOp>)
        ensures
            ops@ == configure_ops(prescaler, tick_val),
    {
        let (setting, enable): (u8, bool) = match prescaler {
            Some(p) => (p, true),
            None => (0, false),
        };
        let ops: Vec<TtcOp> = vec![
            TtcOp::WriteCounterControlRaw(1),
            TtcOp::WriteClockControl(ClockControl {
                ext_clk_edge: false,
                clk_src: ClockSource::Pclk,
                prescaler: setting,
                prescale_enable: enable,
            }),
            TtcOp::WriteInterval(tick_val as u32),
            TtcOp::WriteMatch0(0),
            TtcOp::WriteCounterControl(CounterControl {
                wave_polarity: WavePolarity::LowToHighOnMatch1,
                wave_enable: true,
                reset: true,
                match_enable: true,
                decrementing: false,
                mode: Mode::Interval,
                disable: false,
            }),
        ];
        assert(ops@ =~= configure_ops(prescaler, tick_val));
        ops
    }
}

/// `percent` of `max_duty`, rounded down.
pub open spec fn duty_of(max_duty: u16, percent: u8) -> u16 {
    (max_duty * percent / 100) as u16
}

/// Zero percent is never on, a hundred percent is the whole period, and more
/// percent is never less time on.
pub proof fn duty_follows_the_percentage(max_duty: u16, low: u8, high: u8)
    requires
        low <= high <= 100,
    ensures
        duty_of(max_duty, 0) == 0,
        duty_of(max_duty, 100) == max_duty,
        duty_of(max_duty, low) <= duty_of(max_duty, high) <= max_duty,
{
    assert(0 <= max_duty * low <= max_duty * high <= max_duty * 100) by (nonlinear_arith)
        requires
            0 <= low <= high <= 100,
            max_duty >= 0,
    ;
}

} // verus!
