//! What the accesses of a timer channel do to its registers, and which waveform comes of it.
use vstd::arithmetic::power2::{lemma_pow2_pos, lemma_pow2_unfold, pow2};
use vstd::prelude::*;

use super::{
    configure_ops, duty_of, duty_ops, halved, interval, settings, ClockControl, ControlUpdate,
    CounterControl, FrequencyError, TtcOp,
};

verus! {

/// The registers of a channel.
pub struct Registers {
    pub control: CounterControl,
    pub clock: ClockControl,
    pub interval: u32,
    pub match0: u32,
}

impl Registers {
    pub open spec fn after(self, op: TtcOp) -> Registers {
        match op {
            TtcOp::WriteCounterControlRaw(raw) => Registers {
                control: CounterControl { disable: raw % 2 == 1, ..self.control },
                ..self
            },
            TtcOp::WriteCounterControl(control) => Registers { control, ..self },
            TtcOp::ModifyCounterControl(ControlUpdate::Disable) => Registers {
                control: CounterControl { disable: true, ..self.control },
                ..self
            },
            TtcOp::ModifyCounterControl(ControlUpdate::EnableAndReset) => Registers {
                control: CounterControl { disable: false, reset: true, ..self.control },
                ..self
            },
            TtcOp::WriteClockControl(clock) => Registers { clock, ..self },
            TtcOp::WriteInterval(ticks) => Registers { interval: ticks, ..self },
            TtcOp::WriteMatch0(ticks) => Registers { match0: ticks, ..self },
        }
    }

    /// The registers after the first `n` accesses.
    pub open spec fn after_first(self, ops: Seq<TtcOp>, n: int) -> Registers
        decreases n,
    {
        if n <= 0 {
            self
        } else {
            self.after_first(ops, n - 1).after(ops[n - 1])
        }
    }

    pub open spec fn after_all(self, ops: Seq<TtcOp>) -> Registers {
        self.after_first(ops, ops.len() as int)
    }

    /// The clock of the channel is divided by two this many times.
    pub open spec fn halvings(self) -> nat {
        if self.clock.prescale_enable {
            (self.clock.prescaler + 1) as nat
        } else {
            0
        }
    }
}

/// A configured channel counts up over its interval on the bus clock and puts out a waveform
/// that is never on, and it is off while it is being configured.
pub proof fn configured_channel_puts_out_a_waveform(
    r: Registers,
    prescaler: Option<u8>,
    ticks: u16,
    n: int,
)
    ensures
        ({
            let ops = configure_ops(prescaler, ticks);
            let after = r.after_all(ops);
            &&& !after.control.disable && after.control.reset && after.control.wave_enable
            &&& after.control.match_enable && after.control.mode is Interval
            &&& !after.control.decrementing
            &&& after.control.wave_polarity is LowToHighOnMatch1
            &&& after.interval == ticks && after.match0 == 0
            &&& after.clock.clk_src is Pclk
            &&& after.halvings() == (match prescaler {
                Some(p) => (p + 1) as nat,
                None => 0,
            })
            &&& 1 <= n < ops.len() ==> r.after_first(ops, n).control.disable
        }),
{
    let ops = configure_ops(prescaler, ticks);
    assert(r.after_first(ops, 0) == r);
    assert(r.after_first(ops, 1) == r.after(ops[0]));
    assert(r.after_first(ops, 2) == r.after(ops[0]).after(ops[1]));
    assert(r.after_first(ops, 3) == r.after(ops[0]).after(ops[1]).after(ops[2]));
    assert(r.after_first(ops, 4) == r.after(ops[0]).after(ops[1]).after(ops[2]).after(ops[3]));
    assert(r.after_first(ops, 5) == r.after_first(ops, 4).after(ops[4]));
}

/// A new duty cycle is the match value and nothing else. The channel is off while it is
/// written, and counts anew after it.
pub proof fn duty_cycle_is_the_match_value(r: Registers, duty: u16)
    ensures
        ({
            let ops = duty_ops(duty);
            let after = r.after_all(ops);
            &&& after == (Registers {
                control: CounterControl { disable: false, reset: true, ..r.control },
                match0: duty as u32,
                ..r
            })
            &&& forall|n: int|
                0 < n <= ops.len() && (#[trigger] ops[n - 1]) is WriteMatch0 ==> r.after_first(
                    ops,
                    n,
                ).control.disable
        }),
{
    let ops = duty_ops(duty);
    assert(r.after_first(ops, 0) == r);
    assert(r.after_first(ops, 1) == r.after(ops[0]));
    assert(r.after_first(ops, 2) == r.after(ops[0]).after(ops[1]));
    assert(r.after_first(ops, 3) == r.after(ops[0]).after(ops[1]).after(ops[2]));
}

/// A duty cycle is the given part of the whole, short of it by less than one tick.
pub proof fn duty_cycle_is_the_part_of_the_whole(max_duty: u16, percent: u8)
    requires
        percent <= 100,
    ensures
        100 * duty_of(max_duty, percent) <= max_duty * percent < 100 * (duty_of(max_duty, percent)
            + 1),
{
    assert(0 <= max_duty * percent <= 0xffff * 100) by (nonlinear_arith)
        requires
            0 <= percent <= 100,
            0 <= max_duty <= 0xffff,
    ;
}

/// Halving is division by a power of two.
proof fn lemma_halving_divides(hz: u32, times: nat)
    ensures
        halved(hz, times) == hz as int / pow2(times) as int,
    decreases times,
{
    lemma_pow2_pos(times);
    if times == 0 {
        vstd::arithmetic::power2::lemma2_to64();
    } else {
        let before = (times - 1) as nat;
        lemma_halving_divides(hz, before);
        lemma_pow2_pos(before);
        lemma_pow2_unfold(times);
        vstd::arithmetic::div_mod::lemma_div_denominator(hz as int, pow2(before) as int, 2);
        assert(pow2(times) == pow2(before) * 2);
    }
}

/// How many ticks of the divided clock a period takes.
proof fn lemma_interval_divides(ref_clk: u32, freq: u32, times: nat)
    requires
        freq > 0,
    ensures
        interval(ref_clk, freq, times) * (freq * pow2(times)) <= ref_clk,
        ref_clk < (interval(ref_clk, freq, times) + 1) * (freq * pow2(times)),
{
    lemma_halving_divides(ref_clk, times);
    lemma_pow2_pos(times);
    let d = pow2(times) as int;
    let h = halved(ref_clk, times) as int;
    let i = interval(ref_clk, freq, times) as int;
    let f = freq as int;
    vstd::arithmetic::div_mod::lemma_fundamental_div_mod(ref_clk as int, d);
    vstd::arithmetic::div_mod::lemma_fundamental_div_mod(h, f);
    vstd::arithmetic::div_mod::lemma_mod_bound(ref_clk as int, d);
    vstd::arithmetic::div_mod::lemma_mod_bound(h, f);
    assert(i * f <= h && h + 1 <= (i + 1) * f) by (nonlinear_arith)
        requires
            h == f * i + h % f,
            0 <= h % f < f,
    ;
    assert(h * d <= ref_clk < (h + 1) * d) by (nonlinear_arith)
        requires
            ref_clk == d * h + ref_clk as int % d,
            0 <= ref_clk as int % d < d,
    ;
    assert(i * (f * d) <= h * d) by (nonlinear_arith)
        requires
            i * f <= h,
            d > 0,
    ;
    assert((h + 1) * d <= (i + 1) * (f * d)) by (nonlinear_arith)
        requires
            h + 1 <= (i + 1) * f,
            d > 0,
    ;
}

/// The waveform has the frequency that was asked for, as near as whole ticks of the divided
/// clock come from above. The clock is divided no further than it takes for a period to fit
/// sixteen bits, and no setting is found exactly where the frequency is not below the clock or
/// a period does not fit with the clock halved thirteen times.
pub proof fn waveform_has_the_frequency(
    ref_clk: u32,
    freq: u32,
    s: Result<(Option<u8>, u16), FrequencyError>,
)
    requires
        freq > 0,
        settings(ref_clk, freq, s),
    ensures
        match s {
            Ok((prescaler, ticks)) => {
                let k: nat = match prescaler {
                    Some(p) => (p + 1) as nat,
                    None => 0,
                };
                &&& k <= 13
                &&& freq < ref_clk
                &&& ticks * (freq * pow2(k)) <= ref_clk < (ticks + 1) * (freq * pow2(k))
                &&& k > 0 ==> 0x1_0000 * (freq * pow2((k - 1) as nat)) <= ref_clk
            },
            Err(_) => freq >= ref_clk || 0x1_0000 * (freq * pow2(13)) <= ref_clk,
        },
{
    match s {
        Ok((prescaler, ticks)) => {
            let k: nat = match prescaler {
                Some(p) => (p + 1) as nat,
                None => 0,
            };
            lemma_interval_divides(ref_clk, freq, k);
            if k > 0 {
                let before = (k - 1) as nat;
                lemma_interval_divides(ref_clk, freq, before);
                lemma_pow2_pos(before);
                let i = interval(ref_clk, freq, before);
                let d = freq * pow2(before);
                assert(0x1_0000 * d <= i * d) by (nonlinear_arith)
                    requires
                        i >= 0x1_0000,
                        d >= 0,
                ;
            }
        },
        Err(_) => {
            if freq < ref_clk {
                lemma_interval_divides(ref_clk, freq, 13);
                lemma_pow2_pos(13);
                let i = interval(ref_clk, freq, 13);
                let d = freq * pow2(13);
                assert(0x1_0000 * d <= i * d) by (nonlinear_arith)
                    requires
                        i >= 0x1_0000,
                        d >= 0,
                ;
            }
        },
    }
}

} // verus!
