//! What the accesses made for a pin do to the pins.
use vstd::prelude::*;

use super::{
    disconnected_ops, gpio_input_ops, lemma_masked_output_is_one_bit, open_drain_ops, periph_ops,
    push_pull_ops, set_level_ops, state_op, GpioOp, IoType, MaskedOut, MioPin, MioUpdate, MuxConfig,
    PinMode, PinState,
};
use crate::slcr::SlcrOp;

verus! {

/// The pins as the GPIO block and the multiplexer have them, by their number.
#[verifier::ext_equal]
pub struct Pins {
    /// The multiplexer registers can be written.
    pub unlocked: bool,
    pub mio: spec_fn(int) -> MioPin,
    /// The level that a pin is set to.
    pub high: spec_fn(int) -> bool,
    /// The direction of a pin is out.
    pub outward: spec_fn(int) -> bool,
    /// The output driver of a pin is on.
    pub driven: spec_fn(int) -> bool,
}

/// The first pin of a masked output register.
pub open spec fn first_of(reg: MaskedOut) -> int {
    match reg {
        MaskedOut::Bank0Lsw => 0,
        MaskedOut::Bank0Msw => 16,
        MaskedOut::Bank1Lsw => 32,
        MaskedOut::Bank1Msw => 48,
    }
}

pub open spec fn bit16(raw: u16, i: int) -> bool {
    raw & (1u16 << (i as u16)) != 0
}

/// A pin configuration after a change of it.
pub open spec fn mio_after(val: MioPin, update: MioUpdate) -> MioPin {
    let muxed = match update.mux_conf {
        Some(mux) => MioPin {
            l0_sel: mux.l0,
            l1_sel: mux.l1,
            l2_sel: mux.l2,
            l3_sel: mux.l3,
            ..val
        },
        None => val,
    };
    MioPin {
        pullup: match update.pullup {
            Some(pullup) => pullup,
            None => val.pullup,
        },
        io_type: match update.io_type {
            Some(io_type) => io_type,
            None => val.io_type,
        },
        tri_enable: update.tristate,
        ..muxed
    }
}

impl Pins {
    pub open spec fn after(self, op: GpioOp) -> Pins {
        match op {
            GpioOp::Slcr(SlcrOp::WriteUnlock(key)) => Pins {
                unlocked: self.unlocked || key == 0xDF0D,
                ..self
            },
            GpioOp::Slcr(SlcrOp::WriteLock(key)) => Pins {
                unlocked: self.unlocked && key != 0x767B,
                ..self
            },
            GpioOp::Slcr(SlcrOp::ModifyMioPin { pin, update }) => if self.unlocked {
                Pins {
                    mio: |p: int|
                        if p == pin {
                            mio_after((self.mio)(p), update)
                        } else {
                            (self.mio)(p)
                        },
                    ..self
                }
            } else {
                self
            },
            GpioOp::Slcr(_) => self,
            GpioOp::MaskedOutput { reg, mask, output } => Pins {
                high: |p: int|
                    if first_of(reg) <= p < first_of(reg) + 16 && !bit16(mask, p - first_of(reg)) {
                        bit16(output, p - first_of(reg))
                    } else {
                        (self.high)(p)
                    },
                ..self
            },
            GpioOp::Direction { bank, bit, value } => Pins {
                outward: |p: int|
                    if p == bit + (if bank is Bank0 {
                        0int
                    } else {
                        32
                    }) {
                        value
                    } else {
                        (self.outward)(p)
                    },
                ..self
            },
            GpioOp::OutputEnable { bank, bit, value } => Pins {
                driven: |p: int|
                    if p == bit + (if bank is Bank0 {
                        0int
                    } else {
                        32
                    }) {
                        value
                    } else {
                        (self.driven)(p)
                    },
                ..self
            },
        }
    }

    /// The pins after the first `n` accesses.
    pub open spec fn after_first(self, ops: Seq<GpioOp>, n: int) -> Pins
        decreases n,
    {
        if n <= 0 {
            self
        } else {
            self.after_first(ops, n - 1).after(ops[n - 1])
        }
    }

    pub open spec fn after_all(self, ops: Seq<GpioOp>) -> Pins {
        self.after_first(ops, ops.len() as int)
    }

    /// The pin has the same state in both.
    pub open spec fn same_pin(self, other: Pins, p: int) -> bool {
        &&& (self.mio)(p) == (other.mio)(p)
        &&& (self.high)(p) == (other.high)(p)
        &&& (self.outward)(p) == (other.outward)(p)
        &&& (self.driven)(p) == (other.driven)(p)
    }

    /// The pin belongs to the GPIO block.
    pub open spec fn is_gpio(self, p: int) -> bool {
        let mio = (self.mio)(p);
        !mio.l0_sel && !mio.l1_sel && mio.l2_sel == 0 && mio.l3_sel == 0
    }
}

/// Setting the level of a pin sets that of no other one.
proof fn lemma_level_is_set(s: Pins, pin: int, level: PinState, p: int)
    requires
        0 <= pin < 54,
        0 <= p < 54,
    ensures
        (s.after(state_op(pin, level)).high)(p) == (if p == pin {
            level is High
        } else {
            (s.high)(p)
        }),
{
    let first = (pin / 16) * 16;
    if first <= p < first + 16 {
        lemma_masked_output_is_one_bit((pin % 16) as u16, (p - first) as u16);
    }
}

proof fn lemma_steps(s: Pins, ops: Seq<GpioOp>)
    requires
        ops.len() >= 5,
    ensures
        s.after_first(ops, 1) == s.after(ops[0]),
        s.after_first(ops, 2) == s.after(ops[0]).after(ops[1]),
        s.after_first(ops, 3) == s.after(ops[0]).after(ops[1]).after(ops[2]),
        s.after_first(ops, 4) == s.after(ops[0]).after(ops[1]).after(ops[2]).after(ops[3]),
        s.after_first(ops, 5) == s.after(ops[0]).after(ops[1]).after(ops[2]).after(ops[3]).after(
            ops[4],
        ),
        s.after_first(ops, 6) == s.after_first(ops, 5).after(ops[5]),
{
    assert(s.after_first(ops, 0) == s);
}

/// A push-pull output belongs to the GPIO block, points out and drives its level, which it
/// has before it is driven. No other pin changes, and the multiplexer is locked again.
pub proof fn push_pull_output_drives_its_level(s: Pins, pin: int, level: PinState, p: int)
    requires
        0 <= pin < 54,
        0 <= p < 54,
    ensures
        ({
            let ops = push_pull_ops(pin, level);
            let after = s.after_all(ops);
            &&& after.is_gpio(pin) && !(after.mio)(pin).tri_enable
            &&& (after.mio)(pin).pullup == (s.mio)(pin).pullup
            &&& (after.mio)(pin).io_type == (s.mio)(pin).io_type
            &&& (after.high)(pin) == (level is High)
            &&& (after.outward)(pin) && (after.driven)(pin)
            &&& !after.unlocked
            &&& p != pin ==> after.same_pin(s, p)
            &&& (s.after_first(ops, ops.len() - 1).high)(pin) == (level is High)
            &&& (s.after_first(ops, ops.len() - 1).driven)(pin) == (s.driven)(pin)
        }),
{
    let ops = push_pull_ops(pin, level);
    assert(ops.len() == 6);
    lemma_steps(s, ops);
    assert(ops[3] == state_op(pin, level));
    lemma_level_is_set(s.after_first(ops, 3), pin, level, p);
    lemma_level_is_set(s.after_first(ops, 3), pin, level, pin);
}

/// An open-drain output belongs to the GPIO block and points out. Its driver is on for a low
/// level alone, and its pull-up is as asked. No other pin changes.
pub proof fn open_drain_output_drives_only_low(
    s: Pins,
    pin: int,
    level: PinState,
    pullup: bool,
    p: int,
)
    requires
        0 <= pin < 54,
        0 <= p < 54,
    ensures
        ({
            let after = s.after_all(open_drain_ops(pin, level, pullup));
            &&& after.is_gpio(pin) && !(after.mio)(pin).tri_enable
            &&& (after.mio)(pin).pullup == pullup
            &&& (after.mio)(pin).io_type == (s.mio)(pin).io_type
            &&& (after.high)(pin) == (level is High)
            &&& (after.outward)(pin) && (after.driven)(pin) == (level is Low)
            &&& !after.unlocked
            &&& p != pin ==> after.same_pin(s, p)
        }),
{
    let ops = open_drain_ops(pin, level, pullup);
    assert(ops.len() == 6);
    lemma_steps(s, ops);
    assert(ops[3] == state_op(pin, level));
    lemma_level_is_set(s.after_first(ops, 3), pin, level, p);
    lemma_level_is_set(s.after_first(ops, 3), pin, level, pin);
}

/// An input belongs to the GPIO block, points in, is not driven from either side, and has its
/// pull-up as asked. No other pin changes.
pub proof fn input_is_not_driven(s: Pins, pin: int, pullup: bool, p: int)
    requires
        0 <= pin < 54,
        0 <= p < 54,
    ensures
        ({
            let after = s.after_all(gpio_input_ops(pin, pullup));
            &&& after.is_gpio(pin) && (after.mio)(pin).tri_enable
            &&& (after.mio)(pin).pullup == pullup
            &&& (after.mio)(pin).io_type == (s.mio)(pin).io_type
            &&& !(after.outward)(pin) && !(after.driven)(pin)
            &&& !after.unlocked
            &&& p != pin ==> after.same_pin(s, p)
        }),
{
    let ops = gpio_input_ops(pin, pullup);
    assert(ops.len() == 5);
    lemma_steps(s, ops);
}

/// A disconnected pin points in and is driven from neither side. Where it is routed to and
/// its pull-up stay, and no other pin changes.
pub proof fn disconnected_pin_is_not_driven(s: Pins, pin: int, p: int)
    requires
        0 <= pin < 54,
        0 <= p < 54,
    ensures
        ({
            let after = s.after_all(disconnected_ops(pin));
            &&& (after.mio)(pin) == (MioPin { tri_enable: true, ..(s.mio)(pin) })
            &&& !(after.outward)(pin) && !(after.driven)(pin)
            &&& !after.unlocked
            &&& p != pin ==> after.same_pin(s, p)
        }),
{
    let ops = disconnected_ops(pin);
    assert(ops.len() == 5);
    lemma_steps(s, ops);
}

/// A pin of another peripheral is routed as asked and left to that peripheral to drive: the
/// GPIO block drives it no more before it is routed. No other pin changes.
pub proof fn peripheral_pin_is_routed(
    s: Pins,
    pin: int,
    mux_conf: MuxConfig,
    pullup: Option<bool>,
    io_type: Option<IoType>,
    p: int,
)
    requires
        0 <= pin < 54,
        0 <= p < 54,
        !s.unlocked,
    ensures
        ({
            let ops = periph_ops(pin, mux_conf, pullup, io_type);
            let after = s.after_all(ops);
            let mio = (after.mio)(pin);
            &&& mio.l0_sel == mux_conf.l0 && mio.l1_sel == mux_conf.l1
            &&& mio.l2_sel == mux_conf.l2 && mio.l3_sel == mux_conf.l3
            &&& !mio.tri_enable
            &&& mio.pullup == (if pullup is Some {
                pullup->0
            } else {
                (s.mio)(pin).pullup
            })
            &&& mio.io_type == (if io_type is Some {
                io_type->0
            } else {
                (s.mio)(pin).io_type
            })
            &&& !(after.outward)(pin) && !(after.driven)(pin)
            &&& !(s.after_first(ops, 2).driven)(pin) && (s.after_first(ops, 2).mio)(pin)
                == (s.mio)(pin)
            &&& !after.unlocked
            &&& p != pin ==> after.same_pin(s, p)
        }),
{
    let ops = periph_ops(pin, mux_conf, pullup, io_type);
    assert(ops.len() == 5);
    lemma_steps(s, ops);
}

/// Setting a pin sets its level. Only where it is an open-drain output does its driver move:
/// on for low and off for high. No other pin changes.
pub proof fn set_pin_has_its_level(s: Pins, pin: int, mode: PinMode, level: PinState, p: int)
    requires
        0 <= pin < 54,
        0 <= p < 54,
    ensures
        ({
            let after = s.after_all(set_level_ops(pin, mode, level));
            &&& (after.high)(pin) == (level is High)
            &&& (after.driven)(pin) == (if mode is OutputOpenDrain {
                level is Low
            } else {
                (s.driven)(pin)
            })
            &&& (after.outward)(pin) == (s.outward)(pin) && (after.mio)(pin) == (s.mio)(pin)
            &&& p != pin ==> after.same_pin(s, p)
        }),
{
    let ops = set_level_ops(pin, mode, level);
    assert(s.after_first(ops, 0) == s);
    assert(s.after_first(ops, 1) == s.after(state_op(pin, level)));
    lemma_level_is_set(s, pin, level, p);
    lemma_level_is_set(s, pin, level, pin);
}

} // verus!
