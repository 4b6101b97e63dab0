//! What the accesses to the interrupt controller do to its interrupts.
use vstd::prelude::*;

use super::{
    disable_ops, enable_ops, initialize_ops, lemma_and_is_idempotent,
    managed_interrupts, reset_ops, trigger_config, unpend_ops, DistributorControl, GicOp,
    InterfaceControl,
};
use crate::bits;
use crate::interrupt::{Interrupt, PpiInterrupt, SpiInterrupt};

verus! {

/// The interrupts of the second instance of a peripheral lie 23 behind those of the first, and
/// the private ones end below the shared ones.
pub proof fn interrupt_numbers_lie_in_their_blocks()
    ensures
        SpiInterrupt::Usb0.number() == 53 && SpiInterrupt::Eth0.number() == 54,
        SpiInterrupt::Sdio0.number() == 56 && SpiInterrupt::I2c0.number() == 57,
        SpiInterrupt::Spi0.number() == 58 && SpiInterrupt::Uart0.number() == 59,
        SpiInterrupt::Usb1.number() == SpiInterrupt::Usb0.number() + 23,
        SpiInterrupt::Eth1.number() == SpiInterrupt::Eth0.number() + 23,
        SpiInterrupt::Sdio1.number() == SpiInterrupt::Sdio0.number() + 23,
        SpiInterrupt::I2c1.number() == SpiInterrupt::I2c0.number() + 23,
        SpiInterrupt::Spi1.number() == SpiInterrupt::Spi0.number() + 23,
        SpiInterrupt::Uart1.number() == SpiInterrupt::Uart0.number() + 23,
        SpiInterrupt::Ttc10.number() == 69,
        PpiInterrupt::GlobalTimer.number() == 27 && PpiInterrupt::NFiq.number() == 28,
        PpiInterrupt::CpuPrivateTimer.number() == 29 && PpiInterrupt::Awdt.number() == 30,
        PpiInterrupt::NIrq.number() == 31,
{
}

/// The number of an interrupt that the controller has.
pub open spec fn number_of(interrupt: Interrupt) -> int {
    match interrupt {
        Interrupt::Sgi(id) => id as int,
        Interrupt::Ppi(ppi) => ppi.number() as int,
        Interrupt::Spi(spi) => spi.number() as int,
        Interrupt::Invalid(_) => -1,
        Interrupt::Spurious => -1,
    }
}

/// The controller has the interrupt: one of 16 software generated ones, a private or a shared
/// one.
pub open spec fn exists_in_controller(interrupt: Interrupt) -> bool {
    match interrupt {
        Interrupt::Sgi(id) => id < 16,
        Interrupt::Ppi(_) => true,
        Interrupt::Spi(_) => true,
        Interrupt::Invalid(_) => false,
        Interrupt::Spurious => false,
    }
}

/// The interrupt controller, by the number of the interrupt.
pub struct Gic {
    pub enabled: spec_fn(int) -> bool,
    pub pending: spec_fn(int) -> bool,
    /// The processors that an interrupt goes to, one bit each.
    pub target: spec_fn(int) -> u8,
    pub priority_mask: u32,
    pub interface: InterfaceControl,
    pub distributor: DistributorControl,
}

/// Register `index` with 32 interrupts holds the one with `number`, and its bit is in `mask`.
pub open spec fn names(index: usize, mask: u32, number: int) -> bool {
    number / 32 == index && mask & (1u32 << ((number % 32) as u32)) != 0
}

impl Gic {
    /// A clear-enable register reads as what is enabled, so that merging a bit into it writes
    /// all of that back, and nothing of the register stays enabled.
    pub open spec fn after(self, op: GicOp) -> Gic {
        match op {
            GicOp::WritePriorityMask(mask) => Gic { priority_mask: mask, ..self },
            GicOp::WriteInterfaceControl(interface) => Gic { interface, ..self },
            GicOp::WriteDistributorControl(distributor) => Gic { distributor, ..self },
            GicOp::WriteClearPending { index, mask } => Gic {
                pending: |n: int| (self.pending)(n) && !names(index, mask, n),
                ..self
            },
            GicOp::MergeSetEnable { index, mask } => Gic {
                enabled: |n: int| (self.enabled)(n) || names(index, mask, n),
                ..self
            },
            GicOp::MergeClearEnable { index, mask } => Gic {
                enabled: |n: int|
                    (self.enabled)(n) && !names(index, mask, n) && n / 32 != index,
                ..self
            },
            GicOp::SetTarget { index, byte, target } => Gic {
                target: |n: int|
                    if n == 32 + 4 * index + byte {
                        target
                    } else {
                        (self.target)(n)
                    },
                ..self
            },
            GicOp::UpdateTrigger { .. } => self,
            GicOp::WriteEndOfInterrupt(_) => self,
        }
    }

    /// The controller after the first `n` accesses.
    pub open spec fn after_first(self, ops: Seq<GicOp>, n: int) -> Gic
        decreases n,
    {
        if n <= 0 {
            self
        } else {
            self.after_first(ops, n - 1).after(ops[n - 1])
        }
    }

    pub open spec fn after_all(self, ops: Seq<GicOp>) -> Gic {
        self.after_first(ops, ops.len() as int)
    }
}

/// Two sequences in a row do what the second does after the first.
proof fn lemma_in_a_row(g: Gic, a: Seq<GicOp>, b: Seq<GicOp>, n: int)
    requires
        0 <= n <= b.len(),
    ensures
        g.after_first(a + b, a.len() as int + n) == g.after_all(a).after_first(b, n),
    decreases n,
{
    if n == 0 {
        lemma_prefix(g, a, b, a.len() as int);
    } else {
        lemma_in_a_row(g, a, b, n - 1);
        assert((a + b)[a.len() as int + n - 1] == b[n - 1]);
    }
}

proof fn lemma_prefix(g: Gic, a: Seq<GicOp>, b: Seq<GicOp>, n: int)
    requires
        0 <= n <= a.len(),
    ensures
        g.after_first(a + b, n) == g.after_first(a, n),
    decreases n,
{
    if n > 0 {
        lemma_prefix(g, a, b, n - 1);
        assert((a + b)[n - 1] == a[n - 1]);
    }
}

pub proof fn lemma_concat(g: Gic, a: Seq<GicOp>, b: Seq<GicOp>)
    ensures
        g.after_all(a + b) == g.after_all(a).after_all(b),
{
    lemma_in_a_row(g, a, b, b.len() as int);
    assert((a + b).len() == a.len() + b.len());
}

proof fn lemma_names_one(id: int, other: int)
    requires
        0 <= id < 1024,
        0 <= other < 1024,
    ensures
        names((id / 32) as usize, 1u32 << ((id % 32) as u32), other) == (other == id),
{
    bits::single_bit_masks_are_distinct((id % 32) as u32, (other % 32) as u32);
    if other / 32 == id / 32 && other % 32 == id % 32 {
        assert(other == id);
    }
}

/// An interrupt that is enabled is let through and no longer pending, and a shared one goes to
/// the first processor alone. No other interrupt changes.
pub proof fn enabled_interrupt_is_let_through(g: Gic, interrupt: Interrupt, other: int)
    requires
        exists_in_controller(interrupt),
        0 <= other < 1024,
    ensures
        ({
            let n = number_of(interrupt);
            let after = g.after_all(enable_ops(interrupt));
            &&& (after.enabled)(other) == (other == n || (g.enabled)(other))
            &&& (after.pending)(other) == (other != n && (g.pending)(other))
            &&& (after.target)(other) == (if other == n && interrupt is Spi {
                1u8
            } else {
                (g.target)(other)
            })
            &&& after.interface == g.interface && after.distributor == g.distributor
            &&& after.priority_mask == g.priority_mask
        }),
{
    let n = number_of(interrupt);
    let ops = enable_ops(interrupt);
    lemma_names_one(n, other);
    assert(g.after_first(ops, 0) == g);
    assert(g.after_first(ops, 1) == g.after(ops[0]));
    assert(g.after_first(ops, 2) == g.after(ops[0]).after(ops[1]));
    if interrupt is Spi {
        assert(g.after_first(ops, 3) == g.after(ops[0]).after(ops[1]).after(ops[2]));
        assert(g.after_first(ops, 4) == g.after_first(ops, 3).after(ops[3]));
        assert(ops.len() == 4);
    } else {
        assert(ops.len() == 2);
    }
}

/// An interrupt that is disabled is not let through, and one that is unpended is not pending.
/// Neither lets another one through or makes it pending.
pub proof fn disabled_interrupt_is_not_let_through(g: Gic, interrupt: Interrupt, other: int)
    requires
        exists_in_controller(interrupt),
        0 <= other < 1024,
    ensures
        ({
            let n = number_of(interrupt);
            let disabled = g.after_all(disable_ops(interrupt));
            let unpended = g.after_all(unpend_ops(interrupt));
            &&& !(disabled.enabled)(n)
            &&& (disabled.enabled)(other) ==> (g.enabled)(other)
            &&& disabled == (Gic { enabled: disabled.enabled, ..g })
            &&& (unpended.pending)(other) == (other != n && (g.pending)(other))
            &&& unpended == (Gic { pending: unpended.pending, ..g })
        }),
{
    let n = number_of(interrupt);
    lemma_names_one(n, other);
    lemma_names_one(n, n);
    assert(g.after_first(disable_ops(interrupt), 0) == g);
    assert(g.after_first(unpend_ops(interrupt), 0) == g);
}

/// Unpending and then enabling an interrupt lets it through with nothing of before pending.
pub proof fn interrupts_are_enabled_afresh(g: Gic, interrupt: Interrupt, other: int)
    requires
        exists_in_controller(interrupt),
        0 <= other < 1024,
    ensures
        ({
            let n = number_of(interrupt);
            let after = g.after_all(unpend_ops(interrupt) + enable_ops(interrupt));
            &&& (after.enabled)(other) == (other == n || (g.enabled)(other))
            &&& (after.pending)(other) == (other != n && (g.pending)(other))
        }),
{
    lemma_concat(g, unpend_ops(interrupt), enable_ops(interrupt));
    disabled_interrupt_is_not_let_through(g, interrupt, other);
    enabled_interrupt_is_let_through(g.after_all(unpend_ops(interrupt)), interrupt, other);
}

/// What the controller does not have is left alone.
pub proof fn absent_interrupt_is_left_alone(interrupt: Interrupt)
    requires
        !exists_in_controller(interrupt),
    ensures
        enable_ops(interrupt).len() == 0,
        disable_ops(interrupt).len() == 0,
        unpend_ops(interrupt).len() == 0,
{
}

/// After the first `n` resets those interrupts are neither let through nor pending.
proof fn lemma_reset(g: Gic, n: nat, i: int, other: int)
    requires
        n <= 19,
        0 <= i < 19,
        0 <= other < 1024,
    ensures
        ({
            let after = g.after_all(reset_ops(n));
            let id = number_of(managed_interrupts()[i]);
            &&& i < n ==> !(after.enabled)(id) && !(after.pending)(id)
            &&& (after.enabled)(other) ==> (g.enabled)(other)
            &&& (after.pending)(other) ==> (g.pending)(other)
            &&& after == (Gic { enabled: after.enabled, pending: after.pending, ..g })
        }),
    decreases n,
{
    if n > 0 {
        let before = (n - 1) as nat;
        let interrupt = managed_interrupts()[n - 1];
        let id = number_of(managed_interrupts()[i]);
        assert(0 <= id < 1024);
        lemma_reset(g, before, i, other);
        let a = reset_ops(before);
        lemma_concat(g, a, disable_ops(interrupt));
        lemma_concat(g, a + disable_ops(interrupt), unpend_ops(interrupt));
        let g1 = g.after_all(a);
        let g2 = g1.after_all(disable_ops(interrupt));
        disabled_interrupt_is_not_let_through(g1, interrupt, other);
        disabled_interrupt_is_not_let_through(g1, interrupt, id);
        disabled_interrupt_is_not_let_through(g2, interrupt, other);
        disabled_interrupt_is_not_let_through(g2, interrupt, id);
    } else {
        assert(g.after_all(reset_ops(0)) == g);
    }
}

/// A controller that was brought up takes interrupts of every priority from both groups and
/// signals them as such. Of the private and shared interrupts none is let through or pending,
/// and of the software generated ones only the fifteenth is newly let through.
pub proof fn initialized_controller_is_quiet(g: Gic, interrupt: Interrupt, other: int)
    requires
        interrupt is Ppi || interrupt is Spi,
        0 <= other < 1024,
    ensures
        ({
            let n = number_of(interrupt);
            let after = g.after_all(initialize_ops());
            &&& after.priority_mask == 255
            &&& after.interface.enable_secure && after.interface.enable_non_secure
            &&& !after.interface.fiq_en && !after.interface.ack_ctrl && !after.interface.sbpr
            &&& after.distributor.enable_secure && after.distributor.enable_non_secure
            &&& !(after.enabled)(n) && !(after.pending)(n)
            &&& (after.enabled)(15) && !(after.pending)(15)
            &&& (after.enabled)(other) ==> other == 15 || (g.enabled)(other)
        }),
{
    let ops = initialize_ops();
    let head = ops.subrange(0, 3);
    let reset = reset_ops(19);
    let sgi = Interrupt::Sgi(15);
    assert(managed_interrupts().len() == 19);
    assert(ops =~= head + reset + enable_ops(sgi));
    lemma_concat(g, head, reset);
    lemma_concat(g, head + reset, enable_ops(sgi));
    let g1 = g.after_all(head);
    assert(g.after_first(head, 0) == g);
    assert(g.after_first(head, 1) == g.after(head[0]));
    assert(g.after_first(head, 2) == g.after(head[0]).after(head[1]));
    assert(g1 == g.after(head[0]).after(head[1]).after(head[2]));
    let g2 = g1.after_all(reset);
    let n = number_of(interrupt);
    let i: int = match interrupt {
        Interrupt::Ppi(PpiInterrupt::GlobalTimer) => 1,
        Interrupt::Ppi(PpiInterrupt::NFiq) => 2,
        Interrupt::Ppi(PpiInterrupt::CpuPrivateTimer) => 3,
        Interrupt::Ppi(PpiInterrupt::Awdt) => 4,
        Interrupt::Ppi(PpiInterrupt::NIrq) => 5,
        Interrupt::Spi(SpiInterrupt::Usb0) => 6,
        Interrupt::Spi(SpiInterrupt::Eth0) => 7,
        Interrupt::Spi(SpiInterrupt::Sdio0) => 8,
        Interrupt::Spi(SpiInterrupt::I2c0) => 9,
        Interrupt::Spi(SpiInterrupt::Spi0) => 10,
        Interrupt::Spi(SpiInterrupt::Uart0) => 11,
        Interrupt::Spi(SpiInterrupt::Ttc10) => 12,
        Interrupt::Spi(SpiInterrupt::Usb1) => 13,
        Interrupt::Spi(SpiInterrupt::Eth1) => 14,
        Interrupt::Spi(SpiInterrupt::Sdio1) => 15,
        Interrupt::Spi(SpiInterrupt::I2c1) => 16,
        Interrupt::Spi(SpiInterrupt::Spi1) => 17,
        _ => 18,
    };
    assert(managed_interrupts()[i] == interrupt);
    lemma_reset(g1, 19, i, other);
    enabled_interrupt_is_let_through(g2, sgi, n);
    enabled_interrupt_is_let_through(g2, sgi, other);
    enabled_interrupt_is_let_through(g2, sgi, 15);
}

/// A shared interrupt gets the trigger that its line has, in its own two bits of the register
/// of its sixteen.
pub proof fn trigger_is_that_of_the_line(id: int, current: u32)
    requires
        32 <= id <= 92,
    ensures
        ({
            let (register, mask, value) = trigger_config(id);
            let own = 3u32 << (((id % 16) * 2) as u32);
            let fixed: u32 = if id < 48 {
                0x555D_545F
            } else if id < 64 {
                0x5555_D555
            } else if id < 80 {
                0x7555_5555
            } else {
                0x0355_5555
            };
            &&& register == id / 16
            &&& ((current & !mask) | value) & own == fixed & own
        }),
{
    let (_, mask, _) = trigger_config(id);
    let fixed: u32 = if id < 48 {
        0x555D_545F
    } else if id < 64 {
        0x5555_D555
    } else if id < 80 {
        0x7555_5555
    } else {
        0x0355_5555
    };
    lemma_and_is_idempotent(fixed, mask, current);
}

} // verus!
