//! The reconfiguration lock that processors take around shared register changes.
use vstd::prelude::*;

use crate::interrupt::{Interrupt, PpiInterrupt};
use crate::runtime::{self, GicOp, PAUSE_SGI_ID};
use crate::time::GtcTimerDriver;

verus! {

pub const NO_OWNER: u8 = 0;

/// The interrupt mask bit of the processor status register.
pub const CPSR_IRQ_MASK_BIT: u32 = 7;

/// The processor number, from the low two bits of the affinity register.
pub fn cpu_id_from_mpidr(mpidr: u32) -> (r: u8)
    ensures
        r == mpidr % 4,
{
    (mpidr % 4) as u8
}

/// Owners are processor numbers plus one: zero is no owner.
pub fn owner_for_cpu(cpu_id: u8) -> (r: u8)
    requires
        cpu_id < u8::MAX,
    ensures
        r == cpu_id + 1,
        r != NO_OWNER,
{
    cpu_id + 1
}

/// Whether `cpsr` has interrupts unmasked.
pub fn interrupts_enabled(cpsr: u32) -> (r: bool)
    ensures
        r == !crate::bits::bit(cpsr, CPSR_IRQ_MASK_BIT),
{
    !crate::bits::get_bit(cpsr, CPSR_IRQ_MASK_BIT)
}

/// Whether a software generated interrupt is the one that coordinates the processors.
pub fn dispatch_sgi(sgi_id: usize) -> (r: bool)
    ensures
        r == (sgi_id == PAUSE_SGI_ID),
{
    if sgi_id != PAUSE_SGI_ID {
        return false;
    }
    true
}

/// The accesses that let the coordination interrupt through.
pub open spec fn coordination_ops() -> Seq<GicOp> {
    runtime::unpend_ops(Interrupt::Sgi(PAUSE_SGI_ID)) + runtime::enable_ops(
        Interrupt::Sgi(PAUSE_SGI_ID),
    )
}

/// The accesses that register processor `current_cpu` where `owner` has initialized the
/// time driver.
pub open spec fn registration_ops(owner: u8, current_cpu: u8) -> Seq<GicOp> {
    coordination_ops() + if owner == current_cpu {
        crate::time::local_interrupt_ops()
    } else {
        Seq::empty()
    }
}

/// Registers processor `current_cpu`, the calling one, for coordination: unpends, then
/// enables, the coordination interrupt, and then the timer interrupt where this is the
/// processor that initialized the time driver.
///
/// The time driver has to be initialized.
pub fn register_current_core(driver: &GtcTimerDriver, current_cpu: u8) -> (ops: Vec<GicOp>)
    requires
        driver.cpu is Some,
    ensures
        ops@ == registration_ops(driver.cpu->0, current_cpu),
{
    let mut ops = runtime::unpend_interrupt(Interrupt::Sgi(PAUSE_SGI_ID));
    let mut enable = runtime::enable_interrupt(Interrupt::Sgi(PAUSE_SGI_ID));
    ops.append(&mut enable);
    let mut timer = driver.enable_local_interrupt(current_cpu);
    ops.append(&mut timer);
    ops
}

/// The access that enables the timer interrupt on the calling processor.
pub open spec fn timer_enable() -> GicOp {
    let id = PpiInterrupt::GlobalTimer.number() as int;
    GicOp::MergeSetEnable { index: runtime::id_register(id), mask: runtime::id_mask(id) }
}

/// Registering a processor enables the timer interrupt exactly where it is the one
/// that initialized the time driver.
pub proof fn timer_interrupt_stays_on_its_processor(owner: u8, current_cpu: u8)
    ensures
        registration_ops(owner, current_cpu).contains(timer_enable()) <==> owner == current_cpu,
{
    let ops = registration_ops(owner, current_cpu);
    assert(1u32 << 15u32 != 1u32 << 27u32) by (bit_vector);
    assert(runtime::id_mask(PAUSE_SGI_ID as int) == 1u32 << 15u32);
    assert(timer_enable()->MergeSetEnable_mask == 1u32 << 27u32);
    if owner == current_cpu {
        assert(ops.len() == 6);
        assert(ops[5] == timer_enable());
    }
}

/// State of the lock: who holds it and how often.
#[derive(Debug, Clone, Copy, PartialEq, Eq, Structural)]
pub struct ReconfigurationLock {
    pub owner: u8,
    pub depth: u8,
}

/// What a holder has to undo on release.
#[derive(Debug, Clone, Copy, PartialEq, Eq, Structural)]
pub struct LockGuard {
    pub restore_interrupts: bool,
    pub outermost: bool,
}

/// The outcome of one attempt to take the lock.
#[derive(Debug, Clone, Copy, PartialEq, Eq, Structural)]
pub enum Attempt {
    Acquired(LockGuard),
    /// Another processor holds the lock: let interrupts through if they were
    /// enabled before, then try again.
    Busy { restore_interrupts: bool },
}

impl ReconfigurationLock {
    /// Nobody holds a free lock, and a held lock has been taken at least once.
    pub open spec fn wf(self) -> bool {
        self.owner == NO_OWNER <==> self.depth == 0
    }

    pub fn new() -> (r: Self)
        ensures
            r.owner == NO_OWNER,
            r.wf(),
    {
        ReconfigurationLock { owner: NO_OWNER, depth: 0 }
    }

    /// One attempt of `cpu` to take the lock, with its interrupts masked.
    ///
    /// `irqs_were_enabled` says whether they were enabled before. A processor
    /// that already holds the lock takes it once more, and then leaves the
    /// interrupts as they are on release. The nesting depth is bounded by its
    /// counter.
    pub fn try_acquire(&mut self, cpu: u8, irqs_were_enabled: bool) -> (r: Attempt)
        requires
            old(self).wf(),
            cpu < u8::MAX,
            old(self).owner == cpu + 1 ==> old(self).depth < u8::MAX,
        ensures
            final(self).wf(),
            old(self).owner == cpu + 1 ==> {
                &&& final(self).owner == old(self).owner
                &&& final(self).depth == old(self).depth + 1
                &&& r == Attempt::Acquired(
                    LockGuard { restore_interrupts: false, outermost: false },
                )
            },
            old(self).owner == NO_OWNER ==> {
                &&& final(self).owner == cpu + 1
                &&& final(self).depth == 1
                &&& r == Attempt::Acquired(
                    LockGuard { restore_interrupts: irqs_were_enabled, outermost: true },
                )
            },
            old(self).owner != NO_OWNER && old(self).owner != cpu + 1 ==> {
                &&& *final(self) == *old(self)
                &&& r == Attempt::Busy { restore_interrupts: irqs_were_enabled }
            },
    {
        let owner: u8 = owner_for_cpu(cpu);
        if self.owner == owner {
            self.depth = self.depth + 1;
            return Attempt::Acquired(LockGuard { restore_interrupts: false, outermost: false });
        }
        if self.owner == NO_OWNER {
            self.owner = owner;
            self.depth = 1;
            return Attempt::Acquired(
                LockGuard { restore_interrupts: irqs_were_enabled, outermost: true },
            );
        }
        Attempt::Busy { restore_interrupts: irqs_were_enabled }
    }

    /// Releases one level. Returns whether interrupts are to be enabled again.
    pub fn release(&mut self, guard: LockGuard) -> (restore: bool)
        requires
            old(self).wf(),
            old(self).depth > 0,
            guard.outermost <==> old(self).depth == 1,
        ensures
            final(self).wf(),
            final(self).depth == old(self).depth - 1,
            final(self).owner == (if guard.outermost {
                NO_OWNER
            } else {
                old(self).owner
            }),
            restore == (guard.outermost && guard.restore_interrupts),
    {
        if !guard.outermost {
            self.depth = self.depth - 1;
            return false;
        }
        self.depth = 0;
        self.owner = NO_OWNER;
        guard.restore_interrupts
    }
}

/// While one processor holds the lock no other one can take it.
pub proof fn lock_excludes_other_processors(lock: ReconfigurationLock, holder: u8, other: u8)
    requires
        lock.wf(),
        holder < u8::MAX,
        other < u8::MAX,
        lock.owner == holder + 1,
        holder != other,
    ensures
        lock.owner != NO_OWNER,
        lock.owner != other + 1,
{
}

/// A registered processor lets the coordination interrupt through, with none pending, and
/// the timer interrupt exactly where it owns the timer. All other interrupts stay.
pub proof fn registered_core_hears_of_reconfigurations(
    g: runtime::laws::Gic,
    owner: u8,
    current_cpu: u8,
    other: int,
)
    requires
        0 <= other < 1024,
    ensures
        ({
            let after = g.after_all(registration_ops(owner, current_cpu));
            let heard = other == 15 || other == 27 && owner == current_cpu;
            &&& (after.enabled)(other) == (heard || (g.enabled)(other))
            &&& (after.pending)(other) == (!heard && (g.pending)(other))
        }),
{
    let sgi = Interrupt::Sgi(PAUSE_SGI_ID);
    let timer = Interrupt::Ppi(PpiInterrupt::GlobalTimer);
    runtime::laws::interrupts_are_enabled_afresh(g, sgi, other);
    let g1 = g.after_all(coordination_ops());
    if owner == current_cpu {
        runtime::laws::interrupts_are_enabled_afresh(g1, timer, other);
        runtime::laws::lemma_concat(g, coordination_ops(), crate::time::local_interrupt_ops());
    } else {
        assert(registration_ops(owner, current_cpu) =~= coordination_ops());
    }
}

} // verus!
