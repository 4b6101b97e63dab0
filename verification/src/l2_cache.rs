//! Default setup of the L2 cache controller.
use vstd::prelude::*;

use crate::slcr::{self, SlcrOp};

verus! {

#[derive(Debug, Clone, Copy, PartialEq, Eq, Structural)]
pub enum ReplacementPolicy {
    PseudoRandom,
    RoundRobin,
}

#[derive(Debug, Clone, Copy, PartialEq, Eq, Structural)]
pub enum WaySize {
    Size16kB,
    Size32kB,
    Size64kB,
    Size128kB,
    Size256kB,
    Size512kB,
}

#[derive(Debug, Clone, Copy, PartialEq, Eq, Structural)]
pub enum Associativity {
    EightWay,
    SixteenWay,
}

/// Fields of the auxiliary control register.
#[derive(Debug, Clone, Copy, PartialEq, Eq, Structural)]
pub struct AuxControl {
    pub early_bresp_enable: bool,
    pub instruction_prefetch_enable: bool,
    pub data_prefetch_enable: bool,
    pub nonsec_interrupt_access_control: bool,
    pub nonsec_lockdown_enable: bool,
    pub cache_replace_policy: ReplacementPolicy,
    pub force_write_alloc: u8,
    pub shared_attr_override: bool,
    pub parity_enable: bool,
    pub event_monitor_bus_enable: bool,
    pub way_size: WaySize,
    pub associativity: Associativity,
    pub shared_attribute_invalidate: bool,
    pub exclusive_cache_config: bool,
    pub store_buff_device_limitation_enable: bool,
    pub high_priority_so_dev_reads: bool,
    pub full_line_zero_enable: bool,
}

/// RAM latencies, each in three bits.
#[derive(Debug, Clone, Copy, PartialEq, Eq, Structural)]
pub struct LatencyConfig {
    pub write_access_latency: u8,
    pub read_access_latency: u8,
    pub setup_latency: u8,
}

pub const SLCR_L2C_CONFIG_MAGIC_VALUE: u32 = 0x0002_0202;

/// All sixteen ways.
pub const ALL_WAYS: u32 = 0xffff;

/// One access of the L2 cache setup.
#[derive(Debug, Clone, Copy, PartialEq, Eq, Structural)]
pub enum L2CacheOp {
    WriteEnable(bool),
    WriteAuxControl(AuxControl),
    WriteTagRamLatency(LatencyConfig),
    WriteDataRamLatency(LatencyConfig),
    WriteCleanInvalidateByWay(u32),
    /// Start a cache sync and wait until it is no longer busy.
    Sync,
    /// Order the surrounding accesses for the compiler.
    Fence,
    /// Clear every interrupt that is pending.
    ClearPendingInterrupts,
    Slcr(SlcrOp),
}

pub open spec fn aux_ctrl_default() -> AuxControl {
    AuxControl {
        early_bresp_enable: true,
        instruction_prefetch_enable: true,
        data_prefetch_enable: true,
        nonsec_interrupt_access_control: false,
        nonsec_lockdown_enable: false,
        cache_replace_policy: ReplacementPolicy::RoundRobin,
        force_write_alloc: 0,
        shared_attr_override: false,
        parity_enable: true,
        event_monitor_bus_enable: true,
        way_size: WaySize::Size64kB,
        associativity: Associativity::EightWay,
        shared_attribute_invalidate: false,
        exclusive_cache_config: false,
        store_buff_device_limitation_enable: false,
        high_priority_so_dev_reads: false,
        full_line_zero_enable: false,
    }
}

pub open spec fn default_tag_ram_latency() -> LatencyConfig {
    LatencyConfig { write_access_latency: 1, read_access_latency: 1, setup_latency: 1 }
}

pub open spec fn default_data_ram_latency() -> LatencyConfig {
    LatencyConfig { write_access_latency: 1, read_access_latency: 2, setup_latency: 1 }
}

/// The cache is off while it is configured and cleaned, and on at the end.
pub open spec fn default_ops() -> Seq<L2CacheOp> {
    seq![
        L2CacheOp::WriteEnable(false),
        L2CacheOp::WriteAuxControl(aux_ctrl_default()),
        L2CacheOp::WriteTagRamLatency(default_tag_ram_latency()),
        L2CacheOp::WriteDataRamLatency(default_data_ram_latency()),
        L2CacheOp::WriteCleanInvalidateByWay(ALL_WAYS),
        L2CacheOp::Sync,
        L2CacheOp::Fence,
        L2CacheOp::ClearPendingInterrupts,
        L2CacheOp::Slcr(SlcrOp::WriteUnlock(slcr::UNLOCK_KEY)),
        L2CacheOp::Slcr(SlcrOp::WriteMagicL2c(SLCR_L2C_CONFIG_MAGIC_VALUE)),
        L2CacheOp::Slcr(SlcrOp::WriteLock(slcr::LOCK_KEY)),
        L2CacheOp::WriteEnable(true),
    ]
}

pub fn init_with_defaults() -> (ops: Vec<L2CacheOp>)
    ensures
        ops@ == default_ops(),
{
    let aux = AuxControl {
        early_bresp_enable: true,
        instruction_prefetch_enable: true,
        data_prefetch_enable: true,
        nonsec_interrupt_access_control: false,
        nonsec_lockdown_enable: false,
        cache_replace_policy: ReplacementPolicy::RoundRobin,
        force_write_alloc: 0,
        shared_attr_override: false,
        parity_enable: true,
        event_monitor_bus_enable: true,
        way_size: WaySize::Size64kB,
        associativity: Associativity::EightWay,
        shared_attribute_invalidate: false,
        exclusive_cache_config: false,
        store_buff_device_limitation_enable: false,
        high_priority_so_dev_reads: false,
        full_line_zero_enable: false,
    };
    let magic = slcr::with_unlocked_one(SlcrOp::WriteMagicL2c(SLCR_L2C_CONFIG_MAGIC_VALUE));
    let mut ops: Vec<L2CacheOp> = Vec::new();
    ops.push(L2CacheOp::WriteEnable(false));
    ops.push(L2CacheOp::WriteAuxControl(aux));
    ops.push(
        L2CacheOp::WriteTagRamLatency(
            LatencyConfig { write_access_latency: 1, read_access_latency: 1, setup_latency: 1 },
        ),
    );
    ops.push(
        L2CacheOp::WriteDataRamLatency(
            LatencyConfig { write_access_latency: 1, read_access_latency: 2, setup_latency: 1 },
        ),
    );
    ops.push(L2CacheOp::WriteCleanInvalidateByWay(ALL_WAYS));
    ops.push(L2CacheOp::Sync);
    ops.push(L2CacheOp::Fence);
    ops.push(L2CacheOp::ClearPendingInterrupts);
    ops.push(L2CacheOp::Slcr(magic[0]));
    ops.push(L2CacheOp::Slcr(magic[1]));
    ops.push(L2CacheOp::Slcr(magic[2]));
    ops.push(L2CacheOp::WriteEnable(true));
    assert(ops@ =~= default_ops());
    ops
}

/// The cache controller while it is being set up.
pub struct Controller {
    pub enabled: bool,
    /// Something was written to its configuration while it was on.
    pub disturbed: bool,
    pub unlocked: bool,
    /// The RAM configuration holds the value it needs.
    pub ram_configured: bool,
    /// Every way was cleaned and invalidated.
    pub flushed: bool,
    /// The flush was waited for.
    pub drained: bool,
    pub aux: AuxControl,
    pub tag_latency: LatencyConfig,
    pub data_latency: LatencyConfig,
    pub interrupts_cleared: bool,
}

impl Controller {
    pub open spec fn after(self, op: L2CacheOp) -> Controller {
        let s = Controller { disturbed: self.disturbed || self.enabled, ..self };
        match op {
            L2CacheOp::WriteEnable(v) => Controller { enabled: v, ..self },
            L2CacheOp::WriteAuxControl(aux) => Controller { aux, ..s },
            L2CacheOp::WriteTagRamLatency(latency) => Controller { tag_latency: latency, ..s },
            L2CacheOp::WriteDataRamLatency(latency) => Controller { data_latency: latency, ..s },
            L2CacheOp::WriteCleanInvalidateByWay(ways) => Controller {
                flushed: ways % 0x1_0000 == 0xffff,
                drained: false,
                ..s
            },
            L2CacheOp::Sync => Controller { drained: self.flushed, ..self },
            L2CacheOp::Fence => self,
            L2CacheOp::ClearPendingInterrupts => Controller { interrupts_cleared: true, ..self },
            L2CacheOp::Slcr(SlcrOp::WriteUnlock(key)) => Controller {
                unlocked: self.unlocked || key == 0xDF0D,
                ..self
            },
            L2CacheOp::Slcr(SlcrOp::WriteLock(key)) => Controller {
                unlocked: self.unlocked && key != 0x767B,
                ..self
            },
            L2CacheOp::Slcr(SlcrOp::WriteMagicL2c(value)) => if self.unlocked {
                Controller { ram_configured: value == 0x0002_0202, ..s }
            } else {
                s
            },
            L2CacheOp::Slcr(_) => self,
        }
    }

    /// The controller after the first `n` accesses.
    pub open spec fn after_first(self, ops: Seq<L2CacheOp>, n: int) -> Controller
        decreases n,
    {
        if n <= 0 {
            self
        } else {
            self.after_first(ops, n - 1).after(ops[n - 1])
        }
    }
}

/// The cache comes up flushed, configured as eight ways of 64 kB with parity and prefetching,
/// with the latencies of its RAMs set, and nothing was changed while it was on.
pub proof fn cache_comes_up_configured(c: Controller)
    requires
        !c.disturbed,
    ensures
        ({
            let ops = default_ops();
            let after = c.after_first(ops, ops.len() as int);
            &&& after.enabled && !after.disturbed && !after.unlocked && after.ram_configured
            &&& after.flushed && after.drained && after.interrupts_cleared
            &&& after.aux.way_size is Size64kB && after.aux.associativity is EightWay
            &&& after.aux.parity_enable && after.aux.early_bresp_enable
            &&& after.aux.instruction_prefetch_enable && after.aux.data_prefetch_enable
            &&& after.aux.cache_replace_policy is RoundRobin && after.aux.event_monitor_bus_enable
            &&& !after.aux.exclusive_cache_config && !after.aux.full_line_zero_enable
            &&& !after.aux.shared_attr_override && !after.aux.shared_attribute_invalidate
            &&& after.aux.force_write_alloc == 0 && !after.aux.high_priority_so_dev_reads
            &&& !after.aux.nonsec_lockdown_enable && !after.aux.nonsec_interrupt_access_control
            &&& !after.aux.store_buff_device_limitation_enable
            &&& after.tag_latency.write_access_latency == 1
            &&& after.tag_latency.read_access_latency == 1
            &&& after.tag_latency.setup_latency == 1
            &&& after.data_latency.write_access_latency == 1
            &&& after.data_latency.read_access_latency == 2
            &&& after.data_latency.setup_latency == 1
        }),
{
    let ops = default_ops();
    assert(c.after_first(ops, 0) == c);
    let c4 = c.after(ops[0]).after(ops[1]).after(ops[2]).after(ops[3]);
    assert(c.after_first(ops, 1) == c.after(ops[0]));
    assert(c.after_first(ops, 2) == c.after(ops[0]).after(ops[1]));
    assert(c.after_first(ops, 3) == c.after(ops[0]).after(ops[1]).after(ops[2]));
    assert(c.after_first(ops, 4) == c4);
    let c8 = c4.after(ops[4]).after(ops[5]).after(ops[6]).after(ops[7]);
    assert(c.after_first(ops, 5) == c4.after(ops[4]));
    assert(c.after_first(ops, 6) == c4.after(ops[4]).after(ops[5]));
    assert(c.after_first(ops, 7) == c4.after(ops[4]).after(ops[5]).after(ops[6]));
    assert(c.after_first(ops, 8) == c8);
    assert(c.after_first(ops, 9) == c8.after(ops[8]));
    assert(c.after_first(ops, 10) == c8.after(ops[8]).after(ops[9]));
    assert(c.after_first(ops, 11) == c8.after(ops[8]).after(ops[9]).after(ops[10]));
    assert(c.after_first(ops, 12) == c.after_first(ops, 11).after(ops[11]));
    assert(ops.len() == 12);
}

} // verus!
