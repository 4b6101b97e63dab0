//! The order in which the platform is brought up.
use vstd::prelude::*;

use crate::clocks::{ClockReadError, Clocks};
use crate::slcr::{self, SlcrOp};
use crate::{Config, InitError, InterruptConfig, L2CacheMode};

verus! {

/// One step of the platform bring-up.
#[derive(Debug, Clone, Copy, PartialEq, Eq, Structural)]
pub enum InitStep {
    /// Level shifter policy, as one SLCR access.
    Slcr(SlcrOp),
    /// Bring the interrupt controller up: [`crate::runtime::initialize`].
    InitializeInterrupts(InterruptConfig),
    /// Set the L2 cache up: [`crate::l2_cache::init_with_defaults`].
    InitializeL2Cache,
    /// DMA cache maintenance is available from here on.
    MarkDmaCacheReady,
    /// Freeze the clock tree.
    FreezeClocks(Clocks),
    StartTimeDriver,
    /// Register the calling processor: [`crate::multicore::register_current_core`].
    RegisterCurrentCore,
    EnableCpuInterrupts,
}

/// Whether and how the level shifters are written.
pub open spec fn level_shifter_steps(config: Config) -> Seq<InitStep> {
    match config.level_shifter_config {
        Some(level) => seq![
            InitStep::Slcr(SlcrOp::WriteUnlock(slcr::UNLOCK_KEY)),
            InitStep::Slcr(SlcrOp::WriteLevelShifter(level.raw)),
            InitStep::Slcr(SlcrOp::WriteLock(slcr::LOCK_KEY)),
        ],
        None => Seq::empty(),
    }
}

pub open spec fn l2_cache_steps(config: Config) -> Seq<InitStep> {
    match config.l2_cache_mode {
        L2CacheMode::Initialize => seq![
            InitStep::InitializeL2Cache,
            InitStep::MarkDmaCacheReady,
        ],
        L2CacheMode::AssumeInitializedForDma => seq![InitStep::MarkDmaCacheReady],
    }
}

/// The whole bring-up for a clock tree that was read. Interrupts are enabled last.
pub open spec fn init_steps(config: Config, clocks: Clocks) -> Seq<InitStep> {
    level_shifter_steps(config) + seq![
        InitStep::InitializeInterrupts(
            match config.interrupt_config {
                Some(c) => c,
                None => InterruptConfig::AllInterruptsToCpu0,
            },
        ),
    ] + l2_cache_steps(config) + seq![
        InitStep::FreezeClocks(clocks),
        InitStep::StartTimeDriver,
        InitStep::RegisterCurrentCore,
        InitStep::EnableCpuInterrupts,
    ]
}

/// Decides the bring-up once the clock tree was read and the register block
/// singleton was asked for. Neither changes hardware state, so a refusal comes
/// before anything is reconfigured.
pub fn init(
    config: Config,
    clocks: Result<Clocks, ClockReadError>,
    registers_available: bool,
) -> (r: Result<Vec<InitStep>, InitError>)
    ensures
        match clocks {
            Err(e) => r == Err::<Vec<InitStep>, InitError>(InitError::Clocks(e)),
            Ok(c) => if registers_available {
                r is Ok && r->Ok_0@ == init_steps(config, c)
            } else {
                r == Err::<Vec<InitStep>, InitError>(InitError::PeripheralsAlreadyTaken)
            },
        },
{
    let clocks = match clocks {
        Ok(clocks) => clocks,
        Err(e) => return Err(InitError::from(e)),
    };
    if !registers_available {
        return Err(InitError::PeripheralsAlreadyTaken);
    }
    let mut steps = apply_level_shifter_policy(config);
    steps.push(
        InitStep::InitializeInterrupts(
            match config.interrupt_config {
                Some(c) => c,
                None => InterruptConfig::AllInterruptsToCpu0,
            },
        ),
    );
    match config.l2_cache_mode {
        L2CacheMode::Initialize => {
            steps.push(InitStep::InitializeL2Cache);
            steps.push(InitStep::MarkDmaCacheReady);
        },
        L2CacheMode::AssumeInitializedForDma => {
            steps.push(InitStep::MarkDmaCacheReady);
        },
    }
    steps.push(InitStep::FreezeClocks(clocks));
    steps.push(InitStep::StartTimeDriver);
    steps.push(InitStep::RegisterCurrentCore);
    steps.push(InitStep::EnableCpuInterrupts);
    assert(steps@ =~= init_steps(config, clocks));
    Ok(steps)
}

pub fn apply_level_shifter_policy(config: Config) -> (steps: Vec<InitStep>)
    ensures
        steps@ == level_shifter_steps(config),
{
    let mut steps: Vec<InitStep> = Vec::new();
    if let Some(level) = config.level_shifter_config {
        let ops = slcr::with_unlocked_one(SlcrOp::WriteLevelShifter(level.raw));
        steps.push(InitStep::Slcr(ops[0]));
        steps.push(InitStep::Slcr(ops[1]));
        steps.push(InitStep::Slcr(ops[2]));
    }
    assert(steps@ =~= level_shifter_steps(config));
    steps
}

/// Processor interrupts are enabled by the last step and by no other.
pub proof fn interrupts_are_enabled_last(config: Config, clocks: Clocks)
    ensures
        init_steps(config, clocks).last() is EnableCpuInterrupts,
        forall|i: int|
            0 <= i < init_steps(config, clocks).len() - 1 ==> !(#[trigger] init_steps(
                config,
                clocks,
            )[i] is EnableCpuInterrupts),
{
}

} // verus!
