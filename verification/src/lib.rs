//! Decision logic of an Embassy-first hardware abstraction layer for the AMD Zynq-7000.
//!
//! The library computes what a driver does: clock trees, divisors, descriptor
//! tables, register images, the order of register accesses, and the state
//! machines that interrupt handlers and transfers step through. Register reads
//! come in as plain values and register writes go out as plain values, so a
//! board support layer only has to perform them.
//!
//! Modules are organised by driver domain: [`clocks`], [`gpio`], [`i2c`],
//! [`qspi`], [`sdmmc`], [`uart`], [`usb`] and [`ttc`] for peripherals,
//! [`interrupt`], [`runtime`], [`multicore`] and [`time`] for the runtime,
//! [`hal`] for the lower-level building blocks and [`pac`] for register images.
use vstd::prelude::*;

pub mod arith;
pub mod bits;
pub mod cache;
pub mod chip;
pub mod clocks;
pub mod examples;
pub mod gpio;
pub mod gtc;
pub mod hal;
pub mod i2c;
pub mod init;
pub mod interrupt;
pub mod l2_cache;
pub mod log;
pub mod multicore;
pub mod pac;
pub mod platform;
pub mod qspi;
pub mod runtime;
pub mod sdmmc;
pub mod slcr;
pub mod time;
pub mod ttc;
pub mod uart;
pub mod usb;

verus! {

/// A frequency in hertz.
#[derive(Debug, Clone, Copy, PartialEq, Eq, Structural)]
pub struct Hertz {
    pub hz: u32,
}

impl Hertz {
    pub fn from_raw(raw: u32) -> (r: Self)
        ensures
            r.hz == raw,
    {
        Hertz { hz: raw }
    }

    pub fn raw(&self) -> (r: u32)
        ensures
            r == self.hz,
    {
        self.hz
    }

    /// The frequency after a divider, rounded down.
    pub fn divided_by(self, divisor: u32) -> (r: Self)
        requires
            divisor != 0,
        ensures
            r.hz == self.hz / divisor,
    {
        Hertz { hz: self.hz / divisor }
    }

    /// The frequency after a multiplier.
    pub fn times(self, factor: u32) -> (r: Self)
        requires
            self.hz * factor <= u32::MAX,
        ensures
            r.hz == self.hz * factor,
    {
        Hertz { hz: self.hz * factor }
    }
}

/// Interrupt initialization policy.
#[derive(Debug, Clone, Copy, PartialEq, Eq, Structural)]
pub enum InterruptConfig {
    /// Configure the interrupt controller to route all interrupts to processor 0.
    AllInterruptsToCpu0,
}

/// L2 cache and DMA platform policy used during initialization.
#[derive(Debug, Clone, Copy, PartialEq, Eq, Structural)]
pub enum L2CacheMode {
    /// Initialize the L2 cache controller with the defaults.
    Initialize,
    /// The boot chain has already initialized the L2 cache for DMA-safe maintenance.
    AssumeInitializedForDma,
}

/// Image of the level shifter register.
#[derive(Debug, Clone, Copy, PartialEq, Eq, Structural)]
pub struct LevelShifterConfig {
    pub raw: u32,
}

/// Platform initialization configuration.
#[derive(Debug, Clone, Copy, PartialEq, Eq, Structural)]
pub struct Config {
    pub ps_clock_frequency: Hertz,
    pub l2_cache_mode: L2CacheMode,
    pub level_shifter_config: Option<LevelShifterConfig>,
    pub interrupt_config: Option<InterruptConfig>,
}

/// Initialization errors.
#[derive(Debug, Clone, Copy, PartialEq, Eq, Structural)]
pub enum InitError {
    /// The peripheral singleton was already taken.
    PeripheralsAlreadyTaken,
    Clocks(clocks::ClockReadError),
}

impl From<clocks::ClockReadError> for InitError {
    fn from(value: clocks::ClockReadError) -> (r: Self) {
        InitError::Clocks(value)
    }
}

impl vstd::std_specs::convert::FromSpecImpl<clocks::ClockReadError> for InitError {
    open spec fn obeys_from_spec() -> bool {
        true
    }

    open spec fn from_spec(value: clocks::ClockReadError) -> Self {
        InitError::Clocks(value)
    }
}

} // verus!
