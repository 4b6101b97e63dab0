//! Private watchdog of a processor.
use vstd::prelude::*;

verus! {

pub const WATCHDOG_DISABLE_STEP_0: u32 = 0x1234_5678;

pub const WATCHDOG_DISABLE_STEP_1: u32 = 0x8765_4321;

/// Raw watchdog load value.
#[derive(Debug, Clone, Copy, PartialEq, Eq, Structural)]
pub struct WatchdogTimeout(pub u32);

impl WatchdogTimeout {
    /// Create a timeout from raw watchdog ticks.
    pub fn from_raw(raw: u32) -> (r: Self)
        ensures
            r.0 == raw,
    {
        WatchdogTimeout(raw)
    }

    /// Return the raw watchdog tick count.
    pub fn raw(self) -> (r: u32)
        ensures
            r == self.0,
    {
        self.0
    }
}

/// Hardware mode of the watchdog.
#[derive(Debug, Clone, Copy, PartialEq, Eq, Structural)]
pub enum WatchdogMode {
    /// Timer mode asserts only the interrupt.
    Timer,
    /// Watchdog mode asserts the reset request output on expiry.
    Watchdog,
}

impl Default for WatchdogMode {
    fn default() -> (r: Self)
        ensures
            r is Timer,
    {
        WatchdogMode::Timer
    }
}

/// Configuration for starting the watchdog.
#[derive(Debug, Clone, Copy, PartialEq, Eq, Structural)]
pub struct WatchdogConfig {
    /// Load value written into the watchdog counter.
    pub timeout: WatchdogTimeout,
    /// Prescaler applied to the watchdog clock.
    pub prescaler: u8,
    pub mode: WatchdogMode,
    /// Enable the interrupt path.
    pub irq_enable: bool,
    /// Reload automatically when the counter reaches zero in timer mode.
    pub auto_reload: bool,
}

impl WatchdogConfig {
    /// Construct a configuration from a timeout value.
    pub fn new(timeout: WatchdogTimeout) -> (r: Self)
        ensures
            r == (WatchdogConfig {
                timeout,
                prescaler: 0,
                mode: WatchdogMode::Timer,
                irq_enable: false,
                auto_reload: false,
            }),
    {
        WatchdogConfig {
            timeout,
            prescaler: 0,
            mode: WatchdogMode::Timer,
            irq_enable: false,
            auto_reload: false,
        }
    }
}

/// Fields of the watchdog control register.
#[derive(Debug, Clone, Copy, PartialEq, Eq, Structural)]
pub struct WatchdogControl {
    pub prescaler: u8,
    pub watchdog_mode: bool,
    pub it_enable: bool,
    pub auto_reload: bool,
    pub watchdog_enable: bool,
}

/// One access to the watchdog registers.
#[derive(Debug, Clone, Copy, PartialEq, Eq, Structural)]
pub enum WatchdogOp {
    WriteLoad(u32),
    WriteControl(WatchdogControl),
    WriteDisable(u32),
    /// Replace the control register by [`WatchdogControl::stopped`] of its value.
    StopControl,
    AckEventFlag,
    AckResetFlag,
}

impl WatchdogControl {
    /// The control register with the counter, interrupt and reload switched off.
    pub fn stopped(self) -> (r: Self)
        ensures
            r == (WatchdogControl {
                watchdog_enable: false,
                it_enable: false,
                auto_reload: false,
                ..self
            }),
    {
        WatchdogControl { watchdog_enable: false, it_enable: false, auto_reload: false, ..self }
    }
}

/// Private watchdog driver.
#[derive(Debug, Clone, Copy, PartialEq, Eq, Structural)]
pub struct Watchdog {
    pub last_timeout: WatchdogTimeout,
}

impl Watchdog {
    pub fn new() -> (r: Self)
        ensures
            r.last_timeout.0 == 0,
    {
        Watchdog { last_timeout: WatchdogTimeout::from_raw(0) }
    }

    /// Start or reconfigure the watchdog: the counter is loaded before it is enabled.
    pub fn start(&mut self, config: WatchdogConfig) -> (ops: Vec<WatchdogOp>)
        ensures
            final(self).last_timeout == config.timeout,
            ops@ == seq![
                WatchdogOp::WriteLoad(config.timeout.0),
                WatchdogOp::WriteControl(
                    WatchdogControl {
                        prescaler: config.prescaler,
                        watchdog_mode: config.mode is Watchdog,
                        it_enable: config.irq_enable,
                        auto_reload: config.auto_reload,
                        watchdog_enable: true,
                    },
                ),
            ],
    {
        self.last_timeout = config.timeout;
        let mut ops: Vec<WatchdogOp> = Vec::new();
        ops.push(WatchdogOp::WriteLoad(config.timeout.raw()));
        ops.push(
            WatchdogOp::WriteControl(
                WatchdogControl {
                    prescaler: config.prescaler,
                    watchdog_mode: matches!(config.mode, WatchdogMode::Watchdog),
                    it_enable: config.irq_enable,
                    auto_reload: config.auto_reload,
                    watchdog_enable: true,
                },
            ),
        );
        ops
    }

    /// Feed the watchdog by reloading the last configured timeout value.
    pub fn feed(&self) -> (op: WatchdogOp)
        ensures
            op == WatchdogOp::WriteLoad(self.last_timeout.0),
    {
        WatchdogOp::WriteLoad(self.last_timeout.raw())
    }

    /// Stop the watchdog and leave it in timer mode.
    pub fn disable(&self) -> (ops: Vec<WatchdogOp>)
        ensures
            ops@ == seq![
                WatchdogOp::WriteDisable(WATCHDOG_DISABLE_STEP_0),
                WatchdogOp::WriteDisable(WATCHDOG_DISABLE_STEP_1),
                WatchdogOp::StopControl,
            ],
            ops@[0] == WatchdogOp::WriteDisable(0x1234_5678),
            ops@[1] == WatchdogOp::WriteDisable(0x8765_4321),
    {
        let mut ops: Vec<WatchdogOp> = Vec::new();
        ops.push(WatchdogOp::WriteDisable(WATCHDOG_DISABLE_STEP_0));
        ops.push(WatchdogOp::WriteDisable(WATCHDOG_DISABLE_STEP_1));
        ops.push(WatchdogOp::StopControl);
        ops
    }

    /// Return the last configured timeout value.
    pub fn last_timeout(&self) -> (r: WatchdogTimeout)
        ensures
            r == self.last_timeout,
    {
        self.last_timeout
    }

    /// Clear the sticky timer-mode interrupt flag.
    pub fn clear_interrupt_flag(&self) -> (op: WatchdogOp)
        ensures
            op is AckEventFlag,
    {
        WatchdogOp::AckEventFlag
    }

    /// Clear the sticky watchdog-reset flag.
    pub fn clear_reset_flag(&self) -> (op: WatchdogOp)
        ensures
            op is AckResetFlag,
    {
        WatchdogOp::AckResetFlag
    }
}

} // verus!
