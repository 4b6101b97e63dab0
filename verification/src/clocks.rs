//! The clock tree: what the PLL and divider registers say about each clock.
use vstd::prelude::*;

pub mod laws;

use crate::Hertz;

verus! {

/// Source of the CPU clock divider.
#[derive(Debug, Clone, Copy, PartialEq, Eq, Structural)]
pub enum SrcSelArm {
    ArmPll,
    ArmPllAlt,
    DdrPll,
    IoPll,
}

/// Source of an I/O peripheral clock divider.
#[derive(Debug, Clone, Copy, PartialEq, Eq, Structural)]
pub enum SrcSelIo {
    IoPll,
    IoPllAlt,
    ArmPll,
    DdrPll,
}

/// Ratio of the CPU clock domains.
#[derive(Debug, Clone, Copy, PartialEq, Eq, Structural)]
pub enum CpuClockRatio {
    FourToTwoToOne,
    SixToTwoToOne,
}

/// Bypass state of a PLL.
#[derive(Debug, Clone, Copy, PartialEq, Eq, Structural)]
pub enum Bypass {
    NotBypassed,
    PinStrapSettings,
    Bypassed,
    BypassedRegardlessOfPinStrapping,
}

/// Fields of a PLL control register. `fdiv` is the feedback divisor.
#[derive(Debug, Clone, Copy, PartialEq, Eq, Structural)]
pub struct PllControl {
    pub fdiv: u8,
    pub pwrdwn: bool,
    pub reset: bool,
    pub bypass: Bypass,
}

/// Lock bits of the PLL status register.
#[derive(Debug, Clone, Copy, PartialEq, Eq, Structural)]
pub struct PllStatus {
    pub arm_pll_lock: bool,
    pub io_pll_lock: bool,
    pub ddr_pll_lock: bool,
}

/// Fields of the CPU clock control register.
#[derive(Debug, Clone, Copy, PartialEq, Eq, Structural)]
pub struct ArmClockControl {
    pub srcsel: SrcSelArm,
    pub divisor: u8,
}

/// Fields of a clock control register shared by two peripheral instances.
#[derive(Debug, Clone, Copy, PartialEq, Eq, Structural)]
pub struct DualCommonPeriphIoClockControl {
    pub srcsel: SrcSelIo,
    pub divisor: u8,
}

/// The clock control registers, as read from the hardware.
#[derive(Debug, Clone, Copy, PartialEq, Eq, Structural)]
pub struct ClockControlRegisters {
    pub arm_pll_ctrl: PllControl,
    pub io_pll_ctrl: PllControl,
    pub ddr_pll_ctrl: PllControl,
    pub pll_status: PllStatus,
    pub arm_clk_ctrl: ArmClockControl,
    pub clk_ratio_select: CpuClockRatio,
    pub sdio_clk_ctrl: DualCommonPeriphIoClockControl,
    pub uart_clk_ctrl: DualCommonPeriphIoClockControl,
}

#[derive(Debug, Clone, Copy, PartialEq, Eq, Structural)]
pub struct ArmClocks {
    pub cpu_1x_clk: Hertz,
    pub cpu_3x2x_clk: Hertz,
}

impl ArmClocks {
    pub fn cpu_1x_clk(&self) -> (r: Hertz)
        ensures
            r == self.cpu_1x_clk,
    {
        self.cpu_1x_clk
    }

    pub fn cpu_3x2x_clk(&self) -> (r: Hertz)
        ensures
            r == self.cpu_3x2x_clk,
    {
        self.cpu_3x2x_clk
    }
}

#[derive(Debug, Clone, Copy, PartialEq, Eq, Structural)]
pub struct IoClocks {
    pub io_pll_clk: Hertz,
    pub arm_pll_clk: Hertz,
    pub ddr_pll_clk: Hertz,
    pub sdio_clk: Hertz,
    pub uart_clk: Hertz,
}

impl IoClocks {
    pub fn ref_clk(&self) -> (r: Hertz)
        ensures
            r == self.io_pll_clk,
    {
        self.io_pll_clk
    }

    pub fn io_pll_clk(&self) -> (r: Hertz)
        ensures
            r == self.io_pll_clk,
    {
        self.io_pll_clk
    }

    pub fn arm_pll_clk(&self) -> (r: Hertz)
        ensures
            r == self.arm_pll_clk,
    {
        self.arm_pll_clk
    }

    pub fn ddr_pll_clk(&self) -> (r: Hertz)
        ensures
            r == self.ddr_pll_clk,
    {
        self.ddr_pll_clk
    }

    /// The PLL output that `src_sel` selects.
    pub open spec fn selected(&self, src_sel: SrcSelIo) -> Hertz {
        match io_pll(src_sel) {
            PllId::Io => self.io_pll_clk,
            PllId::Arm => self.arm_pll_clk,
            PllId::Ddr => self.ddr_pll_clk,
        }
    }

    pub fn selected_ref_clk(&self, src_sel: SrcSelIo) -> (r: Hertz)
        ensures
            r == self.selected(src_sel),
    {
        match src_sel {
            SrcSelIo::IoPll | SrcSelIo::IoPllAlt => self.io_pll_clk,
            SrcSelIo::ArmPll => self.arm_pll_clk,
            SrcSelIo::DdrPll => self.ddr_pll_clk,
        }
    }

    pub fn sdio_clk(&self) -> (r: Hertz)
        ensures
            r == self.sdio_clk,
    {
        self.sdio_clk
    }

    pub fn uart_clk(&self) -> (r: Hertz)
        ensures
            r == self.uart_clk,
    {
        self.uart_clk
    }
}

#[derive(Debug, Clone, Copy, PartialEq, Eq, Structural)]
pub struct Clocks {
    pub arm_clocks: ArmClocks,
    pub io_clocks: IoClocks,
}

impl Clocks {
    pub fn arm_clocks(&self) -> (r: &ArmClocks)
        ensures
            *r == self.arm_clocks,
    {
        &self.arm_clocks
    }

    pub fn io_clocks(&self) -> (r: &IoClocks)
        ensures
            *r == self.io_clocks,
    {
        &self.io_clocks
    }

    pub fn cpu_1x_clk(&self) -> (r: Hertz)
        ensures
            r == self.arm_clocks.cpu_1x_clk,
    {
        self.arm_clocks.cpu_1x_clk()
    }

    pub fn cpu_3x2x_clk(&self) -> (r: Hertz)
        ensures
            r == self.arm_clocks.cpu_3x2x_clk,
    {
        self.arm_clocks.cpu_3x2x_clk()
    }

    pub fn uart_clk(&self) -> (r: Hertz)
        ensures
            r == self.io_clocks.uart_clk,
    {
        self.io_clocks.uart_clk()
    }

    pub fn sdio_clk(&self) -> (r: Hertz)
        ensures
            r == self.io_clocks.sdio_clk,
    {
        self.io_clocks.sdio_clk()
    }
}

#[derive(Debug, Clone, Copy, PartialEq, Eq, Structural)]
pub enum ClockModuleId {
    Arm,
    Sdio,
    Uart,
}

/// The divisor of a clock module is zero.
#[derive(Debug, Clone, Copy, PartialEq, Eq, Structural)]
pub struct DivisorZero(pub ClockModuleId);

#[derive(Debug, Clone, Copy, PartialEq, Eq, Structural)]
pub enum PllId {
    Arm,
    Io,
    Ddr,
}

#[derive(Debug, Clone, Copy, PartialEq, Eq, Structural)]
pub enum ClockReadError {
    /// A PLL that is in use has a zero feedback divisor.
    PllFeedbackZero,
    /// The PLL is bypassed, powered down, held in reset, or unlocked.
    InactivePll(PllId),
    DivisorZero(DivisorZero),
}

impl From<DivisorZero> for ClockReadError {
    fn from(value: DivisorZero) -> (r: Self) {
        ClockReadError::DivisorZero(value)
    }
}

impl vstd::std_specs::convert::FromSpecImpl<DivisorZero> for ClockReadError {
    open spec fn obeys_from_spec() -> bool {
        true
    }

    open spec fn from_spec(value: DivisorZero) -> Self {
        ClockReadError::DivisorZero(value)
    }
}

/// The PLL that feeds an I/O clock.
pub open spec fn io_pll(src_sel: SrcSelIo) -> PllId {
    match src_sel {
        SrcSelIo::IoPll | SrcSelIo::IoPllAlt => PllId::Io,
        SrcSelIo::ArmPll => PllId::Arm,
        SrcSelIo::DdrPll => PllId::Ddr,
    }
}

/// The PLL that feeds the CPU clock.
pub open spec fn arm_pll(src_sel: SrcSelArm) -> PllId {
    match src_sel {
        SrcSelArm::ArmPll | SrcSelArm::ArmPllAlt => PllId::Arm,
        SrcSelArm::DdrPll => PllId::Ddr,
        SrcSelArm::IoPll => PllId::Io,
    }
}

impl PllStatus {
    pub open spec fn locked(self, id: PllId) -> bool {
        match id {
            PllId::Arm => self.arm_pll_lock,
            PllId::Io => self.io_pll_lock,
            PllId::Ddr => self.ddr_pll_lock,
        }
    }
}

impl PllControl {
    /// The PLL runs and its output is not bypassed; locking is reported elsewhere.
    pub open spec fn running(self) -> bool {
        !self.pwrdwn && !self.reset && self.bypass is NotBypassed
    }

    /// The output frequency for a reference of `ps_hz`, absent for a zero feedback divisor.
    pub open spec fn output(self, ps_hz: u32) -> Option<Hertz> {
        if self.fdiv == 0 {
            None
        } else {
            Some(Hertz { hz: (ps_hz * self.fdiv) as u32 })
        }
    }
}

impl ClockControlRegisters {
    pub open spec fn pll(self, id: PllId) -> PllControl {
        match id {
            PllId::Arm => self.arm_pll_ctrl,
            PllId::Io => self.io_pll_ctrl,
            PllId::Ddr => self.ddr_pll_ctrl,
        }
    }

    /// Every PLL output fits the frequency type.
    pub open spec fn outputs_fit(self, ps_hz: u32) -> bool {
        &&& ps_hz * self.arm_pll_ctrl.fdiv <= u32::MAX
        &&& ps_hz * self.io_pll_ctrl.fdiv <= u32::MAX
        &&& ps_hz * self.ddr_pll_ctrl.fdiv <= u32::MAX
    }

    /// The frequency of a clock that divides the output of PLL `id` by `divisor`.
    ///
    /// An inactive PLL is reported before a zero feedback divisor.
    pub open spec fn divided(self, ps_hz: u32, id: PllId, divisor: u8) -> Result<
        Hertz,
        ClockReadError,
    > {
        if !self.pll(id).running() || !self.pll_status.locked(id) {
            Err(ClockReadError::InactivePll(id))
        } else {
            match self.pll(id).output(ps_hz) {
                None => Err(ClockReadError::PllFeedbackZero),
                Some(out) => Ok(Hertz { hz: out.hz / (divisor as u32) }),
            }
        }
    }

    /// The frequency of a peripheral clock, or why it is unknown.
    pub open spec fn peripheral(
        self,
        ps_hz: u32,
        ctrl: DualCommonPeriphIoClockControl,
        module: ClockModuleId,
    ) -> Result<Hertz, ClockReadError> {
        if ctrl.divisor == 0 {
            Err(ClockReadError::DivisorZero(DivisorZero(module)))
        } else {
            self.divided(ps_hz, io_pll(ctrl.srcsel), ctrl.divisor)
        }
    }

    /// The frequency of the CPU clock before the ratio selection.
    pub open spec fn cpu(self, ps_hz: u32) -> Result<Hertz, ClockReadError> {
        if self.arm_clk_ctrl.divisor == 0 {
            Err(ClockReadError::DivisorZero(DivisorZero(ClockModuleId::Arm)))
        } else {
            self.divided(ps_hz, arm_pll(self.arm_clk_ctrl.srcsel), self.arm_clk_ctrl.divisor)
        }
    }

    /// The PLL output as it is reported, zero where it is absent.
    pub open spec fn reported(self, ps_hz: u32, id: PllId) -> Hertz {
        match self.pll(id).output(ps_hz) {
            Some(out) => out,
            None => Hertz { hz: 0 },
        }
    }

    /// The whole clock tree, or the first error on the way: CPU, then SDIO, then UART.
    pub open spec fn tree(self, ps_hz: u32) -> Result<Clocks, ClockReadError> {
        match self.cpu(ps_hz) {
            Err(e) => Err(e),
            Ok(cpu) => match self.peripheral(ps_hz, self.sdio_clk_ctrl, ClockModuleId::Sdio) {
                Err(e) => Err(e),
                Ok(sdio_clk) => match self.peripheral(
                    ps_hz,
                    self.uart_clk_ctrl,
                    ClockModuleId::Uart,
                ) {
                    Err(e) => Err(e),
                    Ok(uart_clk) => Ok(
                        Clocks {
                            arm_clocks: ArmClocks {
                                cpu_1x_clk: Hertz {
                                    hz: match self.clk_ratio_select {
                                        CpuClockRatio::FourToTwoToOne => cpu.hz / 4,
                                        CpuClockRatio::SixToTwoToOne => cpu.hz / 6,
                                    },
                                },
                                cpu_3x2x_clk: Hertz { hz: cpu.hz / 2 },
                            },
                            io_clocks: IoClocks {
                                io_pll_clk: self.reported(ps_hz, PllId::Io),
                                arm_pll_clk: self.reported(ps_hz, PllId::Arm),
                                ddr_pll_clk: self.reported(ps_hz, PllId::Ddr),
                                sdio_clk,
                                uart_clk,
                            },
                        },
                    ),
                },
            },
        }
    }
}

/// Refuses a PLL that is bypassed, powered down, held in reset or unlocked.
pub fn validate_pll_state(id: PllId, pll: PllControl, status: PllStatus) -> (r: Result<
    (),
    ClockReadError,
>)
    ensures
        r == if pll.running() && status.locked(id) {
            Ok::<(), ClockReadError>(())
        } else {
            Err(ClockReadError::InactivePll(id))
        },
{
    let locked = match id {
        PllId::Arm => status.arm_pll_lock,
        PllId::Io => status.io_pll_lock,
        PllId::Ddr => status.ddr_pll_lock,
    };
    if pll.pwrdwn || pll.reset || !matches!(pll.bypass, Bypass::NotBypassed) || !locked {
        return Err(ClockReadError::InactivePll(id));
    }
    Ok(())
}

pub fn require_pll_output(output: Option<Hertz>) -> (r: Result<Hertz, ClockReadError>)
    ensures
        r == match output {
            Some(out) => Ok::<Hertz, ClockReadError>(out),
            None => Err(ClockReadError::PllFeedbackZero),
        },
{
    match output {
        Some(out) => Ok(out),
        None => Err(ClockReadError::PllFeedbackZero),
    }
}

/// The output of a PLL, absent for a zero feedback divisor.
pub fn pll_output(ps_clk_freq: Hertz, pll: PllControl) -> (r: Option<Hertz>)
    requires
        ps_clk_freq.hz * pll.fdiv <= u32::MAX,
    ensures
        r == pll.output(ps_clk_freq.hz),
{
    if pll.fdiv == 0 {
        return None;
    }
    let fdiv: u32 = pll.fdiv as u32;
    Some(ps_clk_freq.times(fdiv))
}

fn pll_clock(
    regs: &ClockControlRegisters,
    ps_clk_freq: Hertz,
    id: PllId,
    divisor: u8,
) -> (r: Result<Hertz, ClockReadError>)
    requires
        regs.outputs_fit(ps_clk_freq.hz),
        divisor != 0,
    ensures
        r == regs.divided(ps_clk_freq.hz, id, divisor),
{
    let pll = match id {
        PllId::Arm => regs.arm_pll_ctrl,
        PllId::Io => regs.io_pll_ctrl,
        PllId::Ddr => regs.ddr_pll_ctrl,
    };
    match validate_pll_state(id, pll, regs.pll_status) {
        Err(e) => return Err(e),
        Ok(()) => {},
    }
    match require_pll_output(pll_output(ps_clk_freq, pll)) {
        Err(e) => Err(e),
        Ok(out) => Ok(out.divided_by(divisor as u32)),
    }
}

fn handle_dual_io_clock(
    regs: &ClockControlRegisters,
    ps_clk_freq: Hertz,
    clk_ctrl: DualCommonPeriphIoClockControl,
    module_id: ClockModuleId,
) -> (r: Result<Hertz, ClockReadError>)
    requires
        regs.outputs_fit(ps_clk_freq.hz),
    ensures
        r == regs.peripheral(ps_clk_freq.hz, clk_ctrl, module_id),
{
    if clk_ctrl.divisor == 0 {
        return Err(ClockReadError::from(DivisorZero(module_id)));
    }
    let id = match clk_ctrl.srcsel {
        SrcSelIo::IoPll | SrcSelIo::IoPllAlt => PllId::Io,
        SrcSelIo::ArmPll => PllId::Arm,
        SrcSelIo::DdrPll => PllId::Ddr,
    };
    pll_clock(regs, ps_clk_freq, id, clk_ctrl.divisor)
}

/// Reads the clock tree off the clock control registers.
///
/// Where they are computed, the PLL outputs have to fit the frequency type: `outputs_fit`.
pub fn read_from_regs(regs: &ClockControlRegisters, ps_clk_freq: Hertz) -> (r: Result<
    Clocks,
    ClockReadError,
>)
    requires
        regs.arm_clk_ctrl.divisor != 0 ==> regs.outputs_fit(ps_clk_freq.hz),
    ensures
        r == regs.tree(ps_clk_freq.hz),
{
    if regs.arm_clk_ctrl.divisor == 0 {
        return Err(ClockReadError::from(DivisorZero(ClockModuleId::Arm)));
    }
    let arm_pll_clk = pll_output(ps_clk_freq, regs.arm_pll_ctrl);
    let io_pll_clk = pll_output(ps_clk_freq, regs.io_pll_ctrl);
    let ddr_pll_clk = pll_output(ps_clk_freq, regs.ddr_pll_ctrl);

    let arm_source = match regs.arm_clk_ctrl.srcsel {
        SrcSelArm::ArmPll | SrcSelArm::ArmPllAlt => PllId::Arm,
        SrcSelArm::DdrPll => PllId::Ddr,
        SrcSelArm::IoPll => PllId::Io,
    };
    let arm_clk_divided = match pll_clock(
        regs,
        ps_clk_freq,
        arm_source,
        regs.arm_clk_ctrl.divisor,
    ) {
        Err(e) => return Err(e),
        Ok(clk) => clk,
    };
    let arm_clocks = match regs.clk_ratio_select {
        CpuClockRatio::FourToTwoToOne => ArmClocks {
            cpu_1x_clk: arm_clk_divided.divided_by(4),
            cpu_3x2x_clk: arm_clk_divided.divided_by(2),
        },
        CpuClockRatio::SixToTwoToOne => ArmClocks {
            cpu_1x_clk: arm_clk_divided.divided_by(6),
            cpu_3x2x_clk: arm_clk_divided.divided_by(2),
        },
    };
    let sdio_clk = match handle_dual_io_clock(
        regs,
        ps_clk_freq,
        regs.sdio_clk_ctrl,
        ClockModuleId::Sdio,
    ) {
        Err(e) => return Err(e),
        Ok(clk) => clk,
    };
    let uart_clk = match handle_dual_io_clock(
        regs,
        ps_clk_freq,
        regs.uart_clk_ctrl,
        ClockModuleId::Uart,
    ) {
        Err(e) => return Err(e),
        Ok(clk) => clk,
    };
    let absent = Hertz::from_raw(0);
    Ok(
        Clocks {
            arm_clocks,
            io_clocks: IoClocks {
                io_pll_clk: match io_pll_clk {
                    Some(clk) => clk,
                    None => absent,
                },
                arm_pll_clk: match arm_pll_clk {
                    Some(clk) => clk,
                    None => absent,
                },
                ddr_pll_clk: match ddr_pll_clk {
                    Some(clk) => clk,
                    None => absent,
                },
                sdio_clk,
                uart_clk,
            },
        },
    )
}

/// A clock tree is only reported when every PLL that feeds one of its clocks is
/// running, locked and has a feedback divisor, and no divider is zero.
pub proof fn reported_tree_uses_active_plls_only(regs: ClockControlRegisters, ps_hz: u32)
    requires
        regs.tree(ps_hz) is Ok,
    ensures
        forall|id: PllId|
            (id == arm_pll(regs.arm_clk_ctrl.srcsel) || id == io_pll(regs.sdio_clk_ctrl.srcsel)
                || id == io_pll(regs.uart_clk_ctrl.srcsel)) ==> (#[trigger] regs.pll(id)).running()
                && regs.pll_status.locked(id) && regs.pll(id).fdiv != 0,
        regs.arm_clk_ctrl.divisor != 0,
        regs.sdio_clk_ctrl.divisor != 0,
        regs.uart_clk_ctrl.divisor != 0,
{
}

/// The CPU clock domains keep their order: 1x is never faster than 3x2x.
pub proof fn cpu_clock_domains_are_ordered(regs: ClockControlRegisters, ps_hz: u32)
    requires
        regs.tree(ps_hz) is Ok,
    ensures
        regs.tree(ps_hz)->Ok_0.arm_clocks.cpu_1x_clk.hz
            <= regs.tree(ps_hz)->Ok_0.arm_clocks.cpu_3x2x_clk.hz,
{
}

/// The clock tree that [`read_from_regs`] produced, frozen by the first value that is set.
#[derive(Debug, Clone, Copy, PartialEq, Eq, Structural)]
pub struct FrozenClocks {
    pub clocks: Option<Clocks>,
}

impl FrozenClocks {
    pub fn new() -> (r: Self)
        ensures
            r.clocks is None,
    {
        FrozenClocks { clocks: None }
    }

    /// Freezes `clocks`, unless a tree was frozen before.
    pub fn init(&mut self, clocks: Clocks)
        ensures
            final(self).clocks == match old(self).clocks {
                Some(c) => Some(c),
                None => Some(clocks),
            },
    {
        if self.clocks.is_none() {
            self.clocks = Some(clocks);
        }
    }

    /// The frozen tree. Calling this before [`FrozenClocks::init`] is a bug of the caller.
    pub fn get(&self) -> (r: &Clocks)
        requires
            self.clocks is Some,
        ensures
            self.clocks == Some(*r),
    {
        self.clocks.as_ref().unwrap()
    }
}

} // verus!
