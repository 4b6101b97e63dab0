//! How the clocks that are read follow from the registers.
use vstd::prelude::*;

use super::{
    Bypass, ClockControlRegisters, ClockModuleId, ClockReadError, Clocks, CpuClockRatio,
    DivisorZero, PllControl, PllId, SrcSelArm, SrcSelIo,
};

verus! {

/// The PLL that a peripheral clock is taken from, and whether it is locked.
pub open spec fn io_source(regs: ClockControlRegisters, srcsel: SrcSelIo) -> (PllControl, bool) {
    match srcsel {
        SrcSelIo::IoPll => (regs.io_pll_ctrl, regs.pll_status.io_pll_lock),
        SrcSelIo::IoPllAlt => (regs.io_pll_ctrl, regs.pll_status.io_pll_lock),
        SrcSelIo::ArmPll => (regs.arm_pll_ctrl, regs.pll_status.arm_pll_lock),
        SrcSelIo::DdrPll => (regs.ddr_pll_ctrl, regs.pll_status.ddr_pll_lock),
    }
}

/// The PLL that the processor clock is taken from, and whether it is locked.
pub open spec fn arm_source(regs: ClockControlRegisters) -> (PllControl, bool) {
    match regs.arm_clk_ctrl.srcsel {
        SrcSelArm::ArmPll => (regs.arm_pll_ctrl, regs.pll_status.arm_pll_lock),
        SrcSelArm::ArmPllAlt => (regs.arm_pll_ctrl, regs.pll_status.arm_pll_lock),
        SrcSelArm::DdrPll => (regs.ddr_pll_ctrl, regs.pll_status.ddr_pll_lock),
        SrcSelArm::IoPll => (regs.io_pll_ctrl, regs.pll_status.io_pll_lock),
    }
}

/// A PLL that puts out a clock: powered, out of reset, not bypassed and locked.
pub open spec fn active(source: (PllControl, bool)) -> bool {
    !source.0.pwrdwn && !source.0.reset && source.0.bypass == Bypass::NotBypassed && source.1
}

/// A clock of `hz` is the `n`th part of `whole`, rounded down.
pub open spec fn is_part(hz: u32, n: int, whole: int) -> bool {
    hz * n <= whole < (hz + 1) * n
}

proof fn lemma_division(x: u32, d: u32)
    requires
        d > 0,
    ensures
        (x / d) * d <= x < (x / d + 1) * d,
{
    let q = x as int / d as int;
    vstd::arithmetic::div_mod::lemma_fundamental_div_mod(x as int, d as int);
    vstd::arithmetic::div_mod::lemma_mod_bound(x as int, d as int);
    assert(q * d <= x < (q + 1) * d) by (nonlinear_arith)
        requires
            x == d * q + x as int % d as int,
            0 <= x as int % d as int,
            x as int % (d as int) < d,
    ;
}

proof fn lemma_divided_twice(x: u32, d: u32, e: u32)
    requires
        d > 0,
        e > 0,
    ensures
        is_part((x / d) / e, d * e, x as int),
{
    lemma_division(x, d);
    let q = x / d;
    lemma_division(q, e);
    let r = q / e;
    assert(r * (d * e) <= q * d) by (nonlinear_arith)
        requires
            r * e <= q,
            d > 0,
    ;
    assert((q + 1) * d <= (r + 1) * (d * e)) by (nonlinear_arith)
        requires
            q + 1 <= (r + 1) * e,
            d > 0,
    ;
}

/// Each clock that is read is its part of what its own PLL puts out, which is the crystal
/// times the feedback divider of that PLL. The processor clocks stand in the ratio that is
/// selected.
pub proof fn clocks_are_parts_of_their_pll(regs: ClockControlRegisters, ps_hz: u32)
    requires
        regs.tree(ps_hz) is Ok,
        regs.outputs_fit(ps_hz),
    ensures
        ({
            let clocks = regs.tree(ps_hz)->Ok_0;
            let arm = ps_hz * arm_source(regs).0.fdiv;
            let sdio = ps_hz * io_source(regs, regs.sdio_clk_ctrl.srcsel).0.fdiv;
            let uart = ps_hz * io_source(regs, regs.uart_clk_ctrl.srcsel).0.fdiv;
            let ratio: int = match regs.clk_ratio_select {
                CpuClockRatio::FourToTwoToOne => 4,
                CpuClockRatio::SixToTwoToOne => 6,
            };
            &&& is_part(clocks.io_clocks.sdio_clk.hz, regs.sdio_clk_ctrl.divisor as int, sdio)
            &&& is_part(clocks.io_clocks.uart_clk.hz, regs.uart_clk_ctrl.divisor as int, uart)
            &&& is_part(
                clocks.arm_clocks.cpu_1x_clk.hz,
                regs.arm_clk_ctrl.divisor * ratio,
                arm,
            )
            &&& is_part(clocks.arm_clocks.cpu_3x2x_clk.hz, regs.arm_clk_ctrl.divisor * 2, arm)
            &&& clocks.io_clocks.io_pll_clk.hz == ps_hz * regs.io_pll_ctrl.fdiv
            &&& clocks.io_clocks.arm_pll_clk.hz == ps_hz * regs.arm_pll_ctrl.fdiv
            &&& clocks.io_clocks.ddr_pll_clk.hz == ps_hz * regs.ddr_pll_ctrl.fdiv
        }),
{
    let arm = (ps_hz * arm_source(regs).0.fdiv) as u32;
    let sdio = (ps_hz * io_source(regs, regs.sdio_clk_ctrl.srcsel).0.fdiv) as u32;
    let uart = (ps_hz * io_source(regs, regs.uart_clk_ctrl.srcsel).0.fdiv) as u32;
    assert(ps_hz * regs.io_pll_ctrl.fdiv >= 0 && ps_hz * regs.arm_pll_ctrl.fdiv >= 0 && ps_hz
        * regs.ddr_pll_ctrl.fdiv >= 0) by (nonlinear_arith);
    assert(ps_hz * 0 == 0);
    lemma_division(sdio, regs.sdio_clk_ctrl.divisor as u32);
    lemma_division(uart, regs.uart_clk_ctrl.divisor as u32);
    lemma_divided_twice(arm, regs.arm_clk_ctrl.divisor as u32, 2);
    lemma_divided_twice(arm, regs.arm_clk_ctrl.divisor as u32, 4);
    lemma_divided_twice(arm, regs.arm_clk_ctrl.divisor as u32, 6);
}

/// The clocks are read exactly where every divisor is set and every PLL in use is active and
/// has its feedback divider set.
pub proof fn clocks_are_read_from_active_plls(regs: ClockControlRegisters, ps_hz: u32)
    ensures
        ({
            let arm = arm_source(regs);
            let sdio = io_source(regs, regs.sdio_clk_ctrl.srcsel);
            let uart = io_source(regs, regs.uart_clk_ctrl.srcsel);
            regs.tree(ps_hz) is Ok <==> {
                &&& regs.arm_clk_ctrl.divisor != 0 && active(arm) && arm.0.fdiv != 0
                &&& regs.sdio_clk_ctrl.divisor != 0 && active(sdio) && sdio.0.fdiv != 0
                &&& regs.uart_clk_ctrl.divisor != 0 && active(uart) && uart.0.fdiv != 0
            }
        }),
{
}

/// A fault that is reported is there: the divisor of that module is zero, that PLL is in use
/// and not active, or the feedback divider of a PLL in use is zero. A fault of the processor
/// clock goes before those of the peripherals.
pub proof fn reported_clock_fault_is_there(regs: ClockControlRegisters, ps_hz: u32)
    ensures
        ({
            let arm = arm_source(regs);
            let sdio = io_source(regs, regs.sdio_clk_ctrl.srcsel);
            let uart = io_source(regs, regs.uart_clk_ctrl.srcsel);
            &&& regs.tree(ps_hz) matches Err(e) ==> match e {
                ClockReadError::DivisorZero(DivisorZero(ClockModuleId::Arm)) =>
                    regs.arm_clk_ctrl.divisor == 0,
                ClockReadError::DivisorZero(DivisorZero(ClockModuleId::Sdio)) =>
                    regs.sdio_clk_ctrl.divisor == 0,
                ClockReadError::DivisorZero(DivisorZero(ClockModuleId::Uart)) =>
                    regs.uart_clk_ctrl.divisor == 0,
                ClockReadError::InactivePll(PllId::Arm) => !active(
                    (regs.arm_pll_ctrl, regs.pll_status.arm_pll_lock),
                ),
                ClockReadError::InactivePll(PllId::Io) => !active(
                    (regs.io_pll_ctrl, regs.pll_status.io_pll_lock),
                ),
                ClockReadError::InactivePll(PllId::Ddr) => !active(
                    (regs.ddr_pll_ctrl, regs.pll_status.ddr_pll_lock),
                ),
                ClockReadError::PllFeedbackZero => arm.0.fdiv == 0 || sdio.0.fdiv == 0
                    || uart.0.fdiv == 0,
            }
            &&& regs.arm_clk_ctrl.divisor == 0 ==> regs.tree(ps_hz) == Err::<Clocks, ClockReadError>(
                ClockReadError::DivisorZero(DivisorZero(ClockModuleId::Arm)),
            )
            &&& regs.arm_clk_ctrl.divisor != 0 && !active(arm) ==> regs.tree(ps_hz) matches Err(
                ClockReadError::InactivePll(_),
            )
        }),
{
}

} // verus!
