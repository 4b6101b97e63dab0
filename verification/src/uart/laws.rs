//! What the accesses of a UART do to its registers.
use vstd::prelude::*;

use super::{
    await_rx_ops, clock_ops, configure_ops, enable_tx_ops, end_ops, fifo_ops, flush_ops, init_ops,
    initial_fill, quiet_ops, rejected_ops, reset_ops, rx_flags, service_ops, shutdown_ops, slcr_ops,
    tx_flags, write_head_ops, write_ops, ClaimedPins, Config, Control, ControlUpdate,
    InterruptFlags, Mode, UartError, UartId, UartOp,
};
use crate::slcr::laws::{reset_pulse_takes_effect, Slcr};
use crate::slcr::{AmbaClock, SlcrOp};

verus! {

impl InterruptFlags {
    pub open spec fn or(self, other: Self) -> Self {
        InterruptFlags {
            tx_over: self.tx_over || other.tx_over,
            tx_near_full: self.tx_near_full || other.tx_near_full,
            tx_trig: self.tx_trig || other.tx_trig,
            rx_dms: self.rx_dms || other.rx_dms,
            rx_timeout: self.rx_timeout || other.rx_timeout,
            rx_parity: self.rx_parity || other.rx_parity,
            rx_framing: self.rx_framing || other.rx_framing,
            rx_over: self.rx_over || other.rx_over,
            tx_full: self.tx_full || other.tx_full,
            tx_empty: self.tx_empty || other.tx_empty,
            rx_full: self.rx_full || other.rx_full,
            rx_empty: self.rx_empty || other.rx_empty,
            rx_trg: self.rx_trg || other.rx_trg,
        }
    }

    pub open spec fn without(self, other: Self) -> Self {
        InterruptFlags {
            tx_over: self.tx_over && !other.tx_over,
            tx_near_full: self.tx_near_full && !other.tx_near_full,
            tx_trig: self.tx_trig && !other.tx_trig,
            rx_dms: self.rx_dms && !other.rx_dms,
            rx_timeout: self.rx_timeout && !other.rx_timeout,
            rx_parity: self.rx_parity && !other.rx_parity,
            rx_framing: self.rx_framing && !other.rx_framing,
            rx_over: self.rx_over && !other.rx_over,
            tx_full: self.tx_full && !other.tx_full,
            tx_empty: self.tx_empty && !other.tx_empty,
            rx_full: self.rx_full && !other.rx_full,
            rx_empty: self.rx_empty && !other.rx_empty,
            rx_trg: self.rx_trg && !other.rx_trg,
        }
    }

    /// The sources of the transmitter are the same.
    pub open spec fn same_tx(self, other: Self) -> bool {
        &&& self.tx_over == other.tx_over
        &&& self.tx_near_full == other.tx_near_full
        &&& self.tx_trig == other.tx_trig
        &&& self.tx_full == other.tx_full
        &&& self.tx_empty == other.tx_empty
    }

    /// The sources of the receiver are the same.
    pub open spec fn same_rx(self, other: Self) -> bool {
        &&& self.rx_dms == other.rx_dms
        &&& self.rx_timeout == other.rx_timeout
        &&& self.rx_parity == other.rx_parity
        &&& self.rx_framing == other.rx_framing
        &&& self.rx_over == other.rx_over
        &&& self.rx_full == other.rx_full
        &&& self.rx_empty == other.rx_empty
        &&& self.rx_trg == other.rx_trg
    }

    /// What a transmission has to hear of: that the FIFO ran empty, and its overflow.
    pub open spec fn drives_tx(self) -> bool {
        self.tx_empty && self.tx_over && self.tx_full && self.tx_near_full
    }

    /// What a reception has to hear of: data, its end, and every error.
    pub open spec fn drives_rx(self) -> bool {
        self.rx_trg && self.rx_full && self.rx_timeout && self.rx_parity && self.rx_framing
            && self.rx_over
    }

    pub open spec fn no_tx(self) -> bool {
        !self.tx_over && !self.tx_near_full && !self.tx_full && !self.tx_empty
    }

    pub open spec fn no_rx(self) -> bool {
        !self.rx_timeout && !self.rx_parity && !self.rx_framing && !self.rx_over && !self.rx_full
            && !self.rx_trg
    }

    pub open spec fn nothing() -> Self {
        InterruptFlags {
            tx_over: false,
            tx_near_full: false,
            tx_trig: false,
            rx_dms: false,
            rx_timeout: false,
            rx_parity: false,
            rx_framing: false,
            rx_over: false,
            tx_full: false,
            tx_empty: false,
            rx_full: false,
            rx_empty: false,
            rx_trg: false,
        }
    }
}

impl Control {
    pub open spec fn transmits(self) -> bool {
        self.tx_en && !self.tx_dis
    }

    pub open spec fn receives(self) -> bool {
        self.rx_en && !self.rx_dis
    }
}

/// The registers of a UART and what its transmit FIFO was given.
pub struct Registers {
    pub control: Control,
    pub mode: Mode,
    pub baudgen: u16,
    pub baud_rate_div: u8,
    pub rx_trigger: u32,
    /// The interrupts that are let through.
    pub enabled: InterruptFlags,
    /// The interrupts that are flagged.
    pub flagged: InterruptFlags,
    /// The bytes given to the transmit FIFO since it was reset.
    pub queued: Seq<u8>,
}

impl Registers {
    pub open spec fn after(self, op: UartOp) -> Registers {
        match op {
            UartOp::ModifyControl(update) => {
                let control = update.applied(self.control);
                Registers {
                    control,
                    queued: if control.tx_rst && !self.control.tx_rst {
                        Seq::empty()
                    } else {
                        self.queued
                    },
                    ..self
                }
            },
            UartOp::WaitTxReset => Registers {
                control: Control { tx_rst: false, ..self.control },
                ..self
            },
            UartOp::WriteIer(flags) => Registers { enabled: self.enabled.or(flags), ..self },
            UartOp::WriteIdr(flags) => Registers { enabled: self.enabled.without(flags), ..self },
            UartOp::WriteIsr(flags) => Registers { flagged: self.flagged.without(flags), ..self },
            UartOp::WriteIdrRaw(raw) => if raw == 0xFFFF_FFFF {
                Registers { enabled: InterruptFlags::nothing(), ..self }
            } else {
                self
            },
            UartOp::WriteIsrRaw(raw) => if raw == 0xFFFF_FFFF {
                Registers { flagged: InterruptFlags::nothing(), ..self }
            } else {
                self
            },
            UartOp::WriteMode(mode) => Registers { mode, ..self },
            UartOp::WriteBaudgen(cd) => Registers { baudgen: cd, ..self },
            UartOp::WriteBaudRateDiv(bdiv) => Registers { baud_rate_div: bdiv, ..self },
            UartOp::WriteRxFifoTrigger(level) => Registers { rx_trigger: level, ..self },
            UartOp::WriteFifo(byte) => if self.control.transmits() {
                Registers { queued: self.queued.push(byte), ..self }
            } else {
                self
            },
            _ => self,
        }
    }

    /// The registers after the first `n` accesses.
    pub open spec fn after_first(self, ops: Seq<UartOp>, n: int) -> Registers
        decreases n,
    {
        if n <= 0 {
            self
        } else {
            self.after_first(ops, n - 1).after(ops[n - 1])
        }
    }

    pub open spec fn after_all(self, ops: Seq<UartOp>) -> Registers {
        self.after_first(ops, ops.len() as int)
    }
}

/// Two sequences in a row do what the second does after the first.
proof fn lemma_in_a_row(r: Registers, a: Seq<UartOp>, b: Seq<UartOp>, n: int)
    requires
        0 <= n <= b.len(),
    ensures
        r.after_first(a + b, a.len() + n) == r.after_all(a).after_first(b, n),
    decreases n,
{
    if n == 0 {
        lemma_same_front(r, a + b, a, a.len() as int);
    } else {
        lemma_in_a_row(r, a, b, n - 1);
        assert((a + b)[a.len() + n - 1] == b[n - 1]);
    }
}

proof fn lemma_same_front(r: Registers, a: Seq<UartOp>, b: Seq<UartOp>, n: int)
    requires
        n <= a.len(),
        n <= b.len(),
        forall|i: int| 0 <= i < n ==> a[i] == b[i],
    ensures
        r.after_first(a, n) == r.after_first(b, n),
    decreases n,
{
    if n > 0 {
        lemma_same_front(r, a, b, n - 1);
    }
}

/// The system-level registers after the first `n` accesses.
pub open spec fn slcr_after_first(s: Slcr, ops: Seq<UartOp>, n: int) -> Slcr
    decreases n,
{
    if n <= 0 {
        s
    } else {
        match ops[n - 1] {
            UartOp::Slcr(op) => slcr_after_first(s, ops, n - 1).after(op),
            _ => slcr_after_first(s, ops, n - 1),
        }
    }
}

pub open spec fn slcr_after_all(s: Slcr, ops: Seq<UartOp>) -> Slcr {
    slcr_after_first(s, ops, ops.len() as int)
}

proof fn lemma_slcr_in_a_row(s: Slcr, a: Seq<UartOp>, b: Seq<UartOp>, n: int)
    requires
        -a.len() <= n <= b.len(),
    ensures
        n >= 0 ==> slcr_after_first(s, a + b, a.len() + n) == slcr_after_first(
            slcr_after_all(s, a),
            b,
            n,
        ),
        n <= 0 ==> slcr_after_first(s, a + b, a.len() + n) == slcr_after_first(s, a, a.len() + n),
    decreases a.len() + n,
{
    if a.len() + n > 0 {
        lemma_slcr_in_a_row(s, a, b, n - 1);
        if n > 0 {
            assert((a + b)[a.len() + n - 1] == b[n - 1]);
        } else {
            assert((a + b)[a.len() + n - 1] == a[a.len() + n - 1]);
        }
    }
}

proof fn lemma_slcr_untouched(s: Slcr, ops: Seq<UartOp>, n: int)
    requires
        n <= ops.len(),
        forall|i: int| 0 <= i < n ==> !(#[trigger] ops[i] is Slcr),
    ensures
        slcr_after_first(s, ops, n) == s,
    decreases n,
{
    if n > 0 {
        lemma_slcr_untouched(s, ops, n - 1);
    }
}

proof fn lemma_slcr_ops(r: Registers, s: Slcr, ops: Seq<SlcrOp>, n: int)
    requires
        n <= ops.len(),
    ensures
        r.after_first(slcr_ops(ops), n) == r,
        slcr_after_first(s, slcr_ops(ops), n) == s.after_first(ops, n),
    decreases n,
{
    if n > 0 {
        lemma_slcr_ops(r, s, ops, n - 1);
    }
}

/// Configuring a UART takes over the whole configuration and turns both directions on, with
/// every interrupt off. Until the last access both directions stay off, so that neither
/// runs with another mode, baud rate or trigger level.
#[verifier::rlimit(40)]
pub proof fn configured_uart_runs_both_directions(r: Registers, cfg: Config)
    ensures
        ({
            let after = r.after_all(configure_ops(cfg));
            &&& after.control.transmits()
            &&& after.control.receives()
            &&& after.mode.chmode == cfg.chmode
            &&& after.mode.nbstop == cfg.stopbits
            &&& after.mode.par == cfg.parity
            &&& after.mode.chrl == cfg.chrl
            &&& after.mode.clksel == cfg.clk_sel
            &&& after.baudgen == cfg.clk_config.cd
            &&& after.baud_rate_div == cfg.clk_config.bdiv
            &&& after.rx_trigger == 1
            &&& after.enabled == InterruptFlags::nothing()
        }),
        forall|n: int|
            1 <= n < configure_ops(cfg).len() ==> {
                let during = #[trigger] r.after_first(configure_ops(cfg), n);
                during.control.tx_dis && during.control.rx_dis
            },
{
    let ops = configure_ops(cfg);
    let r1 = r.after(ops[0]);
    let r2 = r1.after(ops[1]);
    let r3 = r2.after(ops[2]);
    let r4 = r3.after(ops[3]);
    let r5 = r4.after(ops[4]);
    let r6 = r5.after(ops[5]);
    let r7 = r6.after(ops[6]);
    assert(ops.len() == 8);
    assert(r1 == Registers {
        control: Control { tx_dis: true, rx_dis: true, ..r.control },
        queued: r1.queued,
        ..r
    });
    assert(r2 == Registers { enabled: InterruptFlags::nothing(), ..r1 });
    assert(r3 == Registers { mode: r3.mode, ..r2 });
    assert(r4 == Registers { baudgen: cfg.clk_config.cd, ..r3 });
    assert(r5 == Registers { baud_rate_div: cfg.clk_config.bdiv, ..r4 });
    assert(r6 == Registers {
        control: Control { tx_rst: true, rx_rst: true, ..r5.control },
        queued: r6.queued,
        ..r5
    });
    assert(r7 == Registers { rx_trigger: 1, ..r6 });
    assert(r.after_first(ops, 0) == r);
    assert(r.after_first(ops, 1) == r1);
    assert(r.after_first(ops, 2) == r2);
    assert(r.after_first(ops, 3) == r3);
    assert(r.after_first(ops, 4) == r4);
    assert(r.after_first(ops, 5) == r5);
    assert(r.after_first(ops, 6) == r6);
    assert(r.after_first(ops, 7) == r7);
    assert(r.after_first(ops, 8) == r7.after(ops[7]));
    assert forall|n: int| 1 <= n < ops.len() implies ({
        let during = #[trigger] r.after_first(ops, n);
        during.control.tx_dis && during.control.rx_dis
    }) by {
        assert(n == 1 || n == 2 || n == 3 || n == 4 || n == 5 || n == 6 || n == 7);
    }
}

/// The reset of one UART holds its own lines for some cycles and no other ones, and then
/// releases all.
proof fn lemma_reset_is_a_pulse(s: Slcr, id: UartId)
    requires
        s.uart_reset.released(),
    ensures
        ({
            let after = s.after_all(reset_ops(id));
            &&& !after.unlocked
            &&& after.uart_reset.released()
            &&& after.uart_held.periph0_ref_rst == (s.uart_held.periph0_ref_rst || id is Uart0)
            &&& after.uart_held.periph0_cpu1x_rst == (s.uart_held.periph0_cpu1x_rst || id is Uart0)
            &&& after.uart_held.periph1_ref_rst == (s.uart_held.periph1_ref_rst || id is Uart1)
            &&& after.uart_held.periph1_cpu1x_rst == (s.uart_held.periph1_cpu1x_rst || id is Uart1)
            &&& after.amba == s.amba
            &&& after.uart_clocks == s.uart_clocks
        }),
{
    let lines = super::reset_lines(id);
    let idle = super::no_reset();
    reset_pulse_takes_effect(
        s,
        SlcrOp::WriteUartReset(lines),
        super::RESET_CYCLES,
        SlcrOp::WriteUartReset(idle),
    );
    assert(super::RESET_CYCLES > 0);
    let asserted = Slcr { unlocked: true, ..s }.changed(SlcrOp::WriteUartReset(lines));
    let held = asserted.after(SlcrOp::Nops(super::RESET_CYCLES));
    assert(held.uart_held == s.uart_held.or(lines));
}

proof fn lemma_clocks_are_on(s: Slcr, id: UartId)
    ensures
        ({
            let after = s.after_all(clock_ops(id));
            &&& !after.unlocked
            &&& after.amba == s.amba.insert(AmbaClock::Uart(id))
            &&& after.uart_clocks == s.uart_clocks.insert(id)
            &&& after.uart_reset == s.uart_reset
            &&& after.uart_held == s.uart_held
        }),
{
    let ops = clock_ops(id);
    let s1 = s.after(ops[0]);
    let s2 = s1.after(ops[1]);
    let s3 = s2.after(ops[2]);
    assert(s.after_first(ops, 0) == s);
    assert(s.after_first(ops, 1) == s1);
    assert(s.after_first(ops, 2) == s2);
    assert(s.after_first(ops, 3) == s3);
    assert(s.after_first(ops, 4) == s3.after(ops[3]));
}

/// Bringing a UART up leaves it configured and running in both directions.
pub proof fn brought_up_uart_runs(r: Registers, id: UartId, cfg: Config)
    ensures
        ({
            let after = r.after_all(init_ops(id, cfg));
            &&& after.control.transmits()
            &&& after.control.receives()
            &&& after.mode.chmode == cfg.chmode
            &&& after.mode.nbstop == cfg.stopbits
            &&& after.mode.par == cfg.parity
            &&& after.mode.chrl == cfg.chrl
            &&& after.mode.clksel == cfg.clk_sel
            &&& after.baudgen == cfg.clk_config.cd
            &&& after.baud_rate_div == cfg.clk_config.bdiv
            &&& after.rx_trigger == 1
            &&& after.enabled == InterruptFlags::nothing()
        }),
{
    let clock = slcr_ops(clock_ops(id));
    let reset = slcr_ops(reset_ops(id));
    let configure = configure_ops(cfg);
    let s = arbitrary::<Slcr>();
    lemma_in_a_row(r, clock + reset, configure, configure.len() as int);
    lemma_in_a_row(r, clock, reset, reset.len() as int);
    lemma_slcr_ops(r, s, clock_ops(id), clock_ops(id).len() as int);
    lemma_slcr_ops(r, s, reset_ops(id), reset_ops(id).len() as int);
    configured_uart_runs_both_directions(r, cfg);
}

/// Bringing a UART up ungates its own clocks, and resets it and not the other one. The
/// system-level registers end locked.
pub proof fn brought_up_uart_is_clocked_and_reset(s: Slcr, id: UartId, cfg: Config)
    requires
        s.uart_reset.released(),
    ensures
        ({
            let after = slcr_after_all(s, init_ops(id, cfg));
            &&& !after.unlocked
            &&& after.amba == s.amba.insert(AmbaClock::Uart(id))
            &&& after.uart_clocks == s.uart_clocks.insert(id)
            &&& after.uart_reset.released()
            &&& after.uart_held.periph0_ref_rst == (s.uart_held.periph0_ref_rst || id is Uart0)
            &&& after.uart_held.periph0_cpu1x_rst == (s.uart_held.periph0_cpu1x_rst || id is Uart0)
            &&& after.uart_held.periph1_ref_rst == (s.uart_held.periph1_ref_rst || id is Uart1)
            &&& after.uart_held.periph1_cpu1x_rst == (s.uart_held.periph1_cpu1x_rst || id is Uart1)
        }),
{
    let clock = slcr_ops(clock_ops(id));
    let reset = slcr_ops(reset_ops(id));
    let configure = configure_ops(cfg);
    let r = arbitrary::<Registers>();
    lemma_slcr_in_a_row(s, clock + reset, configure, configure.len() as int);
    lemma_slcr_in_a_row(s, clock, reset, reset.len() as int);
    lemma_slcr_ops(r, s, clock_ops(id), clock_ops(id).len() as int);
    lemma_clocks_are_on(s, id);
    let clocked = s.after_all(clock_ops(id));
    lemma_slcr_ops(r, clocked, reset_ops(id), reset_ops(id).len() as int);
    lemma_reset_is_a_pulse(clocked, id);
    lemma_slcr_untouched(slcr_after_all(s, clock + reset), configure, configure.len() as int);
}

/// The last half that is dropped leaves the UART silent: no interrupt on or flagged.
pub proof fn shut_down_begins_silent(r: Registers, id: UartId, claimed: ClaimedPins)
    ensures
        shutdown_ops(id, claimed).len() >= 2,
        r.after_first(shutdown_ops(id, claimed), 2).enabled == InterruptFlags::nothing(),
        r.after_first(shutdown_ops(id, claimed), 2).flagged == InterruptFlags::nothing(),
{
    reveal_with_fuel(Registers::after_first, 3);
}

/// Turning the transmitter on leaves it running out of reset, drops what was queued
/// exactly where a reset was asked for, and leaves the receiver as it was.
pub proof fn enabled_transmitter_runs(r: Registers, with_reset: bool)
    requires
        !r.control.tx_rst,
    ensures
        ({
            let after = r.after_all(enable_tx_ops(with_reset));
            &&& after.control.transmits()
            &&& !after.control.tx_rst
            &&& after.queued == (if with_reset {
                Seq::<u8>::empty()
            } else {
                r.queued
            })
            &&& after.control.rx_en == r.control.rx_en
            &&& after.control.rx_dis == r.control.rx_dis
            &&& after.enabled == r.enabled
        }),
        !ControlUpdate::DisableTx.applied(r.control).transmits(),
        ControlUpdate::DisableTx.applied(r.control).tx_dis,
        ControlUpdate::DisableTx.applied(r.control).receives() == r.control.receives(),
        ControlUpdate::ResetTx.applied(r.control).tx_rst,
        !ControlUpdate::ResetTx.applied(r.control).rx_rst || r.control.rx_rst,
{
    reveal_with_fuel(Registers::after_first, 4);
    if with_reset {
        assert(enable_tx_ops(with_reset).len() == 3);
    } else {
        assert(enable_tx_ops(with_reset).len() == 1);
    }
}

proof fn lemma_bytes_are_queued(r: Registers, data: Seq<u8>, n: int)
    requires
        r.control.transmits(),
        0 <= n <= data.len(),
    ensures
        r.after_first(fifo_ops(data), n) == (Registers { queued: r.queued + data.take(n), ..r }),
    decreases n,
{
    if n > 0 {
        lemma_bytes_are_queued(r, data, n - 1);
        assert((r.queued + data.take(n - 1)).push(data[n - 1]) =~= r.queued + data.take(n));
    } else {
        assert(r.queued + data.take(0) =~= r.queued);
    }
}

/// Starting a transmission queues the first bytes of the data and nothing else, as many as
/// the FIFO of sixty-four takes, with the transmitter running. Its interrupts are on, and
/// the receiver and its interrupts are as they were.
pub proof fn started_transmission_queues_the_data(r: Registers, data: Seq<u8>)
    requires
        !r.control.tx_rst,
    ensures
        ({
            let after = r.after_all(write_ops(data));
            &&& after.control.transmits()
            &&& !after.control.tx_rst
            &&& after.queued == (if data.len() < 64 {
                data
            } else {
                data.take(64)
            })
            &&& after.enabled.drives_tx()
            &&& after.enabled.same_rx(r.enabled)
            &&& after.control.rx_en == r.control.rx_en
            &&& after.control.rx_dis == r.control.rx_dis
        }),
{
    let head = write_head_ops();
    let front = data.take(initial_fill(data.len()) as int);
    let fifo = fifo_ops(front);
    let end = seq![UartOp::WriteIer(tx_flags())];
    assert(write_ops(data) == head + fifo + end);
    let r1 = r.after(head[0]);
    let r2 = r1.after(head[1]);
    let r3 = r2.after(head[2]);
    let r4 = r3.after(head[3]);
    let started = r.after_all(head);
    assert(r1 == Registers { enabled: r.enabled.without(tx_flags()), ..r });
    assert(r2 == Registers { control: r2.control, ..r1 });
    assert(r3 == Registers {
        control: Control { tx_rst: true, ..r2.control },
        queued: Seq::empty(),
        ..r2
    });
    assert(r4 == Registers { control: Control { tx_rst: false, ..r3.control }, ..r3 });
    assert(r.after_first(head, 0) == r);
    assert(r.after_first(head, 1) == r1);
    assert(r.after_first(head, 2) == r2);
    assert(r.after_first(head, 3) == r3);
    assert(r.after_first(head, 4) == r4);
    assert(started == r4.after(head[4]));
    assert(started.control.transmits() && started.queued == Seq::<u8>::empty());
    lemma_in_a_row(r, head, fifo, fifo.len() as int);
    lemma_bytes_are_queued(started, front, front.len() as int);
    lemma_in_a_row(r, head + fifo, end, 1);
    let filled = r.after_all(head + fifo);
    assert(filled.queued =~= front);
    lemma_one(filled, end);
    assert(r.after_all(write_ops(data)) == filled.after(UartOp::WriteIer(tx_flags())));
    if data.len() < 64 {
        assert(front =~= data);
    }
}

/// A flush and a reception let the interrupts of their own direction through.
pub proof fn waiting_hears_its_own_direction(r: Registers)
    ensures
        r.after_all(flush_ops()).enabled.drives_tx(),
        r.after_all(flush_ops()).enabled.same_rx(r.enabled),
        r.after_all(flush_ops()).flagged.same_rx(r.flagged),
        r.after_all(flush_ops()).control == r.control,
        r.after_all(await_rx_ops()).enabled.drives_rx(),
        r.after_all(await_rx_ops()).enabled.same_tx(r.enabled),
        r.after_all(await_rx_ops()).flagged == r.flagged,
        r.after_all(await_rx_ops()).control == r.control,
{
    reveal_with_fuel(Registers::after_first, 3);
}

proof fn lemma_one(r: Registers, ops: Seq<UartOp>)
    requires
        ops.len() == 1,
    ensures
        r.after_all(ops) == r.after(ops[0]),
{
    assert(r.after_first(ops, 0) == r);
}

proof fn lemma_two(r: Registers, ops: Seq<UartOp>)
    requires
        ops.len() == 2,
    ensures
        r.after_all(ops) == r.after(ops[0]).after(ops[1]),
{
    assert(r.after_first(ops, 0) == r);
    assert(r.after_first(ops, 1) == r.after(ops[0]));
}

/// What the accesses that end or service an interrupt of a direction come to.
proof fn lemma_flags_are_taken_away(r: Registers, f: InterruptFlags)
    ensures
        r.after_all(end_ops(f)) == (Registers {
            enabled: r.enabled.without(f),
            flagged: r.flagged.without(f),
            ..r
        }),
        r.after_all(quiet_ops(f)) == r.after_all(end_ops(f)),
        r.after_all(service_ops(f, true)) == r.after_all(end_ops(f)),
        r.after_all(service_ops(f, false)) == (Registers { flagged: r.flagged.without(f), ..r }),
{
    let cleared = Registers { flagged: r.flagged.without(f), ..r };
    let masked = Registers { enabled: r.enabled.without(f), ..r };
    assert(r.after(UartOp::WriteIsr(f)) == cleared);
    assert(r.after(UartOp::WriteIdr(f)) == masked);
    assert(cleared.after(UartOp::WriteIdr(f)) == masked.after(UartOp::WriteIsr(f)));
    lemma_two(r, end_ops(f));
    lemma_two(r, quiet_ops(f));
    lemma_two(r, service_ops(f, true));
    lemma_one(r, service_ops(f, false));
}

/// A transmission that is over hears and has flagged nothing of its own, and leaves the
/// receiver alone.
pub proof fn ended_transmission_is_silent(r: Registers)
    ensures
        r.after_all(end_ops(tx_flags())).enabled.no_tx(),
        r.after_all(end_ops(tx_flags())).flagged.no_tx(),
        r.after_all(end_ops(tx_flags())).enabled.same_rx(r.enabled),
        r.after_all(end_ops(tx_flags())).flagged.same_rx(r.flagged),
        r.after_all(quiet_ops(tx_flags())) == r.after_all(end_ops(tx_flags())),
{
    lemma_flags_are_taken_away(r, tx_flags());
}

/// A reception that is over hears and has flagged nothing of its own, and leaves the
/// transmitter alone.
pub proof fn ended_reception_is_silent(r: Registers)
    ensures
        r.after_all(end_ops(rx_flags())).enabled.no_rx(),
        r.after_all(end_ops(rx_flags())).flagged.no_rx(),
        r.after_all(end_ops(rx_flags())).enabled.same_tx(r.enabled),
        r.after_all(end_ops(rx_flags())).flagged.same_tx(r.flagged),
        r.after_all(quiet_ops(rx_flags())) == r.after_all(end_ops(rx_flags())),
{
    lemma_flags_are_taken_away(r, rx_flags());
}

/// A reception that an error ends is as silent as one that ended well.
pub proof fn rejected_reception_is_silent(r: Registers)
    ensures
        r.after_all(rejected_ops()) == r.after_all(end_ops(rx_flags())),
{
    lemma_flags_are_taken_away(r, rx_flags());
    let ops = rejected_ops();
    let r1 = r.after(ops[0]);
    let r2 = r1.after(ops[1]);
    assert(r1 == Registers { flagged: r.flagged.without(rx_flags()), ..r });
    assert(r2 == Registers { enabled: r.enabled.without(rx_flags()), ..r1 });
    assert(r2.after(ops[2]) == r2) by {
        assert(r1.flagged.without(rx_flags()) == r1.flagged);
    }
    assert(r.after_first(ops, 0) == r);
    assert(r.after_first(ops, 1) == r1);
    assert(r.after_first(ops, 2) == r2);
    assert(r.after_first(ops, 3) == r2);
}

/// A transmit interrupt that is serviced is acknowledged, and masked exactly where the
/// transmission is done. The receiver is left alone.
pub proof fn serviced_transmit_interrupt_is_acknowledged(r: Registers)
    ensures
        r.after_all(service_ops(tx_flags(), false)).flagged.no_tx(),
        r.after_all(service_ops(tx_flags(), false)).flagged.same_rx(r.flagged),
        r.after_all(service_ops(tx_flags(), false)).enabled == r.enabled,
        r.after_all(service_ops(tx_flags(), true)) == r.after_all(end_ops(tx_flags())),
{
    lemma_flags_are_taken_away(r, tx_flags());
}

/// A receive interrupt that is serviced is acknowledged, and masked exactly where the
/// reception is done. The transmitter is left alone.
pub proof fn serviced_receive_interrupt_is_acknowledged(r: Registers)
    ensures
        r.after_all(service_ops(rx_flags(), false)).flagged.no_rx(),
        r.after_all(service_ops(rx_flags(), false)).flagged.same_tx(r.flagged),
        r.after_all(service_ops(rx_flags(), false)).enabled == r.enabled,
        r.after_all(service_ops(rx_flags(), true)) == r.after_all(end_ops(rx_flags())),
{
    lemma_flags_are_taken_away(r, rx_flags());
}

/// A receive error is reported exactly where one is flagged, and the one that is reported
/// is flagged: parity before framing before overrun.
pub proof fn receive_errors_are_the_flagged_ones(isr: InterruptFlags)
    ensures
        isr.rx_error() is None <==> !isr.rx_parity && !isr.rx_framing && !isr.rx_over,
        isr.rx_error() == Some(UartError::Parity) <==> isr.rx_parity,
        isr.rx_error() == Some(UartError::Framing) <==> isr.rx_framing && !isr.rx_parity,
        isr.rx_error() == Some(UartError::Overrun) <==> isr.rx_over && !isr.rx_framing
            && !isr.rx_parity,
{
}

} // verus!
