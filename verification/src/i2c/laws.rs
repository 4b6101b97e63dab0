//! What the accesses of a transfer do to a controller.
use vstd::prelude::*;

use super::{
    async_fault, async_read_ops, async_write_setup_ops, async_write_start_ops, bus_clock,
    blocking_read_finish_ops, blocking_read_ops, blocking_write_finish_ops, blocking_write_ops,
    cancel_ops, configure_read_ops, fill_count, finish_ops, initial_control, rx_fault, tx_fault,
    Config, Control, I2cAsyncContext, I2cError, I2cOp, I2cRxError, I2cTxError, InterruptStatus,
    NoAcknowledgeSource, TxCheck,
};

verus! {

/// The registers of a controller, as far as transfers depend on them.
pub struct Registers {
    pub control: Control,
    pub transfer_size: u32,
    pub enabled: InterruptStatus,
    /// The transfer that the address started last: the address, and the control
    /// register and transfer size at that time.
    pub started: Option<(u8, Control, u32)>,
}

impl Registers {
    pub open spec fn after(self, op: I2cOp) -> Registers {
        match op {
            I2cOp::WriteControl(control) => Registers { control, ..self },
            I2cOp::ModifyControl(update) => Registers {
                control: update.applied(self.control),
                ..self
            },
            I2cOp::WriteAddress(address) => Registers {
                started: Some((address, self.control, self.transfer_size)),
                ..self
            },
            I2cOp::WriteTransferSize(size) => Registers { transfer_size: size, ..self },
            I2cOp::DisableInterrupts(mask) => Registers {
                enabled: InterruptStatus {
                    arbitration_lost: self.enabled.arbitration_lost && !mask.arbitration_lost,
                    rx_underflow: self.enabled.rx_underflow && !mask.rx_underflow,
                    tx_overflow: self.enabled.tx_overflow && !mask.tx_overflow,
                    rx_overflow: self.enabled.rx_overflow && !mask.rx_overflow,
                    slave_ready: self.enabled.slave_ready && !mask.slave_ready,
                    timeout: self.enabled.timeout && !mask.timeout,
                    nack: self.enabled.nack && !mask.nack,
                    data: self.enabled.data && !mask.data,
                    complete: self.enabled.complete && !mask.complete,
                },
                ..self
            },
            I2cOp::EnableInterrupts(mask) => Registers {
                enabled: InterruptStatus {
                    arbitration_lost: self.enabled.arbitration_lost || mask.arbitration_lost,
                    rx_underflow: self.enabled.rx_underflow || mask.rx_underflow,
                    tx_overflow: self.enabled.tx_overflow || mask.tx_overflow,
                    rx_overflow: self.enabled.rx_overflow || mask.rx_overflow,
                    slave_ready: self.enabled.slave_ready || mask.slave_ready,
                    timeout: self.enabled.timeout || mask.timeout,
                    nack: self.enabled.nack || mask.nack,
                    data: self.enabled.data || mask.data,
                    complete: self.enabled.complete || mask.complete,
                },
                ..self
            },
            _ => self,
        }
    }

    /// The registers after the first `n` accesses.
    pub open spec fn after_first(self, ops: Seq<I2cOp>, n: int) -> Registers
        decreases n,
    {
        if n <= 0 {
            self
        } else {
            self.after_first(ops, n - 1).after(ops[n - 1])
        }
    }

    pub open spec fn after_all(self, ops: Seq<I2cOp>) -> Registers {
        self.after_first(ops, ops.len() as int)
    }

    /// No interrupt is let through.
    pub open spec fn quiet(self) -> bool {
        &&& !self.enabled.arbitration_lost
        &&& !self.enabled.rx_underflow
        &&& !self.enabled.tx_overflow
        &&& !self.enabled.rx_overflow
        &&& !self.enabled.slave_ready
        &&& !self.enabled.timeout
        &&& !self.enabled.nack
        &&& !self.enabled.data
        &&& !self.enabled.complete
    }
}

/// What no transfer changes: the bus clock and the kind of addresses.
pub open spec fn same_bus_set_up(a: Control, b: Control) -> bool {
    a.div_a == b.div_a && a.div_b == b.div_b && a.addressing == b.addressing && a.slv_mon
        == b.slv_mon
}

/// The address started a reception of `len` bytes by a master that acknowledges them. The
/// bus is kept where no stop is asked for, where the bytes do not fit the FIFO of
/// sixteen, and where it was kept before.
pub open spec fn starts_reception(
    before: Registers,
    after: Registers,
    address: u8,
    len: usize,
    generate_stop: bool,
) -> bool {
    &&& after.started matches Some((to, control, size)) && {
        &&& to == address
        &&& size == len
        &&& control.dir is Receiver
        &&& control.master
        &&& control.acken
        &&& control.clear_fifo
        &&& control.hold_bus == (!generate_stop || len > 16 || before.control.hold_bus)
        &&& same_bus_set_up(control, before.control)
    }
}

/// The control register is that of a master that sends. The bus is kept exactly where no
/// stop is asked for.
pub open spec fn sends(before: Control, control: Control, generate_stop: bool) -> bool {
    &&& control.dir is Transmitter
    &&& control.master
    &&& control.acken
    &&& control.clear_fifo
    &&& control.hold_bus == !generate_stop
    &&& same_bus_set_up(control, before)
}

/// Nothing but the last access writes an address.
pub open spec fn address_comes_last(ops: Seq<I2cOp>) -> bool {
    &&& ops.len() > 0
    &&& ops.last() is WriteAddress
    &&& forall|i: int| 0 <= i < ops.len() - 1 ==> !(#[trigger] ops[i] is WriteAddress)
}

/// A blocking read makes the device send: the controller receives before the address
/// goes out, and expects as many bytes as were asked for.
pub proof fn blocking_read_starts_a_reception(
    r: Registers,
    address: u8,
    len: usize,
    generate_stop: bool,
)
    requires
        len <= u32::MAX,
    ensures
        starts_reception(
            r,
            r.after_all(blocking_read_ops(address, len, generate_stop)),
            address,
            len,
            generate_stop,
        ),
        r.after_all(blocking_read_ops(address, len, generate_stop)).enabled == r.enabled,
        address_comes_last(blocking_read_ops(address, len, generate_stop)),
{
    reveal_with_fuel(Registers::after_first, 8);
}

/// A read that is too large starts no transfer.
pub proof fn refused_read_starts_nothing(r: Registers, len: usize, generate_stop: bool)
    ensures
        r.after_all(configure_read_ops(len, generate_stop)).started == r.started,
        r.after_all(configure_read_ops(len, generate_stop)).enabled == r.enabled,
{
    reveal_with_fuel(Registers::after_first, 8);
}

/// An interrupt-driven read starts the same reception as a blocking one. The interrupts
/// that it needs are on, and those of a transmission are off.
pub proof fn async_read_starts_a_reception(
    r: Registers,
    address: u8,
    len: usize,
    generate_stop: bool,
)
    requires
        len <= u32::MAX,
    ensures
        ({
            let after = r.after_all(async_read_ops(address, len, generate_stop));
            &&& starts_reception(r, after, address, len, generate_stop)
            &&& after.enabled.arbitration_lost
            &&& after.enabled.rx_underflow
            &&& after.enabled.rx_overflow
            &&& after.enabled.timeout
            &&& after.enabled.nack
            &&& after.enabled.data
            &&& after.enabled.complete
            &&& !after.enabled.tx_overflow
            &&& !after.enabled.slave_ready
        }),
        address_comes_last(async_read_ops(address, len, generate_stop)),
{
    reveal_with_fuel(Registers::after_first, 10);
}

/// A blocking write sets the controller up to send, and starts nothing before the
/// first bytes are there.
pub proof fn blocking_write_sets_up_a_transmission(r: Registers, generate_stop: bool)
    ensures
        ({
            let after = r.after_all(blocking_write_ops(generate_stop));
            &&& sends(r.control, after.control, generate_stop)
            &&& after.started == r.started
            &&& after.enabled == r.enabled
        }),
{
    reveal_with_fuel(Registers::after_first, 6);
}

/// An interrupt-driven write sets the controller up to send with every interrupt off.
/// After the first bytes it starts the transmission, with the interrupts that it needs on
/// and those of a reception off.
pub proof fn async_write_starts_a_transmission(r: Registers, address: u8, generate_stop: bool)
    ensures
        ({
            let set_up = r.after_all(async_write_setup_ops(generate_stop));
            let after = set_up.after_all(async_write_start_ops(address));
            &&& sends(r.control, set_up.control, generate_stop)
            &&& set_up.quiet()
            &&& set_up.started == r.started
            &&& after.started == Some((address, set_up.control, r.transfer_size))
            &&& after.control == set_up.control
            &&& after.enabled.arbitration_lost
            &&& after.enabled.tx_overflow
            &&& after.enabled.timeout
            &&& after.enabled.nack
            &&& after.enabled.data
            &&& after.enabled.complete
            &&& !after.enabled.rx_underflow
            &&& !after.enabled.rx_overflow
            &&& !after.enabled.slave_ready
        }),
        address_comes_last(async_write_start_ops(address)),
{
    reveal_with_fuel(Registers::after_first, 6);
}

/// The end of a blocking transfer releases the bus where a stop was asked for, and keeps
/// it where another operation follows. It starts no transfer.
pub proof fn ended_transfer_releases_the_bus(r: Registers, stop: bool)
    ensures
        ({
            let write = r.after_all(blocking_write_finish_ops(stop));
            let read = r.after_all(blocking_read_finish_ops(stop));
            &&& write.control.hold_bus == (r.control.hold_bus && !stop)
            &&& read.control.hold_bus == (r.control.hold_bus && !stop)
            &&& read.control.acken == (r.control.acken && !stop)
            &&& write.control.acken == r.control.acken
            &&& write.control.dir == r.control.dir
            &&& read.control.dir == r.control.dir
            &&& same_bus_set_up(write.control, r.control)
            &&& same_bus_set_up(read.control, r.control)
            &&& write.started == r.started
            &&& read.started == r.started
        }),
{
    reveal_with_fuel(Registers::after_first, 3);
    if stop {
        assert(blocking_read_finish_ops(stop).len() == 2);
        assert(blocking_write_finish_ops(stop).len() == 1);
    }
}

/// The end of an interrupt-driven transfer does the same, and leaves no interrupt on.
pub proof fn ended_async_transfer_is_quiet(r: Registers, context: I2cAsyncContext)
    ensures
        ({
            let after = r.after_all(finish_ops(context));
            &&& after.quiet()
            &&& after.control.hold_bus == (r.control.hold_bus && !context.generate_stop)
            &&& same_bus_set_up(after.control, r.control)
            &&& after.started == r.started
        }),
{
    reveal_with_fuel(Registers::after_first, 5);
    if context.generate_stop {
        assert(finish_ops(context).len() == 4);
    } else {
        assert(finish_ops(context).len() == 2);
    }
}

/// A transfer that is given up leaves the bus released and no interrupt on.
#[verifier::rlimit(40)]
pub proof fn cancelled_transfer_is_quiet(r: Registers)
    ensures
        ({
            let after = r.after_all(cancel_ops());
            &&& after.quiet()
            &&& !after.control.hold_bus
            &&& !after.control.acken
            &&& after.control.clear_fifo
            &&& same_bus_set_up(after.control, r.control)
            &&& after.started == r.started
        }),
{
    reveal_with_fuel(Registers::after_first, 4);
}

/// A new driver is the only master of its bus with seven-bit addresses, holds nothing and
/// divides the clock as it was configured to.
pub proof fn new_driver_is_an_idle_master(r: Registers, config: Config)
    ensures
        ({
            let control = r.after(I2cOp::WriteControl(initial_control(config))).control;
            &&& control.div_a == config.clock_config.div_a
            &&& control.div_b == config.clock_config.div_b
            &&& control.master
            &&& control.addressing
            &&& control.clear_fifo
            &&& !control.hold_bus
            &&& !control.slv_mon
            &&& !control.acken
        }),
{
}

/// As many bytes go into the FIFO as fit: afterwards it is full with its sixteen bytes
/// or nothing is left, and it never overflows.
pub proof fn fifo_is_filled_up(fill: int, remaining: int)
    requires
        0 <= fill <= 16,
        remaining >= 0,
    ensures
        0 <= fill_count(fill, remaining) <= remaining,
        fill + fill_count(fill, remaining) <= 16,
        fill_count(fill, remaining) == remaining || fill + fill_count(fill, remaining) == 16,
{
}

/// A fault is reported exactly where the status flags one, and the one that is reported
/// is flagged. An overflow goes before a lost arbitration, that before a missing
/// acknowledgement, that before a timeout.
pub proof fn transmit_faults_are_the_flagged_ones(isr: InterruptStatus)
    ensures
        tx_fault(isr) is Clear <==> !isr.tx_overflow && !isr.arbitration_lost && !isr.nack
            && !isr.timeout,
        tx_fault(isr) matches TxCheck::Fault(I2cTxError::TxOverflow) <==> isr.tx_overflow,
        tx_fault(isr) matches TxCheck::Fault(I2cTxError::ArbitrationLoss) <==> isr.arbitration_lost
            && !isr.tx_overflow,
        tx_fault(isr) is Nacked <==> isr.nack && !isr.tx_overflow && !isr.arbitration_lost,
        tx_fault(isr) matches TxCheck::Fault(I2cTxError::Timeout) <==> isr.timeout
            && !isr.tx_overflow && !isr.arbitration_lost && !isr.nack,
{
}

/// The same of a reception. What is not acknowledged before the first byte is the address.
pub proof fn receive_faults_are_the_flagged_ones(read: int, isr: InterruptStatus)
    ensures
        rx_fault(read, isr) is None <==> !isr.rx_overflow && !isr.rx_underflow && !isr.nack
            && !isr.timeout,
        rx_fault(read, isr) == Some(I2cRxError::RxOverflow) <==> isr.rx_overflow,
        rx_fault(read, isr) == Some(I2cRxError::RxUnderflow) <==> isr.rx_underflow
            && !isr.rx_overflow,
        rx_fault(read, isr) == Some(I2cRxError::Nack(NoAcknowledgeSource::Address)) <==> isr.nack
            && read == 0 && !isr.rx_overflow && !isr.rx_underflow,
        rx_fault(read, isr) == Some(I2cRxError::Nack(NoAcknowledgeSource::Data)) <==> isr.nack
            && read != 0 && !isr.rx_overflow && !isr.rx_underflow,
        rx_fault(read, isr) == Some(I2cRxError::Timeout) <==> isr.timeout && !isr.rx_overflow
            && !isr.rx_underflow && !isr.nack,
{
}

/// An interrupt ends a transfer with an error exactly where the status flags a fault of
/// its direction, and the error is the flagged one.
pub proof fn async_faults_are_the_flagged_ones(context: I2cAsyncContext, isr: InterruptStatus)
    ensures
        ({
            let writing = context.phase is Write;
            let moved = if writing {
                context.tx_progress
            } else {
                context.rx_progress
            };
            let early = isr.arbitration_lost || isr.timeout || isr.nack;
            let fault = async_fault(context, isr);
            &&& fault is None <==> !early && !(writing && isr.tx_overflow) && !(!writing && (
            isr.rx_underflow || isr.rx_overflow))
            &&& fault == Some(I2cError::ArbitrationLoss) <==> isr.arbitration_lost
            &&& fault == Some(I2cError::Timeout) <==> isr.timeout && !isr.arbitration_lost
            &&& fault == Some(I2cError::Nack(NoAcknowledgeSource::Address)) <==> isr.nack
                && !isr.arbitration_lost && !isr.timeout && moved == 0
            &&& fault == Some(I2cError::Nack(NoAcknowledgeSource::Data)) <==> isr.nack
                && !isr.arbitration_lost && !isr.timeout && moved != 0
            &&& fault == Some(I2cError::TxOverflow) <==> !early && writing && isr.tx_overflow
            &&& fault == Some(I2cError::RxUnderflow) <==> !early && !writing && isr.rx_underflow
            &&& fault == Some(I2cError::RxOverflow) <==> !early && !writing && isr.rx_overflow
                && !isr.rx_underflow
        }),
{
}

/// The bus clock of a pair of divisors is the processor bus clock divided by 22 and by both of
/// them, rounded down.
pub proof fn bus_clock_is_the_divided_clock(cpu_hz: u32, a: int, b: int)
    requires
        a >= 1,
        b >= 1,
    ensures
        bus_clock(cpu_hz, a, b) * (22 * (a * b)) <= cpu_hz,
        cpu_hz < (bus_clock(cpu_hz, a, b) + 1) * (22 * (a * b)),
{
    let d = 22 * (a * b);
    assert(d >= 22) by (nonlinear_arith)
        requires
            a >= 1,
            b >= 1,
            d == 22 * (a * b),
    ;
    let q = cpu_hz as int / d;
    vstd::arithmetic::div_mod::lemma_fundamental_div_mod(cpu_hz as int, d);
    vstd::arithmetic::div_mod::lemma_mod_bound(cpu_hz as int, d);
    assert(q * d <= cpu_hz < (q + 1) * d) by (nonlinear_arith)
        requires
            cpu_hz == d * q + cpu_hz as int % d,
            0 <= cpu_hz as int % d < d,
    ;
}

} // verus!
