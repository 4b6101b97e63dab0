//! Interrupt controller setup and interrupt dispatch.
use vstd::prelude::*;

pub mod laws;

use crate::bits;
use crate::interrupt::{
    HandlerTable, Interrupt, InterruptInfo, InterruptSignalRegister, PpiInterrupt, SpiInterrupt,
};
use crate::multicore;
use crate::InterruptConfig;

verus! {

pub const ICFR_2_FIXED_VALUE: u32 = 0b01010101010111010101010001011111;

pub const ICFR_3_FIXED_VALUE: u32 = 0b01010101010101011101010101010101;

pub const ICFR_4_FIXED_VALUE: u32 = 0b01110101010101010101010101010101;

pub const ICFR_5_FIXED_VALUE: u32 = 0b00000011010101010101010101010101;

/// Target byte that routes a shared interrupt to processor 0.
pub const TARGET_CPU_0: u8 = 1;

/// Priority mask that lets every priority through.
pub const PRIORITY_MASK_ALL: u32 = 0xff;

/// The software generated interrupt that coordinates the processors.
pub const PAUSE_SGI_ID: usize = 15;

/// Fields of the CPU interface control register.
#[derive(Debug, Clone, Copy, PartialEq, Eq, Structural)]
pub struct InterfaceControl {
    pub sbpr: bool,
    pub fiq_en: bool,
    pub ack_ctrl: bool,
    pub enable_non_secure: bool,
    pub enable_secure: bool,
}

/// Fields of the distributor control register.
#[derive(Debug, Clone, Copy, PartialEq, Eq, Structural)]
pub struct DistributorControl {
    pub enable_non_secure: bool,
    pub enable_secure: bool,
}

/// One access to the interrupt controller.
#[derive(Debug, Clone, Copy, PartialEq, Eq, Structural)]
pub enum GicOp {
    WritePriorityMask(u32),
    WriteInterfaceControl(InterfaceControl),
    WriteDistributorControl(DistributorControl),
    /// Write `mask` to a clear-pending register.
    WriteClearPending { index: usize, mask: u32 },
    /// Merge `mask` into a set-enable register.
    MergeSetEnable { index: usize, mask: u32 },
    /// Merge `mask` into a clear-enable register.
    MergeClearEnable { index: usize, mask: u32 },
    /// Set one target byte of a processor target register.
    SetTarget { index: usize, byte: usize, target: u8 },
    /// Replace the bits in `mask` of an interrupt configuration register by `value`.
    UpdateTrigger { register: u8, mask: u32, value: u32 },
    /// Write an acknowledge value to the end-of-interrupt register.
    WriteEndOfInterrupt(InterruptSignalRegister),
}

/// The identifier under which `interrupt` is managed. Only 16 software
/// generated interrupts exist; others have nothing to manage.
pub open spec fn managed_id(interrupt: Interrupt) -> Option<int> {
    match interrupt {
        Interrupt::Sgi(id) => if id < 16 {
            Some(id as int)
        } else {
            None
        },
        Interrupt::Ppi(ppi) => Some(ppi.number() as int),
        Interrupt::Spi(spi) => Some(spi.number() as int),
        Interrupt::Invalid(_) | Interrupt::Spurious => None,
    }
}

/// The bit of identifier `id` in the register that holds it.
pub open spec fn id_mask(id: int) -> u32 {
    1u32 << ((id % 32) as u32)
}

/// Each register holds 32 identifiers.
pub open spec fn id_register(id: int) -> usize {
    (id / 32) as usize
}

/// Trigger configuration of a shared interrupt: the register, its two bits in
/// it, and their fixed value.
pub open spec fn trigger_config(id: int) -> (u8, u32, u32) {
    if 32 <= id <= 92 {
        let register = (id / 16) as u8;
        let fixed = if register == 2 {
            ICFR_2_FIXED_VALUE
        } else if register == 3 {
            ICFR_3_FIXED_VALUE
        } else if register == 4 {
            ICFR_4_FIXED_VALUE
        } else {
            ICFR_5_FIXED_VALUE
        };
        let mask = 3u32 << (((id % 16) * 2) as u32);
        (register, mask, fixed & mask)
    } else {
        (0, 0, 0)
    }
}

/// Routing and trigger setup: only shared interrupts have any.
pub open spec fn configure_ops(interrupt: Interrupt) -> Seq<GicOp> {
    match interrupt {
        Interrupt::Spi(spi) => {
            let offset = spi.number() - 32;
            let (register, mask, value) = trigger_config(spi.number() as int);
            seq![
                GicOp::SetTarget {
                    index: (offset / 4) as usize,
                    byte: (offset % 4) as usize,
                    target: TARGET_CPU_0,
                },
                GicOp::UpdateTrigger { register, mask, value },
            ]
        },
        _ => Seq::empty(),
    }
}

pub open spec fn enable_ops(interrupt: Interrupt) -> Seq<GicOp> {
    configure_ops(interrupt) + match managed_id(interrupt) {
        Some(id) => seq![
            GicOp::WriteClearPending { index: id_register(id), mask: id_mask(id) },
            GicOp::MergeSetEnable { index: id_register(id), mask: id_mask(id) },
        ],
        None => Seq::empty(),
    }
}

pub open spec fn disable_ops(interrupt: Interrupt) -> Seq<GicOp> {
    match managed_id(interrupt) {
        Some(id) => seq![GicOp::MergeClearEnable { index: id_register(id), mask: id_mask(id) }],
        None => Seq::empty(),
    }
}

pub open spec fn unpend_ops(interrupt: Interrupt) -> Seq<GicOp> {
    match managed_id(interrupt) {
        Some(id) => seq![GicOp::WriteClearPending { index: id_register(id), mask: id_mask(id) }],
        None => Seq::empty(),
    }
}

/// The interrupts whose state is reset during initialization.
pub open spec fn managed_interrupts() -> Seq<Interrupt> {
    seq![
        Interrupt::Sgi(15),
        Interrupt::Ppi(PpiInterrupt::GlobalTimer),
        Interrupt::Ppi(PpiInterrupt::NFiq),
        Interrupt::Ppi(PpiInterrupt::CpuPrivateTimer),
        Interrupt::Ppi(PpiInterrupt::Awdt),
        Interrupt::Ppi(PpiInterrupt::NIrq),
        Interrupt::Spi(SpiInterrupt::Usb0),
        Interrupt::Spi(SpiInterrupt::Eth0),
        Interrupt::Spi(SpiInterrupt::Sdio0),
        Interrupt::Spi(SpiInterrupt::I2c0),
        Interrupt::Spi(SpiInterrupt::Spi0),
        Interrupt::Spi(SpiInterrupt::Uart0),
        Interrupt::Spi(SpiInterrupt::Ttc10),
        Interrupt::Spi(SpiInterrupt::Usb1),
        Interrupt::Spi(SpiInterrupt::Eth1),
        Interrupt::Spi(SpiInterrupt::Sdio1),
        Interrupt::Spi(SpiInterrupt::I2c1),
        Interrupt::Spi(SpiInterrupt::Spi1),
        Interrupt::Spi(SpiInterrupt::Uart1),
    ]
}

/// Disable and unpend the first `n` managed interrupts.
pub open spec fn reset_ops(n: nat) -> Seq<GicOp>
    decreases n,
{
    if n == 0 {
        Seq::empty()
    } else {
        reset_ops((n - 1) as nat) + disable_ops(managed_interrupts()[n - 1]) + unpend_ops(
            managed_interrupts()[n - 1],
        )
    }
}

pub open spec fn initialize_ops() -> Seq<GicOp> {
    seq![
        GicOp::WritePriorityMask(PRIORITY_MASK_ALL),
        GicOp::WriteInterfaceControl(
            InterfaceControl {
                sbpr: false,
                fiq_en: false,
                ack_ctrl: false,
                enable_non_secure: true,
                enable_secure: true,
            },
        ),
        GicOp::WriteDistributorControl(
            DistributorControl { enable_non_secure: true, enable_secure: true },
        ),
    ] + reset_ops(managed_interrupts().len()) + enable_ops(Interrupt::Sgi(PAUSE_SGI_ID))
}

/// Brings the interrupt controller up with every managed interrupt off but the
/// one that coordinates the processors.
pub fn initialize(interrupt_config: InterruptConfig) -> (ops: Vec<GicOp>)
    ensures
        ops@ == initialize_ops(),
{
    let mut ops: Vec<GicOp> = Vec::new();
    ops.push(GicOp::WritePriorityMask(PRIORITY_MASK_ALL));
    match interrupt_config {
        InterruptConfig::AllInterruptsToCpu0 => {},
    }
    ops.push(
        GicOp::WriteInterfaceControl(
            InterfaceControl {
                sbpr: false,
                fiq_en: false,
                ack_ctrl: false,
                enable_non_secure: true,
                enable_secure: true,
            },
        ),
    );
    ops.push(
        GicOp::WriteDistributorControl(
            DistributorControl { enable_non_secure: true, enable_secure: true },
        ),
    );
    let mut reset = reset_managed_interrupt_state();
    ops.append(&mut reset);
    let mut enable = enable_interrupt(Interrupt::Sgi(PAUSE_SGI_ID));
    ops.append(&mut enable);
    assert(ops@ =~= initialize_ops());
    ops
}

fn managed_interrupt_list() -> (r: Vec<Interrupt>)
    ensures
        r@ == managed_interrupts(),
{
    let r: Vec<Interrupt> = vec![
        Interrupt::Sgi(15),
        Interrupt::Ppi(PpiInterrupt::GlobalTimer),
        Interrupt::Ppi(PpiInterrupt::NFiq),
        Interrupt::Ppi(PpiInterrupt::CpuPrivateTimer),
        Interrupt::Ppi(PpiInterrupt::Awdt),
        Interrupt::Ppi(PpiInterrupt::NIrq),
        Interrupt::Spi(SpiInterrupt::Usb0),
        Interrupt::Spi(SpiInterrupt::Eth0),
        Interrupt::Spi(SpiInterrupt::Sdio0),
        Interrupt::Spi(SpiInterrupt::I2c0),
        Interrupt::Spi(SpiInterrupt::Spi0),
        Interrupt::Spi(SpiInterrupt::Uart0),
        Interrupt::Spi(SpiInterrupt::Ttc10),
        Interrupt::Spi(SpiInterrupt::Usb1),
        Interrupt::Spi(SpiInterrupt::Eth1),
        Interrupt::Spi(SpiInterrupt::Sdio1),
        Interrupt::Spi(SpiInterrupt::I2c1),
        Interrupt::Spi(SpiInterrupt::Spi1),
        Interrupt::Spi(SpiInterrupt::Uart1),
    ];
    assert(r@ =~= managed_interrupts());
    r
}

pub fn reset_managed_interrupt_state() -> (ops: Vec<GicOp>)
    ensures
        ops@ == reset_ops(managed_interrupts().len()),
{
    let list = managed_interrupt_list();
    let mut ops: Vec<GicOp> = Vec::new();
    let mut i: usize = 0;
    while i < list.len()
        invariant
            i <= list.len(),
            list@ == managed_interrupts(),
            ops@ == reset_ops(i as nat),
        decreases list.len() - i,
    {
        let mut disable = disable_interrupt(list[i]);
        let mut unpend = unpend_interrupt(list[i]);
        ops.append(&mut disable);
        ops.append(&mut unpend);
        i += 1;
        assert(ops@ =~= reset_ops(i as nat));
    }
    ops
}

/// The register and bit of a managed interrupt.
fn locate(interrupt: Interrupt) -> (r: Option<(usize, u32)>)
    ensures
        r == match managed_id(interrupt) {
            Some(id) => Some((id_register(id), id_mask(id))),
            None => None,
        },
{
    let id: u32 = match interrupt {
        Interrupt::Sgi(id) => {
            if id >= 16 {
                return None;
            }
            id as u32
        },
        Interrupt::Ppi(ppi) => ppi.id() as u32,
        Interrupt::Spi(spi) => spi.id() as u32,
        Interrupt::Invalid(_) | Interrupt::Spurious => return None,
    };
    Some(((id / 32) as usize, 1u32 << (id % 32)))
}

pub fn enable_interrupt(interrupt: Interrupt) -> (ops: Vec<GicOp>)
    ensures
        ops@ == enable_ops(interrupt),
{
    let mut ops = configure_interrupt(interrupt);
    if let Some((index, mask)) = locate(interrupt) {
        ops.push(GicOp::WriteClearPending { index, mask });
        ops.push(GicOp::MergeSetEnable { index, mask });
    }
    assert(ops@ =~= enable_ops(interrupt));
    ops
}

pub fn configure_interrupt(interrupt: Interrupt) -> (ops: Vec<GicOp>)
    ensures
        ops@ == configure_ops(interrupt),
{
    let mut ops: Vec<GicOp> = Vec::new();
    match interrupt {
        Interrupt::Spi(spi) => {
            let spi_raw: u8 = spi.id();
            let spi_offset: usize = (spi_raw - 32) as usize;
            ops.push(
                GicOp::SetTarget {
                    index: spi_offset / 4,
                    byte: spi_offset % 4,
                    target: TARGET_CPU_0,
                },
            );
            let (register, mask, value): (u8, u32, u32) = spi_trigger_config(spi_raw);
            ops.push(GicOp::UpdateTrigger { register, mask, value });
        },
        Interrupt::Sgi(_) | Interrupt::Ppi(_) => {},
        Interrupt::Invalid(_) | Interrupt::Spurious => {},
    }
    assert(ops@ =~= configure_ops(interrupt));
    ops
}

/// The trigger register of a shared interrupt, its bits in it and their value.
pub fn spi_trigger_config(spi_raw: u8) -> (r: (u8, u32, u32))
    ensures
        r == trigger_config(spi_raw as int),
{
    let (register, fixed): (u8, u32) = if spi_raw < 32 {
        return (0, 0, 0);
    } else if spi_raw <= 47 {
        (2, ICFR_2_FIXED_VALUE)
    } else if spi_raw <= 63 {
        (3, ICFR_3_FIXED_VALUE)
    } else if spi_raw <= 79 {
        (4, ICFR_4_FIXED_VALUE)
    } else if spi_raw <= 92 {
        (5, ICFR_5_FIXED_VALUE)
    } else {
        return (0, 0, 0);
    };
    let shift: u32 = ((spi_raw as u32) % 16) * 2;
    let mask: u32 = 3u32 << shift;
    (register, mask, fixed & mask)
}

/// The interrupt configuration register after a [`GicOp::UpdateTrigger`].
pub fn updated_trigger(current: u32, mask: u32, value: u32) -> (r: u32)
    ensures
        r == (current & !mask) | value,
{
    (current & !mask) | value
}

pub fn disable_interrupt(interrupt: Interrupt) -> (ops: Vec<GicOp>)
    ensures
        ops@ == disable_ops(interrupt),
{
    let mut ops: Vec<GicOp> = Vec::new();
    if let Some((index, mask)) = locate(interrupt) {
        ops.push(GicOp::MergeClearEnable { index, mask });
    }
    assert(ops@ =~= disable_ops(interrupt));
    ops
}

pub fn unpend_interrupt(interrupt: Interrupt) -> (ops: Vec<GicOp>)
    ensures
        ops@ == unpend_ops(interrupt),
{
    let mut ops: Vec<GicOp> = Vec::new();
    if let Some((index, mask)) = locate(interrupt) {
        ops.push(GicOp::WriteClearPending { index, mask });
    }
    assert(ops@ =~= unpend_ops(interrupt));
    ops
}

/// What to do with an acknowledged interrupt.
#[derive(Debug, Clone, Copy, PartialEq, Eq, Structural)]
pub enum DispatchAction {
    /// Nothing to run; the interrupt counts as handled or not.
    Done(bool),
    /// Run the handler at this address.
    Run(usize),
    /// A supported interrupt has no handler, which debug builds report as a bug.
    Unhandled(Interrupt),
}

/// Decides what a delivery runs.
///
/// Software generated interrupts are handled by [`multicore::dispatch_sgi`].
/// The access of [`end_of_interrupt`] follows the action.
pub fn dispatch_interrupts(iar: InterruptSignalRegister, table: &HandlerTable) -> (r:
    DispatchAction)
    ensures
        r == match Interrupt::decoded(iar.ack_int_id) {
            Interrupt::Sgi(id) => DispatchAction::Done(id == PAUSE_SGI_ID),
            Interrupt::Spurious | Interrupt::Invalid(_) => DispatchAction::Done(false),
            interrupt => {
                let handler = table@[interrupt.number()->0 as int];
                if handler == 0 {
                    DispatchAction::Unhandled(interrupt)
                } else {
                    DispatchAction::Run(handler)
                }
            },
        },
{
    let irq_info = InterruptInfo::new(iar);
    let interrupt = irq_info.interrupt();
    match interrupt {
        Interrupt::Sgi(id) => DispatchAction::Done(multicore::dispatch_sgi(id)),
        Interrupt::Spurious | Interrupt::Invalid(_) => DispatchAction::Done(false),
        Interrupt::Ppi(_) | Interrupt::Spi(_) => match table.dispatch_registered(interrupt) {
            Some(handler) => DispatchAction::Run(handler),
            None => DispatchAction::Unhandled(interrupt),
        },
    }
}

/// The access that ends the interrupt with the acknowledge value `iar`, whatever was
/// done about it.
pub fn end_of_interrupt(iar: InterruptSignalRegister) -> (op: GicOp)
    ensures
        op == GicOp::WriteEndOfInterrupt(iar),
{
    GicOp::WriteEndOfInterrupt(InterruptInfo::new(iar).raw_reg())
}

/// Two different managed interrupts never share a bit, so enabling, disabling
/// or unpending one leaves the other alone.
pub proof fn managed_interrupts_do_not_share_bits(a: Interrupt, b: Interrupt)
    requires
        managed_id(a) is Some,
        managed_id(b) is Some,
        a != b,
        id_register(managed_id(a)->0) == id_register(managed_id(b)->0),
    ensures
        id_mask(managed_id(a)->0) & id_mask(managed_id(b)->0) == 0,
{
    let x = managed_id(a)->0;
    let y = managed_id(b)->0;
    assert(x != y);
    assert(x / 32 == y / 32);
    assert(x % 32 != y % 32);
    bits::single_bit_masks_are_distinct((x % 32) as u32, (y % 32) as u32);
}

proof fn lemma_trigger_masks_are_disjoint(i: u32, j: u32, current: u32, value: u32)
    by (bit_vector)
    requires
        i < 16,
        j < 16,
        i != j,
        value & (3u32 << ((i * 2) as u32)) == value,
    ensures
        ((current & !(3u32 << ((i * 2) as u32))) | value) & (3u32 << ((j * 2) as u32)) == current
            & (3u32 << ((j * 2) as u32)),
{
}

pub proof fn lemma_and_is_idempotent(fixed: u32, mask: u32, current: u32)
    by (bit_vector)
    ensures
        (fixed & mask) & mask == fixed & mask,
        ((current & !mask) | (fixed & mask)) & mask == fixed & mask,
{
}

/// Configuring the trigger of one shared interrupt keeps the trigger of every
/// other one in the same register.
pub proof fn trigger_update_keeps_other_interrupts(id: int, other: int, current: u32)
    requires
        32 <= id <= 92,
        32 <= other <= 92,
        id != other,
        trigger_config(id).0 == trigger_config(other).0,
    ensures
        ({
            let (_, mask, value) = trigger_config(id);
            let other_mask = trigger_config(other).1;
            ((current & !mask) | value) & other_mask == current & other_mask
        }),
{
    let i = (id % 16) as u32;
    let j = (other % 16) as u32;
    assert(id / 16 == other / 16);
    assert(i != j);
    let (_, mask, value) = trigger_config(id);
    assert(mask == 3u32 << ((i * 2) as u32));
    assert(trigger_config(other).1 == 3u32 << ((j * 2) as u32));
    let fixed = if id / 16 == 2 {
        ICFR_2_FIXED_VALUE
    } else if id / 16 == 3 {
        ICFR_3_FIXED_VALUE
    } else if id / 16 == 4 {
        ICFR_4_FIXED_VALUE
    } else {
        ICFR_5_FIXED_VALUE
    };
    assert(value == fixed & mask);
    lemma_and_is_idempotent(fixed, mask, current);
    lemma_trigger_masks_are_disjoint(i, j, current, value);
}

/// Enabling an interrupt first clears what was pending, so a stale delivery is not taken.
pub proof fn enabling_clears_pending_first(interrupt: Interrupt)
    requires
        managed_id(interrupt) is Some,
    ensures
        ({
            let ops = enable_ops(interrupt);
            let id = managed_id(interrupt)->0;
            &&& ops.len() >= 2
            &&& ops[ops.len() - 1] == GicOp::MergeSetEnable {
                index: id_register(id),
                mask: id_mask(id),
            }
            &&& ops[ops.len() - 2] == GicOp::WriteClearPending {
                index: id_register(id),
                mask: id_mask(id),
            }
        }),
{
}

} // verus!
