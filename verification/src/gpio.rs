//! MIO pins: multiplexer configuration and general purpose I/O.
use vstd::prelude::*;

pub mod laws;

use crate::bits;
use crate::slcr::{self, AmbaClock, SlcrOp};

verus! {

/// Number of multiplexed I/O pins.
pub const MIO_COUNT: u8 = 54;

/// The MIO pin is output-only.
#[derive(Debug, Clone, Copy, PartialEq, Eq, Structural)]
pub struct PinIsOutputOnly;

/// The level that a pin is driven to.
#[derive(Debug, Clone, Copy, PartialEq, Eq, Structural)]
pub enum PinState {
    Low,
    High,
}

/// I/O standard of a MIO pin.
#[derive(Debug, Clone, Copy, PartialEq, Eq, Structural)]
pub enum IoType {
    LvCmos18,
    LvCmos25,
    LvCmos33,
    Hstl,
}

#[derive(Debug, Clone, Copy, PartialEq, Eq, Structural)]
pub enum PinMode {
    Disconnected,
    InputFloating,
    InputPullUp,
    OutputPushPull,
    OutputOpenDrain,
}

/// The four multiplexer levels of a MIO pin.
#[derive(Debug, Clone, Copy, PartialEq, Eq, Structural)]
pub struct MuxConfig {
    pub l3: u8,
    pub l2: u8,
    pub l1: bool,
    pub l0: bool,
}

impl MuxConfig {
    /// The selections fit their register fields: three and two bits.
    pub open spec fn wf(self) -> bool {
        self.l3 < 8 && self.l2 < 4
    }

    pub fn new(l0: bool, l1: bool, l2: u8, l3: u8) -> (r: Self)
        requires
            l2 < 4,
            l3 < 8,
        ensures
            r == (MuxConfig { l3, l2, l1, l0 }),
            r.wf(),
    {
        MuxConfig { l3, l2, l1, l0 }
    }

    pub fn new_with_l3(l3: u8) -> (r: Self)
        requires
            l3 < 8,
        ensures
            r == (MuxConfig { l3, l2: 0, l1: false, l0: false }),
            r.wf(),
    {
        Self::new(false, false, 0, l3)
    }

    pub fn new_for_gpio() -> (r: Self)
        ensures
            r == gpio_mux(),
            r.wf(),
    {
        Self::new(false, false, 0, 0)
    }
}

/// All multiplexer levels at zero route a pin to the GPIO block.
pub open spec fn gpio_mux() -> MuxConfig {
    MuxConfig { l3: 0, l2: 0, l1: false, l0: false }
}

/// Fields of a MIO pin configuration register that the drivers set.
#[derive(Debug, Clone, Copy, PartialEq, Eq, Structural)]
pub struct MioPin {
    pub pullup: bool,
    pub io_type: IoType,
    pub l0_sel: bool,
    pub l1_sel: bool,
    pub l2_sel: u8,
    pub l3_sel: u8,
    pub tri_enable: bool,
}

/// A change to a MIO pin configuration. Absent parts keep what is configured.
#[derive(Debug, Clone, Copy, PartialEq, Eq, Structural)]
pub struct MioUpdate {
    pub tristate: bool,
    pub pullup: Option<bool>,
    pub io_type: Option<IoType>,
    pub mux_conf: Option<MuxConfig>,
}

impl MioUpdate {
    /// The pin configuration after the change.
    pub fn apply(self, val: MioPin) -> (r: MioPin)
        ensures
            r.tri_enable == self.tristate,
            r.pullup == (if self.pullup is Some {
                self.pullup->0
            } else {
                val.pullup
            }),
            r.io_type == (if self.io_type is Some {
                self.io_type->0
            } else {
                val.io_type
            }),
            match self.mux_conf {
                Some(mux) => r.l0_sel == mux.l0 && r.l1_sel == mux.l1 && r.l2_sel == mux.l2
                    && r.l3_sel == mux.l3,
                None => r.l0_sel == val.l0_sel && r.l1_sel == val.l1_sel && r.l2_sel == val.l2_sel
                    && r.l3_sel == val.l3_sel,
            },
    {
        let mut val: MioPin = val;
        if let Some(pullup) = self.pullup {
            val.pullup = pullup;
        }
        if let Some(io_type) = self.io_type {
            val.io_type = io_type;
        }
        if let Some(mux_conf) = self.mux_conf {
            val.l0_sel = mux_conf.l0;
            val.l1_sel = mux_conf.l1;
            val.l2_sel = mux_conf.l2;
            val.l3_sel = mux_conf.l3;
        }
        val.tri_enable = self.tristate;
        val
    }
}

#[derive(Debug, Clone, Copy, PartialEq, Eq, Structural)]
pub enum PinOffset {
    Mio(usize),
}

/// The register bank of 32 pins that a pin belongs to.
#[derive(Debug, Clone, Copy, PartialEq, Eq, Structural)]
pub enum Bank {
    Bank0,
    Bank1,
}

/// The masked output register of 16 pins that a pin belongs to.
#[derive(Debug, Clone, Copy, PartialEq, Eq, Structural)]
pub enum MaskedOut {
    Bank0Lsw,
    Bank0Msw,
    Bank1Lsw,
    Bank1Msw,
}

/// One access made on behalf of a pin.
#[derive(Debug, Clone, Copy, PartialEq, Eq, Structural)]
pub enum GpioOp {
    Slcr(SlcrOp),
    /// Write the masked output register. A zero mask bit lets the output bit through.
    MaskedOutput { reg: MaskedOut, mask: u16, output: u16 },
    /// Set or clear one bit of the direction register.
    Direction { bank: Bank, bit: u32, value: bool },
    /// Set or clear one bit of the output enable register.
    OutputEnable { bank: Bank, bit: u32, value: bool },
}

pub open spec fn bank_of(pin: int) -> Bank {
    if pin < 32 {
        Bank::Bank0
    } else {
        Bank::Bank1
    }
}

pub open spec fn masked_out_of(pin: int) -> MaskedOut {
    if pin < 16 {
        MaskedOut::Bank0Lsw
    } else if pin < 32 {
        MaskedOut::Bank0Msw
    } else if pin < 48 {
        MaskedOut::Bank1Lsw
    } else {
        MaskedOut::Bank1Msw
    }
}

/// Drive `pin` to `level`, leaving every other pin alone.
pub open spec fn state_op(pin: int, level: PinState) -> GpioOp {
    GpioOp::MaskedOutput {
        reg: masked_out_of(pin),
        mask: !(1u16 << ((pin % 16) as u16)),
        output: if level is High {
            1u16 << ((pin % 16) as u16)
        } else {
            0u16
        },
    }
}

pub open spec fn direction_op(pin: int, value: bool) -> GpioOp {
    GpioOp::Direction { bank: bank_of(pin), bit: (pin % 32) as u32, value }
}

pub open spec fn output_enable_op(pin: int, value: bool) -> GpioOp {
    GpioOp::OutputEnable { bank: bank_of(pin), bit: (pin % 32) as u32, value }
}

/// Reconfigure the multiplexer of `pin`, between unlocking and locking the SLCR.
pub open spec fn mio_ops(pin: int, update: MioUpdate) -> Seq<GpioOp> {
    seq![
        GpioOp::Slcr(SlcrOp::WriteUnlock(slcr::UNLOCK_KEY)),
        GpioOp::Slcr(SlcrOp::ModifyMioPin { pin: pin as usize, update }),
        GpioOp::Slcr(SlcrOp::WriteLock(slcr::LOCK_KEY)),
    ]
}

/// Make `pin` an input of its bank: not driven, direction in.
pub open spec fn input_ops(pin: int) -> Seq<GpioOp> {
    seq![direction_op(pin, false), output_enable_op(pin, false)]
}

/// MIO pins 7 and 8 have no input buffer.
pub open spec fn output_only(pin: int) -> bool {
    pin == 7 || pin == 8
}

pub open spec fn push_pull_ops(pin: int, level: PinState) -> Seq<GpioOp> {
    mio_ops(
        pin,
        MioUpdate { tristate: false, pullup: None, io_type: None, mux_conf: Some(gpio_mux()) },
    ) + seq![state_op(pin, level), direction_op(pin, true), output_enable_op(pin, true)]
}

/// A released open-drain output is not driven, so only a low level enables the driver.
pub open spec fn open_drain_ops(pin: int, level: PinState, pullup: bool) -> Seq<GpioOp> {
    mio_ops(
        pin,
        MioUpdate {
            tristate: false,
            pullup: Some(pullup),
            io_type: None,
            mux_conf: Some(gpio_mux()),
        },
    ) + seq![
        state_op(pin, level),
        direction_op(pin, true),
        output_enable_op(pin, level is Low),
    ]
}

pub open spec fn disconnected_ops(pin: int) -> Seq<GpioOp> {
    mio_ops(
        pin,
        MioUpdate { tristate: true, pullup: None, io_type: None, mux_conf: None },
    ) + input_ops(pin)
}

pub open spec fn gpio_input_ops(pin: int, pullup: bool) -> Seq<GpioOp> {
    mio_ops(
        pin,
        MioUpdate {
            tristate: true,
            pullup: Some(pullup),
            io_type: None,
            mux_conf: Some(gpio_mux()),
        },
    ) + input_ops(pin)
}

pub open spec fn periph_ops(
    pin: int,
    mux_conf: MuxConfig,
    pullup: Option<bool>,
    io_type: Option<IoType>,
) -> Seq<GpioOp> {
    input_ops(pin) + mio_ops(
        pin,
        MioUpdate { tristate: false, pullup, io_type, mux_conf: Some(mux_conf) },
    )
}

/// The op belongs to `pin` alone.
pub open spec fn touches_only(op: GpioOp, pin: int) -> bool {
    match op {
        GpioOp::Slcr(SlcrOp::ModifyMioPin { pin: p, .. }) => p == pin,
        GpioOp::Slcr(SlcrOp::WriteUnlock(_)) => true,
        GpioOp::Slcr(SlcrOp::WriteLock(_)) => true,
        GpioOp::Slcr(_) => false,
        GpioOp::MaskedOutput { reg, mask, output } => {
            &&& reg == masked_out_of(pin)
            &&& mask == !(1u16 << ((pin % 16) as u16))
            &&& output & mask == 0
        },
        GpioOp::Direction { bank, bit, .. } => bank == bank_of(pin) && bit == pin % 32,
        GpioOp::OutputEnable { bank, bit, .. } => bank == bank_of(pin) && bit == pin % 32,
    }
}

/// The direction or output enable register after an op on it.
pub fn updated(current: u32, bit: u32, value: bool) -> (r: u32)
    requires
        bit < 32,
    ensures
        r == bits::set_bit(current, bit, value),
{
    bits::with_bit(current, bit, value)
}

fn push_all(out: &mut Vec<GpioOp>, ops: Vec<SlcrOp>)
    requires
        ops.len() == 3,
    ensures
        final(out)@ == old(out)@ + seq![
            GpioOp::Slcr(ops[0]),
            GpioOp::Slcr(ops[1]),
            GpioOp::Slcr(ops[2]),
        ],
{
    out.push(GpioOp::Slcr(ops[0]));
    out.push(GpioOp::Slcr(ops[1]));
    out.push(GpioOp::Slcr(ops[2]));
}

/// One MIO pin, addressed by its number.
#[derive(Debug, Clone, Copy, PartialEq, Eq, Structural)]
pub struct LowLevelGpio {
    pub offset: PinOffset,
}

impl LowLevelGpio {
    /// The number of the pin.
    pub open spec fn pin(self) -> int {
        match self.offset {
            PinOffset::Mio(offset) => offset as int,
        }
    }

    /// The pin exists.
    pub open spec fn wf(self) -> bool {
        self.pin() < MIO_COUNT
    }

    pub fn new(offset: PinOffset) -> (r: Self)
        ensures
            r.offset == offset,
    {
        LowLevelGpio { offset }
    }

    pub fn raw_offset(&self) -> (r: usize)
        ensures
            r == self.pin(),
    {
        match self.offset {
            PinOffset::Mio(offset) => offset,
        }
    }

    /// The bank of the pin and its bit in the data, direction and output enable registers.
    pub fn get_dirm_outen_regs_and_local_offset(&self) -> (r: (u32, Bank))
        requires
            self.wf(),
        ensures
            r.0 == self.pin() % 32,
            r.1 == bank_of(self.pin()),
    {
        let offset: usize = self.raw_offset();
        if offset < 32 {
            (offset as u32, Bank::Bank0)
        } else {
            ((offset - 32) as u32, Bank::Bank1)
        }
    }

    /// The masked output register of the pin and its bit in it.
    pub fn get_masked_out_reg_and_local_offset(&self) -> (r: (u16, MaskedOut))
        requires
            self.wf(),
        ensures
            r.0 == self.pin() % 16,
            r.1 == masked_out_of(self.pin()),
    {
        let offset: usize = self.raw_offset();
        if offset < 16 {
            (offset as u16, MaskedOut::Bank0Lsw)
        } else if offset < 32 {
            ((offset - 16) as u16, MaskedOut::Bank0Msw)
        } else if offset < 48 {
            ((offset - 32) as u16, MaskedOut::Bank1Lsw)
        } else {
            ((offset - 48) as u16, MaskedOut::Bank1Msw)
        }
    }

    pub fn write_state(&self, level: PinState) -> (op: GpioOp)
        requires
            self.wf(),
        ensures
            op == state_op(self.pin(), level),
    {
        let (offset, reg): (u16, MaskedOut) = self.get_masked_out_reg_and_local_offset();
        let output: u16 = match level {
            PinState::High => 1u16 << offset,
            PinState::Low => 0,
        };
        GpioOp::MaskedOutput { reg, mask: !(1u16 << offset), output }
    }

    fn direction(&self, value: bool) -> (op: GpioOp)
        requires
            self.wf(),
        ensures
            op == direction_op(self.pin(), value),
    {
        let (bit, bank): (u32, Bank) = self.get_dirm_outen_regs_and_local_offset();
        GpioOp::Direction { bank, bit, value }
    }

    fn output_enable(&self, value: bool) -> (op: GpioOp)
        requires
            self.wf(),
        ensures
            op == output_enable_op(self.pin(), value),
    {
        let (bit, bank): (u32, Bank) = self.get_dirm_outen_regs_and_local_offset();
        GpioOp::OutputEnable { bank, bit, value }
    }

    pub fn reconfigure_slcr_mio_cfg(
        &self,
        out: &mut Vec<GpioOp>,
        tristate: bool,
        pullup: Option<bool>,
        io_type: Option<IoType>,
        mux_conf: Option<MuxConfig>,
    )
        requires
            self.wf(),
        ensures
            final(out)@ == old(out)@ + mio_ops(
                self.pin(),
                MioUpdate { tristate, pullup, io_type, mux_conf },
            ),
    {
        let update = MioUpdate { tristate, pullup, io_type, mux_conf };
        let ghost before = out@;
        push_all(
            out,
            slcr::with_unlocked_one(SlcrOp::ModifyMioPin { pin: self.raw_offset(), update }),
        );
        assert(out@ =~= before + mio_ops(self.pin(), update));
    }

    pub fn configure_input_pin(&self, out: &mut Vec<GpioOp>)
        requires
            self.wf(),
        ensures
            final(out)@ == old(out)@ + input_ops(self.pin()),
    {
        let ghost before = out@;
        out.push(self.direction(false));
        out.push(self.output_enable(false));
        assert(out@ =~= before + input_ops(self.pin()));
    }

    pub fn configure_as_output_push_pull(&self, init_level: PinState) -> (ops: Vec<GpioOp>)
        requires
            self.wf(),
        ensures
            ops@ == push_pull_ops(self.pin(), init_level),
    {
        let mut ops: Vec<GpioOp> = Vec::new();
        self.reconfigure_slcr_mio_cfg(
            &mut ops,
            false,
            None,
            None,
            Some(MuxConfig::new_for_gpio()),
        );
        ops.push(self.write_state(init_level));
        ops.push(self.direction(true));
        ops.push(self.output_enable(true));
        assert(ops@ =~= push_pull_ops(self.pin(), init_level));
        ops
    }

    pub fn configure_as_output_open_drain(
        &self,
        init_level: PinState,
        with_internal_pullup: bool,
    ) -> (ops: Vec<GpioOp>)
        requires
            self.wf(),
        ensures
            ops@ == open_drain_ops(self.pin(), init_level, with_internal_pullup),
    {
        let mut ops: Vec<GpioOp> = Vec::new();
        self.reconfigure_slcr_mio_cfg(
            &mut ops,
            false,
            Some(with_internal_pullup),
            None,
            Some(MuxConfig::new_for_gpio()),
        );
        ops.push(self.write_state(init_level));
        ops.push(self.direction(true));
        ops.push(self.output_enable(matches!(init_level, PinState::Low)));
        assert(ops@ =~= open_drain_ops(self.pin(), init_level, with_internal_pullup));
        ops
    }

    pub fn configure_as_disconnected(&self) -> (ops: Vec<GpioOp>)
        requires
            self.wf(),
        ensures
            ops@ == disconnected_ops(self.pin()),
    {
        let mut ops: Vec<GpioOp> = Vec::new();
        self.reconfigure_slcr_mio_cfg(&mut ops, true, None, None, None);
        self.configure_input_pin(&mut ops);
        assert(ops@ =~= disconnected_ops(self.pin()));
        ops
    }

    fn configure_as_gpio_input(&self, pullup: bool) -> (r: Result<Vec<GpioOp>, PinIsOutputOnly>)
        requires
            self.wf(),
        ensures
            r is Err <==> output_only(self.pin()),
            r is Ok ==> r->Ok_0@ == gpio_input_ops(self.pin(), pullup),
    {
        let offset_raw: usize = self.raw_offset();
        if offset_raw == 7 || offset_raw == 8 {
            return Err(PinIsOutputOnly);
        }
        let mut ops: Vec<GpioOp> = Vec::new();
        self.reconfigure_slcr_mio_cfg(
            &mut ops,
            true,
            Some(pullup),
            None,
            Some(MuxConfig::new_for_gpio()),
        );
        self.configure_input_pin(&mut ops);
        assert(ops@ =~= gpio_input_ops(self.pin(), pullup));
        Ok(ops)
    }

    pub fn configure_as_input_floating(&self) -> (r: Result<Vec<GpioOp>, PinIsOutputOnly>)
        requires
            self.wf(),
        ensures
            r is Err <==> output_only(self.pin()),
            r is Ok ==> r->Ok_0@ == gpio_input_ops(self.pin(), false),
    {
        self.configure_as_gpio_input(false)
    }

    pub fn configure_as_input_with_pull_up(&self) -> (r: Result<Vec<GpioOp>, PinIsOutputOnly>)
        requires
            self.wf(),
        ensures
            r is Err <==> output_only(self.pin()),
            r is Ok ==> r->Ok_0@ == gpio_input_ops(self.pin(), true),
    {
        self.configure_as_gpio_input(true)
    }

    pub fn configure_as_io_periph_pin(
        &self,
        mux_conf: MuxConfig,
        pullup: Option<bool>,
        io_type: Option<IoType>,
    ) -> (ops: Vec<GpioOp>)
        requires
            self.wf(),
        ensures
            ops@ == periph_ops(self.pin(), mux_conf, pullup, io_type),
    {
        let mut ops: Vec<GpioOp> = Vec::new();
        self.configure_input_pin(&mut ops);
        self.reconfigure_slcr_mio_cfg(&mut ops, false, pullup, io_type, Some(mux_conf));
        assert(ops@ =~= periph_ops(self.pin(), mux_conf, pullup, io_type));
        ops
    }

    /// Whether the pin reads low in `in_val`, the input register of its bank.
    pub fn is_low(&self, in_val: u32) -> (r: bool)
        requires
            self.wf(),
        ensures
            r == !bits::bit(in_val, (self.pin() % 32) as u32),
    {
        let (bit, _bank): (u32, Bank) = self.get_dirm_outen_regs_and_local_offset();
        !bits::get_bit(in_val, bit)
    }

    pub fn is_high(&self, in_val: u32) -> (r: bool)
        requires
            self.wf(),
        ensures
            r == bits::bit(in_val, (self.pin() % 32) as u32),
    {
        !self.is_low(in_val)
    }

    /// Whether the pin is set low in `out_val`, the output register of its bank.
    pub fn is_set_low(&self, out_val: u32) -> (r: bool)
        requires
            self.wf(),
        ensures
            r == !bits::bit(out_val, (self.pin() % 32) as u32),
    {
        self.is_low(out_val)
    }

    pub fn is_set_high(&self, out_val: u32) -> (r: bool)
        requires
            self.wf(),
        ensures
            r == bits::bit(out_val, (self.pin() % 32) as u32),
    {
        !self.is_set_low(out_val)
    }

    pub fn enable_output_driver(&self) -> (op: GpioOp)
        requires
            self.wf(),
        ensures
            op == output_enable_op(self.pin(), true),
    {
        self.output_enable(true)
    }

    pub fn disable_output_driver(&self) -> (op: GpioOp)
        requires
            self.wf(),
        ensures
            op == output_enable_op(self.pin(), false),
    {
        self.output_enable(false)
    }

    pub fn set_low(&self) -> (op: GpioOp)
        requires
            self.wf(),
        ensures
            op == state_op(self.pin(), PinState::Low),
    {
        self.write_state(PinState::Low)
    }

    pub fn set_high(&self) -> (op: GpioOp)
        requires
            self.wf(),
        ensures
            op == state_op(self.pin(), PinState::High),
    {
        self.write_state(PinState::High)
    }
}

pub proof fn lemma_masked_output_is_one_bit(offset: u16, other: u16)
    by (bit_vector)
    requires
        offset < 16,
        other < 16,
    ensures
        (!(1u16 << offset) & (1u16 << other) == 0) == (other == offset),
        ((1u16 << offset) & (1u16 << other) != 0) == (other == offset),
        0u16 & (1u16 << other) == 0,
        (1u16 << offset) & !(1u16 << offset) == 0,
        0u16 & !(1u16 << offset) == 0,
{
}

/// Whatever a pin is configured as, no access belongs to another pin.
pub proof fn pin_configuration_touches_only_the_pin(
    pin: int,
    level: PinState,
    pullup: bool,
    mux_conf: MuxConfig,
    opt_pullup: Option<bool>,
    io_type: Option<IoType>,
)
    requires
        0 <= pin < MIO_COUNT,
    ensures
        forall|i: int|
            0 <= i < push_pull_ops(pin, level).len() ==> touches_only(
                #[trigger] push_pull_ops(pin, level)[i],
                pin,
            ),
        forall|i: int|
            0 <= i < open_drain_ops(pin, level, pullup).len() ==> touches_only(
                #[trigger] open_drain_ops(pin, level, pullup)[i],
                pin,
            ),
        forall|i: int|
            0 <= i < disconnected_ops(pin).len() ==> touches_only(
                #[trigger] disconnected_ops(pin)[i],
                pin,
            ),
        forall|i: int|
            0 <= i < gpio_input_ops(pin, pullup).len() ==> touches_only(
                #[trigger] gpio_input_ops(pin, pullup)[i],
                pin,
            ),
        forall|i: int|
            0 <= i < periph_ops(pin, mux_conf, opt_pullup, io_type).len() ==> touches_only(
                #[trigger] periph_ops(pin, mux_conf, opt_pullup, io_type)[i],
                pin,
            ),
{
    lemma_masked_output_is_one_bit((pin % 16) as u16, 0);
    assert(touches_only(state_op(pin, level), pin));
}

/// Two pins never share a bit of a bank register, so updating one keeps the other.
pub proof fn distinct_pins_use_distinct_bits(pin: int, other: int, current: u32, value: bool)
    requires
        0 <= pin < MIO_COUNT,
        0 <= other < MIO_COUNT,
        pin != other,
        bank_of(pin) == bank_of(other),
    ensures
        bits::bit(bits::set_bit(current, (pin % 32) as u32, value), (other % 32) as u32)
            == bits::bit(current, (other % 32) as u32),
{
    bits::set_bit_changes_one_bit(current, (pin % 32) as u32, value, (other % 32) as u32);
}

/// Type-erased MIO pin.
#[derive(Debug, Clone, Copy, PartialEq, Eq, Structural)]
pub struct AnyPin {
    pub offset: u8,
}

impl AnyPin {
    pub fn new(offset: u8) -> (r: Self)
        ensures
            r.offset == offset,
    {
        AnyPin { offset }
    }

    pub fn offset(&self) -> (r: u8)
        ensures
            r == self.offset,
    {
        self.offset
    }

    /// Every pin but the two output-only ones can be configured as an input.
    pub fn is_input_capable(&self) -> (r: bool)
        ensures
            r == (self.offset < MIO_COUNT && !output_only(self.offset as int)),
    {
        self.offset < MIO_COUNT && self.offset != 7 && self.offset != 8
    }
}

/// MIO pin token accepted by the GPIO drivers.
pub trait Pin {
    /// The number of the pin.
    spec fn mio(&self) -> u8;

    fn offset(&self) -> (r: u8)
        ensures
            r == self.mio(),
    ;
}

impl Pin for AnyPin {
    open spec fn mio(&self) -> u8 {
        self.offset
    }

    fn offset(&self) -> (r: u8) {
        self.offset
    }
}

/// Ungates the bus clock of the GPIO block.
pub fn enable_gpio_clock() -> (ops: Vec<SlcrOp>)
    ensures
        ops@ == slcr::unlocked_one(SlcrOp::EnableAmbaClock(AmbaClock::Gpio)),
{
    slcr::with_unlocked_one(SlcrOp::EnableAmbaClock(AmbaClock::Gpio))
}

/// Runs `configure` and records the mode `next` only if it succeeded.
pub fn commit_input_mode<F: FnOnce() -> Result<(), PinIsOutputOnly>>(
    mode: &mut PinMode,
    next: PinMode,
    configure: F,
) -> (r: Result<(), PinIsOutputOnly>)
    requires
        call_requires(configure, ()),
    ensures
        call_ensures(configure, (), r),
        *final(mode) == (if r is Ok {
            next
        } else {
            *old(mode)
        }),
{
    let r = configure();
    if r.is_ok() {
        *mode = next;
    }
    r
}

/// Dynamic GPIO pin driver.
#[derive(Debug, Clone, Copy, PartialEq, Eq, Structural)]
pub struct Flex {
    pub ll: LowLevelGpio,
    pub mode: PinMode,
}

impl Flex {
    pub open spec fn wf(self) -> bool {
        self.ll.wf()
    }

    pub open spec fn pin(self) -> int {
        self.ll.pin()
    }

    /// A new driver, and the accesses that ungate the GPIO block.
    pub fn new(pin: AnyPin) -> (r: (Self, Vec<SlcrOp>))
        requires
            pin.offset < MIO_COUNT,
        ensures
            r.0.wf(),
            r.0.pin() == pin.offset,
            r.0.mode is Disconnected,
            r.1@ == slcr::unlocked_one(SlcrOp::EnableAmbaClock(AmbaClock::Gpio)),
    {
        let clock = enable_gpio_clock();
        let offset: usize = pin.offset() as usize;
        (
            Flex { ll: LowLevelGpio::new(PinOffset::Mio(offset)), mode: PinMode::Disconnected },
            clock,
        )
    }

    pub fn set_as_disconnected(&mut self) -> (ops: Vec<GpioOp>)
        requires
            old(self).wf(),
        ensures
            final(self).ll == old(self).ll,
            final(self).mode is Disconnected,
            ops@ == disconnected_ops(old(self).pin()),
    {
        self.mode = PinMode::Disconnected;
        self.ll.configure_as_disconnected()
    }

    pub fn set_as_input(&mut self) -> (r: Result<Vec<GpioOp>, PinIsOutputOnly>)
        requires
            old(self).wf(),
        ensures
            final(self).ll == old(self).ll,
            r is Err <==> output_only(old(self).pin()),
            r is Ok ==> r->Ok_0@ == gpio_input_ops(old(self).pin(), false),
            final(self).mode == (if r is Ok {
                PinMode::InputFloating
            } else {
                old(self).mode
            }),
    {
        self.configure_as_input_floating()
    }

    pub fn set_as_input_output(&mut self, level: PinState, with_internal_pullup: bool) -> (ops: Vec<
        GpioOp,
    >)
        requires
            old(self).wf(),
        ensures
            final(self).ll == old(self).ll,
            final(self).mode is OutputOpenDrain,
            ops@ == open_drain_ops(old(self).pin(), level, with_internal_pullup),
    {
        self.configure_as_output_open_drain(level, with_internal_pullup)
    }

    pub fn set_as_output(&mut self, level: PinState) -> (ops: Vec<GpioOp>)
        requires
            old(self).wf(),
        ensures
            final(self).ll == old(self).ll,
            final(self).mode is OutputPushPull,
            ops@ == push_pull_ops(old(self).pin(), level),
    {
        self.configure_as_output_push_pull(level)
    }

    pub fn configure_as_input_floating(&mut self) -> (r: Result<Vec<GpioOp>, PinIsOutputOnly>)
        requires
            old(self).wf(),
        ensures
            final(self).ll == old(self).ll,
            r is Err <==> output_only(old(self).pin()),
            r is Ok ==> r->Ok_0@ == gpio_input_ops(old(self).pin(), false),
            final(self).mode == (if r is Ok {
                PinMode::InputFloating
            } else {
                old(self).mode
            }),
    {
        let ops = self.ll.configure_as_input_floating();
        if ops.is_ok() {
            self.mode = PinMode::InputFloating;
        }
        ops
    }

    pub fn configure_as_input_with_pull_up(&mut self) -> (r: Result<Vec<GpioOp>, PinIsOutputOnly>)
        requires
            old(self).wf(),
        ensures
            final(self).ll == old(self).ll,
            r is Err <==> output_only(old(self).pin()),
            r is Ok ==> r->Ok_0@ == gpio_input_ops(old(self).pin(), true),
            final(self).mode == (if r is Ok {
                PinMode::InputPullUp
            } else {
                old(self).mode
            }),
    {
        let ops = self.ll.configure_as_input_with_pull_up();
        if ops.is_ok() {
            self.mode = PinMode::InputPullUp;
        }
        ops
    }

    pub fn configure_as_output_push_pull(&mut self, level: PinState) -> (ops: Vec<GpioOp>)
        requires
            old(self).wf(),
        ensures
            final(self).ll == old(self).ll,
            final(self).mode is OutputPushPull,
            ops@ == push_pull_ops(old(self).pin(), level),
    {
        self.mode = PinMode::OutputPushPull;
        self.ll.configure_as_output_push_pull(level)
    }

    pub fn configure_as_output_open_drain(
        &mut self,
        level: PinState,
        with_internal_pullup: bool,
    ) -> (ops: Vec<GpioOp>)
        requires
            old(self).wf(),
        ensures
            final(self).ll == old(self).ll,
            final(self).mode is OutputOpenDrain,
            ops@ == open_drain_ops(old(self).pin(), level, with_internal_pullup),
    {
        self.mode = PinMode::OutputOpenDrain;
        self.ll.configure_as_output_open_drain(level, with_internal_pullup)
    }

    /// Drives the pin high; an open-drain output is released instead of driven.
    pub fn set_high(&self) -> (ops: Vec<GpioOp>)
        requires
            self.wf(),
        ensures
            ops@ == set_level_ops(self.pin(), self.mode, PinState::High),
    {
        let mut ops: Vec<GpioOp> = Vec::new();
        ops.push(self.ll.set_high());
        if matches!(self.mode, PinMode::OutputOpenDrain) {
            ops.push(self.ll.disable_output_driver());
        }
        assert(ops@ =~= set_level_ops(self.pin(), self.mode, PinState::High));
        ops
    }

    /// Drives the pin low.
    pub fn set_low(&self) -> (ops: Vec<GpioOp>)
        requires
            self.wf(),
        ensures
            ops@ == set_level_ops(self.pin(), self.mode, PinState::Low),
    {
        let mut ops: Vec<GpioOp> = Vec::new();
        ops.push(self.ll.set_low());
        if matches!(self.mode, PinMode::OutputOpenDrain) {
            ops.push(self.ll.enable_output_driver());
        }
        assert(ops@ =~= set_level_ops(self.pin(), self.mode, PinState::Low));
        ops
    }

    pub fn is_high(&self, in_val: u32) -> (r: bool)
        requires
            self.wf(),
        ensures
            r == bits::bit(in_val, (self.pin() % 32) as u32),
    {
        self.ll.is_high(in_val)
    }

    pub fn is_low(&self, in_val: u32) -> (r: bool)
        requires
            self.wf(),
        ensures
            r == !bits::bit(in_val, (self.pin() % 32) as u32),
    {
        self.ll.is_low(in_val)
    }

    pub fn is_set_low(&self, out_val: u32) -> (r: bool)
        requires
            self.wf(),
        ensures
            r == !bits::bit(out_val, (self.pin() % 32) as u32),
    {
        self.ll.is_set_low(out_val)
    }

    pub fn is_set_high(&self, out_val: u32) -> (r: bool)
        requires
            self.wf(),
        ensures
            r == bits::bit(out_val, (self.pin() % 32) as u32),
    {
        self.ll.is_set_high(out_val)
    }

    /// Inverts the level that the pin is set to in `out_val`.
    pub fn toggle(&self, out_val: u32) -> (ops: Vec<GpioOp>)
        requires
            self.wf(),
        ensures
            ops@ == set_level_ops(
                self.pin(),
                self.mode,
                if bits::bit(out_val, (self.pin() % 32) as u32) {
                    PinState::Low
                } else {
                    PinState::High
                },
            ),
    {
        if self.is_set_high(out_val) {
            self.set_low()
        } else {
            self.set_high()
        }
    }
}

/// Drive a configured pin to `level`. Only an open-drain output moves its driver:
/// on for low, off for high.
pub open spec fn set_level_ops(pin: int, mode: PinMode, level: PinState) -> Seq<GpioOp> {
    if mode is OutputOpenDrain {
        seq![state_op(pin, level), output_enable_op(pin, level is Low)]
    } else {
        seq![state_op(pin, level)]
    }
}

/// GPIO output driver.
#[derive(Debug, Clone, Copy, PartialEq, Eq, Structural)]
pub struct Output {
    pub ll: LowLevelGpio,
}

impl Output {
    pub open spec fn wf(self) -> bool {
        self.ll.wf()
    }

    /// A new driver with its clock and pin accesses.
    pub fn new(pin: AnyPin, initial_output: PinState) -> (r: (Self, Vec<SlcrOp>, Vec<GpioOp>))
        requires
            pin.offset < MIO_COUNT,
        ensures
            r.0.wf(),
            r.0.ll.pin() == pin.offset,
            r.1@ == slcr::unlocked_one(SlcrOp::EnableAmbaClock(AmbaClock::Gpio)),
            r.2@ == push_pull_ops(pin.offset as int, initial_output),
    {
        let clock = enable_gpio_clock();
        let offset: usize = pin.offset() as usize;
        let ll = LowLevelGpio::new(PinOffset::Mio(offset));
        let ops = ll.configure_as_output_push_pull(initial_output);
        (Output { ll }, clock, ops)
    }

    pub fn set_low(&self) -> (op: GpioOp)
        requires
            self.wf(),
        ensures
            op == state_op(self.ll.pin(), PinState::Low),
    {
        self.ll.set_low()
    }

    pub fn set_high(&self) -> (op: GpioOp)
        requires
            self.wf(),
        ensures
            op == state_op(self.ll.pin(), PinState::High),
    {
        self.ll.set_high()
    }

    pub fn toggle(&self, out_val: u32) -> (op: GpioOp)
        requires
            self.wf(),
        ensures
            op == state_op(
                self.ll.pin(),
                if bits::bit(out_val, (self.ll.pin() % 32) as u32) {
                    PinState::Low
                } else {
                    PinState::High
                },
            ),
    {
        if self.is_set_high(out_val) {
            self.set_low()
        } else {
            self.set_high()
        }
    }

    pub fn is_set_high(&self, out_val: u32) -> (r: bool)
        requires
            self.wf(),
        ensures
            r == bits::bit(out_val, (self.ll.pin() % 32) as u32),
    {
        self.ll.is_set_high(out_val)
    }

    pub fn is_set_low(&self, out_val: u32) -> (r: bool)
        requires
            self.wf(),
        ensures
            r == !bits::bit(out_val, (self.ll.pin() % 32) as u32),
    {
        self.ll.is_set_low(out_val)
    }
}

/// GPIO input driver.
#[derive(Debug, Clone, Copy, PartialEq, Eq, Structural)]
pub struct Input {
    pub ll: LowLevelGpio,
}

impl Input {
    pub open spec fn wf(self) -> bool {
        self.ll.wf()
    }

    /// A new driver with its pin accesses, unless the pin is output-only.
    ///
    /// The GPIO block is ungated by [`enable_gpio_clock`] before, in either case.
    pub fn new(pin: AnyPin) -> (r: Result<(Self, Vec<GpioOp>), PinIsOutputOnly>)
        requires
            pin.offset < MIO_COUNT,
        ensures
            r is Err <==> output_only(pin.offset as int),
            r is Ok ==> {
                &&& r->Ok_0.0.wf()
                &&& r->Ok_0.0.ll.pin() == pin.offset
                &&& r->Ok_0.1@ == gpio_input_ops(pin.offset as int, false)
            },
    {
        let offset: usize = pin.offset() as usize;
        let ll = LowLevelGpio::new(PinOffset::Mio(offset));
        match ll.configure_as_input_floating() {
            Ok(ops) => Ok((Input { ll }, ops)),
            Err(e) => Err(e),
        }
    }

    pub fn is_high(&self, in_val: u32) -> (r: bool)
        requires
            self.wf(),
        ensures
            r == bits::bit(in_val, (self.ll.pin() % 32) as u32),
    {
        self.ll.is_high(in_val)
    }

    pub fn is_low(&self, in_val: u32) -> (r: bool)
        requires
            self.wf(),
        ensures
            r == !bits::bit(in_val, (self.ll.pin() % 32) as u32),
    {
        self.ll.is_low(in_val)
    }
}

} // verus!
