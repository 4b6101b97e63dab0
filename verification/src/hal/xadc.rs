//! Access to the on-chip system monitor over the PS-XADC interface.
use vstd::prelude::*;

use crate::bits;
use crate::pac::xadc::{
    CommandFifo, Config, DataFifo, InterruptStatus, MiscStatus, INTERRUPT_ACK_MASK,
};

verus! {

/// How often the status is read before a wait is given up.
pub const MAX_POLLS: u32 = 10_000;

/// Supported on-chip XADC monitor channels.
#[derive(Debug, Clone, Copy, PartialEq, Eq, Structural)]
pub enum Channel {
    Temperature,
    VccInt,
    VccAux,
    VccBram,
}

impl Channel {
    /// The register that holds the channel's conversion result.
    pub open spec fn address(self) -> u8 {
        match self {
            Channel::Temperature => 0x00,
            Channel::VccInt => 0x01,
            Channel::VccAux => 0x02,
            Channel::VccBram => 0x06,
        }
    }

    pub fn drp_addr(self) -> (r: u8)
        ensures
            r == self.address(),
    {
        match self {
            Channel::Temperature => 0x00,
            Channel::VccInt => 0x01,
            Channel::VccAux => 0x02,
            Channel::VccBram => 0x06,
        }
    }
}

/// Raw 16-bit conversion result.
#[derive(Debug, Clone, Copy, PartialEq, Eq, Structural)]
pub struct Sample {
    pub raw: u16,
}

impl Sample {
    pub fn from_raw(raw: u16) -> (r: Self)
        ensures
            r.raw == raw,
    {
        Sample { raw }
    }

    pub fn raw(self) -> (r: u16)
        ensures
            r == self.raw,
    {
        self.raw
    }

    /// The 12-bit ADC code in bits `[15:4]`.
    pub fn adc_code(self) -> (r: u16)
        ensures
            r == self.raw / 16,
            r < 4096,
    {
        let raw: u16 = self.raw;
        assert(raw >> 4 == raw / 16) by (bit_vector);
        raw >> 4
    }
}

#[derive(Debug, Clone, Copy, PartialEq, Eq, Structural)]
pub enum Error {
    /// The command FIFO remained full.
    CommandFifoFull,
    /// The data FIFO remained empty.
    DataFifoEmpty,
}

/// The command that reads the register at an address.
pub open spec fn read_command(addr: u8) -> u32 {
    (0x0C00_0000 + addr * 0x1_0000) as u32
}

pub fn prepare_read_command(addr: u8) -> (r: u32)
    ensures
        r == read_command(addr),
{
    assert((0b0011u32 << 26) | ((addr as u32) << 16) == 0x0C00_0000 + (addr as u32) * 0x1_0000)
        by (bit_vector);
    (0b0011u32 << 26) | ((addr as u32) << 16)
}

pub fn prepare_noop_command() -> (r: u32)
    ensures
        r == 0,
{
    0
}

/// Commands for different registers differ.
pub proof fn commands_name_the_register(a: u8, b: u8)
    ensures
        read_command(a) == read_command(b) ==> a == b,
        read_command(a) != 0,
{
}

/// Register accesses of the driver.
#[derive(Debug, Clone, Copy, PartialEq, Eq, Structural)]
pub enum XadcOp {
    /// Changes the reset bit of the miscellaneous control register.
    ModifyReset(bool),
    WriteConfig(Config),
    WriteInterruptStatus(InterruptStatus),
}

/// The configuration of the interface: enabled, both FIFO thresholds zero, data on
/// the falling edges, the second clock rate, and a gap of 20 clocks.
pub open spec fn init_config() -> u32 {
    let enabled = bits::set_bit(0, 31, true);
    let thresholds = bits::set_field(bits::set_field(enabled, 20, 4, 0), 16, 4, 0);
    let edges = bits::set_bit(bits::set_bit(thresholds, 13, false), 12, false);
    bits::set_field(bits::set_field(edges, 8, 2, 1), 0, 5, 20)
}

/// Driver of the interface at an address.
#[derive(Debug, Clone, Copy, PartialEq, Eq, Structural)]
pub struct Xadc {
    pub base_addr: usize,
}

impl Xadc {
    pub fn new(base_addr: usize) -> (r: Self)
        ensures
            r.base_addr == base_addr,
    {
        Xadc { base_addr }
    }

    /// Resets and enables the interface.
    pub fn init(&mut self) -> (ops: Vec<XadcOp>)
        ensures
            *final(self) == *old(self),
            ops@ == seq![
                XadcOp::ModifyReset(true),
                XadcOp::ModifyReset(false),
                XadcOp::WriteConfig(Config { raw: init_config() }),
                XadcOp::WriteInterruptStatus(InterruptStatus { raw: INTERRUPT_ACK_MASK }),
            ],
    {
        let config = Config::new_with_raw_value(0).with_enable(true).with_cfifo_threshold(
            0,
        ).with_dfifo_threshold(0).with_write_data_active_edge(false).with_read_data_active_edge(
            false,
        ).with_tck_rate(1).with_inter_packet_gap(20);
        let ops: Vec<XadcOp> = vec![
            XadcOp::ModifyReset(true),
            XadcOp::ModifyReset(false),
            XadcOp::WriteConfig(config),
            XadcOp::WriteInterruptStatus(InterruptStatus::ack_all()),
        ];
        assert(ops@ =~= seq![
            XadcOp::ModifyReset(true),
            XadcOp::ModifyReset(false),
            XadcOp::WriteConfig(Config { raw: init_config() }),
            XadcOp::WriteInterruptStatus(InterruptStatus { raw: INTERRUPT_ACK_MASK }),
        ]);
        ops
    }

    /// Starts to read a monitor register.
    pub fn read_raw(&mut self, channel: Channel) -> (r: RawRead)
        ensures
            *final(self) == *old(self),
            r.wf(),
            r.channel == channel,
            r.stage == ReadStage::SendRead,
    {
        RawRead { channel, stage: ReadStage::SendRead }
    }

    /// Starts to read the on-chip temperature sensor.
    pub fn read_temperature(&mut self) -> (r: RawRead)
        ensures
            *final(self) == *old(self),
            r.wf(),
            r.channel == Channel::Temperature,
            r.stage == ReadStage::SendRead,
    {
        self.read_raw(Channel::Temperature)
    }

    /// Starts to read a supply-monitor channel.
    pub fn read_voltage(&mut self, channel: Channel) -> (r: RawRead)
        ensures
            *final(self) == *old(self),
            r.wf(),
            r.channel == channel,
            r.stage == ReadStage::SendRead,
    {
        self.read_raw(channel)
    }
}

/// How far a read has come. The interface answers a command with the data of the
/// command before, so that the first word is dropped and a second command, which
/// does nothing, brings the result.
#[derive(Debug, Clone, Copy, PartialEq, Eq, Structural)]
pub enum ReadStage {
    SendRead,
    DrainRead { polls: u32 },
    AwaitStale { polls: u32 },
    SendNoop,
    DrainNoop { polls: u32 },
    AwaitData { polls: u32 },
}

/// What a read asks for after the status was read.
#[derive(Debug, Clone, Copy, PartialEq, Eq, Structural)]
pub enum ReadAction {
    /// Write the command, then read the status again.
    Write(CommandFifo),
    /// Read the status again.
    Poll,
    /// Take a word off the data FIFO and drop it, then read the status again.
    DropWord,
    /// Take a word off the data FIFO and hand it to [`RawRead::finish`].
    TakeWord,
    Fail(Error),
}

/// A read of a monitor register.
#[derive(Debug, Clone, Copy, PartialEq, Eq, Structural)]
pub struct RawRead {
    pub channel: Channel,
    pub stage: ReadStage,
}

/// The next stage of a wait, and what to do.
pub open spec fn waited(
    ready: bool,
    polls: u32,
    again: ReadStage,
    next: ReadStage,
    action: ReadAction,
    error: Error,
) -> (ReadStage, ReadAction) {
    if ready {
        (next, action)
    } else if polls + 1 < MAX_POLLS {
        (again, ReadAction::Poll)
    } else {
        (again, ReadAction::Fail(error))
    }
}

impl ReadStage {
    pub open spec fn polls(self) -> int {
        match self {
            ReadStage::DrainRead { polls } => polls as int,
            ReadStage::AwaitStale { polls } => polls as int,
            ReadStage::DrainNoop { polls } => polls as int,
            ReadStage::AwaitData { polls } => polls as int,
            _ => 0,
        }
    }
}

impl RawRead {
    pub open spec fn wf(self) -> bool {
        self.stage.polls() < MAX_POLLS
    }

    /// The stage and the action that follow on a status.
    pub open spec fn step_of(self, status: MiscStatus) -> (ReadStage, ReadAction) {
        let full = bits::bit(status.raw, 11);
        let drained = bits::bit(status.raw, 10);
        let has_data = !bits::bit(status.raw, 8);
        match self.stage {
            ReadStage::SendRead => if full {
                (self.stage, ReadAction::Fail(Error::CommandFifoFull))
            } else {
                (
                    ReadStage::DrainRead { polls: 0 },
                    ReadAction::Write(CommandFifo { raw: read_command(self.channel.address()) }),
                )
            },
            ReadStage::DrainRead { polls } => waited(
                drained,
                polls,
                ReadStage::DrainRead { polls: (polls + 1) as u32 },
                ReadStage::AwaitStale { polls: 0 },
                ReadAction::Poll,
                Error::CommandFifoFull,
            ),
            ReadStage::AwaitStale { polls } => waited(
                has_data,
                polls,
                ReadStage::AwaitStale { polls: (polls + 1) as u32 },
                ReadStage::SendNoop,
                ReadAction::DropWord,
                Error::DataFifoEmpty,
            ),
            ReadStage::SendNoop => if full {
                (self.stage, ReadAction::Fail(Error::CommandFifoFull))
            } else {
                (ReadStage::DrainNoop { polls: 0 }, ReadAction::Write(CommandFifo { raw: 0 }))
            },
            ReadStage::DrainNoop { polls } => waited(
                drained,
                polls,
                ReadStage::DrainNoop { polls: (polls + 1) as u32 },
                ReadStage::AwaitData { polls: 0 },
                ReadAction::Poll,
                Error::CommandFifoFull,
            ),
            ReadStage::AwaitData { polls } => waited(
                has_data,
                polls,
                ReadStage::AwaitData { polls: (polls + 1) as u32 },
                self.stage,
                ReadAction::TakeWord,
                Error::DataFifoEmpty,
            ),
        }
    }

    /// How many more status reads the stage allows at most.
    pub open spec fn steps_left(self) -> int {
        let polls = MAX_POLLS - self.stage.polls();
        match self.stage {
            ReadStage::SendRead => 4 * MAX_POLLS + 2,
            ReadStage::DrainRead { .. } => 3 * MAX_POLLS + 1 + polls,
            ReadStage::AwaitStale { .. } => 2 * MAX_POLLS + 1 + polls,
            ReadStage::SendNoop => 2 * MAX_POLLS + 1,
            ReadStage::DrainNoop { .. } => MAX_POLLS + polls,
            ReadStage::AwaitData { .. } => polls,
        }
    }

    fn send_command(&mut self, status: MiscStatus, command: u32, next: ReadStage) -> (r: ReadAction)
        ensures
            final(self).channel == old(self).channel,
            bits::bit(status.raw, 11) ==> r == ReadAction::Fail(Error::CommandFifoFull)
                && final(self).stage == old(self).stage,
            !bits::bit(status.raw, 11) ==> r == ReadAction::Write(CommandFifo { raw: command })
                && final(self).stage == next,
    {
        if status.cfifo_full() {
            return ReadAction::Fail(Error::CommandFifoFull);
        }
        self.stage = next;
        ReadAction::Write(CommandFifo::new_with_raw_value(command))
    }

    fn wait(
        &mut self,
        ready: bool,
        polls: u32,
        again: ReadStage,
        next: ReadStage,
        action: ReadAction,
        error: Error,
    ) -> (r: ReadAction)
        requires
            polls < MAX_POLLS,
        ensures
            final(self).channel == old(self).channel,
            (final(self).stage, r) == waited(ready, polls, again, next, action, error),
    {
        if ready {
            self.stage = next;
            action
        } else {
            self.stage = again;
            if polls + 1 < MAX_POLLS {
                ReadAction::Poll
            } else {
                ReadAction::Fail(error)
            }
        }
    }

    /// Goes on after the status was read.
    pub fn step(&mut self, status: MiscStatus) -> (r: ReadAction)
        requires
            old(self).wf(),
        ensures
            final(self).channel == old(self).channel,
            (final(self).stage, r) == old(self).step_of(status),
            r !is Fail ==> final(self).wf(),
    {
        match self.stage {
            ReadStage::SendRead => {
                let command: u32 = prepare_read_command(self.channel.drp_addr());
                self.send_command(status, command, ReadStage::DrainRead { polls: 0 })
            },
            ReadStage::DrainRead { polls } => self.wait(
                status.cfifo_empty(),
                polls,
                ReadStage::DrainRead { polls: polls + 1 },
                ReadStage::AwaitStale { polls: 0 },
                ReadAction::Poll,
                Error::CommandFifoFull,
            ),
            ReadStage::AwaitStale { polls } => self.wait(
                !status.dfifo_empty(),
                polls,
                ReadStage::AwaitStale { polls: polls + 1 },
                ReadStage::SendNoop,
                ReadAction::DropWord,
                Error::DataFifoEmpty,
            ),
            ReadStage::SendNoop => {
                let command: u32 = prepare_noop_command();
                self.send_command(status, command, ReadStage::DrainNoop { polls: 0 })
            },
            ReadStage::DrainNoop { polls } => self.wait(
                status.cfifo_empty(),
                polls,
                ReadStage::DrainNoop { polls: polls + 1 },
                ReadStage::AwaitData { polls: 0 },
                ReadAction::Poll,
                Error::CommandFifoFull,
            ),
            ReadStage::AwaitData { polls } => {
                let stage = self.stage;
                self.wait(
                    !status.dfifo_empty(),
                    polls,
                    ReadStage::AwaitData { polls: polls + 1 },
                    stage,
                    ReadAction::TakeWord,
                    Error::DataFifoEmpty,
                )
            },
        }
    }

    /// The sample that the last word holds.
    pub fn finish(self, word: DataFifo) -> (r: Sample)
        ensures
            r.raw == word.raw % 0x1_0000,
    {
        let data: u32 = word.read_data();
        assert(data as u16 == data % 0x1_0000) by (bit_vector);
        Sample::from_raw(data as u16)
    }
}

/// A read ends: every step that neither fails nor brings the result uses up one of
/// the status reads that are left.
pub proof fn read_ends(read: RawRead, status: MiscStatus)
    requires
        read.wf(),
    ensures
        ({
            let (stage, action) = read.step_of(status);
            let after = RawRead { stage, ..read };
            action is Fail || action is TakeWord || (after.wf() && 0 <= after.steps_left()
                < read.steps_left())
        }),
{
}

/// The interface is enabled with its clock divided by four and a gap of twenty cycles, and
/// with every threshold and edge at its lowest.
pub proof fn initial_configuration_enables_the_interface(j: u32)
    requires
        j < 32,
    ensures
        bits::bit(init_config(), j) == (j == 31 || j == 8 || j == 4 || j == 2),
{
    lemma_initial_configuration(init_config(), j);
}

proof fn lemma_initial_configuration(raw: u32, j: u32)
    by (bit_vector)
    requires
        raw == init_config(),
        j < 32,
    ensures
        bits::bit(raw, j) == (j == 31 || j == 8 || j == 4 || j == 2),
{
}

/// The place of a stage in a read.
pub open spec fn place(stage: ReadStage) -> int {
    match stage {
        ReadStage::SendRead => 0,
        ReadStage::DrainRead { .. } => 1,
        ReadStage::AwaitStale { .. } => 2,
        ReadStage::SendNoop => 3,
        ReadStage::DrainNoop { .. } => 4,
        ReadStage::AwaitData { .. } => 5,
    }
}

/// A read goes through its stages one by one, each as soon as the status allows: a command
/// where the command FIFO is not full, on once it is empty, and a word where the data FIFO is
/// not empty. It sends the read command of its channel, drops one word, sends a command that
/// does nothing, and takes the next word.
pub proof fn read_sends_drops_and_takes(read: RawRead, status: MiscStatus)
    requires
        read.wf(),
    ensures
        ({
            let (stage, action) = read.step_of(status);
            let from = place(read.stage);
            let allowed = match read.stage {
                ReadStage::SendRead => !bits::bit(status.raw, 11),
                ReadStage::SendNoop => !bits::bit(status.raw, 11),
                ReadStage::DrainRead { .. } => bits::bit(status.raw, 10),
                ReadStage::DrainNoop { .. } => bits::bit(status.raw, 10),
                ReadStage::AwaitStale { .. } => !bits::bit(status.raw, 8),
                ReadStage::AwaitData { .. } => !bits::bit(status.raw, 8),
            };
            let register: int = match read.channel {
                Channel::Temperature => 0,
                Channel::VccInt => 1,
                Channel::VccAux => 2,
                Channel::VccBram => 6,
            };
            &&& place(stage) == (if allowed && from < 5 {
                from + 1
            } else {
                from
            })
            &&& allowed ==> match read.stage {
                ReadStage::SendRead => action matches ReadAction::Write(command) && command.raw
                    == 0x0C00_0000 + 0x1_0000 * register,
                ReadStage::DrainRead { .. } => action is Poll,
                ReadStage::AwaitStale { .. } => action is DropWord,
                ReadStage::SendNoop => action matches ReadAction::Write(command) && command.raw
                    == 0,
                ReadStage::DrainNoop { .. } => action is Poll,
                ReadStage::AwaitData { .. } => action is TakeWord,
            }
            &&& !allowed ==> match read.stage {
                ReadStage::SendRead => action == ReadAction::Fail(Error::CommandFifoFull),
                ReadStage::SendNoop => action == ReadAction::Fail(Error::CommandFifoFull),
                ReadStage::DrainRead { .. } => action is Poll || action == ReadAction::Fail(
                    Error::CommandFifoFull,
                ),
                ReadStage::DrainNoop { .. } => action is Poll || action == ReadAction::Fail(
                    Error::CommandFifoFull,
                ),
                ReadStage::AwaitStale { .. } => action is Poll || action == ReadAction::Fail(
                    Error::DataFifoEmpty,
                ),
                ReadStage::AwaitData { .. } => action is Poll || action == ReadAction::Fail(
                    Error::DataFifoEmpty,
                ),
            }
            &&& !allowed && action is Poll ==> stage.polls() == read.stage.polls() + 1
            &&& !allowed && from % 3 != 0 ==> (action is Fail <==> read.stage.polls() + 1
                >= MAX_POLLS)
        }),
{
}

} // verus!
