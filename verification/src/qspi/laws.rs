//! What the accesses of the controller put on the wires of the flash.
use vstd::prelude::*;

use super::{
    begin_ops, close_ops, command_address_ops, command_ops, end_ops, initialize_ops, io_mode_ops,
    linear_mode_ops, open_ops, read_ops, reset_ops, AddressWidth, BaudRateConfig, ClockConfig,
    Config, ConfigUpdate, ControllerMode, Error, FlashAction, FlashCommand, FlashOperation,
    LinearQspiConfig, OperationKind, Phase, QspiOp, RegisterConfig, SpiMode, RESET_CYCLES,
};
use crate::slcr::laws::{
    bracketed_access_takes_effect, reset_pulse_takes_effect, sequences_follow_each_other, Slcr,
};
use crate::slcr::{unlocked_one, AmbaClock, QspiReset, SlcrOp};

verus! {

/// The bytes of a word, in the order in which they go out: least significant first.
pub open spec fn word_bytes(word: u32) -> Seq<u8> {
    seq![
        (word as int % 0x100) as u8,
        (word as int / 0x100 % 0x100) as u8,
        (word as int / 0x1_0000 % 0x100) as u8,
        (word as int / 0x100_0000) as u8,
    ]
}

/// The bytes that an access sends.
pub open spec fn sent_by(op: QspiOp) -> Seq<u8> {
    match op {
        QspiOp::WriteTx00(word) => word_bytes(word),
        QspiOp::WriteTx01(word) => word_bytes(word).take(1),
        QspiOp::WriteTx10(word) => word_bytes(word).take(2),
        _ => Seq::empty(),
    }
}

/// The bytes that the first `n` accesses send.
pub open spec fn sent_by_first(ops: Seq<QspiOp>, n: int) -> Seq<u8>
    decreases n,
{
    if n <= 0 {
        Seq::empty()
    } else {
        sent_by_first(ops, n - 1) + sent_by(ops[n - 1])
    }
}

/// The bytes that the accesses send, in order.
pub open spec fn wire(ops: Seq<QspiOp>) -> Seq<u8> {
    sent_by_first(ops, ops.len() as int)
}

/// Bytes read as a number, the most significant one first.
pub open spec fn big_endian(bytes: Seq<u8>) -> int
    decreases bytes.len(),
{
    if bytes.len() == 0 {
        0
    } else {
        big_endian(bytes.drop_last()) * 0x100 + bytes.last()
    }
}

proof fn lemma_big_endian_three(b: Seq<u8>)
    requires
        b.len() == 3,
    ensures
        big_endian(b) == b[0] * 0x1_0000 + b[1] * 0x100 + b[2],
{
    reveal_with_fuel(big_endian, 4);
    assert(b.drop_last().last() == b[1]);
    assert(b.drop_last().drop_last().last() == b[0]);
}

proof fn lemma_big_endian_four(b: Seq<u8>)
    requires
        b.len() == 4,
    ensures
        big_endian(b) == b[0] * 0x100_0000 + b[1] * 0x1_0000 + b[2] * 0x100 + b[3],
{
    lemma_big_endian_three(b.drop_last());
    assert(b.drop_last()[0] == b[0] && b.drop_last()[1] == b[1] && b.drop_last()[2] == b[2]);
}

/// The bytes of a word made of four bytes are those bytes.
pub proof fn word_of_bytes_sends_them(b0: u8, b1: u8, b2: u8, b3: u8, word: u32)
    requires
        word == b0 + b1 * 0x100 + b2 * 0x1_0000 + b3 * 0x100_0000,
    ensures
        word_bytes(word) == seq![b0, b1, b2, b3],
{
    let w = word as int;
    assert(w % 0x100 == b0);
    assert(w / 0x100 == b1 + b2 * 0x100 + b3 * 0x1_0000);
    assert(w / 0x1_0000 == b2 + b3 * 0x100);
    assert(w / 0x100_0000 == b3);
    assert(word_bytes(word) =~= seq![b0, b1, b2, b3]);
}

/// The bits of an address that are sent.
pub open spec fn sent_address(width: AddressWidth, address: u32) -> int {
    match width {
        AddressWidth::Bits24 => address as int % 0x100_0000,
        AddressWidth::Bits32 => address as int,
    }
}

pub open spec fn address_len(width: AddressWidth) -> int {
    match width {
        AddressWidth::Bits24 => 3,
        AddressWidth::Bits32 => 4,
    }
}

/// On the wire the bytes are an opcode and then an address with its most significant byte
/// first.
pub open spec fn is_opcode_and_address(
    bytes: Seq<u8>,
    width: AddressWidth,
    opcode: u8,
    address: u32,
) -> bool {
    &&& bytes.len() == 1 + address_len(width)
    &&& bytes[0] == opcode
    &&& big_endian(bytes.skip(1)) == sent_address(width, address)
}

/// A command with an address sends its opcode first, and then the address with its most
/// significant byte first: reading the address bytes back gives the address.
pub proof fn address_goes_out_most_significant_byte_first(
    width: AddressWidth,
    opcode: u8,
    address: u32,
)
    ensures
        is_opcode_and_address(
            wire(command_address_ops(width, opcode, address)),
            width,
            opcode,
            address,
        ),
{
    match width {
        AddressWidth::Bits24 => lemma_address_of_24_bits(opcode, address),
        AddressWidth::Bits32 => lemma_address_of_32_bits(opcode, address),
    }
}

/// The bytes of a number below two to the 32nd make it up again.
proof fn lemma_bytes_make_the_number(a: int)
    requires
        0 <= a < 0x1_0000_0000,
    ensures
        0 <= a / 0x100_0000 < 0x100,
        0 <= a / 0x1_0000 % 0x100 < 0x100,
        0 <= a / 0x100 % 0x100 < 0x100,
        0 <= a % 0x100 < 0x100,
        a == a / 0x100_0000 * 0x100_0000 + a / 0x1_0000 % 0x100 * 0x1_0000 + a / 0x100 % 0x100
            * 0x100 + a % 0x100,
        a % 0x100_0000 == a / 0x1_0000 % 0x100 * 0x1_0000 + a / 0x100 % 0x100 * 0x100 + a % 0x100,
{
}

proof fn lemma_address_of_24_bits(opcode: u8, address: u32)
    ensures
        is_opcode_and_address(
            wire(command_address_ops(AddressWidth::Bits24, opcode, address)),
            AddressWidth::Bits24,
            opcode,
            address,
        ),
{
    let a = address as int;
    lemma_bytes_make_the_number(a);
    let ops = command_address_ops(AddressWidth::Bits24, opcode, address);
    let b1 = (a / 0x1_0000 % 0x100) as u8;
    let b2 = (a / 0x100 % 0x100) as u8;
    let b3 = (a % 0x100) as u8;
    let word = ops[0]->WriteTx00_0;
    word_of_bytes_sends_them(opcode, b1, b2, b3, word);
    let bytes = wire(ops);
    assert(sent_by_first(ops, 0) == Seq::<u8>::empty());
    assert(bytes =~= seq![opcode, b1, b2, b3]);
    lemma_big_endian_three(bytes.skip(1));
}

proof fn lemma_address_of_32_bits(opcode: u8, address: u32)
    ensures
        is_opcode_and_address(
            wire(command_address_ops(AddressWidth::Bits32, opcode, address)),
            AddressWidth::Bits32,
            opcode,
            address,
        ),
{
    let a = address as int;
    lemma_bytes_make_the_number(a);
    let ops = command_address_ops(AddressWidth::Bits32, opcode, address);
    let b0 = (a / 0x100_0000) as u8;
    let b1 = (a / 0x1_0000 % 0x100) as u8;
    let b2 = (a / 0x100 % 0x100) as u8;
    let b3 = (a % 0x100) as u8;
    let word = ops[1]->WriteTx00_0;
    word_of_bytes_sends_them(b0, b1, b2, b3, word);
    let bytes = wire(ops);
    assert(sent_by_first(ops, 0) == Seq::<u8>::empty());
    assert(sent_by_first(ops, 1) =~= seq![opcode]);
    assert(bytes =~= seq![opcode, b0, b1, b2, b3]);
    lemma_big_endian_four(bytes.skip(1));
}

/// Every command sends the opcode that the configuration has for it. Erasing and
/// programming send their address behind it, reading the status makes room for one byte
/// of reply, and the other commands are a single byte.
pub proof fn commands_send_their_opcode(config: Config, command: FlashCommand)
    ensures
        ({
            let bytes = wire(command_ops(config, command));
            match command {
                FlashCommand::ReadStatus => bytes.len() == 2 && bytes[0]
                    == config.read_status_opcode,
                FlashCommand::WriteEnable => bytes == seq![config.write_enable_opcode],
                FlashCommand::ClearStatus { opcode } => bytes == seq![opcode],
                FlashCommand::Erase { address } => is_opcode_and_address(
                    bytes,
                    config.address_width,
                    config.erase_opcode,
                    address,
                ),
                FlashCommand::Program { address, .. } => is_opcode_and_address(
                    bytes,
                    config.address_width,
                    config.page_program_opcode,
                    address,
                ),
            }
        }),
{
    reveal_with_fuel(sent_by_first, 2);
    match command {
        FlashCommand::Erase { address } => {
            address_goes_out_most_significant_byte_first(
                config.address_width,
                config.erase_opcode,
                address,
            );
        },
        FlashCommand::Program { address, .. } => {
            address_goes_out_most_significant_byte_first(
                config.address_width,
                config.page_program_opcode,
                address,
            );
        },
        FlashCommand::WriteEnable => {
            assert(wire(command_ops(config, command)) =~= seq![config.write_enable_opcode]);
        },
        FlashCommand::ClearStatus { opcode } => {
            assert(wire(command_ops(config, command)) =~= seq![opcode]);
        },
        _ => {},
    }
}

/// The controller, as far as commands depend on it.
pub struct Port {
    pub config: RegisterConfig,
    pub enabled: bool,
    pub linear: LinearQspiConfig,
    /// What was sent since the flash was selected.
    pub sent: Seq<u8>,
    /// The transmission was started since the flash was selected.
    pub started: bool,
}

impl Port {
    /// The flash listens to single commands.
    pub open spec fn selected(self) -> bool {
        self.enabled && !self.config.peripheral_chip_select
    }

    /// Commands are sent word by word, and started and selected by hand.
    pub open spec fn in_io_mode(self) -> bool {
        &&& !self.linear.enable_linear_mode
        &&& self.config.manual_start_enable
        &&& self.config.manual_cs
    }

    /// The flash is mapped as `linear` says, and selected by the hardware.
    pub open spec fn in_linear_mode(self, linear: LinearQspiConfig) -> bool {
        &&& self.linear == linear
        &&& !self.config.manual_start_enable
        &&& !self.config.manual_cs
        &&& !self.config.peripheral_chip_select
    }

    pub open spec fn in_mode(self, mode: ControllerMode, linear: LinearQspiConfig) -> bool {
        match mode {
            ControllerMode::Io => self.in_io_mode(),
            ControllerMode::Linear => self.in_linear_mode(linear),
        }
    }

    pub open spec fn after(self, op: QspiOp) -> Port {
        match op {
            QspiOp::WriteConfig(config) => Port { config, ..self },
            QspiOp::ModifyConfig(update) => Port {
                config: update.applied(self.config),
                sent: if update == ConfigUpdate::PeripheralChipSelect(false) {
                    Seq::empty()
                } else {
                    self.sent
                },
                started: if update is ManualStartCommand {
                    self.selected()
                } else if update == ConfigUpdate::PeripheralChipSelect(false) {
                    false
                } else {
                    self.started
                },
                ..self
            },
            QspiOp::WriteSpiEnable(enable) => Port { enabled: enable, ..self },
            QspiOp::WriteLinearConfig(linear) => Port { linear, ..self },
            _ => if self.selected() {
                Port { sent: self.sent + sent_by(op), ..self }
            } else {
                self
            },
        }
    }

    /// The controller after the first `n` accesses.
    pub open spec fn after_first(self, ops: Seq<QspiOp>, n: int) -> Port
        decreases n,
    {
        if n <= 0 {
            self
        } else {
            self.after_first(ops, n - 1).after(ops[n - 1])
        }
    }

    pub open spec fn after_all(self, ops: Seq<QspiOp>) -> Port {
        self.after_first(ops, ops.len() as int)
    }
}

proof fn lemma_in_a_row(p: Port, a: Seq<QspiOp>, b: Seq<QspiOp>, n: int)
    requires
        -a.len() <= n <= b.len(),
    ensures
        n >= 0 ==> p.after_first(a + b, a.len() + n) == p.after_all(a).after_first(b, n),
        n <= 0 ==> p.after_first(a + b, a.len() + n) == p.after_first(a, a.len() + n),
    decreases a.len() + n,
{
    if a.len() + n > 0 {
        lemma_in_a_row(p, a, b, n - 1);
        if n > 0 {
            assert((a + b)[a.len() + n - 1] == b[n - 1]);
        } else {
            assert((a + b)[a.len() + n - 1] == a[a.len() + n - 1]);
        }
    }
}

/// Words that are sent while the flash is selected all reach it.
proof fn lemma_words_reach_the_flash(p: Port, ops: Seq<QspiOp>, n: int)
    requires
        p.selected(),
        0 <= n <= ops.len(),
        forall|i: int|
            0 <= i < n ==> (#[trigger] ops[i] is WriteTx00 || ops[i] is WriteTx01
                || ops[i] is WriteTx10),
    ensures
        p.after_first(ops, n) == (Port { sent: p.sent + sent_by_first(ops, n), ..p }),
    decreases n,
{
    if n > 0 {
        lemma_words_reach_the_flash(p, ops, n - 1);
        assert((p.sent + sent_by_first(ops, n - 1)) + sent_by(ops[n - 1]) =~= p.sent
            + sent_by_first(ops, n));
    } else {
        assert(p.sent + sent_by_first(ops, 0) =~= p.sent);
    }
}

/// The switch to single commands takes effect, whatever the mode was before.
pub proof fn io_mode_is_entered(p: Port, dual_flash: bool)
    ensures
        p.after_all(io_mode_ops(dual_flash)).in_io_mode(),
        p.after_all(io_mode_ops(dual_flash)).linear.both_memories == dual_flash,
        p.after_all(io_mode_ops(dual_flash)).linear.separate_memory_bus == dual_flash,
{
    let ops = io_mode_ops(dual_flash);
    assert(p.after_first(ops, 0) == p);
    assert(p.after_first(ops, 1) == p.after(ops[0]));
    assert(p.after_first(ops, 2) == p.after(ops[0]).after(ops[1]));
    assert(p.after_first(ops, 3) == p.after(ops[0]).after(ops[1]).after(ops[2]));
    assert(p.after_first(ops, 4) == p.after(ops[0]).after(ops[1]).after(ops[2]).after(ops[3]));
}

/// The switch to the mapped flash takes effect, while the controller is off.
pub proof fn linear_mode_is_entered(p: Port, linear: LinearQspiConfig)
    ensures
        p.after_all(linear_mode_ops(linear)).in_linear_mode(linear),
        !p.after_all(linear_mode_ops(linear)).enabled,
        !p.after_first(linear_mode_ops(linear), 1).enabled,
{
    let ops = linear_mode_ops(linear);
    assert(p.after_first(ops, 0) == p);
    assert(p.after_first(ops, 1) == p.after(ops[0]));
    assert(p.after_first(ops, 2) == p.after(ops[0]).after(ops[1]));
    assert(p.after_first(ops, 3) == p.after(ops[0]).after(ops[1]).after(ops[2]));
}

/// Opening selects the flash, with nothing sent yet.
pub proof fn flash_is_selected(p: Port)
    requires
        p.in_io_mode(),
    ensures
        p.after_all(open_ops()).selected(),
        p.after_all(open_ops()).in_io_mode(),
        p.after_all(open_ops()).sent == Seq::<u8>::empty(),
        !p.after_all(open_ops()).started,
{
    let open = open_ops();
    let p1 = p.after(open[0]);
    let p2 = p1.after(open[1]);
    assert(p1 == Port { sent: p1.sent, ..p });
    assert(p2 == Port {
        config: RegisterConfig { peripheral_chip_select: false, ..p.config },
        sent: Seq::empty(),
        started: false,
        ..p1
    });
    assert(p.after_first(open, 0) == p);
    assert(p.after_first(open, 1) == p1);
    assert(p.after_first(open, 2) == p2);
    assert(p.after_first(open, 3) == p2.after(open[2]));
}

/// A command that was begun has reached the selected flash byte for byte, and nothing
/// before it. It is started, but for a program command, whose data follows.
pub proof fn begun_command_reaches_the_flash(
    p: Port,
    config: Config,
    mode: ControllerMode,
    command: FlashCommand,
)
    requires
        p.in_mode(mode, config.linear_config),
    ensures
        ({
            let after = p.after_all(begin_ops(config, mode, command));
            &&& after.in_io_mode()
            &&& after.selected()
            &&& after.sent == wire(command_ops(config, command))
            &&& after.started == !(command is Program)
        }),
{
    let switch = if mode is Io {
        Seq::<QspiOp>::empty()
    } else {
        io_mode_ops(config.linear_config.both_memories)
    };
    let words = command_ops(config, command);
    let start = if command is Program {
        Seq::<QspiOp>::empty()
    } else {
        seq![QspiOp::ModifyConfig(ConfigUpdate::ManualStartCommand)]
    };
    let open = open_ops();
    assert(begin_ops(config, mode, command) == switch + open + words + start);
    io_mode_is_entered(p, config.linear_config.both_memories);
    let switched = p.after_all(switch);
    assert(switched.in_io_mode());
    lemma_in_a_row(p, switch, open, open.len() as int);
    let opened = switched.after_all(open);
    flash_is_selected(switched);
    lemma_in_a_row(p, switch + open, words, words.len() as int);
    lemma_words_reach_the_flash(opened, words, words.len() as int);
    let queued = p.after_all(switch + open + words);
    assert(queued.sent =~= wire(words));
    assert(queued == Port { sent: wire(words), ..opened });
    lemma_in_a_row(p, switch + open + words, start, start.len() as int);
    if !(command is Program) {
        assert(queued.after_first(start, 0) == queued);
        assert(queued.after_first(start, 1) == queued.after(start[0]));
    }
}

/// A command that was ended has released the flash. After a reply the flash is mapped
/// again, and without one it is ready for the next command.
pub proof fn ended_command_releases_the_flash(
    p: Port,
    config: Config,
    mode: ControllerMode,
    replied: bool,
)
    requires
        p.in_io_mode(),
        mode is Io,
    ensures
        ({
            let after = p.after_all(end_ops(config, mode, replied));
            &&& !after.enabled
            &&& replied ==> after.in_linear_mode(config.linear_config)
            &&& !replied ==> after.in_io_mode() && after.config.peripheral_chip_select
        }),
        p.after_first(end_ops(config, mode, replied), 1).config.peripheral_chip_select,
{
    let close = close_ops();
    let closed = p.after_all(close);
    assert(p.after_first(close, 0) == p);
    assert(p.after_first(close, 1) == p.after(close[0]));
    assert(closed == p.after(close[0]).after(close[1]));
    let rest = if replied {
        linear_mode_ops(config.linear_config)
    } else {
        Seq::<QspiOp>::empty()
    };
    assert(end_ops(config, mode, replied) == close + rest);
    lemma_in_a_row(p, close, rest, rest.len() as int);
    lemma_in_a_row(p, close, rest, -1);
    linear_mode_is_entered(closed, config.linear_config);
}

/// A flash that is to be read is mapped and the controller on.
pub proof fn readable_flash_is_mapped(p: Port, config: Config, mode: ControllerMode)
    requires
        p.in_mode(mode, config.linear_config),
    ensures
        p.after_all(read_ops(config, mode)).in_linear_mode(config.linear_config),
        p.after_all(read_ops(config, mode)).enabled,
{
    let switch = if mode is Linear {
        Seq::<QspiOp>::empty()
    } else {
        linear_mode_ops(config.linear_config)
    };
    let on = seq![QspiOp::WriteSpiEnable(true)];
    assert(read_ops(config, mode) == switch + on);
    lemma_in_a_row(p, switch, on, 1);
    linear_mode_is_entered(p, config.linear_config);
    let switched = p.after_all(switch);
    assert(switched.after_first(on, 0) == switched);
    assert(switched.after_first(on, 1) == switched.after(on[0]));
}

/// While the flash reports that it works on a command (bit zero of its status), nothing but
/// its status is asked for, or the operation gives up.
pub proof fn busy_flash_is_left_alone(config: Config, op: FlashOperation, status: u8)
    requires
        op.phase is Ready,
        status % 2 == 1,
    ensures
        ({
            let (next, action) = op.after(config, status);
            ||| action == FlashAction::Send(FlashCommand::ReadStatus) && next.phase is Ready
                && next.address == op.address && next.remaining == op.remaining
            ||| action == FlashAction::Finish(Err(Error::BusyTimeout))
        }),
{
}

/// Where the flash reports an erase or program failure (bits five and six of its status),
/// the failure is cleared and then reported; otherwise the next round follows.
pub proof fn failures_of_the_flash_are_reported(config: Config, op: FlashOperation, status: u8)
    requires
        op.wf(config),
        op.phase is Verify,
        config.clear_status_opcode is Some,
    ensures
        ({
            let failed = (status as int / 0x20) % 2 == 1 || (status as int / 0x40) % 2 == 1;
            let (next, action) = op.after(config, status);
            &&& failed ==> action == FlashAction::Send(
                FlashCommand::ClearStatus { opcode: config.clear_status_opcode->0 },
            )
            &&& failed ==> next.after(config, status).1 == FlashAction::Finish(
                Err(Error::OperationFailed),
            )
            &&& !failed ==> !(action matches FlashAction::Finish(Err(_)))
            &&& !failed ==> next.remaining == op.remaining - op.current_len(config)
        }),
{
    let s = status as int;
    assert((s / 0x20) % 4 == (s / 0x20) % 2 + 2 * ((s / 0x40) % 2));
    super::rounds_cover_the_range(config, op);
    super::success_means_all_done(config, op, status);
}

/// Erasing covers whole sectors and programming stays in a page, each at the address
/// that the operation has reached.
pub proof fn rounds_send_the_reached_address(config: Config, op: FlashOperation, status: u8)
    requires
        op.wf(config),
        op.phase is Latch,
        status / 2 % 2 == 1,
    ensures
        op.kind is Erase ==> op.after(config, status).1 == FlashAction::Send(
            FlashCommand::Erase { address: op.address },
        ) && op.current_len(config) == config.erase_size,
        op.kind is Write ==> (op.after(config, status).1 matches FlashAction::Send(
            FlashCommand::Program { address, first, len },
        ) && address == op.address && first == op.first && len <= op.remaining),
{
    if op.kind is Write {
        super::program_stays_in_one_page(config, op);
    }
}

/// Bringing the controller up ungates its bus clock, holds both of its reset lines and releases
/// them, selects and activates its reference clock as asked, and ends with the system
/// registers locked.
pub proof fn brought_up_controller_is_clocked_and_reset(
    s: Slcr,
    clock_config: ClockConfig,
    mode: SpiMode,
)
    ensures
        ({
            let ops = initialize_ops(clock_config, mode);
            let part = Seq::new(11, |i: int| ops[i]->Slcr_0);
            let after = s.after_all(part);
            &&& ops.len() >= 12
            &&& forall|i: int| 0 <= i < 11 ==> #[trigger] ops[i] is Slcr
            &&& after.amba == s.amba.insert(AmbaClock::Qspi)
            &&& after.qspi_held.qspi_ref_reset && after.qspi_held.cpu_1x_reset
            &&& !after.qspi_reset.qspi_ref_reset && !after.qspi_reset.cpu_1x_reset
            &&& after.qspi_clock
            &&& after.qspi_source == (clock_config.src_sel, clock_config.ref_clk_div)
            &&& !after.unlocked
        }),
{
    let gate = SlcrOp::EnableAmbaClock(AmbaClock::Qspi);
    let clock = SlcrOp::WriteQspiClock {
        src_sel: clock_config.src_sel,
        divisor: clock_config.ref_clk_div,
    };
    let ops = initialize_ops(clock_config, mode);
    let part = Seq::new(11, |i: int| ops[i]->Slcr_0);
    let a = unlocked_one(gate);
    let b = reset_ops();
    let c = unlocked_one(clock);
    assert(a.len() == 3 && b.len() == 5 && c.len() == 3);
    assert(part =~= a + b + c);
    sequences_follow_each_other(s, a + b, c);
    sequences_follow_each_other(s, a, b);
    bracketed_access_takes_effect(s, gate);
    let gated = s.after_all(a);
    reset_pulse_takes_effect(
        gated,
        SlcrOp::WriteQspiReset(QspiReset { qspi_ref_reset: true, cpu_1x_reset: true }),
        RESET_CYCLES,
        SlcrOp::WriteQspiReset(QspiReset { qspi_ref_reset: false, cpu_1x_reset: false }),
    );
    bracketed_access_takes_effect(gated.after_all(b), clock);
}

/// A controller that was brought up is a master of the flash interface with words of four
/// bytes, least significant first, that selects and starts by itself. Its clock rests low in
/// the first two modes and is inactive outside of words in every second one. The looped back
/// clock is used exactly where it is asked for, at half the reference clock.
pub proof fn brought_up_controller_is_a_master(clock_config: ClockConfig, mode: SpiMode)
    ensures
        ({
            let ops = initialize_ops(clock_config, mode);
            let looped = clock_config.baud_rate_config is WithLoopback;
            &&& (ops[11] matches QspiOp::WriteConfig(config) && {
                &&& config.mode_select && config.flash_memory_interface && config.holdb_dr
                &&& config.fifo_width == 3 && !config.big_endian
                &&& !config.manual_cs && !config.manual_start_enable
                &&& !config.manual_start_command && !config.peripheral_chip_select
                &&& (config.clock_polarity is QuiescentLow) == (mode is Mode0 || mode is Mode1)
                &&& (config.clock_phase is InactiveOutsideOfWord) == (mode is Mode1
                    || mode is Mode3)
                &&& looped ==> config.baud_rate_div is Div2
                &&& clock_config.baud_rate_config matches BaudRateConfig::WithoutLoopback(d)
                    ==> config.baud_rate_div == d
            })
            &&& ops.len() == (if looped {
                13int
            } else {
                12
            })
            &&& looped ==> ops[12] is UseLoopbackClock
        }),
{
}

} // verus!
