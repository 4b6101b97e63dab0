//! What commands, transfers and the bring-up of a controller do.
use vstd::prelude::*;

use super::card::{self, CardType};
use super::sd::{
    batch, batch_count, batches, rca_argument, Acquire, Batch, CardAction, Direction, Host,
    Progress, Reply, SdCardInfo,
};
use super::{
    as_slcr_ops, blocks_and_adma, clock_ops, command_signals, initialize_ops, issue_ops, no_status,
    prepared_transfer, transfer_clock_ops, transfer_signals, BlockSelect, BusMode, ClockControl,
    Command, CommandRegister, CommandType, Config, DmaSelect, Error, HostControl, HostUpdate,
    InterruptStatus, ResponseType, SdBusVoltageSelect, SdioId, SdioOp, StatusWrapper,
    TransferDirection,
};
use crate::arith;
use crate::cache::CacheOp;
use crate::slcr::laws::{bracketed_access_takes_effect, reset_pulse_takes_effect, Slcr};
use crate::slcr::{AmbaClock, SlcrOp};

verus! {

/// The number of a command in the card protocol.
pub open spec fn protocol_number(command: Command) -> int {
    match command {
        Command::Cmd0GoIdleMode => 0,
        Command::Cmd2AllSendCid => 2,
        Command::Cmd3SendRelativeAddr => 3,
        Command::Cmd7SelectSdCard => 7,
        Command::Cmd8SendIfCond => 8,
        Command::Cmd9SendCsd => 9,
        Command::Cmd13SendStatus => 13,
        Command::Cmd16SetBlocklen => 16,
        Command::Cmd17ReadSingleBlock => 17,
        Command::Cmd18ReadMultipleBlocks => 18,
        Command::Cmd24WriteBlock => 24,
        Command::Cmd25WriteMultipleBlocks => 25,
        Command::Cmd55AppCmd => 55,
        Command::Acmd6SetBusWidth => 6,
        Command::Acmd41SendOpCond => 41,
        Command::Acmd51SendScr => 51,
    }
}

/// The command moves data from the card.
pub open spec fn reads_data(command: Command) -> bool {
    command is Cmd17ReadSingleBlock || command is Cmd18ReadMultipleBlocks
        || command is Acmd51SendScr
}

/// The command moves data to the card.
pub open spec fn writes_data(command: Command) -> bool {
    command is Cmd24WriteBlock || command is Cmd25WriteMultipleBlocks
}

/// The command moves any number of blocks.
pub open spec fn moves_many_blocks(command: Command) -> bool {
    command is Cmd18ReadMultipleBlocks || command is Cmd25WriteMultipleBlocks
}

/// The command register of every command holds its number and says what follows it: whether
/// data does, which way it moves, how many blocks, and what the card answers.
pub proof fn command_registers_say_what_follows(command: Command)
    ensures
        ({
            let register = command.encoding();
            let data = reads_data(command) || writes_data(command);
            &&& register.command_index == protocol_number(command)
            &&& register.command_type is Normal
            &&& register.data_is_present == data
            &&& register.dma_enable == data
            &&& reads_data(command) ==> register.data_transfer_direction is Read
            &&& writes_data(command) ==> register.data_transfer_direction is Write
            &&& (register.block_select is MultiBlock) == moves_many_blocks(command)
            &&& register.auto_cmd12_enable == moves_many_blocks(command)
            &&& register.block_count_enable == moves_many_blocks(command)
            &&& (register.response_type_select is NoResponse) == (command is Cmd0GoIdleMode)
            &&& (register.response_type_select is Bits136) == (command is Cmd2AllSendCid
                || command is Cmd9SendCsd)
            &&& register.command_index_check_enable == !(command is Cmd0GoIdleMode
                || command is Cmd2AllSendCid || command is Cmd3SendRelativeAddr
                || command is Cmd9SendCsd || command is Acmd41SendOpCond)
            &&& register.command_crc_check_enable == !(command is Cmd0GoIdleMode
                || command is Cmd3SendRelativeAddr || command is Acmd41SendOpCond)
        }),
{
}

/// Every batch of a write moves its blocks to the card, and every batch of a read from the
/// card, with the command for one block exactly where it is one. It starts where its
/// blocks lie: at their number on high-capacity cards, and at their first byte, 512 for
/// each block before it, on the others, wherever that fits the argument of a command.
pub proof fn batches_move_their_blocks_the_right_way(
    card_type: CardType,
    direction: Direction,
    block_idx: int,
    count: int,
    k: int,
)
    requires
        0 < count <= usize::MAX,
        0 <= block_idx,
        0 <= k < batches(card_type, direction, block_idx, count).len(),
    ensures
        ({
            let b = batches(card_type, direction, block_idx, count)[k];
            let register = b.command.encoding();
            &&& direction is Write ==> b.command == (if b.blocks == 1 {
                Command::Cmd24WriteBlock
            } else {
                Command::Cmd25WriteMultipleBlocks
            })
            &&& direction is Read ==> b.command == (if b.blocks == 1 {
                Command::Cmd17ReadSingleBlock
            } else {
                Command::Cmd18ReadMultipleBlocks
            })
            &&& register.data_is_present && register.dma_enable
            &&& direction is Write <==> register.data_transfer_direction is Write
            &&& direction is Read <==> register.data_transfer_direction is Read
            &&& (register.block_select is MultiBlock) == (b.blocks > 1)
            &&& b.first == k * 4096
            &&& 0 < b.blocks <= 4096
            &&& b.first + b.blocks <= count
            &&& card_type is SdhcSdxc && block_idx + count <= u32::MAX ==> b.address == block_idx
                + b.first
            &&& !(card_type is SdhcSdxc) && (block_idx + count) * 512 <= u32::MAX ==> b.address == (
            block_idx + b.first) * 512
        }),
{
    arith::ceil_div_is_least_cover(count, 4096);
    let b = batches(card_type, direction, block_idx, count)[k];
    assert(b == batch(card_type, direction, block_idx, count, k));
    assert(k * 4096 < count) by (nonlinear_arith)
        requires
            k <= batch_count(count) - 1,
            (batch_count(count) - 1) * 4096 < count,
    ;
    assert(b.first == k * 4096);
}

/// The argument of a command that is meant for one card holds the card's address in its
/// upper half and nothing in its lower half.
pub proof fn card_address_is_the_upper_half(rca: u16)
    ensures
        rca_argument(rca) as int / 0x1_0000 == rca,
        rca_argument(rca) as int % 0x1_0000 == 0,
{
}

/// The command of an action, and its argument.
pub open spec fn command_of(action: CardAction) -> Command {
    match action {
        CardAction::Send { command, .. } => command,
        CardAction::ReadScr { command, .. } => command,
    }
}

pub open spec fn argument_of(action: CardAction) -> u32 {
    match action {
        CardAction::Send { arg, .. } => arg,
        CardAction::ReadScr { arg, .. } => arg,
    }
}

/// The command is one that a card only takes right after the prefix of an
/// application command.
pub open spec fn is_application_command(command: Command) -> bool {
    command is Acmd6SetBusWidth || command is Acmd41SendOpCond || command is Acmd51SendScr
}

/// The last command was the prefix of an application command.
pub open spec fn prefix_was_sent(state: Acquire) -> bool {
    state is OpCondPrefix || state is ScrPrefix || state is BusWidthPrefix
}

/// The card that was identified, once its address is known.
pub open spec fn known_card(state: Acquire) -> Option<SdCardInfo> {
    match state {
        Acquire::Select { info }
        | Acquire::Status { info }
        | Acquire::ScrBlockLen { info }
        | Acquire::ScrPrefix { info }
        | Acquire::Scr { info }
        | Acquire::BusWidthPrefix { info }
        | Acquire::BusWidth { info }
        | Acquire::BlockLen { info } => Some(info),
        _ => None,
    }
}

/// An application command is only sent where the card has just confirmed the prefix, and
/// nothing else follows a prefix: without the confirmation the identification fails.
pub proof fn application_commands_follow_a_confirmed_prefix(
    state: Acquire,
    host: Host,
    reply: Reply,
    now: u64,
)
    ensures
        ({
            let next = state.after_reply(host, reply, now);
            &&& next matches Progress::Next { action, .. } ==> (is_application_command(
                command_of(action),
            ) <==> prefix_was_sent(state))
            &&& prefix_was_sent(state) && !card::status_app_cmd(reply.response) ==> next
                == Progress::Failed(Error::UnexpectedResponse)
        }),
{
}

/// What is sent fits the state that awaits the reply.
pub proof fn awaited_replies_are_asked_for(
    state: Acquire,
    host: Host,
    reply: Reply,
    now: u64,
)
    ensures
        state.after_reply(host, reply, now) matches Progress::Next { state: next, action, .. } ==> {
            let command = command_of(action);
            match next {
                Acquire::GoIdle => command is Cmd0GoIdleMode,
                Acquire::IfCond { .. } => command is Cmd8SendIfCond,
                Acquire::OpCondPrefix { .. }
                | Acquire::ScrPrefix { .. }
                | Acquire::BusWidthPrefix { .. } => command is Cmd55AppCmd,
                Acquire::OpCond { .. } => command is Acmd41SendOpCond,
                Acquire::AllSendCid { .. } => command is Cmd2AllSendCid,
                Acquire::RelativeAddr { .. } => command is Cmd3SendRelativeAddr,
                Acquire::SendCsd { .. } => command is Cmd9SendCsd,
                Acquire::Select { .. } => command is Cmd7SelectSdCard,
                Acquire::Status { .. } => command is Cmd13SendStatus,
                Acquire::ScrBlockLen { .. } => command is Cmd16SetBlocklen && argument_of(action)
                    == 8,
                Acquire::Scr { .. } => command is Acmd51SendScr && action is ReadScr,
                Acquire::BusWidth { .. } => command is Acmd6SetBusWidth,
                Acquire::BlockLen { .. } => command is Cmd16SetBlocklen && argument_of(action)
                    == 512,
            }
        },
        state.after_reply(host, reply, now) matches Progress::Next { state: next, action, .. } ==> {
            match known_card(next) {
                Some(info) => command_of(action) is Cmd55AppCmd || command_of(
                    action,
                ) is Cmd7SelectSdCard || command_of(action) is Cmd13SendStatus ==> argument_of(
                    action,
                ) as int == info.rca * 0x1_0000,
                None => true,
            }
        },
        state.after_reply(host, reply, now) matches Progress::Next {
            state: Acquire::SendCsd { rca, .. },
            action,
            ..
        } ==> argument_of(action) as int == rca * 0x1_0000,
{
}

/// A high-capacity card is ready without a block length; every other one gets 512 bytes
/// set first. A card is only used once it reported that it can transfer.
pub proof fn cards_are_ready_before_use(state: Acquire, host: Host, reply: Reply, now: u64)
    ensures
        state.after_reply(host, reply, now) matches Progress::Acquired { info, .. } ==> {
            ||| info.card_type is SdhcSdxc
            ||| state is BlockLen
        },
        state is Status && card::status_state(reply.response) != Some(card::State::Tran)
            ==> state.after_reply(host, reply, now) == Progress::Failed(Error::UnexpectedResponse),
        state.after_reply(host, reply, now) matches Progress::Acquired {
            set_four_bit: true,
            ..
        } ==> state is BusWidth,
{
}

/// The command side of a controller: its argument register, the commands that were
/// issued, each with its argument, and whether stale status is left.
pub struct CommandPort {
    pub argument: u32,
    pub issued: Seq<(CommandRegister, u32)>,
    pub stale: bool,
}

impl CommandPort {
    pub open spec fn after(self, op: SdioOp) -> CommandPort {
        match op {
            SdioOp::AckAllStatus => CommandPort { stale: false, ..self },
            SdioOp::WriteArgument(arg) => CommandPort { argument: arg, ..self },
            SdioOp::WriteCommand(register) => CommandPort {
                issued: self.issued.push((register, self.argument)),
                stale: true,
                ..self
            },
            _ => self,
        }
    }
}

/// Issuing a command sends it once, with its argument, after stale status was cleared.
pub proof fn command_is_issued_with_its_argument(p: CommandPort, command: Command, arg: u32)
    ensures
        ({
            let ops = issue_ops(command, arg);
            let after = p.after(ops[0]).after(ops[1]).after(ops[2]);
            &&& ops.len() == 3
            &&& !p.after(ops[0]).after(ops[1]).stale
            &&& after.issued == p.issued.push((command.encoding(), arg))
        }),
{
}

/// The clock register after the first `n` accesses.
pub open spec fn clock_after(c: ClockControl, ops: Seq<SdioOp>, n: int) -> ClockControl
    decreases n,
{
    if n <= 0 {
        c
    } else {
        match ops[n - 1] {
            SdioOp::ModifyClock(update) => update.applied(clock_after(c, ops, n - 1)),
            SdioOp::WaitResetDone => ClockControl {
                software_reset_for_all: false,
                ..clock_after(c, ops, n - 1)
            },
            SdioOp::WaitInternalClockStable => ClockControl {
                internal_clock_stable: true,
                ..clock_after(c, ops, n - 1)
            },
            _ => clock_after(c, ops, n - 1),
        }
    }
}

/// The host register after the first `n` accesses.
pub open spec fn host_after(h: HostControl, ops: Seq<SdioOp>, n: int) -> HostControl
    decreases n,
{
    if n <= 0 {
        h
    } else {
        match ops[n - 1] {
            SdioOp::ModifyHost(update) => update.applied(host_after(h, ops, n - 1)),
            _ => host_after(h, ops, n - 1),
        }
    }
}

/// The system-level registers after the first `n` accesses.
pub open spec fn slcr_after(s: Slcr, ops: Seq<SdioOp>, n: int) -> Slcr
    decreases n,
{
    if n <= 0 {
        s
    } else {
        match ops[n - 1] {
            SdioOp::Slcr(op) => slcr_after(s, ops, n - 1).after(op),
            _ => slcr_after(s, ops, n - 1),
        }
    }
}

/// The card clock changes only while it is stopped, and then runs at the transfer speed.
pub proof fn transfer_clock_replaces_the_slow_one(c: ClockControl, config: Config)
    ensures
        ({
            let ops = transfer_clock_ops(config);
            let after = clock_after(c, ops, 3);
            &&& ops.len() == 3
            &&& !clock_after(c, ops, 1).sd_clock_enable
            &&& clock_after(c, ops, 1).sdclk_frequency_select == c.sdclk_frequency_select
            &&& !clock_after(c, ops, 2).sd_clock_enable
            &&& after.sd_clock_enable
            &&& after.sdclk_frequency_select == config.sdio_clock_divisors.divisor_normal
            &&& after.internal_clock_enable == c.internal_clock_enable
            &&& after.data_timeout_counter_value == c.data_timeout_counter_value
            &&& after.software_reset_for_all == c.software_reset_for_all
        }),
{
    reveal_with_fuel(clock_after, 4);
}

/// The number of data lines is taken over with the speed of the configuration, and the
/// power, voltage and DMA engine stay.
pub proof fn bus_width_keeps_the_power(h: HostControl, mode: BusMode, high_speed: bool)
    ensures
        ({
            let after = (HostUpdate::BusWidth { mode, high_speed }).applied(h);
            &&& after.bus_width == mode
            &&& after.high_speed_enable == high_speed
            &&& after.sd_bus_power == h.sd_bus_power
            &&& after.sd_bus_voltage_select == h.sd_bus_voltage_select
            &&& after.dma_select == h.dma_select
        }),
{
}

/// A controller that was brought up runs the card clock at the identification speed, on one
/// powered data line at 3.3 V with the descriptor engine, out of reset.
pub proof fn brought_up_controller_can_identify(
    c: ClockControl,
    h: HostControl,
    id: SdioId,
    config: Config,
)
    ensures
        ({
            let ops = initialize_ops(id, config);
            let n = ops.len() as int;
            let clock = clock_after(c, ops, n);
            let host = host_after(h, ops, n);
            &&& clock.internal_clock_enable
            &&& clock.internal_clock_stable
            &&& clock.sd_clock_enable
            &&& !clock.software_reset_for_all
            &&& clock.sdclk_frequency_select == config.sdio_clock_divisors.divisor_init_phase
            &&& clock.data_timeout_counter_value == 0xE
            &&& host.sd_bus_power
            &&& host.sd_bus_voltage_select is V3_3
            &&& host.dma_select is Adma2_32Bits
            &&& host.bus_width is OneBit
            &&& !host.high_speed_enable
        }),
{
    let ops = initialize_ops(id, config);
    assert(ops.len() == 23);
    lemma_clock_untouched(c, ops, 8);
    reveal_with_fuel(clock_after, 17);
    lemma_host_untouched(h, ops, 16);
    reveal_with_fuel(host_after, 9);
}

proof fn lemma_clock_untouched(c: ClockControl, ops: Seq<SdioOp>, n: int)
    requires
        n <= ops.len(),
        forall|i: int| 0 <= i < n ==> #[trigger] ops[i] is Slcr,
    ensures
        clock_after(c, ops, n) == c,
    decreases n,
{
    if n > 0 {
        lemma_clock_untouched(c, ops, n - 1);
    }
}

proof fn lemma_host_untouched(h: HostControl, ops: Seq<SdioOp>, n: int)
    requires
        n <= ops.len(),
        forall|i: int| 0 <= i < n ==> !(#[trigger] ops[i] is ModifyHost),
    ensures
        host_after(h, ops, n) == h,
    decreases n,
{
    if n > 0 {
        lemma_host_untouched(h, ops, n - 1);
    }
}

/// After the bring-up every status bit but the card interrupt is reported, stale ones are
/// cleared, none raises an interrupt, and blocks have 512 bytes.
pub proof fn brought_up_controller_is_quiet(id: SdioId, config: Config)
    ensures
        ({
            let ops = initialize_ops(id, config);
            &&& ops.contains(SdioOp::EnableAllStatusButCard)
            &&& ops.contains(SdioOp::WriteSignalEnable(no_status()))
            &&& ops.contains(SdioOp::AckAllStatus)
            &&& ops.contains(SdioOp::ModifyBlockParams { block_size: 512, block_count: None })
            &&& forall|i: int|
                0 <= i < ops.len() ==> (#[trigger] ops[i] matches SdioOp::WriteSignalEnable(m)
                    ==> m == no_status())
        }),
        no_status() == (InterruptStatus {
            command_complete: false,
            transfer_complete: false,
            dma_interrupt: false,
            error_interrupt: false,
            command_timeout_error: false,
            command_crc_error: false,
            command_end_bit_error: false,
            command_index_error: false,
            data_timeout_error: false,
            data_crc_error: false,
            data_end_bit_error: false,
            current_limit_error: false,
            auto_cmd12_error: false,
            adma_error: false,
            target_response_error: false,
            ceata_error_status: false,
        }),
{
    let ops = initialize_ops(id, config);
    assert(ops.len() == 23);
    assert(ops[18] == SdioOp::ModifyBlockParams { block_size: 512, block_count: None });
    assert(ops[19] is EnableAllStatusButCard);
    assert(ops[20] == SdioOp::WriteSignalEnable(no_status()));
    assert(ops[21] is AckAllStatus);
}

/// The bring-up ungates the bus clock of its own controller, holds its own reset lines and
/// no other ones and releases all, and runs its reference clock from the configured
/// source. The system-level registers end locked.
pub proof fn brought_up_controller_is_clocked_and_reset(s: Slcr, id: SdioId, config: Config)
    requires
        s.sdio_reset.released(),
    ensures
        ({
            let ops = initialize_ops(id, config);
            let after = slcr_after(s, ops, ops.len() as int);
            &&& !after.unlocked
            &&& after.amba == s.amba.insert(AmbaClock::Sdio(id))
            &&& after.sdio_clocks == s.sdio_clocks.insert(id)
            &&& after.sdio_source == (config.src_sel, config.ref_clock_divisor)
            &&& after.sdio_reset.released()
            &&& after.sdio_held.periph0_ref_rst == (s.sdio_held.periph0_ref_rst || id is Sdio0)
            &&& after.sdio_held.periph0_cpu1x_rst == (s.sdio_held.periph0_cpu1x_rst || id is Sdio0)
            &&& after.sdio_held.periph1_ref_rst == (s.sdio_held.periph1_ref_rst || id is Sdio1)
            &&& after.sdio_held.periph1_cpu1x_rst == (s.sdio_held.periph1_cpu1x_rst || id is Sdio1)
        }),
{
    let ops = initialize_ops(id, config);
    assert(ops.len() == 23);
    let gate = crate::slcr::unlocked_one(SlcrOp::EnableAmbaClock(AmbaClock::Sdio(id)));
    let lines = super::reset_lines(id);
    let idle = super::no_reset_lines();
    let pulse = crate::slcr::reset_pulse(
        SlcrOp::WriteSdioReset(lines),
        super::RESET_CYCLES,
        SlcrOp::WriteSdioReset(idle),
    );
    let source = SlcrOp::ModifySdioClock {
        src_sel: config.src_sel,
        divisor: config.ref_clock_divisor,
        activate: id,
    };
    let clock = crate::slcr::unlocked_one(source);
    lemma_slcr_window(s, ops, gate, 0, 3);
    bracketed_access_takes_effect(s, SlcrOp::EnableAmbaClock(AmbaClock::Sdio(id)));
    let s1 = slcr_after(s, ops, 3);
    assert(s1 == s.after_all(gate));
    lemma_slcr_window(s, ops, pulse, 3, 5);
    reset_pulse_takes_effect(
        s1,
        SlcrOp::WriteSdioReset(lines),
        super::RESET_CYCLES,
        SlcrOp::WriteSdioReset(idle),
    );
    let s2 = slcr_after(s, ops, 8);
    assert(s2 == s1.after_all(pulse));
    assert(super::RESET_CYCLES > 0);
    assert(s2.sdio_held == s1.sdio_held.or(lines) && s2.sdio_reset == idle && s2.amba == s1.amba);
    assert(slcr_after(s, ops, 9) == s2);
    assert(slcr_after(s, ops, 10) == s2);
    lemma_slcr_window(s, ops, clock, 10, 3);
    bracketed_access_takes_effect(s2, source);
    let s3 = slcr_after(s, ops, 13);
    assert(s3 == s2.after_all(clock));
    lemma_slcr_rest(s, ops, 13, 23);
}

/// Accesses from `at` on that are those of `window` do what it does.
proof fn lemma_slcr_window(s: Slcr, ops: Seq<SdioOp>, window: Seq<SlcrOp>, at: int, n: int)
    requires
        0 <= at,
        0 <= n <= window.len(),
        at + n <= ops.len(),
        forall|i: int| 0 <= i < n ==> ops[at + i] == SdioOp::Slcr(#[trigger] window[i]),
    ensures
        slcr_after(s, ops, at + n) == slcr_after(s, ops, at).after_first(window, n),
    decreases n,
{
    if n > 0 {
        lemma_slcr_window(s, ops, window, at, n - 1);
        assert(ops[at + (n - 1)] == SdioOp::Slcr(window[n - 1]));
    }
}

proof fn lemma_slcr_rest(s: Slcr, ops: Seq<SdioOp>, from: int, to: int)
    requires
        0 <= from <= to <= ops.len(),
        forall|i: int| from <= i < to ==> !(#[trigger] ops[i] is Slcr),
    ensures
        slcr_after(s, ops, to) == slcr_after(s, ops, from),
    decreases to - from,
{
    if from < to {
        lemma_slcr_rest(s, ops, from, to - 1);
    }
}

/// A transfer that could be prepared tells the controller the size and number of its blocks
/// before the descriptor table, which is the last access.
pub proof fn prepared_transfer_names_its_blocks(
    ready: bool,
    buffer_ops: Seq<CacheOp>,
    len: int,
    blocks: int,
    block_len: int,
    table_addr: u32,
)
    requires
        0 <= blocks,
        0 <= block_len < 4096,
        prepared_transfer(ready, buffer_ops, len, blocks, block_len, table_addr).1 is Ok,
    ensures
        ({
            let ops = prepared_transfer(ready, buffer_ops, len, blocks, block_len, table_addr).0;
            let at = if len == 0 {
                0
            } else {
                buffer_ops.len() as int
            };
            &&& ops.len() > at + 1
            &&& (ops[at] matches SdioOp::ModifyBlockParams { block_size, block_count }
                && block_size == block_len && block_count == Some(blocks as u16) && blocks
                <= u16::MAX)
            &&& ops.last() == SdioOp::WriteAdmaSystemAddress(table_addr)
            &&& len == blocks * block_len
            &&& forall|i: int| 0 <= i < at ==> #[trigger] ops[i] == SdioOp::Cache(buffer_ops[i])
        }),
{
    let maintenance = if len == 0 {
        Seq::empty()
    } else {
        super::as_sdio_ops(buffer_ops)
    };
    let (rest, _) = blocks_and_adma(ready, len, blocks, block_len, table_addr);
    assert(prepared_transfer(ready, buffer_ops, len, blocks, block_len, table_addr).0
        == maintenance + rest);
    assert((maintenance + rest)[maintenance.len() as int] == rest[0]);
}

/// A waiting command is woken by its completion and by each of its errors, and by nothing
/// of a data transfer; a waiting transfer by its completion and by each of its errors.
pub proof fn waiting_tasks_hear_of_their_end()
    ensures
        ({
            let s = command_signals();
            &&& s.command_complete && s.command_timeout_error && s.command_crc_error
                && s.command_end_bit_error && s.command_index_error
            &&& !s.transfer_complete && !s.dma_interrupt && !s.adma_error && !s.data_crc_error
                && !s.data_timeout_error && !s.data_end_bit_error
        }),
        ({
            let s = transfer_signals();
            &&& s.transfer_complete && s.dma_interrupt && s.adma_error && s.data_crc_error
                && s.data_timeout_error && s.data_end_bit_error && s.auto_cmd12_error
                && s.current_limit_error && s.target_response_error && s.ceata_error_status
            &&& !s.command_complete && !s.command_timeout_error && !s.command_crc_error
                && !s.command_end_bit_error && !s.command_index_error
        }),
{
}

/// A command is over with its completion or an error, and has failed exactly where one of its
/// error bits is set; each bit is reported as itself. The same of a data transfer.
pub proof fn status_bits_are_reported_as_themselves(s: InterruptStatus)
    ensures
        s.command_over() <==> s.command_complete || s.error_interrupt,
        StatusWrapper(s).response_failed() <==> s.command_index_error || s.command_crc_error
            || s.command_end_bit_error || s.command_timeout_error,
        StatusWrapper(s).response_error_bits().index == s.command_index_error,
        StatusWrapper(s).response_error_bits().crc == s.command_crc_error,
        StatusWrapper(s).response_error_bits().end_bit == s.command_end_bit_error,
        StatusWrapper(s).response_error_bits().timeout == s.command_timeout_error,
        s.data_error() <==> s.data_crc_error || s.data_timeout_error || s.data_end_bit_error,
        StatusWrapper(s).data_error_bits().crc == s.data_crc_error,
        StatusWrapper(s).data_error_bits().timeout == s.data_timeout_error,
        StatusWrapper(s).data_error_bits().end_bit == s.data_end_bit_error,
        s.transfer_over() <==> s.transfer_complete || s.error_interrupt || s.adma_error
            || s.other_error(),
        s.other_error() <==> s.auto_cmd12_error || s.target_response_error
            || s.current_limit_error || s.ceata_error_status,
{
}

} // verus!
