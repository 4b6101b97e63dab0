//! SD cards: identification, block transfers and programming.
//!
//! [`Acquire`] is the identification of a card as a state machine. Each step
//! takes the reply to the command that was sent last and says what to send next.
use vstd::prelude::*;

use embedded_sdmmc::embedded_sdmmc_types::sdcard::csd::InvalidCsdStructureFieldError;

use super::card::{
    self, CardType, Cid, Csd, HostCapacitySupport, PowerControl, State, VoltageSuppliedSelect,
};
use super::{BusMode, Command, Error, BLOCK_LEN, MAX_DMA_BLOCKS_PER_BATCH};
use crate::arith;

verus! {

/// The interface condition is asked for again this often.
pub const CMD8_RETRIES: u8 = 2;

/// Bytes of the configuration register of a card.
pub const SCR_LEN: usize = 8;

/// Check pattern of the interface condition.
pub const CHECK_PATTERN: u8 = 0xAA;

pub const CARD_INIT_TIMEOUT_MS: u64 = 1000;

pub const PROGRAMMING_TIMEOUT_MS: u64 = 1000;

/// The voltage window that the host offers: 3.2 V to 3.3 V.
pub const VOLTAGE_LEVEL_CAPABILITIES: u32 = 0x10_0000;

#[derive(Debug, Clone, Copy, PartialEq, Eq, Structural)]
pub struct SdCardInfo {
    pub card_type: CardType,
    pub rca: u16,
    pub cid: Cid,
    pub csd: Csd,
}

impl SdCardInfo {
    pub fn card_type(&self) -> (r: CardType)
        ensures
            r == self.card_type,
    {
        self.card_type
    }

    pub fn rca(&self) -> (r: u16)
        ensures
            r == self.rca,
    {
        self.rca
    }

    pub fn cid(&self) -> (r: &Cid)
        ensures
            *r == self.cid,
    {
        &self.cid
    }

    pub fn csd(&self) -> (r: &Csd)
        ensures
            *r == self.csd,
    {
        &self.csd
    }
}

/// One block of card data, aligned to cache lines where it is stored.
#[derive(Debug)]
pub struct DataBlock(pub [u8; BLOCK_LEN]);

impl DataBlock {
    pub fn new() -> (r: Self)
        ensures
            r.0@ == Seq::new(BLOCK_LEN as nat, |i: int| 0u8),
    {
        let bytes: [u8; BLOCK_LEN] = [0;BLOCK_LEN];
        assert(bytes@ =~= Seq::new(BLOCK_LEN as nat, |i: int| 0u8));
        DataBlock(bytes)
    }
}

/// The counter value at which a timeout of `timeout_ms` elapses, for a counter at
/// `hz`. It is rounded up and saturates at the end of the counter.
pub open spec fn deadline(hz: u32, now: u64, timeout_ms: u64) -> u64 {
    let ticks = arith::ceil_div(hz * timeout_ms, 1000);
    if now + ticks > u64::MAX {
        u64::MAX
    } else {
        (now + ticks) as u64
    }
}

pub fn deadline_counter(hz: u32, now: u64, timeout_ms: u64) -> (r: u64)
    ensures
        r == deadline(hz, now, timeout_ms),
{
    assert(hz * timeout_ms <= u32::MAX * u64::MAX) by (nonlinear_arith)
        requires
            hz <= u32::MAX,
            timeout_ms <= u64::MAX,
    ;
    assert(0 <= hz * timeout_ms) by (nonlinear_arith);
    let product: u128 = (hz as u128) * (timeout_ms as u128);
    proof {
        arith::ceil_div_is_least_cover(product as int, 1000);
    }
    let ticks: u128 = arith::div_ceil_u128(product, 1000);
    let capped: u64 = if ticks > u64::MAX as u128 {
        u64::MAX
    } else {
        ticks as u64
    };
    now.saturating_add(capped)
}

pub fn timeout_elapsed(now: u64, deadline: u64) -> (r: bool)
    ensures
        r == (now >= deadline),
{
    now >= deadline
}

/// A timeout never elapses early: at its deadline at least `timeout_ms` have passed,
/// unless the counter ends before.
pub proof fn deadline_is_not_early(hz: u32, now: u64, timeout_ms: u64)
    ensures
        deadline(hz, now, timeout_ms) >= now,
        deadline(hz, now, timeout_ms) < u64::MAX ==> (deadline(hz, now, timeout_ms) - now) * 1000
            >= hz * timeout_ms,
{
    assert(hz * timeout_ms >= 0) by (nonlinear_arith);
    arith::ceil_div_is_least_cover(hz * timeout_ms, 1000);
}

fn map_csd_error(_e: InvalidCsdStructureFieldError) -> (r: Error)
    ensures
        r is UnexpectedResponse,
{
    Error::UnexpectedResponse
}

/// A card address as a command argument: the upper half.
pub open spec fn rca_argument(rca: u16) -> u32 {
    (rca * 0x1_0000) as u32
}

fn rca_arg(rca: u16) -> (r: u32)
    ensures
        r == rca_argument(rca),
{
    (rca as u32) * 0x1_0000
}

/// The configuration register of the card announces four data lines.
pub open spec fn scr_supports_4bit(scr: Seq<u8>) -> bool {
    (scr[1] / 4) % 2 == 1
}

/// Reply to a command. Only the part that the command asked for is looked at.
#[derive(Debug, Clone, Copy)]
pub struct Reply {
    /// Short response.
    pub response: u32,
    /// Long response, from [`super::read_u128_response`].
    pub long_response: [u8; 16],
    /// Configuration register of the card.
    pub scr: [u8; 8],
}

/// What to do next.
#[derive(Debug, Clone, Copy, PartialEq, Eq, Structural)]
pub enum CardAction {
    /// Send a command and wait for its response.
    Send { command: Command, arg: u32 },
    /// Read one block of [`SCR_LEN`] bytes with the command.
    ReadScr { command: Command, arg: u32 },
}

/// State of the identification of a card: the command that awaits its reply.
#[derive(Debug, Clone, Copy, PartialEq, Eq, Structural)]
pub enum Acquire {
    GoIdle,
    IfCond { attempt: u8 },
    OpCondPrefix { v2: bool, deadline: u64 },
    OpCond { v2: bool, deadline: u64 },
    AllSendCid { card_type: CardType },
    RelativeAddr { card_type: CardType, cid: Cid },
    SendCsd { card_type: CardType, cid: Cid, rca: u16 },
    Select { info: SdCardInfo },
    Status { info: SdCardInfo },
    ScrBlockLen { info: SdCardInfo },
    ScrPrefix { info: SdCardInfo },
    Scr { info: SdCardInfo },
    BusWidthPrefix { info: SdCardInfo },
    BusWidth { info: SdCardInfo },
    BlockLen { info: SdCardInfo },
}

/// Outcome of a step.
#[derive(Debug, Clone, Copy, PartialEq, Eq, Structural)]
pub enum Progress {
    /// Go on with the action. Before it, the controller moves to four data lines
    /// where that is asked for.
    Next { state: Acquire, action: CardAction, set_four_bit: bool },
    /// The card is ready. The controller moves to four data lines where that is
    /// asked for, then to the transfer clock.
    Acquired { info: SdCardInfo, set_four_bit: bool },
    Failed(Error),
}

/// What the identification has to know of the host.
#[derive(Debug, Clone, Copy, PartialEq, Eq, Structural)]
pub struct Host {
    /// Data lines that are connected.
    pub bus_mode: BusMode,
    /// Frequency of the counter that times out.
    pub counter_hz: u32,
}

pub open spec fn send(command: Command, arg: u32) -> CardAction {
    CardAction::Send { command, arg }
}

pub open spec fn go_on(state: Acquire, action: CardAction) -> Progress {
    Progress::Next { state, action, set_four_bit: false }
}

/// Announce an application command to the card.
pub open spec fn prefix(rca: u16) -> CardAction {
    send(Command::Cmd55AppCmd, rca_argument(rca))
}

pub open spec fn if_cond() -> CardAction {
    send(
        Command::Cmd8SendIfCond,
        card::if_cond_argument(VoltageSuppliedSelect::V2_7To3_6, CHECK_PATTERN) as u32,
    )
}

/// High capacity is only offered to cards that know the interface condition.
pub open spec fn op_cond(v2: bool) -> CardAction {
    send(
        Command::Acmd41SendOpCond,
        card::op_cond_argument(
            if v2 {
                HostCapacitySupport::SdhcOrSdxc
            } else {
                HostCapacitySupport::SdscOnly
            },
            false,
            PowerControl::MaximumPerformance,
            false,
            VOLTAGE_LEVEL_CAPABILITIES as int,
        ) as u32,
    )
}

/// Start asking for the operating conditions, with a fresh deadline.
pub open spec fn begin_op_cond(host: Host, v2: bool, now: u64) -> Progress {
    go_on(
        Acquire::OpCondPrefix { v2, deadline: deadline(host.counter_hz, now, CARD_INIT_TIMEOUT_MS) },
        prefix(0),
    )
}

/// The last steps: byte-addressed cards get the block length set.
pub open spec fn finish(info: SdCardInfo, set_four_bit: bool) -> Progress {
    if info.card_type is SdhcSdxc {
        Progress::Acquired { info, set_four_bit }
    } else {
        Progress::Next {
            state: Acquire::BlockLen { info },
            action: send(Command::Cmd16SetBlocklen, BLOCK_LEN as u32),
            set_four_bit,
        }
    }
}

/// The interface condition was answered.
pub open spec fn after_if_cond(host: Host, response: u32, now: u64) -> Progress {
    if card::voltage_accepted(response) != Some(VoltageSuppliedSelect::V2_7To3_6) {
        Progress::Failed(Error::UnsupportedVoltage)
    } else if card::echoed_pattern(response) != CHECK_PATTERN {
        Progress::Failed(Error::UnsupportedCardVersion)
    } else {
        begin_op_cond(host, true, now)
    }
}

/// A card that does not know the interface condition lets it time out. It is
/// asked once more while there are attempts left, and then taken as version 1.
pub open spec fn after_if_cond_error(host: Host, attempt: u8, error: Error, now: u64) -> Progress {
    match error {
        Error::ResponseError(bits) => if !bits.timeout {
            Progress::Failed(error)
        } else if attempt < CMD8_RETRIES {
            go_on(Acquire::IfCond { attempt: (attempt + 1) as u8 }, if_cond())
        } else {
            begin_op_cond(host, false, now)
        },
        _ => Progress::Failed(error),
    }
}

/// The operating conditions were answered: ask again until the card is up or the
/// deadline has passed.
pub open spec fn after_op_cond(v2: bool, deadline: u64, response: u32, now: u64) -> Progress {
    if card::ocr_complete(response) {
        go_on(
            Acquire::AllSendCid {
                card_type: if card::ocr_high_capacity(response) {
                    CardType::SdhcSdxc
                } else if v2 {
                    CardType::SD2
                } else {
                    CardType::SD1
                },
            },
            send(Command::Cmd2AllSendCid, 0),
        )
    } else if now >= deadline {
        Progress::Failed(Error::CardInitTimeout)
    } else {
        go_on(Acquire::OpCondPrefix { v2, deadline }, prefix(0))
    }
}

/// What follows when the card accepts the prefix of an application command.
pub open spec fn after_prefix(response: u32, next: Progress) -> Progress {
    if card::status_app_cmd(response) {
        next
    } else {
        Progress::Failed(Error::UnexpectedResponse)
    }
}

impl Acquire {
    /// The step after a reply to the command that was sent last.
    pub open spec fn after_reply(self, host: Host, reply: Reply, now: u64) -> Progress {
        match self {
            Acquire::GoIdle => go_on(Acquire::IfCond { attempt: 0 }, if_cond()),
            Acquire::IfCond { .. } => after_if_cond(host, reply.response, now),
            Acquire::OpCondPrefix { v2, deadline } => after_prefix(
                reply.response,
                go_on(Acquire::OpCond { v2, deadline }, op_cond(v2)),
            ),
            Acquire::OpCond { v2, deadline } => after_op_cond(v2, deadline, reply.response, now),
            Acquire::AllSendCid { card_type } => go_on(
                Acquire::RelativeAddr {
                    card_type,
                    cid: Cid { raw: card::be_value(reply.long_response@, 16) as u128 },
                },
                send(Command::Cmd3SendRelativeAddr, 0),
            ),
            Acquire::RelativeAddr { card_type, cid } => {
                let rca = card::relative_address(reply.response);
                go_on(
                    Acquire::SendCsd { card_type, cid, rca },
                    send(Command::Cmd9SendCsd, rca_argument(rca)),
                )
            },
            Acquire::SendCsd { card_type, cid, rca } => match card::csd_of(reply.long_response@) {
                Some(csd) => go_on(
                    Acquire::Select { info: SdCardInfo { card_type, rca, cid, csd } },
                    send(Command::Cmd7SelectSdCard, rca_argument(rca)),
                ),
                None => Progress::Failed(Error::UnexpectedResponse),
            },
            Acquire::Select { info } => go_on(
                Acquire::Status { info },
                send(Command::Cmd13SendStatus, rca_argument(info.rca)),
            ),
            Acquire::Status { info } => if card::status_state(reply.response) == Some(
                State::Tran,
            ) {
                go_on(
                    Acquire::ScrBlockLen { info },
                    send(Command::Cmd16SetBlocklen, SCR_LEN as u32),
                )
            } else {
                Progress::Failed(Error::UnexpectedResponse)
            },
            Acquire::ScrBlockLen { info } => go_on(Acquire::ScrPrefix { info }, prefix(info.rca)),
            Acquire::ScrPrefix { info } => after_prefix(
                reply.response,
                go_on(
                    Acquire::Scr { info },
                    CardAction::ReadScr { command: Command::Acmd51SendScr, arg: 0 },
                ),
            ),
            Acquire::Scr { info } => if host.bus_mode is FourBit && scr_supports_4bit(reply.scr@) {
                go_on(Acquire::BusWidthPrefix { info }, prefix(info.rca))
            } else {
                finish(info, false)
            },
            Acquire::BusWidthPrefix { info } => after_prefix(
                reply.response,
                go_on(
                    Acquire::BusWidth { info },
                    send(
                        Command::Acmd6SetBusWidth,
                        card::bus_width_argument(BusMode::FourBit) as u32,
                    ),
                ),
            ),
            Acquire::BusWidth { info } => finish(info, true),
            Acquire::BlockLen { info } => Progress::Acquired { info, set_four_bit: false },
        }
    }

    /// The step after the command that was sent last failed.
    pub open spec fn after_error(self, host: Host, error: Error, now: u64) -> Progress {
        match self {
            Acquire::IfCond { attempt } => after_if_cond_error(host, attempt, error, now),
            _ => Progress::Failed(error),
        }
    }

    pub open spec fn after(self, host: Host, reply: Result<Reply, Error>, now: u64) -> Progress {
        match reply {
            Ok(reply) => self.after_reply(host, reply, now),
            Err(error) => self.after_error(host, error, now),
        }
    }

    /// Attempts are counted up to the last one.
    pub open spec fn wf(self) -> bool {
        self matches Acquire::IfCond { attempt } ==> attempt <= CMD8_RETRIES
    }
}

fn next(state: Acquire, command: Command, arg: u32) -> (r: Progress)
    ensures
        r == go_on(state, send(command, arg)),
{
    Progress::Next { state, action: CardAction::Send { command, arg }, set_four_bit: false }
}

fn ask_if_cond(attempt: u8) -> (r: Progress)
    ensures
        r == go_on(Acquire::IfCond { attempt }, if_cond()),
{
    next(
        Acquire::IfCond { attempt },
        Command::Cmd8SendIfCond,
        card::cmd8_argument(VoltageSuppliedSelect::V2_7To3_6, CHECK_PATTERN),
    )
}

fn ask_op_cond(host: Host, v2: bool, now: u64) -> (r: Progress)
    ensures
        r == begin_op_cond(host, v2, now),
{
    let deadline: u64 = deadline_counter(host.counter_hz, now, CARD_INIT_TIMEOUT_MS);
    next(Acquire::OpCondPrefix { v2, deadline }, Command::Cmd55AppCmd, rca_arg(0))
}

fn finish_acquire(info: SdCardInfo, set_four_bit: bool) -> (r: Progress)
    ensures
        r == finish(info, set_four_bit),
{
    if matches!(info.card_type, CardType::SdhcSdxc) {
        Progress::Acquired { info, set_four_bit }
    } else {
        Progress::Next {
            state: Acquire::BlockLen { info },
            action: CardAction::Send { command: Command::Cmd16SetBlocklen, arg: BLOCK_LEN as u32 },
            set_four_bit,
        }
    }
}

/// Starts the identification of a card: none is looked for in an empty slot.
pub fn acquire_card(card_inserted: bool) -> (r: Progress)
    ensures
        r == if card_inserted {
            go_on(Acquire::GoIdle, send(Command::Cmd0GoIdleMode, 0))
        } else {
            Progress::Failed(Error::NoCard)
        },
{
    if !card_inserted {
        return Progress::Failed(Error::NoCard);
    }
    next(Acquire::GoIdle, Command::Cmd0GoIdleMode, 0)
}

impl Acquire {
    /// One step of the identification. `now` is the counter after the reply arrived.
    pub fn step(self, host: Host, reply: &Result<Reply, Error>, now: u64) -> (r: Progress)
        requires
            self.wf(),
        ensures
            r == self.after(host, *reply, now),
    {
        let reply: &Reply = match reply {
            Ok(reply) => reply,
            Err(error) => return self.failed_command(host, *error, now),
        };
        match self {
            Acquire::GoIdle => ask_if_cond(0),
            Acquire::IfCond { .. } => {
                match card::r7_voltage_accepted(reply.response) {
                    Some(VoltageSuppliedSelect::V2_7To3_6) => {},
                    _ => return Progress::Failed(Error::UnsupportedVoltage),
                }
                if card::r7_echo_check_pattern(reply.response) != CHECK_PATTERN {
                    return Progress::Failed(Error::UnsupportedCardVersion);
                }
                ask_op_cond(host, true, now)
            },
            Acquire::OpCondPrefix { v2, deadline } => {
                if !card::r1_app_cmd(reply.response) {
                    return Progress::Failed(Error::UnexpectedResponse);
                }
                let capacity = if v2 {
                    HostCapacitySupport::SdhcOrSdxc
                } else {
                    HostCapacitySupport::SdscOnly
                };
                next(
                    Acquire::OpCond { v2, deadline },
                    Command::Acmd41SendOpCond,
                    card::acmd41_argument(
                        capacity,
                        false,
                        PowerControl::MaximumPerformance,
                        false,
                        VOLTAGE_LEVEL_CAPABILITIES,
                    ),
                )
            },
            Acquire::OpCond { v2, deadline } => {
                if card::r3_initialization_complete(reply.response) {
                    let card_type = if card::r3_card_capacity_status(reply.response) {
                        CardType::SdhcSdxc
                    } else if v2 {
                        CardType::SD2
                    } else {
                        CardType::SD1
                    };
                    return next(Acquire::AllSendCid { card_type }, Command::Cmd2AllSendCid, 0);
                }
                if timeout_elapsed(now, deadline) {
                    return Progress::Failed(Error::CardInitTimeout);
                }
                next(Acquire::OpCondPrefix { v2, deadline }, Command::Cmd55AppCmd, rca_arg(0))
            },
            Acquire::AllSendCid { card_type } => {
                let cid = Cid::from_be_bytes(&reply.long_response);
                next(Acquire::RelativeAddr { card_type, cid }, Command::Cmd3SendRelativeAddr, 0)
            },
            Acquire::RelativeAddr { card_type, cid } => {
                let rca: u16 = card::r6_rca(reply.response);
                next(Acquire::SendCsd { card_type, cid, rca }, Command::Cmd9SendCsd, rca_arg(rca))
            },
            Acquire::SendCsd { card_type, cid, rca } => {
                let csd = match card::csd_new_unchecked(&reply.long_response) {
                    Ok(csd) => csd,
                    Err(e) => return Progress::Failed(map_csd_error(e)),
                };
                next(
                    Acquire::Select { info: SdCardInfo { card_type, rca, cid, csd } },
                    Command::Cmd7SelectSdCard,
                    rca_arg(rca),
                )
            },
            Acquire::Select { info } => next(
                Acquire::Status { info },
                Command::Cmd13SendStatus,
                rca_arg(info.rca),
            ),
            Acquire::Status { info } => match card::r1_state(reply.response) {
                Some(State::Tran) => next(
                    Acquire::ScrBlockLen { info },
                    Command::Cmd16SetBlocklen,
                    SCR_LEN as u32,
                ),
                _ => Progress::Failed(Error::UnexpectedResponse),
            },
            Acquire::ScrBlockLen { info } => next(
                Acquire::ScrPrefix { info },
                Command::Cmd55AppCmd,
                rca_arg(info.rca),
            ),
            Acquire::ScrPrefix { info } => {
                if !card::r1_app_cmd(reply.response) {
                    return Progress::Failed(Error::UnexpectedResponse);
                }
                Progress::Next {
                    state: Acquire::Scr { info },
                    action: CardAction::ReadScr { command: Command::Acmd51SendScr, arg: 0 },
                    set_four_bit: false,
                }
            },
            Acquire::Scr { info } => {
                let supports_4bit: bool = (reply.scr[1] / 4) % 2 == 1;
                if matches!(host.bus_mode, BusMode::FourBit) && supports_4bit {
                    return next(
                        Acquire::BusWidthPrefix { info },
                        Command::Cmd55AppCmd,
                        rca_arg(info.rca),
                    );
                }
                finish_acquire(info, false)
            },
            Acquire::BusWidthPrefix { info } => {
                if !card::r1_app_cmd(reply.response) {
                    return Progress::Failed(Error::UnexpectedResponse);
                }
                next(
                    Acquire::BusWidth { info },
                    Command::Acmd6SetBusWidth,
                    card::acmd6_argument(BusMode::FourBit),
                )
            },
            Acquire::BusWidth { info } => finish_acquire(info, true),
            Acquire::BlockLen { info } => Progress::Acquired { info, set_four_bit: false },
        }
    }

    fn failed_command(self, host: Host, error: Error, now: u64) -> (r: Progress)
        requires
            self.wf(),
        ensures
            r == self.after_error(host, error, now),
    {
        match self {
            Acquire::IfCond { attempt } => match error {
                Error::ResponseError(bits) => {
                    if !bits.timeout() {
                        return Progress::Failed(error);
                    }
                    if attempt < CMD8_RETRIES {
                        return ask_if_cond(attempt + 1);
                    }
                    ask_op_cond(host, false, now)
                },
                _ => Progress::Failed(error),
            },
            _ => Progress::Failed(error),
        }
    }
}

/// Position of a state in the identification.
pub open spec fn rank(state: Acquire) -> int {
    match state {
        Acquire::GoIdle => 0,
        Acquire::IfCond { attempt } => 1 + attempt,
        Acquire::OpCondPrefix { .. } => 300,
        Acquire::OpCond { .. } => 301,
        Acquire::AllSendCid { .. } => 302,
        Acquire::RelativeAddr { .. } => 303,
        Acquire::SendCsd { .. } => 304,
        Acquire::Select { .. } => 305,
        Acquire::Status { .. } => 306,
        Acquire::ScrBlockLen { .. } => 307,
        Acquire::ScrPrefix { .. } => 308,
        Acquire::Scr { .. } => 309,
        Acquire::BusWidthPrefix { .. } => 310,
        Acquire::BusWidth { .. } => 311,
        Acquire::BlockLen { .. } => 312,
    }
}

/// The identification always gets closer to its end, except that it asks for the
/// operating conditions again, which it only does before the deadline. So it ends
/// once the deadline has passed, whatever the card replies.
pub proof fn identification_progresses(
    state: Acquire,
    host: Host,
    reply: Result<Reply, Error>,
    now: u64,
)
    requires
        state.wf(),
    ensures
        state.after(host, reply, now) matches Progress::Next { state: next, .. } ==> {
            &&& next.wf()
            &&& rank(next) > rank(state) || (state matches Acquire::OpCond { deadline, .. }
                && now < deadline && next is OpCondPrefix)
        },
{
}

/// A failed command ends the identification with its own error. The one exception
/// is the interface condition timing out, which cards of version 1 let happen.
pub proof fn command_errors_are_reported(state: Acquire, host: Host, error: Error, now: u64)
    requires
        !(state is IfCond && (error matches Error::ResponseError(bits) && bits.timeout)),
    ensures
        state.after(host, Err(error), now) == Progress::Failed(error),
{
}

/// Four data lines are only used when they are connected and the card announced
/// them in its configuration register.
pub proof fn four_bit_bus_needs_host_and_card(
    state: Acquire,
    host: Host,
    reply: Result<Reply, Error>,
    now: u64,
)
    requires
        state.wf(),
    ensures
        state.after(host, reply, now) matches Progress::Next { state: next, .. }
            && next is BusWidthPrefix ==> host.bus_mode is FourBit && reply is Ok
            && scr_supports_4bit(reply->Ok_0.scr@),
        state.after(host, reply, now) matches Progress::Next { state: next, .. }
            && next is BusWidth ==> state is BusWidthPrefix,
        state.after(host, reply, now) matches Progress::Next { set_four_bit, .. } && set_four_bit
            ==> state is BusWidth,
        state.after(host, reply, now) matches Progress::Acquired { set_four_bit, .. }
            && set_four_bit ==> state is BusWidth,
{
}

/// A card is only reported with the address, identification and card data that it
/// gave, which no later step changes.
pub proof fn card_information_is_kept(
    state: Acquire,
    host: Host,
    reply: Result<Reply, Error>,
    now: u64,
)
    requires
        state.wf(),
    ensures
        ({
            let info = match state {
                Acquire::Select { info } => Some(info),
                Acquire::Status { info } => Some(info),
                Acquire::ScrBlockLen { info } => Some(info),
                Acquire::ScrPrefix { info } => Some(info),
                Acquire::Scr { info } => Some(info),
                Acquire::BusWidthPrefix { info } => Some(info),
                Acquire::BusWidth { info } => Some(info),
                Acquire::BlockLen { info } => Some(info),
                _ => None,
            };
            &&& state.after(host, reply, now) matches Progress::Acquired { info: acquired, .. }
                ==> info == Some(acquired)
        }),
{
}

/// One transfer of consecutive blocks.
#[derive(Debug, Clone, Copy, PartialEq, Eq, Structural)]
pub struct Batch {
    pub command: Command,
    /// Card address of the first block.
    pub address: u32,
    /// Index of the first block in the caller's blocks.
    pub first: usize,
    pub blocks: usize,
}

#[derive(Debug, Clone, Copy, PartialEq, Eq, Structural)]
pub enum Direction {
    Read,
    Write,
}

/// Block `block_idx` in the addresses of the card.
pub open spec fn card_address(card_type: CardType, block_idx: int) -> int {
    match card_type {
        CardType::SD1 | CardType::SD2 => block_idx * BLOCK_LEN,
        CardType::SdhcSdxc => block_idx,
    }
}

/// The command that moves `blocks` blocks.
pub open spec fn batch_command(direction: Direction, blocks: int) -> Command {
    match direction {
        Direction::Read => if blocks == 1 {
            Command::Cmd17ReadSingleBlock
        } else {
            Command::Cmd18ReadMultipleBlocks
        },
        Direction::Write => if blocks == 1 {
            Command::Cmd24WriteBlock
        } else {
            Command::Cmd25WriteMultipleBlocks
        },
    }
}

/// Block indices stop at the largest one.
pub open spec fn saturated(block_idx: int) -> int {
    if block_idx > u32::MAX {
        u32::MAX as int
    } else {
        block_idx
    }
}

/// How many batches `count` blocks take.
pub open spec fn batch_count(count: int) -> int {
    arith::ceil_div(count, MAX_DMA_BLOCKS_PER_BATCH as int)
}

/// The index of the first block of the last batch.
pub open spec fn last_batch_start(count: int) -> int {
    (batch_count(count) - 1) * MAX_DMA_BLOCKS_PER_BATCH
}

/// Batch `k` of `count` blocks from `block_idx` on: as many blocks as one
/// transfer takes, or what is left.
pub open spec fn batch(
    card_type: CardType,
    direction: Direction,
    block_idx: int,
    count: int,
    k: int,
) -> Batch {
    let first = k * MAX_DMA_BLOCKS_PER_BATCH;
    let blocks = if count - first < MAX_DMA_BLOCKS_PER_BATCH {
        count - first
    } else {
        MAX_DMA_BLOCKS_PER_BATCH as int
    };
    Batch {
        command: batch_command(direction, blocks),
        address: card_address(card_type, saturated(block_idx + first)) as u32,
        first: first as usize,
        blocks: blocks as usize,
    }
}

pub open spec fn batches(
    card_type: CardType,
    direction: Direction,
    block_idx: int,
    count: int,
) -> Seq<Batch> {
    Seq::new(
        batch_count(count) as nat,
        |k: int| batch(card_type, direction, block_idx, count, k),
    )
}

proof fn lemma_one_block_is_one_batch(card_type: CardType, direction: Direction, block_idx: int)
    ensures
        batches(card_type, direction, block_idx, 1) == seq![
            batch(card_type, direction, block_idx, 1, 0),
        ],
{
    arith::ceil_div_is_least_cover(1, MAX_DMA_BLOCKS_PER_BATCH as int);
    assert(batch_count(1) == 1);
    assert(batches(card_type, direction, block_idx, 1) =~= seq![
        batch(card_type, direction, block_idx, 1, 0),
    ]);
}

/// An SD card that was acquired.
#[derive(Debug, Clone, Copy, PartialEq, Eq, Structural)]
pub struct StorageDevice {
    pub info: SdCardInfo,
}

impl StorageDevice {
    /// Wraps an acquired card.
    pub fn new_sd_card(info: SdCardInfo) -> (r: Self)
        ensures
            r.info == info,
    {
        StorageDevice { info }
    }

    /// Takes over the card that was acquired again.
    pub fn reacquire(&mut self, info: SdCardInfo)
        ensures
            final(self).info == info,
    {
        self.info = info;
    }

    pub fn card_info(&self) -> (r: &SdCardInfo)
        ensures
            *r == self.info,
    {
        &self.info
    }

    /// The block has an address on the card.
    pub open spec fn has_address(&self, block_idx: int) -> bool {
        0 <= block_idx && card_address(self.info.card_type, block_idx) <= u32::MAX
    }

    pub fn block_address(&self, block_idx: u32) -> (r: u32)
        requires
            self.has_address(block_idx as int),
        ensures
            r == card_address(self.info.card_type, block_idx as int),
    {
        match self.info.card_type {
            CardType::SD1 | CardType::SD2 => block_idx * BLOCK_LEN as u32,
            CardType::SdhcSdxc => block_idx,
        }
    }

    /// The transfer that reads one block.
    pub fn read_block(&self, block_idx: u32) -> (r: Batch)
        requires
            self.has_address(block_idx as int),
        ensures
            r == (Batch {
                command: Command::Cmd17ReadSingleBlock,
                address: card_address(self.info.card_type, block_idx as int) as u32,
                first: 0,
                blocks: 1,
            }),
            batches(self.info.card_type, Direction::Read, block_idx as int, 1) == seq![r],
    {
        proof {
            lemma_one_block_is_one_batch(self.info.card_type, Direction::Read, block_idx as int);
        }
        Batch {
            command: Command::Cmd17ReadSingleBlock,
            address: self.block_address(block_idx),
            first: 0,
            blocks: 1,
        }
    }

    /// The transfer that writes one block. The card then programs it.
    pub fn write_block(&self, block_idx: u32) -> (r: Batch)
        requires
            self.has_address(block_idx as int),
        ensures
            r == (Batch {
                command: Command::Cmd24WriteBlock,
                address: card_address(self.info.card_type, block_idx as int) as u32,
                first: 0,
                blocks: 1,
            }),
            batches(self.info.card_type, Direction::Write, block_idx as int, 1) == seq![r],
    {
        proof {
            lemma_one_block_is_one_batch(self.info.card_type, Direction::Write, block_idx as int);
        }
        Batch {
            command: Command::Cmd24WriteBlock,
            address: self.block_address(block_idx),
            first: 0,
            blocks: 1,
        }
    }

    /// The transfers that read `count` blocks from `block_idx` on, in order.
    pub fn read_blocks(&self, block_idx: u32, count: usize) -> (r: Vec<Batch>)
        requires
            count > 0 ==> self.has_address(saturated(block_idx + last_batch_start(count as int))),
        ensures
            r@ == batches(self.info.card_type, Direction::Read, block_idx as int, count as int),
    {
        self.plan(Direction::Read, block_idx, count)
    }

    /// The transfers that write `count` blocks from `block_idx` on, in order. The
    /// card programs the blocks of each one before the next one starts.
    pub fn write_blocks(&self, block_idx: u32, count: usize) -> (r: Vec<Batch>)
        requires
            count > 0 ==> self.has_address(saturated(block_idx + last_batch_start(count as int))),
        ensures
            r@ == batches(self.info.card_type, Direction::Write, block_idx as int, count as int),
    {
        self.plan(Direction::Write, block_idx, count)
    }

    fn plan(&self, direction: Direction, block_idx: u32, count: usize) -> (r: Vec<Batch>)
        requires
            count > 0 ==> self.has_address(saturated(block_idx + last_batch_start(count as int))),
        ensures
            r@ == batches(self.info.card_type, direction, block_idx as int, count as int),
    {
        let ghost all = batches(self.info.card_type, direction, block_idx as int, count as int);
        let mut plan: Vec<Batch> = Vec::new();
        let mut remaining: usize = count;
        let mut current: u32 = block_idx;
        let mut first: usize = 0;
        proof {
            arith::ceil_div_is_least_cover(count as int, MAX_DMA_BLOCKS_PER_BATCH as int);
        }
        assert(plan@ =~= all.take(0));
        while remaining > 0
            invariant
                all == batches(self.info.card_type, direction, block_idx as int, count as int),
                count > 0 ==> self.has_address(
                    saturated(block_idx + last_batch_start(count as int)),
                ),
                count <= batch_count(count as int) * MAX_DMA_BLOCKS_PER_BATCH,
                count > 0 ==> (batch_count(count as int) - 1) * MAX_DMA_BLOCKS_PER_BATCH < count,
                batch_count(count as int) >= 0,
                first + remaining == count,
                current == saturated(block_idx + first),
                remaining > 0 ==> first == plan@.len() * MAX_DMA_BLOCKS_PER_BATCH,
                remaining == 0 ==> plan@.len() == batch_count(count as int),
                plan@.len() <= batch_count(count as int),
                plan@ == all.take(plan@.len() as int),
            decreases remaining,
        {
            let ghost k = plan@.len() as int;
            assert(k < batch_count(count as int));
            let blocks: usize = if remaining < MAX_DMA_BLOCKS_PER_BATCH {
                remaining
            } else {
                MAX_DMA_BLOCKS_PER_BATCH
            };
            let address: u32 = self.block_address(current);
            let command = match direction {
                Direction::Read => if blocks == 1 {
                    Command::Cmd17ReadSingleBlock
                } else {
                    Command::Cmd18ReadMultipleBlocks
                },
                Direction::Write => if blocks == 1 {
                    Command::Cmd24WriteBlock
                } else {
                    Command::Cmd25WriteMultipleBlocks
                },
            };
            plan.push(Batch { command, address, first, blocks });
            assert(all[k] == plan@[k]);
            assert(all.take(k + 1) =~= all.take(k).push(all[k]));
            current = current.saturating_add(blocks as u32);
            first += blocks;
            remaining -= blocks;
        }
        assert(all.take(plan@.len() as int) =~= all);
        plan
    }

    /// The argument of the status command for this card.
    pub fn status_argument(&self) -> (r: u32)
        ensures
            r == rca_argument(self.info.rca),
    {
        rca_arg(self.info.rca)
    }

    /// Decides one poll of a card that may still program, from its card status:
    /// done, failed, or `None` to ask again.
    pub fn wait_for_programming_done(&self, response: u32, now: u64, deadline: u64) -> (r: Option<
        Result<(), Error>,
    >)
        ensures
            r == match card::status_state(response) {
                Some(State::Tran) => Some(Ok::<(), Error>(())),
                Some(State::Data) | Some(State::Rcv) | Some(State::Prg) => if now >= deadline {
                    Some(Err(Error::ProgrammingTimeout))
                } else {
                    None
                },
                _ => Some(Err(Error::UnexpectedResponse)),
            },
    {
        match card::r1_state(response) {
            Some(State::Tran) => return Some(Ok(())),
            Some(State::Data) | Some(State::Rcv) | Some(State::Prg) => {},
            _ => return Some(Err(Error::UnexpectedResponse)),
        }
        if timeout_elapsed(now, deadline) {
            return Some(Err(Error::ProgrammingTimeout));
        }
        None
    }
}

/// The batches of a transfer cover its blocks exactly: the first starts at the
/// first block, each next one where the one before ends, the last ends at the last
/// block, and every batch fits one transfer.
pub proof fn batches_cover_all_blocks(
    card_type: CardType,
    direction: Direction,
    block_idx: int,
    count: int,
)
    requires
        0 < count <= u32::MAX,
        block_idx >= 0,
    ensures
        ({
            let all = batches(card_type, direction, block_idx, count);
            &&& all.len() > 0
            &&& all[0].first == 0
            &&& forall|k: int|
                0 <= k < all.len() - 1 ==> (#[trigger] all[k]).first + all[k].blocks == all[k
                    + 1].first
            &&& all.last().first + all.last().blocks == count
            &&& forall|k: int|
                0 <= k < all.len() ==> 0 < (#[trigger] all[k]).blocks <= MAX_DMA_BLOCKS_PER_BATCH
        }),
{
    arith::ceil_div_is_least_cover(count, MAX_DMA_BLOCKS_PER_BATCH as int);
    let all = batches(card_type, direction, block_idx, count);
    assert forall|k: int| 0 <= k < all.len() implies 0 < (#[trigger] all[k]).blocks
        <= MAX_DMA_BLOCKS_PER_BATCH && all[k].first == k * MAX_DMA_BLOCKS_PER_BATCH by {}
}

} // verus!
