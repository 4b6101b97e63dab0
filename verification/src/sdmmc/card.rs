//! SD card protocol values: command arguments and responses.
//!
//! The fields are packed and unpacked by the SD card definitions of
//! `embedded_sdmmc`; this module gives them as plain values.
use vstd::prelude::*;

use embedded_sdmmc::embedded_sdmmc_types::sdcard::{argument, csd, response};

use super::BusMode;

verus! {

/// The structure field of a card specific data register is invalid.
#[verifier::external_type_specification]
#[verifier::external_body]
pub struct ExInvalidCsdStructureFieldError(csd::InvalidCsdStructureFieldError);

#[derive(Debug, Clone, Copy, PartialEq, Eq, Structural)]
pub enum CardType {
    /// Standard capacity, version 1: byte addresses.
    SD1,
    /// Standard capacity, version 2: byte addresses.
    SD2,
    /// High or extended capacity: block addresses.
    SdhcSdxc,
}

#[derive(Debug, Clone, Copy, PartialEq, Eq, Structural)]
pub enum VoltageSuppliedSelect {
    V2_7To3_6,
    LowVoltageRange,
}

impl VoltageSuppliedSelect {
    pub open spec fn bits(self) -> int {
        match self {
            VoltageSuppliedSelect::V2_7To3_6 => 1,
            VoltageSuppliedSelect::LowVoltageRange => 2,
        }
    }
}

#[derive(Debug, Clone, Copy, PartialEq, Eq, Structural)]
pub enum HostCapacitySupport {
    SdscOnly,
    SdhcOrSdxc,
}

#[derive(Debug, Clone, Copy, PartialEq, Eq, Structural)]
pub enum PowerControl {
    PowerSaving,
    MaximumPerformance,
}

/// State of a card.
#[derive(Debug, Clone, Copy, PartialEq, Eq, Structural)]
pub enum State {
    Idle,
    Ready,
    Ident,
    Stby,
    Tran,
    Data,
    Rcv,
    Prg,
    Dis,
    ReservedIoMode,
}

/// The state that the four bits `n` of a card status stand for.
pub open spec fn state_from_bits(n: int) -> Option<State> {
    if n == 0 {
        Some(State::Idle)
    } else if n == 1 {
        Some(State::Ready)
    } else if n == 2 {
        Some(State::Ident)
    } else if n == 3 {
        Some(State::Stby)
    } else if n == 4 {
        Some(State::Tran)
    } else if n == 5 {
        Some(State::Data)
    } else if n == 6 {
        Some(State::Rcv)
    } else if n == 7 {
        Some(State::Prg)
    } else if n == 8 {
        Some(State::Dis)
    } else if n == 15 {
        Some(State::ReservedIoMode)
    } else {
        None
    }
}

/// The card state in a card status.
pub open spec fn status_state(raw: u32) -> Option<State> {
    state_from_bits(((raw / 0x200) % 0x10) as int)
}

/// Bit 5 of a card status: the card expects an application command.
pub open spec fn status_app_cmd(raw: u32) -> bool {
    (raw / 0x20) % 2 == 1
}

/// Bit 31 of an operating conditions register: the power-up routine is over.
pub open spec fn ocr_complete(raw: u32) -> bool {
    raw / 0x8000_0000 == 1
}

/// Bit 30 of an operating conditions register: the card has high capacity.
pub open spec fn ocr_high_capacity(raw: u32) -> bool {
    (raw / 0x4000_0000) % 2 == 1
}

/// The upper half of a relative address response.
pub open spec fn relative_address(raw: u32) -> u16 {
    (raw / 0x1_0000) as u16
}

/// The voltage that an interface condition response accepts.
pub open spec fn voltage_accepted(raw: u32) -> Option<VoltageSuppliedSelect> {
    if (raw / 0x100) % 0x10 == 1 {
        Some(VoltageSuppliedSelect::V2_7To3_6)
    } else if (raw / 0x100) % 0x10 == 2 {
        Some(VoltageSuppliedSelect::LowVoltageRange)
    } else {
        None
    }
}

/// The check pattern that an interface condition response echoes.
pub open spec fn echoed_pattern(raw: u32) -> u8 {
    (raw % 0x100) as u8
}

pub open spec fn if_cond_argument(voltage: VoltageSuppliedSelect, pattern: u8) -> int {
    voltage.bits() * 0x100 + pattern
}

pub open spec fn op_cond_argument(
    capacity: HostCapacitySupport,
    fast_boot: bool,
    xpc: PowerControl,
    s18r: bool,
    ocr: int,
) -> int {
    (if capacity is SdhcOrSdxc {
        0x4000_0000int
    } else {
        0
    }) + (if fast_boot {
        0x2000_0000int
    } else {
        0
    }) + (if xpc is MaximumPerformance {
        0x1000_0000int
    } else {
        0
    }) + (if s18r {
        0x100_0000int
    } else {
        0
    }) + ocr
}

pub open spec fn bus_width_argument(width: BusMode) -> int {
    match width {
        BusMode::OneBit => 0,
        BusMode::FourBit => 2,
    }
}

/// The first `n` bytes as a big-endian number.
pub open spec fn be_value(bytes: Seq<u8>, n: int) -> int
    decreases n,
{
    if n <= 0 {
        0
    } else {
        be_value(bytes, n - 1) * 256 + bytes[n - 1]
    }
}

/// Version of a card specific data register.
#[derive(Debug, Clone, Copy, PartialEq, Eq, Structural)]
pub enum CsdVersion {
    V1,
    V2,
    V3,
}

/// Card specific data: its version and the register itself.
#[derive(Debug, Clone, Copy, PartialEq, Eq, Structural)]
pub struct Csd {
    pub version: CsdVersion,
    pub raw: u128,
}

/// Card identification register.
#[derive(Debug, Clone, Copy, PartialEq, Eq, Structural)]
pub struct Cid {
    pub raw: u128,
}

/// The card specific data that sixteen bytes hold, unless their version field is reserved.
pub open spec fn csd_of(bytes: Seq<u8>) -> Option<Csd> {
    let raw = be_value(bytes, 16) as u128;
    if bytes[0] / 64 == 0 {
        Some(Csd { version: CsdVersion::V1, raw })
    } else if bytes[0] / 64 == 1 {
        Some(Csd { version: CsdVersion::V2, raw })
    } else if bytes[0] / 64 == 2 {
        Some(Csd { version: CsdVersion::V3, raw })
    } else {
        None
    }
}

/// `embedded_sdmmc`'s `CardStatus::state`: the four state bits, absent where
/// they are reserved.
#[verifier::external_body]
pub(crate) fn r1_state(raw: u32) -> (r: Option<State>)
    ensures
        r == status_state(raw),
{
    match response::R1::new_with_raw_value(raw).state() {
        Ok(response::State::Idle) => Some(State::Idle),
        Ok(response::State::Ready) => Some(State::Ready),
        Ok(response::State::Ident) => Some(State::Ident),
        Ok(response::State::Stby) => Some(State::Stby),
        Ok(response::State::Tran) => Some(State::Tran),
        Ok(response::State::Data) => Some(State::Data),
        Ok(response::State::Rcv) => Some(State::Rcv),
        Ok(response::State::Prg) => Some(State::Prg),
        Ok(response::State::Dis) => Some(State::Dis),
        Ok(response::State::ReservedIoMode) => Some(State::ReservedIoMode),
        Err(_) => None,
    }
}

/// `embedded_sdmmc`'s `CardStatus::app_cmd`: bit 5.
#[verifier::external_body]
pub(crate) fn r1_app_cmd(raw: u32) -> (r: bool)
    ensures
        r == status_app_cmd(raw),
{
    response::R1::new_with_raw_value(raw).app_cmd()
}

/// `embedded_sdmmc`'s `Ocr::initialization_complete`: bit 31.
#[verifier::external_body]
pub(crate) fn r3_initialization_complete(raw: u32) -> (r: bool)
    ensures
        r == ocr_complete(raw),
{
    response::R3::new_with_raw_value(raw).initialization_complete()
}

/// `embedded_sdmmc`'s `Ocr::card_capacity_status`: bit 30.
#[verifier::external_body]
pub(crate) fn r3_card_capacity_status(raw: u32) -> (r: bool)
    ensures
        r == ocr_high_capacity(raw),
{
    response::R3::new_with_raw_value(raw).card_capacity_status()
}

/// `embedded_sdmmc`'s `R6::rca`: bits 16 to 31.
#[verifier::external_body]
pub(crate) fn r6_rca(raw: u32) -> (r: u16)
    ensures
        r == relative_address(raw),
{
    response::R6::new_with_raw_value(raw).rca()
}

/// `embedded_sdmmc`'s `R7::voltage_accepted`: bits 8 to 11, absent where they
/// name no voltage range.
#[verifier::external_body]
pub(crate) fn r7_voltage_accepted(raw: u32) -> (r: Option<VoltageSuppliedSelect>)
    ensures
        r == voltage_accepted(raw),
{
    match response::R7::new_with_raw_value(raw).voltage_accepted() {
        Ok(argument::VoltageSuppliedSelect::_2_7To3_6V) => Some(VoltageSuppliedSelect::V2_7To3_6),
        Ok(argument::VoltageSuppliedSelect::LowVoltageRange) => Some(VoltageSuppliedSelect::LowVoltageRange),
        Err(_) => None,
    }
}

/// `embedded_sdmmc`'s `R7::echo_check_pattern`: bits 0 to 7.
#[verifier::external_body]
pub(crate) fn r7_echo_check_pattern(raw: u32) -> (r: u8)
    ensures
        r == echoed_pattern(raw),
{
    response::R7::new_with_raw_value(raw).echo_check_pattern()
}

/// `embedded_sdmmc`'s `Cmd8`: the voltage range in bits 8 to 11, the check
/// pattern in bits 0 to 7, nothing else set.
#[verifier::external_body]
pub(crate) fn cmd8_argument(voltage: VoltageSuppliedSelect, pattern: u8) -> (r: u32)
    ensures
        r == if_cond_argument(voltage, pattern),
{
    let voltage = match voltage {
        VoltageSuppliedSelect::V2_7To3_6 => argument::VoltageSuppliedSelect::_2_7To3_6V,
        VoltageSuppliedSelect::LowVoltageRange => argument::VoltageSuppliedSelect::LowVoltageRange,
    };
    argument::Cmd8::ZERO
        .with_voltage_supplied(voltage)
        .with_check_pattern(pattern)
        .raw_value()
}

/// `embedded_sdmmc`'s `Acmd41`: capacity support in bit 30, fast boot in bit
/// 29, power control in bit 28, voltage switch in bit 24, voltage window in the
/// 24 bits below.
#[verifier::external_body]
pub(crate) fn acmd41_argument(
    capacity: HostCapacitySupport,
    fast_boot: bool,
    xpc: PowerControl,
    s18r: bool,
    ocr: u32,
) -> (r: u32)
    requires
        ocr < 0x100_0000,
    ensures
        r == op_cond_argument(capacity, fast_boot, xpc, s18r, ocr as int),
{
    argument::Acmd41::builder()
        .with_host_capacity_support(match capacity {
            HostCapacitySupport::SdscOnly => argument::HostCapacitySupport::SdscOnly,
            HostCapacitySupport::SdhcOrSdxc => argument::HostCapacitySupport::SdhcOrSdxc,
        })
        .with_fast_boot(fast_boot)
        .with_xpc(match xpc {
            PowerControl::PowerSaving => argument::PowerControl::PowerSaving,
            PowerControl::MaximumPerformance => argument::PowerControl::MaximumPerformance,
        })
        .with_s18r(s18r)
        .with_ocr(argument::OcrLower::new_with_raw_value(arbitrary_int::u24::new(ocr)))
        .build().raw_value()
}

/// `embedded_sdmmc`'s `Acmd6`: the bus width in bits 0 and 1.
#[verifier::external_body]
pub(crate) fn acmd6_argument(width: BusMode) -> (r: u32)
    ensures
        r == bus_width_argument(width),
{
    argument::Acmd6::builder()
        .with_bus_width(match width {
            BusMode::OneBit => argument::BusWidth::_1bit,
            BusMode::FourBit => argument::BusWidth::_4bits,
        })
        .build()
        .raw_value()
}

/// `embedded_sdmmc`'s `Csd::new_unchecked`: the top two bits of the first byte
/// give the version and are refused where they are `11`; the register is the
/// sixteen bytes as a big-endian number. The checksum is not looked at.
#[verifier::external_body]
pub(crate) fn csd_new_unchecked(raw: &[u8; 16]) -> (r: Result<
    Csd,
    csd::InvalidCsdStructureFieldError,
>)
    ensures
        r is Err <==> csd_of(raw@) is None,
        r is Ok ==> csd_of(raw@) == Some(r->Ok_0),
{
    match csd::Csd::new_unchecked(raw) {
        Ok(csd::Csd::V1(v)) => Ok(Csd { version: CsdVersion::V1, raw: v.raw_value() }),
        Ok(csd::Csd::V2(v)) => Ok(Csd { version: CsdVersion::V2, raw: v.raw_value() }),
        Ok(csd::Csd::V3(v)) => Ok(Csd { version: CsdVersion::V3, raw: v.raw_value() }),
        Err(e) => Err(e),
    }
}

/// The largest value of `n` bytes, plus one.
spec fn pow256(n: int) -> int
    decreases n,
{
    if n <= 0 {
        1
    } else {
        pow256(n - 1) * 256
    }
}

proof fn lemma_pow256_is_bounded(n: int)
    requires
        0 <= n <= 16,
    ensures
        1 <= pow256(n) <= 0x1_0000_0000_0000_0000_0000_0000_0000_0000,
        n < 16 ==> pow256(n) * 256 <= 0x1_0000_0000_0000_0000_0000_0000_0000_0000,
{
    reveal_with_fuel(pow256, 18);
}

/// The sixteen bytes as a big-endian number.
pub fn be_u128(bytes: &[u8; 16]) -> (r: u128)
    ensures
        r == be_value(bytes@, 16),
{
    let mut value: u128 = 0;
    let mut i: usize = 0;
    while i < 16
        invariant
            i <= 16,
            value == be_value(bytes@, i as int),
            value < pow256(i as int),
        decreases 16 - i,
    {
        proof {
            lemma_pow256_is_bounded(i as int);
        }
        value = value * 256 + bytes[i] as u128;
        i += 1;
    }
    value
}

impl Cid {
    /// The identification register from its bytes, as they come from the card.
    pub fn from_be_bytes(bytes: &[u8; 16]) -> (r: Self)
        ensures
            r.raw == be_value(bytes@, 16),
    {
        Cid { raw: be_u128(bytes) }
    }
}

} // verus!
