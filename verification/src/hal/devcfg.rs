//! Device configuration: loading a bitstream through the processor configuration port.
use vstd::prelude::*;

pub mod laws;

use crate::cache::{self, clean_data_cache_range, CacheOp, CACHE_LINE_SIZE};
use crate::hal::dma;

verus! {

/// Configuration of a bitstream transfer.
#[derive(Debug, Clone, Copy, PartialEq, Eq, Structural)]
pub struct PcapConfig {
    /// Toggle `PROG_B` and wait for `pcfg_init` before starting the transfer.
    pub init_pl: bool,
    /// Enable the rate control bit before the transfer.
    pub rate_enable: bool,
}

impl Default for PcapConfig {
    fn default() -> (r: Self)
        ensures
            r == (PcapConfig { init_pl: true, rate_enable: false }),
    {
        PcapConfig { init_pl: true, rate_enable: false }
    }
}

/// Interrupt status bits that a transfer looks at.
#[derive(Debug, Clone, Copy, PartialEq, Eq, Structural)]
pub struct Interrupt {
    pub dma_illegal_command: bool,
    pub dma_queue_overflow: bool,
    pub inconsistent_pcap_to_dma_transfer_len: bool,
    pub axi_write_timeout: bool,
    pub axi_write_response_error: bool,
    pub axi_read_timeout: bool,
    pub axi_read_response_error: bool,
    pub hmac_error: bool,
    pub seu_error: bool,
    pub pl_power_loss_por_b_low: bool,
    pub pl_config_controller_under_reset: bool,
    pub dma_done: bool,
    pub pl_programming_done: bool,
}

/// No status bit set.
pub open spec fn no_interrupt() -> Interrupt {
    Interrupt {
        dma_illegal_command: false,
        dma_queue_overflow: false,
        inconsistent_pcap_to_dma_transfer_len: false,
        axi_write_timeout: false,
        axi_write_response_error: false,
        axi_read_timeout: false,
        axi_read_response_error: false,
        hmac_error: false,
        seu_error: false,
        pl_power_loss_por_b_low: false,
        pl_config_controller_under_reset: false,
        dma_done: false,
        pl_programming_done: false,
    }
}

/// Successful transfer result.
#[derive(Debug, Clone, Copy, PartialEq, Eq, Structural)]
pub struct BitstreamLoadStatus {
    /// Final interrupt status observed at completion.
    pub interrupt_status: Interrupt,
}

/// Transfer error.
#[derive(Debug, Clone, Copy, PartialEq, Eq, Structural)]
pub enum BitstreamLoadError {
    /// The address is not aligned for the DMA engine.
    UnalignedAddress(usize),
    /// The length is not a multiple of four bytes.
    UnalignedWordLen(usize),
    DmaIllegalCommand,
    DmaQueueOverflow,
    TransferLengthMismatch,
    AxiWriteTimeout,
    AxiWriteResponseError,
    AxiReadTimeout,
    AxiReadResponseError,
    HmacError,
    SeuError,
    PlPowerLoss,
    PlConfigurationControllerReset,
}

/// Error of [`map_load_error`], which tells the alignment errors apart from the others.
#[derive(Debug, Clone, Copy, PartialEq, Eq, Structural)]
pub enum UnalignedAddrError {
    Address(usize),
    Length(usize),
    Transfer(BitstreamLoadError),
}

impl From<BitstreamLoadError> for UnalignedAddrError {
    fn from(value: BitstreamLoadError) -> (r: Self) {
        UnalignedAddrError::Transfer(value)
    }
}

impl vstd::std_specs::convert::FromSpecImpl<BitstreamLoadError> for UnalignedAddrError {
    open spec fn obeys_from_spec() -> bool {
        true
    }

    open spec fn from_spec(value: BitstreamLoadError) -> Self {
        UnalignedAddrError::Transfer(value)
    }
}

/// One access of a bitstream transfer.
#[derive(Debug, Clone, Copy, PartialEq, Eq, Structural)]
pub enum DevcfgOp {
    /// Select the configuration port and set its rate control bit.
    SelectPcap { rate_enable: bool },
    AckAllInterrupts,
    AckProgrammingDone,
    SetProgB(bool),
    /// Wait until `pcfg_init` has this value.
    WaitPcfgInit(bool),
    /// Wait until the DMA command queue has room.
    WaitQueueNotFull,
    DisableLoopback,
    Cache(CacheOp),
    WriteDmaSource(u32),
    WriteDmaDest(u32),
    WriteDmaSourceLen(u32),
    WriteDmaDestLen(u32),
}

/// The cache lines that the range touches: start and length. An empty range
/// inside a line still counts its line.
pub fn cache_maintenance_range(addr: usize, len: usize) -> (r: (u32, usize))
    requires
        addr + len + 31 <= u32::MAX,
    ensures
        r.0 == dma::line_floor(addr as int),
        r.1 == dma::line_ceil(addr + len) - dma::line_floor(addr as int),
        r.0 % 32 == 0,
        r.1 % 32 == 0,
{
    let start: usize = addr - addr % CACHE_LINE_SIZE;
    let last: usize = addr + len + (CACHE_LINE_SIZE - 1);
    let end: usize = last - last % CACHE_LINE_SIZE;
    (start as u32, end - start)
}

/// Why a bitstream of `len` bytes at `addr` is refused, if it is.
pub open spec fn bitstream_error(addr: usize, len: usize) -> Option<BitstreamLoadError> {
    if len == 0 {
        None
    } else if addr % 64 != 0 {
        Some(BitstreamLoadError::UnalignedAddress(addr))
    } else if len % 4 != 0 {
        Some(BitstreamLoadError::UnalignedWordLen(len))
    } else {
        None
    }
}

/// Checks the alignment of a bitstream. An empty one is valid wherever it is.
pub fn validate_bitstream(addr: usize, len: usize) -> (r: Result<(), BitstreamLoadError>)
    ensures
        r == match bitstream_error(addr, len) {
            Some(e) => Err::<(), BitstreamLoadError>(e),
            None => Ok(()),
        },
{
    if len == 0 {
        return Ok(());
    }
    if addr % 64 != 0 {
        return Err(BitstreamLoadError::UnalignedAddress(addr));
    }
    if len % 4 != 0 {
        return Err(BitstreamLoadError::UnalignedWordLen(len));
    }
    Ok(())
}

pub open spec fn configure_ops(config: PcapConfig) -> Seq<DevcfgOp> {
    seq![DevcfgOp::SelectPcap { rate_enable: config.rate_enable }, DevcfgOp::AckAllInterrupts] + (
    if config.init_pl {
        seq![
            DevcfgOp::SetProgB(true),
            DevcfgOp::SetProgB(false),
            DevcfgOp::WaitPcfgInit(false),
            DevcfgOp::SetProgB(true),
            DevcfgOp::AckProgrammingDone,
            DevcfgOp::WaitPcfgInit(true),
        ]
    } else {
        seq![DevcfgOp::WaitPcfgInit(true), DevcfgOp::WaitQueueNotFull]
    }) + seq![DevcfgOp::DisableLoopback]
}

pub open spec fn as_devcfg_ops(ops: Seq<CacheOp>) -> Seq<DevcfgOp> {
    Seq::new(ops.len(), |i: int| DevcfgOp::Cache(ops[i]))
}

/// The accesses that start the transfer of `len` bytes at `addr`. Address bits
/// `01` mark the last DMA command; lengths count words.
pub open spec fn start_ops(config: PcapConfig, addr: usize, len: usize) -> Seq<DevcfgOp> {
    configure_ops(config) + as_devcfg_ops(
        cache::clean_sequence(
            dma::line_floor(addr as int) as u32,
            (dma::line_ceil(addr + len) - dma::line_floor(addr as int)) as usize,
        ),
    ) + seq![
        DevcfgOp::WriteDmaSource((addr + 1) as u32),
        DevcfgOp::WriteDmaDest(0xFFFF_FFFF),
        DevcfgOp::WriteDmaSourceLen((len / 4) as u32),
        DevcfgOp::WriteDmaDestLen((len / 4) as u32),
    ]
}

/// The first failure that an interrupt status reports, in order of precedence.
pub open spec fn transfer_error(isr: Interrupt) -> Option<BitstreamLoadError> {
    if isr.dma_illegal_command {
        Some(BitstreamLoadError::DmaIllegalCommand)
    } else if isr.dma_queue_overflow {
        Some(BitstreamLoadError::DmaQueueOverflow)
    } else if isr.inconsistent_pcap_to_dma_transfer_len {
        Some(BitstreamLoadError::TransferLengthMismatch)
    } else if isr.axi_write_timeout {
        Some(BitstreamLoadError::AxiWriteTimeout)
    } else if isr.axi_write_response_error {
        Some(BitstreamLoadError::AxiWriteResponseError)
    } else if isr.axi_read_timeout {
        Some(BitstreamLoadError::AxiReadTimeout)
    } else if isr.axi_read_response_error {
        Some(BitstreamLoadError::AxiReadResponseError)
    } else if isr.hmac_error {
        Some(BitstreamLoadError::HmacError)
    } else if isr.seu_error {
        Some(BitstreamLoadError::SeuError)
    } else if isr.pl_power_loss_por_b_low {
        Some(BitstreamLoadError::PlPowerLoss)
    } else if isr.pl_config_controller_under_reset {
        Some(BitstreamLoadError::PlConfigurationControllerReset)
    } else {
        None
    }
}

/// How loading starts.
#[derive(Debug)]
pub enum LoadStart {
    /// An empty bitstream is loaded without touching the hardware.
    Done(BitstreamLoadStatus),
    /// Perform the accesses, then poll the interrupt status.
    Transfer(Vec<DevcfgOp>),
}

/// Device configuration driver.
#[derive(Debug, Clone, Copy, PartialEq, Eq, Structural)]
pub struct Devcfg;

impl Devcfg {
    pub fn new() -> (r: Self) {
        Devcfg
    }

    /// Configure the port for a non-secure transfer.
    pub fn configure_pcap_non_secure(&self, config: PcapConfig) -> (ops: Vec<DevcfgOp>)
        ensures
            ops@ == configure_ops(config),
    {
        let mut ops: Vec<DevcfgOp> = Vec::new();
        ops.push(DevcfgOp::SelectPcap { rate_enable: config.rate_enable });
        ops.push(DevcfgOp::AckAllInterrupts);
        if config.init_pl {
            ops.push(DevcfgOp::SetProgB(true));
            ops.push(DevcfgOp::SetProgB(false));
            ops.push(DevcfgOp::WaitPcfgInit(false));
            ops.push(DevcfgOp::SetProgB(true));
            ops.push(DevcfgOp::AckProgrammingDone);
        }
        ops.push(DevcfgOp::WaitPcfgInit(true));
        if !config.init_pl {
            ops.push(DevcfgOp::WaitQueueNotFull);
        }
        ops.push(DevcfgOp::DisableLoopback);
        assert(ops@ =~= configure_ops(config));
        ops
    }

    /// Starts loading the bitstream of `len` bytes at `addr`.
    ///
    /// An empty bitstream is loaded and a misaligned one refused wherever it lies.
    /// Only a transfer needs cache maintenance to be available.
    pub fn load_bitstream_non_secure(
        &self,
        config: PcapConfig,
        addr: usize,
        len: usize,
        cache_ready: bool,
    ) -> (r: Result<LoadStart, BitstreamLoadError>)
        requires
            len != 0 && bitstream_error(addr, len) is None ==> addr + len + 31 <= u32::MAX
                && cache_ready,
        ensures
            match bitstream_error(addr, len) {
                Some(e) => r == Err::<LoadStart, BitstreamLoadError>(e),
                None => match r {
                    Ok(LoadStart::Done(status)) => len == 0 && status.interrupt_status
                        == no_interrupt(),
                    Ok(LoadStart::Transfer(ops)) => len != 0 && ops@ == start_ops(
                        config,
                        addr,
                        len,
                    ),
                    Err(_) => false,
                },
            },
    {
        match validate_bitstream(addr, len) {
            Ok(()) => {},
            Err(e) => return Err(e),
        }
        if len == 0 {
            return Ok(
                LoadStart::Done(
                    BitstreamLoadStatus {
                        interrupt_status: Interrupt {
                            dma_illegal_command: false,
                            dma_queue_overflow: false,
                            inconsistent_pcap_to_dma_transfer_len: false,
                            axi_write_timeout: false,
                            axi_write_response_error: false,
                            axi_read_timeout: false,
                            axi_read_response_error: false,
                            hmac_error: false,
                            seu_error: false,
                            pl_power_loss_por_b_low: false,
                            pl_config_controller_under_reset: false,
                            dma_done: false,
                            pl_programming_done: false,
                        },
                    },
                ),
            );
        }
        let mut ops = self.configure_pcap_non_secure(config);
        let (start, span): (u32, usize) = cache_maintenance_range(addr, len);
        let clean: Vec<CacheOp> = match clean_data_cache_range(cache_ready, start, span) {
            Ok(clean) => clean,
            // The range is aligned and the cache is ready.
            Err(_) => Vec::new(),
        };
        let mut i: usize = 0;
        while i < clean.len()
            invariant
                i <= clean.len(),
                ops@ == configure_ops(config) + as_devcfg_ops(clean@).take(i as int),
            decreases clean.len() - i,
        {
            assert(as_devcfg_ops(clean@).take(i + 1) =~= as_devcfg_ops(clean@).take(i as int).push(
                DevcfgOp::Cache(clean@[i as int]),
            ));
            ops.push(DevcfgOp::Cache(clean[i]));
            i += 1;
        }
        assert(as_devcfg_ops(clean@).take(i as int) =~= as_devcfg_ops(clean@));
        ops.push(DevcfgOp::WriteDmaSource((addr + 1) as u32));
        ops.push(DevcfgOp::WriteDmaDest(0xFFFF_FFFF));
        ops.push(DevcfgOp::WriteDmaSourceLen((len / 4) as u32));
        ops.push(DevcfgOp::WriteDmaDestLen((len / 4) as u32));
        assert(ops@ =~= start_ops(config, addr, len));
        Ok(LoadStart::Transfer(ops))
    }

    /// Decides one poll of a running transfer: done, failed, or `None` to poll again.
    ///
    /// A failure wins over completion.
    pub fn poll_transfer(&self, isr: Interrupt) -> (r: Option<
        Result<BitstreamLoadStatus, BitstreamLoadError>,
    >)
        ensures
            r == match transfer_error(isr) {
                Some(e) => Some(Err::<BitstreamLoadStatus, BitstreamLoadError>(e)),
                None => if isr.dma_done && isr.pl_programming_done {
                    Some(Ok(BitstreamLoadStatus { interrupt_status: isr }))
                } else {
                    None
                },
            },
    {
        if isr.dma_illegal_command {
            return Some(Err(BitstreamLoadError::DmaIllegalCommand));
        }
        if isr.dma_queue_overflow {
            return Some(Err(BitstreamLoadError::DmaQueueOverflow));
        }
        if isr.inconsistent_pcap_to_dma_transfer_len {
            return Some(Err(BitstreamLoadError::TransferLengthMismatch));
        }
        if isr.axi_write_timeout {
            return Some(Err(BitstreamLoadError::AxiWriteTimeout));
        }
        if isr.axi_write_response_error {
            return Some(Err(BitstreamLoadError::AxiWriteResponseError));
        }
        if isr.axi_read_timeout {
            return Some(Err(BitstreamLoadError::AxiReadTimeout));
        }
        if isr.axi_read_response_error {
            return Some(Err(BitstreamLoadError::AxiReadResponseError));
        }
        if isr.hmac_error {
            return Some(Err(BitstreamLoadError::HmacError));
        }
        if isr.seu_error {
            return Some(Err(BitstreamLoadError::SeuError));
        }
        if isr.pl_power_loss_por_b_low {
            return Some(Err(BitstreamLoadError::PlPowerLoss));
        }
        if isr.pl_config_controller_under_reset {
            return Some(Err(BitstreamLoadError::PlConfigurationControllerReset));
        }
        if isr.dma_done && isr.pl_programming_done {
            return Some(Ok(BitstreamLoadStatus { interrupt_status: isr }));
        }
        None
    }
}

/// The error that a caller of the blocking configuration sees.
pub fn map_load_error(err: BitstreamLoadError) -> (r: UnalignedAddrError)
    ensures
        r == match err {
            BitstreamLoadError::UnalignedAddress(addr) => UnalignedAddrError::Address(addr),
            BitstreamLoadError::UnalignedWordLen(len) => UnalignedAddrError::Length(len),
            other => UnalignedAddrError::Transfer(other),
        },
{
    match err {
        BitstreamLoadError::UnalignedAddress(addr) => UnalignedAddrError::Address(addr),
        BitstreamLoadError::UnalignedWordLen(len) => UnalignedAddrError::Length(len),
        other => UnalignedAddrError::Transfer(other),
    }
}

/// Starts configuring the bitstream of `len` bytes at `addr`, without rate control.
pub fn configure_bitstream_non_secure(
    init_pl: bool,
    addr: usize,
    len: usize,
    cache_ready: bool,
) -> (r: Result<LoadStart, UnalignedAddrError>)
    requires
        len != 0 && bitstream_error(addr, len) is None ==> addr + len + 31 <= u32::MAX
            && cache_ready,
    ensures
        match bitstream_error(addr, len) {
            Some(BitstreamLoadError::UnalignedAddress(a)) => r == Err::<
                LoadStart,
                UnalignedAddrError,
            >(UnalignedAddrError::Address(a)),
            Some(BitstreamLoadError::UnalignedWordLen(n)) => r == Err::<
                LoadStart,
                UnalignedAddrError,
            >(UnalignedAddrError::Length(n)),
            _ => match r {
                Ok(LoadStart::Done(status)) => len == 0 && status.interrupt_status
                    == no_interrupt(),
                Ok(LoadStart::Transfer(ops)) => len != 0 && ops@ == start_ops(
                    PcapConfig { init_pl, rate_enable: false },
                    addr,
                    len,
                ),
                Err(_) => false,
            },
        },
{
    let devcfg = Devcfg::new();
    match devcfg.load_bitstream_non_secure(
        PcapConfig { init_pl, rate_enable: false },
        addr,
        len,
        cache_ready,
    ) {
        Ok(start) => Ok(start),
        Err(e) => Err(map_load_error(e)),
    }
}

/// A transfer is reported as successful only when both completion bits are set and
/// no failure bit is.
pub proof fn success_means_no_failure_bit(isr: Interrupt)
    requires
        transfer_error(isr) is None,
    ensures
        !isr.dma_illegal_command,
        !isr.dma_queue_overflow,
        !isr.inconsistent_pcap_to_dma_transfer_len,
        !isr.axi_write_timeout,
        !isr.axi_write_response_error,
        !isr.axi_read_timeout,
        !isr.axi_read_response_error,
        !isr.hmac_error,
        !isr.seu_error,
        !isr.pl_power_loss_por_b_low,
        !isr.pl_config_controller_under_reset,
{
}

} // verus!
