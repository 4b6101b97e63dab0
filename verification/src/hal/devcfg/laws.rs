//! What the accesses of a bitstream transfer do to the configuration port.
use vstd::prelude::*;

use super::{
    as_devcfg_ops, bitstream_error, configure_ops, start_ops, transfer_error, BitstreamLoadError,
    DevcfgOp, Interrupt, PcapConfig,
};
use crate::cache;

verus! {

/// The configuration port and the programmable logic behind it.
pub struct Pcap {
    pub selected: bool,
    pub rate_enable: bool,
    pub loopback: bool,
    /// An interrupt is flagged.
    pub flagged: bool,
    /// Programming is flagged as done.
    pub done_flagged: bool,
    pub prog_b: bool,
    /// The logic was seen in reset while it was held there.
    pub cleared: bool,
    /// The logic was seen ready since it was last let go.
    pub ready: bool,
    pub queue_has_room: bool,
}

impl Pcap {
    pub open spec fn after(self, op: DevcfgOp) -> Pcap {
        match op {
            DevcfgOp::SelectPcap { rate_enable } => Pcap { selected: true, rate_enable, ..self },
            DevcfgOp::AckAllInterrupts => Pcap { flagged: false, done_flagged: false, ..self },
            DevcfgOp::AckProgrammingDone => Pcap { done_flagged: false, ..self },
            DevcfgOp::SetProgB(v) => if v {
                Pcap { prog_b: true, ..self }
            } else {
                Pcap { prog_b: false, done_flagged: true, cleared: false, ready: false, ..self }
            },
            DevcfgOp::WaitPcfgInit(v) => if v {
                Pcap { ready: self.prog_b, ..self }
            } else {
                Pcap { cleared: !self.prog_b, ..self }
            },
            DevcfgOp::WaitQueueNotFull => Pcap { queue_has_room: true, ..self },
            DevcfgOp::DisableLoopback => Pcap { loopback: false, ..self },
            _ => self,
        }
    }

    /// The port after the first `n` accesses.
    pub open spec fn after_first(self, ops: Seq<DevcfgOp>, n: int) -> Pcap
        decreases n,
    {
        if n <= 0 {
            self
        } else {
            self.after_first(ops, n - 1).after(ops[n - 1])
        }
    }

    pub open spec fn after_all(self, ops: Seq<DevcfgOp>) -> Pcap {
        self.after_first(ops, ops.len() as int)
    }
}

/// A configured port is selected at the asked rate, without loopback and with nothing flagged,
/// and the logic is ready. Where the logic is to be initialized it was held in reset until that
/// was seen, and let go; else it is not reset, and the command queue has room.
pub proof fn configured_port_is_ready(p: Pcap, config: PcapConfig)
    requires
        p.prog_b,
    ensures
        ({
            let after = p.after_all(configure_ops(config));
            &&& after.selected && after.rate_enable == config.rate_enable && !after.loopback
            &&& !after.flagged && !after.done_flagged
            &&& after.prog_b && after.ready
            &&& config.init_pl ==> after.cleared
            &&& !config.init_pl ==> after.queue_has_room
            &&& !config.init_pl ==> forall|i: int|
                0 <= i < configure_ops(config).len() ==> !(#[trigger] configure_ops(
                    config,
                )[i] is SetProgB)
        }),
{
    let ops = configure_ops(config);
    assert(p.after_first(ops, 0) == p);
    assert(p.after_first(ops, 1) == p.after(ops[0]));
    assert(p.after_first(ops, 2) == p.after(ops[0]).after(ops[1]));
    let p2 = p.after_first(ops, 2);
    assert(p.after_first(ops, 3) == p2.after(ops[2]));
    assert(p.after_first(ops, 4) == p2.after(ops[2]).after(ops[3]));
    assert(p.after_first(ops, 5) == p2.after(ops[2]).after(ops[3]).after(ops[4]));
    if config.init_pl {
        let p5 = p.after_first(ops, 5);
        assert(ops.len() == 9);
        assert(p.after_first(ops, 6) == p5.after(ops[5]));
        assert(p.after_first(ops, 7) == p5.after(ops[5]).after(ops[6]));
        assert(p.after_first(ops, 8) == p5.after(ops[5]).after(ops[6]).after(ops[7]));
        assert(p.after_first(ops, 9) == p.after_first(ops, 8).after(ops[8]));
    } else {
        assert(ops.len() == 5);
    }
}

/// A transfer begins with the configuration of the port. Its last four accesses name the
/// buffer with the mark of the last command, the port as the destination, and the length in
/// words twice, of which the last starts it.
pub proof fn transfer_names_its_buffer(config: PcapConfig, addr: usize, len: usize)
    requires
        len > 0,
        bitstream_error(addr, len) is None,
        addr + len + 31 <= u32::MAX,
    ensures
        ({
            let ops = start_ops(config, addr, len);
            let n = ops.len() as int;
            &&& configure_ops(config).is_prefix_of(ops)
            &&& (ops[n - 4] matches DevcfgOp::WriteDmaSource(source) && source - 1 == addr && source
                as int % 4 == 1)
            &&& (ops[n - 3] matches DevcfgOp::WriteDmaDest(dest) && dest == 0xFFFF_FFFF)
            &&& (ops[n - 2] matches DevcfgOp::WriteDmaSourceLen(words) && 4 * words == len)
            &&& (ops[n - 1] matches DevcfgOp::WriteDmaDestLen(words) && 4 * words == len)
        }),
{
}

/// Before a transfer starts, each line of its buffer has reached memory.
pub proof fn transferred_buffer_is_in_memory(
    config: PcapConfig,
    addr: usize,
    len: usize,
    l: cache::laws::Line,
)
    requires
        len > 0,
        bitstream_error(addr, len) is None,
        addr + len + 31 <= u32::MAX,
        l.wf(),
        l.at % 32 == 0,
        addr < l.at + 32,
        l.at < addr + len,
    ensures
        exists|clean: Seq<cache::CacheOp>| #[trigger]
            as_devcfg_ops(clean) == start_ops(config, addr, len).subrange(
                configure_ops(config).len() as int,
                start_ops(config, addr, len).len() - 4,
            ) && l.after_all(clean).memory == l.value(),
{
    let start = (addr - addr % 32) as u32;
    let last = addr + len + 31;
    let span = (last - last % 32 - start) as usize;
    let clean = cache::clean_sequence(start, span);
    cache::laws::cleaned_lines_reach_memory(l, start, span);
    assert(as_devcfg_ops(clean) =~= start_ops(config, addr, len).subrange(
        configure_ops(config).len() as int,
        start_ops(config, addr, len).len() - 4,
    ));
}

/// A bitstream is refused exactly where it is not empty and its address is not a multiple of
/// 64 or its length not one of four, and the refusal names what is not.
pub proof fn unaligned_bitstream_is_refused(addr: usize, len: usize)
    ensures
        bitstream_error(addr, len) is None <==> len == 0 || addr as int % 64 == 0 && len as int % 4
            == 0,
        bitstream_error(addr, len) matches Some(e) ==> match e {
            BitstreamLoadError::UnalignedAddress(a) => a == addr && addr as int % 64 != 0,
            BitstreamLoadError::UnalignedWordLen(n) => n == len && len as int % 4 != 0,
            _ => false,
        },
{
}

/// A transfer fails exactly where a failure is flagged, and the failure that is reported is
/// one that is flagged.
pub proof fn reported_failure_is_flagged(isr: Interrupt)
    ensures
        transfer_error(isr) is Some <==> isr.dma_illegal_command || isr.dma_queue_overflow
            || isr.inconsistent_pcap_to_dma_transfer_len || isr.axi_write_timeout
            || isr.axi_write_response_error || isr.axi_read_timeout || isr.axi_read_response_error
            || isr.hmac_error || isr.seu_error || isr.pl_power_loss_por_b_low
            || isr.pl_config_controller_under_reset,
        transfer_error(isr) matches Some(e) ==> match e {
            BitstreamLoadError::DmaIllegalCommand => isr.dma_illegal_command,
            BitstreamLoadError::DmaQueueOverflow => isr.dma_queue_overflow,
            BitstreamLoadError::TransferLengthMismatch => isr.inconsistent_pcap_to_dma_transfer_len,
            BitstreamLoadError::AxiWriteTimeout => isr.axi_write_timeout,
            BitstreamLoadError::AxiWriteResponseError => isr.axi_write_response_error,
            BitstreamLoadError::AxiReadTimeout => isr.axi_read_timeout,
            BitstreamLoadError::AxiReadResponseError => isr.axi_read_response_error,
            BitstreamLoadError::HmacError => isr.hmac_error,
            BitstreamLoadError::SeuError => isr.seu_error,
            BitstreamLoadError::PlPowerLoss => isr.pl_power_loss_por_b_low,
            BitstreamLoadError::PlConfigurationControllerReset =>
                isr.pl_config_controller_under_reset,
            _ => false,
        },
{
}

} // verus!
