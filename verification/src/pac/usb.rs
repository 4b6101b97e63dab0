//! Registers of the PS USB controller.
//!
//! The controller is based on the ChipIdea device/host core. Only the registers
//! that device mode needs are modelled.
use vstd::prelude::*;

use crate::bits;

verus! {

pub const USB_0_BASE_ADDR: usize = 0xE000_2000;

pub const USB_1_BASE_ADDR: usize = 0xE000_3000;

/// The status bits that are cleared by writing a one to them.
pub const USB_STATUS_ACK_MASK: u32 = 0x1d7;

/// The setup status bits, of which there is one per endpoint.
pub const ENDPOINT_SETUP_STATUS_ACK_MASK: u32 = 0xFFFF;

/// The port change bits that are cleared by writing a one to them.
pub const PORTSC1_CHANGE_ACK_MASK: u32 = 0x2a;

pub const OTGSC_POWER_DETECTION_INTERRUPT_STATUS_MASK: u32 = 0x001e_0000;

pub const OTGSC_POWER_DETECTION_INTERRUPT_ENABLE_MASK: u32 = 0x1e00_0000;

/// USB controller mode.
#[derive(Debug, Clone, Copy, PartialEq, Eq, Structural)]
pub enum ControllerMode {
    Idle,
    Reserved,
    Device,
    Host,
}

impl ControllerMode {
    pub open spec fn code(self) -> u32 {
        match self {
            ControllerMode::Idle => 0,
            ControllerMode::Reserved => 1,
            ControllerMode::Device => 2,
            ControllerMode::Host => 3,
        }
    }

    pub fn raw_value(self) -> (r: u32)
        ensures
            r == self.code(),
    {
        match self {
            ControllerMode::Idle => 0,
            ControllerMode::Reserved => 1,
            ControllerMode::Device => 2,
            ControllerMode::Host => 3,
        }
    }
}

/// USB command register.
#[derive(Debug, Clone, Copy, PartialEq, Eq, Structural)]
pub struct UsbCommand {
    pub raw: u32,
}

impl UsbCommand {
    pub fn new_with_raw_value(raw: u32) -> (r: Self)
        ensures
            r.raw == raw,
    {
        UsbCommand { raw }
    }

    pub fn raw_value(&self) -> (r: u32)
        ensures
            r == self.raw,
    {
        self.raw
    }

    pub fn add_dtd_tripwire(&self) -> (r: bool)
        ensures
            r == bits::bit(self.raw, 14),
    {
        bits::get_bit(self.raw, 14)
    }

    pub fn with_add_dtd_tripwire(self, value: bool) -> (r: Self)
        ensures
            r.raw == bits::set_bit(self.raw, 14, value),
    {
        UsbCommand { raw: bits::with_bit(self.raw, 14, value) }
    }

    pub fn setup_tripwire(&self) -> (r: bool)
        ensures
            r == bits::bit(self.raw, 13),
    {
        bits::get_bit(self.raw, 13)
    }

    pub fn with_setup_tripwire(self, value: bool) -> (r: Self)
        ensures
            r.raw == bits::set_bit(self.raw, 13, value),
    {
        UsbCommand { raw: bits::with_bit(self.raw, 13, value) }
    }

    pub fn controller_reset(&self) -> (r: bool)
        ensures
            r == bits::bit(self.raw, 1),
    {
        bits::get_bit(self.raw, 1)
    }

    pub fn with_controller_reset(self, value: bool) -> (r: Self)
        ensures
            r.raw == bits::set_bit(self.raw, 1, value),
    {
        UsbCommand { raw: bits::with_bit(self.raw, 1, value) }
    }

    pub fn run_stop(&self) -> (r: bool)
        ensures
            r == bits::bit(self.raw, 0),
    {
        bits::get_bit(self.raw, 0)
    }

    pub fn with_run_stop(self, value: bool) -> (r: Self)
        ensures
            r.raw == bits::set_bit(self.raw, 0, value),
    {
        UsbCommand { raw: bits::with_bit(self.raw, 0, value) }
    }
}

/// USB status register.
#[derive(Debug, Clone, Copy, PartialEq, Eq, Structural)]
pub struct UsbStatus {
    pub raw: u32,
}

impl UsbStatus {
    pub fn new_with_raw_value(raw: u32) -> (r: Self)
        ensures
            r.raw == raw,
    {
        UsbStatus { raw }
    }

    pub fn raw_value(&self) -> (r: u32)
        ensures
            r == self.raw,
    {
        self.raw
    }

    pub fn suspend(&self) -> (r: bool)
        ensures
            r == bits::bit(self.raw, 8),
    {
        bits::get_bit(self.raw, 8)
    }

    pub fn with_suspend(self, value: bool) -> (r: Self)
        ensures
            r.raw == bits::set_bit(self.raw, 8, value),
    {
        UsbStatus { raw: bits::with_bit(self.raw, 8, value) }
    }

    pub fn sof_received(&self) -> (r: bool)
        ensures
            r == bits::bit(self.raw, 7),
    {
        bits::get_bit(self.raw, 7)
    }

    pub fn with_sof_received(self, value: bool) -> (r: Self)
        ensures
            r.raw == bits::set_bit(self.raw, 7, value),
    {
        UsbStatus { raw: bits::with_bit(self.raw, 7, value) }
    }

    pub fn reset_received(&self) -> (r: bool)
        ensures
            r == bits::bit(self.raw, 6),
    {
        bits::get_bit(self.raw, 6)
    }

    pub fn with_reset_received(self, value: bool) -> (r: Self)
        ensures
            r.raw == bits::set_bit(self.raw, 6, value),
    {
        UsbStatus { raw: bits::with_bit(self.raw, 6, value) }
    }

    pub fn system_error(&self) -> (r: bool)
        ensures
            r == bits::bit(self.raw, 4),
    {
        bits::get_bit(self.raw, 4)
    }

    pub fn with_system_error(self, value: bool) -> (r: Self)
        ensures
            r.raw == bits::set_bit(self.raw, 4, value),
    {
        UsbStatus { raw: bits::with_bit(self.raw, 4, value) }
    }

    pub fn port_change_detect(&self) -> (r: bool)
        ensures
            r == bits::bit(self.raw, 2),
    {
        bits::get_bit(self.raw, 2)
    }

    pub fn with_port_change_detect(self, value: bool) -> (r: Self)
        ensures
            r.raw == bits::set_bit(self.raw, 2, value),
    {
        UsbStatus { raw: bits::with_bit(self.raw, 2, value) }
    }

    pub fn usb_error_interrupt(&self) -> (r: bool)
        ensures
            r == bits::bit(self.raw, 1),
    {
        bits::get_bit(self.raw, 1)
    }

    pub fn with_usb_error_interrupt(self, value: bool) -> (r: Self)
        ensures
            r.raw == bits::set_bit(self.raw, 1, value),
    {
        UsbStatus { raw: bits::with_bit(self.raw, 1, value) }
    }

    pub fn usb_interrupt(&self) -> (r: bool)
        ensures
            r == bits::bit(self.raw, 0),
    {
        bits::get_bit(self.raw, 0)
    }

    pub fn with_usb_interrupt(self, value: bool) -> (r: Self)
        ensures
            r.raw == bits::set_bit(self.raw, 0, value),
    {
        UsbStatus { raw: bits::with_bit(self.raw, 0, value) }
    }

    /// Builds a zero-based W1C write that acknowledges the pending USB status bits in `status`.
    pub fn ack_from(status: Self) -> (r: Self)
        ensures
            r.raw == status.raw & USB_STATUS_ACK_MASK,
    {
        UsbStatus { raw: status.raw & USB_STATUS_ACK_MASK }
    }
}

/// USB interrupt enable register.
#[derive(Debug, Clone, Copy, PartialEq, Eq, Structural)]
pub struct UsbInterrupt {
    pub raw: u32,
}

impl UsbInterrupt {
    pub fn new_with_raw_value(raw: u32) -> (r: Self)
        ensures
            r.raw == raw,
    {
        UsbInterrupt { raw }
    }

    pub fn raw_value(&self) -> (r: u32)
        ensures
            r == self.raw,
    {
        self.raw
    }

    pub fn suspend(&self) -> (r: bool)
        ensures
            r == bits::bit(self.raw, 8),
    {
        bits::get_bit(self.raw, 8)
    }

    pub fn with_suspend(self, value: bool) -> (r: Self)
        ensures
            r.raw == bits::set_bit(self.raw, 8, value),
    {
        UsbInterrupt { raw: bits::with_bit(self.raw, 8, value) }
    }

    pub fn sof_received(&self) -> (r: bool)
        ensures
            r == bits::bit(self.raw, 7),
    {
        bits::get_bit(self.raw, 7)
    }

    pub fn with_sof_received(self, value: bool) -> (r: Self)
        ensures
            r.raw == bits::set_bit(self.raw, 7, value),
    {
        UsbInterrupt { raw: bits::with_bit(self.raw, 7, value) }
    }

    pub fn reset_received(&self) -> (r: bool)
        ensures
            r == bits::bit(self.raw, 6),
    {
        bits::get_bit(self.raw, 6)
    }

    pub fn with_reset_received(self, value: bool) -> (r: Self)
        ensures
            r.raw == bits::set_bit(self.raw, 6, value),
    {
        UsbInterrupt { raw: bits::with_bit(self.raw, 6, value) }
    }

    pub fn system_error(&self) -> (r: bool)
        ensures
            r == bits::bit(self.raw, 4),
    {
        bits::get_bit(self.raw, 4)
    }

    pub fn with_system_error(self, value: bool) -> (r: Self)
        ensures
            r.raw == bits::set_bit(self.raw, 4, value),
    {
        UsbInterrupt { raw: bits::with_bit(self.raw, 4, value) }
    }

    pub fn port_change_detect(&self) -> (r: bool)
        ensures
            r == bits::bit(self.raw, 2),
    {
        bits::get_bit(self.raw, 2)
    }

    pub fn with_port_change_detect(self, value: bool) -> (r: Self)
        ensures
            r.raw == bits::set_bit(self.raw, 2, value),
    {
        UsbInterrupt { raw: bits::with_bit(self.raw, 2, value) }
    }

    pub fn usb_error_interrupt(&self) -> (r: bool)
        ensures
            r == bits::bit(self.raw, 1),
    {
        bits::get_bit(self.raw, 1)
    }

    pub fn with_usb_error_interrupt(self, value: bool) -> (r: Self)
        ensures
            r.raw == bits::set_bit(self.raw, 1, value),
    {
        UsbInterrupt { raw: bits::with_bit(self.raw, 1, value) }
    }

    pub fn usb_interrupt(&self) -> (r: bool)
        ensures
            r == bits::bit(self.raw, 0),
    {
        bits::get_bit(self.raw, 0)
    }

    pub fn with_usb_interrupt(self, value: bool) -> (r: Self)
        ensures
            r.raw == bits::set_bit(self.raw, 0, value),
    {
        UsbInterrupt { raw: bits::with_bit(self.raw, 0, value) }
    }
}

/// Device address register.
#[derive(Debug, Clone, Copy, PartialEq, Eq, Structural)]
pub struct DeviceAddress {
    pub raw: u32,
}

impl DeviceAddress {
    pub fn new_with_raw_value(raw: u32) -> (r: Self)
        ensures
            r.raw == raw,
    {
        DeviceAddress { raw }
    }

    pub fn raw_value(&self) -> (r: u32)
        ensures
            r == self.raw,
    {
        self.raw
    }

    pub fn usb_address(&self) -> (r: u8)
        ensures
            r == bits::field(self.raw, 25, 7),
    {
        proof {
            bits::field_fits(self.raw, 25, 7);
        }
        bits::get_field(self.raw, 25, 7) as u8
    }

    pub fn with_usb_address(self, value: u8) -> (r: Self)
        requires
            value < 0x80,
        ensures
            r.raw == bits::set_field(self.raw, 25, 7, value as u32),
    {
        DeviceAddress { raw: bits::with_field(self.raw, 25, 7, value as u32) }
    }

    pub fn address_advance(&self) -> (r: bool)
        ensures
            r == bits::bit(self.raw, 24),
    {
        bits::get_bit(self.raw, 24)
    }

    pub fn with_address_advance(self, value: bool) -> (r: Self)
        ensures
            r.raw == bits::set_bit(self.raw, 24, value),
    {
        DeviceAddress { raw: bits::with_bit(self.raw, 24, value) }
    }
}

/// Address of the queue head list, which is 2048-byte aligned.
#[derive(Debug, Clone, Copy, PartialEq, Eq, Structural)]
pub struct EndpointListAddress {
    pub raw: u32,
}

impl EndpointListAddress {
    pub fn new_with_raw_value(raw: u32) -> (r: Self)
        ensures
            r.raw == raw,
    {
        EndpointListAddress { raw }
    }

    pub fn raw_value(&self) -> (r: u32)
        ensures
            r == self.raw,
    {
        self.raw
    }

    pub fn base_address(&self) -> (r: u32)
        ensures
            r == bits::field(self.raw, 11, 21),
    {
        bits::get_field(self.raw, 11, 21)
    }

    pub fn with_base_address(self, value: u32) -> (r: Self)
        requires
            value < 0x200000,
        ensures
            r.raw == bits::set_field(self.raw, 11, 21, value as u32),
    {
        EndpointListAddress { raw: bits::with_field(self.raw, 11, 21, value as u32) }
    }
}

/// DMA burst sizes.
#[derive(Debug, Clone, Copy, PartialEq, Eq, Structural)]
pub struct BurstSize {
    pub raw: u32,
}

impl BurstSize {
    pub fn new_with_raw_value(raw: u32) -> (r: Self)
        ensures
            r.raw == raw,
    {
        BurstSize { raw }
    }

    pub fn raw_value(&self) -> (r: u32)
        ensures
            r == self.raw,
    {
        self.raw
    }

    pub fn tx_burst(&self) -> (r: u8)
        ensures
            r == bits::field(self.raw, 8, 8),
    {
        proof {
            bits::field_fits(self.raw, 8, 8);
        }
        bits::get_field(self.raw, 8, 8) as u8
    }

    pub fn with_tx_burst(self, value: u8) -> (r: Self)
        ensures
            r.raw == bits::set_field(self.raw, 8, 8, value as u32),
    {
        BurstSize { raw: bits::with_field(self.raw, 8, 8, value as u32) }
    }

    pub fn rx_burst(&self) -> (r: u8)
        ensures
            r == bits::field(self.raw, 0, 8),
    {
        proof {
            bits::field_fits(self.raw, 0, 8);
        }
        bits::get_field(self.raw, 0, 8) as u8
    }

    pub fn with_rx_burst(self, value: u8) -> (r: Self)
        ensures
            r.raw == bits::set_field(self.raw, 0, 8, value as u32),
    {
        BurstSize { raw: bits::with_field(self.raw, 0, 8, value as u32) }
    }
}

/// Transmit FIFO fill tuning.
#[derive(Debug, Clone, Copy, PartialEq, Eq, Structural)]
pub struct TxFillTuning {
    pub raw: u32,
}

impl TxFillTuning {
    pub fn new_with_raw_value(raw: u32) -> (r: Self)
        ensures
            r.raw == raw,
    {
        TxFillTuning { raw }
    }

    pub fn raw_value(&self) -> (r: u32)
        ensures
            r == self.raw,
    {
        self.raw
    }

    pub fn tx_fifo_threshold(&self) -> (r: u8)
        ensures
            r == bits::field(self.raw, 16, 5),
    {
        proof {
            bits::field_fits(self.raw, 16, 5);
        }
        bits::get_field(self.raw, 16, 5) as u8
    }

    pub fn with_tx_fifo_threshold(self, value: u8) -> (r: Self)
        requires
            value < 0x20,
        ensures
            r.raw == bits::set_field(self.raw, 16, 5, value as u32),
    {
        TxFillTuning { raw: bits::with_field(self.raw, 16, 5, value as u32) }
    }

    pub fn tx_schoh(&self) -> (r: u8)
        ensures
            r == bits::field(self.raw, 8, 5),
    {
        proof {
            bits::field_fits(self.raw, 8, 5);
        }
        bits::get_field(self.raw, 8, 5) as u8
    }

    pub fn with_tx_schoh(self, value: u8) -> (r: Self)
        requires
            value < 0x20,
        ensures
            r.raw == bits::set_field(self.raw, 8, 5, value as u32),
    {
        TxFillTuning { raw: bits::with_field(self.raw, 8, 5, value as u32) }
    }

    pub fn tx_sc(&self) -> (r: u8)
        ensures
            r == bits::field(self.raw, 0, 6),
    {
        proof {
            bits::field_fits(self.raw, 0, 6);
        }
        bits::get_field(self.raw, 0, 6) as u8
    }

    pub fn with_tx_sc(self, value: u8) -> (r: Self)
        requires
            value < 0x40,
        ensures
            r.raw == bits::set_field(self.raw, 0, 6, value as u32),
    {
        TxFillTuning { raw: bits::with_field(self.raw, 0, 6, value as u32) }
    }
}

/// One bit per endpoint and direction.
#[derive(Debug, Clone, Copy, PartialEq, Eq, Structural)]
pub struct EndpointBitmap {
    pub raw: u32,
}

impl EndpointBitmap {
    pub fn new_with_raw_value(raw: u32) -> (r: Self)
        ensures
            r.raw == raw,
    {
        EndpointBitmap { raw }
    }

    pub fn raw_value(&self) -> (r: u32)
        ensures
            r == self.raw,
    {
        self.raw
    }

    pub fn tx(&self) -> (r: u16)
        ensures
            r == bits::field(self.raw, 16, 16),
    {
        proof {
            bits::field_fits(self.raw, 16, 16);
        }
        bits::get_field(self.raw, 16, 16) as u16
    }

    pub fn with_tx(self, value: u16) -> (r: Self)
        ensures
            r.raw == bits::set_field(self.raw, 16, 16, value as u32),
    {
        EndpointBitmap { raw: bits::with_field(self.raw, 16, 16, value as u32) }
    }

    pub fn rx(&self) -> (r: u16)
        ensures
            r == bits::field(self.raw, 0, 16),
    {
        proof {
            bits::field_fits(self.raw, 0, 16);
        }
        bits::get_field(self.raw, 0, 16) as u16
    }

    pub fn with_rx(self, value: u16) -> (r: Self)
        ensures
            r.raw == bits::set_field(self.raw, 0, 16, value as u32),
    {
        EndpointBitmap { raw: bits::with_field(self.raw, 0, 16, value as u32) }
    }

    /// Builds a zero-based W1C write that acknowledges the pending endpoint bits in `status`.
    pub fn ack_from(status: Self) -> (r: Self)
        ensures
            r.raw == status.raw,
    {
        EndpointBitmap { raw: status.raw }
    }
}

/// Port status and control register.
#[derive(Debug, Clone, Copy, PartialEq, Eq, Structural)]
pub struct PortSc1 {
    pub raw: u32,
}

impl PortSc1 {
    pub fn new_with_raw_value(raw: u32) -> (r: Self)
        ensures
            r.raw == raw,
    {
        PortSc1 { raw }
    }

    pub fn raw_value(&self) -> (r: u32)
        ensures
            r == self.raw,
    {
        self.raw
    }

    pub fn connect_status_change(&self) -> (r: bool)
        ensures
            r == bits::bit(self.raw, 1),
    {
        bits::get_bit(self.raw, 1)
    }

    pub fn with_connect_status_change(self, value: bool) -> (r: Self)
        ensures
            r.raw == bits::set_bit(self.raw, 1, value),
    {
        PortSc1 { raw: bits::with_bit(self.raw, 1, value) }
    }

    pub fn port_enable_disable_change(&self) -> (r: bool)
        ensures
            r == bits::bit(self.raw, 3),
    {
        bits::get_bit(self.raw, 3)
    }

    pub fn with_port_enable_disable_change(self, value: bool) -> (r: Self)
        ensures
            r.raw == bits::set_bit(self.raw, 3, value),
    {
        PortSc1 { raw: bits::with_bit(self.raw, 3, value) }
    }

    pub fn overcurrent_change(&self) -> (r: bool)
        ensures
            r == bits::bit(self.raw, 5),
    {
        bits::get_bit(self.raw, 5)
    }

    pub fn with_overcurrent_change(self, value: bool) -> (r: Self)
        ensures
            r.raw == bits::set_bit(self.raw, 5, value),
    {
        PortSc1 { raw: bits::with_bit(self.raw, 5, value) }
    }

    pub fn port_reset(&self) -> (r: bool)
        ensures
            r == bits::bit(self.raw, 8),
    {
        bits::get_bit(self.raw, 8)
    }

    pub fn with_port_reset(self, value: bool) -> (r: Self)
        ensures
            r.raw == bits::set_bit(self.raw, 8, value),
    {
        PortSc1 { raw: bits::with_bit(self.raw, 8, value) }
    }

    pub fn suspend(&self) -> (r: bool)
        ensures
            r == bits::bit(self.raw, 7),
    {
        bits::get_bit(self.raw, 7)
    }

    pub fn with_suspend(self, value: bool) -> (r: Self)
        ensures
            r.raw == bits::set_bit(self.raw, 7, value),
    {
        PortSc1 { raw: bits::with_bit(self.raw, 7, value) }
    }

    pub fn current_connect_status(&self) -> (r: bool)
        ensures
            r == bits::bit(self.raw, 0),
    {
        bits::get_bit(self.raw, 0)
    }

    /// Builds a zero-based W1C write that acknowledges the selected port change bits.
    pub fn ack_change_bits(
        connect_status_change: bool,
        port_enable_disable_change: bool,
        overcurrent_change: bool,
    ) -> (r: Self)
        ensures
            r.raw == bits::set_bit(
                bits::set_bit(
                    bits::set_bit(0, 1, connect_status_change),
                    3,
                    port_enable_disable_change,
                ),
                5,
                overcurrent_change,
            ),
    {
        PortSc1 {
            raw: bits::with_bit(
                bits::with_bit(
                    bits::with_bit(0, 1, connect_status_change),
                    3,
                    port_enable_disable_change,
                ),
                5,
                overcurrent_change,
            ),
        }
    }

    /// Builds a mixed register write that preserves the current register image while
    /// acknowledging the pending port change bits in `port`.
    pub fn ack_changes_from(port: Self) -> (r: Self)
        ensures
            r.raw == port.raw | (port.raw & PORTSC1_CHANGE_ACK_MASK),
    {
        PortSc1 { raw: port.raw | (port.raw & PORTSC1_CHANGE_ACK_MASK) }
    }
}

/// On-the-go status and control register.
#[derive(Debug, Clone, Copy, PartialEq, Eq, Structural)]
pub struct OtgSc {
    pub raw: u32,
}

impl OtgSc {
    pub fn new_with_raw_value(raw: u32) -> (r: Self)
        ensures
            r.raw == raw,
    {
        OtgSc { raw }
    }

    pub fn raw_value(&self) -> (r: u32)
        ensures
            r == self.raw,
    {
        self.raw
    }

    pub fn b_session_end_interrupt_enable(&self) -> (r: bool)
        ensures
            r == bits::bit(self.raw, 28),
    {
        bits::get_bit(self.raw, 28)
    }

    pub fn with_b_session_end_interrupt_enable(self, value: bool) -> (r: Self)
        ensures
            r.raw == bits::set_bit(self.raw, 28, value),
    {
        OtgSc { raw: bits::with_bit(self.raw, 28, value) }
    }

    pub fn b_session_valid_interrupt_enable(&self) -> (r: bool)
        ensures
            r == bits::bit(self.raw, 27),
    {
        bits::get_bit(self.raw, 27)
    }

    pub fn with_b_session_valid_interrupt_enable(self, value: bool) -> (r: Self)
        ensures
            r.raw == bits::set_bit(self.raw, 27, value),
    {
        OtgSc { raw: bits::with_bit(self.raw, 27, value) }
    }

    pub fn a_session_valid_interrupt_enable(&self) -> (r: bool)
        ensures
            r == bits::bit(self.raw, 26),
    {
        bits::get_bit(self.raw, 26)
    }

    pub fn with_a_session_valid_interrupt_enable(self, value: bool) -> (r: Self)
        ensures
            r.raw == bits::set_bit(self.raw, 26, value),
    {
        OtgSc { raw: bits::with_bit(self.raw, 26, value) }
    }

    pub fn a_vbus_valid_interrupt_enable(&self) -> (r: bool)
        ensures
            r == bits::bit(self.raw, 25),
    {
        bits::get_bit(self.raw, 25)
    }

    pub fn with_a_vbus_valid_interrupt_enable(self, value: bool) -> (r: Self)
        ensures
            r.raw == bits::set_bit(self.raw, 25, value),
    {
        OtgSc { raw: bits::with_bit(self.raw, 25, value) }
    }

    pub fn b_session_end_interrupt_status(&self) -> (r: bool)
        ensures
            r == bits::bit(self.raw, 20),
    {
        bits::get_bit(self.raw, 20)
    }

    pub fn with_b_session_end_interrupt_status(self, value: bool) -> (r: Self)
        ensures
            r.raw == bits::set_bit(self.raw, 20, value),
    {
        OtgSc { raw: bits::with_bit(self.raw, 20, value) }
    }

    pub fn b_session_valid_interrupt_status(&self) -> (r: bool)
        ensures
            r == bits::bit(self.raw, 19),
    {
        bits::get_bit(self.raw, 19)
    }

    pub fn with_b_session_valid_interrupt_status(self, value: bool) -> (r: Self)
        ensures
            r.raw == bits::set_bit(self.raw, 19, value),
    {
        OtgSc { raw: bits::with_bit(self.raw, 19, value) }
    }

    pub fn a_session_valid_interrupt_status(&self) -> (r: bool)
        ensures
            r == bits::bit(self.raw, 18),
    {
        bits::get_bit(self.raw, 18)
    }

    pub fn with_a_session_valid_interrupt_status(self, value: bool) -> (r: Self)
        ensures
            r.raw == bits::set_bit(self.raw, 18, value),
    {
        OtgSc { raw: bits::with_bit(self.raw, 18, value) }
    }

    pub fn a_vbus_valid_interrupt_status(&self) -> (r: bool)
        ensures
            r == bits::bit(self.raw, 17),
    {
        bits::get_bit(self.raw, 17)
    }

    pub fn with_a_vbus_valid_interrupt_status(self, value: bool) -> (r: Self)
        ensures
            r.raw == bits::set_bit(self.raw, 17, value),
    {
        OtgSc { raw: bits::with_bit(self.raw, 17, value) }
    }

    pub fn b_session_end(&self) -> (r: bool)
        ensures
            r == bits::bit(self.raw, 12),
    {
        bits::get_bit(self.raw, 12)
    }

    pub fn b_session_valid(&self) -> (r: bool)
        ensures
            r == bits::bit(self.raw, 11),
    {
        bits::get_bit(self.raw, 11)
    }

    pub fn a_session_valid(&self) -> (r: bool)
        ensures
            r == bits::bit(self.raw, 10),
    {
        bits::get_bit(self.raw, 10)
    }

    pub fn a_vbus_valid(&self) -> (r: bool)
        ensures
            r == bits::bit(self.raw, 9),
    {
        bits::get_bit(self.raw, 9)
    }

    /// The image that [`OtgSc::power_detection_irq_write`] builds.
    pub open spec fn power_detection(self, enabled: bool) -> u32 {
        let masked = self.raw & !OTGSC_POWER_DETECTION_INTERRUPT_ENABLE_MASK;
        if enabled {
            masked | OTGSC_POWER_DETECTION_INTERRUPT_ENABLE_MASK
        } else {
            masked
        }
    }

    /// Builds a mixed register write that preserves the current register image while updating
    /// the power-detection interrupt enables and acknowledging any latched power-detection
    /// interrupt status bits in `clear_from`.
    pub fn power_detection_irq_write(enabled: bool, clear_from: Self) -> (r: Self)
        ensures
            r.raw == clear_from.power_detection(enabled),
    {
        let mut raw: u32 = clear_from.raw & !OTGSC_POWER_DETECTION_INTERRUPT_ENABLE_MASK;
        if enabled {
            raw = raw | OTGSC_POWER_DETECTION_INTERRUPT_ENABLE_MASK;
        }
        OtgSc { raw }
    }
}

/// USB mode register.
#[derive(Debug, Clone, Copy, PartialEq, Eq, Structural)]
pub struct UsbMode {
    pub raw: u32,
}

impl UsbMode {
    pub fn new_with_raw_value(raw: u32) -> (r: Self)
        ensures
            r.raw == raw,
    {
        UsbMode { raw }
    }

    pub fn raw_value(&self) -> (r: u32)
        ensures
            r == self.raw,
    {
        self.raw
    }

    pub fn stream_disable_mode(&self) -> (r: bool)
        ensures
            r == bits::bit(self.raw, 4),
    {
        bits::get_bit(self.raw, 4)
    }

    pub fn with_stream_disable_mode(self, value: bool) -> (r: Self)
        ensures
            r.raw == bits::set_bit(self.raw, 4, value),
    {
        UsbMode { raw: bits::with_bit(self.raw, 4, value) }
    }

    pub fn setup_lockout_mode(&self) -> (r: bool)
        ensures
            r == bits::bit(self.raw, 3),
    {
        bits::get_bit(self.raw, 3)
    }

    pub fn with_setup_lockout_mode(self, value: bool) -> (r: Self)
        ensures
            r.raw == bits::set_bit(self.raw, 3, value),
    {
        UsbMode { raw: bits::with_bit(self.raw, 3, value) }
    }

    pub fn with_controller_mode(self, mode: ControllerMode) -> (r: Self)
        ensures
            r.raw == bits::set_field(self.raw, 0, 2, mode.code()),
    {
        UsbMode { raw: bits::with_field(self.raw, 0, 2, mode.raw_value()) }
    }
}

/// Endpoints with a pending setup packet.
#[derive(Debug, Clone, Copy, PartialEq, Eq, Structural)]
pub struct EndpointSetupStatus {
    pub raw: u32,
}

impl EndpointSetupStatus {
    pub fn new_with_raw_value(raw: u32) -> (r: Self)
        ensures
            r.raw == raw,
    {
        EndpointSetupStatus { raw }
    }

    pub fn raw_value(&self) -> (r: u32)
        ensures
            r == self.raw,
    {
        self.raw
    }

    pub fn setup_endpoints(&self) -> (r: u16)
        ensures
            r == bits::field(self.raw, 0, 16),
    {
        proof {
            bits::field_fits(self.raw, 0, 16);
        }
        bits::get_field(self.raw, 0, 16) as u16
    }

    pub fn with_setup_endpoints(self, value: u16) -> (r: Self)
        ensures
            r.raw == bits::set_field(self.raw, 0, 16, value as u32),
    {
        EndpointSetupStatus { raw: bits::with_field(self.raw, 0, 16, value as u32) }
    }

    /// Builds a zero-based W1C write that acknowledges the selected setup endpoint bits.
    pub fn ack_mask(mask: u16) -> (r: Self)
        ensures
            r.raw == mask,
    {
        EndpointSetupStatus { raw: mask as u32 }
    }

    /// Builds a zero-based W1C write that acknowledges the pending setup endpoint bits in
    /// `status`.
    pub fn ack_from(status: Self) -> (r: Self)
        ensures
            r.raw == status.raw & ENDPOINT_SETUP_STATUS_ACK_MASK,
    {
        EndpointSetupStatus { raw: status.raw & ENDPOINT_SETUP_STATUS_ACK_MASK }
    }
}

/// An acknowledging write holds a one exactly for the status bits that are pending.
pub proof fn status_ack_holds_the_pending_bits(status: u32, j: u32)
    requires
        j < 32,
    ensures
        bits::bit(status & USB_STATUS_ACK_MASK, j) == (bits::bit(status, j) && bits::bit(
            USB_STATUS_ACK_MASK,
            j,
        )),
        bits::bit(USB_STATUS_ACK_MASK, j) == (j == 8 || j == 7 || j == 6 || j == 4 || j <= 2),
{
    bits::or_sets_the_mask_bits(status, USB_STATUS_ACK_MASK, j);
    assert(bits::bit(0x1d7u32, j) == (j == 8 || j == 7 || j == 6 || j == 4 || j <= 2))
        by (bit_vector)
        requires
            j < 32,
    ;
}

/// Acknowledging port changes writes the register back as it was read.
pub proof fn port_change_ack_preserves_the_image(port: u32)
    by (bit_vector)
    ensures
        port | (port & PORTSC1_CHANGE_ACK_MASK) == port,
{
}

/// Enabling or disabling power detection changes the four enable bits only.
pub proof fn power_detection_keeps_other_bits(otgsc: OtgSc, enabled: bool, j: u32)
    requires
        j < 32,
    ensures
        bits::bit(otgsc.power_detection(enabled), j) == (if 25 <= j <= 28 {
            enabled
        } else {
            bits::bit(otgsc.raw, j)
        }),
{
    let mask = OTGSC_POWER_DETECTION_INTERRUPT_ENABLE_MASK;
    let masked = otgsc.raw & !mask;
    bits::or_sets_the_mask_bits(otgsc.raw, mask, j);
    bits::or_sets_the_mask_bits(masked, mask, j);
    assert(bits::bit(0x1e00_0000u32, j) == (25 <= j && j <= 28)) by (bit_vector)
        requires
            j < 32,
    ;
}

} // verus!
