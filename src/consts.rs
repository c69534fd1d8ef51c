use vstd::prelude::*;

verus! {

pub const ENDPOINT_IN: u8 = 0x80;

pub const ENDPOINT_OUT: u8 = 0x00;

/// Bulk-in endpoint on which the probe answers.
pub const STLINK_RX_EP: u8 = 1 | ENDPOINT_IN;

/// Bulk-out endpoint that takes command frames.
pub const STLINK_TX_EP: u8 = 2 | ENDPOINT_OUT;

/// Bulk-in endpoint of the trace stream.
pub const STLINK_TRACE_EP: u8 = 3 | ENDPOINT_IN;

/// Size of every command frame sent to the probe.
pub const STLINK_CMD_SIZE_V2: usize = 16;

pub const STLINK_GET_VERSION: u8 = 0xF1;

pub const STLINK_DEBUG_COMMAND: u8 = 0xF2;

pub const STLINK_GET_TARGET_VOLTAGE: u8 = 0xF7;

pub const STLINK_GET_CURRENT_MODE: u8 = 0xF5;

pub const STLINK_VID: u16 = 0x0483;

pub const STLINK_V1_PID: u16 = 0x3744;

pub const STLINK_V2_PID: u16 = 0x3748;

pub const STLINK_V2_1_PID: u16 = 0x374B;

pub const STLINK_V2_1_NO_MSD_PID: u16 = 0x3752;

pub const STLINK_V3_USBLOADER_PID: u16 = 0x374D;

pub const STLINK_V3E_PID: u16 = 0x374E;

pub const STLINK_V3S_PID: u16 = 0x374F;

pub const STLINK_V3_2VCP_PID: u16 = 0x3753;

} // verus!
