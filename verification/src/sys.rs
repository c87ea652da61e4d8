#![allow(non_upper_case_globals)]
#![allow(non_camel_case_types)]
#![allow(non_snake_case)]

use vstd::prelude::*;

verus! {

// Raw values of the Kvaser CANLib SDK: status codes, flag bits, predefined
// bitrates and the plain-data structures exchanged with the driver.

/// A CANLib channel handle (non-negative when valid).
pub type canHandle = i32;

/// A CANLib status code (non-negative on success).
pub type canStatus = i32;

pub const canOK: canStatus = 0;
pub const canERR_PARAM: canStatus = -1;
pub const canERR_NOMSG: canStatus = -2;
pub const canERR_NOTFOUND: canStatus = -3;
pub const canERR_NOMEM: canStatus = -4;
pub const canERR_NOCHANNELS: canStatus = -5;
pub const canERR_INTERRUPTED: canStatus = -6;
pub const canERR_TIMEOUT: canStatus = -7;
pub const canERR_NOTINITIALIZED: canStatus = -8;
pub const canERR_NOHANDLES: canStatus = -9;
pub const canERR_INVHANDLE: canStatus = -10;
pub const canERR_INIFILE: canStatus = -11;
pub const canERR_DRIVER: canStatus = -12;
pub const canERR_TXBUFOFL: canStatus = -13;
pub const canERR_RESERVED_1: canStatus = -14;
pub const canERR_HARDWARE: canStatus = -15;
pub const canERR_DYNALOAD: canStatus = -16;
pub const canERR_DYNALIB: canStatus = -17;
pub const canERR_DYNAINIT: canStatus = -18;
pub const canERR_NOT_SUPPORTED: canStatus = -19;
pub const canERR_RESERVED_5: canStatus = -20;
pub const canERR_RESERVED_6: canStatus = -21;
pub const canERR_RESERVED_2: canStatus = -22;
pub const canERR_DRIVERLOAD: canStatus = -23;
pub const canERR_DRIVERFAILED: canStatus = -24;
pub const canERR_NOCONFIGMGR: canStatus = -25;
pub const canERR_NOCARD: canStatus = -26;
pub const canERR_RESERVED_7: canStatus = -27;
pub const canERR_REGISTRY: canStatus = -28;
pub const canERR_LICENSE: canStatus = -29;
pub const canERR_INTERNAL: canStatus = -30;
pub const canERR_NO_ACCESS: canStatus = -31;
pub const canERR_NOT_IMPLEMENTED: canStatus = -32;
pub const canERR_DEVICE_FILE: canStatus = -33;
pub const canERR_HOST_FILE: canStatus = -34;
pub const canERR_DISK: canStatus = -35;
pub const canERR_CRC: canStatus = -36;
pub const canERR_CONFIG: canStatus = -37;
pub const canERR_MEMO_FAIL: canStatus = -38;
pub const canERR_SCRIPT_FAIL: canStatus = -39;
pub const canERR_SCRIPT_WRONG_VERSION: canStatus = -40;

pub const canOPEN_EXCLUSIVE: i32 = 0x0008;
pub const canOPEN_REQUIRE_EXTENDED: i32 = 0x0010;
pub const canOPEN_ACCEPT_VIRTUAL: i32 = 0x0020;
pub const canOPEN_OVERRIDE_EXCLUSIVE: i32 = 0x0040;
pub const canOPEN_REQUIRE_INIT_ACCESS: i32 = 0x0080;
pub const canOPEN_NO_INIT_ACCESS: i32 = 0x0100;
pub const canOPEN_ACCEPT_LARGE_DLC: i32 = 0x0200;
pub const canOPEN_CAN_FD: i32 = 0x0400;
pub const canOPEN_CAN_FD_NONISO: i32 = 0x0800;

pub const canBITRATE_1M: i64 = -1;
pub const canBITRATE_500K: i64 = -2;
pub const canBITRATE_250K: i64 = -3;
pub const canBITRATE_125K: i64 = -4;
pub const canBITRATE_100K: i64 = -5;
pub const canBITRATE_62K: i64 = -6;
pub const canBITRATE_50K: i64 = -7;
pub const canBITRATE_83K: i64 = -8;
pub const canBITRATE_10K: i64 = -9;

pub const canFD_BITRATE_500K_80P: i64 = -1000;
pub const canFD_BITRATE_1M_80P: i64 = -1001;
pub const canFD_BITRATE_2M_80P: i64 = -1002;
pub const canFD_BITRATE_4M_80P: i64 = -1003;
pub const canFD_BITRATE_8M_60P: i64 = -1004;
pub const canFD_BITRATE_8M_80P: i64 = -1005;
pub const canFD_BITRATE_8M_70P: i64 = -1006;

pub const canMSG_RTR: u32 = 0x0001;
pub const canMSG_STD: u32 = 0x0002;
pub const canMSG_EXT: u32 = 0x0004;
pub const canMSG_WAKEUP: u32 = 0x0008;
pub const canMSG_NERR: u32 = 0x0010;
pub const canMSG_ERROR_FRAME: u32 = 0x0020;
pub const canMSG_TXACK: u32 = 0x0040;
pub const canMSG_TXRQ: u32 = 0x0080;
pub const canMSG_DELAY_MSG: u32 = 0x0100;

pub const canMSGERR_HW_OVERRUN: u32 = 0x0200;
pub const canMSGERR_SW_OVERRUN: u32 = 0x0400;
pub const canMSGERR_STUFF: u32 = 0x0800;
pub const canMSGERR_FORM: u32 = 0x1000;
pub const canMSGERR_CRC: u32 = 0x2000;
pub const canMSGERR_BIT0: u32 = 0x4000;
pub const canMSGERR_BIT1: u32 = 0x8000;

pub const canFDMSG_FDF: u32 = 0x010000;
pub const canFDMSG_BRS: u32 = 0x020000;
pub const canFDMSG_ESI: u32 = 0x040000;

pub const canDRIVER_NORMAL: u32 = 4;
pub const canDRIVER_SILENT: u32 = 1;
pub const canDRIVER_SELFRECEPTION: u32 = 8;
pub const canDRIVER_OFF: u32 = 0;

pub const canCHANNELDATA_CARD_SERIAL_NO: i32 = 7;
pub const canCHANNELDATA_CHANNEL_NAME: i32 = 13;
pub const canCHANNELDATA_DEVDESCR_ASCII: i32 = 26;

pub const canSTAT_ERROR_PASSIVE: u64 = 0x00000001;
pub const canSTAT_BUS_OFF: u64 = 0x00000002;
pub const canSTAT_ERROR_WARNING: u64 = 0x00000004;
pub const canSTAT_ERROR_ACTIVE: u64 = 0x00000008;
pub const canSTAT_TX_PENDING: u64 = 0x00000010;
pub const canSTAT_RX_PENDING: u64 = 0x00000020;
pub const canSTAT_OVERRUN: u64 = 0x00000080;

/// Time-quanta bus timing as laid out by the driver.
#[derive(Debug, Default, Clone, Copy, PartialEq, Eq)]
pub struct kvBusParamsTq {
    pub tq: i32,
    pub phase1: i32,
    pub phase2: i32,
    pub sjw: i32,
    pub prop: i32,
    pub prescaler: i32,
}

/// Bus statistics as laid out by the driver (64-bit `unsigned long` counters).
#[derive(Debug, Default, Clone, Copy, PartialEq, Eq)]
pub struct canBusStatistics {
    pub stdData: u64,
    pub stdRemote: u64,
    pub extData: u64,
    pub extRemote: u64,
    pub errFrame: u64,
    pub busLoad: u64,
    pub overruns: u64,
}

} // verus!
