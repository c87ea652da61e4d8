use vstd::prelude::*;

use crate::sys;

verus! {

/// Predefined CAN bitrates for classic CAN.
#[derive(Debug, Clone, Copy, PartialEq, Eq, Structural)]
pub enum Bitrate {
    /// 1 Mbit/s
    Rate1M,
    /// 500 kbit/s
    Rate500K,
    /// 250 kbit/s
    Rate250K,
    /// 125 kbit/s
    Rate125K,
    /// 100 kbit/s
    Rate100K,
    /// 83.333 kbit/s
    Rate83K,
    /// 62.5 kbit/s
    Rate62K,
    /// 50 kbit/s
    Rate50K,
    /// 10 kbit/s
    Rate10K,
}

impl Bitrate {
    /// The raw CANLib constant of each bitrate.
    pub open spec fn spec_raw(self) -> i64 {
        match self {
            Bitrate::Rate1M => sys::canBITRATE_1M,
            Bitrate::Rate500K => sys::canBITRATE_500K,
            Bitrate::Rate250K => sys::canBITRATE_250K,
            Bitrate::Rate125K => sys::canBITRATE_125K,
            Bitrate::Rate100K => sys::canBITRATE_100K,
            Bitrate::Rate83K => sys::canBITRATE_83K,
            Bitrate::Rate62K => sys::canBITRATE_62K,
            Bitrate::Rate50K => sys::canBITRATE_50K,
            Bitrate::Rate10K => sys::canBITRATE_10K,
        }
    }

    /// Convert to the raw CANLib constant.
    pub fn to_raw(self) -> (raw: i64)
        ensures
            raw == self.spec_raw(),
    {
        match self {
            Bitrate::Rate1M => sys::canBITRATE_1M,
            Bitrate::Rate500K => sys::canBITRATE_500K,
            Bitrate::Rate250K => sys::canBITRATE_250K,
            Bitrate::Rate125K => sys::canBITRATE_125K,
            Bitrate::Rate100K => sys::canBITRATE_100K,
            Bitrate::Rate83K => sys::canBITRATE_83K,
            Bitrate::Rate62K => sys::canBITRATE_62K,
            Bitrate::Rate50K => sys::canBITRATE_50K,
            Bitrate::Rate10K => sys::canBITRATE_10K,
        }
    }
}

/// Predefined CAN FD data-phase bitrates.
#[derive(Debug, Clone, Copy, PartialEq, Eq, Structural)]
pub enum FdBitrate {
    /// 500 kbit/s, 80% sample point
    Rate500K80P,
    /// 1 Mbit/s, 80% sample point
    Rate1M80P,
    /// 2 Mbit/s, 80% sample point
    Rate2M80P,
    /// 4 Mbit/s, 80% sample point
    Rate4M80P,
    /// 8 Mbit/s, 60% sample point
    Rate8M60P,
    /// 8 Mbit/s, 70% sample point
    Rate8M70P,
    /// 8 Mbit/s, 80% sample point
    Rate8M80P,
}

impl FdBitrate {
    /// The raw CANLib constant of each data-phase bitrate.
    pub open spec fn spec_raw(self) -> i64 {
        match self {
            FdBitrate::Rate500K80P => sys::canFD_BITRATE_500K_80P,
            FdBitrate::Rate1M80P => sys::canFD_BITRATE_1M_80P,
            FdBitrate::Rate2M80P => sys::canFD_BITRATE_2M_80P,
            FdBitrate::Rate4M80P => sys::canFD_BITRATE_4M_80P,
            FdBitrate::Rate8M60P => sys::canFD_BITRATE_8M_60P,
            FdBitrate::Rate8M70P => sys::canFD_BITRATE_8M_70P,
            FdBitrate::Rate8M80P => sys::canFD_BITRATE_8M_80P,
        }
    }

    /// Convert to the raw CANLib constant.
    pub fn to_raw(self) -> (raw: i64)
        ensures
            raw == self.spec_raw(),
    {
        match self {
            FdBitrate::Rate500K80P => sys::canFD_BITRATE_500K_80P,
            FdBitrate::Rate1M80P => sys::canFD_BITRATE_1M_80P,
            FdBitrate::Rate2M80P => sys::canFD_BITRATE_2M_80P,
            FdBitrate::Rate4M80P => sys::canFD_BITRATE_4M_80P,
            FdBitrate::Rate8M60P => sys::canFD_BITRATE_8M_60P,
            FdBitrate::Rate8M70P => sys::canFD_BITRATE_8M_70P,
            FdBitrate::Rate8M80P => sys::canFD_BITRATE_8M_80P,
        }
    }
}

/// Distinct bitrates have distinct raw constants, and no classic bitrate shares
/// its constant with a data-phase bitrate.
pub proof fn lemma_bitrate_constants_distinct(a: Bitrate, b: Bitrate, f: FdBitrate, g: FdBitrate)
    ensures
        a.spec_raw() == b.spec_raw() ==> a == b,
        f.spec_raw() == g.spec_raw() ==> f == g,
        a.spec_raw() != f.spec_raw(),
{
}

/// Custom bus timing parameters for classic CAN.
#[derive(Debug, Clone, Copy)]
pub struct BusParams {
    freq: i64,
    tseg1: u32,
    tseg2: u32,
    sjw: u32,
    no_samp: u32,
    sync_mode: u32,
}

/// The plain values held by a [`BusParams`].
pub struct BusParamsView {
    pub freq: i64,
    pub tseg1: u32,
    pub tseg2: u32,
    pub sjw: u32,
    pub no_samp: u32,
    pub sync_mode: u32,
}

impl View for BusParams {
    type V = BusParamsView;

    closed spec fn view(&self) -> BusParamsView {
        BusParamsView {
            freq: self.freq,
            tseg1: self.tseg1,
            tseg2: self.tseg2,
            sjw: self.sjw,
            no_samp: self.no_samp,
            sync_mode: self.sync_mode,
        }
    }
}

impl BusParams {
    /// Create new bus parameters.
    pub fn new(freq: i64, tseg1: u32, tseg2: u32, sjw: u32, no_samp: u32, sync_mode: u32) -> (p: Self)
        ensures
            p@ == (BusParamsView { freq, tseg1, tseg2, sjw, no_samp, sync_mode }),
    {
        Self { freq, tseg1, tseg2, sjw, no_samp, sync_mode }
    }

    /// Create bus parameters from the values the driver reported.
    pub fn from_raw(freq: i64, tseg1: u32, tseg2: u32, sjw: u32, no_samp: u32, sync_mode: u32) -> (p: Self)
        ensures
            p@ == (BusParamsView { freq, tseg1, tseg2, sjw, no_samp, sync_mode }),
    {
        Self { freq, tseg1, tseg2, sjw, no_samp, sync_mode }
    }

    pub fn freq(&self) -> (r: i64)
        ensures
            r == self@.freq,
    {
        self.freq
    }

    pub fn tseg1(&self) -> (r: u32)
        ensures
            r == self@.tseg1,
    {
        self.tseg1
    }

    pub fn tseg2(&self) -> (r: u32)
        ensures
            r == self@.tseg2,
    {
        self.tseg2
    }

    pub fn sjw(&self) -> (r: u32)
        ensures
            r == self@.sjw,
    {
        self.sjw
    }

    pub fn no_samp(&self) -> (r: u32)
        ensures
            r == self@.no_samp,
    {
        self.no_samp
    }

    pub fn sync_mode(&self) -> (r: u32)
        ensures
            r == self@.sync_mode,
    {
        self.sync_mode
    }
}

/// Bus timing parameters using time quanta.
#[derive(Debug, Clone, Copy)]
pub struct BusParamsTq {
    tq: i32,
    phase1: i32,
    phase2: i32,
    sjw: i32,
    prop: i32,
    prescaler: i32,
}

impl View for BusParamsTq {
    type V = sys::kvBusParamsTq;

    closed spec fn view(&self) -> sys::kvBusParamsTq {
        sys::kvBusParamsTq {
            tq: self.tq,
            phase1: self.phase1,
            phase2: self.phase2,
            sjw: self.sjw,
            prop: self.prop,
            prescaler: self.prescaler,
        }
    }
}

impl BusParamsTq {
    /// Create new time-quanta bus parameters.
    pub fn new(tq: i32, phase1: i32, phase2: i32, sjw: i32, prop: i32, prescaler: i32) -> (p: Self)
        ensures
            p@ == (sys::kvBusParamsTq { tq, phase1, phase2, sjw, prop, prescaler }),
    {
        Self { tq, phase1, phase2, sjw, prop, prescaler }
    }

    pub fn tq(&self) -> (r: i32)
        ensures
            r == self@.tq,
    {
        self.tq
    }

    pub fn phase1(&self) -> (r: i32)
        ensures
            r == self@.phase1,
    {
        self.phase1
    }

    pub fn phase2(&self) -> (r: i32)
        ensures
            r == self@.phase2,
    {
        self.phase2
    }

    pub fn sjw(&self) -> (r: i32)
        ensures
            r == self@.sjw,
    {
        self.sjw
    }

    pub fn prop(&self) -> (r: i32)
        ensures
            r == self@.prop,
    {
        self.prop
    }

    pub fn prescaler(&self) -> (r: i32)
        ensures
            r == self@.prescaler,
    {
        self.prescaler
    }

    /// The driver's layout of these parameters.
    pub fn to_raw(self) -> (raw: sys::kvBusParamsTq)
        ensures
            raw == self@,
    {
        sys::kvBusParamsTq {
            tq: self.tq,
            phase1: self.phase1,
            phase2: self.phase2,
            sjw: self.sjw,
            prop: self.prop,
            prescaler: self.prescaler,
        }
    }

    /// Parameters from the driver's layout.
    pub fn from_raw(raw: sys::kvBusParamsTq) -> (p: Self)
        ensures
            p@ == raw,
    {
        Self {
            tq: raw.tq,
            phase1: raw.phase1,
            phase2: raw.phase2,
            sjw: raw.sjw,
            prop: raw.prop,
            prescaler: raw.prescaler,
        }
    }
}

/// Converting time-quanta parameters to the driver's layout and back gives the same
/// parameters: `from_raw(p.to_raw())` is `p`.
pub proof fn lemma_bus_params_tq_round_trip(p: BusParamsTq, raw: sys::kvBusParamsTq, back: BusParamsTq)
    requires
        raw == p@,
        back@ == raw,
    ensures
        back == p,
{
}

/// Driver output mode for the CAN transceiver.
#[derive(Debug, Clone, Copy, PartialEq, Eq, Structural)]
pub enum DriverType {
    /// Normal mode.
    Normal,
    /// Silent / listen-only mode.
    Silent,
    /// Self-reception mode.
    SelfReception,
    /// Off.
    Off,
}

impl DriverType {
    /// The raw CANLib constant of each driver type.
    pub open spec fn spec_raw(self) -> u32 {
        match self {
            DriverType::Normal => sys::canDRIVER_NORMAL,
            DriverType::Silent => sys::canDRIVER_SILENT,
            DriverType::SelfReception => sys::canDRIVER_SELFRECEPTION,
            DriverType::Off => sys::canDRIVER_OFF,
        }
    }

    /// The driver type that a raw constant stands for, if any.
    pub open spec fn spec_from_raw(raw: u32) -> Option<DriverType> {
        if raw == sys::canDRIVER_NORMAL {
            Some(DriverType::Normal)
        } else if raw == sys::canDRIVER_SILENT {
            Some(DriverType::Silent)
        } else if raw == sys::canDRIVER_SELFRECEPTION {
            Some(DriverType::SelfReception)
        } else if raw == sys::canDRIVER_OFF {
            Some(DriverType::Off)
        } else {
            None
        }
    }

    pub fn to_raw(self) -> (raw: u32)
        ensures
            raw == self.spec_raw(),
    {
        match self {
            DriverType::Normal => sys::canDRIVER_NORMAL,
            DriverType::Silent => sys::canDRIVER_SILENT,
            DriverType::SelfReception => sys::canDRIVER_SELFRECEPTION,
            DriverType::Off => sys::canDRIVER_OFF,
        }
    }

    pub fn from_raw(raw: u32) -> (d: Option<Self>)
        ensures
            d == DriverType::spec_from_raw(raw),
    {
        match raw {
            sys::canDRIVER_NORMAL => Some(DriverType::Normal),
            sys::canDRIVER_SILENT => Some(DriverType::Silent),
            sys::canDRIVER_SELFRECEPTION => Some(DriverType::SelfReception),
            sys::canDRIVER_OFF => Some(DriverType::Off),
            _ => None,
        }
    }

    /// The driver type reported by the driver; a value with no driver type of its own
    /// is reported as `CanError::Unknown` carrying the value.
    pub fn from_output_control(raw: u32) -> (r: crate::error::Result<DriverType>)
        ensures
            r == (match DriverType::spec_from_raw(raw) {
                Some(d) => Ok(d),
                None => Err(crate::error::CanError::Unknown(raw as i32)),
            }),
    {
        match DriverType::from_raw(raw) {
            Some(d) => Ok(d),
            None => Err(crate::error::CanError::Unknown(raw as i32)),
        }
    }
}

/// A driver type survives the trip to its raw constant and back, and a raw value that
/// reads as a driver type is that type's constant.
pub proof fn lemma_driver_type_round_trip(d: DriverType, raw: u32)
    ensures
        DriverType::spec_from_raw(d.spec_raw()) == Some(d),
        DriverType::spec_from_raw(raw) matches Some(e) ==> e.spec_raw() == raw,
{
}

} // verus!
