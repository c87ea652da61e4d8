use vstd::prelude::*;
use vstd::std_specs::ops::BitOrSpec;

use crate::sys;

verus! {

/// Every bit that has a named bus status flag.
pub open spec fn bus_status_all() -> u64 {
    (sys::canSTAT_ERROR_PASSIVE | sys::canSTAT_BUS_OFF | sys::canSTAT_ERROR_WARNING | sys::canSTAT_ERROR_ACTIVE | sys::canSTAT_TX_PENDING | sys::canSTAT_RX_PENDING | sys::canSTAT_OVERRUN)
}

/// CAN bus status flags: a set of bits of a `u64`.
#[derive(Debug, Clone, Copy, PartialEq, Eq, Structural)]
pub struct BusStatus {
    bits: u64,
}

impl View for BusStatus {
    type V = u64;

    closed spec fn view(&self) -> u64 {
        self.bits
    }
}

impl BusStatus {
    /// The bus is in error passive state.
    #[allow(non_snake_case)]
    pub fn ERROR_PASSIVE() -> (f: BusStatus)
        ensures
            f@ == sys::canSTAT_ERROR_PASSIVE,
    {
        BusStatus { bits: sys::canSTAT_ERROR_PASSIVE }
    }

    /// The bus is off (too many errors).
    #[allow(non_snake_case)]
    pub fn BUS_OFF() -> (f: BusStatus)
        ensures
            f@ == sys::canSTAT_BUS_OFF,
    {
        BusStatus { bits: sys::canSTAT_BUS_OFF }
    }

    /// Error warning level reached.
    #[allow(non_snake_case)]
    pub fn ERROR_WARNING() -> (f: BusStatus)
        ensures
            f@ == sys::canSTAT_ERROR_WARNING,
    {
        BusStatus { bits: sys::canSTAT_ERROR_WARNING }
    }

    /// The bus is error active (normal operation).
    #[allow(non_snake_case)]
    pub fn ERROR_ACTIVE() -> (f: BusStatus)
        ensures
            f@ == sys::canSTAT_ERROR_ACTIVE,
    {
        BusStatus { bits: sys::canSTAT_ERROR_ACTIVE }
    }

    /// There are messages waiting to be transmitted.
    #[allow(non_snake_case)]
    pub fn TX_PENDING() -> (f: BusStatus)
        ensures
            f@ == sys::canSTAT_TX_PENDING,
    {
        BusStatus { bits: sys::canSTAT_TX_PENDING }
    }

    /// There are messages in the receive queue.
    #[allow(non_snake_case)]
    pub fn RX_PENDING() -> (f: BusStatus)
        ensures
            f@ == sys::canSTAT_RX_PENDING,
    {
        BusStatus { bits: sys::canSTAT_RX_PENDING }
    }

    /// A receive buffer overrun has occurred.
    #[allow(non_snake_case)]
    pub fn OVERRUN() -> (f: BusStatus)
        ensures
            f@ == sys::canSTAT_OVERRUN,
    {
        BusStatus { bits: sys::canSTAT_OVERRUN }
    }

    /// The set with no flag.
    pub fn empty() -> (f: BusStatus)
        ensures
            f@ == 0,
    {
        BusStatus { bits: 0 }
    }

    /// The raw bits of the set.
    pub fn bits(&self) -> (b: u64)
        ensures
            b == self@,
    {
        self.bits
    }

    /// The set of the named flags among `bits`; other bits are dropped.
    pub fn from_bits_truncate(bits: u64) -> (f: BusStatus)
        ensures
            f@ == bits & bus_status_all(),
    {
        BusStatus { bits: bits & (sys::canSTAT_ERROR_PASSIVE | sys::canSTAT_BUS_OFF | sys::canSTAT_ERROR_WARNING | sys::canSTAT_ERROR_ACTIVE | sys::canSTAT_TX_PENDING | sys::canSTAT_RX_PENDING | sys::canSTAT_OVERRUN) }
    }

    /// Whether no flag is set.
    pub fn is_empty(&self) -> (b: bool)
        ensures
            b == (self@ == 0),
    {
        self.bits == 0
    }

    /// Whether every flag of `other` is set in `self`.
    pub fn contains(&self, other: BusStatus) -> (b: bool)
        ensures
            b == (self@ & other@ == other@),
    {
        self.bits & other.bits == other.bits
    }

    /// Whether `self` and `other` have a flag in common.
    pub fn intersects(&self, other: BusStatus) -> (b: bool)
        ensures
            b == (self@ & other@ != 0),
    {
        self.bits & other.bits != 0
    }

    /// The flags set in either `self` or `other`.
    pub fn union(self, other: BusStatus) -> (f: BusStatus)
        ensures
            f@ == self@ | other@,
    {
        BusStatus { bits: self.bits | other.bits }
    }
}

impl core::ops::BitOr for BusStatus {
    type Output = BusStatus;

    fn bitor(self, rhs: BusStatus) -> (f: BusStatus) {
        BusStatus { bits: self.bits | rhs.bits }
    }
}

impl vstd::std_specs::ops::BitOrSpecImpl for BusStatus {
    open spec fn obeys_bitor_spec() -> bool {
        true
    }

    open spec fn bitor_req(self, rhs: BusStatus) -> bool {
        true
    }

    closed spec fn bitor_spec(self, rhs: BusStatus) -> BusStatus {
        BusStatus { bits: self.bits | rhs.bits }
    }
}

/// The flags of a union are those of either operand.
pub proof fn lemma_bus_status_bitor(a: BusStatus, b: BusStatus)
    ensures
        a.bitor_spec(b)@ == a@ | b@,
{
}

/// CAN error counters.
#[derive(Debug, Clone, Copy, PartialEq, Eq, Structural)]
pub struct ErrorCounters {
    /// Transmit error counter.
    pub tx_errors: u32,
    /// Receive error counter.
    pub rx_errors: u32,
    /// Overrun error counter.
    pub overrun_errors: u32,
}

impl Default for ErrorCounters {
    fn default() -> (c: ErrorCounters)
        ensures
            c == (ErrorCounters { tx_errors: 0, rx_errors: 0, overrun_errors: 0 }),
    {
        ErrorCounters { tx_errors: 0, rx_errors: 0, overrun_errors: 0 }
    }
}

/// CAN bus statistics.
#[derive(Debug, Clone, Copy, PartialEq, Eq, Structural)]
pub struct BusStatistics {
    /// Number of standard data frames.
    pub std_data: u64,
    /// Number of standard remote frames.
    pub std_remote: u64,
    /// Number of extended data frames.
    pub ext_data: u64,
    /// Number of extended remote frames.
    pub ext_remote: u64,
    /// Number of error frames.
    pub err_frames: u64,
    /// Bus load (0-10000, representing 0.00%-100.00%).
    pub bus_load: u64,
    /// Number of overruns.
    pub overruns: u64,
}

impl Default for BusStatistics {
    fn default() -> (s: BusStatistics)
        ensures
            s == (BusStatistics {
                std_data: 0,
                std_remote: 0,
                ext_data: 0,
                ext_remote: 0,
                err_frames: 0,
                bus_load: 0,
                overruns: 0,
            }),
    {
        BusStatistics {
            std_data: 0,
            std_remote: 0,
            ext_data: 0,
            ext_remote: 0,
            err_frames: 0,
            bus_load: 0,
            overruns: 0,
        }
    }
}

impl BusStatistics {
    /// The statistics that the driver reported.
    pub fn from_raw(raw: &sys::canBusStatistics) -> (s: BusStatistics)
        ensures
            s == (BusStatistics {
                std_data: raw.stdData,
                std_remote: raw.stdRemote,
                ext_data: raw.extData,
                ext_remote: raw.extRemote,
                err_frames: raw.errFrame,
                bus_load: raw.busLoad,
                overruns: raw.overruns,
            }),
    {
        BusStatistics {
            std_data: raw.stdData,
            std_remote: raw.stdRemote,
            ext_data: raw.extData,
            ext_remote: raw.extRemote,
            err_frames: raw.errFrame,
            bus_load: raw.busLoad,
            overruns: raw.overruns,
        }
    }
}

} // verus!
