use vstd::prelude::*;
use vstd::std_specs::ops::BitOrSpec;

use core::time::Duration;

use crate::bus_params::{Bitrate, BusParams};
use crate::error::{check_handle, check_status, spec_check_handle, spec_check_status, Result};
use crate::message::CanMessage;
use crate::status::{BusStatus, ErrorCounters};
use crate::sys;

verus! {

/// The bits of all the named flags for opening a channel.
pub open spec fn open_flags_all() -> i32 {
    sys::canOPEN_EXCLUSIVE | sys::canOPEN_REQUIRE_EXTENDED | sys::canOPEN_ACCEPT_VIRTUAL | sys::canOPEN_OVERRIDE_EXCLUSIVE | sys::canOPEN_REQUIRE_INIT_ACCESS | sys::canOPEN_NO_INIT_ACCESS | sys::canOPEN_ACCEPT_LARGE_DLC | sys::canOPEN_CAN_FD | sys::canOPEN_CAN_FD_NONISO
}

/// Flags for opening a CAN channel: a set of bits of an `i32`.
#[derive(Debug, Clone, Copy, PartialEq, Eq, Structural)]
pub struct OpenFlags {
    bits: i32,
}

impl View for OpenFlags {
    type V = i32;

    closed spec fn view(&self) -> i32 {
        self.bits
    }
}

impl OpenFlags {
    /// Don't allow sharing of this channel.
    #[allow(non_snake_case)]
    pub fn EXCLUSIVE() -> (f: OpenFlags)
        ensures
            f@ == sys::canOPEN_EXCLUSIVE,
    {
        OpenFlags { bits: sys::canOPEN_EXCLUSIVE }
    }

    /// Require extended CAN (2.0B) support.
    #[allow(non_snake_case)]
    pub fn REQUIRE_EXTENDED() -> (f: OpenFlags)
        ensures
            f@ == sys::canOPEN_REQUIRE_EXTENDED,
    {
        OpenFlags { bits: sys::canOPEN_REQUIRE_EXTENDED }
    }

    /// Allow opening virtual channels.
    #[allow(non_snake_case)]
    pub fn ACCEPT_VIRTUAL() -> (f: OpenFlags)
        ensures
            f@ == sys::canOPEN_ACCEPT_VIRTUAL,
    {
        OpenFlags { bits: sys::canOPEN_ACCEPT_VIRTUAL }
    }

    /// Override exclusive access from other handles.
    #[allow(non_snake_case)]
    pub fn OVERRIDE_EXCLUSIVE() -> (f: OpenFlags)
        ensures
            f@ == sys::canOPEN_OVERRIDE_EXCLUSIVE,
    {
        OpenFlags { bits: sys::canOPEN_OVERRIDE_EXCLUSIVE }
    }

    /// Require init access to set bus parameters.
    #[allow(non_snake_case)]
    pub fn REQUIRE_INIT_ACCESS() -> (f: OpenFlags)
        ensures
            f@ == sys::canOPEN_REQUIRE_INIT_ACCESS,
    {
        OpenFlags { bits: sys::canOPEN_REQUIRE_INIT_ACCESS }
    }

    /// Open without init access.
    #[allow(non_snake_case)]
    pub fn NO_INIT_ACCESS() -> (f: OpenFlags)
        ensures
            f@ == sys::canOPEN_NO_INIT_ACCESS,
    {
        OpenFlags { bits: sys::canOPEN_NO_INIT_ACCESS }
    }

    /// Accept DLC values greater than 8.
    #[allow(non_snake_case)]
    pub fn ACCEPT_LARGE_DLC() -> (f: OpenFlags)
        ensures
            f@ == sys::canOPEN_ACCEPT_LARGE_DLC,
    {
        OpenFlags { bits: sys::canOPEN_ACCEPT_LARGE_DLC }
    }

    /// Open for CAN FD (ISO 11898-1:2015).
    #[allow(non_snake_case)]
    pub fn CAN_FD() -> (f: OpenFlags)
        ensures
            f@ == sys::canOPEN_CAN_FD,
    {
        OpenFlags { bits: sys::canOPEN_CAN_FD }
    }

    /// Open for CAN FD (non-ISO / Bosch).
    #[allow(non_snake_case)]
    pub fn CAN_FD_NONISO() -> (f: OpenFlags)
        ensures
            f@ == sys::canOPEN_CAN_FD_NONISO,
    {
        OpenFlags { bits: sys::canOPEN_CAN_FD_NONISO }
    }

    /// The set with no flag.
    pub fn empty() -> (f: OpenFlags)
        ensures
            f@ == 0,
    {
        OpenFlags { bits: 0 }
    }

    /// The set of every named flag.
    pub fn all() -> (f: OpenFlags)
        ensures
            f@ == open_flags_all(),
    {
        OpenFlags { bits: sys::canOPEN_EXCLUSIVE | sys::canOPEN_REQUIRE_EXTENDED | sys::canOPEN_ACCEPT_VIRTUAL | sys::canOPEN_OVERRIDE_EXCLUSIVE | sys::canOPEN_REQUIRE_INIT_ACCESS | sys::canOPEN_NO_INIT_ACCESS | sys::canOPEN_ACCEPT_LARGE_DLC | sys::canOPEN_CAN_FD | sys::canOPEN_CAN_FD_NONISO }
    }

    /// The raw bits of the set.
    pub fn bits(&self) -> (b: i32)
        ensures
            b == self@,
    {
        self.bits
    }

    /// The set of the named flags among `bits`; other bits are dropped.
    pub fn from_bits_truncate(bits: i32) -> (f: OpenFlags)
        ensures
            f@ == bits & open_flags_all(),
    {
        OpenFlags { bits: bits & (sys::canOPEN_EXCLUSIVE | sys::canOPEN_REQUIRE_EXTENDED | sys::canOPEN_ACCEPT_VIRTUAL | sys::canOPEN_OVERRIDE_EXCLUSIVE | sys::canOPEN_REQUIRE_INIT_ACCESS | sys::canOPEN_NO_INIT_ACCESS | sys::canOPEN_ACCEPT_LARGE_DLC | sys::canOPEN_CAN_FD | sys::canOPEN_CAN_FD_NONISO) }
    }

    /// Whether no flag is set.
    pub fn is_empty(&self) -> (b: bool)
        ensures
            b == (self@ == 0),
    {
        self.bits == 0
    }

    /// Whether `self` and `other` have a flag in common.
    pub fn intersects(&self, other: OpenFlags) -> (b: bool)
        ensures
            b == (self@ & other@ != 0),
    {
        self.bits & other.bits != 0
    }

    /// Whether every flag of `other` is set in `self`.
    pub fn contains(&self, other: OpenFlags) -> (b: bool)
        ensures
            b == (self@ & other@ == other@),
    {
        self.bits & other.bits == other.bits
    }

    /// The flags set in either `self` or `other`.
    pub fn union(self, other: OpenFlags) -> (f: OpenFlags)
        ensures
            f@ == self@ | other@,
    {
        OpenFlags { bits: self.bits | other.bits }
    }
}

impl core::ops::BitOr for OpenFlags {
    type Output = OpenFlags;

    fn bitor(self, rhs: OpenFlags) -> (f: OpenFlags) {
        OpenFlags { bits: self.bits | rhs.bits }
    }
}

impl vstd::std_specs::ops::BitOrSpecImpl for OpenFlags {
    open spec fn obeys_bitor_spec() -> bool {
        true
    }

    open spec fn bitor_req(self, rhs: OpenFlags) -> bool {
        true
    }

    closed spec fn bitor_spec(self, rhs: OpenFlags) -> OpenFlags {
        OpenFlags { bits: self.bits | rhs.bits }
    }
}

/// The flags of a union are those of either operand.
pub proof fn lemma_open_flags_bitor(a: OpenFlags, b: OpenFlags)
    ensures
        a.bitor_spec(b)@ == a@ | b@,
{
}

/// Bus control operations: on/off, bitrate, and bus parameters.
pub trait CanBusControl {
    fn bus_on(&mut self) -> Result<()>;

    fn bus_off(&mut self) -> Result<()>;

    fn reset_bus(&mut self) -> Result<()>;

    fn is_on_bus(&self) -> bool;

    fn set_bitrate(&self, bitrate: Bitrate) -> Result<()>;

    fn set_bus_params(&self, params: &BusParams) -> Result<()>;
}

/// Read operations on a CAN channel.
pub trait CanRead {
    fn read(&self) -> Result<CanMessage>;

    fn read_wait(&self, timeout: Duration) -> Result<CanMessage>;

    fn read_specific(&self, id: u32) -> Result<CanMessage>;

    fn read_specific_skip(&self, id: u32) -> Result<CanMessage>;
}

/// Write operations on a CAN channel.
pub trait CanWrite {
    fn write(&self, msg: &CanMessage) -> Result<()>;

    fn write_wait(&self, msg: &CanMessage, timeout: Duration) -> Result<()>;

    fn write_sync(&self, timeout: Duration) -> Result<()>;
}

/// Diagnostics: filters, status, error counters, and queue flushing.
pub trait CanDiagnostics {
    fn set_acceptance_filter(&self, code: u32, mask: u32, extended: bool) -> Result<()>;

    fn read_status(&self) -> Result<BusStatus>;

    fn read_error_counters(&self) -> Result<ErrorCounters>;

    fn flush_rx(&self) -> Result<()>;

    fn flush_tx(&self) -> Result<()>;
}

/// Combined trait encompassing all CAN channel operations.
pub trait CanChannel: CanBusControl + CanRead + CanWrite + CanDiagnostics {

}

impl<T: CanBusControl + CanRead + CanWrite + CanDiagnostics> CanChannel for T {

}

/// A call that changes whether a channel is on-bus.
#[derive(Debug, Clone, Copy, PartialEq, Eq, Structural)]
pub enum BusOp {
    /// [`Channel::bus_on`].
    On,
    /// [`Channel::bus_off`].
    Off,
    /// [`Channel::reset_bus`].
    Reset,
}

/// The state of a channel after the bus call `op` whose driver status was
/// `status`: when the call returns `Ok`, the channel is on-bus after `On` and
/// off-bus after `Off` or `Reset`; when it returns an error, nothing changes.
pub open spec fn spec_bus_step(c: ChannelView, op: BusOp, status: sys::canStatus) -> ChannelView {
    if spec_check_status(status) is Ok {
        ChannelView { handle: c.handle, on_bus: op == BusOp::On }
    } else {
        c
    }
}

/// The state of a channel after the bus calls `calls`, in order, each with the
/// driver status it got.
pub open spec fn spec_bus_run(c: ChannelView, calls: Seq<(BusOp, sys::canStatus)>) -> ChannelView
    decreases calls.len(),
{
    if calls.len() == 0 {
        c
    } else {
        spec_bus_step(spec_bus_run(c, calls.drop_last()), calls.last().0, calls.last().1)
    }
}

/// After any sequence of bus calls, a channel keeps its handle, and it is on-bus
/// exactly when the last call that returned `Ok` was a bus-on call, or, when no
/// call returned `Ok`, when it was on-bus before them.
pub proof fn lemma_bus_calls(c: ChannelView, calls: Seq<(BusOp, sys::canStatus)>)
    ensures
        spec_bus_run(c, calls).handle == c.handle,
        spec_bus_run(c, calls).on_bus <==> {
            ||| exists|i: int|
                0 <= i < calls.len() && spec_check_status(#[trigger] calls[i].1) is Ok && calls[i].0 == BusOp::On
                    && forall|j: int| i < j < calls.len() ==> spec_check_status(#[trigger] calls[j].1) is Err
            ||| c.on_bus && forall|j: int| 0 <= j < calls.len() ==> spec_check_status(#[trigger] calls[j].1) is Err
        },
    decreases calls.len(),
{
    if calls.len() > 0 {
        let prev = calls.drop_last();
        let n = calls.len() - 1;
        lemma_bus_calls(c, prev);
        assert forall|j: int| 0 <= j < n implies calls[j] == prev[j] by {}
        if spec_check_status(calls[n].1) is Ok {
            if calls[n].0 == BusOp::On {
                assert(spec_check_status(calls[n].1) is Ok && calls[n].0 == BusOp::On);
            }
        } else {
            if spec_bus_run(c, calls).on_bus {
                if exists|i: int|
                    0 <= i < prev.len() && spec_check_status(#[trigger] prev[i].1) is Ok && prev[i].0 == BusOp::On
                        && forall|j: int| i < j < prev.len() ==> spec_check_status(#[trigger] prev[j].1) is Err {
                    let i = choose|i: int|
                        0 <= i < prev.len() && spec_check_status(#[trigger] prev[i].1) is Ok && prev[i].0 == BusOp::On
                            && forall|j: int| i < j < prev.len() ==> spec_check_status(#[trigger] prev[j].1) is Err;
                    assert(spec_check_status(calls[i].1) is Ok);
                }
            }
        }
    }
}

/// The state of an open CAN channel: its driver handle and whether it is on-bus.
///
/// The driver calls themselves are made by the caller; each operation here takes the
/// status the driver returned and moves the channel to its next state.
pub struct Channel {
    handle: sys::canHandle,
    on_bus: bool,
}

/// The plain values held by a [`Channel`].
pub struct ChannelView {
    pub handle: sys::canHandle,
    pub on_bus: bool,
}

impl View for Channel {
    type V = ChannelView;

    closed spec fn view(&self) -> ChannelView {
        ChannelView { handle: self.handle, on_bus: self.on_bus }
    }
}

impl Channel {
    #[verifier::type_invariant]
    spec fn handle_is_valid(self) -> bool {
        self.handle >= 0
    }

    /// The channel opened with the handle (or failing status) that the driver's
    /// open call returned; a new channel is off-bus.
    pub fn open(handle: sys::canHandle) -> (r: Result<Self>)
        ensures
            r is Ok <==> spec_check_handle(handle) is Ok,
            r matches Ok(ch) ==> ch@ == (ChannelView { handle, on_bus: false }),
            r matches Err(e) ==> spec_check_handle(handle) == Err::<sys::canHandle, _>(e),
    {
        let h = check_handle(handle)?;
        Ok(Channel { handle: h, on_bus: false })
    }

    /// Go on-bus, given the status of the driver's bus-on call: on success the
    /// channel is on-bus, on failure it is unchanged.
    pub fn bus_on(&mut self, status: sys::canStatus) -> (r: Result<()>)
        ensures
            r == spec_check_status(status),
            final(self)@ == spec_bus_step(old(self)@, BusOp::On, status),
            final(self)@.handle == old(self)@.handle,
            final(self)@.on_bus == (if status >= 0 { true } else { old(self)@.on_bus }),
    {
        proof {
            use_type_invariant(&*self);
        }
        check_status(status)?;
        self.on_bus = true;
        Ok(())
    }

    /// Go off-bus, given the status of the driver's bus-off call: on success the
    /// channel is off-bus, on failure it is unchanged.
    pub fn bus_off(&mut self, status: sys::canStatus) -> (r: Result<()>)
        ensures
            r == spec_check_status(status),
            final(self)@ == spec_bus_step(old(self)@, BusOp::Off, status),
            final(self)@.handle == old(self)@.handle,
            final(self)@.on_bus == (if status >= 0 { false } else { old(self)@.on_bus }),
    {
        proof {
            use_type_invariant(&*self);
        }
        check_status(status)?;
        self.on_bus = false;
        Ok(())
    }

    /// Reset the bus controller, given the status of the driver's reset call: on
    /// success the channel is off-bus, on failure it is unchanged.
    pub fn reset_bus(&mut self, status: sys::canStatus) -> (r: Result<()>)
        ensures
            r == spec_check_status(status),
            final(self)@ == spec_bus_step(old(self)@, BusOp::Reset, status),
            final(self)@.handle == old(self)@.handle,
            final(self)@.on_bus == (if status >= 0 { false } else { old(self)@.on_bus }),
    {
        proof {
            use_type_invariant(&*self);
        }
        check_status(status)?;
        self.on_bus = false;
        Ok(())
    }

    /// Returns true if the channel is currently on-bus.
    pub fn is_on_bus(&self) -> (b: bool)
        ensures
            b == self@.on_bus,
    {
        self.on_bus
    }

    /// The raw CANLib handle.
    pub fn raw_handle(&self) -> (h: sys::canHandle)
        ensures
            h == self@.handle,
            h >= 0,
    {
        proof {
            use_type_invariant(self);
        }
        self.handle
    }
}

} // verus!
