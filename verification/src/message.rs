use vstd::prelude::*;
use vstd::std_specs::convert::IntoSpec;
use vstd::std_specs::ops::BitOrSpec;

use crate::error::{CanError, Result};
use crate::sys;

verus! {

/// CAN FD Bit Rate Switch.
///
/// Controls whether the data phase of a CAN FD frame is transmitted at
/// the faster FD bitrate (`On`) or at the same bitrate as the
/// arbitration phase (`Off`).
#[derive(Debug, Clone, Copy, PartialEq, Eq, Structural)]
pub enum Brs {
    /// Switch to the FD data-phase bitrate during the data field.
    On,
    /// Stay at the arbitration-phase bitrate.
    Off,
}

/// Maximum data length for classic CAN.
pub const CAN_MAX_DLC: usize = 8;

/// Maximum data length for CAN FD.
pub const CANFD_MAX_DLC: usize = 64;

/// Maximum standard (11-bit) CAN identifier.
pub const CAN_STD_ID_MAX: u32 = 0x7FF;

/// Maximum extended (29-bit) CAN identifier.
pub const CAN_EXT_ID_MAX: u32 = 0x1FFF_FFFF;

/// Every bit that has a named message flag.
pub open spec fn message_flags_all() -> u32 {
    sys::canMSG_RTR | sys::canMSG_STD | sys::canMSG_EXT | sys::canMSG_WAKEUP | sys::canMSG_NERR | sys::canMSG_ERROR_FRAME | sys::canMSG_TXACK | sys::canMSG_TXRQ | sys::canMSG_DELAY_MSG | sys::canFDMSG_FDF | sys::canFDMSG_BRS | sys::canFDMSG_ESI | sys::canMSGERR_HW_OVERRUN | sys::canMSGERR_SW_OVERRUN | sys::canMSGERR_STUFF | sys::canMSGERR_FORM | sys::canMSGERR_CRC | sys::canMSGERR_BIT0 | sys::canMSGERR_BIT1
}

/// `bits` has every bit of `flag` set.
pub open spec fn has_bits(bits: u32, flag: u32) -> bool {
    bits & flag == flag
}

/// Flags associated with a CAN message: a set of bits of a `u32`.
#[derive(Debug, Clone, Copy, PartialEq, Eq, Structural)]
pub struct MessageFlags {
    bits: u32,
}

impl View for MessageFlags {
    type V = u32;

    closed spec fn view(&self) -> u32 {
        self.bits
    }
}

impl MessageFlags {
    /// Remote Transmission Request.
    #[allow(non_snake_case)]
    pub fn RTR() -> (f: MessageFlags)
        ensures
            f@ == sys::canMSG_RTR,
    {
        MessageFlags { bits: sys::canMSG_RTR }
    }

    /// Standard (11-bit) identifier.
    #[allow(non_snake_case)]
    pub fn STD() -> (f: MessageFlags)
        ensures
            f@ == sys::canMSG_STD,
    {
        MessageFlags { bits: sys::canMSG_STD }
    }

    /// Extended (29-bit) identifier.
    #[allow(non_snake_case)]
    pub fn EXT() -> (f: MessageFlags)
        ensures
            f@ == sys::canMSG_EXT,
    {
        MessageFlags { bits: sys::canMSG_EXT }
    }

    /// Wakeup message.
    #[allow(non_snake_case)]
    pub fn WAKEUP() -> (f: MessageFlags)
        ensures
            f@ == sys::canMSG_WAKEUP,
    {
        MessageFlags { bits: sys::canMSG_WAKEUP }
    }

    /// NERR was active during the message.
    #[allow(non_snake_case)]
    pub fn NERR() -> (f: MessageFlags)
        ensures
            f@ == sys::canMSG_NERR,
    {
        MessageFlags { bits: sys::canMSG_NERR }
    }

    /// Error frame.
    #[allow(non_snake_case)]
    pub fn ERROR_FRAME() -> (f: MessageFlags)
        ensures
            f@ == sys::canMSG_ERROR_FRAME,
    {
        MessageFlags { bits: sys::canMSG_ERROR_FRAME }
    }

    /// TX acknowledgement.
    #[allow(non_snake_case)]
    pub fn TX_ACK() -> (f: MessageFlags)
        ensures
            f@ == sys::canMSG_TXACK,
    {
        MessageFlags { bits: sys::canMSG_TXACK }
    }

    /// TX request.
    #[allow(non_snake_case)]
    pub fn TX_RQ() -> (f: MessageFlags)
        ensures
            f@ == sys::canMSG_TXRQ,
    {
        MessageFlags { bits: sys::canMSG_TXRQ }
    }

    /// Delayed message.
    #[allow(non_snake_case)]
    pub fn DELAY_MSG() -> (f: MessageFlags)
        ensures
            f@ == sys::canMSG_DELAY_MSG,
    {
        MessageFlags { bits: sys::canMSG_DELAY_MSG }
    }

    /// CAN FD frame.
    #[allow(non_snake_case)]
    pub fn FD() -> (f: MessageFlags)
        ensures
            f@ == sys::canFDMSG_FDF,
    {
        MessageFlags { bits: sys::canFDMSG_FDF }
    }

    /// CAN FD Bit Rate Switch.
    #[allow(non_snake_case)]
    pub fn BRS() -> (f: MessageFlags)
        ensures
            f@ == sys::canFDMSG_BRS,
    {
        MessageFlags { bits: sys::canFDMSG_BRS }
    }

    /// CAN FD Error State Indicator.
    #[allow(non_snake_case)]
    pub fn ESI() -> (f: MessageFlags)
        ensures
            f@ == sys::canFDMSG_ESI,
    {
        MessageFlags { bits: sys::canFDMSG_ESI }
    }

    /// Hardware receive buffer overrun (set on error frames).
    #[allow(non_snake_case)]
    pub fn ERR_HW_OVERRUN() -> (f: MessageFlags)
        ensures
            f@ == sys::canMSGERR_HW_OVERRUN,
    {
        MessageFlags { bits: sys::canMSGERR_HW_OVERRUN }
    }

    /// Software receive buffer overrun (set on error frames).
    #[allow(non_snake_case)]
    pub fn ERR_SW_OVERRUN() -> (f: MessageFlags)
        ensures
            f@ == sys::canMSGERR_SW_OVERRUN,
    {
        MessageFlags { bits: sys::canMSGERR_SW_OVERRUN }
    }

    /// Stuff error (set on error frames).
    #[allow(non_snake_case)]
    pub fn ERR_STUFF() -> (f: MessageFlags)
        ensures
            f@ == sys::canMSGERR_STUFF,
    {
        MessageFlags { bits: sys::canMSGERR_STUFF }
    }

    /// Form error (set on error frames).
    #[allow(non_snake_case)]
    pub fn ERR_FORM() -> (f: MessageFlags)
        ensures
            f@ == sys::canMSGERR_FORM,
    {
        MessageFlags { bits: sys::canMSGERR_FORM }
    }

    /// CRC error (set on error frames).
    #[allow(non_snake_case)]
    pub fn ERR_CRC() -> (f: MessageFlags)
        ensures
            f@ == sys::canMSGERR_CRC,
    {
        MessageFlags { bits: sys::canMSGERR_CRC }
    }

    /// Bit-0 error (dominant transmitted, recessive monitored).
    #[allow(non_snake_case)]
    pub fn ERR_BIT0() -> (f: MessageFlags)
        ensures
            f@ == sys::canMSGERR_BIT0,
    {
        MessageFlags { bits: sys::canMSGERR_BIT0 }
    }

    /// Bit-1 error (recessive transmitted, dominant monitored).
    #[allow(non_snake_case)]
    pub fn ERR_BIT1() -> (f: MessageFlags)
        ensures
            f@ == sys::canMSGERR_BIT1,
    {
        MessageFlags { bits: sys::canMSGERR_BIT1 }
    }

    /// The set with no flag.
    pub fn empty() -> (f: MessageFlags)
        ensures
            f@ == 0,
    {
        MessageFlags { bits: 0 }
    }

    /// The set of every named flag.
    pub fn all() -> (f: MessageFlags)
        ensures
            f@ == message_flags_all(),
    {
        MessageFlags { bits: sys::canMSG_RTR | sys::canMSG_STD | sys::canMSG_EXT | sys::canMSG_WAKEUP | sys::canMSG_NERR | sys::canMSG_ERROR_FRAME | sys::canMSG_TXACK | sys::canMSG_TXRQ | sys::canMSG_DELAY_MSG | sys::canFDMSG_FDF | sys::canFDMSG_BRS | sys::canFDMSG_ESI | sys::canMSGERR_HW_OVERRUN | sys::canMSGERR_SW_OVERRUN | sys::canMSGERR_STUFF | sys::canMSGERR_FORM | sys::canMSGERR_CRC | sys::canMSGERR_BIT0 | sys::canMSGERR_BIT1 }
    }

    /// The raw bits of the set.
    pub fn bits(&self) -> (b: u32)
        ensures
            b == self@,
    {
        self.bits
    }

    /// The set of the named flags among `bits`; other bits are dropped.
    pub fn from_bits_truncate(bits: u32) -> (f: MessageFlags)
        ensures
            f@ == bits & message_flags_all(),
    {
        MessageFlags { bits: bits & (sys::canMSG_RTR | sys::canMSG_STD | sys::canMSG_EXT | sys::canMSG_WAKEUP | sys::canMSG_NERR | sys::canMSG_ERROR_FRAME | sys::canMSG_TXACK | sys::canMSG_TXRQ | sys::canMSG_DELAY_MSG | sys::canFDMSG_FDF | sys::canFDMSG_BRS | sys::canFDMSG_ESI | sys::canMSGERR_HW_OVERRUN | sys::canMSGERR_SW_OVERRUN | sys::canMSGERR_STUFF | sys::canMSGERR_FORM | sys::canMSGERR_CRC | sys::canMSGERR_BIT0 | sys::canMSGERR_BIT1) }
    }

    /// Whether no flag is set.
    pub fn is_empty(&self) -> (b: bool)
        ensures
            b == (self@ == 0),
    {
        self.bits == 0
    }

    /// Whether every flag of `other` is set in `self`.
    pub fn contains(&self, other: MessageFlags) -> (b: bool)
        ensures
            b == has_bits(self@, other@),
    {
        self.bits & other.bits == other.bits
    }

    /// Whether `self` and `other` have a flag in common.
    pub fn intersects(&self, other: MessageFlags) -> (b: bool)
        ensures
            b == (self@ & other@ != 0),
    {
        self.bits & other.bits != 0
    }

    /// The flags set in either `self` or `other`.
    pub fn union(self, other: MessageFlags) -> (f: MessageFlags)
        ensures
            f@ == self@ | other@,
    {
        MessageFlags { bits: self.bits | other.bits }
    }
}

impl core::ops::BitOr for MessageFlags {
    type Output = MessageFlags;

    fn bitor(self, rhs: MessageFlags) -> (f: MessageFlags) {
        MessageFlags { bits: self.bits | rhs.bits }
    }
}

impl vstd::std_specs::ops::BitOrSpecImpl for MessageFlags {
    open spec fn obeys_bitor_spec() -> bool {
        true
    }

    open spec fn bitor_req(self, rhs: MessageFlags) -> bool {
        true
    }

    closed spec fn bitor_spec(self, rhs: MessageFlags) -> MessageFlags {
        MessageFlags { bits: self.bits | rhs.bits }
    }
}

/// The flags of a union are those of either operand.
pub proof fn lemma_bitor_flags(a: MessageFlags, b: MessageFlags)
    ensures
        a.bitor_spec(b)@ == a@ | b@,
{
}

impl Default for MessageFlags {
    fn default() -> (f: MessageFlags)
        ensures
            f@ == 0,
    {
        MessageFlags { bits: 0 }
    }
}


/// Standard 11-bit CAN identifier (`0..=0x7FF`).
#[derive(Debug, Clone, Copy, PartialEq, Eq, Structural)]
pub struct StandardId {
    raw: u16,
}

impl View for StandardId {
    type V = u16;

    closed spec fn view(&self) -> u16 {
        self.raw
    }
}

impl StandardId {
    #[verifier::type_invariant]
    spec fn in_range(self) -> bool {
        self.raw <= 0x7FF
    }

    /// Tries to create a `StandardId` from a raw 16-bit integer; `None` if `raw > 0x7FF`.
    pub fn new(raw: u16) -> (r: Option<StandardId>)
        ensures
            r is Some <==> raw <= 0x7FF,
            r matches Some(id) ==> id@ == raw,
    {
        if raw <= 0x7FF {
            Some(StandardId { raw })
        } else {
            None
        }
    }

    /// CAN ID `0`, the highest priority.
    #[allow(non_snake_case)]
    pub fn ZERO() -> (id: StandardId)
        ensures
            id@ == 0,
    {
        StandardId { raw: 0 }
    }

    /// CAN ID `0x7FF`, the lowest priority.
    #[allow(non_snake_case)]
    pub fn MAX() -> (id: StandardId)
        ensures
            id@ == 0x7FF,
    {
        StandardId { raw: 0x7FF }
    }

    /// This identifier as a raw 16-bit integer.
    pub fn as_raw(&self) -> (r: u16)
        ensures
            r == self@,
            r <= 0x7FF,
    {
        proof {
            use_type_invariant(self);
        }
        self.raw
    }
}

/// Extended 29-bit CAN identifier (`0..=0x1FFF_FFFF`).
#[derive(Debug, Clone, Copy, PartialEq, Eq, Structural)]
pub struct ExtendedId {
    raw: u32,
}

impl View for ExtendedId {
    type V = u32;

    closed spec fn view(&self) -> u32 {
        self.raw
    }
}

impl ExtendedId {
    #[verifier::type_invariant]
    spec fn in_range(self) -> bool {
        self.raw <= 0x1FFF_FFFF
    }

    /// Tries to create an `ExtendedId` from a raw 32-bit integer; `None` if `raw > 0x1FFF_FFFF`.
    pub fn new(raw: u32) -> (r: Option<ExtendedId>)
        ensures
            r is Some <==> raw <= 0x1FFF_FFFF,
            r matches Some(id) ==> id@ == raw,
    {
        if raw <= 0x1FFF_FFFF {
            Some(ExtendedId { raw })
        } else {
            None
        }
    }

    /// CAN ID `0`, the highest priority.
    #[allow(non_snake_case)]
    pub fn ZERO() -> (id: ExtendedId)
        ensures
            id@ == 0,
    {
        ExtendedId { raw: 0 }
    }

    /// CAN ID `0x1FFF_FFFF`, the lowest priority.
    #[allow(non_snake_case)]
    pub fn MAX() -> (id: ExtendedId)
        ensures
            id@ == 0x1FFF_FFFF,
    {
        ExtendedId { raw: 0x1FFF_FFFF }
    }

    /// This identifier as a raw 32-bit integer.
    pub fn as_raw(&self) -> (r: u32)
        ensures
            r == self@,
            r <= 0x1FFF_FFFF,
    {
        proof {
            use_type_invariant(self);
        }
        self.raw
    }
}

/// A CAN identifier (standard or extended).
#[derive(Debug, Clone, Copy, PartialEq, Eq, Structural)]
pub enum Id {
    /// Standard 11-bit identifier.
    Standard(StandardId),
    /// Extended 29-bit identifier.
    Extended(ExtendedId),
}

impl Id {
    /// The identifier as a raw integer.
    pub open spec fn spec_raw(self) -> u32 {
        match self {
            Id::Standard(s) => s@ as u32,
            Id::Extended(e) => e@,
        }
    }

    /// The identifier is within the range of its format: at most `0x7FF` for a
    /// standard identifier, at most `0x1FFF_FFFF` for an extended one.
    pub open spec fn spec_in_range(self) -> bool {
        match self {
            Id::Standard(_) => self.spec_raw() <= CAN_STD_ID_MAX,
            Id::Extended(_) => self.spec_raw() <= CAN_EXT_ID_MAX,
        }
    }

    /// The std/ext message flag that goes with the identifier.
    pub open spec fn spec_format_flag(self) -> u32 {
        match self {
            Id::Standard(_) => sys::canMSG_STD,
            Id::Extended(_) => sys::canMSG_EXT,
        }
    }
}

impl From<StandardId> for Id {
    fn from(id: StandardId) -> (r: Id)
        ensures
            r == Id::Standard(id),
    {
        Id::Standard(id)
    }
}

impl vstd::std_specs::convert::FromSpecImpl<StandardId> for Id {
    open spec fn obeys_from_spec() -> bool {
        true
    }

    open spec fn from_spec(id: StandardId) -> Id {
        Id::Standard(id)
    }
}

impl From<ExtendedId> for Id {
    fn from(id: ExtendedId) -> (r: Id)
        ensures
            r == Id::Extended(id),
    {
        Id::Extended(id)
    }
}

impl vstd::std_specs::convert::FromSpecImpl<ExtendedId> for Id {
    open spec fn obeys_from_spec() -> bool {
        true
    }

    open spec fn from_spec(id: ExtendedId) -> Id {
        Id::Extended(id)
    }
}

/// Convert a typed `Id` into the raw `u32` and the matching std/ext flag.
pub fn id_to_raw_and_flag(id: Id) -> (r: (u32, MessageFlags))
    ensures
        r.0 == id.spec_raw(),
        r.1@ == id.spec_format_flag(),
        id.spec_in_range(),
{
    match id {
        Id::Standard(s) => (s.as_raw() as u32, MessageFlags::STD()),
        Id::Extended(e) => (e.as_raw(), MessageFlags::EXT()),
    }
}


/// Whether `n` is a payload size that a CAN FD frame can carry:
/// 0 to 8, 12, 16, 20, 24, 32, 48 or 64.
pub open spec fn is_valid_fd_size(n: nat) -> bool {
    n <= 8 || n == 12 || n == 16 || n == 20 || n == 24 || n == 32 || n == 48 || n == 64
}

/// The CAN FD payload size that a payload of `len` bytes is padded to: `len` itself
/// up to 8, else the next valid CAN FD size, and 64 beyond that.
pub open spec fn spec_fd_dlc(len: nat) -> nat {
    if len <= 8 {
        len
    } else if len <= 12 {
        12
    } else if len <= 16 {
        16
    } else if len <= 20 {
        20
    } else if len <= 24 {
        24
    } else if len <= 32 {
        32
    } else if len <= 48 {
        48
    } else {
        64
    }
}

/// Rounding up is the least valid CAN FD size that holds the payload.
pub proof fn lemma_fd_dlc_is_least_valid_size(len: nat, m: nat)
    requires
        len <= 64,
    ensures
        is_valid_fd_size(spec_fd_dlc(len)),
        len <= spec_fd_dlc(len) <= 64,
        is_valid_fd_size(m) && len <= m ==> spec_fd_dlc(len) <= m,
        is_valid_fd_size(len) ==> spec_fd_dlc(len) == len,
{
}

/// Round a data length up to the nearest valid CAN FD DLC.
/// For lengths 0-8, returns the length as-is. For lengths 9-64,
/// returns the next valid FD size (12, 16, 20, 24, 32, 48, or 64).
pub fn fd_dlc_for_len(len: usize) -> (dlc: usize)
    ensures
        dlc == spec_fd_dlc(len as nat),
{
    if len <= CAN_MAX_DLC {
        return len;
    }
    let sizes: [usize; 7] = [12, 16, 20, 24, 32, 48, 64];
    let mut i: usize = 0;
    while i < 7
        invariant
            0 <= i <= 7,
            len > 8,
            sizes@ == seq![12usize, 16, 20, 24, 32, 48, 64],
            forall|j: int| 0 <= j < i ==> sizes@[j] < len,
        decreases 7 - i,
    {
        if len <= sizes[i] {
            assert(i == 0 || sizes@[i - 1] < len);
            return sizes[i];
        }
        i = i + 1;
    }
    CANFD_MAX_DLC
}

/// The kind of a CAN frame.
#[derive(Debug, Clone, Copy, PartialEq, Eq, Structural)]
pub enum FrameKind {
    /// A data frame (classic CAN or CAN FD).
    Data,
    /// A Remote Transmission Request frame.
    Remote,
    /// An error frame.
    Error,
}

/// The plain values that a [`CanMessage`] holds.
pub struct MessageView {
    pub kind: FrameKind,
    pub id: u32,
    pub data: Seq<u8>,
    pub dlc: u8,
    pub flags: u32,
    pub timestamp: Option<u64>,
}

/// A CAN data frame (classic or FD).
#[derive(Debug, Clone)]
pub struct DataFrame {
    id: u32,
    data: Vec<u8>,
    dlc: u8,
    flags: MessageFlags,
    timestamp: Option<u64>,
}

impl DataFrame {
    /// The frame's CAN identifier.
    pub fn id(&self) -> (r: u32)
        ensures
            r == self.spec_id(),
    {
        self.id
    }

    pub closed spec fn spec_id(self) -> u32 {
        self.id
    }
}

/// A CAN Remote Transmission Request frame.
#[derive(Debug, Clone)]
pub struct RemoteFrame {
    id: u32,
    dlc: u8,
    flags: MessageFlags,
    timestamp: Option<u64>,
}

/// A CAN error frame.
#[derive(Debug, Clone)]
pub struct ErrorFrame {
    id: u32,
    data: Vec<u8>,
    dlc: u8,
    flags: MessageFlags,
    timestamp: Option<u64>,
}

/// A CAN message (classic or FD).
///
/// Each variant enforces which fields and flag combinations are valid:
/// - `Data` — standard data frames (classic CAN and FD)
/// - `Remote` — Remote Transmission Request frames (no payload)
/// - `Error` — error frames from the controller
#[derive(Debug, Clone)]
pub enum CanMessage {
    /// A data frame (classic CAN or CAN FD).
    Data(DataFrame),
    /// A Remote Transmission Request frame.
    Remote(RemoteFrame),
    /// An error frame.
    Error(ErrorFrame),
}

impl View for CanMessage {
    type V = MessageView;

    closed spec fn view(&self) -> MessageView {
        match self {
            CanMessage::Data(f) => MessageView {
                kind: FrameKind::Data,
                id: f.id,
                data: f.data@,
                dlc: f.dlc,
                flags: f.flags@,
                timestamp: f.timestamp,
            },
            CanMessage::Remote(f) => MessageView {
                kind: FrameKind::Remote,
                id: f.id,
                data: Seq::empty(),
                dlc: f.dlc,
                flags: f.flags@,
                timestamp: f.timestamp,
            },
            CanMessage::Error(f) => MessageView {
                kind: FrameKind::Error,
                id: f.id,
                data: f.data@,
                dlc: f.dlc,
                flags: f.flags@,
                timestamp: f.timestamp,
            },
        }
    }
}

/// The kind in a message's view is the variant it is, and a remote frame carries
/// no payload.
pub proof fn lemma_message_kind(m: CanMessage)
    ensures
        (m is Data) <==> m@.kind == FrameKind::Data,
        (m is Remote) <==> m@.kind == FrameKind::Remote,
        (m is Error) <==> m@.kind == FrameKind::Error,
        m is Remote ==> m@.data.len() == 0,
{
}

/// The view of a message with these values.
pub open spec fn message_view(kind: FrameKind, id: u32, data: Seq<u8>, dlc: u8, flags: u32, timestamp: Option<u64>) -> MessageView {
    MessageView { kind, id, data, dlc, flags, timestamp }
}

/// The flags of a CAN FD data frame with identifier `id`.
pub open spec fn spec_fd_flags(id: Id, brs: Brs) -> u32 {
    spec_fd_flags_for(id.spec_format_flag(), brs)
}

/// The flags of a CAN FD data frame whose std/ext flag is `format`.
pub open spec fn spec_fd_flags_for(format: u32, brs: Brs) -> u32 {
    if brs == Brs::On {
        format | sys::canFDMSG_FDF | sys::canFDMSG_BRS
    } else {
        format | sys::canFDMSG_FDF
    }
}

/// `raw` is an identifier of the format that the std/ext flag `format` names.
pub open spec fn id_fits_format(raw: u32, format: u32) -> bool {
    ||| format == sys::canMSG_STD && raw <= CAN_STD_ID_MAX
    ||| format == sys::canMSG_EXT && raw <= CAN_EXT_ID_MAX
}

/// The kind of frame that raw flags read from the driver stand for: an error frame
/// when `ERROR_FRAME` is set, else a remote frame when `RTR` is set, else a data frame.
pub open spec fn spec_kind_of_flags(flags: u32) -> FrameKind {
    if has_bits(flags, sys::canMSG_ERROR_FRAME) {
        FrameKind::Error
    } else if has_bits(flags, sys::canMSG_RTR) {
        FrameKind::Remote
    } else {
        FrameKind::Data
    }
}

/// How a message read from raw values is classified, for every flags value: an
/// error frame exactly when the ERROR_FRAME bit is set; else a remote frame exactly
/// when the RTR bit is set, with its payload dropped; else a data frame. The
/// identifier, DLC, flags and timestamp are kept as given.
pub proof fn lemma_raw_frame_kind(id: u32, data: Seq<u8>, dlc: u8, flags: u32, timestamp: u64)
    ensures
        ({
            let v = spec_from_raw(id, data, dlc, flags, timestamp);
            &&& (v.kind == FrameKind::Error) <==> flags & sys::canMSG_ERROR_FRAME != 0
            &&& (v.kind == FrameKind::Remote) <==> (flags & sys::canMSG_ERROR_FRAME == 0 && flags & sys::canMSG_RTR != 0)
            &&& (v.kind == FrameKind::Data) <==> (flags & sys::canMSG_ERROR_FRAME == 0 && flags & sys::canMSG_RTR == 0)
            &&& v.data == (if flags & sys::canMSG_ERROR_FRAME == 0 && flags & sys::canMSG_RTR != 0 { Seq::<u8>::empty() } else { data })
            &&& v.id == id
            &&& v.dlc == dlc
            &&& v.flags == flags
            &&& v.timestamp == Some(timestamp)
        }),
{
    assert((flags & sys::canMSG_ERROR_FRAME == sys::canMSG_ERROR_FRAME) == (flags & sys::canMSG_ERROR_FRAME != 0)
        && (flags & sys::canMSG_RTR == sys::canMSG_RTR) == (flags & sys::canMSG_RTR != 0)) by (bit_vector);
}

/// How a message read from the driver is classified, for every flags value the
/// driver reports: an error frame exactly when the ERROR_FRAME bit is set; else a
/// remote frame exactly when the RTR bit is set, with no payload; else a data frame
/// holding the first `min(dlc, 64)` bytes of the buffer. The identifier is the
/// driver's, truncated to 32 bits, the DLC is truncated to a byte, and the flags
/// keep the named bits (the low 19) and drop the rest.
pub proof fn lemma_driver_frame_kind(id: i64, buffer: Seq<u8>, dlc: u32, flags: u32, timestamp: u64)
    requires
        buffer.len() == CANFD_MAX_DLC,
    ensures
        ({
            let v = spec_from_driver(id, buffer, dlc, flags, timestamp);
            let len: int = if dlc < 64 { dlc as int } else { 64 };
            &&& (v.kind == FrameKind::Error) <==> flags & sys::canMSG_ERROR_FRAME != 0
            &&& (v.kind == FrameKind::Remote) <==> (flags & sys::canMSG_ERROR_FRAME == 0 && flags & sys::canMSG_RTR != 0)
            &&& (v.kind == FrameKind::Data) <==> (flags & sys::canMSG_ERROR_FRAME == 0 && flags & sys::canMSG_RTR == 0)
            &&& v.data == (if v.kind == FrameKind::Remote { Seq::<u8>::empty() } else { buffer.subrange(0, len) })
            &&& v.id == id as u32
            &&& v.dlc == dlc as u8
            &&& v.flags == flags & 0x07FFFFu32
            &&& v.timestamp == Some(timestamp)
        }),
{
    assert(message_flags_all() == 0x07FFFFu32) by (bit_vector);
    let named = flags & message_flags_all();
    assert(named & sys::canMSG_ERROR_FRAME == flags & sys::canMSG_ERROR_FRAME
        && named & sys::canMSG_RTR == flags & sys::canMSG_RTR) by (bit_vector)
        requires
            named == flags & message_flags_all(),
    ;
    let len: int = if dlc < CANFD_MAX_DLC { dlc as int } else { CANFD_MAX_DLC as int };
    lemma_raw_frame_kind(id as u32, buffer.subrange(0, len), dlc as u8, named, timestamp);
}

/// The view of a message built from raw values by [`CanMessage::from_raw`].
pub open spec fn spec_from_raw(id: u32, data: Seq<u8>, dlc: u8, flags: u32, timestamp: u64) -> MessageView {
    let kind = spec_kind_of_flags(flags);
    MessageView {
        kind,
        id,
        data: if kind == FrameKind::Remote { Seq::empty() } else { data },
        dlc,
        flags,
        timestamp: Some(timestamp),
    }
}

impl CanMessage {
    /// Create a classic CAN data frame with the identifier `id`.
    ///
    /// The std/ext flag is taken from the [`Id`] variant.
    ///
    /// Returns `Err(CanError::Param)` if `data.len() > 8`.
    pub fn new_with_id(id: Id, data: &[u8]) -> (r: Result<Self>)
        ensures
            data@.len() > CAN_MAX_DLC ==> r == Err::<CanMessage, CanError>(CanError::Param),
            data@.len() <= CAN_MAX_DLC ==> (r matches Ok(m) && m@ == message_view(
                FrameKind::Data,
                id.spec_raw(),
                data@,
                data@.len() as u8,
                id.spec_format_flag(),
                None,
            )),
            id.spec_in_range(),
    {
        let (raw, flag) = id_to_raw_and_flag(id);
        if data.len() > CAN_MAX_DLC {
            return Err(CanError::Param);
        }
        Ok(CanMessage::Data(DataFrame {
            id: raw,
            data: vstd::slice::slice_to_vec(data),
            dlc: data.len() as u8,
            flags: flag,
            timestamp: None,
        }))
    }

    /// Create a classic CAN data frame.
    ///
    /// The `id` may be a [`StandardId`], an [`ExtendedId`], or an [`Id`]; the
    /// std/ext flag is taken from its variant. Built by [`CanMessage::new_with_id`]
    /// from the identifier that `id` converts into.
    ///
    /// Returns `Err(CanError::Param)` if `data.len() > 8`.
    pub fn new<I: Into<Id>>(id: I, data: &[u8]) -> (r: Result<Self>)
        ensures
            data@.len() > CAN_MAX_DLC ==> r == Err::<CanMessage, CanError>(CanError::Param),
            data@.len() <= CAN_MAX_DLC ==> r is Ok,
            r matches Ok(m) ==> {
                &&& m@.kind == FrameKind::Data
                &&& m@.data == data@
                &&& m@.dlc == data@.len() as u8
                &&& m@.timestamp == None::<u64>
                &&& id_fits_format(m@.id, m@.flags)
            },
            I::obeys_into_spec() ==> (r matches Ok(m) ==> m@ == message_view(
                FrameKind::Data,
                id.into_spec().spec_raw(),
                data@,
                data@.len() as u8,
                id.into_spec().spec_format_flag(),
                None,
            )),
    {
        let v: Id = id.into();
        Self::new_with_id(v, data)
    }

    /// Create a CAN FD data frame with the identifier `id`.
    ///
    /// The DLC is rounded up to the nearest valid CAN FD size
    /// (0-8, 12, 16, 20, 24, 32, 48, or 64) and the data payload
    /// is zero-padded to match. The std/ext flag is taken from
    /// the [`Id`] variant. Pass [`Brs::On`] to switch to the faster
    /// data-phase bitrate during the data field.
    ///
    /// Returns `Err(CanError::Param)` if `data.len() > 64`.
    pub fn new_fd_with_id(id: Id, data: &[u8], brs: Brs) -> (r: Result<Self>)
        ensures
            data@.len() > CANFD_MAX_DLC ==> r == Err::<CanMessage, CanError>(CanError::Param),
            data@.len() <= CANFD_MAX_DLC ==> (r matches Ok(m) && m@ == message_view(
                FrameKind::Data,
                id.spec_raw(),
                data@ + Seq::new((spec_fd_dlc(data@.len()) - data@.len()) as nat, |i: int| 0u8),
                spec_fd_dlc(data@.len()) as u8,
                spec_fd_flags(id, brs),
                None,
            )),
            id.spec_in_range(),
    {
        let (raw, flag) = id_to_raw_and_flag(id);
        if data.len() > CANFD_MAX_DLC {
            return Err(CanError::Param);
        }
        let len = data.len();
        let dlc = fd_dlc_for_len(len);
        proof {
            lemma_fd_dlc_is_least_valid_size(len as nat, len as nat);
        }
        let mut padded: Vec<u8> = Vec::with_capacity(dlc);
        let mut i: usize = 0;
        while i < len
            invariant
                i <= len,
                len == data@.len(),
                padded@ == data@.subrange(0, i as int),
            decreases len - i,
        {
            padded.push(data[i]);
            i = i + 1;
        }
        assert(padded@ == data@ + Seq::new(0, |k: int| 0u8));
        while i < dlc
            invariant
                len <= i <= dlc,
                len == data@.len(),
                padded@ == data@ + Seq::new((i - len) as nat, |k: int| 0u8),
            decreases dlc - i,
        {
            padded.push(0u8);
            i = i + 1;
            assert(padded@ == data@ + Seq::new((i - len) as nat, |k: int| 0u8));
        }
        let mut flags = flag.union(MessageFlags::FD());
        if brs == Brs::On {
            flags = flags.union(MessageFlags::BRS());
        }
        Ok(CanMessage::Data(DataFrame { id: raw, data: padded, dlc: dlc as u8, flags, timestamp: None }))
    }

    /// Create a CAN FD data frame.
    ///
    /// The DLC is rounded up to the nearest valid CAN FD size
    /// (0-8, 12, 16, 20, 24, 32, 48, or 64) and the data payload
    /// is zero-padded to match. The std/ext flag is taken from
    /// the [`Id`] variant. Pass [`Brs::On`] to switch to the faster
    /// data-phase bitrate during the data field. Built by
    /// [`CanMessage::new_fd_with_id`] from the identifier that `id` converts into.
    ///
    /// Returns `Err(CanError::Param)` if `data.len() > 64`.
    pub fn new_fd<I: Into<Id>>(id: I, data: &[u8], brs: Brs) -> (r: Result<Self>)
        ensures
            data@.len() > CANFD_MAX_DLC ==> r == Err::<CanMessage, CanError>(CanError::Param),
            data@.len() <= CANFD_MAX_DLC ==> r is Ok,
            r matches Ok(m) ==> {
                &&& m@.kind == FrameKind::Data
                &&& m@.data == data@ + Seq::new((spec_fd_dlc(data@.len()) - data@.len()) as nat, |i: int| 0u8)
                &&& m@.dlc == spec_fd_dlc(data@.len()) as u8
                &&& m@.timestamp == None::<u64>
                &&& exists|format: u32| #[trigger] id_fits_format(m@.id, format) && m@.flags == spec_fd_flags_for(format, brs)
            },
            I::obeys_into_spec() ==> (r matches Ok(m) ==> m@ == message_view(
                FrameKind::Data,
                id.into_spec().spec_raw(),
                data@ + Seq::new((spec_fd_dlc(data@.len()) - data@.len()) as nat, |i: int| 0u8),
                spec_fd_dlc(data@.len()) as u8,
                spec_fd_flags(id.into_spec(), brs),
                None,
            )),
    {
        let v: Id = id.into();
        let r = Self::new_fd_with_id(v, data, brs);
        proof {
            if let Ok(m) = &r {
                assert(id_fits_format(m@.id, v.spec_format_flag()));
            }
        }
        r
    }

    /// Create a Remote Transmission Request frame with the identifier `id`.
    ///
    /// RTR frames carry no data payload — only the requested DLC.
    /// The std/ext flag is taken from the [`Id`] variant.
    ///
    /// Returns `Err(CanError::Param)` if `dlc > 8`.
    pub fn new_remote_with_id(id: Id, dlc: u8) -> (r: Result<Self>)
        ensures
            dlc > CAN_MAX_DLC ==> r == Err::<CanMessage, CanError>(CanError::Param),
            dlc <= CAN_MAX_DLC ==> (r matches Ok(m) && m@ == message_view(
                FrameKind::Remote,
                id.spec_raw(),
                Seq::empty(),
                dlc,
                id.spec_format_flag() | sys::canMSG_RTR,
                None,
            )),
            id.spec_in_range(),
    {
        let (raw, flag) = id_to_raw_and_flag(id);
        if dlc as usize > CAN_MAX_DLC {
            return Err(CanError::Param);
        }
        let flags = flag.union(MessageFlags::RTR());
        Ok(CanMessage::Remote(RemoteFrame { id: raw, dlc, flags, timestamp: None }))
    }

    /// Create a Remote Transmission Request frame.
    ///
    /// RTR frames carry no data payload — only the requested DLC.
    /// The std/ext flag is taken from the [`Id`] variant. Built by
    /// [`CanMessage::new_remote_with_id`] from the identifier that `id` converts into.
    ///
    /// Returns `Err(CanError::Param)` if `dlc > 8`.
    pub fn new_remote<I: Into<Id>>(id: I, dlc: u8) -> (r: Result<Self>)
        ensures
            dlc > CAN_MAX_DLC ==> r == Err::<CanMessage, CanError>(CanError::Param),
            dlc <= CAN_MAX_DLC ==> r is Ok,
            r matches Ok(m) ==> {
                &&& m@.kind == FrameKind::Remote
                &&& m@.data == Seq::<u8>::empty()
                &&& m@.dlc == dlc
                &&& m@.timestamp == None::<u64>
                &&& exists|format: u32| #[trigger] id_fits_format(m@.id, format) && m@.flags == format | sys::canMSG_RTR
            },
            I::obeys_into_spec() ==> (r matches Ok(m) ==> m@ == message_view(
                FrameKind::Remote,
                id.into_spec().spec_raw(),
                Seq::empty(),
                dlc,
                id.into_spec().spec_format_flag() | sys::canMSG_RTR,
                None,
            )),
    {
        let v: Id = id.into();
        let r = Self::new_remote_with_id(v, dlc);
        proof {
            if let Ok(m) = &r {
                assert(id_fits_format(m@.id, v.spec_format_flag()));
            }
        }
        r
    }

    /// Create a message from raw values as read from the driver (no validation).
    ///
    /// Dispatches to the appropriate variant based on flags:
    /// - `ERROR_FRAME` → `CanMessage::Error`
    /// - `RTR` → `CanMessage::Remote` (data discarded)
    /// - otherwise → `CanMessage::Data`
    pub fn from_raw(id: u32, data: Vec<u8>, dlc: u8, flags: MessageFlags, timestamp: u64) -> (m: Self)
        ensures
            m@ == spec_from_raw(id, data@, dlc, flags@, timestamp),
            (m is Error) <==> flags@ & sys::canMSG_ERROR_FRAME != 0,
            (m is Remote) <==> (flags@ & sys::canMSG_ERROR_FRAME == 0 && flags@ & sys::canMSG_RTR != 0),
            (m is Data) <==> (flags@ & sys::canMSG_ERROR_FRAME == 0 && flags@ & sys::canMSG_RTR == 0),
    {
        proof {
            lemma_raw_frame_kind(id, data@, dlc, flags@, timestamp);
        }
        if flags.contains(MessageFlags::ERROR_FRAME()) {
            CanMessage::Error(ErrorFrame { id, data, dlc, flags, timestamp: Some(timestamp) })
        } else if flags.contains(MessageFlags::RTR()) {
            CanMessage::Remote(RemoteFrame { id, dlc, flags, timestamp: Some(timestamp) })
        } else {
            CanMessage::Data(DataFrame { id, data, dlc, flags, timestamp: Some(timestamp) })
        }
    }

    /// CAN identifier (11-bit or 29-bit).
    pub fn id(&self) -> (r: u32)
        ensures
            r == self@.id,
    {
        match self {
            CanMessage::Data(f) => f.id,
            CanMessage::Remote(f) => f.id,
            CanMessage::Error(f) => f.id,
        }
    }

    /// Message data payload. Returns an empty slice for RTR frames.
    pub fn data(&self) -> (r: &[u8])
        ensures
            r@ == self@.data,
    {
        match self {
            CanMessage::Data(f) => f.data.as_slice(),
            CanMessage::Remote(_) => &[],
            CanMessage::Error(f) => f.data.as_slice(),
        }
    }

    /// Data Length Code.
    pub fn dlc(&self) -> (r: u8)
        ensures
            r == self@.dlc,
    {
        match self {
            CanMessage::Data(f) => f.dlc,
            CanMessage::Remote(f) => f.dlc,
            CanMessage::Error(f) => f.dlc,
        }
    }

    /// Message flags.
    pub fn flags(&self) -> (r: MessageFlags)
        ensures
            r@ == self@.flags,
    {
        match self {
            CanMessage::Data(f) => f.flags,
            CanMessage::Remote(f) => f.flags,
            CanMessage::Error(f) => f.flags,
        }
    }

    /// Hardware timestamp in microseconds (populated on receive).
    pub fn timestamp(&self) -> (r: Option<u64>)
        ensures
            r == self@.timestamp,
    {
        match self {
            CanMessage::Data(f) => f.timestamp,
            CanMessage::Remote(f) => f.timestamp,
            CanMessage::Error(f) => f.timestamp,
        }
    }

    /// Returns true if this is a CAN FD message.
    pub fn is_fd(&self) -> (b: bool)
        ensures
            b == has_bits(self@.flags, sys::canFDMSG_FDF),
    {
        self.flags().contains(MessageFlags::FD())
    }

    /// Returns true if this is an extended (29-bit) frame.
    pub fn is_extended(&self) -> (b: bool)
        ensures
            b == has_bits(self@.flags, sys::canMSG_EXT),
    {
        self.flags().contains(MessageFlags::EXT())
    }

    /// Returns true if this is a Remote Transmission Request.
    pub fn is_rtr(&self) -> (b: bool)
        ensures
            b == (self@.kind == FrameKind::Remote),
    {
        matches!(self, CanMessage::Remote(_))
    }

    /// Returns true if this is an error frame.
    pub fn is_error_frame(&self) -> (b: bool)
        ensures
            b == (self@.kind == FrameKind::Error),
    {
        matches!(self, CanMessage::Error(_))
    }
}


/// The 64-byte buffer handed to the driver for a payload: the payload's first
/// (at most 64) bytes, then zeros.
pub open spec fn spec_tx_payload(data: Seq<u8>) -> Seq<u8> {
    Seq::new(CANFD_MAX_DLC as nat, |i: int| if i < data.len() { data[i] } else { 0u8 })
}

/// The view of a message read from the driver: identifier `id`, the first
/// `min(dlc, 64)` bytes of the 64-byte buffer, the DLC truncated to a byte, the named
/// flags among `flags`, and the timestamp.
pub open spec fn spec_from_driver(id: i64, buffer: Seq<u8>, dlc: u32, flags: u32, timestamp: u64) -> MessageView {
    let len: int = if dlc < CANFD_MAX_DLC { dlc as int } else { CANFD_MAX_DLC as int };
    spec_from_raw(id as u32, buffer.subrange(0, len), dlc as u8, flags & message_flags_all(), timestamp)
}

impl CanMessage {
    /// The 64-byte payload buffer to hand to the driver when writing this message.
    pub fn tx_payload(&self) -> (buf: Vec<u8>)
        ensures
            buf@ == spec_tx_payload(self@.data),
    {
        let src = self.data();
        let len = src.len();
        let mut buf: Vec<u8> = Vec::with_capacity(CANFD_MAX_DLC);
        let mut i: usize = 0;
        while i < CANFD_MAX_DLC
            invariant
                i <= CANFD_MAX_DLC,
                len == src@.len(),
                src@ == self@.data,
                buf@.len() == i,
                forall|k: int| 0 <= k < i ==> buf@[k] == spec_tx_payload(self@.data)[k],
            decreases CANFD_MAX_DLC - i,
        {
            if i < len {
                buf.push(src[i]);
            } else {
                buf.push(0u8);
            }
            i = i + 1;
        }
        assert(buf@ =~= spec_tx_payload(self@.data));
        buf
    }

    /// Build the message that the driver reported: `buffer` is the 64-byte receive
    /// buffer, and `id`, `dlc`, `flags` and `timestamp` are the values the driver wrote.
    pub fn from_driver(id: i64, buffer: &[u8], dlc: u32, flags: u32, timestamp: u64) -> (m: Self)
        requires
            buffer@.len() == CANFD_MAX_DLC,
        ensures
            m@ == spec_from_driver(id, buffer@, dlc, flags, timestamp),
            (m is Error) <==> flags & sys::canMSG_ERROR_FRAME != 0,
            (m is Remote) <==> (flags & sys::canMSG_ERROR_FRAME == 0 && flags & sys::canMSG_RTR != 0),
            (m is Data) <==> (flags & sys::canMSG_ERROR_FRAME == 0 && flags & sys::canMSG_RTR == 0),
    {
        proof {
            lemma_driver_frame_kind(id, buffer@, dlc, flags, timestamp);
        }
        let data_len: usize = if (dlc as usize) < CANFD_MAX_DLC { dlc as usize } else { CANFD_MAX_DLC };
        let mut data: Vec<u8> = Vec::with_capacity(data_len);
        let mut i: usize = 0;
        while i < data_len
            invariant
                i <= data_len <= buffer@.len(),
                data@ == buffer@.subrange(0, i as int),
            decreases data_len - i,
        {
            data.push(buffer[i]);
            i = i + 1;
        }
        CanMessage::from_raw(id as u32, data, dlc as u8, MessageFlags::from_bits_truncate(flags), timestamp)
    }
}

/// What a node writes is what it reads back: a message with consistent kind, flags and
/// payload, handed to the driver as its identifier, payload buffer, DLC and flags and
/// read back from there, is the same message with the receive timestamp.
pub proof fn lemma_loopback(m: MessageView, timestamp: u64)
    requires
        is_consistent(m),
    ensures
        spec_from_driver(m.id as i64, spec_tx_payload(m.data), m.dlc as u32, m.flags, timestamp)
            == message_view(m.kind, m.id, m.data, m.dlc, m.flags, Some(timestamp)),
{
    let len: int = m.dlc as int;
    assert((m.id as i64) as u32 == m.id);
    assert((m.dlc as u32) as u8 == m.dlc);
    assert((m.dlc as u32) < CANFD_MAX_DLC ==> (m.dlc as u32) as int == len);
    let read = spec_tx_payload(m.data).subrange(0, len);
    if m.kind != FrameKind::Remote {
        assert(read =~= m.data);
    }
    let v = spec_from_driver(m.id as i64, spec_tx_payload(m.data), m.dlc as u32, m.flags, timestamp);
    assert(v.kind == m.kind);
    assert(v.data =~= m.data);
}


/// A message whose kind agrees with its flags, whose flags are all named, and whose
/// payload length is its DLC (empty for a remote frame), with a DLC of at most 64.
pub open spec fn is_consistent(m: MessageView) -> bool {
    &&& m.kind == spec_kind_of_flags(m.flags)
    &&& m.flags & message_flags_all() == m.flags
    &&& m.kind != FrameKind::Remote ==> m.data.len() == m.dlc
    &&& m.kind == FrameKind::Remote ==> m.data.len() == 0
    &&& m.dlc <= CANFD_MAX_DLC
}

/// The flags that the constructors set: a classic frame carries only its std/ext
/// flag; a CAN FD frame adds FD, and BRS exactly when asked; a remote frame adds RTR.
/// Each is read back as the kind of frame it was built as, extended exactly when its
/// identifier is extended.
pub proof fn lemma_constructor_flags(id: Id, brs: Brs)
    ensures
        ({
            let f = id.spec_format_flag();
            let fd = spec_fd_flags(id, brs);
            let rtr = id.spec_format_flag() | sys::canMSG_RTR;
            &&& spec_kind_of_flags(f) == FrameKind::Data
            &&& spec_kind_of_flags(fd) == FrameKind::Data
            &&& spec_kind_of_flags(rtr) == FrameKind::Remote
            &&& has_bits(f, sys::canMSG_EXT) == (id is Extended)
            &&& has_bits(fd, sys::canMSG_EXT) == (id is Extended)
            &&& has_bits(rtr, sys::canMSG_EXT) == (id is Extended)
            &&& !has_bits(f, sys::canFDMSG_FDF)
            &&& has_bits(fd, sys::canFDMSG_FDF)
            &&& !has_bits(rtr, sys::canFDMSG_FDF)
            &&& has_bits(fd, sys::canFDMSG_BRS) == (brs == Brs::On)
            &&& f & message_flags_all() == f
            &&& fd & message_flags_all() == fd
            &&& rtr & message_flags_all() == rtr
        }),
{
    let s: u32 = sys::canMSG_STD;
    let e: u32 = sys::canMSG_EXT;
    let r: u32 = sys::canMSG_RTR;
    let ef: u32 = sys::canMSG_ERROR_FRAME;
    let fdf: u32 = sys::canFDMSG_FDF;
    let b: u32 = sys::canFDMSG_BRS;
    let all: u32 = message_flags_all();
    assert(message_flags_all() == 0x07FFFFu32) by (bit_vector);
    assert({
        &&& s & ef != ef && s & r != r && s & e != e && s & fdf != fdf && s & all == s
        &&& e & ef != ef && e & r != r && e & e == e && e & fdf != fdf && e & all == e
    }) by (bit_vector)
        requires
            s == 2u32,
            e == 4u32,
            r == 1u32,
            ef == 0x20u32,
            fdf == 0x10000u32,
            all == 0x07FFFFu32,
    ;
    assert({
        &&& (s | fdf) & ef != ef && (s | fdf) & r != r && (s | fdf) & e != e && (s | fdf) & fdf == fdf
        &&& (s | fdf) & b != b && (s | fdf) & all == (s | fdf)
        &&& (e | fdf) & ef != ef && (e | fdf) & r != r && (e | fdf) & e == e && (e | fdf) & fdf == fdf
        &&& (e | fdf) & b != b && (e | fdf) & all == (e | fdf)
        &&& (s | fdf | b) & ef != ef && (s | fdf | b) & r != r && (s | fdf | b) & e != e
        &&& (s | fdf | b) & fdf == fdf && (s | fdf | b) & b == b && (s | fdf | b) & all == (s | fdf | b)
        &&& (e | fdf | b) & ef != ef && (e | fdf | b) & r != r && (e | fdf | b) & e == e
        &&& (e | fdf | b) & fdf == fdf && (e | fdf | b) & b == b && (e | fdf | b) & all == (e | fdf | b)
    }) by (bit_vector)
        requires
            s == 2u32,
            e == 4u32,
            r == 1u32,
            ef == 0x20u32,
            fdf == 0x10000u32,
            b == 0x20000u32,
            all == 0x07FFFFu32,
    ;
    assert({
        &&& (s | r) & ef != ef && (s | r) & r == r && (s | r) & e != e && (s | r) & fdf != fdf
        &&& (s | r) & all == (s | r)
        &&& (e | r) & ef != ef && (e | r) & r == r && (e | r) & e == e && (e | r) & fdf != fdf
        &&& (e | r) & all == (e | r)
    }) by (bit_vector)
        requires
            s == 2u32,
            e == 4u32,
            r == 1u32,
            ef == 0x20u32,
            fdf == 0x10000u32,
            all == 0x07FFFFu32,
    ;
}

/// Every message that the constructors build is consistent, so it reads back
/// unchanged after a trip through the driver (see [`lemma_loopback`]).
pub proof fn lemma_constructed_messages_are_consistent(id: Id, data: Seq<u8>, dlc: u8, brs: Brs)
    ensures
        data.len() <= CAN_MAX_DLC ==> is_consistent(
            message_view(FrameKind::Data, id.spec_raw(), data, data.len() as u8, id.spec_format_flag(), None),
        ),
        data.len() <= CANFD_MAX_DLC ==> is_consistent(
            message_view(
                FrameKind::Data,
                id.spec_raw(),
                data + Seq::new((spec_fd_dlc(data.len()) - data.len()) as nat, |i: int| 0u8),
                spec_fd_dlc(data.len()) as u8,
                spec_fd_flags(id, brs),
                None,
            ),
        ),
        dlc <= CAN_MAX_DLC ==> is_consistent(
            message_view(FrameKind::Remote, id.spec_raw(), Seq::empty(), dlc, id.spec_format_flag() | sys::canMSG_RTR, None),
        ),
{
    lemma_constructor_flags(id, brs);
    if data.len() <= CANFD_MAX_DLC {
        lemma_fd_dlc_is_least_valid_size(data.len(), data.len());
    }
}

} // verus!
