use vstd::prelude::*;

use crate::channel::{CanRead, CanWrite};
use crate::error::{CanError, Result};
use crate::message::{
    has_bits, CanMessage, ExtendedId, FrameKind, Id, MessageFlags, StandardId, CAN_MAX_DLC,
};
use crate::sys;

verus! {

/// The kind of a CAN bus error, as the `embedded-can` interface classifies it.
#[derive(Debug, Clone, Copy, PartialEq, Eq, Structural)]
pub enum ErrorKind {
    /// The peripheral receive buffer was overrun.
    Overrun,
    /// A bit error: the bit monitored differs from the bit sent.
    Bit,
    /// A stuff error: six consecutive equal bits in a stuffed field.
    Stuff,
    /// The calculated CRC does not equal the received one.
    Crc,
    /// A fixed-form bit field holds an illegal bit.
    Form,
    /// No dominant bit was monitored during the ACK slot.
    Acknowledge,
    /// A different error occurred.
    Other,
}

/// Error type bridging CANLib errors and CAN bus protocol errors for `embedded-can`.
///
/// `Lib` carries software/driver-layer errors from the CANLib SDK
/// (timeouts, hardware faults, parameter validation, etc.).
///
/// `Bus` carries on-the-wire CAN protocol errors decoded from a received
/// error frame (`Stuff`, `Form`, `Crc`, `Bit`, `Overrun`).
#[derive(Debug, Clone, Copy, PartialEq, Eq, Structural)]
pub enum EmbeddedCanError {
    /// Software/driver-layer error from CANLib.
    Lib(CanError),
    /// CAN bus protocol error decoded from a received error frame.
    Bus(ErrorKind),
}

impl EmbeddedCanError {
    /// The error's kind: `Other` for a library error, the protocol error for a bus error.
    pub fn kind(&self) -> (k: ErrorKind)
        ensures
            k == (match *self {
                EmbeddedCanError::Lib(_) => ErrorKind::Other,
                EmbeddedCanError::Bus(b) => b,
            }),
    {
        match self {
            EmbeddedCanError::Lib(_) => ErrorKind::Other,
            EmbeddedCanError::Bus(k) => *k,
        }
    }
}

impl From<CanError> for EmbeddedCanError {
    fn from(e: CanError) -> (r: EmbeddedCanError)
        ensures
            r == EmbeddedCanError::Lib(e),
    {
        EmbeddedCanError::Lib(e)
    }
}

impl vstd::std_specs::convert::FromSpecImpl<CanError> for EmbeddedCanError {
    open spec fn obeys_from_spec() -> bool {
        true
    }

    open spec fn from_spec(e: CanError) -> EmbeddedCanError {
        EmbeddedCanError::Lib(e)
    }
}

/// The error of a non-blocking operation: it would have to block, or it failed.
#[derive(Debug, Clone, Copy, PartialEq, Eq, Structural)]
pub enum NbError<E> {
    /// A different kind of error.
    Other(E),
    /// This operation requires blocking behavior to complete.
    WouldBlock,
}

/// The bus error that the flags of an error frame report: overrun (hardware or
/// software) first, then stuff, form and CRC errors, then a bit error, else `Other`.
pub open spec fn spec_decode_error_frame(flags: u32) -> ErrorKind {
    if flags & (sys::canMSGERR_HW_OVERRUN | sys::canMSGERR_SW_OVERRUN) != 0 {
        ErrorKind::Overrun
    } else if has_bits(flags, sys::canMSGERR_STUFF) {
        ErrorKind::Stuff
    } else if has_bits(flags, sys::canMSGERR_FORM) {
        ErrorKind::Form
    } else if has_bits(flags, sys::canMSGERR_CRC) {
        ErrorKind::Crc
    } else if flags & (sys::canMSGERR_BIT0 | sys::canMSGERR_BIT1) != 0 {
        ErrorKind::Bit
    } else {
        ErrorKind::Other
    }
}

/// Decode the flags of an error frame into an [`ErrorKind`].
///
/// Multiple bits may be set on a single error frame; the most specific
/// protocol error is preferred over `Other`. Overrun (HW or SW) takes
/// precedence to surface buffer-loss conditions explicitly.
pub fn decode_error_frame(flags: MessageFlags) -> (k: ErrorKind)
    ensures
        k == spec_decode_error_frame(flags@),
{
    if flags.intersects(MessageFlags::ERR_HW_OVERRUN().union(MessageFlags::ERR_SW_OVERRUN())) {
        ErrorKind::Overrun
    } else if flags.contains(MessageFlags::ERR_STUFF()) {
        ErrorKind::Stuff
    } else if flags.contains(MessageFlags::ERR_FORM()) {
        ErrorKind::Form
    } else if flags.contains(MessageFlags::ERR_CRC()) {
        ErrorKind::Crc
    } else if flags.intersects(MessageFlags::ERR_BIT0().union(MessageFlags::ERR_BIT1())) {
        ErrorKind::Bit
    } else {
        ErrorKind::Other
    }
}

/// An overrun bit wins over every protocol error bit set beside it, and flags with
/// no error bit decode to `Other`.
pub proof fn lemma_decode_priorities(flags: u32)
    ensures
        flags & sys::canMSGERR_HW_OVERRUN != 0 ==> spec_decode_error_frame(flags) == ErrorKind::Overrun,
        flags & sys::canMSGERR_SW_OVERRUN != 0 ==> spec_decode_error_frame(flags) == ErrorKind::Overrun,
        flags & 0xFE00u32 == 0 ==> spec_decode_error_frame(flags) == ErrorKind::Other,
        spec_decode_error_frame(flags) != ErrorKind::Acknowledge,
{
    assert(flags & sys::canMSGERR_HW_OVERRUN != 0 ==> flags & (sys::canMSGERR_HW_OVERRUN | sys::canMSGERR_SW_OVERRUN) != 0) by (bit_vector);
    assert(flags & sys::canMSGERR_SW_OVERRUN != 0 ==> flags & (sys::canMSGERR_HW_OVERRUN | sys::canMSGERR_SW_OVERRUN) != 0) by (bit_vector);
    assert(flags & 0xFE00u32 == 0 ==> {
        &&& flags & (sys::canMSGERR_HW_OVERRUN | sys::canMSGERR_SW_OVERRUN) == 0
        &&& flags & sys::canMSGERR_STUFF != sys::canMSGERR_STUFF
        &&& flags & sys::canMSGERR_FORM != sys::canMSGERR_FORM
        &&& flags & sys::canMSGERR_CRC != sys::canMSGERR_CRC
        &&& flags & (sys::canMSGERR_BIT0 | sys::canMSGERR_BIT1) == 0
    }) by (bit_vector);
}

/// Which bus error an error frame reports, for every flags value: it depends on the
/// error bits alone (the frame-type, format, FD and other bits never change it), and
/// it is an overrun exactly when an overrun bit is set; else a stuff error exactly
/// when the stuff bit is set; else a form error exactly when the form bit is set;
/// else a CRC error exactly when the CRC bit is set; else a bit error exactly when a
/// bit-error bit is set; and `Other` exactly when no error bit is set.
pub proof fn lemma_decode_error_frame(flags: u32)
    ensures
        spec_decode_error_frame(flags) == spec_decode_error_frame(flags & 0xFE00u32),
        (spec_decode_error_frame(flags) == ErrorKind::Overrun) <==> flags & 0x0600u32 != 0,
        (spec_decode_error_frame(flags) == ErrorKind::Stuff) <==> (flags & 0x0600u32 == 0 && flags & sys::canMSGERR_STUFF != 0),
        (spec_decode_error_frame(flags) == ErrorKind::Form) <==> (flags & 0x0E00u32 == 0 && flags & sys::canMSGERR_FORM != 0),
        (spec_decode_error_frame(flags) == ErrorKind::Crc) <==> (flags & 0x1E00u32 == 0 && flags & sys::canMSGERR_CRC != 0),
        (spec_decode_error_frame(flags) == ErrorKind::Bit) <==> (flags & 0x3E00u32 == 0 && flags & 0xC000u32 != 0),
        (spec_decode_error_frame(flags) == ErrorKind::Other) <==> flags & 0xFE00u32 == 0,
        spec_decode_error_frame(flags) != ErrorKind::Acknowledge,
{
    let e = flags & 0xFE00u32;
    assert({
        &&& (flags & (sys::canMSGERR_HW_OVERRUN | sys::canMSGERR_SW_OVERRUN) != 0) == (flags & 0x0600u32 != 0)
        &&& (flags & sys::canMSGERR_STUFF == sys::canMSGERR_STUFF) == (flags & sys::canMSGERR_STUFF != 0)
        &&& (flags & sys::canMSGERR_FORM == sys::canMSGERR_FORM) == (flags & sys::canMSGERR_FORM != 0)
        &&& (flags & sys::canMSGERR_CRC == sys::canMSGERR_CRC) == (flags & sys::canMSGERR_CRC != 0)
        &&& (flags & (sys::canMSGERR_BIT0 | sys::canMSGERR_BIT1) != 0) == (flags & 0xC000u32 != 0)
        &&& (flags & 0x0E00u32 == 0) == (flags & 0x0600u32 == 0 && flags & sys::canMSGERR_STUFF == 0)
        &&& (flags & 0x1E00u32 == 0) == (flags & 0x0E00u32 == 0 && flags & sys::canMSGERR_FORM == 0)
        &&& (flags & 0x3E00u32 == 0) == (flags & 0x1E00u32 == 0 && flags & sys::canMSGERR_CRC == 0)
        &&& (flags & 0xFE00u32 == 0) == (flags & 0x3E00u32 == 0 && flags & 0xC000u32 == 0)
    }) by (bit_vector);
    assert({
        &&& (e & (sys::canMSGERR_HW_OVERRUN | sys::canMSGERR_SW_OVERRUN) != 0) == (flags & 0x0600u32 != 0)
        &&& (e & sys::canMSGERR_STUFF == sys::canMSGERR_STUFF) == (flags & sys::canMSGERR_STUFF != 0)
        &&& (e & sys::canMSGERR_FORM == sys::canMSGERR_FORM) == (flags & sys::canMSGERR_FORM != 0)
        &&& (e & sys::canMSGERR_CRC == sys::canMSGERR_CRC) == (flags & sys::canMSGERR_CRC != 0)
        &&& (e & (sys::canMSGERR_BIT0 | sys::canMSGERR_BIT1) != 0) == (flags & 0xC000u32 != 0)
    }) by (bit_vector)
        requires
            e == flags & 0xFE00u32,
    ;
}

/// What a non-blocking receive reports for the result of a channel read: an error
/// frame becomes its bus error, a frame is returned as is, an empty queue means
/// "would block", and any other read error is a library error.
pub open spec fn spec_nb_receive(read: Result<CanMessage>) -> core::result::Result<CanMessage, NbError<EmbeddedCanError>> {
    match read {
        Ok(msg) => if msg@.kind == FrameKind::Error {
            Err(NbError::Other(EmbeddedCanError::Bus(spec_decode_error_frame(msg@.flags))))
        } else {
            Ok(msg)
        },
        Err(CanError::NoMsg) => Err(NbError::WouldBlock),
        Err(e) => Err(NbError::Other(EmbeddedCanError::Lib(e))),
    }
}

/// What a non-blocking transmit reports for the result of a channel write: success
/// (nothing replaced), "would block" on a full transmit buffer, else a library error.
pub open spec fn spec_nb_transmit(write: Result<()>) -> core::result::Result<Option<CanMessage>, NbError<EmbeddedCanError>> {
    match write {
        Ok(()) => Ok(None),
        Err(CanError::TxBufOverflow) => Err(NbError::WouldBlock),
        Err(e) => Err(NbError::Other(EmbeddedCanError::Lib(e))),
    }
}

/// The outcome of a non-blocking receive, given the result of the channel read.
pub fn nb_receive_outcome(read: Result<CanMessage>) -> (r: core::result::Result<CanMessage, NbError<EmbeddedCanError>>)
    ensures
        r == spec_nb_receive(read),
{
    match read {
        Ok(msg) => {
            if msg.is_error_frame() {
                Err(NbError::Other(EmbeddedCanError::Bus(decode_error_frame(msg.flags()))))
            } else {
                Ok(msg)
            }
        },
        Err(CanError::NoMsg) => Err(NbError::WouldBlock),
        Err(e) => Err(NbError::Other(EmbeddedCanError::Lib(e))),
    }
}

/// The outcome of a non-blocking transmit, given the result of the channel write.
pub fn nb_transmit_outcome(write: Result<()>) -> (r: core::result::Result<Option<CanMessage>, NbError<EmbeddedCanError>>)
    ensures
        r == spec_nb_transmit(write),
{
    match write {
        Ok(()) => Ok(None),
        Err(CanError::TxBufOverflow) => Err(NbError::WouldBlock),
        Err(e) => Err(NbError::Other(EmbeddedCanError::Lib(e))),
    }
}

/// Non-blocking receive: read once from `chan` and lift "no message" into
/// `WouldBlock` and error frames into bus errors. The result is the outcome
/// ([`spec_nb_receive`]) of what this call of `chan.read()` returned.
pub fn nb_receive<C: CanRead>(chan: &C) -> (r: core::result::Result<CanMessage, NbError<EmbeddedCanError>>)
    ensures
        exists|read: Result<CanMessage>| call_ensures(C::read, (chan,), read) && r == spec_nb_receive(read),
{
    nb_receive_outcome(chan.read())
}

/// Non-blocking transmit: write `frame` once to `chan` and lift "transmit buffer
/// full" into `WouldBlock`. The result is the outcome ([`spec_nb_transmit`]) of
/// what this call of `chan.write(frame)` returned.
pub fn nb_transmit<C: CanWrite>(chan: &C, frame: &CanMessage) -> (r: core::result::Result<Option<CanMessage>, NbError<EmbeddedCanError>>)
    ensures
        exists|write: Result<()>| call_ensures(C::write, (chan, frame), write) && r == spec_nb_transmit(write),
{
    nb_transmit_outcome(chan.write(frame))
}

/// A non-blocking receive never hands out an error frame, and never reports a
/// bus error of kind `Acknowledge`.
pub proof fn lemma_nb_receive_filters_error_frames(read: Result<CanMessage>)
    ensures
        spec_nb_receive(read) matches Ok(m) ==> m@.kind != FrameKind::Error,
        !(spec_nb_receive(read) matches Err(NbError::Other(EmbeddedCanError::Bus(ErrorKind::Acknowledge)))),
        spec_nb_receive(read) matches Err(NbError::Other(EmbeddedCanError::Lib(e))) ==> e != CanError::NoMsg,
{
    match read {
        Ok(msg) => {
            lemma_decode_priorities(msg@.flags);
        },
        Err(_) => {},
    }
}

/// What a non-blocking receive reports, for every read result: a data or remote
/// frame is handed out unchanged; an error frame is the bus error its flags report;
/// "would block" comes exactly from an empty queue; and every other read error is
/// reported as that library error.
pub proof fn lemma_nb_receive_outcomes(read: Result<CanMessage>)
    ensures
        read matches Ok(m) ==> ((m is Data || m is Remote) ==> spec_nb_receive(read) == Ok::<CanMessage, NbError<EmbeddedCanError>>(m)),
        read matches Ok(m) ==> (m is Error ==> spec_nb_receive(read)
            == Err::<CanMessage, NbError<EmbeddedCanError>>(NbError::Other(EmbeddedCanError::Bus(spec_decode_error_frame(m@.flags))))),
        (spec_nb_receive(read) == Err::<CanMessage, NbError<EmbeddedCanError>>(NbError::WouldBlock)) <==> read == Err::<CanMessage, CanError>(CanError::NoMsg),
        read matches Err(e) ==> (e != CanError::NoMsg ==> spec_nb_receive(read)
            == Err::<CanMessage, NbError<EmbeddedCanError>>(NbError::Other(EmbeddedCanError::Lib(e)))),
{
    if let Ok(m) = read {
        crate::message::lemma_message_kind(m);
    }
}

/// What a non-blocking transmit reports, for every write result: success exactly
/// when the write succeeded, and then nothing replaced; "would block" for a full
/// transmit buffer; and every other write error reported as that library error.
pub proof fn lemma_nb_transmit_outcomes(write: Result<()>)
    ensures
        spec_nb_transmit(write) is Ok <==> write is Ok,
        write is Ok ==> spec_nb_transmit(write) == Ok::<Option<CanMessage>, NbError<EmbeddedCanError>>(None),
        write == Err::<(), CanError>(CanError::TxBufOverflow) ==> spec_nb_transmit(write)
            == Err::<Option<CanMessage>, NbError<EmbeddedCanError>>(NbError::WouldBlock),
        write matches Err(e) ==> (e != CanError::TxBufOverflow ==> spec_nb_transmit(write)
            == Err::<Option<CanMessage>, NbError<EmbeddedCanError>>(NbError::Other(EmbeddedCanError::Lib(e)))),
{
}

/// Effectively-infinite timeout for blocking calls, in milliseconds: `u32::MAX` ms,
/// about 49.7 days.
pub const FOREVER_MS: u64 = 4294967295;

/// One round of a blocking transmit, given the result of a write-and-wait:
/// `None` asks for another round (the wait timed out), `Some` is the final outcome.
pub fn blocking_transmit_step(write: Result<()>) -> (r: Option<core::result::Result<(), EmbeddedCanError>>)
    ensures
        r == (match write {
            Ok(()) => Some(Ok(())),
            Err(CanError::Timeout) => None,
            Err(e) => Some(Err(EmbeddedCanError::Lib(e))),
        }),
{
    match write {
        Ok(()) => Some(Ok(())),
        Err(CanError::Timeout) => None,
        Err(e) => Some(Err(EmbeddedCanError::Lib(e))),
    }
}

/// One round of a blocking receive, given the result of a read-with-wait:
/// `None` asks for another round (the wait timed out), `Some` is the final outcome,
/// with an error frame surfaced as its bus error.
pub fn blocking_receive_step(read: Result<CanMessage>) -> (r: Option<core::result::Result<CanMessage, EmbeddedCanError>>)
    ensures
        r == (match read {
            Ok(msg) => if msg@.kind == FrameKind::Error {
                Some(Err(EmbeddedCanError::Bus(spec_decode_error_frame(msg@.flags))))
            } else {
                Some(Ok(msg))
            },
            Err(CanError::Timeout) => None,
            Err(e) => Some(Err(EmbeddedCanError::Lib(e))),
        }),
{
    match read {
        Ok(msg) => {
            if msg.is_error_frame() {
                Some(Err(EmbeddedCanError::Bus(decode_error_frame(msg.flags()))))
            } else {
                Some(Ok(msg))
            }
        },
        Err(CanError::Timeout) => None,
        Err(e) => Some(Err(EmbeddedCanError::Lib(e))),
    }
}


/// A classic data frame for `embedded-can`'s `Frame::new`: `None` when the payload
/// is longer than 8 bytes.
pub fn frame_new(id: Id, data: &[u8]) -> (r: Option<CanMessage>)
    ensures
        r is Some <==> data@.len() <= CAN_MAX_DLC,
        r matches Some(m) ==> m@ == crate::message::message_view(
            FrameKind::Data,
            id.spec_raw(),
            data@,
            data@.len() as u8,
            id.spec_format_flag(),
            None,
        ),
{
    match CanMessage::new_with_id(id, data) {
        Ok(m) => Some(m),
        Err(_) => None,
    }
}

/// A remote frame for `embedded-can`'s `Frame::new_remote`: `None` when the
/// requested DLC is above 8.
pub fn frame_new_remote(id: Id, dlc: usize) -> (r: Option<CanMessage>)
    ensures
        r is Some <==> dlc <= CAN_MAX_DLC,
        r matches Some(m) ==> m@ == crate::message::message_view(
            FrameKind::Remote,
            id.spec_raw(),
            Seq::empty(),
            dlc as u8,
            id.spec_format_flag() | sys::canMSG_RTR,
            None,
        ),
{
    if dlc > CAN_MAX_DLC {
        return None;
    }
    match CanMessage::new_remote_with_id(id, dlc as u8) {
        Ok(m) => Some(m),
        Err(_) => None,
    }
}

/// The identifier that `embedded-can`'s `Frame::id` reports for a message with raw
/// identifier `raw` and flags `flags`: extended when the EXT flag is set, and the
/// zero identifier when the raw value is out of the format's range (a standard
/// identifier takes the low 16 bits of the raw value).
pub open spec fn spec_frame_id_raw(raw: u32, flags: u32) -> u32 {
    if has_bits(flags, sys::canMSG_EXT) {
        if raw <= crate::message::CAN_EXT_ID_MAX { raw } else { 0 }
    } else {
        if (raw as u16) <= crate::message::CAN_STD_ID_MAX { (raw as u16) as u32 } else { 0 }
    }
}

/// The identifier of a message as `embedded-can`'s `Frame::id` reports it.
pub fn frame_id(msg: &CanMessage) -> (id: Id)
    ensures
        (id is Extended) == has_bits(msg@.flags, sys::canMSG_EXT),
        id.spec_raw() == spec_frame_id_raw(msg@.id, msg@.flags),
{
    let raw = msg.id();
    if msg.is_extended() {
        match ExtendedId::new(raw) {
            Some(e) => Id::Extended(e),
            None => Id::Extended(ExtendedId::ZERO()),
        }
    } else {
        match StandardId::new(raw as u16) {
            Some(s) => Id::Standard(s),
            None => Id::Standard(StandardId::ZERO()),
        }
    }
}

/// `Frame::id` reports a message's own identifier whenever it is within the range
/// of the message's format (at most `0x1FFF_FFFF` with the EXT bit set, at most
/// `0x7FF` without), whatever other flag bits (FD, BRS, RTR, TXACK, ...) are set.
pub proof fn lemma_frame_id_reports_raw_id(raw: u32, flags: u32)
    requires
        flags & sys::canMSG_EXT != 0 ==> raw <= crate::message::CAN_EXT_ID_MAX,
        flags & sys::canMSG_EXT == 0 ==> raw <= crate::message::CAN_STD_ID_MAX,
    ensures
        spec_frame_id_raw(raw, flags) == raw,
{
    assert((flags & sys::canMSG_EXT == sys::canMSG_EXT) == (flags & sys::canMSG_EXT != 0)) by (bit_vector);
    assert(raw <= 0x7FF ==> (raw as u16) as u32 == raw) by (bit_vector);
}

/// Every frame that the constructors build reports, through `Frame::id`, the
/// identifier it was built from, classic, CAN FD (with or without BRS) or remote,
/// and is extended exactly when that identifier is.
pub proof fn lemma_frame_id_of_constructed(id: Id, brs: crate::message::Brs)
    requires
        id.spec_in_range(),
    ensures
        ({
            let classic = id.spec_format_flag();
            let fd = crate::message::spec_fd_flags(id, brs);
            let remote = id.spec_format_flag() | sys::canMSG_RTR;
            &&& spec_frame_id_raw(id.spec_raw(), classic) == id.spec_raw()
            &&& spec_frame_id_raw(id.spec_raw(), fd) == id.spec_raw()
            &&& spec_frame_id_raw(id.spec_raw(), remote) == id.spec_raw()
            &&& has_bits(classic, sys::canMSG_EXT) == (id is Extended)
            &&& has_bits(fd, sys::canMSG_EXT) == (id is Extended)
            &&& has_bits(remote, sys::canMSG_EXT) == (id is Extended)
        }),
{
    let fd = crate::message::spec_fd_flags(id, brs);
    crate::message::lemma_constructor_flags(id, brs);
    assert(sys::canMSG_STD & sys::canMSG_EXT == 0 && sys::canMSG_EXT & sys::canMSG_EXT != 0
        && (sys::canMSG_STD | sys::canMSG_RTR) & sys::canMSG_EXT == 0
        && (sys::canMSG_EXT | sys::canMSG_RTR) & sys::canMSG_EXT != 0
        && (sys::canMSG_STD | sys::canMSG_RTR) & sys::canMSG_EXT != sys::canMSG_EXT
        && (sys::canMSG_EXT | sys::canMSG_RTR) & sys::canMSG_EXT == sys::canMSG_EXT
        && sys::canMSG_STD & sys::canMSG_EXT != sys::canMSG_EXT
        && sys::canMSG_EXT & sys::canMSG_EXT == sys::canMSG_EXT) by (bit_vector);
    assert((fd & sys::canMSG_EXT == sys::canMSG_EXT) == (fd & sys::canMSG_EXT != 0)) by (bit_vector);
    lemma_frame_id_reports_raw_id(id.spec_raw(), id.spec_format_flag());
    lemma_frame_id_reports_raw_id(id.spec_raw(), id.spec_format_flag() | sys::canMSG_RTR);
    lemma_frame_id_reports_raw_id(id.spec_raw(), fd);
}

/// An identifier survives a frame: the frame built from `id` by `Frame::new` or
/// `Frame::new_remote` reports `id` back through `Frame::id`.
pub proof fn lemma_frame_id_round_trip(id: Id, remote: bool)
    requires
        id.spec_in_range(),
    ensures
        ({
            let flags = if remote { id.spec_format_flag() | sys::canMSG_RTR } else { id.spec_format_flag() };
            &&& has_bits(flags, sys::canMSG_EXT) == (id is Extended)
            &&& spec_frame_id_raw(id.spec_raw(), flags) == id.spec_raw()
        }),
{
    let raw = id.spec_raw();
    assert(raw <= 0x7FF ==> (raw as u16) as u32 == raw) by (bit_vector);
    assert((sys::canMSG_STD | sys::canMSG_RTR) & sys::canMSG_EXT != sys::canMSG_EXT) by (bit_vector);
    assert((sys::canMSG_EXT | sys::canMSG_RTR) & sys::canMSG_EXT == sys::canMSG_EXT) by (bit_vector);
    assert(sys::canMSG_STD & sys::canMSG_EXT != sys::canMSG_EXT) by (bit_vector);
    assert(sys::canMSG_EXT & sys::canMSG_EXT == sys::canMSG_EXT) by (bit_vector);
}

} // verus!
