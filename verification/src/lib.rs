//! Kvaser CANLib support: CAN and CAN FD messages, status codes and bus
//! parameters, and the decisions of a CAN channel, each with a verified contract.
//! The driver calls themselves are made by the caller, who hands the values the
//! driver returned to the functions here.

use vstd::prelude::*;

pub mod bus_params;
pub mod channel;
pub mod embedded_hal;
pub mod error;
pub mod message;
pub mod status;
pub mod sys;

pub use bus_params::{Bitrate, BusParams, BusParamsTq, DriverType, FdBitrate};
pub use channel::{BusOp, CanBusControl, CanChannel, CanDiagnostics, CanRead, CanWrite, Channel, OpenFlags};
pub use embedded_hal::{decode_error_frame, EmbeddedCanError, ErrorKind, NbError};
pub use error::{check_handle, check_status, CanError, Result};
pub use message::{
    Brs, CanMessage, DataFrame, ErrorFrame, ExtendedId, Id, MessageFlags, RemoteFrame, StandardId,
    CANFD_MAX_DLC, CAN_EXT_ID_MAX, CAN_MAX_DLC, CAN_STD_ID_MAX,
};
pub use status::{BusStatistics, BusStatus, ErrorCounters};

verus! {

/// Buffer size for channel data string queries and error text lookups.
pub const CHANNEL_DATA_BUF_SIZE: usize = 256;

/// The (major, minor) CANLib version from the driver's packed version word:
/// the major version in the high byte, the minor in the low byte.
pub fn version_from_raw(v: u16) -> (r: (u8, u8))
    ensures
        r.0 == v / 256,
        r.1 == v % 256,
{
    assert((v >> 8u16) == v / 256 && (v >> 8u16) < 256) by (bit_vector);
    assert((v & 0xFFu16) == v % 256) by (bit_vector);
    ((v >> 8u16) as u8, (v & 0xFFu16) as u8)
}

/// The length of the NUL-terminated text in `buf`: the position of its first zero
/// byte, or the whole buffer when it holds none.
pub fn c_str_len(buf: &[u8]) -> (n: usize)
    ensures
        n <= buf@.len(),
        forall|i: int| 0 <= i < n ==> buf@[i] != 0,
        n < buf@.len() ==> buf@[n as int] == 0,
        n == spec_c_str_len(buf@),
{
    let mut i: usize = 0;
    while i < buf.len()
        invariant
            i <= buf@.len(),
            forall|k: int| 0 <= k < i ==> buf@[k] != 0,
        decreases buf@.len() - i,
    {
        if buf[i] == 0 {
            proof {
                lemma_c_str_len(buf@, i as nat);
            }
            return i;
        }
        i = i + 1;
    }
    proof {
        lemma_c_str_len(buf@, i as nat);
    }
    i
}

/// The length of the NUL-terminated text in `buf`: the number of bytes before its
/// first zero byte.
pub open spec fn spec_c_str_len(buf: Seq<u8>) -> nat
    decreases buf.len(),
{
    if buf.len() == 0 || buf[0] == 0 {
        0
    } else {
        1 + spec_c_str_len(buf.drop_first())
    }
}

/// A length with no zero byte before it, that ends at a zero byte or at the end
/// of the buffer, is the length of the NUL-terminated text.
proof fn lemma_c_str_len(buf: Seq<u8>, n: nat)
    requires
        n <= buf.len(),
        forall|i: int| 0 <= i < n ==> buf[i] != 0,
        n < buf.len() ==> buf[n as int] == 0,
    ensures
        n == spec_c_str_len(buf),
    decreases buf.len(),
{
    if buf.len() > 0 && buf[0] != 0 {
        let rest = buf.drop_first();
        assert(n > 0);
        assert forall|i: int| 0 <= i < n - 1 implies rest[i] != 0 by {
            assert(rest[i] == buf[i + 1]);
        }
        if n - 1 < rest.len() {
            assert(rest[n - 1] == buf[n as int]);
        }
        lemma_c_str_len(rest, (n - 1) as nat);
    }
}

/// What a byte string decodes to under std's `String::from_utf8_lossy`: its text
/// as UTF-8, with each invalid sequence replaced by U+FFFD.
pub uninterp spec fn utf8_lossy(bytes: Seq<u8>) -> Seq<char>;

/// Decodes `bytes` with std's `String::from_utf8_lossy`. Trusted, not proved: that
/// the text is the named result [`utf8_lossy`] of the bytes, and that bytes that
/// are all ASCII decode to the same characters, one for one (ASCII is valid UTF-8,
/// and each ASCII byte is its own code point).
#[verifier::external_body]
fn string_from_utf8_lossy(bytes: &[u8]) -> (s: String)
    ensures
        s@ == utf8_lossy(bytes@),
        (forall|i: int| 0 <= i < bytes@.len() ==> bytes@[i] < 0x80) ==> s@ == bytes@.map_values(|b: u8| b as char),
{
    String::from_utf8_lossy(bytes).into_owned()
}

/// The text held by a NUL-terminated byte buffer as the driver fills it: the bytes
/// before the first zero byte (all of them when there is none), decoded as UTF-8.
pub open spec fn spec_c_str_text(buf: Seq<u8>) -> Seq<char> {
    utf8_lossy(buf.take(spec_c_str_len(buf) as int))
}

/// The text held by a NUL-terminated byte buffer as the driver fills it.
pub fn c_str_text(buf: &[u8]) -> (s: String)
    ensures
        s@ == spec_c_str_text(buf@),
{
    let n = c_str_len(buf);
    let (head, _) = buf.split_at(n);
    assert(head@ == buf@.take(n as int));
    string_from_utf8_lossy(head)
}

/// Information about a CAN channel.
#[derive(Debug, Clone)]
pub struct ChannelInfo {
    /// Channel index.
    pub index: i32,
    /// Channel name.
    pub name: String,
    /// Device description.
    pub device_description: String,
    /// Card serial number.
    pub serial_number: u64,
}

/// The information on channel `index` from the driver's answers to its queries:
/// the channel-name and device-description buffers, NUL-terminated, and the card
/// serial number.
pub fn channel_info(index: i32, name: &[u8], desc: &[u8], serial: u64) -> (info: ChannelInfo)
    ensures
        info.index == index,
        info.name@ == spec_c_str_text(name@),
        info.device_description@ == spec_c_str_text(desc@),
        info.serial_number == serial,
{
    ChannelInfo { index, name: c_str_text(name), device_description: c_str_text(desc), serial_number: serial }
}

/// A call of `query` for channel index `j` can return `Ok`.
pub open spec fn query_succeeded<F: Fn(i32) -> Result<ChannelInfo>>(query: F, j: i32) -> bool {
    exists|info: ChannelInfo| #[trigger] call_ensures(query, (j,), Ok::<ChannelInfo, CanError>(info))
}

/// The list of the first `count` channels (none when `count` is not positive),
/// built by asking `query` for each channel index in turn, from 0 up.
///
/// Stops at the first query that fails and returns its error, with no partial
/// list: on success the list has one entry per channel, the `i`-th being what the
/// query for index `i` returned; on failure the error is what the query for some
/// index `k` returned, after the queries for all lower indices succeeded.
pub fn collect_channel_list<F: Fn(i32) -> Result<ChannelInfo>>(count: i32, query: F) -> (r: Result<Vec<ChannelInfo>>)
    requires
        forall|i: i32| 0 <= i < count ==> call_requires(query, (i,)),
    ensures
        r matches Ok(v) ==> {
            &&& v@.len() == (if count > 0 { count as int } else { 0 })
            &&& forall|i: int| 0 <= i < v@.len() ==> call_ensures(query, (i as i32,), Ok::<ChannelInfo, CanError>(#[trigger] v@[i]))
        },
        r matches Err(e) ==> exists|k: i32| {
            &&& 0 <= k < count
            &&& call_ensures(query, (k,), Err::<ChannelInfo, CanError>(e))
            &&& forall|j: i32| 0 <= j < k ==> #[trigger] query_succeeded(query, j)
        },
{
    let mut list: Vec<ChannelInfo> = Vec::new();
    let mut i: i32 = 0;
    while i < count
        invariant
            0 <= i,
            count > 0 ==> i <= count,
            count <= 0 ==> i == 0,
            list@.len() == i,
            forall|j: i32| 0 <= j < count ==> call_requires(query, (j,)),
            forall|k: int| 0 <= k < list@.len() ==> call_ensures(query, (k as i32,), Ok::<ChannelInfo, CanError>(#[trigger] list@[k])),
        decreases count - i,
    {
        match query(i) {
            Ok(info) => {
                list.push(info);
            },
            Err(e) => {
                proof {
                    assert forall|j: i32| 0 <= j < i implies #[trigger] query_succeeded(query, j) by {
                        assert(call_ensures(query, ((j as int) as i32,), Ok::<ChannelInfo, CanError>(list@[j as int])));
                    }
                }
                return Err(e);
            },
        }
        i = i + 1;
    }
    Ok(list)
}

/// The text for status `code` from the driver's answer to an error-text query:
/// the text it wrote into `buf` when its status is non-negative, else
/// `Unknown error (N)`.
pub fn error_text(code: i32, status: sys::canStatus, buf: &[u8]) -> (s: String)
    ensures
        s@ == (if status >= 0 { spec_c_str_text(buf@) } else { error::spec_fallback_error_text(code) }),
{
    if status >= 0 {
        c_str_text(buf)
    } else {
        error::fallback_error_text(code)
    }
}

} // verus!
