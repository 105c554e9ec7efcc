//! Demuxer: how a seek request is put to the native demuxer, how long stream
//! analysis may take, and what reading a packet gave.
use crate::error::Error;
use crate::time::{Duration, TimeBase, Timestamp};
use vstd::prelude::*;

verus! {

/// What a seek position counts.
#[derive(Debug, Copy, Clone, PartialEq, Eq, Structural)]
pub enum SeekType {
    /// A timestamp in microseconds.
    Time,
    /// A byte offset.
    Byte,
    /// A frame index.
    Frame,
}

impl SeekType {
    /// The raw value of the seek type.
    pub open spec fn spec_raw(self) -> i32 {
        match self {
            SeekType::Time => 0,
            SeekType::Byte => 1,
            SeekType::Frame => 2,
        }
    }

    /// Get the raw value of the seek type.
    pub fn to_raw(self) -> (r: i32)
        ensures
            r == self.spec_raw(),
    {
        match self {
            SeekType::Time => 0,
            SeekType::Byte => 1,
            SeekType::Frame => 2,
        }
    }
}

/// Used to specify a search direction when a stream cannot seek exactly to the requested target
/// point; timestamp, frame or byte.
#[derive(Debug, Copy, Clone, PartialEq, Eq, Structural)]
pub enum SeekTarget {
    /// Seek, at least, to the requested target point in the stream. If the target cannot be met
    /// then move forward in the stream until a possible seek target can be hit.
    From,
    /// Seek, at most, to the requested target point in the stream. If the target cannot be met
    /// then move backward in the stream until a possible seek target can be hit.
    UpTo,
    /// Force seeking to the requested target point in the stream, even if the Demuxer for this
    /// type of stream, does not support it.
    Precise,
}

impl SeekTarget {
    /// The raw value of the seek target.
    pub open spec fn spec_raw(self) -> i32 {
        match self {
            SeekTarget::From => 0,
            SeekTarget::UpTo => 1,
            SeekTarget::Precise => 2,
        }
    }

    /// Get the raw value of the seek target.
    pub fn to_raw(self) -> (r: i32)
        ensures
            r == self.spec_raw(),
    {
        match self {
            SeekTarget::From => 0,
            SeekTarget::UpTo => 1,
            SeekTarget::Precise => 2,
        }
    }
}

/// The arguments of a native seek: target position, raw seek type and raw
/// seek target.
#[derive(Debug, Copy, Clone, PartialEq, Eq, Structural)]
pub struct SeekRequest {
    pub position: i64,
    pub seek_type: i32,
    pub seek_target: i32,
}

/// The request for seeking to a timestamp: the position is the timestamp in
/// microseconds; a null timestamp cannot be sought.
pub fn seek_to_timestamp(timestamp: Timestamp, seek_target: SeekTarget) -> (r: Result<
    SeekRequest,
    Error,
>)
    ensures
        timestamp.spec_is_null() ==> (r matches Err(e) && e.spec_message() == Some(
            "Timestamp is null"@,
        )),
        !timestamp.spec_is_null() ==> (r matches Ok(q) && timestamp.spec_micros() == Some(
            q.position as int,
        ) && q.seek_type == SeekType::Time.spec_raw() && q.seek_target == seek_target.spec_raw()),
{
    match timestamp.as_micros() {
        Some(position) => Ok(
            SeekRequest {
                position,
                seek_type: SeekType::Time.to_raw(),
                seek_target: seek_target.to_raw(),
            },
        ),
        None => Err(Error::new("Timestamp is null".to_owned())),
    }
}

/// The request for seeking to a frame index (converted to `i64` with `as`).
pub fn seek_to_frame(frame_index: usize, seek_target: SeekTarget) -> (r: SeekRequest)
    ensures
        r.position == frame_index as i64,
        r.seek_type == SeekType::Frame.spec_raw(),
        r.seek_target == seek_target.spec_raw(),
{
    SeekRequest {
        position: frame_index as i64,
        seek_type: SeekType::Frame.to_raw(),
        seek_target: seek_target.to_raw(),
    }
}

/// The request for seeking to a byte offset (converted to `i64` with `as`);
/// the seek target is always `Precise`.
pub fn seek_to_byte(byte: usize) -> (r: SeekRequest)
    ensures
        r.position == byte as i64,
        r.seek_type == SeekType::Byte.spec_raw(),
        r.seek_target == SeekTarget::Precise.spec_raw(),
{
    SeekRequest {
        position: byte as i64,
        seek_type: SeekType::Byte.to_raw(),
        seek_target: SeekTarget::Precise.to_raw(),
    }
}

/// The longest time that stream analysis may take, in microseconds (as a
/// standard duration counts them: whole microseconds, the rest dropped): the
/// given duration, or 0 (leave it to the native default) when none is given.
/// The microseconds must fit in an `i64`, the type that the native demuxer
/// takes.
pub fn max_analyze_micros(max_analyze_duration: Option<Duration>) -> (r: i64)
    requires
        max_analyze_duration matches Some(d) ==> d.spec_total_nanos() / 1000 <= i64::MAX,
    ensures
        r == match max_analyze_duration {
            Some(d) => d.spec_total_nanos() / 1000,
            None => 0,
        },
{
    match max_analyze_duration {
        None => 0,
        Some(d) => {
            let secs: u64 = d.as_secs();
            let nanos: u32 = d.subsec_nanos();
            proof {
                let total = secs * 1_000_000_000 + nanos;
                assert(total / 1000 == secs * 1_000_000 + nanos / 1000) by (nonlinear_arith)
                    requires
                        total == secs * 1_000_000_000 + nanos,
                        0 <= nanos < 1_000_000_000,
                        secs >= 0,
                ;
            }
            let micros: u128 = (secs as u128) * 1_000_000 + (nanos / 1000) as u128;
            micros as i64
        },
    }
}

/// What reading a packet from the native demuxer gave: an error for a
/// negative status, no packet at the end of the input, and otherwise a packet
/// in the time base that the demuxer reported (its numerator and
/// denominator).
pub fn read_result(status: i32, has_packet: bool, tb_num: u32, tb_den: u32) -> (r: Result<
    Option<TimeBase>,
    Error,
>)
    ensures
        status < 0 ==> (r matches Err(e) && e.spec_code() == Some(status)),
        status >= 0 && !has_packet ==> r matches Ok(None),
        status >= 0 && has_packet ==> (r matches Ok(Some(tb)) && tb.spec_num() == tb_num
            && tb.spec_den() == tb_den),
{
    if status < 0 {
        Err(Error::from_raw_error_code(status))
    } else if !has_packet {
        Ok(None)
    } else {
        Ok(Some(TimeBase::new(tb_num, tb_den)))
    }
}

/// The raw seek types and targets are the native ones, and tell the types
/// (and the targets) apart: time 0, byte 1, frame 2; seeking from the target
/// point 0, up to it 1, precisely 2.
pub proof fn lemma_native_seek_values(a: SeekTarget, b: SeekTarget, c: SeekType, d: SeekType)
    ensures
        SeekTarget::From.spec_raw() == 0,
        SeekTarget::UpTo.spec_raw() == 1,
        SeekTarget::Precise.spec_raw() == 2,
        SeekType::Time.spec_raw() == 0,
        SeekType::Byte.spec_raw() == 1,
        SeekType::Frame.spec_raw() == 2,
        a != b ==> a.spec_raw() != b.spec_raw(),
        c != d ==> c.spec_raw() != d.spec_raw(),
{
}

} // verus!
