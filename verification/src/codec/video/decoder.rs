//! Video decoder: its time base, the packets handed to it (rescaled into that
//! time base) and the meaning of the native decoder's status codes.
use crate::codec::{push_status, take_status, CodecError};
use crate::error::Error;
use crate::packet::{rescale_raw, Packet, PacketView};
use crate::time::TimeBase;
use vstd::prelude::*;

verus! {

/// Builder for a video decoder (its time base; the native decoder is created
/// by codec name or from codec parameters and given options alongside).
pub struct VideoDecoderBuilder {
    time_base: TimeBase,
}

impl VideoDecoderBuilder {
    /// The time base (model).
    pub closed spec fn spec_time_base(self) -> TimeBase {
        self.time_base
    }

    /// A builder with microseconds as its time base.
    pub fn new() -> (r: VideoDecoderBuilder)
        ensures
            r.spec_time_base().spec_num() == 1,
            r.spec_time_base().spec_den() == 1_000_000,
    {
        VideoDecoderBuilder { time_base: TimeBase::microseconds() }
    }

    /// Set the decoder time base: the time base of the packets that the
    /// decoder is given and of the frames that it produces.
    pub fn time_base(self, time_base: TimeBase) -> (r: VideoDecoderBuilder)
        ensures
            r.spec_time_base() == time_base,
    {
        VideoDecoderBuilder { time_base }
    }

    /// Build the decoder, given the status of opening the native one: any
    /// status but 0 means that the decoder could not be built.
    pub fn build(self, open_status: i32) -> (r: Result<VideoDecoder, Error>)
        ensures
            open_status != 0 ==> (r matches Err(e) && e.spec_message() == Some(
                "unable to build the decoder"@,
            )),
            open_status == 0 ==> (r matches Ok(d) && d.spec_time_base() == self.spec_time_base()),
    {
        if open_status != 0 {
            return Err(Error::new("unable to build the decoder".to_owned()));
        }
        Ok(VideoDecoder { time_base: self.time_base })
    }
}

/// A video decoder (its time base; the native decoder does the work).
pub struct VideoDecoder {
    time_base: TimeBase,
}

impl VideoDecoder {
    /// The time base (model).
    pub closed spec fn spec_time_base(self) -> TimeBase {
        self.time_base
    }

    /// Get a builder for a video decoder.
    pub fn builder() -> (r: VideoDecoderBuilder)
        ensures
            r.spec_time_base().spec_num() == 1,
            r.spec_time_base().spec_den() == 1_000_000,
    {
        VideoDecoderBuilder::new()
    }

    /// The decoder time base (also that of the decoded frames).
    pub fn time_base(&self) -> (r: TimeBase)
        ensures
            r == self.spec_time_base(),
    {
        self.time_base
    }

    /// A packet as the decoder is given it: rescaled into the decoder time
    /// base.
    pub fn packet_for_decoding(&self, packet: Packet) -> (r: Packet)
        ensures
            r@ == (PacketView {
                pts: rescale_raw(packet@.pts, packet@.time_base, self.spec_time_base()),
                dts: rescale_raw(packet@.dts, packet@.time_base, self.spec_time_base()),
                time_base: self.spec_time_base(),
                ..packet@
            }),
    {
        packet.with_time_base(self.time_base)
    }

    /// What pushing a packet gave, given the native status.
    pub fn push_result(status: i32) -> (r: Result<(), CodecError>)
        ensures
            status == 1 ==> r is Ok,
            status == 0 ==> (r matches Err(e) && e.spec_is_again() && e.spec_again_message()
                == Some("all frames must be consumed before pushing a new packet"@)),
            status != 0 && status != 1 ==> (r matches Err(e) && !e.spec_is_again() && (
            e.spec_inner() matches Some(inner) && inner.spec_code() == Some(status))),
    {
        push_status(status, "all frames must be consumed before pushing a new packet".to_owned())
    }

    /// What flushing the decoder gave, given the native status.
    pub fn flush_result(status: i32) -> (r: Result<(), CodecError>)
        ensures
            status == 1 ==> r is Ok,
            status == 0 ==> (r matches Err(e) && e.spec_is_again() && e.spec_again_message()
                == Some("all frames must be consumed before flushing"@)),
            status != 0 && status != 1 ==> (r matches Err(e) && !e.spec_is_again() && (
            e.spec_inner() matches Some(inner) && inner.spec_code() == Some(status))),
    {
        push_status(status, "all frames must be consumed before flushing".to_owned())
    }

    /// What taking a frame gave, given the native status: a frame in the
    /// decoder time base, nothing for now, or the FFmpeg error with that
    /// code.
    pub fn take_result(&self, status: i32) -> (r: Result<Option<TimeBase>, Error>)
        ensures
            status == 1 ==> r == Ok::<Option<TimeBase>, Error>(Some(self.spec_time_base())),
            status == 0 ==> r matches Ok(None),
            status != 0 && status != 1 ==> (r matches Err(e) && e.spec_code() == Some(status)),
    {
        match take_status(status) {
            Ok(true) => Ok(Some(self.time_base)),
            Ok(false) => Ok(None),
            Err(e) => Err(e),
        }
    }
}

} // verus!
