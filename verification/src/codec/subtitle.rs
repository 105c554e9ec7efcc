//! Subtitle transcoder: the time bases that the native transcoder is opened
//! with and the meaning of the native transcoder's status codes.
use crate::codec::bsf::take_packet_result;
use crate::error::Error;
use crate::time::TimeBase;
use vstd::prelude::*;

verus! {

/// A builder for subtitle transcoders (its time bases; the native transcoder
/// is created from codec names or parameters and given options alongside).
pub struct SubtitleTranscoderBuilder {
    input_time_base: TimeBase,
    output_time_base: TimeBase,
}

impl SubtitleTranscoderBuilder {
    /// The input time base (model).
    pub closed spec fn spec_input_time_base(self) -> TimeBase {
        self.input_time_base
    }

    /// The output time base (model).
    pub closed spec fn spec_output_time_base(self) -> TimeBase {
        self.output_time_base
    }

    /// A builder with microseconds as its input and output time bases.
    pub fn new() -> (r: SubtitleTranscoderBuilder)
        ensures
            r.spec_input_time_base().spec_num() == 1,
            r.spec_input_time_base().spec_den() == 1_000_000,
            r.spec_output_time_base().spec_num() == 1,
            r.spec_output_time_base().spec_den() == 1_000_000,
    {
        SubtitleTranscoderBuilder {
            input_time_base: TimeBase::microseconds(),
            output_time_base: TimeBase::microseconds(),
        }
    }

    /// Set the input time base. Note that this sets the output time base; the
    /// input time base stays as it is.
    pub fn input_time_base(self, time_base: TimeBase) -> (r: SubtitleTranscoderBuilder)
        ensures
            r.spec_input_time_base() == self.spec_input_time_base(),
            r.spec_output_time_base() == time_base,
    {
        SubtitleTranscoderBuilder { output_time_base: time_base, ..self }
    }

    /// Set the output time base.
    pub fn output_time_base(self, time_base: TimeBase) -> (r: SubtitleTranscoderBuilder)
        ensures
            r.spec_input_time_base() == self.spec_input_time_base(),
            r.spec_output_time_base() == time_base,
    {
        SubtitleTranscoderBuilder { output_time_base: time_base, ..self }
    }

    /// The time bases as the native transcoder is opened with them: input
    /// numerator and denominator, then output numerator and denominator, each
    /// converted to a C `int` with `as`.
    pub fn open_arguments(&self) -> (r: (i32, i32, i32, i32))
        ensures
            r == (
                self.spec_input_time_base().spec_num() as i32,
                self.spec_input_time_base().spec_den() as i32,
                self.spec_output_time_base().spec_num() as i32,
                self.spec_output_time_base().spec_den() as i32,
            ),
    {
        (
            self.input_time_base.num() as i32,
            self.input_time_base.den() as i32,
            self.output_time_base.num() as i32,
            self.output_time_base.den() as i32,
        )
    }

    /// Build the transcoder, given the status of opening the native one: any
    /// status but 0 is the FFmpeg error with that code; otherwise the
    /// transcoder produces packets in the output time base.
    pub fn build(self, open_status: i32) -> (r: Result<SubtitleTranscoder, Error>)
        ensures
            open_status != 0 ==> (r matches Err(e) && e.spec_code() == Some(open_status)),
            open_status == 0 ==> (r matches Ok(t) && t.spec_output_time_base()
                == self.spec_output_time_base()),
    {
        if open_status != 0 {
            return Err(Error::from_raw_error_code(open_status));
        }
        Ok(SubtitleTranscoder { output_time_base: self.output_time_base })
    }
}

/// A subtitle transcoder (the time base of its output; the native transcoder
/// does the work).
pub struct SubtitleTranscoder {
    output_time_base: TimeBase,
}

impl SubtitleTranscoder {
    /// The output time base (model).
    pub closed spec fn spec_output_time_base(self) -> TimeBase {
        self.output_time_base
    }

    /// Get a builder for a subtitle transcoder.
    pub fn builder() -> (r: SubtitleTranscoderBuilder)
        ensures
            r.spec_input_time_base().spec_num() == 1,
            r.spec_input_time_base().spec_den() == 1_000_000,
            r.spec_output_time_base().spec_num() == 1,
            r.spec_output_time_base().spec_den() == 1_000_000,
    {
        SubtitleTranscoderBuilder::new()
    }

    /// The time base of the transcoded packets.
    pub fn output_time_base(&self) -> (r: TimeBase)
        ensures
            r == self.spec_output_time_base(),
    {
        self.output_time_base
    }

    /// What pushing a packet gave, given the native status and the native
    /// "again" code: "again" and non-negative statuses are accepted, any other
    /// negative status is the FFmpeg error with that code.
    pub fn push_result(status: i32, again_code: i32) -> (r: Result<(), Error>)
        ensures
            (status == again_code || status >= 0) ==> r is Ok,
            (status != again_code && status < 0) ==> (r matches Err(e) && e.spec_code() == Some(
                status,
            )),
    {
        if status != again_code && status < 0 {
            return Err(Error::from_raw_error_code(status));
        }
        Ok(())
    }

    /// What taking a packet gave, given the native status, the native
    /// "again" and "end of stream" codes and whether a packet came back.
    pub fn take_result(&self, status: i32, again_code: i32, eof_code: i32, has_packet: bool) -> (r:
        Result<Option<TimeBase>, Error>)
        requires
            status >= 0 && status != again_code && status != eof_code ==> has_packet,
        ensures
            (status == again_code || status == eof_code) ==> r matches Ok(None),
            (status != again_code && status != eof_code && status < 0) ==> (r matches Err(e)
                && e.spec_code() == Some(status)),
            (status != again_code && status != eof_code && status >= 0) ==> r == Ok::<
                Option<TimeBase>,
                Error,
            >(Some(self.spec_output_time_base())),
    {
        take_packet_result(status, again_code, eof_code, has_packet, self.output_time_base)
    }
}

} // verus!
