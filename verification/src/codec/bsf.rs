//! Bitstream filter: the time bases that the native filter is opened with and
//! the meaning of the native filter's status codes.
use crate::error::Error;
use crate::time::TimeBase;
use vstd::prelude::*;

verus! {

/// What taking a packet from a native bitstream filter or subtitle
/// transcoder gave, given its status, the native "again" and "end of
/// stream" codes, and whether a packet came back: nothing for now on
/// "again" and at the end, an error for any other negative status, and
/// otherwise a packet in the given output time base. A non-negative status
/// always comes with a packet.
pub fn take_packet_result(
    status: i32,
    again_code: i32,
    eof_code: i32,
    has_packet: bool,
    output_time_base: TimeBase,
) -> (r: Result<Option<TimeBase>, Error>)
    requires
        status >= 0 && status != again_code && status != eof_code ==> has_packet,
    ensures
        (status == again_code || status == eof_code) ==> r matches Ok(None),
        (status != again_code && status != eof_code && status < 0) ==> (r matches Err(e)
            && e.spec_code() == Some(status)),
        (status != again_code && status != eof_code && status >= 0) ==> r == Ok::<
            Option<TimeBase>,
            Error,
        >(Some(output_time_base)),
{
    if status == again_code || status == eof_code {
        Ok(None)
    } else if status < 0 {
        Err(Error::from_raw_error_code(status))
    } else {
        Ok(Some(output_time_base))
    }
}

/// A builder for bitstream filters (its time bases; the native filter is
/// created by name and given the codec parameters alongside).
pub struct BitstreamFilterBuilder {
    input_time_base: TimeBase,
    output_time_base: TimeBase,
}

impl BitstreamFilterBuilder {
    /// The input time base (model).
    pub closed spec fn spec_input_time_base(self) -> TimeBase {
        self.input_time_base
    }

    /// The output time base (model).
    pub closed spec fn spec_output_time_base(self) -> TimeBase {
        self.output_time_base
    }

    /// A builder with microseconds as its input and output time bases.
    pub fn new() -> (r: BitstreamFilterBuilder)
        ensures
            r.spec_input_time_base().spec_num() == 1,
            r.spec_input_time_base().spec_den() == 1_000_000,
            r.spec_output_time_base().spec_num() == 1,
            r.spec_output_time_base().spec_den() == 1_000_000,
    {
        BitstreamFilterBuilder {
            input_time_base: TimeBase::microseconds(),
            output_time_base: TimeBase::microseconds(),
        }
    }

    /// Set input time base.
    pub fn input_time_base(self, time_base: TimeBase) -> (r: BitstreamFilterBuilder)
        ensures
            r.spec_input_time_base() == time_base,
            r.spec_output_time_base() == self.spec_output_time_base(),
    {
        BitstreamFilterBuilder { input_time_base: time_base, ..self }
    }

    /// Set output time base.
    pub fn output_time_base(self, time_base: TimeBase) -> (r: BitstreamFilterBuilder)
        ensures
            r.spec_input_time_base() == self.spec_input_time_base(),
            r.spec_output_time_base() == time_base,
    {
        BitstreamFilterBuilder { output_time_base: time_base, ..self }
    }

    /// The time bases as the native filter is initialized with them: input
    /// numerator and denominator, then output numerator and denominator, each
    /// converted to a C `int` with `as`.
    pub fn init_arguments(&self) -> (r: (i32, i32, i32, i32))
        ensures
            r == (
                self.spec_input_time_base().spec_num() as i32,
                self.spec_input_time_base().spec_den() as i32,
                self.spec_output_time_base().spec_num() as i32,
                self.spec_output_time_base().spec_den() as i32,
            ),
    {
        (
            self.input_time_base.num() as i32,
            self.input_time_base.den() as i32,
            self.output_time_base.num() as i32,
            self.output_time_base.den() as i32,
        )
    }

    /// Build the filter, given the status of the native initialization: a
    /// negative status is the FFmpeg error with that code; otherwise the
    /// filter produces packets in the output time base.
    pub fn build(self, init_status: i32) -> (r: Result<BitstreamFilter, Error>)
        ensures
            init_status < 0 ==> (r matches Err(e) && e.spec_code() == Some(init_status)),
            init_status >= 0 ==> (r matches Ok(f) && f.spec_output_time_base()
                == self.spec_output_time_base()),
    {
        if init_status < 0 {
            return Err(Error::from_raw_error_code(init_status));
        }
        Ok(BitstreamFilter { output_time_base: self.output_time_base })
    }
}

/// A bitstream filter (the time base of its output; the native filter does
/// the work).
pub struct BitstreamFilter {
    output_time_base: TimeBase,
}

impl BitstreamFilter {
    /// The output time base (model).
    pub closed spec fn spec_output_time_base(self) -> TimeBase {
        self.output_time_base
    }

    /// Get a builder for a bitstream filter.
    pub fn builder() -> (r: BitstreamFilterBuilder)
        ensures
            r.spec_input_time_base().spec_num() == 1,
            r.spec_input_time_base().spec_den() == 1_000_000,
            r.spec_output_time_base().spec_num() == 1,
            r.spec_output_time_base().spec_den() == 1_000_000,
    {
        BitstreamFilterBuilder::new()
    }

    /// The time base of the filtered packets.
    pub fn output_time_base(&self) -> (r: TimeBase)
        ensures
            r == self.spec_output_time_base(),
    {
        self.output_time_base
    }

    /// What taking a packet gave, given the native status, the native
    /// "again" and "end of stream" codes and whether a packet came back.
    pub fn take_result(&self, status: i32, again_code: i32, eof_code: i32, has_packet: bool) -> (r:
        Result<Option<TimeBase>, Error>)
        requires
            status >= 0 && status != again_code && status != eof_code ==> has_packet,
        ensures
            (status == again_code || status == eof_code) ==> r matches Ok(None),
            (status != again_code && status != eof_code && status < 0) ==> (r matches Err(e)
                && e.spec_code() == Some(status)),
            (status != again_code && status != eof_code && status >= 0) ==> r == Ok::<
                Option<TimeBase>,
                Error,
            >(Some(self.spec_output_time_base())),
    {
        take_packet_result(status, again_code, eof_code, has_packet, self.output_time_base)
    }
}

} // verus!
