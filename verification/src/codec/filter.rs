//! Video filter: the arguments of the filter graph's buffer source, the time
//! bases of the filter's input and output, and the meaning of the native
//! filter graph's status codes.
use crate::codec::{push_status, take_status, CodecError};
use crate::error::Error;
use crate::decimal::{decimal, decimal_of, signed_decimal, signed_decimal_of};
use crate::time::TimeBase;
use vstd::prelude::*;

verus! {

/// The settings of a video filter builder.
pub struct FilterSettings {
    pub width: usize,
    pub height: usize,
    pub pixel_fmt: i32,
    pub pixel_aspect_num: u32,
    pub pixel_aspect_den: u32,
    pub input_time_base: TimeBase,
    pub output_time_base: Option<TimeBase>,
}

/// The buffer source arguments for the settings `s`:
/// `video_size=WxH:pix_fmt=F:time_base=N/D:pixel_aspect=A/B`.
pub open spec fn source_args_of(s: FilterSettings) -> Seq<char> {
    "video_size="@ + decimal_of(s.width as nat) + "x"@ + decimal_of(s.height as nat) + ":pix_fmt="@
        + signed_decimal_of(s.pixel_fmt as int) + ":time_base="@ + decimal_of(
        s.input_time_base.spec_num() as nat,
    ) + "/"@ + decimal_of(s.input_time_base.spec_den() as nat) + ":pixel_aspect="@ + decimal_of(
        s.pixel_aspect_num as nat,
    ) + "/"@ + decimal_of(s.pixel_aspect_den as nat)
}

/// A builder for video filters.
pub struct VideoFilterBuilder {
    width: usize,
    height: usize,
    pixel_fmt: i32,
    pixel_aspect_num: u32,
    pixel_aspect_den: u32,
    input_time_base: TimeBase,
    output_time_base: Option<TimeBase>,
}

impl VideoFilterBuilder {
    /// The settings so far (model).
    pub closed spec fn spec_settings(self) -> FilterSettings {
        FilterSettings {
            width: self.width,
            height: self.height,
            pixel_fmt: self.pixel_fmt,
            pixel_aspect_num: self.pixel_aspect_num,
            pixel_aspect_den: self.pixel_aspect_den,
            input_time_base: self.input_time_base,
            output_time_base: self.output_time_base,
        }
    }

    /// Create a new video filter builder for frames of a given size and pixel
    /// format: pixel aspect ratio 1:1, microsecond input time base, output
    /// time base equal to the input one.
    pub fn new(width: usize, height: usize, pixel_fmt: i32) -> (r: VideoFilterBuilder)
        ensures
            r.spec_settings().width == width,
            r.spec_settings().height == height,
            r.spec_settings().pixel_fmt == pixel_fmt,
            r.spec_settings().pixel_aspect_num == 1,
            r.spec_settings().pixel_aspect_den == 1,
            r.spec_settings().input_time_base.spec_num() == 1,
            r.spec_settings().input_time_base.spec_den() == 1_000_000,
            r.spec_settings().output_time_base is None,
    {
        VideoFilterBuilder {
            width,
            height,
            pixel_fmt,
            pixel_aspect_num: 1,
            pixel_aspect_den: 1,
            input_time_base: TimeBase::microseconds(),
            output_time_base: None,
        }
    }

    /// Set the pixel aspect ratio (the default is `1:1`).
    pub fn pixel_aspect_ratio(self, num: u32, den: u32) -> (r: VideoFilterBuilder)
        ensures
            r.spec_settings() == (FilterSettings {
                pixel_aspect_num: num,
                pixel_aspect_den: den,
                ..self.spec_settings()
            }),
    {
        VideoFilterBuilder { pixel_aspect_num: num, pixel_aspect_den: den, ..self }
    }

    /// Set input time base (the default is `1/1000000`).
    pub fn input_time_base(self, time_base: TimeBase) -> (r: VideoFilterBuilder)
        ensures
            r.spec_settings() == (FilterSettings {
                input_time_base: time_base,
                ..self.spec_settings()
            }),
    {
        VideoFilterBuilder { input_time_base: time_base, ..self }
    }

    /// Set output time base.
    pub fn output_time_base(self, time_base: TimeBase) -> (r: VideoFilterBuilder)
        ensures
            r.spec_settings() == (FilterSettings {
                output_time_base: Some(time_base),
                ..self.spec_settings()
            }),
    {
        VideoFilterBuilder { output_time_base: Some(time_base), ..self }
    }

    /// The arguments of the filter graph's buffer source.
    pub fn source_args(&self) -> (r: String)
        ensures
            r@ == source_args_of(self.spec_settings()),
    {
        let res = String::from_str("video_size=");
        let res = res.concat(decimal(self.width as u64).as_str());
        let res = res.concat("x");
        let res = res.concat(decimal(self.height as u64).as_str());
        let res = res.concat(":pix_fmt=");
        let res = res.concat(signed_decimal(self.pixel_fmt as i64).as_str());
        let res = res.concat(":time_base=");
        let res = res.concat(decimal(self.input_time_base.num() as u64).as_str());
        let res = res.concat("/");
        let res = res.concat(decimal(self.input_time_base.den() as u64).as_str());
        let res = res.concat(":pixel_aspect=");
        let res = res.concat(decimal(self.pixel_aspect_num as u64).as_str());
        let res = res.concat("/");
        res.concat(decimal(self.pixel_aspect_den as u64).as_str())
    }

    /// Build the filter graph, given the statuses of its native steps in
    /// order: creating the buffer source (with `source_args`), creating the
    /// buffer sink, and initializing the graph with the filter description.
    /// The first negative status is the FFmpeg error with that code (a step
    /// after a failed one is not made, and its status is not looked at);
    /// otherwise the filter takes frames in the input time base and gives
    /// frames in the output time base (the input one unless set).
    pub fn build(self, source_status: i32, sink_status: i32, init_status: i32) -> (r: Result<
        VideoFilter,
        Error,
    >)
        ensures
            source_status < 0 ==> (r matches Err(e) && e.spec_code() == Some(source_status)),
            source_status >= 0 && sink_status < 0 ==> (r matches Err(e) && e.spec_code() == Some(
                sink_status,
            )),
            source_status >= 0 && sink_status >= 0 && init_status < 0 ==> (r matches Err(e)
                && e.spec_code() == Some(init_status)),
            (source_status >= 0 && sink_status >= 0 && init_status >= 0) <==> r is Ok,
            r matches Ok(f) ==> f.spec_input_time_base() == self.spec_settings().input_time_base
                && f.spec_output_time_base() == match self.spec_settings().output_time_base {
                Some(tb) => tb,
                None => self.spec_settings().input_time_base,
            },
    {
        let output_time_base = match self.output_time_base {
            Some(tb) => tb,
            None => self.input_time_base,
        };
        if source_status < 0 {
            return Err(Error::from_raw_error_code(source_status));
        }
        if sink_status < 0 {
            return Err(Error::from_raw_error_code(sink_status));
        }
        if init_status < 0 {
            return Err(Error::from_raw_error_code(init_status));
        }
        Ok(VideoFilter { input_time_base: self.input_time_base, output_time_base })
    }
}

/// Video filter (its time bases; the native filter graph does the work).
pub struct VideoFilter {
    input_time_base: TimeBase,
    output_time_base: TimeBase,
}

impl VideoFilter {
    pub closed spec fn spec_input_time_base(self) -> TimeBase {
        self.input_time_base
    }

    pub closed spec fn spec_output_time_base(self) -> TimeBase {
        self.output_time_base
    }

    /// Get a video filter builder.
    pub fn builder(width: usize, height: usize, pixel_fmt: i32) -> (r: VideoFilterBuilder)
        ensures
            r.spec_settings().width == width,
            r.spec_settings().height == height,
            r.spec_settings().pixel_fmt == pixel_fmt,
            r.spec_settings().pixel_aspect_num == 1,
            r.spec_settings().pixel_aspect_den == 1,
            r.spec_settings().input_time_base.spec_num() == 1,
            r.spec_settings().input_time_base.spec_den() == 1_000_000,
            r.spec_settings().output_time_base is None,
    {
        VideoFilterBuilder::new(width, height, pixel_fmt)
    }

    /// The time base of frames pushed into the filter.
    pub fn input_time_base(&self) -> (r: TimeBase)
        ensures
            r == self.spec_input_time_base(),
    {
        self.input_time_base
    }

    /// The time base of frames taken from the filter.
    pub fn output_time_base(&self) -> (r: TimeBase)
        ensures
            r == self.spec_output_time_base(),
    {
        self.output_time_base
    }

    /// What pushing a frame (rescaled into the input time base) gave, given
    /// the native status.
    pub fn push_result(status: i32) -> (r: Result<(), CodecError>)
        ensures
            status == 1 ==> r is Ok,
            status == 0 ==> (r matches Err(e) && e.spec_is_again() && e.spec_again_message()
                == Some("all frames must be consumed before pushing a new frame"@)),
            status != 0 && status != 1 ==> (r matches Err(e) && !e.spec_is_again() && (
            e.spec_inner() matches Some(inner) && inner.spec_code() == Some(status))),
    {
        push_status(status, "all frames must be consumed before pushing a new frame".to_owned())
    }

    /// What flushing the filter gave, given the native status.
    pub fn flush_result(status: i32) -> (r: Result<(), CodecError>)
        ensures
            status == 1 ==> r is Ok,
            status == 0 ==> (r matches Err(e) && e.spec_is_again() && e.spec_again_message()
                == Some("all frames must be consumed before flushing"@)),
            status != 0 && status != 1 ==> (r matches Err(e) && !e.spec_is_again() && (
            e.spec_inner() matches Some(inner) && inner.spec_code() == Some(status))),
    {
        push_status(status, "all frames must be consumed before flushing".to_owned())
    }

    /// What taking a frame gave, given the native status: a frame in the
    /// output time base, nothing for now, or the FFmpeg error with that
    /// code.
    pub fn take_result(&self, status: i32) -> (r: Result<Option<TimeBase>, Error>)
        ensures
            status == 1 ==> r == Ok::<Option<TimeBase>, Error>(Some(self.spec_output_time_base())),
            status == 0 ==> r matches Ok(None),
            status != 0 && status != 1 ==> (r matches Err(e) && e.spec_code() == Some(status)),
    {
        match take_status(status) {
            Ok(true) => Ok(Some(self.output_time_base)),
            Ok(false) => Ok(None),
            Err(e) => Err(e),
        }
    }
}

} // verus!
