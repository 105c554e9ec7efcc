//! Video encoder configuration: the parameters that must be set before the
//! native encoder is opened.
use crate::codec::video::PixelFormat;
use crate::codec::{push_status, take_status, CodecError};
use crate::error::Error;
use crate::time::TimeBase;
use vstd::prelude::*;

verus! {

/// The parameters held by a video encoder builder.
pub struct VideoEncoderSettings {
    pub time_base: TimeBase,
    pub format: Option<PixelFormat>,
    pub width: Option<usize>,
    pub height: Option<usize>,
}

/// Builder for a video encoder.
pub struct VideoEncoderBuilder {
    time_base: TimeBase,
    format: Option<PixelFormat>,
    width: Option<usize>,
    height: Option<usize>,
}

impl VideoEncoderBuilder {
    /// The parameters set so far (model).
    pub closed spec fn spec_settings(self) -> VideoEncoderSettings {
        VideoEncoderSettings {
            time_base: self.time_base,
            format: self.format,
            width: self.width,
            height: self.height,
        }
    }

    /// A builder with nothing set and the microsecond time base.
    pub fn new() -> (r: VideoEncoderBuilder)
        ensures
            r.spec_settings().time_base.spec_num() == 1,
            r.spec_settings().time_base.spec_den() == 1_000_000,
            r.spec_settings().format is None,
            r.spec_settings().width is None,
            r.spec_settings().height is None,
    {
        VideoEncoderBuilder {
            time_base: TimeBase::microseconds(),
            format: None,
            width: None,
            height: None,
        }
    }

    /// A builder with the parameters that given codec parameters describe
    /// and the microsecond time base.
    pub fn from_parameters(format: PixelFormat, width: usize, height: usize) -> (r:
        VideoEncoderBuilder)
        ensures
            r.spec_settings().time_base.spec_num() == 1,
            r.spec_settings().time_base.spec_den() == 1_000_000,
            r.spec_settings().format == Some(format),
            r.spec_settings().width == Some(width),
            r.spec_settings().height == Some(height),
    {
        VideoEncoderBuilder {
            time_base: TimeBase::microseconds(),
            format: Some(format),
            width: Some(width),
            height: Some(height),
        }
    }

    /// Set encoder time base. The default time base is in microseconds.
    pub fn time_base(self, time_base: TimeBase) -> (r: VideoEncoderBuilder)
        ensures
            r.spec_settings() == (VideoEncoderSettings { time_base, ..self.spec_settings() }),
    {
        VideoEncoderBuilder { time_base, ..self }
    }

    /// Set encoder pixel format.
    pub fn pixel_format(self, format: PixelFormat) -> (r: VideoEncoderBuilder)
        ensures
            r.spec_settings() == (VideoEncoderSettings {
                format: Some(format),
                ..self.spec_settings()
            }),
    {
        VideoEncoderBuilder { format: Some(format), ..self }
    }

    /// Set frame width.
    pub fn width(self, width: usize) -> (r: VideoEncoderBuilder)
        ensures
            r.spec_settings() == (VideoEncoderSettings { width: Some(width), ..self.spec_settings() }),
    {
        VideoEncoderBuilder { width: Some(width), ..self }
    }

    /// Set frame height.
    pub fn height(self, height: usize) -> (r: VideoEncoderBuilder)
        ensures
            r.spec_settings() == (VideoEncoderSettings {
                height: Some(height),
                ..self.spec_settings()
            }),
    {
        VideoEncoderBuilder { height: Some(height), ..self }
    }

    /// Check that the pixel format, the width and the height are set
    /// (reporting the first one missing, in that order) and give the
    /// configuration to open the native encoder with.
    pub fn build(self) -> (r: Result<VideoEncoder, Error>)
        ensures
            self.spec_settings().format is None ==> (r matches Err(e) && e.spec_message() == Some(
                "pixel format not set"@,
            )),
            self.spec_settings().format is Some && self.spec_settings().width is None ==> (r matches Err(
                e,
            ) && e.spec_message() == Some("width not set"@)),
            self.spec_settings().format is Some && self.spec_settings().width is Some
                && self.spec_settings().height is None ==> (r matches Err(e) && e.spec_message()
                == Some("height not set"@)),
            r matches Ok(enc) ==> enc.spec_time_base() == self.spec_settings().time_base && Some(
                enc.spec_pixel_format(),
            ) == self.spec_settings().format && Some(enc.spec_width())
                == self.spec_settings().width && Some(enc.spec_height())
                == self.spec_settings().height,
            (self.spec_settings().format is Some && self.spec_settings().width is Some
                && self.spec_settings().height is Some) ==> r is Ok,
    {
        let format = match self.format {
            Some(v) => v,
            None => {
                return Err(Error::new("pixel format not set".to_owned()));
            },
        };
        let width = match self.width {
            Some(v) => v,
            None => {
                return Err(Error::new("width not set".to_owned()));
            },
        };
        let height = match self.height {
            Some(v) => v,
            None => {
                return Err(Error::new("height not set".to_owned()));
            },
        };
        Ok(VideoEncoder { time_base: self.time_base, format, width, height })
    }
}

/// Video encoder configuration (the native encoder is opened with it).
pub struct VideoEncoder {
    time_base: TimeBase,
    format: PixelFormat,
    width: usize,
    height: usize,
}

impl VideoEncoder {
    pub closed spec fn spec_time_base(self) -> TimeBase {
        self.time_base
    }

    pub closed spec fn spec_pixel_format(self) -> PixelFormat {
        self.format
    }

    pub closed spec fn spec_width(self) -> usize {
        self.width
    }

    pub closed spec fn spec_height(self) -> usize {
        self.height
    }

    /// The encoder, once the native encoder has been opened with this
    /// configuration and reported `open_status`: any status but 0 means that
    /// the encoder could not be built.
    pub fn opened(self, open_status: i32) -> (r: Result<VideoEncoder, Error>)
        ensures
            open_status != 0 ==> (r matches Err(e) && e.spec_message() == Some(
                "unable to build the encoder"@,
            )),
            open_status == 0 ==> r == Ok::<VideoEncoder, Error>(self),
    {
        if open_status != 0 {
            return Err(Error::new("unable to build the encoder".to_owned()));
        }
        Ok(self)
    }

    /// What pushing a frame gave, given the native status.
    pub fn push_result(status: i32) -> (r: Result<(), CodecError>)
        ensures
            status == 1 ==> r is Ok,
            status == 0 ==> (r matches Err(e) && e.spec_is_again() && e.spec_again_message()
                == Some("all packets must be consumed before pushing a new frame"@)),
            status != 0 && status != 1 ==> (r matches Err(e) && !e.spec_is_again() && (
            e.spec_inner() matches Some(inner) && inner.spec_code() == Some(status))),
    {
        push_status(status, "all packets must be consumed before pushing a new frame".to_owned())
    }

    /// What flushing the encoder gave, given the native status.
    pub fn flush_result(status: i32) -> (r: Result<(), CodecError>)
        ensures
            status == 1 ==> r is Ok,
            status == 0 ==> (r matches Err(e) && e.spec_is_again() && e.spec_again_message()
                == Some("all packets must be consumed before flushing"@)),
            status != 0 && status != 1 ==> (r matches Err(e) && !e.spec_is_again() && (
            e.spec_inner() matches Some(inner) && inner.spec_code() == Some(status))),
    {
        push_status(status, "all packets must be consumed before flushing".to_owned())
    }

    /// What taking a packet gave, given the native status: a packet in the
    /// encoder time base, nothing for now, or the FFmpeg error with that
    /// code.
    pub fn take_result(&self, status: i32) -> (r: Result<Option<TimeBase>, Error>)
        ensures
            status == 1 ==> r == Ok::<Option<TimeBase>, Error>(Some(self.spec_time_base())),
            status == 0 ==> r matches Ok(None),
            status != 0 && status != 1 ==> (r matches Err(e) && e.spec_code() == Some(status)),
    {
        match take_status(status) {
            Ok(true) => Ok(Some(self.time_base)),
            Ok(false) => Ok(None),
            Err(e) => Err(e),
        }
    }

    /// Encoder time base.
    pub fn time_base(&self) -> (r: TimeBase)
        ensures
            r == self.spec_time_base(),
    {
        self.time_base
    }

    /// Pixel format.
    pub fn pixel_format(&self) -> (r: PixelFormat)
        ensures
            r == self.spec_pixel_format(),
    {
        self.format
    }

    /// Frame width.
    pub fn width(&self) -> (r: usize)
        ensures
            r == self.spec_width(),
    {
        self.width
    }

    /// Frame height.
    pub fn height(&self) -> (r: usize)
        ensures
            r == self.spec_height(),
    {
        self.height
    }

    /// The native encoder's dimensions as it is opened with them: width and
    /// height converted to a C `int` with `as`.
    pub fn native_dimensions(&self) -> (r: (i32, i32))
        ensures
            r == (self.spec_width() as i32, self.spec_height() as i32),
    {
        (self.width as i32, self.height as i32)
    }
}

} // verus!
