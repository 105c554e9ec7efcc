//! Audio resampler: configuration checks and the meaning of the native
//! resampler's status codes.
use crate::codec::audio::{AudioFrame, ChannelLayout, SampleFormat};
use crate::codec::{push_status, take_status, CodecError};
use crate::error::Error;
use crate::time::{rescale_keep_null, TimeBase};
use vstd::prelude::*;

pub use crate::codec::ErrorKind;

verus! {

/// An audio resampler error.
#[derive(Clone)]
pub struct AudioResamplerError {
    kind: ErrorKind,
    msg: String,
}

impl AudioResamplerError {
    /// The error kind (model).
    pub closed spec fn spec_kind(self) -> ErrorKind {
        self.kind
    }

    /// The message (model).
    pub closed spec fn spec_message(self) -> Seq<char> {
        self.msg@
    }

    /// Create a new error.
    pub fn new(kind: ErrorKind, msg: String) -> (r: AudioResamplerError)
        ensures
            r.spec_kind() == kind,
            r.spec_message() == msg@,
    {
        AudioResamplerError { kind, msg }
    }

    /// Get error kind.
    pub fn kind(&self) -> (r: ErrorKind)
        ensures
            r == self.spec_kind(),
    {
        self.kind
    }

    /// Get the error message.
    pub fn message(&self) -> (r: &str)
        ensures
            r@ == self.spec_message(),
    {
        self.msg.as_str()
    }
}

/// Builder for the audio resampler.
pub struct AudioResamplerBuilder {
    source_channel_layout: Option<ChannelLayout>,
    source_sample_format: Option<SampleFormat>,
    source_sample_rate: Option<u32>,
    target_channel_layout: Option<ChannelLayout>,
    target_sample_format: Option<SampleFormat>,
    target_sample_rate: Option<u32>,
    target_frame_samples: Option<usize>,
}

/// The configuration that a builder holds.
pub struct ResamplerOptions {
    pub source_channel_layout: Option<ChannelLayout>,
    pub source_sample_format: Option<SampleFormat>,
    pub source_sample_rate: Option<u32>,
    pub target_channel_layout: Option<ChannelLayout>,
    pub target_sample_format: Option<SampleFormat>,
    pub target_sample_rate: Option<u32>,
    pub target_frame_samples: Option<usize>,
}

impl AudioResamplerBuilder {
    /// The options set so far (model).
    pub closed spec fn spec_options(self) -> ResamplerOptions {
        ResamplerOptions {
            source_channel_layout: self.source_channel_layout,
            source_sample_format: self.source_sample_format,
            source_sample_rate: self.source_sample_rate,
            target_channel_layout: self.target_channel_layout,
            target_sample_format: self.target_sample_format,
            target_sample_rate: self.target_sample_rate,
            target_frame_samples: self.target_frame_samples,
        }
    }

    /// Create a new builder with no option set.
    pub fn new() -> (r: AudioResamplerBuilder)
        ensures
            r.spec_options().source_channel_layout is None,
            r.spec_options().source_sample_format is None,
            r.spec_options().source_sample_rate is None,
            r.spec_options().target_channel_layout is None,
            r.spec_options().target_sample_format is None,
            r.spec_options().target_sample_rate is None,
            r.spec_options().target_frame_samples is None,
    {
        AudioResamplerBuilder {
            source_channel_layout: None,
            source_sample_format: None,
            source_sample_rate: None,
            target_channel_layout: None,
            target_sample_format: None,
            target_sample_rate: None,
            target_frame_samples: None,
        }
    }

    /// Set source channel layout.
    pub fn source_channel_layout(self, channel_layout: ChannelLayout) -> (r: AudioResamplerBuilder)
        ensures
            r.spec_options() == (ResamplerOptions {
                source_channel_layout: Some(channel_layout),
                ..self.spec_options()
            }),
    {
        AudioResamplerBuilder { source_channel_layout: Some(channel_layout), ..self }
    }

    /// Set source sample format.
    pub fn source_sample_format(self, sample_format: SampleFormat) -> (r: AudioResamplerBuilder)
        ensures
            r.spec_options() == (ResamplerOptions {
                source_sample_format: Some(sample_format),
                ..self.spec_options()
            }),
    {
        AudioResamplerBuilder { source_sample_format: Some(sample_format), ..self }
    }

    /// Set source sample rate.
    pub fn source_sample_rate(self, sample_rate: u32) -> (r: AudioResamplerBuilder)
        ensures
            r.spec_options() == (ResamplerOptions {
                source_sample_rate: Some(sample_rate),
                ..self.spec_options()
            }),
    {
        AudioResamplerBuilder { source_sample_rate: Some(sample_rate), ..self }
    }

    /// Set target channel layout.
    pub fn target_channel_layout(self, channel_layout: ChannelLayout) -> (r: AudioResamplerBuilder)
        ensures
            r.spec_options() == (ResamplerOptions {
                target_channel_layout: Some(channel_layout),
                ..self.spec_options()
            }),
    {
        AudioResamplerBuilder { target_channel_layout: Some(channel_layout), ..self }
    }

    /// Set target sample format.
    pub fn target_sample_format(self, sample_format: SampleFormat) -> (r: AudioResamplerBuilder)
        ensures
            r.spec_options() == (ResamplerOptions {
                target_sample_format: Some(sample_format),
                ..self.spec_options()
            }),
    {
        AudioResamplerBuilder { target_sample_format: Some(sample_format), ..self }
    }

    /// Set target sample rate.
    pub fn target_sample_rate(self, sample_rate: u32) -> (r: AudioResamplerBuilder)
        ensures
            r.spec_options() == (ResamplerOptions {
                target_sample_rate: Some(sample_rate),
                ..self.spec_options()
            }),
    {
        AudioResamplerBuilder { target_sample_rate: Some(sample_rate), ..self }
    }

    /// Set the expected number of samples in target frames (for fixed frame
    /// size codecs).
    pub fn target_frame_samples(self, samples: Option<usize>) -> (r: AudioResamplerBuilder)
        ensures
            r.spec_options() == (ResamplerOptions {
                target_frame_samples: samples,
                ..self.spec_options()
            }),
    {
        AudioResamplerBuilder { target_frame_samples: samples, ..self }
    }

    /// Check the configuration and build the resampler. Each of the six
    /// source and target parameters must be set; the first one missing (in
    /// the order source layout, format, rate, target layout, format, rate) is
    /// reported. A missing target frame size means 0 (no fixed frame size).
    pub fn build(self) -> (r: Result<AudioResampler, Error>)
        ensures
            resampler_build_result(self.spec_options(), r),
    {
        let source_channel_layout = match self.source_channel_layout {
            Some(v) => v,
            None => {
                return Err(Error::new("source channel layout was not set".to_owned()));
            },
        };
        let source_sample_format = match self.source_sample_format {
            Some(v) => v,
            None => {
                return Err(Error::new("source sample format was not set".to_owned()));
            },
        };
        let source_sample_rate = match self.source_sample_rate {
            Some(v) => v,
            None => {
                return Err(Error::new("source sample rate was not set".to_owned()));
            },
        };
        let target_channel_layout = match self.target_channel_layout {
            Some(v) => v,
            None => {
                return Err(Error::new("target channel layout was not set".to_owned()));
            },
        };
        let target_sample_format = match self.target_sample_format {
            Some(v) => v,
            None => {
                return Err(Error::new("target sample format was not set".to_owned()));
            },
        };
        let target_sample_rate = match self.target_sample_rate {
            Some(v) => v,
            None => {
                return Err(Error::new("target sample rate was not set".to_owned()));
            },
        };
        let target_frame_samples = match self.target_frame_samples {
            Some(v) => v,
            None => 0,
        };
        Ok(
            AudioResampler {
                source_channel_layout,
                source_sample_format,
                source_sample_rate,
                target_channel_layout,
                target_sample_format,
                target_sample_rate,
                target_frame_samples,
            },
        )
    }
}

/// What building a resampler from the options `o` gives.
pub open spec fn resampler_build_result(o: ResamplerOptions, r: Result<AudioResampler, Error>) -> bool {
    if o.source_channel_layout is None {
        r matches Err(e) && e.spec_message() == Some("source channel layout was not set"@)
    } else if o.source_sample_format is None {
        r matches Err(e) && e.spec_message() == Some("source sample format was not set"@)
    } else if o.source_sample_rate is None {
        r matches Err(e) && e.spec_message() == Some("source sample rate was not set"@)
    } else if o.target_channel_layout is None {
        r matches Err(e) && e.spec_message() == Some("target channel layout was not set"@)
    } else if o.target_sample_format is None {
        r matches Err(e) && e.spec_message() == Some("target sample format was not set"@)
    } else if o.target_sample_rate is None {
        r matches Err(e) && e.spec_message() == Some("target sample rate was not set"@)
    } else {
        r matches Ok(res) && {
            &&& res.spec_source_channel_layout() == o.source_channel_layout.unwrap()
            &&& res.spec_source_sample_format() == o.source_sample_format.unwrap()
            &&& res.spec_source_sample_rate() == o.source_sample_rate.unwrap()
            &&& res.spec_target_channel_layout() == o.target_channel_layout.unwrap()
            &&& res.spec_target_sample_format() == o.target_sample_format.unwrap()
            &&& res.spec_target_sample_rate() == o.target_sample_rate.unwrap()
            &&& res.spec_target_frame_samples() == match o.target_frame_samples {
                Some(n) => n,
                None => 0,
            }
        }
    }
}

/// Audio resampler (its configuration; the native resampler that does the
/// work is created from it).
pub struct AudioResampler {
    source_channel_layout: ChannelLayout,
    source_sample_format: SampleFormat,
    source_sample_rate: u32,
    target_channel_layout: ChannelLayout,
    target_sample_format: SampleFormat,
    target_sample_rate: u32,
    target_frame_samples: usize,
}

impl AudioResampler {
    pub closed spec fn spec_source_channel_layout(self) -> ChannelLayout {
        self.source_channel_layout
    }

    pub closed spec fn spec_source_sample_format(self) -> SampleFormat {
        self.source_sample_format
    }

    pub closed spec fn spec_source_sample_rate(self) -> u32 {
        self.source_sample_rate
    }

    pub closed spec fn spec_target_channel_layout(self) -> ChannelLayout {
        self.target_channel_layout
    }

    pub closed spec fn spec_target_sample_format(self) -> SampleFormat {
        self.target_sample_format
    }

    pub closed spec fn spec_target_sample_rate(self) -> u32 {
        self.target_sample_rate
    }

    pub closed spec fn spec_target_frame_samples(self) -> usize {
        self.target_frame_samples
    }

    /// Get a builder for the audio resampler.
    pub fn builder() -> (r: AudioResamplerBuilder)
        ensures
            r.spec_options().source_channel_layout is None,
            r.spec_options().source_sample_format is None,
            r.spec_options().source_sample_rate is None,
            r.spec_options().target_channel_layout is None,
            r.spec_options().target_sample_format is None,
            r.spec_options().target_sample_rate is None,
            r.spec_options().target_frame_samples is None,
    {
        AudioResamplerBuilder::new()
    }

    /// Source channel layout.
    pub fn source_channel_layout(&self) -> (r: ChannelLayout)
        ensures
            r == self.spec_source_channel_layout(),
    {
        self.source_channel_layout
    }

    /// Source sample format.
    pub fn source_sample_format(&self) -> (r: SampleFormat)
        ensures
            r == self.spec_source_sample_format(),
    {
        self.source_sample_format
    }

    /// Source sample rate.
    pub fn source_sample_rate(&self) -> (r: u32)
        ensures
            r == self.spec_source_sample_rate(),
    {
        self.source_sample_rate
    }

    /// Target channel layout.
    pub fn target_channel_layout(&self) -> (r: ChannelLayout)
        ensures
            r == self.spec_target_channel_layout(),
    {
        self.target_channel_layout
    }

    /// Target sample format.
    pub fn target_sample_format(&self) -> (r: SampleFormat)
        ensures
            r == self.spec_target_sample_format(),
    {
        self.target_sample_format
    }

    /// Target sample rate.
    pub fn target_sample_rate(&self) -> (r: u32)
        ensures
            r == self.spec_target_sample_rate(),
    {
        self.target_sample_rate
    }

    /// Expected number of samples in target frames (0 when not fixed).
    pub fn target_frame_samples(&self) -> (r: usize)
        ensures
            r == self.spec_target_frame_samples(),
    {
        self.target_frame_samples
    }

    /// The time base of the frames handed to the native resampler: one tick
    /// per source sample.
    pub fn source_time_base(&self) -> (r: TimeBase)
        ensures
            r.spec_num() == 1,
            r.spec_den() == self.spec_source_sample_rate(),
    {
        TimeBase::new(1, self.source_sample_rate)
    }

    /// The time base of the resampled frames: one tick per target sample.
    pub fn target_time_base(&self) -> (r: TimeBase)
        ensures
            r.spec_num() == 1,
            r.spec_den() == self.spec_target_sample_rate(),
    {
        TimeBase::new(1, self.target_sample_rate)
    }

    /// A frame as the native resampler is given it: rescaled into the source
    /// time base.
    pub fn frame_for_resampling(&self, frame: AudioFrame) -> (r: AudioFrame)
        ensures
            r.spec_pts() == rescale_keep_null(
                frame.spec_pts() as int,
                frame.spec_time_base().spec_num(),
                frame.spec_time_base().spec_den(),
                1,
                self.spec_source_sample_rate(),
            ),
            r.spec_time_base().spec_num() == 1,
            r.spec_time_base().spec_den() == self.spec_source_sample_rate(),
            r.spec_channel_layout() == frame.spec_channel_layout(),
            r.spec_sample_format() == frame.spec_sample_format(),
            r.spec_sample_rate() == frame.spec_sample_rate(),
            r.spec_samples() == frame.spec_samples(),
    {
        frame.with_time_base(self.source_time_base())
    }

    /// What taking a frame gave, given the native take status: a frame in the
    /// target time base (1 / target sample rate), nothing for now, or the
    /// FFmpeg error with that code.
    pub fn take_result(&self, status: i32) -> (r: Result<Option<TimeBase>, Error>)
        ensures
            status == 1 ==> (r matches Ok(Some(tb)) && tb.spec_num() == 1 && tb.spec_den()
                == self.spec_target_sample_rate()),
            status == 0 ==> r matches Ok(None),
            status != 0 && status != 1 ==> (r matches Err(e) && e.spec_code() == Some(status)),
    {
        match take_status(status) {
            Ok(true) => Ok(Some(self.target_time_base())),
            Ok(false) => Ok(None),
            Err(e) => Err(e),
        }
    }

    /// What pushing a frame gave, given the native status: accepted, an
    /// "again" error when the resampled frames must be taken first, or the
    /// FFmpeg error with that code.
    pub fn try_push_result(status: i32) -> (r: Result<(), CodecError>)
        ensures
            status == 1 ==> r is Ok,
            status == 0 ==> (r matches Err(e) && e.spec_is_again() && e.spec_again_message()
                == Some("all frames must be consumed before pushing a new frame"@)),
            status != 0 && status != 1 ==> (r matches Err(e) && !e.spec_is_again() && (
            e.spec_inner() matches Some(inner) && inner.spec_code() == Some(status))),
    {
        push_status(status, "all frames must be consumed before pushing a new frame".to_owned())
    }

    /// What flushing gave, given the native status: flushed, an "again"
    /// error when the resampled frames must be taken first, or the FFmpeg
    /// error with that code.
    pub fn try_flush_result(status: i32) -> (r: Result<(), CodecError>)
        ensures
            status == 1 ==> r is Ok,
            status == 0 ==> (r matches Err(e) && e.spec_is_again() && e.spec_again_message()
                == Some("all frames must be consumed before flushing"@)),
            status != 0 && status != 1 ==> (r matches Err(e) && !e.spec_is_again() && (
            e.spec_inner() matches Some(inner) && inner.spec_code() == Some(status))),
    {
        push_status(status, "all frames must be consumed before flushing".to_owned())
    }

    /// Check that a frame about to be pushed matches the source parameters
    /// (its channel layout, then its sample format, then its sample rate),
    /// reporting a mismatch as a codec error with the same message as
    /// `check_frame`.
    pub fn try_check_frame(&self, frame: &AudioFrame) -> (r: Result<(), CodecError>)
        ensures
            frame.spec_channel_layout() != self.spec_source_channel_layout() ==> (r matches Err(e)
                && !e.spec_is_again() && (e.spec_inner() matches Some(inner) && inner.spec_message()
                == Some("invalid frame, channel layout does not match"@))),
            frame.spec_channel_layout() == self.spec_source_channel_layout()
                && frame.spec_sample_format() != self.spec_source_sample_format() ==> (r matches Err(
                e,
            ) && !e.spec_is_again() && (e.spec_inner() matches Some(inner) && inner.spec_message()
                == Some("invalid frame, sample format does not match"@))),
            frame.spec_channel_layout() == self.spec_source_channel_layout()
                && frame.spec_sample_format() == self.spec_source_sample_format()
                && frame.spec_sample_rate() != self.spec_source_sample_rate() ==> (r matches Err(e)
                && !e.spec_is_again() && (e.spec_inner() matches Some(inner) && inner.spec_message()
                == Some("invalid frame, sample rate does not match"@))),
            r is Ok <==> (frame.spec_channel_layout() == self.spec_source_channel_layout()
                && frame.spec_sample_format() == self.spec_source_sample_format()
                && frame.spec_sample_rate() == self.spec_source_sample_rate()),
    {
        if frame.channel_layout() != self.source_channel_layout {
            return Err(CodecError::error("invalid frame, channel layout does not match".to_owned()));
        }
        if frame.sample_format() != self.source_sample_format {
            return Err(CodecError::error("invalid frame, sample format does not match".to_owned()));
        }
        if frame.sample_rate() != self.source_sample_rate {
            return Err(CodecError::error("invalid frame, sample rate does not match".to_owned()));
        }
        Ok(())
    }

    /// Check that a frame about to be pushed matches the source parameters:
    /// its channel layout, then its sample format, then its sample rate.
    pub fn check_frame(&self, frame: &AudioFrame) -> (r: Result<(), AudioResamplerError>)
        ensures
            frame.spec_channel_layout() != self.spec_source_channel_layout() ==> (r matches Err(e)
                && e.spec_kind() == ErrorKind::Error && e.spec_message()
                == "invalid frame, channel layout does not match"@),
            frame.spec_channel_layout() == self.spec_source_channel_layout()
                && frame.spec_sample_format() != self.spec_source_sample_format() ==> (r matches Err(
                e,
            ) && e.spec_kind() == ErrorKind::Error && e.spec_message()
                == "invalid frame, sample format does not match"@),
            frame.spec_channel_layout() == self.spec_source_channel_layout()
                && frame.spec_sample_format() == self.spec_source_sample_format()
                && frame.spec_sample_rate() != self.spec_source_sample_rate() ==> (r matches Err(e)
                && e.spec_kind() == ErrorKind::Error && e.spec_message()
                == "invalid frame, sample rate does not match"@),
            r is Ok <==> (frame.spec_channel_layout() == self.spec_source_channel_layout()
                && frame.spec_sample_format() == self.spec_source_sample_format()
                && frame.spec_sample_rate() == self.spec_source_sample_rate()),
    {
        if frame.channel_layout() != self.source_channel_layout {
            return Err(
                AudioResamplerError::new(
                    ErrorKind::Error,
                    "invalid frame, channel layout does not match".to_owned(),
                ),
            );
        }
        if frame.sample_format() != self.source_sample_format {
            return Err(
                AudioResamplerError::new(
                    ErrorKind::Error,
                    "invalid frame, sample format does not match".to_owned(),
                ),
            );
        }
        if frame.sample_rate() != self.source_sample_rate {
            return Err(
                AudioResamplerError::new(
                    ErrorKind::Error,
                    "invalid frame, sample rate does not match".to_owned(),
                ),
            );
        }
        Ok(())
    }

    /// The result of pushing a frame, given the native push status:
    /// 1 accepted, 0 the pending output must be taken first, anything else a
    /// failure.
    pub fn push_status(status: i32) -> (r: Result<(), AudioResamplerError>)
        ensures
            status == 1 ==> r is Ok,
            status == 0 ==> (r matches Err(e) && e.spec_kind() == ErrorKind::Again
                && e.spec_message() == "all frames must be consumed before pushing a new frame"@),
            status != 0 && status != 1 ==> (r matches Err(e) && e.spec_kind() == ErrorKind::Error
                && e.spec_message() == "audio resampler error"@),
    {
        if status == 1 {
            Ok(())
        } else if status == 0 {
            Err(
                AudioResamplerError::new(
                    ErrorKind::Again,
                    "all frames must be consumed before pushing a new frame".to_owned(),
                ),
            )
        } else {
            Err(AudioResamplerError::new(ErrorKind::Error, "audio resampler error".to_owned()))
        }
    }

    /// The result of flushing, given the native flush status: 1 flushed,
    /// 0 the pending output must be taken first, anything else a failure.
    pub fn flush_status(status: i32) -> (r: Result<(), AudioResamplerError>)
        ensures
            status == 1 ==> r is Ok,
            status == 0 ==> (r matches Err(e) && e.spec_kind() == ErrorKind::Again
                && e.spec_message() == "all frames must be consumed before flushing"@),
            status != 0 && status != 1 ==> (r matches Err(e) && e.spec_kind() == ErrorKind::Error
                && e.spec_message() == "audio resampler error"@),
    {
        if status == 1 {
            Ok(())
        } else if status == 0 {
            Err(
                AudioResamplerError::new(
                    ErrorKind::Again,
                    "all frames must be consumed before flushing".to_owned(),
                ),
            )
        } else {
            Err(AudioResamplerError::new(ErrorKind::Error, "audio resampler error".to_owned()))
        }
    }

    /// The result of taking a frame, given the native take status: 1 a frame
    /// is available (`Ok(true)`), 0 none is (`Ok(false)`), anything else a
    /// failure.
    pub fn take_status(status: i32) -> (r: Result<bool, AudioResamplerError>)
        ensures
            status == 1 ==> r == Ok::<bool, AudioResamplerError>(true),
            status == 0 ==> r == Ok::<bool, AudioResamplerError>(false),
            status != 0 && status != 1 ==> (r matches Err(e) && e.spec_kind() == ErrorKind::Error
                && e.spec_message() == "audio resampler error"@),
    {
        if status == 1 {
            Ok(true)
        } else if status == 0 {
            Ok(false)
        } else {
            Err(AudioResamplerError::new(ErrorKind::Error, "audio resampler error".to_owned()))
        }
    }
}

} // verus!
