//! Audio encoder configuration: the parameters that must be set before the
//! native encoder is opened, and the frame size that it reports.
use crate::codec::audio::{AudioFrame, ChannelLayout, SampleFormat};
use crate::codec::{push_status, take_status, CodecError};
use crate::error::Error;
use crate::time::{rescale_keep_null, TimeBase};
use vstd::prelude::*;

verus! {

/// The parameters held by an audio encoder builder.
pub struct EncoderSettings {
    pub time_base: TimeBase,
    pub sample_format: Option<SampleFormat>,
    pub sample_rate: Option<u32>,
    pub channel_layout: Option<ChannelLayout>,
}

/// Builder for an audio encoder.
pub struct AudioEncoderBuilder {
    time_base: TimeBase,
    sample_format: Option<SampleFormat>,
    sample_rate: Option<u32>,
    channel_layout: Option<ChannelLayout>,
}

impl AudioEncoderBuilder {
    /// The parameters set so far (model).
    pub closed spec fn spec_settings(self) -> EncoderSettings {
        EncoderSettings {
            time_base: self.time_base,
            sample_format: self.sample_format,
            sample_rate: self.sample_rate,
            channel_layout: self.channel_layout,
        }
    }

    /// A builder with nothing set and the microsecond time base.
    pub fn new() -> (r: AudioEncoderBuilder)
        ensures
            r.spec_settings().time_base.spec_num() == 1,
            r.spec_settings().time_base.spec_den() == 1_000_000,
            r.spec_settings().sample_format is None,
            r.spec_settings().sample_rate is None,
            r.spec_settings().channel_layout is None,
    {
        AudioEncoderBuilder {
            time_base: TimeBase::microseconds(),
            sample_format: None,
            sample_rate: None,
            channel_layout: None,
        }
    }

    /// A builder with the parameters that given codec parameters describe
    /// and the microsecond time base.
    pub fn from_parameters(
        sample_format: SampleFormat,
        sample_rate: u32,
        channel_layout: ChannelLayout,
    ) -> (r: AudioEncoderBuilder)
        ensures
            r.spec_settings().time_base.spec_num() == 1,
            r.spec_settings().time_base.spec_den() == 1_000_000,
            r.spec_settings().sample_format == Some(sample_format),
            r.spec_settings().sample_rate == Some(sample_rate),
            r.spec_settings().channel_layout == Some(channel_layout),
    {
        AudioEncoderBuilder {
            time_base: TimeBase::microseconds(),
            sample_format: Some(sample_format),
            sample_rate: Some(sample_rate),
            channel_layout: Some(channel_layout),
        }
    }

    /// Set encoder time base. The default time base is in microseconds.
    pub fn time_base(self, time_base: TimeBase) -> (r: AudioEncoderBuilder)
        ensures
            r.spec_settings() == (EncoderSettings { time_base, ..self.spec_settings() }),
    {
        AudioEncoderBuilder { time_base, ..self }
    }

    /// Set audio sample format.
    pub fn sample_format(self, format: SampleFormat) -> (r: AudioEncoderBuilder)
        ensures
            r.spec_settings() == (EncoderSettings {
                sample_format: Some(format),
                ..self.spec_settings()
            }),
    {
        AudioEncoderBuilder { sample_format: Some(format), ..self }
    }

    /// Set sampling rate.
    pub fn sample_rate(self, rate: u32) -> (r: AudioEncoderBuilder)
        ensures
            r.spec_settings() == (EncoderSettings { sample_rate: Some(rate), ..self.spec_settings() }),
    {
        AudioEncoderBuilder { sample_rate: Some(rate), ..self }
    }

    /// Set channel layout.
    pub fn channel_layout(self, layout: ChannelLayout) -> (r: AudioEncoderBuilder)
        ensures
            r.spec_settings() == (EncoderSettings {
                channel_layout: Some(layout),
                ..self.spec_settings()
            }),
    {
        AudioEncoderBuilder { channel_layout: Some(layout), ..self }
    }

    /// Check that the sample format, the sample rate and the channel layout
    /// are set (reporting the first one missing, in that order) and give the
    /// configuration to open the native encoder with.
    pub fn build(self) -> (r: Result<AudioEncoder, Error>)
        ensures
            self.spec_settings().sample_format is None ==> (r matches Err(e) && e.spec_message()
                == Some("sample format not set"@)),
            self.spec_settings().sample_format is Some && self.spec_settings().sample_rate is None
                ==> (r matches Err(e) && e.spec_message() == Some("sample rate not set"@)),
            self.spec_settings().sample_format is Some && self.spec_settings().sample_rate is Some
                && self.spec_settings().channel_layout is None ==> (r matches Err(e)
                && e.spec_message() == Some("channel layout not set"@)),
            r matches Ok(enc) ==> enc.spec_time_base() == self.spec_settings().time_base && Some(
                enc.spec_sample_format(),
            ) == self.spec_settings().sample_format && Some(enc.spec_sample_rate())
                == self.spec_settings().sample_rate && Some(enc.spec_channel_layout())
                == self.spec_settings().channel_layout,
            (self.spec_settings().sample_format is Some && self.spec_settings().sample_rate is Some
                && self.spec_settings().channel_layout is Some) ==> r is Ok,
    {
        let sample_format = match self.sample_format {
            Some(v) => v,
            None => {
                return Err(Error::new("sample format not set".to_owned()));
            },
        };
        let sample_rate = match self.sample_rate {
            Some(v) => v,
            None => {
                return Err(Error::new("sample rate not set".to_owned()));
            },
        };
        let channel_layout = match self.channel_layout {
            Some(v) => v,
            None => {
                return Err(Error::new("channel layout not set".to_owned()));
            },
        };
        Ok(AudioEncoder { time_base: self.time_base, sample_format, sample_rate, channel_layout })
    }
}

/// Audio encoder configuration (the native encoder is opened with it).
pub struct AudioEncoder {
    time_base: TimeBase,
    sample_format: SampleFormat,
    sample_rate: u32,
    channel_layout: ChannelLayout,
}

impl AudioEncoder {
    pub closed spec fn spec_time_base(self) -> TimeBase {
        self.time_base
    }

    pub closed spec fn spec_sample_format(self) -> SampleFormat {
        self.sample_format
    }

    pub closed spec fn spec_sample_rate(self) -> u32 {
        self.sample_rate
    }

    pub closed spec fn spec_channel_layout(self) -> ChannelLayout {
        self.channel_layout
    }

    /// The encoder, once the native encoder has been opened with this
    /// configuration and reported `open_status`: any status but 0 means that
    /// the encoder could not be built.
    pub fn opened(self, open_status: i32) -> (r: Result<AudioEncoder, Error>)
        ensures
            open_status != 0 ==> (r matches Err(e) && e.spec_message() == Some(
                "unable to build the encoder"@,
            )),
            open_status == 0 ==> r == Ok::<AudioEncoder, Error>(self),
    {
        if open_status != 0 {
            return Err(Error::new("unable to build the encoder".to_owned()));
        }
        Ok(self)
    }

    /// A frame as the encoder is given it: rescaled into the encoder time
    /// base.
    pub fn frame_for_encoding(&self, frame: AudioFrame) -> (r: AudioFrame)
        ensures
            r.spec_pts() == rescale_keep_null(
                frame.spec_pts() as int,
                frame.spec_time_base().spec_num(),
                frame.spec_time_base().spec_den(),
                self.spec_time_base().spec_num(),
                self.spec_time_base().spec_den(),
            ),
            r.spec_time_base() == self.spec_time_base(),
            r.spec_channel_layout() == frame.spec_channel_layout(),
            r.spec_sample_format() == frame.spec_sample_format(),
            r.spec_sample_rate() == frame.spec_sample_rate(),
            r.spec_samples() == frame.spec_samples(),
    {
        frame.with_time_base(self.time_base)
    }

    /// What pushing a frame gave, given the native status.
    pub fn push_result(status: i32) -> (r: Result<(), CodecError>)
        ensures
            status == 1 ==> r is Ok,
            status == 0 ==> (r matches Err(e) && e.spec_is_again() && e.spec_again_message()
                == Some("all packets must be consumed before pushing a new frame"@)),
            status != 0 && status != 1 ==> (r matches Err(e) && !e.spec_is_again() && (
            e.spec_inner() matches Some(inner) && inner.spec_code() == Some(status))),
    {
        push_status(status, "all packets must be consumed before pushing a new frame".to_owned())
    }

    /// What flushing the encoder gave, given the native status.
    pub fn flush_result(status: i32) -> (r: Result<(), CodecError>)
        ensures
            status == 1 ==> r is Ok,
            status == 0 ==> (r matches Err(e) && e.spec_is_again() && e.spec_again_message()
                == Some("all packets must be consumed before flushing"@)),
            status != 0 && status != 1 ==> (r matches Err(e) && !e.spec_is_again() && (
            e.spec_inner() matches Some(inner) && inner.spec_code() == Some(status))),
    {
        push_status(status, "all packets must be consumed before flushing".to_owned())
    }

    /// What taking a packet gave, given the native status: a packet in the
    /// encoder time base, nothing for now, or the FFmpeg error with that
    /// code.
    pub fn take_result(&self, status: i32) -> (r: Result<Option<TimeBase>, Error>)
        ensures
            status == 1 ==> r == Ok::<Option<TimeBase>, Error>(Some(self.spec_time_base())),
            status == 0 ==> r matches Ok(None),
            status != 0 && status != 1 ==> (r matches Err(e) && e.spec_code() == Some(status)),
    {
        match take_status(status) {
            Ok(true) => Ok(Some(self.time_base)),
            Ok(false) => Ok(None),
            Err(e) => Err(e),
        }
    }

    /// Encoder time base.
    pub fn time_base(&self) -> (r: TimeBase)
        ensures
            r == self.spec_time_base(),
    {
        self.time_base
    }

    /// Sample format.
    pub fn sample_format(&self) -> (r: SampleFormat)
        ensures
            r == self.spec_sample_format(),
    {
        self.sample_format
    }

    /// Sample rate.
    pub fn sample_rate(&self) -> (r: u32)
        ensures
            r == self.spec_sample_rate(),
    {
        self.sample_rate
    }

    /// Channel layout.
    pub fn channel_layout(&self) -> (r: ChannelLayout)
        ensures
            r == self.spec_channel_layout(),
    {
        self.channel_layout
    }

    /// Number of samples per audio channel in an audio frame, given the frame
    /// size that the native encoder reports (converted with `as`). Each
    /// encoded frame except the last one must contain exactly this number of
    /// samples. `None` if the number of samples per frame is not restricted
    /// (the frame size is 0).
    pub fn samples_per_frame(frame_size: i32) -> (r: Option<usize>)
        ensures
            (frame_size as usize) == 0 ==> r is None,
            (frame_size as usize) != 0 ==> r == Some(frame_size as usize),
    {
        let res = frame_size as usize;
        if res == 0 {
            None
        } else {
            Some(res)
        }
    }
}

} // verus!
