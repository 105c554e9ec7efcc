//! Audio codec support: channel layouts, sample formats and audio frame
//! metadata.
pub mod decoder;
pub mod encoder;
pub mod resampler;
pub mod transcoder;

use crate::time::{rescale_keep_null, TimeBase, Timestamp};
use vstd::prelude::*;

verus! {

/// An error indicating an unknown channel layout.
#[derive(Debug, Copy, Clone)]
pub struct UnknownChannelLayout;

/// An error indicating an unknown sample format.
#[derive(Debug, Copy, Clone)]
pub struct UnknownSampleFormat;

/// Channel layout (a bit mask of channel positions).
#[derive(Copy, Clone, PartialEq, Eq, Structural)]
pub struct ChannelLayout(u64);

impl ChannelLayout {
    /// The raw representation (model).
    pub closed spec fn spec_raw(self) -> u64 {
        self.0
    }

    /// Create channel layout from its raw representation.
    pub fn from_raw(v: u64) -> (r: ChannelLayout)
        ensures
            r.spec_raw() == v,
    {
        ChannelLayout(v)
    }

    /// Get the raw representation.
    pub fn into_raw(self) -> (r: u64)
        ensures
            r == self.spec_raw(),
    {
        self.0
    }

    /// Get a reference view of this channel layout.
    pub fn as_ref(&self) -> (r: ChannelLayoutRef)
        ensures
            r.spec_raw() == self.spec_raw(),
    {
        ChannelLayoutRef(self.0)
    }

    /// The layout that a native lookup (by name, or the default layout for a
    /// number of channels) gave: the empty mask means that there is none.
    pub fn from_lookup(layout: u64) -> (r: Option<ChannelLayout>)
        ensures
            layout == 0 ==> r is None,
            layout != 0 ==> (r matches Some(l) && l.spec_raw() == layout),
    {
        if layout == 0 {
            None
        } else {
            Some(ChannelLayout(layout))
        }
    }

    /// Get the number of channels: the number of channel positions in the
    /// mask.
    pub fn channels(self) -> (r: u32)
        ensures
            r == set_bits(self.spec_raw() as int),
    {
        self.as_ref().channels()
    }
}

/// The number of bits set in the binary representation of `x`.
pub open spec fn set_bits(x: int) -> nat
    decreases x,
{
    if x <= 0 {
        0
    } else {
        set_bits(x / 2) + (x % 2) as nat
    }
}

/// A number below `2^k` has at most `k` bits set.
pub proof fn lemma_set_bits_bound(x: int, k: nat)
    requires
        0 <= x < vstd::arithmetic::power2::pow2(k),
    ensures
        set_bits(x) <= k,
    decreases k,
{
    if k == 0 {
        vstd::arithmetic::power::lemma_pow0(2);
    } else if x > 0 {
        vstd::arithmetic::power2::lemma_pow2_unfold(k);
        lemma_set_bits_bound(x / 2, (k - 1) as nat);
    }
}

/// Channel layout reference.
#[derive(Copy, Clone, PartialEq, Eq, Structural)]
pub struct ChannelLayoutRef(u64);

impl ChannelLayoutRef {
    /// The raw representation (model).
    pub closed spec fn spec_raw(self) -> u64 {
        self.0
    }

    /// Get an owned channel layout equal to this one.
    pub fn to_owned(&self) -> (r: ChannelLayout)
        ensures
            r.spec_raw() == self.spec_raw(),
    {
        ChannelLayout(self.0)
    }

    /// Get the number of channels: the number of channel positions in the
    /// mask.
    pub fn channels(&self) -> (r: u32)
        ensures
            r == set_bits(self.spec_raw() as int),
    {
        let mask = self.0;
        proof {
            vstd::arithmetic::power2::lemma2_to64();
            lemma_set_bits_bound(mask as int, 64);
        }
        let mut rest: u64 = mask;
        let mut count: u32 = 0;
        while rest != 0
            invariant
                count + set_bits(rest as int) == set_bits(mask as int),
                set_bits(mask as int) <= 64,
            decreases rest,
        {
            let low: u64 = rest & 1;
            let next: u64 = rest >> 1;
            assert(low == rest % 2) by (bit_vector)
                requires
                    low == rest & 1,
            ;
            assert(next == rest / 2) by (bit_vector)
                requires
                    next == rest >> 1,
            ;
            count = count + low as u32;
            rest = next;
        }
        count
    }
}

/// Audio sample format.
#[derive(Copy, Clone, PartialEq, Eq, Structural)]
pub struct SampleFormat(i32);

impl SampleFormat {
    /// The raw representation (model).
    pub closed spec fn spec_raw(self) -> i32 {
        self.0
    }

    /// Create a sample format value from a given raw representation.
    pub fn from_raw(v: i32) -> (r: SampleFormat)
        ensures
            r.spec_raw() == v,
    {
        SampleFormat(v)
    }

    /// Get the raw value.
    pub fn into_raw(self) -> (r: i32)
        ensures
            r == self.spec_raw(),
    {
        self.0
    }

    /// The format that a native lookup by name gave, where `is_none` says
    /// whether the native library reported it as "no format".
    pub fn from_lookup(format: i32, is_none: bool) -> (r: Result<SampleFormat, UnknownSampleFormat>)
        ensures
            is_none ==> r is Err,
            !is_none ==> (r matches Ok(f) && f.spec_raw() == format),
    {
        if is_none {
            Err(UnknownSampleFormat)
        } else {
            Ok(SampleFormat(format))
        }
    }
}

/// An audio frame (the metadata that the library reads of it).
pub struct AudioFrame {
    channel_layout: ChannelLayout,
    sample_format: SampleFormat,
    sample_rate: u32,
    samples: usize,
    pts: i64,
    time_base: TimeBase,
}

impl AudioFrame {
    /// Channel layout (model).
    pub closed spec fn spec_channel_layout(self) -> ChannelLayout {
        self.channel_layout
    }

    /// Sample format (model).
    pub closed spec fn spec_sample_format(self) -> SampleFormat {
        self.sample_format
    }

    /// Sample rate (model).
    pub closed spec fn spec_sample_rate(self) -> u32 {
        self.sample_rate
    }

    /// Number of samples per channel (model).
    pub closed spec fn spec_samples(self) -> usize {
        self.samples
    }

    /// Raw presentation timestamp (model).
    pub closed spec fn spec_pts(self) -> i64 {
        self.pts
    }

    /// Time base of the timestamps (model).
    pub closed spec fn spec_time_base(self) -> TimeBase {
        self.time_base
    }

    /// Describe an audio frame by its parameters.
    pub fn from_parts(
        channel_layout: ChannelLayout,
        sample_format: SampleFormat,
        sample_rate: u32,
        samples: usize,
        pts: Timestamp,
    ) -> (r: AudioFrame)
        ensures
            r.spec_channel_layout() == channel_layout,
            r.spec_sample_format() == sample_format,
            r.spec_sample_rate() == sample_rate,
            r.spec_samples() == samples,
            r.spec_pts() == pts.spec_timestamp(),
            r.spec_time_base() == pts.spec_time_base(),
    {
        AudioFrame {
            channel_layout,
            sample_format,
            sample_rate,
            samples,
            pts: pts.timestamp(),
            time_base: pts.time_base(),
        }
    }

    /// Get frame sample format.
    pub fn sample_format(&self) -> (r: SampleFormat)
        ensures
            r == self.spec_sample_format(),
    {
        self.sample_format
    }

    /// Get frame sample rate.
    pub fn sample_rate(&self) -> (r: u32)
        ensures
            r == self.spec_sample_rate(),
    {
        self.sample_rate
    }

    /// Get number of samples (per channel) in this frame.
    pub fn samples(&self) -> (r: usize)
        ensures
            r == self.spec_samples(),
    {
        self.samples
    }

    /// Get channel layout.
    pub fn channel_layout(&self) -> (r: ChannelLayout)
        ensures
            r == self.spec_channel_layout(),
    {
        self.channel_layout
    }

    /// Get frame time base.
    pub fn time_base(&self) -> (r: TimeBase)
        ensures
            r == self.spec_time_base(),
    {
        self.time_base
    }

    /// Get presentation timestamp.
    pub fn pts(&self) -> (r: Timestamp)
        ensures
            r.spec_timestamp() == self.spec_pts(),
            r.spec_time_base() == self.spec_time_base(),
    {
        Timestamp::new(self.pts, self.time_base)
    }

    /// Set presentation timestamp (rescaled into the frame time base).
    pub fn with_pts(self, pts: Timestamp) -> (r: AudioFrame)
        ensures
            r.spec_pts() == pts.spec_rescaled(
                self.spec_time_base().spec_num(),
                self.spec_time_base().spec_den(),
            ),
            r.spec_time_base() == self.spec_time_base(),
            r.spec_channel_layout() == self.spec_channel_layout(),
            r.spec_sample_format() == self.spec_sample_format(),
            r.spec_sample_rate() == self.spec_sample_rate(),
            r.spec_samples() == self.spec_samples(),
    {
        let pts = pts.with_time_base(self.time_base);
        AudioFrame { pts: pts.timestamp(), ..self }
    }

    /// Set frame time base. (This will rescale the current timestamp into a
    /// given time base.)
    pub fn with_time_base(self, time_base: TimeBase) -> (r: AudioFrame)
        ensures
            r.spec_pts() == rescale_keep_null(
                self.spec_pts() as int,
                self.spec_time_base().spec_num(),
                self.spec_time_base().spec_den(),
                time_base.spec_num(),
                time_base.spec_den(),
            ),
            r.spec_time_base() == time_base,
            r.spec_channel_layout() == self.spec_channel_layout(),
            r.spec_sample_format() == self.spec_sample_format(),
            r.spec_sample_rate() == self.spec_sample_rate(),
            r.spec_samples() == self.spec_samples(),
    {
        let new_pts = self.pts().with_time_base(time_base);
        AudioFrame { pts: new_pts.timestamp(), time_base, ..self }
    }
}


/// The indices of the sample data planes of an audio frame: one plane per
/// channel when the sample data is planar, a single plane holding all
/// channels when it is packed (interleaved).
pub fn audio_plane_indices(planar: bool, channels: usize) -> (r: Vec<usize>)
    ensures
        planar ==> r@ == Seq::new(channels as nat, |i: int| i as usize),
        !planar ==> r@ == seq![0usize],
{
    let mut inner: Vec<usize> = Vec::new();
    if planar {
        let mut i: usize = 0;
        while i < channels
            invariant
                i <= channels,
                inner@ == Seq::new(i as nat, |j: int| j as usize),
            decreases channels - i,
        {
            inner.push(i);
            i = i + 1;
        }
    } else {
        inner.push(0);
    }
    inner
}

/// A sample data plane of an audio frame: the index of the frame plane it
/// is, and the length of its data in bytes.
#[derive(Copy, Clone, PartialEq, Eq, Structural)]
pub struct AudioPlane {
    pub index: usize,
    pub len: usize,
}

/// The sample data planes of an audio frame whose planes have lines of
/// `line_size` bytes (the line size of plane 0): one plane per channel, plane
/// `i` holding channel `i`, when the sample data is planar, and a single plane
/// holding all channels when it is packed; the data of every plane is
/// `line_size` bytes long.
pub fn audio_planes(planar: bool, channels: usize, line_size: usize) -> (r: Vec<AudioPlane>)
    ensures
        r@.len() == (if planar {
            channels as int
        } else {
            1
        }),
        forall|i: int|
            0 <= i < r@.len() ==> (#[trigger] r@[i]).len == line_size && r@[i].index == (if planar {
                i
            } else {
                0
            }),
{
    let mut planes: Vec<AudioPlane> = Vec::new();
    if planar {
        let mut i: usize = 0;
        while i < channels
            invariant
                i <= channels,
                planes@.len() == i,
                forall|j: int|
                    0 <= j < i ==> (#[trigger] planes@[j]).len == line_size && planes@[j].index == j,
            decreases channels - i,
        {
            planes.push(AudioPlane { index: i, len: line_size });
            i = i + 1;
        }
    } else {
        planes.push(AudioPlane { index: 0, len: line_size });
    }
    planes
}

} // verus!
