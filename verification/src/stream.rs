//! A/V stream information.
use crate::time::{TimeBase, Timestamp};
use vstd::prelude::*;

verus! {

/// Stream information: id, time base, start time, duration and frame count
/// as the demuxer reports them (raw values in the stream time base).
pub struct Stream {
    id: i32,
    time_base: TimeBase,
    start_time: i64,
    duration: i64,
    frames: i64,
}

impl Stream {
    pub closed spec fn spec_id(self) -> i32 {
        self.id
    }

    pub closed spec fn spec_time_base(self) -> TimeBase {
        self.time_base
    }

    pub closed spec fn spec_start_time(self) -> i64 {
        self.start_time
    }

    pub closed spec fn spec_duration(self) -> i64 {
        self.duration
    }

    pub closed spec fn spec_frames(self) -> i64 {
        self.frames
    }

    /// Describe a stream by what the demuxer reports of it.
    pub fn from_parts(id: i32, time_base: TimeBase, start_time: i64, duration: i64, frames: i64) -> (r:
        Stream)
        ensures
            r.spec_id() == id,
            r.spec_time_base() == time_base,
            r.spec_start_time() == start_time,
            r.spec_duration() == duration,
            r.spec_frames() == frames,
    {
        Stream { id, time_base, start_time, duration, frames }
    }

    /// Stream id (converted to `usize` with `as`).
    pub fn id(&self) -> (r: usize)
        ensures
            r == self.spec_id() as usize,
    {
        self.id as usize
    }

    /// Get stream time base.
    pub fn time_base(&self) -> (r: TimeBase)
        ensures
            r == self.spec_time_base(),
    {
        self.time_base
    }

    /// Get the pts of the first frame of the stream in presentation order.
    pub fn start_time(&self) -> (r: Timestamp)
        ensures
            r.spec_timestamp() == self.spec_start_time(),
            r.spec_time_base() == self.spec_time_base(),
    {
        Timestamp::new(self.start_time, self.time_base)
    }

    /// Get the duration of the stream.
    pub fn duration(&self) -> (r: Timestamp)
        ensures
            r.spec_timestamp() == self.spec_duration(),
            r.spec_time_base() == self.spec_time_base(),
    {
        Timestamp::new(self.duration, self.time_base)
    }

    /// Get the number of frames in the stream (converted to `usize` with
    /// `as`); `None` when it is zero (unknown).
    ///
    /// ## Note
    /// May not represent the total number of frames, depending on the type of the stream and the
    /// demuxer it may represent only the total number of keyframes.
    pub fn frame_count(&self) -> (r: Option<usize>)
        ensures
            (self.spec_frames() as usize) == 0 ==> r is None,
            (self.spec_frames() as usize) != 0 ==> r == Some(self.spec_frames() as usize),
    {
        let count = self.frames as usize;
        if count == 0 {
            None
        } else {
            Some(count)
        }
    }
}

} // verus!
