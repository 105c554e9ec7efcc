//! Packets.
//!
//! A "packet" in the FFmpeg terminology is an encoded part of an elementary
//! stream (i.e. audio or video stream). A packet holds its data together
//! with presentation and decoding timestamps, a duration, a byte position
//! within the input, a key flag and a stream index, all in the packet's time
//! base. A new packet has no timestamps (they are null), duration 0, an
//! unknown position and microseconds as its time base.
use crate::time::{rescale_keep_null, Duration, TimeBase, Timestamp};
use vstd::prelude::*;

verus! {

broadcast use Timestamp::lemma_spec_new;

/// The content of a packet.
pub struct PacketView {
    pub data: Seq<u8>,
    pub pts: i64,
    pub dts: i64,
    pub duration: i64,
    pub pos: i64,
    pub key: bool,
    pub stream_index: i32,
    pub time_base: TimeBase,
}

/// A stream index as the native packet stores it (a C `int`).
pub open spec fn stored_index(index: usize) -> i32 {
    index as i32
}

/// The raw position stored for an optional byte position: positions beyond
/// `i64::MAX`, and no position, are stored as -1.
pub open spec fn raw_pos(pos: Option<u64>) -> i64 {
    match pos {
        Some(p) => if p <= i64::MAX {
            p as i64
        } else {
            -1i64
        },
        None => -1i64,
    }
}

/// The byte position for a stored raw position (negative means unknown).
pub open spec fn pos_of_raw(raw: i64) -> Option<u64> {
    if raw >= 0 {
        Some(raw as u64)
    } else {
        None
    }
}

/// A raw timestamp rescaled from `from` into `to` (null stays null).
pub open spec fn rescale_raw(ts: i64, from: TimeBase, to: TimeBase) -> i64 {
    rescale_keep_null(
        ts as int,
        from.spec_num(),
        from.spec_den(),
        to.spec_num(),
        to.spec_den(),
    ) as i64
}

/// The duration of a packet is defined: it is not positive, or it can be
/// turned into a `Duration` (see `Timestamp - Timestamp`).
pub open spec fn duration_defined(v: PacketView) -> bool {
    v.duration <= 0 || Timestamp::spec_new(v.duration, v.time_base).spec_elapsed_defined(
        Timestamp::spec_new(0, v.time_base),
    )
}

/// What `duration()` returns for a packet.
pub open spec fn duration_result(v: PacketView, r: Option<Duration>) -> bool {
    if v.duration <= 0 {
        r is None
    } else {
        let a = Timestamp::spec_new(v.duration, v.time_base);
        let b = Timestamp::spec_new(0, v.time_base);
        r matches Some(d) && d.spec_secs() == (a.spec_diff_secs(b) as u64) + (a.spec_diff_nanos(b)
            as u32) / 1_000_000_000 && d.spec_nanos() == (a.spec_diff_nanos(b) as u32)
            % 1_000_000_000
    }
}

/// A duration can be turned into a raw duration of the time base `tb`.
pub open spec fn duration_to_raw_defined(tb: TimeBase, d: Duration) -> bool {
    Timestamp::spec_new(0, tb).spec_add_defined(d)
}

/// The raw duration in the time base `tb` for the duration `d`.
pub open spec fn duration_to_raw(tb: TimeBase, d: Duration) -> i64 {
    Timestamp::spec_new(0, tb).spec_added(d) as i64
}

struct Fields {
    data: Vec<u8>,
    pts: i64,
    dts: i64,
    duration: i64,
    pos: i64,
    key: bool,
    stream_index: i32,
    time_base: TimeBase,
}

impl Fields {
    closed spec fn view(self) -> PacketView {
        PacketView {
            data: self.data@,
            pts: self.pts,
            dts: self.dts,
            duration: self.duration,
            pos: self.pos,
            key: self.key,
            stream_index: self.stream_index,
            time_base: self.time_base,
        }
    }

    fn new(size: usize) -> (r: Fields)
        ensures
            r.view().data == Seq::new(size as nat, |i: int| 0u8),
            r.view().pts == i64::MIN,
            r.view().dts == i64::MIN,
            r.view().duration == 0,
            r.view().pos == -1,
            !r.view().key,
            r.view().stream_index == 0,
            r.view().time_base.spec_num() == 1,
            r.view().time_base.spec_den() == 1_000_000,
    {
        let mut data: Vec<u8> = Vec::new();
        let mut i: usize = 0;
        while i < size
            invariant
                i <= size,
                data@ == Seq::new(i as nat, |j: int| 0u8),
            decreases size - i,
        {
            data.push(0u8);
            i = i + 1;
        }
        Fields {
            data,
            pts: i64::MIN,
            dts: i64::MIN,
            duration: 0,
            pos: -1,
            key: false,
            stream_index: 0,
            time_base: TimeBase::microseconds(),
        }
    }

    fn with_time_base(self, time_base: TimeBase) -> (r: Fields)
        ensures
            r.view() == (PacketView {
                pts: rescale_raw(self.view().pts, self.view().time_base, time_base),
                dts: rescale_raw(self.view().dts, self.view().time_base, time_base),
                time_base,
                ..self.view()
            }),
    {
        let pts = Timestamp::new(self.pts, self.time_base).with_time_base(time_base).timestamp();
        let dts = Timestamp::new(self.dts, self.time_base).with_time_base(time_base).timestamp();
        Fields { pts, dts, time_base, ..self }
    }

    fn duration(&self) -> (r: Option<Duration>)
        requires
            duration_defined(self.view()),
        ensures
            duration_result(self.view(), r),
    {
        if self.duration > 0 {
            let z = Timestamp::new(0, self.time_base);
            let d = Timestamp::new(self.duration, self.time_base);
            Some(d - z)
        } else {
            None
        }
    }

    fn duration_raw(&self, duration: Duration) -> (r: i64)
        requires
            duration_to_raw_defined(self.view().time_base, duration),
        ensures
            r == duration_to_raw(self.view().time_base, duration),
    {
        let d = Timestamp::new(0, self.time_base) + duration;
        d.timestamp()
    }

    fn pos(&self) -> (r: Option<u64>)
        ensures
            r == pos_of_raw(self.view().pos),
    {
        if self.pos >= 0 {
            Some(self.pos as u64)
        } else {
            None
        }
    }
}

fn raw_pos_of(pos: Option<u64>) -> (r: i64)
    ensures
        r == raw_pos(pos),
{
    match pos {
        Some(p) => if p <= 0x7fff_ffff_ffff_ffff {
            p as i64
        } else {
            -1
        },
        None => -1,
    }
}

/// Packet with mutable data.
pub struct PacketMut {
    fields: Fields,
}

impl View for PacketMut {
    type V = PacketView;

    closed spec fn view(&self) -> PacketView {
        self.fields.view()
    }
}

impl PacketMut {
    /// Create a new packet of a given size (its data are zeros). The time
    /// base of the packet will be in microseconds.
    pub fn new(size: usize) -> (r: PacketMut)
        ensures
            r@.data == Seq::new(size as nat, |i: int| 0u8),
            r@.pts == i64::MIN,
            r@.dts == i64::MIN,
            r@.duration == 0,
            r@.pos == -1,
            !r@.key,
            r@.stream_index == 0,
            r@.time_base.spec_num() == 1,
            r@.time_base.spec_den() == 1_000_000,
    {
        PacketMut { fields: Fields::new(size) }
    }

    /// Get stream index.
    pub fn stream_index(&self) -> (r: usize)
        ensures
            r == self@.stream_index as usize,
    {
        self.fields.stream_index as usize
    }

    /// Set stream index.
    pub fn with_stream_index(self, index: usize) -> (r: PacketMut)
        ensures
            r@ == (PacketView { stream_index: stored_index(index), ..self@ }),
    {
        PacketMut { fields: Fields { stream_index: index as i32, ..self.fields } }
    }

    /// Get packet time base.
    pub fn time_base(&self) -> (r: TimeBase)
        ensures
            r == self@.time_base,
    {
        self.fields.time_base
    }

    /// Set packet time base. (This will rescale the current timestamps into a
    /// given time base.)
    pub fn with_time_base(self, time_base: TimeBase) -> (r: PacketMut)
        ensures
            r@ == (PacketView {
                pts: rescale_raw(self@.pts, self@.time_base, time_base),
                dts: rescale_raw(self@.dts, self@.time_base, time_base),
                time_base,
                ..self@
            }),
    {
        PacketMut { fields: self.fields.with_time_base(time_base) }
    }

    /// Get packet presentation timestamp.
    pub fn pts(&self) -> (r: Timestamp)
        ensures
            r == Timestamp::spec_new(self@.pts, self@.time_base),
    {
        Timestamp::new(self.fields.pts, self.fields.time_base)
    }

    /// Set packet presentation timestamp (rescaled into the packet time base).
    pub fn with_pts(self, pts: Timestamp) -> (r: PacketMut)
        ensures
            r@ == (PacketView {
                pts: rescale_raw(pts.spec_timestamp(), pts.spec_time_base(), self@.time_base),
                ..self@
            }),
    {
        let pts = pts.with_time_base(self.fields.time_base).timestamp();
        PacketMut { fields: Fields { pts, ..self.fields } }
    }

    /// Set packet presentation timestamp without time base.
    pub fn with_raw_pts(self, pts: i64) -> (r: PacketMut)
        ensures
            r@ == (PacketView { pts, ..self@ }),
    {
        PacketMut { fields: Fields { pts, ..self.fields } }
    }

    /// Get packet decoding timestamp.
    pub fn dts(&self) -> (r: Timestamp)
        ensures
            r == Timestamp::spec_new(self@.dts, self@.time_base),
    {
        Timestamp::new(self.fields.dts, self.fields.time_base)
    }

    /// Set packet decoding timestamp (rescaled into the packet time base).
    pub fn with_dts(self, dts: Timestamp) -> (r: PacketMut)
        ensures
            r@ == (PacketView {
                dts: rescale_raw(dts.spec_timestamp(), dts.spec_time_base(), self@.time_base),
                ..self@
            }),
    {
        let dts = dts.with_time_base(self.fields.time_base).timestamp();
        PacketMut { fields: Fields { dts, ..self.fields } }
    }

    /// Set packet decoding timestamp without time base.
    pub fn with_raw_dts(self, dts: i64) -> (r: PacketMut)
        ensures
            r@ == (PacketView { dts, ..self@ }),
    {
        PacketMut { fields: Fields { dts, ..self.fields } }
    }

    /// Get packet duration.
    ///
    /// The method returns `None` if the duration is lower or equal to zero.
    pub fn duration(&self) -> (r: Option<Duration>)
        requires
            duration_defined(self@),
        ensures
            duration_result(self@, r),
    {
        self.fields.duration()
    }

    /// Set packet duration.
    pub fn with_duration(self, duration: Duration) -> (r: PacketMut)
        requires
            duration_to_raw_defined(self@.time_base, duration),
        ensures
            r@ == (PacketView { duration: duration_to_raw(self@.time_base, duration), ..self@ }),
    {
        let d = self.fields.duration_raw(duration);
        PacketMut { fields: Fields { duration: d, ..self.fields } }
    }

    /// Get packet duration in time base units.
    pub fn raw_duration(&self) -> (r: i64)
        ensures
            r == self@.duration,
    {
        self.fields.duration
    }

    /// Set packet duration in time base units.
    pub fn with_raw_duration(self, duration: i64) -> (r: PacketMut)
        ensures
            r@ == (PacketView { duration, ..self@ }),
    {
        PacketMut { fields: Fields { duration, ..self.fields } }
    }

    /// Check if the key flag is set.
    pub fn is_key(&self) -> (r: bool)
        ensures
            r == self@.key,
    {
        self.fields.key
    }

    /// Set or unset the key flag.
    pub fn with_key_flag(self, key: bool) -> (r: PacketMut)
        ensures
            r@ == (PacketView { key, ..self@ }),
    {
        PacketMut { fields: Fields { key, ..self.fields } }
    }

    /// Get packet data.
    pub fn data(&self) -> (r: &[u8])
        ensures
            r@ == self@.data,
    {
        self.fields.data.as_slice()
    }

    /// Get mutable reference to the packet data.
    pub fn data_mut(&mut self) -> (r: &mut [u8])
        ensures
            r@ == old(self)@.data,
            final(self)@ == (PacketView { data: final(r)@, ..old(self)@ }),
    {
        self.fields.data.as_mut_slice()
    }

    /// Get the byte position of the packet data within the input stream, if
    /// known.
    pub fn pos(&self) -> (r: Option<u64>)
        ensures
            r == pos_of_raw(self@.pos),
    {
        self.fields.pos()
    }

    /// Set the byte position of the packet data within the input stream.
    /// Like the native interface it mirrors, this consumes the packet and
    /// gives nothing back.
    pub fn with_pos(self, pos: Option<u64>) {
        let mut fields = self.fields;
        fields.pos = raw_pos_of(pos);
    }

    /// Make the packet immutable.
    pub fn freeze(self) -> (r: Packet)
        ensures
            r@ == self@,
    {
        Packet { fields: self.fields }
    }

    /// Create a packet holding a copy of given data.
    pub fn from_data(data: &[u8]) -> (r: PacketMut)
        ensures
            r@.data == data@,
            r@.pts == i64::MIN,
            r@.dts == i64::MIN,
            r@.duration == 0,
            r@.pos == -1,
            !r@.key,
            r@.stream_index == 0,
            r@.time_base.spec_num() == 1,
            r@.time_base.spec_den() == 1_000_000,
    {
        let mut packet = PacketMut::new(0);
        let mut i: usize = 0;
        while i < data.len()
            invariant
                i <= data@.len(),
                packet.fields.data@ == data@.subrange(0, i as int),
                packet.fields.pts == i64::MIN,
                packet.fields.dts == i64::MIN,
                packet.fields.duration == 0,
                packet.fields.pos == -1,
                !packet.fields.key,
                packet.fields.stream_index == 0,
                packet.fields.time_base.spec_num() == 1,
                packet.fields.time_base.spec_den() == 1_000_000,
            decreases data@.len() - i,
        {
            packet.fields.data.push(data[i]);
            i = i + 1;
        }
        assert(data@.subrange(0, data@.len() as int) == data@);
        packet
    }
}

/// Packet with immutable data.
pub struct Packet {
    fields: Fields,
}

impl View for Packet {
    type V = PacketView;

    closed spec fn view(&self) -> PacketView {
        self.fields.view()
    }
}

impl Packet {
    /// Get stream index.
    pub fn stream_index(&self) -> (r: usize)
        ensures
            r == self@.stream_index as usize,
    {
        self.fields.stream_index as usize
    }

    /// Set stream index.
    pub fn with_stream_index(self, index: usize) -> (r: Packet)
        ensures
            r@ == (PacketView { stream_index: stored_index(index), ..self@ }),
    {
        Packet { fields: Fields { stream_index: index as i32, ..self.fields } }
    }

    /// Get packet time base.
    pub fn time_base(&self) -> (r: TimeBase)
        ensures
            r == self@.time_base,
    {
        self.fields.time_base
    }

    /// Set packet time base. (This will rescale the current timestamps into a
    /// given time base.)
    pub fn with_time_base(self, time_base: TimeBase) -> (r: Packet)
        ensures
            r@ == (PacketView {
                pts: rescale_raw(self@.pts, self@.time_base, time_base),
                dts: rescale_raw(self@.dts, self@.time_base, time_base),
                time_base,
                ..self@
            }),
    {
        Packet { fields: self.fields.with_time_base(time_base) }
    }

    /// Get packet presentation timestamp.
    pub fn pts(&self) -> (r: Timestamp)
        ensures
            r == Timestamp::spec_new(self@.pts, self@.time_base),
    {
        Timestamp::new(self.fields.pts, self.fields.time_base)
    }

    /// Set packet presentation timestamp (rescaled into the packet time base).
    pub fn with_pts(self, pts: Timestamp) -> (r: Packet)
        ensures
            r@ == (PacketView {
                pts: rescale_raw(pts.spec_timestamp(), pts.spec_time_base(), self@.time_base),
                ..self@
            }),
    {
        let pts = pts.with_time_base(self.fields.time_base).timestamp();
        Packet { fields: Fields { pts, ..self.fields } }
    }

    /// Set packet presentation timestamp without time base.
    pub fn with_raw_pts(self, pts: i64) -> (r: Packet)
        ensures
            r@ == (PacketView { pts, ..self@ }),
    {
        Packet { fields: Fields { pts, ..self.fields } }
    }

    /// Get packet decoding timestamp.
    pub fn dts(&self) -> (r: Timestamp)
        ensures
            r == Timestamp::spec_new(self@.dts, self@.time_base),
    {
        Timestamp::new(self.fields.dts, self.fields.time_base)
    }

    /// Set packet decoding timestamp (rescaled into the packet time base).
    pub fn with_dts(self, dts: Timestamp) -> (r: Packet)
        ensures
            r@ == (PacketView {
                dts: rescale_raw(dts.spec_timestamp(), dts.spec_time_base(), self@.time_base),
                ..self@
            }),
    {
        let dts = dts.with_time_base(self.fields.time_base).timestamp();
        Packet { fields: Fields { dts, ..self.fields } }
    }

    /// Set packet decoding timestamp without time base.
    pub fn with_raw_dts(self, dts: i64) -> (r: Packet)
        ensures
            r@ == (PacketView { dts, ..self@ }),
    {
        Packet { fields: Fields { dts, ..self.fields } }
    }

    /// Get packet duration.
    ///
    /// The method returns `None` if the duration is lower or equal to zero.
    pub fn duration(&self) -> (r: Option<Duration>)
        requires
            duration_defined(self@),
        ensures
            duration_result(self@, r),
    {
        self.fields.duration()
    }

    /// Set packet duration.
    pub fn with_duration(self, duration: Duration) -> (r: Packet)
        requires
            duration_to_raw_defined(self@.time_base, duration),
        ensures
            r@ == (PacketView { duration: duration_to_raw(self@.time_base, duration), ..self@ }),
    {
        let d = self.fields.duration_raw(duration);
        Packet { fields: Fields { duration: d, ..self.fields } }
    }

    /// Get packet duration in time base units.
    pub fn raw_duration(&self) -> (r: i64)
        ensures
            r == self@.duration,
    {
        self.fields.duration
    }

    /// Set packet duration in time base units.
    pub fn with_raw_duration(self, duration: i64) -> (r: Packet)
        ensures
            r@ == (PacketView { duration, ..self@ }),
    {
        Packet { fields: Fields { duration, ..self.fields } }
    }

    /// Check if the key flag is set.
    pub fn is_key(&self) -> (r: bool)
        ensures
            r == self@.key,
    {
        self.fields.key
    }

    /// Get packet data.
    pub fn data(&self) -> (r: &[u8])
        ensures
            r@ == self@.data,
    {
        self.fields.data.as_slice()
    }

    /// Get the byte position of the packet data within the input stream, if
    /// known.
    pub fn pos(&self) -> (r: Option<u64>)
        ensures
            r == pos_of_raw(self@.pos),
    {
        self.fields.pos()
    }

    /// Try to make this packet mutable. The packet owns its data, so this
    /// always succeeds.
    pub fn try_into_mut(self) -> (r: Result<PacketMut, Packet>)
        ensures
            r matches Ok(p) && p@ == self@,
    {
        Ok(PacketMut { fields: self.fields })
    }

    /// Make this packet mutable.
    pub fn into_mut(self) -> (r: PacketMut)
        ensures
            r@ == self@,
    {
        PacketMut { fields: self.fields }
    }
}

/// Packet side data type (its raw native value).
#[derive(Copy, Clone, PartialEq, Eq, Structural)]
pub struct SideDataType(i32);

impl SideDataType {
    /// The raw value (model).
    pub closed spec fn spec_raw(self) -> i32 {
        self.0
    }

    /// Create a packet side data type value from a given raw representation.
    pub fn from_raw(v: i32) -> (r: SideDataType)
        ensures
            r.spec_raw() == v,
    {
        SideDataType(v)
    }

    /// Get the raw value.
    pub fn into_raw(self) -> (r: i32)
        ensures
            r == self.spec_raw(),
    {
        self.0
    }
}

/// Packet side data: a block of bytes with its type.
pub struct SideDataRef {
    data: Vec<u8>,
    data_type: SideDataType,
}

impl SideDataRef {
    /// The data (model).
    pub closed spec fn spec_data(self) -> Seq<u8> {
        self.data@
    }

    /// The type (model).
    pub closed spec fn spec_data_type(self) -> SideDataType {
        self.data_type
    }

    /// Side data of a given type holding given bytes.
    pub fn from_parts(data: Vec<u8>, data_type: SideDataType) -> (r: SideDataRef)
        ensures
            r.spec_data() == data@,
            r.spec_data_type() == data_type,
    {
        SideDataRef { data, data_type }
    }

    /// Get data.
    pub fn data(&self) -> (r: &[u8])
        ensures
            r@ == self.spec_data(),
    {
        self.data.as_slice()
    }

    /// Get data type.
    pub fn data_type(&self) -> (r: SideDataType)
        ensures
            r == self.spec_data_type(),
    {
        self.data_type
    }
}

/// Rescaling a packet into its own (valid) time base changes none of its
/// timestamps.
pub proof fn lemma_packet_own_time_base(v: PacketView)
    requires
        v.time_base.spec_valid(),
    ensures
        rescale_raw(v.pts, v.time_base, v.time_base) == v.pts,
        rescale_raw(v.dts, v.time_base, v.time_base) == v.dts,
{
    crate::time::lemma_own_time_base(Timestamp::spec_new(v.pts, v.time_base));
    crate::time::lemma_own_time_base(Timestamp::spec_new(v.dts, v.time_base));
}

/// Setting a known byte position below `i64::MAX` and reading it back gives
/// the position; an unknown position reads back as unknown.
pub proof fn lemma_pos_round_trip(pos: Option<u64>)
    ensures
        (pos matches Some(p) && p <= i64::MAX) ==> pos_of_raw(raw_pos(pos)) == pos,
        pos is None ==> pos_of_raw(raw_pos(pos)) is None,
{
}

} // verus!
