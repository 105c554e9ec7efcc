use ac_ffmpeg::error::status_result;
use ac_ffmpeg::format::demuxer::{
    seek_to_byte, seek_to_frame, seek_to_timestamp, SeekTarget, SeekType,
};
use ac_ffmpeg::format::io::MemWriter;
use ac_ffmpeg::packet::PacketMut;
use ac_ffmpeg::stream::Stream;
use ac_ffmpeg::time::{Duration, TimeBase, Timestamp};

#[test]
fn new_packet_defaults() {
    let p = PacketMut::new(4);
    assert_eq!(p.data(), &[0, 0, 0, 0]);
    assert!(p.pts().is_null());
    assert!(p.dts().is_null());
    assert_eq!(p.raw_duration(), 0);
    assert_eq!(p.duration(), None);
    assert_eq!(p.pos(), None);
    assert!(!p.is_key());
    assert_eq!(p.stream_index(), 0);
    assert_eq!(p.time_base().den(), 1_000_000);
}

#[test]
fn packet_time_base_rescales_timestamps() {
    let p = PacketMut::from_data(&[1, 2, 3])
        .with_pts(Timestamp::from_millis(1_500))
        .with_raw_dts(1_000_000)
        .with_time_base(TimeBase::new(1, 1000));
    assert_eq!(p.pts().timestamp(), 1_500);
    assert_eq!(p.dts().timestamp(), 1_000);
    assert_eq!(p.data(), &[1, 2, 3]);
    let frozen = p.freeze();
    let q = frozen.with_time_base(TimeBase::new(1, 1));
    assert_eq!(q.pts().timestamp(), 2);
    assert_eq!(q.dts().timestamp(), 1);
}

#[test]
fn packet_duration_conversions() {
    let p = PacketMut::new(0)
        .with_time_base(TimeBase::new(1, 90_000))
        .with_duration(Duration::from_millis(40));
    assert_eq!(p.raw_duration(), 3_600);
    let d = p.duration().unwrap();
    assert_eq!(d.as_secs(), 0);
    assert_eq!(d.subsec_nanos(), 40_000_000);
    let p = p.with_raw_duration(-3);
    assert_eq!(p.duration(), None);
}

#[test]
fn packet_flags_and_index() {
    let mut p = PacketMut::new(2).with_key_flag(true).with_stream_index(3);
    assert!(p.is_key());
    assert_eq!(p.stream_index(), 3);
    p.data_mut()[1] = 5;
    assert_eq!(p.data(), &[0, 5]);
    let frozen = p.freeze();
    assert_eq!(frozen.data(), &[0, 5]);
    let back = frozen.try_into_mut().ok().unwrap();
    assert_eq!(back.data(), &[0, 5]);
}

#[test]
fn mem_writer_takes_what_was_written() {
    let mut w = MemWriter::new();
    assert_eq!(w.write(&[1, 2]), 2);
    assert_eq!(w.write(&[3]), 1);
    w.flush();
    assert_eq!(w.take_data(), vec![1, 2, 3]);
    assert_eq!(w.take_data(), Vec::<u8>::new());
    let mut d = MemWriter::default();
    d.write(&[9]);
    assert_eq!(d.take_data(), vec![9]);
}

#[test]
fn seek_requests() {
    let r = seek_to_timestamp(Timestamp::from_millis(1_500), SeekTarget::UpTo).ok().unwrap();
    assert_eq!(r.position, 1_500_000);
    assert_eq!(r.seek_type, SeekType::Time.to_raw());
    assert_eq!(r.seek_target, 1);
    let e = seek_to_timestamp(Timestamp::null(), SeekTarget::From).err().unwrap();
    assert_eq!(e.message(), Some("Timestamp is null"));
    let r = seek_to_frame(42, SeekTarget::Precise);
    assert_eq!(r.position, 42);
    assert_eq!(r.seek_type, 2);
    assert_eq!(r.seek_target, 2);
    let r = seek_to_byte(1024);
    assert_eq!(r.position, 1024);
    assert_eq!(r.seek_type, 1);
    assert_eq!(r.seek_target, SeekTarget::Precise.to_raw());
    assert!(status_result(0).is_ok());
    assert_eq!(status_result(-1).err().unwrap().raw_error_code(), Some(-1));
}

#[test]
fn stream_information() {
    let s = Stream::from_parts(1, TimeBase::new(1, 25), 0, 250, 0);
    assert_eq!(s.id(), 1);
    assert_eq!(s.duration().timestamp(), 250);
    assert_eq!(s.frame_count(), None);
    let s = Stream::from_parts(1, TimeBase::new(1, 25), 0, 250, 250);
    assert_eq!(s.frame_count(), Some(250));
    assert_eq!(s.start_time().as_secs(), Some(0));
}
