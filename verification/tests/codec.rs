use ac_ffmpeg::codec::audio::resampler::{AudioResampler, AudioResamplerError, ErrorKind};
use ac_ffmpeg::codec::audio::transcoder::ReadyQueue;
use ac_ffmpeg::codec::audio::{
    audio_plane_indices, AudioFrame, ChannelLayout, SampleFormat,
};
use ac_ffmpeg::codec::video::{Plane, PlaneMut};
use ac_ffmpeg::codec::{CodecError, CodecFlag, CodecFlag2, CodecTag};
use ac_ffmpeg::time::{TimeBase, Timestamp};
use ac_ffmpeg::Error;

#[test]
fn codec_flags_are_single_bits() {
    assert_eq!(CodecFlag::Unaligned.into_raw(), 1);
    assert_eq!(CodecFlag::Gray.into_raw(), 1 << 13);
    assert_eq!(CodecFlag::GlobalHeader.into_raw(), 1 << 22);
    assert_eq!(CodecFlag::ClosedGOP.into_raw(), i32::MIN);
    assert_eq!(CodecFlag2::Fast.into_raw(), 1);
    assert_eq!(CodecFlag2::ExportMVS.into_raw(), 1 << 28);
    assert_eq!(CodecFlag2::ICCProfiles.into_raw(), i32::MIN);
    let all = [
        CodecFlag::Unaligned, CodecFlag::QScale, CodecFlag::FourMV, CodecFlag::OutputCorrupt,
        CodecFlag::QPEL, CodecFlag::DropChanged, CodecFlag::ReconFrame, CodecFlag::CopyOpaque,
        CodecFlag::FrameDuration, CodecFlag::Pass1, CodecFlag::Pass2, CodecFlag::LoopFilter,
        CodecFlag::Gray, CodecFlag::PSNR, CodecFlag::Truncated, CodecFlag::InterlacedDCT,
        CodecFlag::LowDelay, CodecFlag::GlobalHeader, CodecFlag::BitExact, CodecFlag::ACPred,
        CodecFlag::InterlacedME, CodecFlag::ClosedGOP,
    ];
    let mut seen: u32 = 0;
    for f in all {
        let raw = f.into_raw() as u32;
        assert_eq!(raw.count_ones(), 1);
        assert_eq!(seen & raw, 0);
        seen |= raw;
    }
}

#[test]
fn codec_tag_conversions() {
    let tag = CodecTag::from(0x3163_7661u32);
    assert_eq!(u32::from(tag), 0x3163_7661);
    let tag = CodecTag::from(b"avc1");
    assert_eq!(tag.value(), u32::from_le_bytes(*b"avc1"));
    assert!(CodecTag::from(b"avc1") == CodecTag::from(0x3163_7661u32));
}

#[test]
fn codec_error_kinds() {
    let e = CodecError::again("try later".to_string());
    assert!(e.is_again());
    assert_eq!(e.kind(), ac_ffmpeg::codec::ErrorKind::Again);
    assert_eq!(e.again_message(), Some("try later"));
    assert!(e.into_inner().is_none());

    let e = CodecError::error("broken".to_string());
    assert!(!e.is_again());
    assert_eq!(e.kind(), ac_ffmpeg::codec::ErrorKind::Error);
    let inner = e.unwrap_inner();
    assert_eq!(inner.message(), Some("broken"));

    let e = CodecError::from_raw_error_code(-11);
    assert_eq!(e.into_inner().unwrap().raw_error_code(), Some(-11));

    let e = CodecError::from(Error::new("wrapped".to_string()));
    assert!(!e.is_again());

    let e = CodecError::new(ac_ffmpeg::codec::ErrorKind::Again, "x".to_string());
    assert!(e.is_again());
}

#[test]
fn error_carries_code_or_message() {
    let e = Error::new("unknown codec".to_string());
    assert_eq!(e.message(), Some("unknown codec"));
    assert_eq!(e.raw_error_code(), None);
    let e = Error::from_raw_error_code(-22);
    assert_eq!(e.message(), None);
    assert_eq!(e.raw_error_code(), Some(-22));
}

fn stereo() -> ChannelLayout {
    ChannelLayout::from_raw(3)
}

fn s16() -> SampleFormat {
    SampleFormat::from_raw(1)
}

#[test]
fn resampler_build_reports_first_missing_option() {
    let err = AudioResampler::builder().build().err().unwrap();
    assert_eq!(err.message(), Some("source channel layout was not set"));
    let err = AudioResampler::builder()
        .source_channel_layout(stereo())
        .build()
        .err()
        .unwrap();
    assert_eq!(err.message(), Some("source sample format was not set"));
    let err = AudioResampler::builder()
        .source_channel_layout(stereo())
        .source_sample_format(s16())
        .build()
        .err()
        .unwrap();
    assert_eq!(err.message(), Some("source sample rate was not set"));
    let err = AudioResampler::builder()
        .source_channel_layout(stereo())
        .source_sample_format(s16())
        .source_sample_rate(44_100)
        .build()
        .err()
        .unwrap();
    assert_eq!(err.message(), Some("target channel layout was not set"));
    let err = AudioResampler::builder()
        .source_channel_layout(stereo())
        .source_sample_format(s16())
        .source_sample_rate(44_100)
        .target_channel_layout(stereo())
        .build()
        .err()
        .unwrap();
    assert_eq!(err.message(), Some("target sample format was not set"));
    let err = AudioResampler::builder()
        .source_channel_layout(stereo())
        .source_sample_format(s16())
        .source_sample_rate(44_100)
        .target_channel_layout(stereo())
        .target_sample_format(s16())
        .build()
        .err()
        .unwrap();
    assert_eq!(err.message(), Some("target sample rate was not set"));
}

#[test]
fn resampler_checks_frames() {
    let resampler = AudioResampler::builder()
        .source_channel_layout(stereo())
        .source_sample_format(s16())
        .source_sample_rate(44_100)
        .target_channel_layout(ChannelLayout::from_raw(4))
        .target_sample_format(SampleFormat::from_raw(8))
        .target_sample_rate(48_000)
        .target_frame_samples(Some(1024))
        .build()
        .ok()
        .unwrap();
    assert_eq!(resampler.target_frame_samples(), 1024);
    assert_eq!(resampler.target_sample_rate(), 48_000);

    let pts = Timestamp::new(0, TimeBase::new(1, 44_100));
    let good = AudioFrame::from_parts(stereo(), s16(), 44_100, 1024, pts);
    assert!(resampler.check_frame(&good).is_ok());

    let bad_layout = AudioFrame::from_parts(ChannelLayout::from_raw(4), s16(), 44_100, 1024, pts);
    let e = resampler.check_frame(&bad_layout).err().unwrap();
    assert_eq!(e.kind(), ErrorKind::Error);
    assert_eq!(e.message(), "invalid frame, channel layout does not match");

    let bad_format = AudioFrame::from_parts(stereo(), SampleFormat::from_raw(8), 44_100, 1024, pts);
    let e = resampler.check_frame(&bad_format).err().unwrap();
    assert_eq!(e.message(), "invalid frame, sample format does not match");

    let bad_rate = AudioFrame::from_parts(stereo(), s16(), 48_000, 1024, pts);
    let e = resampler.check_frame(&bad_rate).err().unwrap();
    assert_eq!(e.message(), "invalid frame, sample rate does not match");
}

#[test]
fn resampler_without_frame_size_uses_zero() {
    let resampler = AudioResampler::builder()
        .source_channel_layout(stereo())
        .source_sample_format(s16())
        .source_sample_rate(44_100)
        .target_channel_layout(stereo())
        .target_sample_format(s16())
        .target_sample_rate(44_100)
        .build()
        .ok()
        .unwrap();
    assert_eq!(resampler.target_frame_samples(), 0);
}

#[test]
fn resampler_status_codes() {
    assert!(AudioResampler::push_status(1).is_ok());
    let e = AudioResampler::push_status(0).err().unwrap();
    assert_eq!(e.kind(), ErrorKind::Again);
    assert_eq!(e.message(), "all frames must be consumed before pushing a new frame");
    let e = AudioResampler::push_status(-5).err().unwrap();
    assert_eq!(e.kind(), ErrorKind::Error);
    assert_eq!(e.message(), "audio resampler error");
    assert!(AudioResampler::flush_status(1).is_ok());
    let e = AudioResampler::flush_status(0).err().unwrap();
    assert_eq!(e.message(), "all frames must be consumed before flushing");
    assert_eq!(AudioResampler::take_status(1).ok(), Some(true));
    assert_eq!(AudioResampler::take_status(0).ok(), Some(false));
    assert!(AudioResampler::take_status(-1).is_err());
    let e = AudioResamplerError::new(ErrorKind::Again, "again".to_string());
    assert_eq!(e.kind(), ErrorKind::Again);
}

#[test]
fn audio_frame_time_base_rescales_pts() {
    let pts = Timestamp::new(44_100, TimeBase::new(1, 44_100));
    let frame = AudioFrame::from_parts(stereo(), s16(), 44_100, 1024, pts);
    let frame = frame.with_time_base(TimeBase::new(1, 1000));
    assert_eq!(frame.pts().timestamp(), 1000);
    assert_eq!(frame.samples(), 1024);
    let frame = frame.with_pts(Timestamp::from_secs(2));
    assert_eq!(frame.pts().timestamp(), 2000);
}

#[test]
fn audio_planes() {
    assert_eq!(audio_plane_indices(true, 3), vec![0, 1, 2]);
    assert_eq!(audio_plane_indices(false, 3), vec![0]);
    assert_eq!(audio_plane_indices(true, 0), Vec::<usize>::new());
}

#[test]
fn ready_queue_is_first_in_first_out() {
    let mut q: ReadyQueue<u32> = ReadyQueue::new();
    assert!(q.check_push().is_ok());
    assert!(q.check_flush().is_ok());
    q.push_to_output(1);
    q.push_to_output(2);
    let e = q.check_push().err().unwrap();
    assert!(e.is_again());
    assert_eq!(
        e.again_message(),
        Some("take all transcoded packets before pushing another packet for transcoding")
    );
    let e = q.check_flush().err().unwrap();
    assert_eq!(
        e.again_message(),
        Some("take all transcoded packets before flushing the transcoder")
    );
    assert_eq!(q.take(), Some(1));
    assert_eq!(q.take(), Some(2));
    assert_eq!(q.take(), None);
    assert!(q.check_push().is_ok());
}

#[test]
fn plane_lines() {
    let data: Vec<u8> = (0..12).collect();
    let plane = Plane::new(&data, 4, 3);
    assert_eq!(plane.line(0), Some(&data[0..4]));
    assert_eq!(plane.line(2), Some(&data[8..12]));
    assert_eq!(plane.line(3), None);
    let mut lines = plane.lines();
    assert_eq!(lines.next(), Some(&data[0..4]));
    assert_eq!(lines.next(), Some(&data[4..8]));
    assert_eq!(lines.next(), Some(&data[8..12]));
    assert_eq!(lines.next(), None);
}

#[test]
fn plane_mut_lines() {
    let mut data: Vec<u8> = vec![0; 6];
    {
        let mut plane = PlaneMut::new(&mut data, 3, 2);
        if let Some(line) = plane.line_mut(1) {
            line[0] = 7;
        }
        assert!(plane.line_mut(2).is_none());
        let mut lines = plane.lines_mut();
        let first = lines.next().unwrap();
        first[2] = 9;
        assert!(lines.next().is_some());
        assert!(lines.next().is_none());
    }
    assert_eq!(data, vec![0, 0, 9, 7, 0, 0]);
}
