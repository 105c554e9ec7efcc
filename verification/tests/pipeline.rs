use ac_ffmpeg::codec::audio::transcoder::{
    passes_to_resampler, transcode_step, Action, AudioParameters, AudioTranscoderBuilder, Event, Phase, Stage,
};
use ac_ffmpeg::codec::audio::{AudioFrame, ChannelLayout, SampleFormat};
use ac_ffmpeg::format::io::{
    flush_status, seek_action, seek_status, transfer_status, write_action, IoFailure, IoStatus,
    SeekAction, SeekStatus, WriteAction,
};
use ac_ffmpeg::packet::{SideDataRef, SideDataType};
use ac_ffmpeg::format::demuxer::{max_analyze_micros, read_result};
use ac_ffmpeg::time::{Duration, TimeBase, Timestamp};

fn params(format: i32, rate: u32, layout: u64) -> AudioParameters {
    AudioParameters {
        sample_format: SampleFormat::from_raw(format),
        sample_rate: rate,
        channel_layout: ChannelLayout::from_raw(layout),
    }
}

#[test]
fn transcoder_configures_each_stage() {
    let builder = AudioTranscoderBuilder::new(params(1, 44_100, 3), params(8, 48_000, 4));

    let tb = builder.decoder_time_base();
    assert_eq!((tb.num(), tb.den()), (1, 44_100));

    let encoder = builder.encoder().ok().unwrap();
    assert_eq!((encoder.time_base().num(), encoder.time_base().den()), (1, 48_000));
    assert_eq!(encoder.sample_format().into_raw(), 8);
    assert_eq!(encoder.sample_rate(), 48_000);
    assert_eq!(encoder.channel_layout().into_raw(), 4);

    let resampler = builder.resampler(Some(1024)).ok().unwrap();
    assert_eq!(resampler.source_sample_format().into_raw(), 1);
    assert_eq!(resampler.source_sample_rate(), 44_100);
    assert_eq!(resampler.source_channel_layout().into_raw(), 3);
    assert_eq!(resampler.target_sample_format().into_raw(), 8);
    assert_eq!(resampler.target_sample_rate(), 48_000);
    assert_eq!(resampler.target_channel_layout().into_raw(), 4);
    assert_eq!(resampler.target_frame_samples(), 1024);

    let unrestricted = builder.resampler(None).ok().unwrap();
    assert_eq!(unrestricted.target_frame_samples(), 0);
}

#[test]
fn padding_frames_are_dropped() {
    let tb = TimeBase::new(1, 48_000);
    let frame = |pts: Timestamp| {
        AudioFrame::from_parts(ChannelLayout::from_raw(3), SampleFormat::from_raw(1), 48_000, 1024, pts)
    };
    assert!(passes_to_resampler(&frame(Timestamp::new(0, tb))));
    assert!(passes_to_resampler(&frame(Timestamp::new(1024, tb))));
    assert!(!passes_to_resampler(&frame(Timestamp::new(-1024, tb))));
    assert!(!passes_to_resampler(&frame(Timestamp::null())));
}

#[test]
fn transfer_statuses() {
    assert!(transfer_status(Ok(4096)) == IoStatus::Done(4096));
    assert!(transfer_status(Ok(0)) == IoStatus::EndOfStream);
    let posix = IoFailure { os_code: Some(5), would_block: false };
    assert!(transfer_status(Err(posix)) == IoStatus::Posix(5));
    let posix_blocking = IoFailure { os_code: Some(11), would_block: true };
    assert!(transfer_status(Err(posix_blocking)) == IoStatus::Posix(11));
    let blocking = IoFailure { os_code: None, would_block: true };
    assert!(transfer_status(Err(blocking)) == IoStatus::WouldBlock);
    let other = IoFailure { os_code: None, would_block: false };
    assert!(transfer_status(Err(other)) == IoStatus::Unknown);
}

#[test]
fn flush_statuses() {
    assert!(flush_status(Ok(())) == IoStatus::Done(0));
    let blocking = IoFailure { os_code: None, would_block: true };
    assert!(flush_status(Err(blocking)) == IoStatus::WouldBlock);
    let posix = IoFailure { os_code: Some(32), would_block: false };
    assert!(flush_status(Err(posix)) == IoStatus::Posix(32));
}

#[test]
fn write_or_flush() {
    assert!(write_action(false, 10) == WriteAction::Write);
    assert!(write_action(false, 0) == WriteAction::Flush);
    assert!(write_action(true, 10) == WriteAction::Flush);
    assert!(write_action(false, -1) == WriteAction::Flush);
}

#[test]
fn seek_callback_requests() {
    assert!(seek_action(true, 100) == SeekAction::QueryLength);
    assert!(seek_action(false, 100) == SeekAction::SeekTo(100));
    assert!(seek_action(false, -1) == SeekAction::SeekTo(u64::MAX));
    assert!(seek_status(Ok(1234)) == SeekStatus::Position(1234));
    assert!(seek_status(Ok(u64::MAX)) == SeekStatus::Position(-1));
    assert!(seek_status(Err(Some(22))) == SeekStatus::Failed(IoStatus::Posix(22)));
    assert!(seek_status(Err(None)) == SeekStatus::Failed(IoStatus::Unknown));
}

#[test]
fn side_data_parts() {
    let side = SideDataRef::from_parts(vec![1, 2, 3], SideDataType::from_raw(7));
    assert_eq!(side.data(), &[1, 2, 3]);
    assert_eq!(side.data_type().into_raw(), 7);
}

#[test]
fn channel_counts() {
    assert_eq!(ChannelLayout::from_raw(0).channels(), 0);
    assert_eq!(ChannelLayout::from_raw(0x4).channels(), 1);
    assert_eq!(ChannelLayout::from_raw(0x3).channels(), 2);
    assert_eq!(ChannelLayout::from_raw(0x3f).channels(), 6);
    assert_eq!(ChannelLayout::from_raw(u64::MAX).channels(), 64);
    assert_eq!(ChannelLayout::from_raw(0x60f).as_ref().channels(), 6);
}

#[test]
fn lookups() {
    assert!(ChannelLayout::from_lookup(0).is_none());
    assert_eq!(ChannelLayout::from_lookup(3).map(|l| l.into_raw()), Some(3));
    assert!(SampleFormat::from_lookup(-1, true).is_err());
    assert_eq!(SampleFormat::from_lookup(1, false).ok().map(|f| f.into_raw()), Some(1));
}

#[test]
fn analyze_duration_in_micros() {
    assert_eq!(max_analyze_micros(None), 0);
    assert_eq!(max_analyze_micros(Some(Duration::from_secs(5))), 5_000_000);
    assert_eq!(max_analyze_micros(Some(Duration::new(1, 1_999))), 1_000_001);
    assert_eq!(max_analyze_micros(Some(Duration::from_nanos(999))), 0);
}

#[test]
fn demuxer_reads() {
    assert_eq!(read_result(-11, true, 1, 90_000).err().and_then(|e| e.raw_error_code()), Some(-11));
    assert!(matches!(read_result(0, false, 1, 90_000), Ok(None)));
    let tb = read_result(0, true, 1, 90_000).ok().flatten().unwrap();
    assert_eq!((tb.num(), tb.den()), (1, 90_000));
}

#[test]
fn encoder_open_status() {
    let builder = AudioTranscoderBuilder::new(params(1, 44_100, 3), params(8, 48_000, 4));
    let opened = builder.encoder().ok().unwrap().opened(0).ok().unwrap();
    assert_eq!(opened.sample_rate(), 48_000);
    let failed = builder.encoder().ok().unwrap().opened(-1).err().unwrap();
    assert_eq!(failed.message(), Some("unable to build the encoder"));
}

#[test]
fn transcoder_push_routes_items() {
    let p = Phase::Pushing;
    assert!(transcode_step(p, Event::Accepted(Stage::Decoder)) == (p, Action::Take(Stage::Decoder)));
    assert!(transcode_step(p, Event::Taken(Stage::Decoder, -1024)) == (p, Action::Discard));
    assert!(transcode_step(p, Event::Taken(Stage::Decoder, 0)) == (p, Action::Push(Stage::Resampler)));
    assert!(transcode_step(p, Event::Taken(Stage::Resampler, -5)) == (p, Action::Push(Stage::Encoder)));
    assert!(transcode_step(p, Event::Taken(Stage::Encoder, 7)) == (p, Action::Output));
    assert!(transcode_step(p, Event::Drained(Stage::Encoder)) == (p, Action::Take(Stage::Resampler)));
    assert!(transcode_step(p, Event::Drained(Stage::Resampler)) == (p, Action::Take(Stage::Decoder)));
    assert!(transcode_step(p, Event::Drained(Stage::Decoder)) == (p, Action::Done));
}

#[test]
fn transcoder_flush_goes_through_each_stage() {
    let fd = Phase::Flushing(Stage::Decoder);
    let fr = Phase::Flushing(Stage::Resampler);
    let fe = Phase::Flushing(Stage::Encoder);
    // frames flushed out of the decoder are not filtered
    assert!(transcode_step(fd, Event::Taken(Stage::Decoder, -1024)) == (fd, Action::Push(Stage::Resampler)));
    assert!(transcode_step(fd, Event::Drained(Stage::Resampler)) == (fd, Action::Take(Stage::Decoder)));
    assert!(transcode_step(fd, Event::Drained(Stage::Decoder)) == (fr, Action::Flush(Stage::Resampler)));
    assert!(transcode_step(fr, Event::Drained(Stage::Encoder)) == (fr, Action::Take(Stage::Resampler)));
    assert!(transcode_step(fr, Event::Drained(Stage::Resampler)) == (fe, Action::Flush(Stage::Encoder)));
    assert!(transcode_step(fe, Event::Accepted(Stage::Encoder)) == (fe, Action::Take(Stage::Encoder)));
    assert!(transcode_step(fe, Event::Drained(Stage::Encoder)) == (fe, Action::Done));
}
