use ac_ffmpeg::codec::audio::decoder::AudioDecoder;
use ac_ffmpeg::codec::audio::resampler::AudioResampler;
use ac_ffmpeg::codec::audio::encoder::AudioEncoderBuilder;
use ac_ffmpeg::codec::audio::{audio_planes, AudioFrame, ChannelLayout, SampleFormat};
use ac_ffmpeg::codec::video::decoder::VideoDecoder;
use ac_ffmpeg::codec::video::encoder::VideoEncoderBuilder;
use ac_ffmpeg::codec::video::PixelFormat;
use ac_ffmpeg::packet::PacketMut;
use ac_ffmpeg::time::{TimeBase, Timestamp};

#[test]
fn audio_decoder_time_base() {
    let builder = AudioDecoder::builder();
    assert_eq!(builder.packet_time_base_arguments(), (1, 1_000_000));
    let builder = builder.time_base(TimeBase::new(1, 44_100));
    assert_eq!(builder.packet_time_base_arguments(), (1, 44_100));
    let decoder = builder.build(0).ok().unwrap();
    assert_eq!(decoder.time_base().den(), 44_100);

    let packet = PacketMut::new(0)
        .with_time_base(TimeBase::new(1, 1000))
        .with_pts(Timestamp::new(1000, TimeBase::new(1, 1000)))
        .freeze();
    let packet = decoder.packet_for_decoding(packet);
    assert_eq!(packet.time_base().den(), 44_100);
    assert_eq!(packet.pts().timestamp(), 44_100);
    assert!(packet.dts().is_null());
}

#[test]
fn audio_decoder_open_failure() {
    let err = AudioDecoder::builder().build(-1).err().unwrap();
    assert_eq!(err.message(), Some("unable to build the decoder"));
}

#[test]
fn decoder_statuses() {
    assert!(AudioDecoder::push_result(1).is_ok());
    let again = AudioDecoder::push_result(0).err().unwrap();
    assert_eq!(again.again_message(), Some("all frames must be consumed before pushing a new packet"));
    let again = AudioDecoder::flush_result(0).err().unwrap();
    assert_eq!(again.again_message(), Some("all frames must be consumed before flushing"));
    let err = AudioDecoder::flush_result(-5).err().unwrap();
    assert_eq!(err.into_inner().and_then(|e| e.raw_error_code()), Some(-5));

    let decoder = VideoDecoder::builder().time_base(TimeBase::new(1, 25)).build(0).ok().unwrap();
    assert_eq!(decoder.take_result(1).ok().flatten().map(|tb| tb.den()), Some(25));
    assert!(matches!(decoder.take_result(0), Ok(None)));
    assert_eq!(decoder.take_result(-7).err().and_then(|e| e.raw_error_code()), Some(-7));
    assert!(VideoDecoder::builder().build(2).is_err());
}

#[test]
fn encoder_statuses() {
    let encoder = AudioEncoderBuilder::from_parameters(SampleFormat::from_raw(1), 48_000, ChannelLayout::from_raw(3))
        .time_base(TimeBase::new(1, 48_000))
        .build()
        .ok()
        .unwrap();
    let again = ac_ffmpeg::codec::audio::encoder::AudioEncoder::push_result(0).err().unwrap();
    assert_eq!(again.again_message(), Some("all packets must be consumed before pushing a new frame"));
    let again = ac_ffmpeg::codec::audio::encoder::AudioEncoder::flush_result(0).err().unwrap();
    assert_eq!(again.again_message(), Some("all packets must be consumed before flushing"));
    assert_eq!(encoder.take_result(1).ok().flatten().map(|tb| tb.den()), Some(48_000));

    let frame = AudioFrame::from_parts(
        ChannelLayout::from_raw(3),
        SampleFormat::from_raw(1),
        48_000,
        1024,
        Timestamp::new(500, TimeBase::new(1, 1000)),
    );
    let frame = encoder.frame_for_encoding(frame);
    assert_eq!(frame.time_base().den(), 48_000);
    assert_eq!(frame.pts().timestamp(), 24_000);

    let video = VideoEncoderBuilder::new()
        .pixel_format(PixelFormat::from_raw(0))
        .width(16)
        .height(16)
        .build()
        .ok()
        .unwrap();
    assert!(matches!(video.take_result(0), Ok(None)));
    assert_eq!(video.take_result(1).ok().flatten().map(|tb| tb.den()), Some(1_000_000));
}

#[test]
fn resampler_time_bases() {
    let resampler = AudioResampler::builder()
        .source_channel_layout(ChannelLayout::from_raw(3))
        .source_sample_format(SampleFormat::from_raw(1))
        .source_sample_rate(44_100)
        .target_channel_layout(ChannelLayout::from_raw(3))
        .target_sample_format(SampleFormat::from_raw(8))
        .target_sample_rate(48_000)
        .build()
        .ok()
        .unwrap();
    let src = resampler.source_time_base();
    assert_eq!((src.num(), src.den()), (1, 44_100));
    let frame = AudioFrame::from_parts(
        ChannelLayout::from_raw(3),
        SampleFormat::from_raw(1),
        44_100,
        1024,
        Timestamp::new(2, TimeBase::new(1, 1)),
    );
    let frame = resampler.frame_for_resampling(frame);
    assert_eq!(frame.pts().timestamp(), 88_200);
    assert_eq!(frame.time_base().den(), 44_100);
    let tb = resampler.take_result(1).ok().flatten().unwrap();
    assert_eq!((tb.num(), tb.den()), (1, 48_000));
    assert!(matches!(resampler.take_result(0), Ok(None)));
    assert_eq!(resampler.take_result(-1).err().and_then(|e| e.raw_error_code()), Some(-1));

    use_try_results(&resampler);
}

fn use_try_results(resampler: &AudioResampler) {
    assert!(AudioResampler::try_push_result(1).is_ok());
    let again = AudioResampler::try_push_result(0).err().unwrap();
    assert_eq!(again.again_message(), Some("all frames must be consumed before pushing a new frame"));
    let err = AudioResampler::try_push_result(-22).err().unwrap();
    assert_eq!(err.into_inner().and_then(|e| e.raw_error_code()), Some(-22));
    let again = AudioResampler::try_flush_result(0).err().unwrap();
    assert_eq!(again.again_message(), Some("all frames must be consumed before flushing"));
    let err = AudioResampler::try_flush_result(-5).err().unwrap();
    assert_eq!(err.into_inner().and_then(|e| e.raw_error_code()), Some(-5));

    let ok = AudioFrame::from_parts(ChannelLayout::from_raw(3), SampleFormat::from_raw(1), 44_100, 16, Timestamp::null());
    assert!(resampler.try_check_frame(&ok).is_ok());
    let wrong_rate = AudioFrame::from_parts(ChannelLayout::from_raw(3), SampleFormat::from_raw(1), 8_000, 16, Timestamp::null());
    let err = resampler.try_check_frame(&wrong_rate).err().unwrap();
    assert!(!err.is_again());
    assert_eq!(err.into_inner().and_then(|e| e.message().map(|m| m.to_string())).as_deref(), Some("invalid frame, sample rate does not match"));
}

#[test]
fn audio_plane_layouts() {
    let planar = audio_planes(true, 3, 4096);
    assert_eq!(planar.len(), 3);
    for (i, p) in planar.iter().enumerate() {
        assert_eq!(p.index, i);
        assert_eq!(p.len, 4096);
    }
    let packed = audio_planes(false, 6, 8192);
    assert_eq!(packed.len(), 1);
    assert_eq!((packed[0].index, packed[0].len), (0, 8192));
}
