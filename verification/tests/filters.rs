use ac_ffmpeg::codec::bsf::{take_packet_result, BitstreamFilter};
use ac_ffmpeg::codec::subtitle::SubtitleTranscoder;
use ac_ffmpeg::codec::video::encoder::VideoEncoderBuilder;
use ac_ffmpeg::codec::video::PixelFormat;
use ac_ffmpeg::time::TimeBase;

const AGAIN: i32 = -11;
const EOF: i32 = -541_478_725;

#[test]
fn bitstream_filter_time_bases() {
    let builder = BitstreamFilter::builder();
    assert_eq!(builder.init_arguments(), (1, 1_000_000, 1, 1_000_000));
    let builder = builder
        .input_time_base(TimeBase::new(1, 90_000))
        .output_time_base(TimeBase::new(1, 1000));
    assert_eq!(builder.init_arguments(), (1, 90_000, 1, 1000));
    let filter = builder.build(0).ok().unwrap();
    assert_eq!(filter.output_time_base().den(), 1000);
}

#[test]
fn bitstream_filter_init_failure() {
    let builder = BitstreamFilter::builder();
    assert_eq!(builder.build(-22).err().and_then(|e| e.raw_error_code()), Some(-22));
}

#[test]
fn bitstream_filter_takes() {
    let filter = BitstreamFilter::builder().output_time_base(TimeBase::new(1, 48_000)).build(0).ok().unwrap();
    assert!(matches!(filter.take_result(AGAIN, AGAIN, EOF, false), Ok(None)));
    assert!(matches!(filter.take_result(EOF, AGAIN, EOF, false), Ok(None)));
    assert_eq!(filter.take_result(-5, AGAIN, EOF, false).err().and_then(|e| e.raw_error_code()), Some(-5));
    let tb = filter.take_result(0, AGAIN, EOF, true).ok().flatten().unwrap();
    assert_eq!((tb.num(), tb.den()), (1, 48_000));
    assert!(matches!(take_packet_result(AGAIN, AGAIN, EOF, false, TimeBase::new(1, 1)), Ok(None)));
}

#[test]
fn subtitle_input_time_base_sets_output() {
    let builder = SubtitleTranscoder::builder().input_time_base(TimeBase::new(1, 25));
    assert_eq!(builder.open_arguments(), (1, 1_000_000, 1, 25));
    let builder = builder.output_time_base(TimeBase::new(1, 1000));
    assert_eq!(builder.open_arguments(), (1, 1_000_000, 1, 1000));
}

#[test]
fn subtitle_open_status() {
    let builder = SubtitleTranscoder::builder();
    assert_eq!(builder.build(1).err().and_then(|e| e.raw_error_code()), Some(1));
    let builder = SubtitleTranscoder::builder().output_time_base(TimeBase::new(1, 100));
    let transcoder = builder.build(0).ok().unwrap();
    assert_eq!(transcoder.output_time_base().den(), 100);
    let tb = transcoder.take_result(0, AGAIN, EOF, true).ok().flatten().unwrap();
    assert_eq!(tb.den(), 100);
}

#[test]
fn subtitle_push_statuses() {
    assert!(SubtitleTranscoder::push_result(0, AGAIN).is_ok());
    assert!(SubtitleTranscoder::push_result(AGAIN, AGAIN).is_ok());
    assert_eq!(SubtitleTranscoder::push_result(-22, AGAIN).err().and_then(|e| e.raw_error_code()), Some(-22));
}

#[test]
fn video_encoder_requires_format_and_size() {
    let err = VideoEncoderBuilder::new().width(640).height(480).build().err().unwrap();
    assert_eq!(err.message(), Some("pixel format not set"));
    let err = VideoEncoderBuilder::new().pixel_format(PixelFormat::from_raw(0)).height(480).build().err().unwrap();
    assert_eq!(err.message(), Some("width not set"));
    let err = VideoEncoderBuilder::new().pixel_format(PixelFormat::from_raw(0)).width(640).build().err().unwrap();
    assert_eq!(err.message(), Some("height not set"));

    let encoder = VideoEncoderBuilder::new()
        .pixel_format(PixelFormat::from_raw(0))
        .width(640)
        .height(480)
        .time_base(TimeBase::new(1, 25))
        .build()
        .ok()
        .unwrap();
    assert_eq!(encoder.pixel_format().into_raw(), 0);
    assert_eq!((encoder.width(), encoder.height()), (640, 480));
    assert_eq!(encoder.time_base().den(), 25);
    assert_eq!(encoder.native_dimensions(), (640, 480));
    let failed = encoder.opened(-1).err().unwrap();
    assert_eq!(failed.message(), Some("unable to build the encoder"));

    let from_params = VideoEncoderBuilder::from_parameters(PixelFormat::from_raw(3), 2, 3).build().ok().unwrap();
    assert_eq!(from_params.time_base().den(), 1_000_000);
    assert!(from_params.opened(0).is_ok());
}
