use ac_ffmpeg::time::{TimeBase, Timestamp};
use ac_ffmpeg::codec::filter::VideoFilter;
use ac_ffmpeg::codec::{push_status, take_status};
use ac_ffmpeg::codec::audio::encoder::{AudioEncoder, AudioEncoderBuilder};
use ac_ffmpeg::codec::audio::{ChannelLayout, SampleFormat};
use ac_ffmpeg::locate::{ffmpeg_dirs, link_mode, normalized_target, path_from_env, replace_char, target_var_name};
use ac_ffmpeg::math::Rational;
use ac_ffmpeg::video::{Algorithm, FrameScaler};

#[test]
fn rational_parts() {
    let r = Rational::new(30_000, 1001);
    assert_eq!(r.num(), 30_000);
    assert_eq!(r.den(), 1001);
}

#[test]
fn target_names() {
    assert_eq!(normalized_target("x86_64-unknown-linux-gnu"), "X86_64_UNKNOWN_LINUX_GNU");
    assert_eq!(
        target_var_name("FFMPEG_INCLUDE_DIR", "X86_64_UNKNOWN_LINUX_GNU"),
        "FFMPEG_INCLUDE_DIR_X86_64_UNKNOWN_LINUX_GNU"
    );
}

#[test]
fn char_replacement() {
    assert_eq!(replace_char("a-b--c", '-', "_"), "a_b__c");
    assert_eq!(replace_char("", '-', "_"), "");
    assert_eq!(replace_char("x-y", '-', "::"), "x::y");
    assert_eq!(replace_char("žluť-kůň", 'ů', "u"), "žluť-kuň");
    assert_eq!(replace_char("abc", 'b', ""), "ac");
}

#[test]
fn static_linking_switch() {
    assert_eq!(link_mode(None), "dylib");
    assert_eq!(link_mode(Some("0")), "dylib");
    assert_eq!(link_mode(Some("1")), "static");
    assert_eq!(link_mode(Some("")), "static");
    assert_eq!(link_mode(Some("00")), "static");
}

#[test]
fn env_path_precedence() {
    assert_eq!(path_from_env(Some("a"), Some("b")), Some("a"));
    assert_eq!(path_from_env(None, Some("b")), Some("b"));
    assert_eq!(path_from_env::<&str>(None, None), None);
}

#[test]
fn dir_selection() {
    assert_eq!(ffmpeg_dirs(Some("/x"), true, Some(vec!["/y"])), Some(vec!["/x"]));
    assert_eq!(ffmpeg_dirs(Some("/x"), false, Some(vec!["/y"])), Some(vec!["/y"]));
    assert_eq!(ffmpeg_dirs(None, true, Some(vec!["/y", "/z"])), Some(vec!["/y", "/z"]));
    assert_eq!(ffmpeg_dirs::<&str>(None, false, None), None);
}

#[test]
fn scaler_configuration() {
    assert_eq!(Algorithm::FastBilinear.id(), 0);
    assert_eq!(Algorithm::Bilinear.id(), 1);
    assert_eq!(Algorithm::Bicubic.id(), 2);
    let e = FrameScaler::builder().build().err().unwrap();
    assert_eq!(e.message(), Some("invalid source format"));
    let e = FrameScaler::builder().source_format(0).target_format(-3).build().err().unwrap();
    assert_eq!(e.message(), Some("invalid target format"));
    let e = FrameScaler::builder().source_format(0).build().err().unwrap();
    assert_eq!(e.message(), Some("invalid source width"));
    let e = FrameScaler::builder().source_format(0).source_width(10).build().err().unwrap();
    assert_eq!(e.message(), Some("invalid source height"));
    let e = FrameScaler::builder()
        .source_format(0)
        .source_width(10)
        .source_height(10)
        .build()
        .err()
        .unwrap();
    assert_eq!(e.message(), Some("invalid target width"));
    let e = FrameScaler::builder()
        .source_format(0)
        .source_width(10)
        .source_height(10)
        .target_width(5)
        .build()
        .err()
        .unwrap();
    assert_eq!(e.message(), Some("invalid target height"));
    let s = FrameScaler::builder()
        .source_format(0)
        .source_width(10)
        .source_height(8)
        .target_width(5)
        .target_height(4)
        .algorithm(Algorithm::Bilinear)
        .build()
        .ok()
        .unwrap();
    assert_eq!(s.target_format(), 0);
    assert_eq!(s.algorithm(), Algorithm::Bilinear);
    assert!(s.check_frame(10, 8, 0).is_ok());
    assert_eq!(
        s.check_frame(9, 8, 0).err().unwrap().message(),
        Some("frame width does not match")
    );
    assert_eq!(
        s.check_frame(10, 7, 0).err().unwrap().message(),
        Some("frame height does not match")
    );
    assert_eq!(
        s.check_frame(10, 8, 1).err().unwrap().message(),
        Some("frame pixel format does not match")
    );
}

#[test]
fn debug_strings() {
    assert_eq!(Timestamp::from_millis(1_500).to_debug_string(), "1.500s");
    assert_eq!(Timestamp::from_millis(5).to_debug_string(), "0.005s");
    assert_eq!(Timestamp::from_secs(-2).to_debug_string(), "-2.000s");
    assert_eq!(Timestamp::from_millis(-1_005).to_debug_string(), "-1.-05s");
    assert_eq!(Timestamp::null().to_debug_string(), "(null)");
    assert_eq!(TimeBase::new(1, 90_000).to_debug_string(), "1/90000");
    assert_eq!(Rational::new(-16, 9).to_debug_string(), "-16/9");
    assert_eq!(
        ac_ffmpeg::decimal::signed_decimal(i64::MIN),
        i64::MIN.to_string()
    );
    assert_eq!(ac_ffmpeg::decimal::decimal(u64::MAX), u64::MAX.to_string());
    for i in [-1_000_i64, -999, -50, -5, 0, 7, 42, 999, 12_345] {
        assert_eq!(ac_ffmpeg::decimal::zero_padded3(i), format!("{:03}", i));
    }
}

#[test]
fn filter_source_args() {
    let b = VideoFilter::builder(1920, 1080, 0)
        .pixel_aspect_ratio(4, 3)
        .input_time_base(TimeBase::new(1, 25));
    assert_eq!(
        b.source_args(),
        "video_size=1920x1080:pix_fmt=0:time_base=1/25:pixel_aspect=4/3"
    );
    let f = b.build(0, 0, 0).ok().unwrap();
    assert_eq!(f.output_time_base().den(), 25);
    let f = VideoFilter::builder(2, 2, -1)
        .output_time_base(TimeBase::new(1, 1000))
        .build(0, 0, 0)
        .ok()
        .unwrap();
    assert_eq!(f.input_time_base().den(), 1_000_000);
    assert_eq!(f.output_time_base().den(), 1000);
    let b = VideoFilter::builder(2, 2, -1);
    assert_eq!(
        b.source_args(),
        "video_size=2x2:pix_fmt=-1:time_base=1/1000000:pixel_aspect=1/1"
    );
}

#[test]
fn filter_build_failures() {
    let b = || VideoFilter::builder(2, 2, 0);
    assert_eq!(b().build(-12, 0, 0).err().and_then(|e| e.raw_error_code()), Some(-12));
    assert_eq!(b().build(0, -22, 0).err().and_then(|e| e.raw_error_code()), Some(-22));
    assert_eq!(b().build(0, 0, -1).err().and_then(|e| e.raw_error_code()), Some(-1));
    assert_eq!(b().build(-5, -6, -7).err().and_then(|e| e.raw_error_code()), Some(-5));
    assert!(b().build(1, 0, 3).is_ok());
}

#[test]
fn filter_statuses() {
    let f = VideoFilter::builder(2, 2, 0)
        .output_time_base(TimeBase::new(1, 30))
        .build(0, 0, 0)
        .ok()
        .unwrap();
    assert_eq!(f.take_result(1).ok().flatten().map(|tb| tb.den()), Some(30));
    assert!(matches!(f.take_result(0), Ok(None)));
    assert_eq!(f.take_result(-3).err().and_then(|e| e.raw_error_code()), Some(-3));
    let again = VideoFilter::push_result(0).err().unwrap();
    assert_eq!(again.again_message(), Some("all frames must be consumed before pushing a new frame"));
    let again = VideoFilter::flush_result(0).err().unwrap();
    assert_eq!(again.again_message(), Some("all frames must be consumed before flushing"));
}

#[test]
fn codec_status_codes() {
    assert!(push_status(1, "x".to_string()).is_ok());
    let e = push_status(0, "all packets must be consumed before flushing".to_string())
        .err()
        .unwrap();
    assert!(e.is_again());
    assert_eq!(e.again_message(), Some("all packets must be consumed before flushing"));
    let e = push_status(-22, "x".to_string()).err().unwrap();
    assert_eq!(e.into_inner().unwrap().raw_error_code(), Some(-22));
    assert_eq!(take_status(1).ok(), Some(true));
    assert_eq!(take_status(0).ok(), Some(false));
    assert_eq!(take_status(-1).err().unwrap().raw_error_code(), Some(-1));
}

#[test]
fn encoder_configuration() {
    let e = AudioEncoderBuilder::new().build().err().unwrap();
    assert_eq!(e.message(), Some("sample format not set"));
    let e = AudioEncoderBuilder::new()
        .sample_format(SampleFormat::from_raw(1))
        .build()
        .err()
        .unwrap();
    assert_eq!(e.message(), Some("sample rate not set"));
    let e = AudioEncoderBuilder::new()
        .sample_format(SampleFormat::from_raw(1))
        .sample_rate(48_000)
        .build()
        .err()
        .unwrap();
    assert_eq!(e.message(), Some("channel layout not set"));
    let enc = AudioEncoderBuilder::new()
        .sample_format(SampleFormat::from_raw(1))
        .sample_rate(48_000)
        .channel_layout(ChannelLayout::from_raw(3))
        .time_base(TimeBase::new(1, 48_000))
        .build()
        .ok()
        .unwrap();
    assert_eq!(enc.time_base().den(), 48_000);
    assert_eq!(enc.sample_rate(), 48_000);
    let enc = AudioEncoderBuilder::from_parameters(
        SampleFormat::from_raw(1),
        44_100,
        ChannelLayout::from_raw(3),
    )
    .build()
    .ok()
    .unwrap();
    assert_eq!(enc.time_base().den(), 1_000_000);
    assert_eq!(AudioEncoder::samples_per_frame(0), None);
    assert_eq!(AudioEncoder::samples_per_frame(1024), Some(1024));
}
