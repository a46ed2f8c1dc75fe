use pf_webos::backend::gamestream::stream::{
    check_paired, codec_for, color_info, connect, decode_result, default_bitrate_kbps, hdr_meta, join_buffers,
    named_app, pts_ns, resolve_app_id, shutdown, stream_settings, supported_formats, Chroma,
    ChannelAudioDecoder, CodecPref, ColorInfo, ColorRange, ColorRangeOverride, ColorSpace, Connected,
    Connecting, DecodeResult, GamepadType, GsConnectSpec, Listener, NdlCodec, ShutdownStep,
    SinkDecoder, SinkResult, SunshineHdrMetadata, VideoFormat, VideoFormats, UNDECODABLE,
};
use pf_webos::backend::gamestream::HostApp;

fn spec() -> GsConnectSpec {
    GsConnectSpec {
        addr: "10.0.0.2".to_string(),
        query_port: 47989,
        app_id: None,
        width: 1920,
        height: 1080,
        refresh_hz: 60,
        bitrate_kbps: 0,
        hdr_enabled: false,
        codec: CodecPref::Auto,
        color_range_override: ColorRangeOverride::Auto,
        video_pacing: false,
        gamepad_type: GamepadType::Auto,
        gamepad_attached: false,
    }
}

fn app(id: u32, title: &str) -> HostApp {
    HostApp { id, title: title.to_string() }
}

#[test]
fn automatic_bitrate_matches_moonlight_anchors_and_scales_with_fps() {
    assert_eq!(default_bitrate_kbps(1920, 1080, 60), 20_000);
    assert_eq!(default_bitrate_kbps(3840, 2160, 60), 80_000);
    assert_eq!(default_bitrate_kbps(2560, 1440, 120), 80_000);
}

#[test]
fn offered_formats_exclude_av1_and_pair_hdr_with_main10() {
    let auto_hdr = supported_formats(CodecPref::Auto, true);
    assert!(auto_hdr.contains(VideoFormats::h265_main10()));
    assert!(!auto_hdr.intersects(VideoFormats::mask_av1()));
    assert!(!supported_formats(CodecPref::H264, true).intersects(VideoFormats::mask_h265()));
}

#[test]
fn bitrate_never_falls_with_size_or_rate() {
    let mut last = 0;
    for (w, h) in [(640, 360), (1280, 720), (1920, 1080), (2560, 1440), (3840, 2160)] {
        let now = default_bitrate_kbps(w, h, 60);
        assert!(now >= last);
        last = now;
    }
    assert!(default_bitrate_kbps(1920, 1080, 30) <= default_bitrate_kbps(1920, 1080, 60));
    assert!(default_bitrate_kbps(1920, 1080, 60) <= default_bitrate_kbps(1920, 1080, 120));
}

#[test]
fn settings_follow_the_spec() {
    let s = stream_settings(&spec());
    assert_eq!((s.width, s.height, s.fps, s.fps_x100), (1920, 1080, 60, 6000));
    assert_eq!(s.bitrate, 20_000);
    assert!(!s.hdr);
    let mut asked = spec();
    asked.bitrate_kbps = 35_000;
    assert_eq!(stream_settings(&asked).bitrate, 35_000);
    let mut hdr = spec();
    hdr.hdr_enabled = true;
    let s = stream_settings(&hdr);
    assert!(s.hdr);
    assert!(s.supported_video_formats.contains(VideoFormats::h265_main10()));
    assert!(matches!(s.color_space, ColorSpace::Rec2020));
    let mut full = spec();
    full.color_range_override = ColorRangeOverride::Full;
    assert!(matches!(stream_settings(&full).color_range, ColorRange::Full));
}

#[test]
fn app_is_resolved_by_id_or_as_the_desktop() {
    let apps = vec![app(7, "Steam"), app(9, "DESKTOP")];
    assert_eq!(resolve_app_id(&Some("42".to_string()), &apps), Ok(42));
    assert_eq!(resolve_app_id(&None, &apps), Ok(9));
    assert!(resolve_app_id(&None, &vec![app(7, "Steam")]).is_err());
    let bad = named_app("4 2").unwrap_err();
    assert!(bad.ends_with("\"4 2\""));
}

#[test]
fn pairing_is_required() {
    assert!(check_paired(Some(true)).is_ok());
    assert!(check_paired(Some(false)).is_err());
    assert!(check_paired(None).is_err());
}

#[test]
fn codecs_are_those_the_decoder_has() {
    assert!(matches!(codec_for(VideoFormat::H264), Some(NdlCodec::H264)));
    assert!(matches!(codec_for(VideoFormat::H265Main10), Some(NdlCodec::H265)));
    assert!(codec_for(VideoFormat::Av1).is_none());
}

#[test]
fn connecting_runs_to_a_session() {
    let spec = spec();
    let next = connect(&spec, Connecting::Opening, Connected::Opened { paired: Some(true) });
    assert!(matches!(next, Connecting::Listing));
    let next = connect(&spec, next, Connected::Listed(vec![app(3, "Desktop")]));
    let settings = match next {
        Connecting::Adjusting { app_id, settings } => {
            assert_eq!(app_id, 3);
            settings
        }
        other => panic!("expected to adjust, got {other:?}"),
    };
    let next = connect(
        &spec,
        Connecting::Adjusting { app_id: 3, settings },
        Connected::Adjusted(settings),
    );
    let next = connect(&spec, next, Connected::Launched);
    assert!(matches!(next, Connecting::Starting { .. }));
    let next = connect(&spec, next, Connected::Started { format: VideoFormat::H264 });
    assert!(matches!(next, Connecting::Running(facts) if facts.codec == NdlCodec::H264));
}

#[test]
fn codec_is_the_one_the_host_settled_on() {
    let spec = spec();
    let starting = || Connecting::Starting { settings: stream_settings(&spec) };
    let hevc = connect(&spec, starting(), Connected::Started { format: VideoFormat::H265Main10 });
    assert!(matches!(hevc, Connecting::Running(facts) if facts.codec == NdlCodec::H265));
    let av1 = connect(&spec, starting(), Connected::Started { format: VideoFormat::Av1 });
    match av1 {
        Connecting::Failed(why) => assert!(why.ends_with(UNDECODABLE)),
        other => panic!("expected a failure, got {other:?}"),
    }
}

#[test]
fn what_is_missing_before_a_step_is_told_as_it_is() {
    let spec = spec();
    let at = || Connecting::Adjusting { app_id: 3, settings: stream_settings(&spec) };
    match connect(&spec, at(), Connected::Unprepared("no version".to_string())) {
        Connecting::Failed(why) => assert_eq!(why, "no version"),
        other => panic!("expected a failure, got {other:?}"),
    }
    match connect(&spec, at(), Connected::Failed("no Main10".to_string())) {
        Connecting::Failed(why) => {
            assert_eq!(why, "stream settings unsupported by this host: no Main10");
        }
        other => panic!("expected a failure, got {other:?}"),
    }
}

#[test]
fn unpaired_host_never_streams() {
    let spec = spec();
    let next = connect(&spec, Connecting::Opening, Connected::Opened { paired: Some(false) });
    assert!(matches!(next, Connecting::Failed(_)));
    let still = connect(&spec, next, Connected::Started { format: VideoFormat::H265 });
    assert!(matches!(still, Connecting::Failed(_)));
}

#[test]
fn failure_of_a_step_is_the_end() {
    let spec = spec();
    let next = connect(&spec, Connecting::Opening, Connected::Failed("gone".to_string()));
    assert!(matches!(next, Connecting::Failed(_)));
}

#[test]
fn decoder_counts_frames_and_reports_gaps() {
    let mut sink = SinkDecoder::new();
    assert_eq!(sink.setup(VideoFormat::H265, true), 0);
    let first = sink.submit_decode_unit(10, true, 100).unwrap();
    assert!(first.reanchor);
    assert!(!first.loss);
    let next = sink.submit_decode_unit(11, false, 50).unwrap();
    assert!(!next.loss);
    let after_gap = sink.submit_decode_unit(14, false, 50).unwrap();
    assert!(after_gap.loss);
    assert_eq!(sink.frames, 3);
    assert_eq!(sink.bytes, 200);
    sink.stop();
    assert!(sink.video_stopped);
}

#[test]
fn unknown_format_is_refused() {
    let mut sink = SinkDecoder::new();
    assert_ne!(sink.setup(VideoFormat::Av1, true), 0);
}

#[test]
fn keyframes_are_asked_for_when_the_sink_wants_one() {
    assert!(matches!(decode_result(Some(SinkResult::NeedKeyframe)), DecodeResult::NeedIdr));
    assert!(matches!(decode_result(Some(SinkResult::Presented)), DecodeResult::Taken));
}

#[test]
fn buffers_are_joined_in_order() {
    assert_eq!(join_buffers(&vec![vec![1, 2], vec![], vec![3]]), vec![1, 2, 3]);
}

#[test]
fn timestamps_stop_at_the_end_of_their_range() {
    assert_eq!(pts_ns(1_500), 1_500);
    assert_eq!(pts_ns(u128::MAX), u64::MAX);
}

#[test]
fn audio_frames_wait_in_order() {
    let mut audio = ChannelAudioDecoder::new();
    assert_eq!(audio.setup(2), 0);
    audio.decode_and_play_sample(vec![1]);
    audio.decode_and_play_sample(vec![2]);
    assert_eq!(audio.pump_audio_once(), vec![vec![1], vec![2]]);
    assert!(audio.pump_audio_once().is_empty());
}

fn metadata() -> SunshineHdrMetadata {
    let c = Chroma { x: 1, y: 2 };
    SunshineHdrMetadata {
        green: c,
        blue: c,
        red: c,
        white_point: c,
        max_display_luminance: 1000,
        min_display_luminance: 5,
        max_content_light_level: 900,
        max_frame_average_light_level: 400,
    }
}

#[test]
fn hdr_metadata_keeps_its_figures() {
    let m = hdr_meta(&metadata());
    assert_eq!((m.max_cll, m.max_fall), (900, 400));
    assert_eq!((m.green.x, m.green.y), (1, 2));
}

#[test]
fn hdr_is_told_once() {
    let mut l = Listener::new(ColorRangeOverride::Auto);
    l.loaded = true;
    assert!(l.set_hdr_mode(true, Some(metadata())).is_some());
    assert!(l.set_hdr_mode(true, Some(metadata())).is_none());
}

#[test]
fn colours_follow_hdr_and_the_range_insisted_on() {
    let mut l = Listener::new(ColorRangeOverride::Full);
    l.loaded = true;
    let on = l.set_hdr_mode(true, Some(metadata())).expect("something to tell");
    assert_eq!(
        on.color,
        ColorInfo { space: ColorSpace::Rec2020, hdr: true, range: ColorRange::Full }
    );
    let off = l.set_hdr_mode(false, None).expect("something to tell");
    assert_eq!(
        off.color,
        ColorInfo { space: ColorSpace::Rec709, hdr: false, range: ColorRange::Full }
    );
    assert_eq!(color_info(false, ColorRangeOverride::Auto).range, ColorRange::Limited);
}

#[test]
fn termination_ends_the_session() {
    let mut l = Listener::new(ColorRangeOverride::Auto);
    assert!(!l.is_session_ended(false));
    l.connection_terminated(-100);
    assert!(l.is_session_ended(false));
    assert_eq!(l.termination_code, -100);
}

#[test]
fn shutdown_waits_for_the_video_but_not_for_ever() {
    assert!(matches!(shutdown(true, 0), ShutdownStep::Done { clean: true }));
    assert!(matches!(shutdown(false, 0), ShutdownStep::Wait));
    assert!(matches!(shutdown(false, u64::MAX), ShutdownStep::Done { clean: false }));
}
