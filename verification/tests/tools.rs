use pf_webos::app::LogLevelOverride;
use pf_webos::audio::{AudioEvent, AudioPlayer};
use pf_webos::bytes::{push_le32, read_le32};
use pf_webos::compositor::{Compositor, DrawCmd, Motion, Shade, Tile};
use pf_webos::geometry::Rect;
use pf_webos::logger::{
    add_field, launch_level_override, level_ordinal, log_file_name, override_to_level,
    recent_lines, resolved_level, set_level_override, set_ring_capture, shortened,
    telemetry_addr, LaunchParams, Level, LogFile, LogRing,
};
use pf_webos::luna::{available, call_args, Call, CallStep, ProcessState};
use pf_webos::model::effect::{execute, Effect};
use pf_webos::model::protocol::HostTrust;
use pf_webos::pixels::{premultiply_rgba, straighten_rgba};
use pf_webos::probe::{
    art_file, parse_gs_command, parse_pin, parse_probe_args, parse_probe_plan, port, probe_step, GsCommand,
    ProbeStep,
};
use pf_webos::spinner::{build_spinner_frames, pack_frames, spinner_blob, Frame};

fn words(ws: &[&str]) -> Vec<String> {
    ws.iter().map(|w| w.to_string()).collect()
}

#[test]
fn audio_waits_within_its_bounds() {
    let p = AudioPlayer::new(2);
    // 48 samples of two channels, four bytes each
    let ms: u32 = 384;
    let plan = p.play(0);
    assert_eq!(plan.event, AudioEvent::Underrun);
    assert!(plan.queue && plan.conceal && plan.track_gap && !plan.clear);
    assert_eq!(p.play(60 * ms).event, AudioEvent::Queued);
    let plan = p.play(60 * ms + 1);
    assert_eq!(plan.event, AudioEvent::Dropped);
    assert!(!plan.queue && plan.track_gap && !plan.conceal);
    assert_eq!(p.play(100 * ms).event, AudioEvent::Dropped);
    let plan = p.play(100 * ms + 1);
    assert_eq!(plan.event, AudioEvent::Resnapped);
    assert!(plan.clear && plan.queue && !plan.track_gap);
    assert_eq!(AudioPlayer::new(6).decoded_samples(240), 1440);
    assert_eq!(AudioPlayer::new(2).decoded_samples(960), 1920);
}

#[test]
fn numbers_read_back_from_their_bytes() {
    let mut buf = vec![0xff];
    push_le32(&mut buf, 0x50465232);
    assert_eq!(&buf[1..], &[0x32, 0x52, 0x46, 0x50]);
    assert_eq!(read_le32(&buf, 1), 0x50465232);
}

#[test]
fn colours_are_scaled_and_restored() {
    let mut px = vec![200, 100, 50, 128, 9, 8, 7, 255, 9, 8, 7, 0, 77];
    premultiply_rgba(&mut px);
    assert_eq!(px, vec![100, 50, 25, 128, 9, 8, 7, 255, 0, 0, 0, 0, 77]);
    let straight = straighten_rgba(&px);
    assert_eq!(straight, vec![199, 99, 49, 128, 9, 8, 7, 255, 0, 0, 0, 0]);
    assert_eq!(straighten_rgba(&vec![200, 1, 0, 100]), vec![255, 2, 0, 100]);
}

#[test]
fn textures_are_kept_by_tile() {
    let mut c = Compositor::new();
    assert!(c.upload_raw(Tile::SpinnerFrame(3)));
    c.keep(Tile::SpinnerFrame(3), 10, 10);
    assert!(!c.upload_raw(Tile::SpinnerFrame(3)));
    let up = c.upload(Tile::Card(0), 1, 1, &vec![100, 50, 25, 128]);
    assert!(up.recreate && up.blend);
    assert_eq!(up.pixels, Some(vec![199, 99, 49, 128]));
    c.keep(Tile::Card(0), 1, 1);
    assert!(!c.upload(Tile::Card(0), 1, 1, &vec![]).recreate);
    assert!(c.upload(Tile::Card(0), 2, 1, &vec![]).recreate);
    let side = c.upload(Tile::Sidebar, 1, 1, &vec![1, 2, 3, 4]);
    assert!(!side.blend && side.pixels.is_none());
    assert!(c.drop_tile(Tile::Card(0)));
    assert!(!c.drop_tile(Tile::Card(0)));
    assert_eq!(c.clear_all(), vec![Tile::SpinnerFrame(3)]);
    assert!(c.upload_raw(Tile::SpinnerFrame(3)));
}

#[test]
fn tiles_without_texture_are_passed_over() {
    let mut c = Compositor::new();
    c.keep(Tile::Ring, 5, 5);
    let base = Rect { x: 0, y: 0, w: 5, h: 5 };
    let cmds = vec![
        DrawCmd::Tex { tile: Tile::Card(1), base, motion: Motion::Still },
        DrawCmd::Fill { rect: base, shade: Shade::Scrim },
        DrawCmd::Tex { tile: Tile::Ring, base, motion: Motion::Still },
        DrawCmd::TexCropped { tile: Tile::Modal, src: base, base, motion: Motion::Slide },
    ];
    assert_eq!(c.execute(&cmds), vec![1, 2]);
}

#[test]
fn levels_have_an_order() {
    assert_eq!(override_to_level(LogLevelOverride::Warn), Level::Warn);
    assert_eq!(resolved_level(LogLevelOverride::Error), Level::Error);
    let all = [Level::Error, Level::Warn, Level::Info, Level::Debug, Level::Trace];
    for (i, level) in all.iter().enumerate() {
        assert_eq!(level_ordinal(*level) as usize, i + 1);
    }
}

#[test]
fn launch_decides_where_the_log_goes() {
    let params = |t: Option<&str>, l: Option<&str>| LaunchParams {
        telemetry: t.map(str::to_string),
        telemetry_level: l.map(str::to_string),
    };
    assert_eq!(telemetry_addr(&params(Some("10.0.0.9:5000"), None)), Some("10.0.0.9:5000"));
    assert_eq!(telemetry_addr(&params(Some(""), None)), None);
    assert_eq!(telemetry_addr(&params(None, None)), None);
    let level = |w: &str| launch_level_override(&params(None, Some(w)));
    assert_eq!(level("DEBUG"), Some(LogLevelOverride::Debug));
    assert_eq!(level("Info"), Some(LogLevelOverride::Info));
    assert_eq!(level("warn"), Some(LogLevelOverride::Warn));
    assert_eq!(level("error"), Some(LogLevelOverride::Error));
    assert_eq!(level("trace"), None);
    assert_eq!(launch_level_override(&params(None, None)), None);
    assert_eq!(log_file_name("1.2"), "punktfunk-webos-1.2.log");
}

#[test]
fn log_file_is_started_over_when_it_is_full() {
    let mut f = LogFile::new();
    f.wrote(2_097_151);
    assert!(!f.flushed());
    f.wrote(1);
    assert!(f.flushed());
    assert_eq!(f.written, 0);
}

#[test]
fn overlay_keeps_the_last_lines() {
    let mut ring = LogRing::new(Level::Info);
    assert!(!ring.enabled(Level::Error));
    set_ring_capture(&mut ring, true);
    assert!(ring.enabled(Level::Info));
    assert!(!ring.enabled(Level::Debug));
    for i in 0..205 {
        ring.on_event(Level::Warn, &format!("line {i}"));
    }
    let all = recent_lines(&ring, 1000);
    assert_eq!(all.len(), 200);
    assert_eq!(all[0], "WARN  line 5");
    assert_eq!(recent_lines(&ring, 2), vec!["WARN  line 203", "WARN  line 204"]);
    ring.on_event(Level::Error, &"x".repeat(300));
    assert_eq!(recent_lines(&ring, 1)[0].chars().count(), 200);
    // before the log is set up the level stays
    assert_eq!(set_level_override(&mut ring, LogLevelOverride::Debug), None);
    assert_eq!(ring.max_level_hint(), Level::Info);
    ring.init_subscriber(Level::Warn);
    assert_eq!(ring.max_level_hint(), Level::Warn);
    assert_eq!(set_level_override(&mut ring, LogLevelOverride::Debug), Some(Level::Debug));
    assert!(ring.enabled(Level::Debug));
    assert_eq!(ring.max_level_hint(), Level::Debug);
    set_ring_capture(&mut ring, false);
    assert!(recent_lines(&ring, 10).is_empty());
}

#[test]
fn fields_are_appended_by_name() {
    let mut m = String::new();
    add_field(&mut m, "message", "resolved");
    add_field(&mut m, "port", "47989");
    assert_eq!(m, "resolved port=47989");
    assert_eq!(shortened("äöü", 2), "äö");
    assert_eq!(shortened("äöü", 5), "äöü");
}

#[test]
fn bus_calls_end_in_time() {
    assert!(available(true, 0o755));
    assert!(!available(true, 0o644));
    assert!(!available(false, 0o755));
    assert_eq!(call_args("luna://x", "{}"), words(&["-n", "1", "luna://x", "{}"]));
    let call = Call { started: 1000 };
    assert!(matches!(call.poll(ProcessState::Succeeded, 5000), CallStep::Done));
    assert!(matches!(call.poll(ProcessState::Running, 1799), CallStep::Wait(10)));
    match call.poll(ProcessState::Running, 1800) {
        CallStep::KillAndFail(why) => assert_eq!(why, "luna-send-pub timed out after 800ms"),
        other => panic!("expected an end, got {other:?}"),
    }
    match call.poll(ProcessState::Exited("exit status: 1".to_string()), 1100) {
        CallStep::Failed(why) => assert_eq!(why, "luna-send-pub exited exit status: 1"),
        other => panic!("expected a failure, got {other:?}"),
    }
}

#[test]
fn effects_reach_the_overlay() {
    let mut on = false;
    execute(Effect::SetLogOverlay(true), &mut on);
    assert!(on);
    execute(Effect::SetLogOverlay(false), &mut on);
    assert!(!on);
}

#[test]
fn trust_is_what_was_stored() {
    assert_eq!(HostTrust::Unpaired.pin(), None);
    assert!(!HostTrust::Unpaired.is_paired());
    assert_eq!(HostTrust::Pinned([7; 32]).pin(), Some([7; 32]));
    assert!(HostTrust::Pinned([7; 32]).is_paired());
    assert!(HostTrust::ClientCertPaired.is_paired());
    assert_eq!(HostTrust::ClientCertPaired.pin(), None);
}

#[test]
fn probe_commands_are_read() {
    assert!(matches!(parse_gs_command(&words(&[])), Ok(GsCommand::LinkCheck)));
    match parse_gs_command(&words(&["info", "h"])) {
        Ok(GsCommand::Info { host, port }) => assert_eq!((host.as_str(), port), ("h", None)),
        other => panic!("expected info, got {other:?}"),
    }
    assert!(matches!(
        parse_gs_command(&words(&["pair", "h", "47989"])),
        Ok(GsCommand::Pair { port: Some(47989), .. })
    ));
    assert!(matches!(parse_gs_command(&words(&["applist", "h"])), Ok(GsCommand::AppList { .. })));
    assert!(matches!(parse_gs_command(&words(&["unpair", "h"])), Ok(GsCommand::Unpair { .. })));
    assert!(matches!(parse_gs_command(&words(&["quit", "h"])), Ok(GsCommand::Quit { .. })));
    assert!(matches!(
        parse_gs_command(&words(&["art", "h", "12"])),
        Ok(GsCommand::Art { app_id: 12, port: None, .. })
    ));
    assert_eq!(
        parse_gs_command(&words(&["art", "h", "x"])).unwrap_err(),
        "bad app id \"x\""
    );
    assert_eq!(
        parse_gs_command(&words(&["art", "h", "x", "y"])).unwrap_err(),
        "bad port \"y\""
    );
    assert!(parse_gs_command(&words(&["art", "h"])).unwrap_err().starts_with("usage"));
    assert!(parse_gs_command(&words(&["info"])).unwrap_err().starts_with("usage"));
    assert_eq!(
        parse_gs_command(&words(&["quit", "h", "1", "2"])).unwrap_err(),
        "too many arguments"
    );
    assert_eq!(port(&words(&["65536"]), 0).unwrap_err(), "bad port \"65536\"");
    assert_eq!(port(&words(&["a", "80"]), 1), Ok(Some(80)));
    assert_eq!(art_file(12), "gamestream-art-12.png");
}

#[test]
fn pins_are_read_from_hex() {
    let hex = "0123456789abcdefABCDEF000102030405060708090a0b0c0d0e0f1011121314";
    let pin = parse_pin(hex).unwrap();
    assert_eq!(pin.len(), 32);
    assert_eq!(&pin[..4], &[0x01, 0x23, 0x45, 0x67]);
    assert_eq!(pin[8], 0xab);
    assert_eq!(parse_pin("00").unwrap_err(), "pin must be 64 hex chars");
    let bad = format!("00zz{}", "00".repeat(30));
    assert_eq!(parse_pin(&bad).unwrap_err(), "bad hex at byte 1");
    let signed = format!("+f{}", "00".repeat(31));
    assert_eq!(parse_pin(&signed).unwrap_err(), "bad hex at byte 0");
}

#[test]
fn probe_arguments_have_defaults() {
    let pin = "0f".repeat(32);
    let base = ["pfprobe", "h", "9777", "c.pem", "k.pem", pin.as_str()];
    let p = parse_probe_args(&words(&base)).unwrap();
    assert_eq!((p.host.as_str(), p.port), ("h", 9777));
    assert_eq!((p.cert_file.as_str(), p.key_file.as_str()), ("c.pem", "k.pem"));
    let plan = parse_probe_plan(&words(&base)).unwrap();
    assert_eq!(plan.pin, vec![15; 32]);
    assert_eq!((plan.target_kbps, plan.duration_ms), (320_000, 3_000));
    let mut more = words(&base);
    more.extend(words(&["1000", "500"]));
    let plan = parse_probe_plan(&more).unwrap();
    assert_eq!((plan.target_kbps, plan.duration_ms), (1000, 500));
    assert!(parse_probe_args(&words(&base[..5])).unwrap_err().starts_with("usage"));
    let bad_port = ["pfprobe", "h", "x", "c", "k", "aa"];
    assert_eq!(parse_probe_args(&words(&bad_port)).unwrap_err(), "port");
    let mut bad = words(&base);
    bad.push("x".to_string());
    assert!(parse_probe_args(&bad).is_ok());
    assert_eq!(parse_probe_plan(&bad).unwrap_err(), "target_kbps");
    bad[5] = "aa".to_string();
    assert_eq!(parse_probe_plan(&bad).unwrap_err(), "pin must be 64 hex chars");
    bad[5] = pin.clone();
    bad[6] = "1".to_string();
    bad.push("y".to_string());
    assert_eq!(parse_probe_plan(&bad).unwrap_err(), "duration_ms");
}

#[test]
fn measurement_is_followed_to_its_end() {
    assert_eq!(probe_step(true, 99_999, 3000, 0), ProbeStep::Report);
    assert_eq!(probe_step(false, 15_000, 3000, 0), ProbeStep::Progress);
    assert_eq!(probe_step(false, 15_001, 3000, 3_000_000), ProbeStep::GiveUp { kbps: 8000 });
    assert_eq!(
        probe_step(false, 15_001, 3000, u64::MAX),
        ProbeStep::GiveUp { kbps: u64::MAX / 3000 }
    );
}

#[test]
fn spinner_frames_are_packed_evenly() {
    let frame = |numer: u32, denom: u32| Frame {
        width: 1,
        height: 1,
        delay_numer: numer,
        delay_denom: denom,
        rgba: vec![200, 100, 50, 128],
    };
    let blob = build_spinner_frames(&vec![frame(100, 3), frame(7, 0)]);
    let expected = vec![
        1, 0, 0, 0, 1, 0, 0, 0, 2, 0, 0, 0, 33, 0, 0, 0, 100, 50, 25, 128, 0, 0, 0, 0, 100, 50,
        25, 128,
    ];
    assert_eq!(blob, expected);
    assert_eq!(build_spinner_frames(&vec![]), vec![0; 12]);
    let mut wide = frame(1, 1);
    wide.width += 1;
    assert!(pack_frames(&vec![frame(1, 1), wide]).is_none());
    assert_eq!(pack_frames(&vec![frame(100, 3), frame(7, 0)]), Some(blob));
}

#[test]
fn spinner_is_packed_from_its_gif() {
    let gif: Vec<u8> = vec![
        0x47, 0x49, 0x46, 0x38, 0x39, 0x61, 1, 0, 1, 0, 0x80, 0, 0, 0xff, 0x10, 0x20, 0, 0, 0,
        0x21, 0xf9, 4, 0, 5, 0, 0, 0, 0x2c, 0, 0, 0, 0, 1, 0, 1, 0, 0, 2, 2, 0x44, 1, 0, 0x3b,
    ];
    let blob = spinner_blob(&gif).expect("a GIF of one frame");
    assert_eq!(blob, vec![1, 0, 0, 0, 1, 0, 0, 0, 1, 0, 0, 0, 50, 0, 0, 0, 0xff, 0x10, 0x20, 0xff]);
    assert!(spinner_blob(&gif[..20].to_vec()).is_none());
    assert!(spinner_blob(&b"not a picture".to_vec()).is_none());
}
