//! A GameStream session: what is asked of the host, and what becomes of its frames.
use vstd::prelude::*;

use crate::backend::gamestream::HostApp;
use crate::text::{chars_of, parse_number, parse_unsigned, quoted, quoted_of};

verus! {

/// Bytes of video in one packet.
pub const PACKET_SIZE: u32 = 1392;

/// Milliseconds between two requests for a key frame: they share a channel with the input.
pub const KEYFRAME_REQUEST_MIN_INTERVAL: u64 = 1000;

/// Audio frames held between the host's thread and the one that plays them.
pub const AUDIO_QUEUE_FRAMES: usize = 32;

/// Milliseconds that the video callback has to stop.
pub const SHUTDOWN_TIMEOUT: u64 = 2000;

/// The video codec that the user prefers.
#[derive(Clone, Copy, Debug, PartialEq, Eq, Structural)]
pub enum CodecPref {
    Auto,
    H264,
    Hevc,
}

/// The colour range that the user insists on.
#[derive(Clone, Copy, Debug, PartialEq, Eq, Structural)]
pub enum ColorRangeOverride {
    Auto,
    Full,
    Limited,
}

/// The kind of controller that the host is to show.
#[derive(Clone, Copy, Debug, PartialEq, Eq, Structural)]
pub enum GamepadType {
    Auto,
    XboxOne,
    DualSense,
    DualSenseEdge,
    DualShock4,
    SwitchPro,
}

/// What to connect to, and how.
#[derive(Debug)]
pub struct GsConnectSpec {
    pub addr: String,
    /// The host's port for plain HTTP.
    pub query_port: u16,
    /// The app to launch, in decimal, or the desktop.
    pub app_id: Option<String>,
    pub width: u32,
    pub height: u32,
    pub refresh_hz: u32,
    /// 0 leaves the choice to this device.
    pub bitrate_kbps: u32,
    pub hdr_enabled: bool,
    pub codec: CodecPref,
    pub color_range_override: ColorRangeOverride,
    pub video_pacing: bool,
    pub gamepad_type: GamepadType,
    /// Whether a controller is attached.
    pub gamepad_attached: bool,
}

/// A set of video formats.
#[derive(Clone, Copy, Debug, PartialEq, Eq, Structural)]
pub struct VideoFormats {
    pub h264: bool,
    pub h265: bool,
    pub h265_main10: bool,
    pub av1: bool,
}

impl VideoFormats {
    /// The formats that are in both sets.
    pub open spec fn common(self, other: VideoFormats) -> VideoFormats {
        VideoFormats {
            h264: self.h264 && other.h264,
            h265: self.h265 && other.h265,
            h265_main10: self.h265_main10 && other.h265_main10,
            av1: self.av1 && other.av1,
        }
    }

    /// No format at all.
    pub open spec fn none() -> VideoFormats {
        VideoFormats { h264: false, h265: false, h265_main10: false, av1: false }
    }

    /// Every format of the HEVC family.
    pub fn mask_h265() -> (r: VideoFormats)
        ensures
            r == (VideoFormats { h264: false, h265: true, h265_main10: true, av1: false }),
    {
        VideoFormats { h264: false, h265: true, h265_main10: true, av1: false }
    }

    /// The ten-bit HEVC format, which carries HDR.
    pub fn h265_main10() -> (r: VideoFormats)
        ensures
            r == (VideoFormats { h264: false, h265: false, h265_main10: true, av1: false }),
    {
        VideoFormats { h264: false, h265: false, h265_main10: true, av1: false }
    }

    /// Every format of the AV1 family.
    pub fn mask_av1() -> (r: VideoFormats)
        ensures
            r == (VideoFormats { h264: false, h265: false, h265_main10: false, av1: true }),
    {
        VideoFormats { h264: false, h265: false, h265_main10: false, av1: true }
    }

    /// Whether every format of `other` is in the set.
    pub fn contains(&self, other: VideoFormats) -> (r: bool)
        ensures
            r == (self.common(other) == other),
    {
        (self.h264 || !other.h264) && (self.h265 || !other.h265) && (self.h265_main10
            || !other.h265_main10) && (self.av1 || !other.av1)
    }

    /// Whether any format of `other` is in the set.
    pub fn intersects(&self, other: VideoFormats) -> (r: bool)
        ensures
            r == (self.common(other) != VideoFormats::none()),
    {
        (self.h264 && other.h264) || (self.h265 && other.h265) || (self.h265_main10
            && other.h265_main10) || (self.av1 && other.av1)
    }
}

/// The formats offered to the host: those that the decoder takes, and the ten-bit one with HDR.
pub open spec fn offered(codec: CodecPref, hdr: bool) -> VideoFormats {
    VideoFormats {
        h264: codec != CodecPref::Hevc,
        h265: codec != CodecPref::H264,
        h265_main10: codec != CodecPref::H264 && hdr,
        av1: false,
    }
}

/// The formats offered to the host.
pub fn supported_formats(codec: CodecPref, hdr: bool) -> (r: VideoFormats)
    ensures
        r == offered(codec, hdr),
{
    match codec {
        CodecPref::H264 => VideoFormats { h264: true, h265: false, h265_main10: false, av1: false },
        CodecPref::Hevc => VideoFormats { h264: false, h265: true, h265_main10: hdr, av1: false },
        CodecPref::Auto => VideoFormats { h264: true, h265: true, h265_main10: hdr, av1: false },
    }
}

/// The bitrate at 60 frames a second for this many pixels.
pub open spec fn anchor_kbps(pixels: int) -> int {
    if pixels <= 1280 * 720 {
        10_000
    } else if pixels <= 1920 * 1080 {
        20_000
    } else if pixels <= 2560 * 1440 {
        40_000
    } else {
        80_000
    }
}

/// The bitrate where the choice is left to this device: by size, and linear in the frame rate,
/// which counts as 30 at least.
pub open spec fn automatic_kbps(width: u32, height: u32, fps: u32) -> int {
    let rate = if fps < 30 {
        30
    } else {
        fps as int
    };
    let scaled = anchor_kbps(width * height) * rate / 60;
    if scaled > u32::MAX {
        u32::MAX as int
    } else {
        scaled
    }
}

/// The bitrate where the choice is left to this device.
pub fn default_bitrate_kbps(width: u32, height: u32, fps: u32) -> (r: u32)
    requires
        width * height <= u32::MAX,
    ensures
        r == automatic_kbps(width, height, fps),
{
    let pixels: u32 = width * height;
    let base: u64 = if pixels <= 921_600 {
        10_000
    } else if pixels <= 2_073_600 {
        20_000
    } else if pixels <= 3_686_400 {
        40_000
    } else {
        80_000
    };
    let rate: u64 = if fps < 30 {
        30
    } else {
        fps as u64
    };
    proof {
        assert(base * rate <= 80_000 * 0xffff_ffff) by (nonlinear_arith)
            requires
                base <= 80_000,
                rate <= 0xffff_ffff,
        ;
    }
    let scaled: u64 = base * rate / 60;
    if scaled > u32::MAX as u64 {
        u32::MAX
    } else {
        scaled as u32
    }
}

/// More pixels never get fewer bits.
pub proof fn law_bitrate_grows_with_size(w: u32, h: u32, w2: u32, h2: u32, fps: u32)
    requires
        w * h <= w2 * h2,
    ensures
        automatic_kbps(w, h, fps) <= automatic_kbps(w2, h2, fps),
{
    let rate = if fps < 30 {
        30
    } else {
        fps as int
    };
    let a = anchor_kbps(w * h);
    let b = anchor_kbps(w2 * h2);
    assert(a * rate <= b * rate) by (nonlinear_arith)
        requires
            a <= b,
            rate >= 0,
    ;
}

/// More frames never get fewer bits, and twice the frames get twice the bits.
pub proof fn law_bitrate_grows_with_rate(w: u32, h: u32, fps: u32, fps2: u32)
    requires
        fps <= fps2,
    ensures
        automatic_kbps(w, h, fps) <= automatic_kbps(w, h, fps2),
        fps >= 30 && fps2 == 2 * fps && fps % 60 == 0 && automatic_kbps(w, h, fps2) < u32::MAX
            ==> automatic_kbps(w, h, fps2) == 2 * automatic_kbps(w, h, fps),
{
    let rate = if fps < 30 {
        30
    } else {
        fps as int
    };
    let rate2 = if fps2 < 30 {
        30
    } else {
        fps2 as int
    };
    let a = anchor_kbps(w * h);
    assert(a * rate <= a * rate2) by (nonlinear_arith)
        requires
            rate <= rate2,
            a >= 0,
    ;
    if fps >= 30 && fps2 == 2 * fps && fps % 60 == 0 {
        let q = fps as int / 60;
        assert(a * rate == (a * q) * 60) by (nonlinear_arith)
            requires
                rate == q * 60,
        ;
        assert(a * rate2 == (2 * (a * q)) * 60) by (nonlinear_arith)
            requires
                rate2 == 2 * (q * 60),
        ;
    }
}

/// The colour space of a session.
#[derive(Clone, Copy, Debug, PartialEq, Eq, Structural)]
pub enum ColorSpace {
    Rec709,
    Rec2020,
}

/// The colour range of a session.
#[derive(Clone, Copy, Debug, PartialEq, Eq, Structural)]
pub enum ColorRange {
    Full,
    Limited,
}

/// What is asked of the host for a session.
#[derive(Clone, Copy, Debug, PartialEq, Eq, Structural)]
pub struct StreamSettings {
    pub width: u32,
    pub height: u32,
    pub fps: u32,
    pub fps_x100: u32,
    pub bitrate: u32,
    pub packet_size: u32,
    /// Whether the video and audio are encrypted.
    pub encrypted: bool,
    /// Whether the host is reached over the internet.
    pub remote: bool,
    /// Whether the host sets up the game for the session.
    pub sops: bool,
    pub hdr: bool,
    pub supported_video_formats: VideoFormats,
    pub color_space: ColorSpace,
    pub color_range: ColorRange,
    /// Whether the host plays the audio too.
    pub local_audio_play_mode: bool,
    pub audio_channels: u8,
    /// How many controllers are attached.
    pub gamepads_attached: u8,
    pub gamepads_persist_after_disconnect: bool,
    pub enable_mic: bool,
}

/// HDR needs a codec that carries it.
pub open spec fn uses_hdr(spec: GsConnectSpec) -> bool {
    spec.hdr_enabled && spec.codec != CodecPref::H264
}

/// What is asked of the host for `spec`.
pub open spec fn settings_for(spec: GsConnectSpec) -> StreamSettings {
    let hdr = uses_hdr(spec);
    StreamSettings {
        width: spec.width,
        height: spec.height,
        fps: spec.refresh_hz,
        fps_x100: (spec.refresh_hz * 100) as u32,
        bitrate: if spec.bitrate_kbps == 0 {
            automatic_kbps(spec.width, spec.height, spec.refresh_hz) as u32
        } else {
            spec.bitrate_kbps
        },
        packet_size: PACKET_SIZE,
        encrypted: false,
        remote: false,
        sops: true,
        hdr,
        supported_video_formats: offered(spec.codec, hdr),
        color_space: if hdr {
            ColorSpace::Rec2020
        } else {
            ColorSpace::Rec709
        },
        color_range: if !hdr && spec.color_range_override == ColorRangeOverride::Full {
            ColorRange::Full
        } else {
            ColorRange::Limited
        },
        local_audio_play_mode: false,
        audio_channels: 2,
        gamepads_attached: if spec.gamepad_attached {
            1
        } else {
            0
        },
        gamepads_persist_after_disconnect: false,
        enable_mic: false,
    }
}

/// The sizes of a session can be written down.
pub open spec fn askable(spec: GsConnectSpec) -> bool {
    &&& spec.bitrate_kbps == 0 ==> spec.width * spec.height <= u32::MAX
    &&& spec.refresh_hz * 100 <= u32::MAX
}

/// What is asked of the host for `spec`.
pub fn stream_settings(spec: &GsConnectSpec) -> (r: StreamSettings)
    requires
        askable(*spec),
    ensures
        r == settings_for(*spec),
{
    let hdr = spec.hdr_enabled && spec.codec != CodecPref::H264;
    StreamSettings {
        width: spec.width,
        height: spec.height,
        fps: spec.refresh_hz,
        fps_x100: spec.refresh_hz * 100,
        bitrate: if spec.bitrate_kbps == 0 {
            default_bitrate_kbps(spec.width, spec.height, spec.refresh_hz)
        } else {
            spec.bitrate_kbps
        },
        packet_size: PACKET_SIZE,
        encrypted: false,
        remote: false,
        sops: true,
        hdr,
        supported_video_formats: supported_formats(spec.codec, hdr),
        color_space: if hdr {
            ColorSpace::Rec2020
        } else {
            ColorSpace::Rec709
        },
        color_range: if hdr {
            ColorRange::Limited
        } else {
            match spec.color_range_override {
                ColorRangeOverride::Full => ColorRange::Full,
                ColorRangeOverride::Limited | ColorRangeOverride::Auto => ColorRange::Limited,
            }
        },
        local_audio_play_mode: false,
        audio_channels: 2,
        gamepads_attached: if spec.gamepad_attached {
            1
        } else {
            0
        },
        gamepads_persist_after_disconnect: false,
        enable_mic: false,
    }
}

/// HDR is asked for exactly with a format that carries it, and never with the full range.
pub proof fn law_hdr_has_main10(spec: GsConnectSpec)
    ensures
        settings_for(spec).hdr == settings_for(spec).supported_video_formats.h265_main10,
        settings_for(spec).hdr ==> settings_for(spec).color_range == ColorRange::Limited,
        !settings_for(spec).supported_video_formats.av1,
{
}

/// A lower-case ASCII letter for an upper-case one; anything else as it is.
pub open spec fn ascii_lower(c: char) -> char {
    if 'A' <= c <= 'Z' {
        (c as int + 32) as char
    } else {
        c
    }
}

/// Whether two texts are equal but for the case of ASCII letters.
pub open spec fn same_but_case(a: Seq<char>, b: Seq<char>) -> bool {
    a.len() == b.len() && forall|i: int|
        0 <= i < a.len() ==> ascii_lower(#[trigger] a[i]) == ascii_lower(b[i])
}

fn lower(c: char) -> (r: char)
    ensures
        r == ascii_lower(c),
{
    if 'A' <= c && c <= 'Z' {
        (c as u8 + 32) as char
    } else {
        c
    }
}

/// Whether two texts are equal but for the case of ASCII letters.
pub fn equal_ignoring_case(a: &str, b: &str) -> (r: bool)
    ensures
        r == same_but_case(a@, b@),
{
    let x = chars_of(a);
    let y = chars_of(b);
    if x.len() != y.len() {
        return false;
    }
    let mut i: usize = 0;
    while i < x.len()
        invariant
            i <= x.len(),
            x.len() == y.len(),
            x@ == a@,
            y@ == b@,
            forall|j: int| 0 <= j < i ==> ascii_lower(#[trigger] a@[j]) == ascii_lower(b@[j]),
        decreases x.len() - i,
    {
        if lower(x[i]) != lower(y[i]) {
            assert(ascii_lower(a@[i as int]) != ascii_lower(b@[i as int]));
            return false;
        }
        i += 1;
    }
    true
}

pub const DESKTOP_TITLE: &'static str = "desktop";

pub const NOT_PAIRED_YET: &'static str = "this host hasn't been paired yet";

pub const NO_DESKTOP: &'static str = "this host's app list has no Desktop entry";

pub const NOT_AN_APP_ID: &'static str = "not a GameStream app id: ";

/// The first app that is the desktop, or the number of apps.
pub open spec fn desktop_index(apps: Seq<HostApp>) -> int
    decreases apps.len(),
{
    if apps.len() == 0 {
        0
    } else if same_but_case(apps[0].title@, DESKTOP_TITLE@) {
        0
    } else {
        1 + desktop_index(apps.drop_first())
    }
}

proof fn lemma_desktop_index(apps: Seq<HostApp>, k: int)
    requires
        0 <= k <= apps.len(),
        forall|i: int| 0 <= i < k ==> !same_but_case((#[trigger] apps[i]).title@, DESKTOP_TITLE@),
        k < apps.len() ==> same_but_case(apps[k].title@, DESKTOP_TITLE@),
    ensures
        desktop_index(apps) == k,
    decreases apps.len(),
{
    if apps.len() > 0 && k > 0 {
        let rest = apps.drop_first();
        assert(!same_but_case(apps[0].title@, DESKTOP_TITLE@));
        assert forall|i: int| 0 <= i < k - 1 implies !same_but_case(
            (#[trigger] rest[i]).title@,
            DESKTOP_TITLE@,
        ) by {
            assert(rest[i] == apps[i + 1]);
        }
        lemma_desktop_index(rest, k - 1);
    }
}

/// Whether a host lets this device in: only one that says that it is paired.
pub fn check_paired(paired: Option<bool>) -> (r: Result<(), String>)
    ensures
        match r {
            Ok(()) => paired == Some(true),
            Err(e) => paired != Some(true) && e@ == NOT_PAIRED_YET@,
        },
{
    match paired {
        Some(true) => Ok(()),
        _ => Err(NOT_PAIRED_YET.to_owned()),
    }
}

/// The app that `app_id` names.
pub fn named_app(app_id: &str) -> (r: Result<u32, String>)
    ensures
        match r {
            Ok(id) => parse_unsigned(app_id@, u32::MAX as nat) == Some(id as nat),
            Err(e) => parse_unsigned(app_id@, u32::MAX as nat) is None && e@ == NOT_AN_APP_ID@
                + quoted_of(app_id@),
        },
{
    match parse_number(app_id, u32::MAX as u64) {
        Some(id) => Ok(id as u32),
        None => {
            let mut e = NOT_AN_APP_ID.to_owned();
            let shown = quoted(app_id);
            e.append(shown.as_str());
            Err(e)
        },
    }
}

/// The app that is the host's desktop. No other app is launched in its place.
pub fn desktop_app(apps: &Vec<HostApp>) -> (r: Result<u32, String>)
    ensures
        match r {
            Ok(id) => desktop_index(apps@) < apps.len() && id == apps@[desktop_index(apps@)].id,
            Err(e) => desktop_index(apps@) == apps.len() && e@ == NO_DESKTOP@,
        },
{
    let mut i: usize = 0;
    while i < apps.len()
        invariant
            i <= apps.len(),
            forall|j: int|
                0 <= j < i ==> !same_but_case((#[trigger] apps@[j]).title@, DESKTOP_TITLE@),
        decreases apps.len() - i,
    {
        if equal_ignoring_case(apps[i].title.as_str(), DESKTOP_TITLE) {
            proof {
                lemma_desktop_index(apps@, i as int);
            }
            return Ok(apps[i].id);
        }
        i += 1;
    }
    proof {
        lemma_desktop_index(apps@, apps.len() as int);
    }
    Err(NO_DESKTOP.to_owned())
}

/// The app to launch: the one that is named, or else the desktop. The app list is looked at only
/// for the desktop.
pub fn resolve_app_id(app_id: &Option<String>, apps: &Vec<HostApp>) -> (r: Result<u32, String>)
    ensures
        match app_id {
            Some(id) => match r {
                Ok(n) => parse_unsigned(id@, u32::MAX as nat) == Some(n as nat),
                Err(e) => parse_unsigned(id@, u32::MAX as nat) is None && e@ == NOT_AN_APP_ID@
                    + quoted_of(id@),
            },
            None => match r {
                Ok(n) => desktop_index(apps@) < apps.len() && n == apps@[desktop_index(apps@)].id,
                Err(e) => desktop_index(apps@) == apps.len() && e@ == NO_DESKTOP@,
            },
        },
{
    match app_id {
        Some(id) => named_app(id.as_str()),
        None => desktop_app(apps),
    }
}

/// The codec of the decoder.
#[derive(Clone, Copy, Debug, PartialEq, Eq, Structural)]
pub enum NdlCodec {
    H264,
    H265,
}

/// The format that a host settled on.
#[derive(Clone, Copy, Debug, PartialEq, Eq, Structural)]
pub enum VideoFormat {
    H264,
    H264High8_444,
    H265,
    H265Main10,
    H265Rext8_444,
    H265Rext10_444,
    Av1,
}

/// The decoder's codec for a format, if it can decode it.
pub open spec fn codec_of(format: VideoFormat) -> Option<NdlCodec> {
    match format {
        VideoFormat::H264 | VideoFormat::H264High8_444 => Some(NdlCodec::H264),
        VideoFormat::H265
        | VideoFormat::H265Main10
        | VideoFormat::H265Rext8_444
        | VideoFormat::H265Rext10_444 => Some(NdlCodec::H265),
        VideoFormat::Av1 => None,
    }
}

/// The decoder's codec for a format, if it can decode it.
pub fn codec_for(format: VideoFormat) -> (r: Option<NdlCodec>)
    ensures
        r == codec_of(format),
{
    match format {
        VideoFormat::H264 | VideoFormat::H264High8_444 => Some(NdlCodec::H264),
        VideoFormat::H265
        | VideoFormat::H265Main10
        | VideoFormat::H265Rext8_444
        | VideoFormat::H265Rext10_444 => Some(NdlCodec::H265),
        VideoFormat::Av1 => None,
    }
}

/// What a session is like once it runs.
#[derive(Clone, Copy, Debug, PartialEq, Eq, Structural)]
pub struct SessionFacts {
    pub hdr: bool,
    /// The codec that the host settled on.
    pub codec: NdlCodec,
    pub width: u32,
    pub height: u32,
    pub refresh_hz: u32,
    pub bitrate_kbps: u32,
}

/// What a session is like that was asked for by `spec`, granted with `settings`, and whose video
/// the host settled to send in `codec`.
pub open spec fn facts_of(
    spec: GsConnectSpec,
    settings: StreamSettings,
    codec: NdlCodec,
) -> SessionFacts {
    SessionFacts {
        hdr: uses_hdr(spec),
        codec,
        width: spec.width,
        height: spec.height,
        refresh_hz: spec.refresh_hz,
        bitrate_kbps: settings.bitrate,
    }
}

fn session_facts(spec: &GsConnectSpec, settings: &StreamSettings, codec: NdlCodec) -> (r:
    SessionFacts)
    ensures
        r == facts_of(*spec, *settings, codec),
{
    SessionFacts {
        hdr: spec.hdr_enabled && spec.codec != CodecPref::H264,
        codec,
        width: spec.width,
        height: spec.height,
        refresh_hz: spec.refresh_hz,
        bitrate_kbps: settings.bitrate,
    }
}

pub const OPEN_FAILED: &'static str = "open GameStream host: ";

pub const UNSUPPORTED: &'static str = "stream settings unsupported by this host: ";

pub const LAUNCH_FAILED: &'static str = "launch: ";

pub const START_FAILED: &'static str = "start GameStream stream: ";

pub const UNDECODABLE: &'static str = "the host settled on a video format that cannot be decoded";

/// How far a connection has got, and so what is to be done next.
#[derive(Debug)]
pub enum Connecting {
    /// The host is to be opened.
    Opening,
    /// Its apps are to be listed, to find the desktop.
    Listing,
    /// These settings are to be adjusted to what the host can do.
    Adjusting { app_id: u32, settings: StreamSettings },
    /// The app is to be launched with these settings.
    Launching { app_id: u32, settings: StreamSettings },
    /// The stream is to be started.
    Starting { settings: StreamSettings },
    Running(SessionFacts),
    Failed(String),
}

/// A `Connecting` as values.
pub enum ConnectingView {
    Opening,
    Listing,
    Adjusting { app_id: u32, settings: StreamSettings },
    Launching { app_id: u32, settings: StreamSettings },
    Starting { settings: StreamSettings },
    Running(SessionFacts),
    Failed(Seq<char>),
}

impl View for Connecting {
    type V = ConnectingView;

    open spec fn view(&self) -> ConnectingView {
        match *self {
            Connecting::Opening => ConnectingView::Opening,
            Connecting::Listing => ConnectingView::Listing,
            Connecting::Adjusting { app_id, settings } => ConnectingView::Adjusting {
                app_id,
                settings,
            },
            Connecting::Launching { app_id, settings } => ConnectingView::Launching {
                app_id,
                settings,
            },
            Connecting::Starting { settings } => ConnectingView::Starting { settings },
            Connecting::Running(facts) => ConnectingView::Running(facts),
            Connecting::Failed(e) => ConnectingView::Failed(e@),
        }
    }
}

/// What came of the last thing that was to be done.
#[derive(Debug)]
pub enum Connected {
    /// The host was opened, and said whether this device is paired.
    Opened { paired: Option<bool> },
    Listed(Vec<HostApp>),
    /// The settings as the host can do them.
    Adjusted(StreamSettings),
    Launched,
    /// The stream runs, in the format that the host settled on.
    Started { format: VideoFormat },
    /// It did not work out.
    Failed(String),
    /// What the step needs could not be had, so that it was not even tried: the host's version,
    /// say, or a key.
    Unprepared(String),
}

/// With this app: next, its settings are adjusted.
pub open spec fn with_app(spec: GsConnectSpec, app_id: u32) -> ConnectingView {
    ConnectingView::Adjusting { app_id, settings: settings_for(spec) }
}

/// After the host was opened.
pub open spec fn after_open(spec: GsConnectSpec, paired: Option<bool>) -> ConnectingView {
    if paired != Some(true) {
        ConnectingView::Failed(NOT_PAIRED_YET@)
    } else {
        match spec.app_id {
            None => ConnectingView::Listing,
            Some(id) => match parse_unsigned(id@, u32::MAX as nat) {
                Some(n) => with_app(spec, n as u32),
                None => ConnectingView::Failed(NOT_AN_APP_ID@ + quoted_of(id@)),
            },
        }
    }
}

/// After the stream was started.
pub open spec fn after_start(
    spec: GsConnectSpec,
    settings: StreamSettings,
    format: VideoFormat,
) -> ConnectingView {
    match codec_of(format) {
        Some(codec) => ConnectingView::Running(facts_of(spec, settings, codec)),
        None => ConnectingView::Failed(START_FAILED@ + UNDECODABLE@),
    }
}

/// After the apps were listed.
pub open spec fn after_list(spec: GsConnectSpec, apps: Seq<HostApp>) -> ConnectingView {
    if desktop_index(apps) < apps.len() {
        with_app(spec, apps[desktop_index(apps)].id)
    } else {
        ConnectingView::Failed(NO_DESKTOP@)
    }
}

impl ConnectingView {
    /// What a failure is called at this point.
    pub open spec fn failure(self) -> Seq<char> {
        match self {
            ConnectingView::Opening => OPEN_FAILED@,
            ConnectingView::Adjusting { .. } => UNSUPPORTED@,
            ConnectingView::Launching { .. } => LAUNCH_FAILED@,
            ConnectingView::Starting { .. } => START_FAILED@,
            _ => seq![],
        }
    }

    /// Whether the connection has come to an end, well or badly.
    pub open spec fn over(self) -> bool {
        self is Running || self is Failed
    }

    /// After something has come of the last step. What does not belong to it changes nothing, and
    /// nothing changes once the connection has come to an end.
    pub open spec fn then_came(self, spec: GsConnectSpec, came: Connected) -> ConnectingView {
        match (self, came) {
            (ConnectingView::Opening, Connected::Opened { paired }) => after_open(spec, paired),
            (ConnectingView::Listing, Connected::Listed(apps)) => after_list(spec, apps@),
            (
                ConnectingView::Adjusting { app_id, .. },
                Connected::Adjusted(settings),
            ) => ConnectingView::Launching { app_id, settings },
            (
                ConnectingView::Launching { settings, .. },
                Connected::Launched,
            ) => ConnectingView::Starting { settings },
            (
                ConnectingView::Starting { settings },
                Connected::Started { format },
            ) => after_start(spec, settings, format),
            (_, Connected::Failed(e)) => if self.over() {
                self
            } else {
                ConnectingView::Failed(self.failure() + e@)
            },
            (_, Connected::Unprepared(e)) => if self.over() {
                self
            } else {
                ConnectingView::Failed(e@)
            },
            _ => self,
        }
    }
}

fn adjusting(spec: &GsConnectSpec, app: Result<u32, String>) -> (r: Connecting)
    requires
        askable(*spec),
    ensures
        r@ == (match app {
            Ok(app_id) => with_app(*spec, app_id),
            Err(e) => ConnectingView::Failed(e@),
        }),
{
    match app {
        Ok(app_id) => Connecting::Adjusting { app_id, settings: stream_settings(spec) },
        Err(e) => Connecting::Failed(e),
    }
}

fn failed(head: &str, e: String) -> (r: Connecting)
    ensures
        r@ == ConnectingView::Failed(head@ + e@),
{
    let mut s = head.to_owned();
    s.append(e.as_str());
    Connecting::Failed(s)
}

fn fail_at(at: Connecting, e: String) -> (r: Connecting)
    ensures
        r@ == (if at@.over() {
            at@
        } else {
            ConnectingView::Failed(at@.failure() + e@)
        }),
{
    match at {
        Connecting::Opening => failed(OPEN_FAILED, e),
        Connecting::Adjusting { .. } => failed(UNSUPPORTED, e),
        Connecting::Launching { .. } => failed(LAUNCH_FAILED, e),
        Connecting::Starting { .. } => failed(START_FAILED, e),
        Connecting::Listing => {
            assert(seq![] + e@ =~= e@);
            Connecting::Failed(e)
        },
        Connecting::Running(facts) => Connecting::Running(facts),
        Connecting::Failed(f) => Connecting::Failed(f),
    }
}

/// Moves a connection on by what has come of its last step: the host is opened, the app is found,
/// the settings are adjusted to the host, the app is launched and the stream is started.
pub fn connect(spec: &GsConnectSpec, at: Connecting, came: Connected) -> (next: Connecting)
    requires
        askable(*spec),
    ensures
        next@ == at@.then_came(*spec, came),
{
    match (at, came) {
        (Connecting::Opening, Connected::Opened { paired }) => match check_paired(paired) {
            Err(e) => Connecting::Failed(e),
            Ok(()) => match &spec.app_id {
                None => Connecting::Listing,
                Some(id) => adjusting(spec, named_app(id.as_str())),
            },
        },
        (Connecting::Listing, Connected::Listed(apps)) => adjusting(spec, desktop_app(&apps)),
        (
            Connecting::Adjusting { app_id, .. },
            Connected::Adjusted(settings),
        ) => Connecting::Launching { app_id, settings },
        (
            Connecting::Launching { settings, .. },
            Connected::Launched,
        ) => Connecting::Starting { settings },
        (Connecting::Starting { settings }, Connected::Started { format }) => match codec_for(
            format,
        ) {
            Some(codec) => Connecting::Running(session_facts(spec, &settings, codec)),
            None => failed(START_FAILED, UNDECODABLE.to_owned()),
        },
        (at, Connected::Failed(e)) => fail_at(at, e),
        (Connecting::Running(facts), Connected::Unprepared(_)) => Connecting::Running(facts),
        (Connecting::Failed(f), Connected::Unprepared(_)) => Connecting::Failed(f),
        (_, Connected::Unprepared(e)) => Connecting::Failed(e),
        (at, _) => at,
    }
}

/// A stream only ever runs on a host that said that this device is paired: no other answer to
/// being opened leads anywhere but to a failure.
pub proof fn law_unpaired_never_runs(spec: GsConnectSpec, paired: Option<bool>)
    requires
        paired != Some(true),
    ensures
        ConnectingView::Opening.then_came(spec, Connected::Opened { paired })
            == ConnectingView::Failed(NOT_PAIRED_YET@),
{
}

/// A session that runs has the codec of the format that the host settled on, whatever was
/// preferred.
pub proof fn law_codec_is_settled(spec: GsConnectSpec, settings: StreamSettings, format: VideoFormat)
    requires
        codec_of(format) is Some,
    ensures
        ({
            let next = ConnectingView::Starting { settings }.then_came(
                spec,
                Connected::Started { format },
            );
            next is Running && next->Running_0.codec == codec_of(format)->0
        }),
{
}

/// Once a connection has come to an end, nothing changes it.
pub proof fn law_end_is_final(at: ConnectingView, spec: GsConnectSpec, came: Connected)
    requires
        at.over(),
    ensures
        at.then_came(spec, came) == at,
{
}

/// What is told of a frame to the sink.
#[derive(Clone, Copy, Debug, PartialEq, Eq, Structural)]
pub struct FrameFlags {
    /// Whether decoding can begin anew with it.
    pub reanchor: bool,
    /// Whether frames before it are missing.
    pub loss: bool,
    pub index: u64,
}

/// What the sink did with a frame.
#[derive(Clone, Copy, Debug, PartialEq, Eq, Structural)]
pub enum SinkResult {
    NeedKeyframe,
    Presented,
    Held,
}

/// What the host's driver is told of a frame.
#[derive(Clone, Copy, Debug, PartialEq, Eq, Structural)]
pub enum DecodeResult {
    Taken,
    NeedIdr,
}

/// The video callback.
#[derive(Clone, Copy, Debug, PartialEq, Eq, Structural)]
pub struct SinkDecoder {
    /// Whether the sink is there.
    pub sink: bool,
    pub frames: u64,
    pub bytes: u64,
    pub last_frame_index: Option<u32>,
    /// Whether the callback has stopped, after which it holds no decoder.
    pub video_stopped: bool,
}

/// The number after `n`, from the last back to the first.
pub open spec fn next_index(n: u32) -> u32 {
    if n == u32::MAX {
        0
    } else {
        (n + 1) as u32
    }
}

impl SinkDecoder {
    /// Before the first frame.
    pub open spec fn idle() -> SinkDecoder {
        SinkDecoder {
            sink: false,
            frames: 0,
            bytes: 0,
            last_frame_index: None,
            video_stopped: false,
        }
    }

    /// A callback before its first frame.
    pub fn new() -> (r: Self)
        ensures
            r == SinkDecoder::idle(),
    {
        SinkDecoder {
            sink: false,
            frames: 0,
            bytes: 0,
            last_frame_index: None,
            video_stopped: false,
        }
    }

    /// Sets up the sink for a format; `loaded` tells whether the decoder could be loaded for it.
    /// Returns 0, or -1 where there is no sink for it.
    pub fn setup(&mut self, format: VideoFormat, loaded: bool) -> (r: i32)
        ensures
            r == (if codec_of(format) is Some && loaded {
                0i32
            } else {
                -1i32
            }),
            *final(self) == (SinkDecoder {
                sink: old(self).sink || r == 0,
                ..*old(self)
            }),
    {
        if codec_for(format).is_none() || !loaded {
            return -1;
        }
        self.sink = true;
        0
    }

    /// Whether frames are missing before the one with this index.
    pub open spec fn lost_before(self, index: u32) -> bool {
        self.last_frame_index matches Some(prev) && index != next_index(prev)
    }

    /// Takes down a frame of `size` bytes; the count of bytes starts over where it runs out.
    /// Returns what the sink is told of it; without a sink, nothing is taken down and a key frame
    /// is needed.
    pub fn submit_decode_unit(&mut self, index: u32, idr: bool, size: usize) -> (r: Option<FrameFlags>)
        requires
            old(self).frames < u64::MAX,
        ensures
            r == (if old(self).sink {
                Some(
                    FrameFlags {
                        reanchor: idr,
                        loss: old(self).lost_before(index),
                        index: index as u64,
                    },
                )
            } else {
                None
            }),
            *final(self) == (if old(self).sink {
                SinkDecoder {
                    frames: (old(self).frames + 1) as u64,
                    bytes: old(self).bytes.wrapping_add(size as u64),
                    last_frame_index: Some(index),
                    ..*old(self)
                }
            } else {
                *old(self)
            }),
    {
        if !self.sink {
            return None;
        }
        self.frames = self.frames + 1;
        self.bytes = self.bytes.wrapping_add(size as u64);
        let loss = match self.last_frame_index {
            Some(prev) => {
                let next: u32 = if prev == u32::MAX {
                    0
                } else {
                    prev + 1
                };
                index != next
            },
            None => false,
        };
        self.last_frame_index = Some(index);
        Some(FrameFlags { reanchor: idr, loss, index: index as u64 })
    }

    /// Stops the callback, which lets go of its sink.
    pub fn stop(&mut self)
        ensures
            *final(self) == (SinkDecoder { sink: false, video_stopped: true, ..*old(self) }),
    {
        self.sink = false;
        self.video_stopped = true;
    }
}

/// What the host's driver is told once the sink has had the frame.
pub fn decode_result(r: Option<SinkResult>) -> (d: DecodeResult)
    ensures
        d == (match r {
            None | Some(SinkResult::NeedKeyframe) => DecodeResult::NeedIdr,
            Some(SinkResult::Presented) | Some(SinkResult::Held) => DecodeResult::Taken,
        }),
{
    match r {
        None => DecodeResult::NeedIdr,
        Some(SinkResult::NeedKeyframe) => DecodeResult::NeedIdr,
        Some(SinkResult::Presented) => DecodeResult::Taken,
        Some(SinkResult::Held) => DecodeResult::Taken,
    }
}

/// The buffers of a frame, one after the other.
pub open spec fn joined(buffers: Seq<Vec<u8>>) -> Seq<u8>
    decreases buffers.len(),
{
    if buffers.len() == 0 {
        seq![]
    } else {
        joined(buffers.drop_last()) + buffers.last()@
    }
}

/// The buffers of a frame as one.
pub fn join_buffers(buffers: &Vec<Vec<u8>>) -> (au: Vec<u8>)
    ensures
        au@ == joined(buffers@),
{
    let mut au: Vec<u8> = Vec::new();
    let mut i: usize = 0;
    assert(buffers@.take(0) =~= seq![]);
    while i < buffers.len()
        invariant
            i <= buffers.len(),
            au@ == joined(buffers@.take(i as int)),
        decreases buffers.len() - i,
    {
        au.extend_from_slice(buffers[i].as_slice());
        proof {
            let now = buffers@.take(i + 1);
            assert(now.drop_last() =~= buffers@.take(i as int));
            assert(now.last() == buffers@[i as int]);
            assert(au@ =~= joined(now));
        }
        i += 1;
    }
    assert(buffers@.take(buffers.len() as int) =~= buffers@);
    au
}

/// A time in nanoseconds, as far as it can be written down.
pub fn pts_ns(nanos: u128) -> (r: u64)
    ensures
        r == (if nanos > u64::MAX {
            u64::MAX as int
        } else {
            nanos as int
        }),
{
    if nanos > u64::MAX as u128 {
        u64::MAX
    } else {
        nanos as u64
    }
}

/// Audio frames on their way from the host's thread to the one that plays them.
#[derive(Debug)]
pub struct ChannelAudioDecoder {
    pub frames: Vec<Vec<u8>>,
    /// Frames that found no room.
    pub dropped: u64,
    pub channels: u8,
}

impl ChannelAudioDecoder {
    /// No more frames than there is room for.
    pub open spec fn wf(self) -> bool {
        self.frames.len() <= AUDIO_QUEUE_FRAMES
    }

    /// No frames yet, and the channels that were asked for.
    pub fn new() -> (r: Self)
        ensures
            r.wf(),
            r.frames@ == Seq::<Vec<u8>>::empty(),
            r.dropped == 0,
            r.channels == 2,
    {
        ChannelAudioDecoder { frames: Vec::new(), dropped: 0, channels: 2 }
    }

    /// Takes the number of channels that the host settled on; only two can be played. A number
    /// that is out of all range counts as two. Returns 0, or -1.
    pub fn setup(&mut self, channel_count: u32) -> (r: i32)
        ensures
            r == (if channel_count == 2 || channel_count > u8::MAX {
                0i32
            } else {
                -1i32
            }),
            *final(self) == (if r == 0 {
                ChannelAudioDecoder { channels: 2, ..*old(self) }
            } else {
                *old(self)
            }),
    {
        let channels: u8 = if channel_count > u8::MAX as u32 {
            2
        } else {
            channel_count as u8
        };
        if channels != 2 {
            return -1;
        }
        self.channels = channels;
        0
    }

    /// Takes a frame where there is room for it, and counts it where there is none.
    pub fn decode_and_play_sample(&mut self, sample: Vec<u8>)
        requires
            old(self).wf(),
            old(self).dropped < u64::MAX,
        ensures
            final(self).wf(),
            final(self).channels == old(self).channels,
            if old(self).frames.len() < AUDIO_QUEUE_FRAMES {
                final(self).frames@ == old(self).frames@.push(sample) && final(self).dropped
                    == old(self).dropped
            } else {
                final(self).frames@ == old(self).frames@ && final(self).dropped == old(self).dropped
                    + 1
            },
    {
        if self.frames.len() < AUDIO_QUEUE_FRAMES {
            self.frames.push(sample);
        } else {
            self.dropped = self.dropped + 1;
        }
    }

    /// Hands over the waiting frames, oldest first.
    pub fn pump_audio_once(&mut self) -> (r: Vec<Vec<u8>>)
        requires
            old(self).wf(),
        ensures
            final(self).wf(),
            r@ == old(self).frames@,
            final(self).frames@ == Seq::<Vec<u8>>::empty(),
            final(self).dropped == old(self).dropped,
            final(self).channels == old(self).channels,
    {
        let mut out: Vec<Vec<u8>> = Vec::new();
        std::mem::swap(&mut out, &mut self.frames);
        out
    }
}

/// A point of the chromaticity diagram, in units of 1/50000.
#[derive(Clone, Copy, Debug, PartialEq, Eq, Structural)]
pub struct Chroma {
    pub x: u16,
    pub y: u16,
}

/// HDR metadata as a host sends it: the largest luminance in nits, the smallest in 1/10000 nits.
#[derive(Clone, Copy, Debug, PartialEq, Eq, Structural)]
pub struct SunshineHdrMetadata {
    pub green: Chroma,
    pub blue: Chroma,
    pub red: Chroma,
    pub white_point: Chroma,
    pub max_display_luminance: u16,
    pub min_display_luminance: u16,
    pub max_content_light_level: u16,
    pub max_frame_average_light_level: u16,
}

/// HDR metadata as the panel takes it: both luminances in 1/10000 nits.
#[derive(Clone, Copy, Debug, PartialEq, Eq, Structural)]
pub struct HdrMeta {
    pub green: Chroma,
    pub blue: Chroma,
    pub red: Chroma,
    pub white_point: Chroma,
    pub max_display_mastering_luminance: u32,
    pub min_display_mastering_luminance: u32,
    pub max_cll: u16,
    pub max_fall: u16,
}

/// The same metadata in the panel's units.
pub open spec fn panel_meta(m: SunshineHdrMetadata) -> HdrMeta {
    HdrMeta {
        green: m.green,
        blue: m.blue,
        red: m.red,
        white_point: m.white_point,
        max_display_mastering_luminance: (m.max_display_luminance * 10_000) as u32,
        min_display_mastering_luminance: m.min_display_luminance as u32,
        max_cll: m.max_content_light_level,
        max_fall: m.max_frame_average_light_level,
    }
}

/// The same metadata in the panel's units.
pub fn hdr_meta(m: &SunshineHdrMetadata) -> (r: HdrMeta)
    ensures
        r == panel_meta(*m),
        r.max_display_mastering_luminance == m.max_display_luminance * 10_000,
{
    HdrMeta {
        green: m.green,
        blue: m.blue,
        red: m.red,
        white_point: m.white_point,
        max_display_mastering_luminance: m.max_display_luminance as u32 * 10_000,
        min_display_mastering_luminance: m.min_display_luminance as u32,
        max_cll: m.max_content_light_level,
        max_fall: m.max_frame_average_light_level,
    }
}

/// The colours of a stream as the panel is told of them.
#[derive(Clone, Copy, Debug, PartialEq, Eq, Structural)]
pub struct ColorInfo {
    pub space: ColorSpace,
    /// Whether brightness follows the curve of HDR.
    pub hdr: bool,
    pub range: ColorRange,
}

/// The colours of a stream with HDR or without it, in the range that the user insists on.
pub open spec fn colors_of(hdr: bool, insisted: ColorRangeOverride) -> ColorInfo {
    ColorInfo {
        space: if hdr {
            ColorSpace::Rec2020
        } else {
            ColorSpace::Rec709
        },
        hdr,
        range: if insisted == ColorRangeOverride::Full {
            ColorRange::Full
        } else {
            ColorRange::Limited
        },
    }
}

/// The colours of a stream with HDR or without it, in the range that the user insists on.
pub fn color_info(hdr: bool, insisted: ColorRangeOverride) -> (r: ColorInfo)
    ensures
        r == colors_of(hdr, insisted),
{
    ColorInfo {
        space: if hdr {
            ColorSpace::Rec2020
        } else {
            ColorSpace::Rec709
        },
        hdr,
        range: if insisted == ColorRangeOverride::Full {
            ColorRange::Full
        } else {
            ColorRange::Limited
        },
    }
}

/// What the panel is to be told.
#[derive(Clone, Copy, Debug, PartialEq, Eq, Structural)]
pub struct HdrUpdate {
    /// Without metadata there is nothing for the panel to enter HDR with.
    pub meta: Option<HdrMeta>,
    pub color: ColorInfo,
}

/// What is known of the session outside its frames.
#[derive(Clone, Copy, Debug, PartialEq, Eq, Structural)]
pub struct Listener {
    pub color_range_override: ColorRangeOverride,
    /// Whether a decoder is there to be told of HDR.
    pub loaded: bool,
    /// What was settled on last.
    pub hdr_applied: Option<SunshineHdrMetadata>,
    pub terminated: bool,
    pub termination_code: i32,
}

/// The metadata that a change of mode asks for.
pub open spec fn wanted_hdr(enabled: bool, m: Option<SunshineHdrMetadata>) -> Option<
    SunshineHdrMetadata,
> {
    if enabled {
        m
    } else {
        None
    }
}

impl Listener {
    /// After a change of mode.
    pub open spec fn hdr_set(self, enabled: bool, m: Option<SunshineHdrMetadata>) -> Listener {
        Listener { hdr_applied: wanted_hdr(enabled, m), ..self }
    }

    /// What the panel is told of a change of mode, if there is one and a decoder to tell.
    pub open spec fn hdr_told(self, enabled: bool, m: Option<SunshineHdrMetadata>) -> Option<
        HdrUpdate,
    > {
        if self.hdr_applied == wanted_hdr(enabled, m) || !self.loaded {
            None
        } else {
            Some(
                HdrUpdate {
                    meta: match wanted_hdr(enabled, m) {
                        Some(m) => Some(panel_meta(m)),
                        None => None,
                    },
                    color: colors_of(enabled, self.color_range_override),
                },
            )
        }
    }

    /// A session that runs, in SDR, in the range that the user insists on.
    pub fn new(color_range_override: ColorRangeOverride) -> (r: Self)
        ensures
            r == (Listener {
                color_range_override,
                loaded: false,
                hdr_applied: None,
                terminated: false,
                termination_code: 0,
            }),
    {
        Listener {
            color_range_override,
            loaded: false,
            hdr_applied: None,
            terminated: false,
            termination_code: 0,
        }
    }

    /// Takes a change of mode. Returns what the panel is to be told: nothing where it has been
    /// told already, since telling it again would make it enter HDR again.
    pub fn set_hdr_mode(&mut self, enabled: bool, m: Option<SunshineHdrMetadata>) -> (r: Option<
        HdrUpdate,
    >)
        ensures
            *final(self) == old(self).hdr_set(enabled, m),
            r == old(self).hdr_told(enabled, m),
    {
        let wanted = if enabled {
            m
        } else {
            None
        };
        let same = match (&self.hdr_applied, &wanted) {
            (Some(a), Some(b)) => *a == *b,
            (None, None) => true,
            _ => false,
        };
        if same {
            return None;
        }
        self.hdr_applied = wanted;
        if !self.loaded {
            return None;
        }
        let meta = match &wanted {
            Some(m) => Some(hdr_meta(m)),
            None => None,
        };
        Some(HdrUpdate { meta, color: color_info(enabled, self.color_range_override) })
    }

    /// Takes down that the host ended the session, and why.
    pub fn connection_terminated(&mut self, error_code: i32)
        ensures
            *final(self) == (Listener {
                terminated: true,
                termination_code: error_code,
                ..*old(self)
            }),
    {
        self.termination_code = error_code;
        self.terminated = true;
    }

    /// Whether the session is over: the host ended it, or its driver has stopped.
    pub fn is_session_ended(&self, stopped: bool) -> (r: bool)
        ensures
            r == (self.terminated || stopped),
    {
        self.terminated || stopped
    }
}

/// The panel is told of a mode once, however often the host repeats it.
pub proof fn law_hdr_told_once(l: Listener, enabled: bool, m: Option<SunshineHdrMetadata>)
    ensures
        l.hdr_set(enabled, m).hdr_told(enabled, m) is None,
        l.hdr_set(enabled, m).hdr_set(enabled, m) == l.hdr_set(enabled, m),
{
}

/// What to do while a session ends.
#[derive(Clone, Copy, Debug, PartialEq, Eq, Structural)]
pub enum ShutdownStep {
    /// Look again in a moment.
    Wait,
    /// Done; where it is not clean, the video callback may still be in the decoder.
    Done { clean: bool },
}

/// What to do `waited` milliseconds after the session was told to end: wait for the video
/// callback, but not forever.
pub fn shutdown(video_stopped: bool, waited: u64) -> (r: ShutdownStep)
    ensures
        r == (if video_stopped {
            ShutdownStep::Done { clean: true }
        } else if waited < SHUTDOWN_TIMEOUT {
            ShutdownStep::Wait
        } else {
            ShutdownStep::Done { clean: false }
        }),
{
    if video_stopped {
        ShutdownStep::Done { clean: true }
    } else if waited < SHUTDOWN_TIMEOUT {
        ShutdownStep::Wait
    } else {
        ShutdownStep::Done { clean: false }
    }
}

/// Whether `f` is among the formats of a set.
pub open spec fn offers(set: VideoFormats, f: VideoFormat) -> bool {
    match f {
        VideoFormat::H264 => set.h264,
        VideoFormat::H265 => set.h265,
        VideoFormat::H265Main10 => set.h265_main10,
        VideoFormat::Av1 => set.av1,
        _ => false,
    }
}

/// Every format that is offered belongs to the codec that the user chose, and the chosen codec's
/// plain format is offered; where the choice is left open, those of both codecs are. Nothing is
/// offered that the decoder cannot take.
pub proof fn law_offer_is_the_chosen_codec(spec: GsConnectSpec, f: VideoFormat)
    ensures
        ({
            let set = settings_for(spec).supported_video_formats;
            let avc = f == VideoFormat::H264 || f == VideoFormat::H264High8_444;
            let hevc = f == VideoFormat::H265 || f == VideoFormat::H265Main10 || f
                == VideoFormat::H265Rext8_444 || f == VideoFormat::H265Rext10_444;
            &&& offers(set, f) ==> match spec.codec {
                CodecPref::H264 => avc,
                CodecPref::Hevc => hevc,
                CodecPref::Auto => avc || hevc,
            }
            &&& offers(set, f) ==> codec_of(f) == Some(
                if avc {
                    NdlCodec::H264
                } else {
                    NdlCodec::H265
                },
            )
            &&& f == VideoFormat::H264 && spec.codec != CodecPref::Hevc ==> offers(set, f)
            &&& f == VideoFormat::H265 && spec.codec != CodecPref::H264 ==> offers(set, f)
            &&& f == VideoFormat::H265Main10 ==> offers(set, f) == (spec.hdr_enabled && spec.codec
                != CodecPref::H264)
            &&& set.h264 == (spec.codec == CodecPref::Auto || spec.codec == CodecPref::H264)
            &&& set.h265 == (spec.codec == CodecPref::Auto || spec.codec == CodecPref::Hevc)
        }),
{
}

/// The formats offered for a choice of codec, with HDR or without it, are of that codec alone.
pub proof fn law_offer_of_one_codec(codec: CodecPref, hdr: bool)
    ensures
        offered(codec, hdr).h264 == !(codec is Hevc),
        offered(codec, hdr).h265 == !(codec is H264),
        offered(codec, hdr).h265_main10 ==> hdr && offered(codec, hdr).h265,
        offered(codec, hdr).h265 && hdr ==> offered(codec, hdr).h265_main10,
        !offered(codec, hdr).av1,
{
}

/// What the user chose is what is asked for: the size, the frame rate, the bitrate unless it is
/// left to this device, HDR unless the codec cannot carry it, the full range without HDR, and a
/// controller where one is attached. The host sets the game up, sends two channels of sound,
/// plays none itself, and is reached on the local network without encryption.
pub proof fn law_settings_follow_the_choices(spec: GsConnectSpec)
    requires
        spec.refresh_hz * 100 <= u32::MAX,
    ensures
        ({
            let s = settings_for(spec);
            let hdr = spec.hdr_enabled && (spec.codec is Auto || spec.codec is Hevc);
            &&& s.width == spec.width && s.height == spec.height
            &&& s.fps == spec.refresh_hz && s.fps_x100 == 100 * spec.refresh_hz
            &&& spec.bitrate_kbps > 0 ==> s.bitrate == spec.bitrate_kbps
            &&& s.hdr == hdr
            &&& s.color_space == if hdr {
                ColorSpace::Rec2020
            } else {
                ColorSpace::Rec709
            }
            &&& (s.color_range == ColorRange::Full) == (!hdr && spec.color_range_override is Full)
            &&& s.gamepads_attached == if spec.gamepad_attached {
                1int
            } else {
                0int
            }
            &&& s.sops && s.audio_channels == 2 && !s.local_audio_play_mode
            &&& !s.encrypted && !s.remote && !s.enable_mic && !s.gamepads_persist_after_disconnect
            &&& s.packet_size == 1392
        }),
{
}

/// The bitrate that this device picks is a fixed number of bits per frame for each class of size,
/// up to 720p, 1080p, 1440p and beyond: 10, 20, 40 and 80 Mbit in 60 frames, rounded down. Below
/// 30 frames a second it is that of 30.
pub proof fn law_automatic_bitrate(spec: GsConnectSpec, class: int)
    requires
        spec.bitrate_kbps == 0,
        spec.width * spec.height <= u32::MAX,
        spec.refresh_hz <= 3_000_000,
        class == if spec.width * spec.height <= 921_600 {
            10_000int
        } else if spec.width * spec.height <= 2_073_600 {
            20_000int
        } else if spec.width * spec.height <= 3_686_400 {
            40_000int
        } else {
            80_000int
        },
    ensures
        spec.refresh_hz >= 30 ==> 60 * settings_for(spec).bitrate <= class * spec.refresh_hz < 60 * (
        settings_for(spec).bitrate + 1),
        spec.refresh_hz < 30 ==> 2 * settings_for(spec).bitrate == class,
        settings_for(spec).bitrate == automatic_kbps(spec.width, spec.height, spec.refresh_hz),
{
    let hz = spec.refresh_hz as int;
    assert(class * hz <= 80_000 * 3_000_000) by (nonlinear_arith)
        requires
            0 <= class <= 80_000,
            0 <= hz <= 3_000_000,
    ;
    assert(class * hz >= 0) by (nonlinear_arith)
        requires
            0 <= class,
            0 <= hz,
    ;
}

/// The desktop is the first app with that title in any case, and no other.
pub proof fn law_desktop_is_the_first_of_its_title(apps: Seq<HostApp>, i: int)
    requires
        0 <= i < apps.len(),
    ensures
        0 <= desktop_index(apps) <= apps.len(),
        i < desktop_index(apps) ==> !same_but_case(apps[i].title@, "desktop"@),
        desktop_index(apps) < apps.len() ==> same_but_case(
            apps[desktop_index(apps)].title@,
            "desktop"@,
        ),
    decreases apps.len(),
{
    if !same_but_case(apps[0].title@, "desktop"@) {
        let rest = apps.drop_first();
        if rest.len() > 0 {
            law_desktop_is_the_first_of_its_title(
                rest,
                if i > 0 {
                    i - 1
                } else {
                    0
                },
            );
            if i > 0 {
                assert(rest[i - 1] == apps[i]);
            }
            if desktop_index(rest) < rest.len() {
                assert(rest[desktop_index(rest)] == apps[desktop_index(rest) + 1]);
            }
        }
    }
}

/// Texts that are equal but for case: the same letters one by one, where a letter from A to Z
/// counts as the one 32 places on. It holds of a text and itself, and both ways.
pub proof fn law_case_is_disregarded(a: Seq<char>, b: Seq<char>, i: int)
    ensures
        same_but_case(a, a),
        same_but_case(a, b) ==> same_but_case(b, a),
        same_but_case(a, b) ==> a.len() == b.len(),
        same_but_case(a, b) && 0 <= i < a.len() ==> a[i] == b[i] || (a[i] as int - b[i] as int == 32
            && 'A' <= b[i] <= 'Z') || (b[i] as int - a[i] as int == 32 && 'A' <= a[i] <= 'Z'),
        a.len() == b.len() && (forall|k: int|
            0 <= k < a.len() ==> #[trigger] a[k] == b[k] || ('A' <= b[k] <= 'Z' && a[k] as int
                == b[k] as int + 32)) ==> same_but_case(a, b),
{
    if same_but_case(a, b) && 0 <= i < a.len() {
        assert(ascii_lower(a[i]) == ascii_lower(b[i]));
    }
}

/// A paired host that was opened is launched with the app that was named; where none was named,
/// its apps are listed and the desktop among them is launched. The settings to be adjusted are
/// those of the user's choices.
pub proof fn law_named_app_is_launched(spec: GsConnectSpec, apps: Vec<HostApp>)
    ensures
        ({
            let opened = ConnectingView::Opening.then_came(
                spec,
                Connected::Opened { paired: Some(true) },
            );
            let listed = ConnectingView::Listing.then_came(spec, Connected::Listed(apps));
            &&& spec.app_id is None ==> opened == ConnectingView::Listing
            &&& spec.app_id matches Some(id) ==> match parse_unsigned(id@, 0xffff_ffff) {
                Some(n) => opened matches ConnectingView::Adjusting { app_id, settings } && app_id
                    == n && settings == settings_for(spec),
                None => opened is Failed,
            }
            &&& listed matches ConnectingView::Adjusting { app_id, settings } ==> settings
                == settings_for(spec) && exists|i: int|
                0 <= i < apps.len() && same_but_case((#[trigger] apps@[i]).title@, "desktop"@)
                    && app_id == apps@[i].id
            &&& listed is Adjusting || listed is Failed
            &&& (exists|i: int|
                0 <= i < apps.len() && same_but_case((#[trigger] apps@[i]).title@, "desktop"@))
                ==> listed is Adjusting
        }),
{
    if apps@.len() > 0 {
        assert forall|i: int| 0 <= i < apps.len() && i < desktop_index(apps@) implies !same_but_case(
            (#[trigger] apps@[i]).title@,
            "desktop"@,
        ) by {
            law_desktop_is_the_first_of_its_title(apps@, i);
        }
        law_desktop_is_the_first_of_its_title(apps@, 0);
    }
}

/// A connection takes its steps in order, each with what the one before gave it: the app that was
/// found is launched with the settings as the host adjusted them, the stream is started with the
/// same, and the session that runs has the size and rate that were asked for and the bitrate that
/// was granted.
pub proof fn law_steps_hand_on(
    spec: GsConnectSpec,
    app_id: u32,
    asked: StreamSettings,
    granted: StreamSettings,
    format: VideoFormat,
)
    ensures
        ({
            let adjusted = ConnectingView::Adjusting { app_id, settings: asked }.then_came(
                spec,
                Connected::Adjusted(granted),
            );
            let launched = adjusted.then_came(spec, Connected::Launched);
            let started = launched.then_came(spec, Connected::Started { format });
            &&& adjusted == ConnectingView::Launching { app_id, settings: granted }
            &&& launched == ConnectingView::Starting { settings: granted }
            &&& (format == VideoFormat::Av1) == (started is Failed)
            &&& started matches ConnectingView::Running(facts) ==> {
                &&& facts.width == spec.width && facts.height == spec.height
                &&& facts.refresh_hz == spec.refresh_hz
                &&& facts.bitrate_kbps == granted.bitrate
                &&& facts.hdr == (spec.hdr_enabled && !(spec.codec is H264))
                &&& (facts.codec == NdlCodec::H264) == (format == VideoFormat::H264 || format
                    == VideoFormat::H264High8_444)
            }
            &&& started is Running || started is Failed
        }),
{
}

/// A step that fails ends the connection with what it was about and why; one that could not even
/// be tried, with why. News that do not belong to the step change nothing.
pub proof fn law_failure_says_where(at: ConnectingView, spec: GsConnectSpec, e: String)
    requires
        !(at is Running),
        !(at is Failed),
    ensures
        at.then_came(spec, Connected::Unprepared(e)) == ConnectingView::Failed(e@),
        ({
            let failed = at.then_came(spec, Connected::Failed(e));
            &&& at is Opening ==> failed == ConnectingView::Failed("open GameStream host: "@ + e@)
            &&& at is Listing ==> failed == ConnectingView::Failed(e@)
            &&& at is Adjusting ==> failed == ConnectingView::Failed(
                "stream settings unsupported by this host: "@ + e@,
            )
            &&& at is Launching ==> failed == ConnectingView::Failed("launch: "@ + e@)
            &&& at is Starting ==> failed == ConnectingView::Failed(
                "start GameStream stream: "@ + e@,
            )
        }),
        !(at is Starting) ==> forall|format: VideoFormat|
            #![auto]
            at.then_came(spec, Connected::Started { format }) == at,
        !(at is Launching) ==> at.then_came(spec, Connected::Launched) == at,
        !(at is Opening) ==> forall|paired: Option<bool>|
            #![auto]
            at.then_came(spec, Connected::Opened { paired }) == at,
{
    assert(seq![] + e@ =~= e@);
}

/// Frames are missing exactly where the number of a frame does not follow that of the one before,
/// the first following the last there is.
pub proof fn law_gap_is_loss(d: SinkDecoder, index: u32)
    ensures
        d.last_frame_index is None ==> !d.lost_before(index),
        d.last_frame_index matches Some(prev) ==> d.lost_before(index) == ((prev + 1 - index)
            % 0x1_0000_0000 != 0),
{
}

/// The buffers of a frame make up the frame, each at the place where those before it end.
pub proof fn law_joined_in_order(buffers: Seq<Vec<u8>>, i: int, j: int)
    requires
        0 <= i < buffers.len(),
        0 <= j < buffers[i].len(),
    ensures
        joined(buffers.take(i)).len() + j < joined(buffers).len(),
        joined(buffers)[joined(buffers.take(i)).len() + j] == buffers[i]@[j],
        joined(buffers.take(i + 1)).len() == joined(buffers.take(i)).len() + buffers[i].len(),
        joined(buffers.take(0)).len() == 0,
    decreases buffers.len(),
{
    assert(buffers.take(0) =~= seq![]);
    assert(buffers.take(i + 1).drop_last() =~= buffers.take(i));
    if i + 1 == buffers.len() {
        assert(buffers.take(i + 1) =~= buffers);
    } else {
        let head = buffers.drop_last();
        assert(head.take(i) =~= buffers.take(i));
        assert(head[i] == buffers[i]);
        law_joined_in_order(head, i, j);
    }
}

/// The panel is told of every change of mode while a decoder is there: with HDR, of the host's
/// colours point by point and both luminances in 1/10000 nits; without it, of none. The range is
/// the full one only where the user insists on it.
pub proof fn law_panel_hears_of_changes(l: Listener, enabled: bool, m: Option<SunshineHdrMetadata>)
    ensures
        l.hdr_set(enabled, m).hdr_applied == (if enabled {
            m
        } else {
            None
        }),
        !l.loaded ==> l.hdr_told(enabled, m) is None,
        l.loaded && l.hdr_applied != l.hdr_set(enabled, m).hdr_applied ==> (l.hdr_told(
            enabled,
            m,
        ) matches Some(u) && {
            &&& u.color.hdr == enabled
            &&& (u.color.space == ColorSpace::Rec2020) == enabled
            &&& (u.color.range == ColorRange::Full) == (l.color_range_override is Full)
            &&& u.meta is Some == (enabled && m is Some)
            &&& u.meta matches Some(p) ==> {
                &&& p.red == m->0.red && p.green == m->0.green && p.blue == m->0.blue
                &&& p.white_point == m->0.white_point
                &&& p.max_display_mastering_luminance == 10_000 * m->0.max_display_luminance
                &&& p.min_display_mastering_luminance == m->0.min_display_luminance
                &&& p.max_cll == m->0.max_content_light_level
                &&& p.max_fall == m->0.max_frame_average_light_level
            }
        }),
{
}

} // verus!
