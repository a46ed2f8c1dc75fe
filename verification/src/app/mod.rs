//! The menu before a stream: its state, and what each event does to it.
//!
//! The state is a plain value. Work that leaves the program (storing, fetching, sending) is asked
//! for by commands in `App::outbox`, which the caller takes out and performs; what comes back is
//! handed to the `drain_*` and `finish_*` methods.
use vstd::prelude::*;

use crate::app::tiles::{TileCache, TilesView};
use crate::art::{ArtLoader, ArtLoaderView};
use crate::compositor::Tile;
use crate::discovery::{DiscoveredHost, DiscoveredView};
use crate::geometry::Rect;
use crate::library::{GameEntry, GameView};
use crate::model::protocol::Protocol;
use crate::seqs::{opt_view, views};
use crate::store::{EntryView, HostEntry, KnownHost, KnownHostView};

pub mod about;
pub mod address;
pub mod cards;
pub mod diagnostics;
pub mod drain;
pub mod draw;
pub mod experimental;
pub mod forget;
pub mod frame;
pub mod gamestream;
pub mod grid;
pub mod home;
pub mod hostmenu;
pub mod launch;
pub mod modal;
pub mod navigate;
pub mod order;
pub mod pairing;
pub mod pins;
pub mod pointer;
pub mod prepare;
pub mod reach;
pub mod ready;
pub mod scroll;
pub mod settings;
pub mod speedtest;
pub mod tick;
pub mod tiles;
pub mod view;
pub mod wake;
pub mod wakesettings;

verus! {

/// Which screen is up.
#[derive(Clone, Copy, Debug, PartialEq, Eq, Hash, Structural)]
pub enum Screen {
    Home,
    Pairing,
    Settings,
    AddHost,
    Wake,
    ForgetHost,
    HostMenu,
    EditHost,
    About,
    SpeedTest,
    WakeSettings,
    PinLimit,
    Experimental,
    Diagnostics,
}

/// The pairing screen's focus: the PIN digits, or the "Request access" button.
#[derive(Clone, Copy, Debug, PartialEq, Eq, Structural)]
pub enum PairingFocus {
    Pin,
    RequestAccess,
}

/// Where the focus is on Home.
#[derive(Clone, Copy, Debug, PartialEq, Eq, Structural)]
pub enum HomeFocus {
    /// A row of the sidebar: the hosts, then "Add host", then "Settings".
    Sidebar(usize),
    /// The menu button of a host row.
    SidebarMenu(usize),
    /// A cell of the grid.
    Grid(usize),
}

/// Why a wake signal was asked for.
#[derive(Clone, Copy, Debug, PartialEq, Eq, Structural)]
pub enum WakeSend {
    /// The host was found unreachable and is woken without asking.
    Auto,
    /// The retry interval ran out.
    Retry,
    /// The user confirmed it.
    Manual,
}

/// A host that is being woken, or that the user is asked about waking.
#[derive(Debug)]
pub struct WakeState {
    pub host: String,
    pub port: u16,
    pub name: String,
    pub mac: Vec<String>,
    /// The error that led here, shown again when the user backs out.
    pub reason: String,
    /// 0 is "Wake host", 1 is "Cancel".
    pub focused: usize,
    /// Whether a signal has gone out.
    pub sent: bool,
    /// How many signals have gone out.
    pub attempts: u32,
    /// When the first signal went out.
    pub since: Option<u64>,
    /// When a signal was last tried.
    pub last_attempt: Option<u64>,
    /// Whether the wait runs without a prompt.
    pub silent: bool,
    pub last_probe: Option<u64>,
    /// Whether a reachability probe is out.
    pub probing: bool,
    /// A signal that was asked for and whose outcome is still to come.
    pub sending: Option<WakeSend>,
}

/// A `WakeState` as values.
pub struct WakeView {
    pub host: Seq<char>,
    pub port: u16,
    pub name: Seq<char>,
    pub mac: Seq<Seq<char>>,
    pub reason: Seq<char>,
    pub focused: usize,
    pub sent: bool,
    pub attempts: u32,
    pub since: Option<u64>,
    pub last_attempt: Option<u64>,
    pub silent: bool,
    pub last_probe: Option<u64>,
    pub probing: bool,
    pub sending: Option<WakeSend>,
}

impl View for WakeState {
    type V = WakeView;

    open spec fn view(&self) -> WakeView {
        WakeView {
            host: self.host@,
            port: self.port,
            name: self.name@,
            mac: views(self.mac@),
            reason: self.reason@,
            focused: self.focused,
            sent: self.sent,
            attempts: self.attempts,
            since: self.since,
            last_attempt: self.last_attempt,
            silent: self.silent,
            last_probe: self.last_probe,
            probing: self.probing,
            sending: self.sending,
        }
    }
}

/// What to stream.
#[derive(Debug)]
pub struct ConnectTarget {
    pub host: String,
    pub port: u16,
    pub fingerprint: [u8; 32],
    /// The title to launch, or the desktop.
    pub launch: Option<String>,
}

/// A `ConnectTarget` as values.
pub struct TargetView {
    pub host: Seq<char>,
    pub port: u16,
    pub fingerprint: [u8; 32],
    pub launch: Option<Seq<char>>,
}

impl View for ConnectTarget {
    type V = TargetView;

    open spec fn view(&self) -> TargetView {
        TargetView {
            host: self.host@,
            port: self.port,
            fingerprint: self.fingerprint,
            launch: opt_view(self.launch),
        }
    }
}

/// A confirmed card whose host is still being checked.
#[derive(Debug)]
pub struct PendingLaunch {
    pub host: String,
    pub port: u16,
    pub fingerprint: [u8; 32],
    pub launch: Option<String>,
    pub title: String,
    /// The cell of the card.
    pub idx: usize,
}

/// A `PendingLaunch` as values.
pub struct PendingView {
    pub host: Seq<char>,
    pub port: u16,
    pub fingerprint: [u8; 32],
    pub launch: Option<Seq<char>>,
    pub title: Seq<char>,
    pub idx: usize,
}

impl View for PendingLaunch {
    type V = PendingView;

    open spec fn view(&self) -> PendingView {
        PendingView {
            host: self.host@,
            port: self.port,
            fingerprint: self.fingerprint,
            launch: opt_view(self.launch),
            title: self.title@,
            idx: self.idx,
        }
    }
}

/// An open list of choices on a settings screen.
#[derive(Clone, Copy, Debug, PartialEq, Eq, Structural)]
pub struct DropdownState {
    pub row: usize,
    pub focused: usize,
}

/// The log level that the user chose.
#[derive(Clone, Copy, Debug, PartialEq, Eq, Structural)]
pub enum LogLevelOverride {
    Debug,
    Info,
    Warn,
    Error,
}

/// What a row of the settings list is about.
#[derive(Clone, Copy, Debug, PartialEq, Eq, Structural)]
pub enum SettingsRow {
    Resolution,
    FrameRate,
    VideoBackend,
    Codec,
    Audio,
    Gamepad,
    ColorRange,
    Hdr,
    /// Another setting, stepped in place.
    Other(u8),
    /// Links to other screens.
    Experimental,
    Diagnostics,
    About,
}

/// The settings that the menu logic itself reads or writes.
#[derive(Clone, Copy, Debug, PartialEq, Eq, Structural)]
pub struct Settings {
    pub bitrate_kbps: u32,
    pub hdr_enabled: bool,
    /// Whether the experimental frame pacer is on.
    pub video_pacing: bool,
    pub gamestream_enabled: bool,
    pub log_level_override: LogLevelOverride,
}

/// What a bandwidth probe measured.
#[derive(Clone, Copy, Debug, PartialEq, Eq, Structural)]
pub struct ProbeOutcome {
    pub throughput_kbps: u32,
    /// Share of the burst that was lost, in percent, rounded.
    pub loss_pct: u32,
    pub recv_bytes: u64,
    pub elapsed_ms: u32,
}

/// How far a speed test has got.
#[derive(Debug)]
pub enum SpeedTestState {
    Connecting,
    Measuring { partial: Option<ProbeOutcome> },
    /// The host's own report is missing where `confirmed` is not set.
    Done { outcome: ProbeOutcome, confirmed: bool },
    Failed(String),
}

/// A `SpeedTestState` as values.
pub enum SpeedTestView {
    Connecting,
    Measuring { partial: Option<ProbeOutcome> },
    Done { outcome: ProbeOutcome, confirmed: bool },
    Failed(Seq<char>),
}

impl View for SpeedTestState {
    type V = SpeedTestView;

    open spec fn view(&self) -> SpeedTestView {
        match self {
            SpeedTestState::Connecting => SpeedTestView::Connecting,
            SpeedTestState::Measuring { partial } => SpeedTestView::Measuring { partial: *partial },
            SpeedTestState::Done { outcome, confirmed } => SpeedTestView::Done {
                outcome: *outcome,
                confirmed: *confirmed,
            },
            SpeedTestState::Failed(e) => SpeedTestView::Failed(e@),
        }
    }
}

/// The scroll position of an overflowing list, and when it last moved.
#[derive(Clone, Copy, Debug, PartialEq, Eq, Structural)]
pub struct ScrollWindow {
    pub offset: usize,
    pub shown_at: Option<u64>,
}

/// The part of a long document that is rasterized.
#[derive(Clone, Copy, Debug, PartialEq, Eq, Structural)]
pub struct ContentWindow {
    pub start: usize,
    pub len: usize,
}

/// What is known of one host's reachability.
#[derive(Debug)]
pub struct Reach {
    pub host: String,
    pub port: u16,
    pub online: bool,
}

/// A `Reach` as values.
pub struct ReachView {
    pub host: Seq<char>,
    pub port: u16,
    pub online: bool,
}

impl View for Reach {
    type V = ReachView;

    open spec fn view(&self) -> ReachView {
        ReachView { host: self.host@, port: self.port, online: self.online }
    }
}

/// The fade of the screen that is open, and of the one that was left.
#[derive(Clone, Copy, Debug)]
pub struct ModalFade {
    pub opened_at: Option<u64>,
    pub closing: Option<(u64, Screen)>,
}

/// The fade of an open list of choices, and of the one that was closed: its row and choice.
#[derive(Clone, Copy, Debug)]
pub struct DropdownFade {
    pub opened_at: Option<u64>,
    pub closing: Option<(u64, usize, usize)>,
}

/// A host to probe in a reachability sweep.
#[derive(Debug)]
pub struct ReachTarget {
    pub protocol: Protocol,
    pub host: String,
    pub port: u16,
    /// Whether to ask it for its Wake-on-LAN address too.
    pub want_mac: bool,
}

/// A `ReachTarget` as values.
pub struct ReachTargetView {
    pub protocol: Protocol,
    pub host: Seq<char>,
    pub port: u16,
    pub want_mac: bool,
}

impl View for ReachTarget {
    type V = ReachTargetView;

    open spec fn view(&self) -> ReachTargetView {
        ReachTargetView {
            protocol: self.protocol,
            host: self.host@,
            port: self.port,
            want_mac: self.want_mac,
        }
    }
}

/// A host as it was when its pairing began.
#[derive(Debug)]
pub struct PairingTarget {
    pub protocol: Protocol,
    pub host: String,
    pub port: u16,
    pub name: String,
    pub mgmt_port: Option<u16>,
    pub mac: Vec<String>,
}

/// A `PairingTarget` as values.
pub struct PairingTargetView {
    pub protocol: Protocol,
    pub host: Seq<char>,
    pub port: u16,
    pub name: Seq<char>,
    pub mgmt_port: Option<u16>,
    pub mac: Seq<Seq<char>>,
}

impl View for PairingTarget {
    type V = PairingTargetView;

    open spec fn view(&self) -> PairingTargetView {
        PairingTargetView {
            protocol: self.protocol,
            host: self.host@,
            port: self.port,
            name: self.name@,
            mgmt_port: self.mgmt_port,
            mac: views(self.mac@),
        }
    }
}

/// How a pairing ended: with the host's fingerprint, or with a sentence for the user.
#[derive(Debug)]
pub struct PairingOutcome {
    pub target: PairingTarget,
    pub result: Result<[u8; 32], String>,
}

/// Work for the caller.
#[derive(Debug)]
pub enum Command {
    SaveKnownHosts,
    SaveSelectedHost { host: String, port: u16 },
    SaveSettings,
    /// Fetch the library; the answer goes to `App::drain_games`. An earlier fetch is abandoned.
    FetchGames { host: String, port: u16, mgmt_port: u16, fingerprint: Option<[u8; 32]> },
    /// Fetch the library to see whether the host answers; the answer goes to
    /// `App::drain_launch_check`.
    CheckLaunch { host: String, port: u16, mgmt_port: u16, pin: [u8; 32] },
    /// The same for a host that is being woken; the answer goes to `App::tick_wake`.
    ProbeWake { host: String, port: u16, mgmt_port: u16, fingerprint: Option<[u8; 32]> },
    /// Start loading covers for this host.
    StartArt { host: String, port: u16, mgmt_port: u16, fingerprint: Option<[u8; 32]> },
    /// Abandon covers that are still loading.
    StopArt,
    /// Delete the covers stored for this host.
    ClearArtCache { host: String, port: u16 },
    /// Send a wake signal; the outcome goes to `App::finish_wake_send`.
    SendWake { mac: Vec<String>, host: String, name: String },
    /// Pair with this PIN; the outcome goes to `App::drain_pairing`.
    Pair { target: PairingTarget, digits: String },
    /// Ask for access without a PIN; the outcome goes to `App::drain_pairing`.
    RequestAccess { target: PairingTarget },
    /// Abandon the pairing that is under way.
    CancelPairing,
    /// Measure the bandwidth; progress goes to `App::drain_speed_test`.
    StartSpeedTest { host: String, port: u16, fingerprint: Option<[u8; 32]> },
    CancelSpeedTest,
    /// Probe these hosts; the answers go to `App::drain_reachability`.
    SweepReachability { targets: Vec<ReachTarget> },
    /// End the app that the host is running; the outcome goes to `App::drain_quit_app`.
    QuitApp { name: String, host: String, port: u16 },
    /// Ask the address whether it is a GameStream host; the answer goes to
    /// `App::drain_gamestream_probe`.
    ProbeGameStream { host: String, port: u16 },
    /// Begin browsing for hosts anew.
    RestartDiscovery,
    /// Give this setting the choice of an open list; the outcome goes to
    /// `App::finish_dropdown_choice`.
    ApplyDropdown { row: SettingsRow, choice: usize },
    /// Step this setting; the outcome goes to `App::finish_setting_adjust`.
    AdjustSetting { row: SettingsRow, forward: bool },
    SetLogLevel(LogLevelOverride),
    /// Empty the address field, or fill it with this address.
    AddressReset { address: Option<String> },
    AddressBackspace,
    AddressAdvanceOctet,
    AddressDigit(u8),
    AddressChar(char),
}

/// A `Command` as values.
pub enum CommandView {
    SaveKnownHosts,
    SaveSelectedHost { host: Seq<char>, port: u16 },
    SaveSettings,
    FetchGames { host: Seq<char>, port: u16, mgmt_port: u16, fingerprint: Option<[u8; 32]> },
    CheckLaunch { host: Seq<char>, port: u16, mgmt_port: u16, pin: [u8; 32] },
    ProbeWake { host: Seq<char>, port: u16, mgmt_port: u16, fingerprint: Option<[u8; 32]> },
    StartArt { host: Seq<char>, port: u16, mgmt_port: u16, fingerprint: Option<[u8; 32]> },
    StopArt,
    ClearArtCache { host: Seq<char>, port: u16 },
    SendWake { mac: Seq<Seq<char>>, host: Seq<char>, name: Seq<char> },
    Pair { target: PairingTargetView, digits: Seq<char> },
    RequestAccess { target: PairingTargetView },
    CancelPairing,
    StartSpeedTest { host: Seq<char>, port: u16, fingerprint: Option<[u8; 32]> },
    CancelSpeedTest,
    SweepReachability { targets: Seq<ReachTargetView> },
    QuitApp { name: Seq<char>, host: Seq<char>, port: u16 },
    ProbeGameStream { host: Seq<char>, port: u16 },
    RestartDiscovery,
    ApplyDropdown { row: SettingsRow, choice: usize },
    AdjustSetting { row: SettingsRow, forward: bool },
    SetLogLevel(LogLevelOverride),
    AddressReset { address: Option<Seq<char>> },
    AddressBackspace,
    AddressAdvanceOctet,
    AddressDigit(u8),
    AddressChar(char),
}

impl View for Command {
    type V = CommandView;

    open spec fn view(&self) -> CommandView {
        match *self {
            Command::SaveKnownHosts => CommandView::SaveKnownHosts,
            Command::SaveSelectedHost { host, port } => CommandView::SaveSelectedHost {
                host: host@,
                port,
            },
            Command::SaveSettings => CommandView::SaveSettings,
            Command::FetchGames { host, port, mgmt_port, fingerprint } => CommandView::FetchGames {
                host: host@,
                port,
                mgmt_port,
                fingerprint,
            },
            Command::CheckLaunch { host, port, mgmt_port, pin } => CommandView::CheckLaunch {
                host: host@,
                port,
                mgmt_port,
                pin,
            },
            Command::ProbeWake { host, port, mgmt_port, fingerprint } => CommandView::ProbeWake {
                host: host@,
                port,
                mgmt_port,
                fingerprint,
            },
            Command::StartArt { host, port, mgmt_port, fingerprint } => CommandView::StartArt {
                host: host@,
                port,
                mgmt_port,
                fingerprint,
            },
            Command::StopArt => CommandView::StopArt,
            Command::ClearArtCache { host, port } => CommandView::ClearArtCache {
                host: host@,
                port,
            },
            Command::SendWake { mac, host, name } => CommandView::SendWake {
                mac: views(mac@),
                host: host@,
                name: name@,
            },
            Command::Pair { target, digits } => CommandView::Pair {
                target: target@,
                digits: digits@,
            },
            Command::RequestAccess { target } => CommandView::RequestAccess { target: target@ },
            Command::CancelPairing => CommandView::CancelPairing,
            Command::StartSpeedTest { host, port, fingerprint } => CommandView::StartSpeedTest {
                host: host@,
                port,
                fingerprint,
            },
            Command::CancelSpeedTest => CommandView::CancelSpeedTest,
            Command::SweepReachability { targets } => CommandView::SweepReachability {
                targets: views(targets@),
            },
            Command::QuitApp { name, host, port } => CommandView::QuitApp {
                name: name@,
                host: host@,
                port,
            },
            Command::ProbeGameStream { host, port } => CommandView::ProbeGameStream {
                host: host@,
                port,
            },
            Command::RestartDiscovery => CommandView::RestartDiscovery,
            Command::ApplyDropdown { row, choice } => CommandView::ApplyDropdown { row, choice },
            Command::AdjustSetting { row, forward } => CommandView::AdjustSetting { row, forward },
            Command::SetLogLevel(level) => CommandView::SetLogLevel(level),
            Command::AddressReset { address } => CommandView::AddressReset {
                address: opt_view(address),
            },
            Command::AddressBackspace => CommandView::AddressBackspace,
            Command::AddressAdvanceOctet => CommandView::AddressAdvanceOctet,
            Command::AddressDigit(d) => CommandView::AddressDigit(d),
            Command::AddressChar(c) => CommandView::AddressChar(c),
        }
    }
}

/// The view of an optional address.
pub open spec fn pair_view(o: Option<(String, u16)>) -> Option<(Seq<char>, u16)> {
    match o {
        Some((h, p)) => Some((h@, p)),
        None => None,
    }
}

/// What is on screen and where its focus is.
#[derive(Clone, Copy, Debug)]
pub struct Nav {
    pub screen: Screen,
    /// The screen that `prepare_tiles` saw last.
    pub last_screen: Screen,
    pub home_focus: HomeFocus,
    /// Whether the pointer is on a modal's close button.
    pub hover_close: bool,
    pub modal_fade: ModalFade,
    /// When the focus last moved in the grid.
    pub focus_anim: Option<u64>,
    /// When the focus last moved in a modal.
    pub modal_focus_anim: Option<u64>,
    /// When a switch was last flipped, and what it was before.
    pub switch_anim: Option<(u64, bool)>,
}

/// The hosts, saved and discovered.
#[derive(Debug)]
pub struct Hosts {
    pub known_hosts: Vec<KnownHost>,
    /// The host rows of the sidebar.
    pub entries: Vec<HostEntry>,
    /// Hosts kept off the sidebar because their machine offers the better protocol.
    pub shadowed_gamestream: Vec<DiscoveredHost>,
    pub selected_host: Option<(String, u16)>,
    pub reachable: Vec<Reach>,
    pub reach_pending: bool,
    pub reach_last: Option<u64>,
    pub quit_app_pending: bool,
    pub gs_probe_pending: bool,
}

/// A `Hosts` as values.
pub struct HostsView {
    pub known_hosts: Seq<KnownHostView>,
    pub entries: Seq<EntryView>,
    pub shadowed_gamestream: Seq<DiscoveredView>,
    pub selected_host: Option<(Seq<char>, u16)>,
    pub reachable: Seq<ReachView>,
    pub reach_pending: bool,
    pub reach_last: Option<u64>,
    pub quit_app_pending: bool,
    pub gs_probe_pending: bool,
}

impl View for Hosts {
    type V = HostsView;

    open spec fn view(&self) -> HostsView {
        HostsView {
            known_hosts: views(self.known_hosts@),
            entries: views(self.entries@),
            shadowed_gamestream: views(self.shadowed_gamestream@),
            selected_host: pair_view(self.selected_host),
            reachable: views(self.reachable@),
            reach_pending: self.reach_pending,
            reach_last: self.reach_last,
            quit_app_pending: self.quit_app_pending,
            gs_probe_pending: self.gs_probe_pending,
        }
    }
}

/// The selected host's library, and a launch out of it.
#[derive(Debug)]
pub struct Shelf {
    pub games: Vec<GameEntry>,
    /// How many games lead `games` because they are pinned.
    pub pinned_count: usize,
    /// Whether the selected host has answered.
    pub games_loaded: bool,
    /// Whether a library fetch is out.
    pub games_pending: bool,
    /// The ids of the titles in the order that the library came in, whatever is pinned since.
    pub card_ids: Vec<String>,
    /// The titles whose covers are decoded.
    pub art: Vec<String>,
    pub art_loader: Option<ArtLoader>,
    pub pending_launch: Option<PendingLaunch>,
    pub launch_ready: Option<ConnectTarget>,
    pub launch_anim: Option<u64>,
    pub launch_anim_idx: Option<usize>,
}

/// A `Shelf` as values.
pub struct ShelfView {
    pub games: Seq<GameView>,
    pub pinned_count: usize,
    pub games_loaded: bool,
    pub games_pending: bool,
    pub card_ids: Seq<Seq<char>>,
    pub art: Seq<Seq<char>>,
    pub art_loader: Option<ArtLoaderView>,
    pub pending_launch: Option<PendingView>,
    pub launch_ready: Option<TargetView>,
    pub launch_anim: Option<u64>,
    pub launch_anim_idx: Option<usize>,
}

impl View for Shelf {
    type V = ShelfView;

    open spec fn view(&self) -> ShelfView {
        ShelfView {
            games: views(self.games@),
            pinned_count: self.pinned_count,
            games_loaded: self.games_loaded,
            games_pending: self.games_pending,
            card_ids: views(self.card_ids@),
            art: views(self.art@),
            art_loader: opt_view(self.art_loader),
            pending_launch: opt_view(self.pending_launch),
            launch_ready: opt_view(self.launch_ready),
            launch_anim: self.launch_anim,
            launch_anim_idx: self.launch_anim_idx,
        }
    }
}

/// The settings and the screens that edit them.
#[derive(Clone, Copy, Debug)]
pub struct Prefs {
    pub settings: Settings,
    pub settings_focused: usize,
    pub scroll: ScrollWindow,
    /// The settings list's position while another screen scrolls.
    pub settings_scroll: ScrollWindow,
    pub content_window: ContentWindow,
    pub dropdown: Option<DropdownState>,
    pub dropdown_fade: DropdownFade,
    pub experimental_focused: usize,
    pub diagnostics_focused: usize,
}

/// The menu of one host and the screens behind it.
#[derive(Clone, Copy, Debug)]
pub struct Menu {
    /// The row that the host menu is about.
    pub host_menu_index: Option<usize>,
    /// 0 is "Forget", 1 is "Cancel".
    pub host_menu_focused: usize,
    pub menu_focused: usize,
    /// Whether the focus is on the focused row's own menu button.
    pub host_menu_dots: bool,
    pub wake_settings_focused: usize,
    pub edit_host_index: Option<usize>,
}

/// A bandwidth test.
#[derive(Debug)]
pub struct Speed {
    pub speed_test: Option<SpeedTestState>,
    pub speed_test_running: bool,
    pub speed_test_focused: usize,
    pub speed_test_name: String,
}

/// A `Speed` as values.
pub struct SpeedView {
    pub speed_test: Option<SpeedTestView>,
    pub speed_test_running: bool,
    pub speed_test_focused: usize,
    pub speed_test_name: Seq<char>,
}

impl View for Speed {
    type V = SpeedView;

    open spec fn view(&self) -> SpeedView {
        SpeedView {
            speed_test: opt_view(self.speed_test),
            speed_test_running: self.speed_test_running,
            speed_test_focused: self.speed_test_focused,
            speed_test_name: self.speed_test_name@,
        }
    }
}

/// A pairing.
#[derive(Debug)]
pub struct Pairing {
    pub pin_digits: [u8; 4],
    pub pin_digit_index: usize,
    pub pairing_focus: PairingFocus,
    pub pairing_status: Option<String>,
    pub pairing_busy: bool,
    /// The row that is being paired.
    pub pairing_entry: usize,
}

/// A `Pairing` as values.
pub struct PairingView {
    pub pin_digits: Seq<u8>,
    pub pin_digit_index: usize,
    pub pairing_focus: PairingFocus,
    pub pairing_status: Option<Seq<char>>,
    pub pairing_busy: bool,
    pub pairing_entry: usize,
}

impl View for Pairing {
    type V = PairingView;

    open spec fn view(&self) -> PairingView {
        PairingView {
            pin_digits: self.pin_digits@,
            pin_digit_index: self.pin_digit_index,
            pairing_focus: self.pairing_focus,
            pairing_status: opt_view(self.pairing_status),
            pairing_busy: self.pairing_busy,
            pairing_entry: self.pairing_entry,
        }
    }
}

/// What is stale on screen, and how far the grid is scrolled.
#[derive(Debug)]
pub struct Canvas {
    pub sidebar_dirty: bool,
    /// Every card is stale, and a loading spinner hides the grid meanwhile.
    pub grid_dirty: bool,
    /// Cards in view are still to be rasterized.
    pub tiles_pending: bool,
    pub grid_cards_dirty: Vec<usize>,
    /// Textures to release.
    pub evicted_tiles: Vec<Tile>,
    /// Whether the cards are shown rather than the spinner.
    pub grid_reveal_ready: bool,
    pub spinner_frame: Option<usize>,
    pub spinner_since: Option<u64>,
    /// The offset on screen, which follows the target.
    pub grid_scroll: i32,
    pub grid_scroll_target: i32,
    pub pin_move_anim: Option<(u64, Rect, Rect)>,
}

/// A `Canvas` as values.
pub struct CanvasView {
    pub sidebar_dirty: bool,
    pub grid_dirty: bool,
    pub tiles_pending: bool,
    pub grid_cards_dirty: Seq<usize>,
    pub evicted_tiles: Seq<Tile>,
    pub grid_reveal_ready: bool,
    pub spinner_frame: Option<usize>,
    pub spinner_since: Option<u64>,
    pub grid_scroll: i32,
    pub grid_scroll_target: i32,
    pub pin_move_anim: Option<(u64, Rect, Rect)>,
}

impl View for Canvas {
    type V = CanvasView;

    open spec fn view(&self) -> CanvasView {
        CanvasView {
            sidebar_dirty: self.sidebar_dirty,
            grid_dirty: self.grid_dirty,
            tiles_pending: self.tiles_pending,
            grid_cards_dirty: self.grid_cards_dirty@,
            evicted_tiles: self.evicted_tiles@,
            grid_reveal_ready: self.grid_reveal_ready,
            spinner_frame: self.spinner_frame,
            spinner_since: self.spinner_since,
            grid_scroll: self.grid_scroll,
            grid_scroll_target: self.grid_scroll_target,
            pin_move_anim: self.pin_move_anim,
        }
    }
}

/// The menu's state.
#[derive(Debug)]
pub struct App {
    pub nav: Nav,
    pub hosts: Hosts,
    pub shelf: Shelf,
    /// The status line of Home.
    pub home_status: Option<String>,
    pub prefs: Prefs,
    pub menu: Menu,
    pub speed: Speed,
    pub pairing: Pairing,
    /// The host that is being woken.
    pub wake: Option<WakeState>,
    pub canvas: Canvas,
    pub tiles: TileCache,
    /// Work for the caller, oldest first.
    pub outbox: Vec<Command>,
}

/// An `App` as values.
pub struct AppView {
    pub nav: Nav,
    pub hosts: HostsView,
    pub shelf: ShelfView,
    pub home_status: Option<Seq<char>>,
    pub prefs: Prefs,
    pub menu: Menu,
    pub speed: SpeedView,
    pub pairing: PairingView,
    pub wake: Option<WakeView>,
    pub canvas: CanvasView,
    pub tiles: TilesView,
    pub outbox: Seq<CommandView>,
}

impl View for App {
    type V = AppView;

    open spec fn view(&self) -> AppView {
        AppView {
            nav: self.nav,
            hosts: self.hosts@,
            shelf: self.shelf@,
            home_status: opt_view(self.home_status),
            prefs: self.prefs,
            menu: self.menu,
            speed: self.speed@,
            pairing: self.pairing@,
            wake: opt_view(self.wake),
            canvas: self.canvas@,
            tiles: self.tiles@,
            outbox: views(self.outbox@),
        }
    }
}

impl AppView {
    /// The same state with this screen up.
    pub open spec fn on(self, screen: Screen) -> AppView {
        AppView { nav: Nav { screen, ..self.nav }, ..self }
    }

    /// The same state with this focus on Home.
    pub open spec fn focused(self, home_focus: HomeFocus) -> AppView {
        AppView { nav: Nav { home_focus, ..self.nav }, ..self }
    }

    /// The same state after the focus of a modal has moved.
    pub open spec fn popped(self, now: u64) -> AppView {
        AppView { nav: Nav { modal_focus_anim: Some(now), ..self.nav }, ..self }
    }

    /// The same state with this status line.
    pub open spec fn saying(self, text: Seq<char>) -> AppView {
        AppView { home_status: Some(text), ..self }
    }

    /// The same state with no status line.
    pub open spec fn silent(self) -> AppView {
        AppView { home_status: None, ..self }
    }

    /// The same state after asking the caller for one more thing.
    pub open spec fn asking(self, command: CommandView) -> AppView {
        AppView { outbox: self.outbox.push(command), ..self }
    }

    /// The same state with the sidebar stale.
    pub open spec fn sidebar_stale(self) -> AppView {
        AppView { canvas: CanvasView { sidebar_dirty: true, ..self.canvas }, ..self }
    }

    /// The same state with this wake under way.
    pub open spec fn waking(self, wake: Option<WakeView>) -> AppView {
        AppView { wake, ..self }
    }
}

/// Each of these changes touches one thing and leaves the rest of the state as it was.
pub proof fn law_changes_touch_one_thing(
    s: AppView,
    screen: Screen,
    focus: HomeFocus,
    text: Seq<char>,
    command: CommandView,
    now: u64,
)
    ensures
        s.on(screen).nav.screen == screen,
        s.on(screen).on(s.nav.screen) == s,
        s.focused(focus).nav.home_focus == focus,
        s.focused(focus).focused(s.nav.home_focus) == s,
        s.popped(now).nav.modal_focus_anim == Some(now),
        s.saying(text).home_status == Some(text),
        s.saying(text).silent() == s.silent(),
        s.silent().home_status is None,
        s.asking(command).outbox.len() == s.outbox.len() + 1,
        s.asking(command).outbox.last() == command,
        s.asking(command).outbox.drop_last() == s.outbox,
        s.asking(command).nav == s.nav && s.asking(command).hosts == s.hosts,
        s.sidebar_stale().canvas.sidebar_dirty,
        s.waking(None).wake is None,
        s.waking(s.wake) == s,
{
    assert(s.outbox.push(command).drop_last() =~= s.outbox);
}

} // verus!
