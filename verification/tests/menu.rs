use pf_webos::app::diagnostics::{log_level_dropdown_current_index, step_choice};
use pf_webos::app::forget::forget_host_subtitle;
use pf_webos::app::gamestream::{quit_message, GsProbed, News, QuitAnswer};
use pf_webos::app::hostmenu::{action_label, list_nav, HostAction};
use pf_webos::app::order::{reorder_by_pins, sort_by_title};
use pf_webos::app::pointer::{ClickTargets, SettingsList};
use pf_webos::app::prepare::{Scene, ScrollGeometry};
use pf_webos::app::reach::Reachability;
use pf_webos::app::settings::{settings_content_h, settings_visible_rows, SettingsMetrics};
use pf_webos::app::speedtest::{
    recommended_kbps, speed_test_apply_label, BitrateRange, SpeedTestMsg,
};
use pf_webos::app::tick::Tempo;
use pf_webos::app::view::{
    pairing_card_height, pairing_layout, CardMetrics, DropdownAlpha, Ink, SwitchMotion, TypedMetrics,
    Widget,
};
use pf_webos::app::{
    App, Command, ContentWindow, HomeFocus, LogLevelOverride, ModalFade, PairingFocus,
    PairingOutcome, ProbeOutcome, Screen, ScrollWindow, Settings, SettingsRow,
};
use pf_webos::compositor::{DrawCmd, Shade, Tile};
use pf_webos::discovery::DiscoveredHost;
use pf_webos::geometry::{Rect, Viewport};
use pf_webos::library::{Artwork, GameEntry, GamesLoaded, LibraryError};
use pf_webos::model::event::MenuEvent;
use pf_webos::model::protocol::Protocol;
use pf_webos::store::{HostEntry, KnownHost, DESKTOP_PIN_ID};

const FP: [u8; 32] = [5; 32];

const NO_RECT: Rect = Rect { x: 0, y: 0, w: 0, h: 0 };

const RANGE: BitrateRange = BitrateRange { min_kbps: 5_000, max_kbps: 80_000 };

fn settings() -> Settings {
    Settings {
        bitrate_kbps: 20_000,
        hdr_enabled: false,
        video_pacing: false,
        gamestream_enabled: true,
        log_level_override: LogLevelOverride::Info,
    }
}

fn known(name: &str, host: &str, paired: bool) -> KnownHost {
    KnownHost {
        name: name.to_string(),
        host: host.to_string(),
        port: 9777,
        protocol: Protocol::Punktfunk,
        fingerprint: if paired { Some(FP) } else { None },
        mgmt_port: Some(9800),
        mac: vec!["aa:bb:cc:dd:ee:ff".to_string()],
        wol_auto: false,
        pinned: vec!["desktop".to_string()],
    }
}

fn found(name: &str, addr: &str, protocol: Protocol) -> DiscoveredHost {
    DiscoveredHost {
        name: name.to_string(),
        addr: addr.to_string(),
        port: 9777,
        protocol,
        mgmt_port: None,
        mac: Vec::new(),
    }
}

fn game(id: &str, title: &str) -> GameEntry {
    GameEntry {
        id: id.to_string(),
        title: title.to_string(),
        art: Artwork { portrait: Some(format!("/{id}")), hero: None, logo: None, header: None },
    }
}

fn ids(games: &[GameEntry]) -> Vec<&str> {
    games.iter().map(|g| g.id.as_str()).collect()
}

fn empty_app() -> App {
    App::new(Vec::new(), settings(), None)
}

fn two_hosts() -> App {
    let mut app =
        App::new(vec![known("Den", "10.0.0.2", true), known("Attic", "10.0.0.3", false)], settings(), None);
    app.outbox.clear();
    app
}

fn viewport() -> Viewport {
    Viewport {
        screen_w: 1920,
        screen_h: 1080,
        sidebar_w: 400,
        columns: 4,
        card_w: 260,
        card_h: 346,
        top_y: 80,
        pad: 40,
        gap: 24,
        section_gap: 40,
    }
}

fn geometry() -> ScrollGeometry {
    ScrollGeometry {
        total: 100,
        visible: 10,
        card: Rect { x: 300, y: 100, w: 800, h: 800 },
        content: Rect { x: 340, y: 200, w: 720, h: 600 },
        stride: 40,
    }
}

fn scene() -> Scene {
    Scene {
        card_pad: 16,
        ring_pad: 24,
        row_pad: 12,
        badge: 32,
        spinner_frame: 0,
        spinner_w: 64,
        spinner_h: 64,
        hint_w: 200,
        hint_h: 40,
        status_w: 300,
        status_h: 30,
        status_line_h: 30,
        sidebar_row: Rect { x: 10, y: 100, w: 380, h: 60 },
        settings_row: Rect { x: 10, y: 1000, w: 380, h: 60 },
        widget: Rect { x: 500, y: 500, w: 200, h: 60 },
        overlay: Rect { x: 500, y: 500, w: 200, h: 300 },
        option: Rect { x: 500, y: 560, w: 200, h: 60 },
        settings: geometry(),
        about: geometry(),
        bitrates: RANGE,
    }
}

fn metrics() -> SettingsMetrics {
    SettingsMetrics {
        screen_h: 1080,
        stride: 72,
        chrome_top: 110,
        chrome_bottom: 40,
        warn_chrome: 90,
        warn_kbps: 50_000,
        edge_margin: 60,
        peek: 24,
    }
}

fn loaded(app: &mut App, games: Vec<GameEntry>) {
    app.select_host("10.0.0.2".to_string(), 9777, Some(9800));
    let answer = GamesLoaded {
        host: "10.0.0.2".to_string(),
        port: 9777,
        mgmt_port: 9800,
        result: Ok(games),
    };
    assert!(app.drain_games(Some(answer), 0));
    app.outbox.clear();
}

#[test]
fn a_new_menu_lists_the_saved_hosts() {
    let app = two_hosts();
    assert_eq!(app.hosts.entries.len(), 2);
    assert_eq!(app.nav.screen, Screen::Home);
    assert_eq!(app.nav.home_focus, HomeFocus::Sidebar(0));
    assert_eq!(app.sidebar_len(), 4);
    assert!(empty_app().hosts.entries.is_empty());
}

#[test]
fn unpaired_selection_is_not_restored() {
    let hosts = vec![known("Den", "10.0.0.2", false)];
    let app = App::new(hosts, settings(), Some(("10.0.0.2".to_string(), 9777)));
    assert!(app.hosts.selected_host.is_none());
    let hosts = vec![known("Den", "10.0.0.2", true)];
    let app = App::new(hosts, settings(), Some(("10.0.0.2".to_string(), 9777)));
    assert_eq!(app.hosts.selected_host, Some(("10.0.0.2".to_string(), 9777)));
}

#[test]
fn typed_address_becomes_a_host() {
    let mut app = two_hosts();
    app.nav.screen = Screen::AddHost;
    app.handle_add_host_event(MenuEvent::Confirm, None);
    assert_eq!(app.nav.screen, Screen::AddHost);
    app.handle_add_host_event(MenuEvent::Confirm, Some(("10.0.0.9".to_string(), 9777)));
    assert_eq!(app.nav.screen, Screen::Home);
    assert_eq!(app.hosts.known_hosts.len(), 3);
    assert_eq!(app.hosts.known_hosts[2].name, "10.0.0.9");
    assert!(app.hosts.known_hosts[2].fingerprint.is_none());
    assert_eq!(app.nav.home_focus, HomeFocus::Sidebar(2));
    assert!(matches!(app.outbox[0], Command::SaveKnownHosts));
    app.enter_add_host_digit(7);
    app.enter_host_address_char('.');
    assert!(matches!(app.outbox[1], Command::AddressDigit(7)));
    assert!(matches!(app.outbox[2], Command::AddressChar('.')));
}

#[test]
fn another_address_keeps_the_pairing() {
    let mut app = two_hosts();
    app.open_edit_host(0);
    assert_eq!(app.nav.screen, Screen::EditHost);
    assert_eq!(app.address_subtitle(), "New IP address for Den. Its pairing is kept.");
    app.handle_edit_host_event(MenuEvent::Confirm, Some(("10.0.0.7".to_string(), 9777)));
    assert_eq!(app.nav.screen, Screen::Home);
    let moved = app.hosts.known_hosts.iter().find(|h| h.host == "10.0.0.7").unwrap();
    assert_eq!(moved.name, "Den");
    assert_eq!(moved.fingerprint, Some(FP));
    assert!(app.hosts.known_hosts.iter().all(|h| h.host != "10.0.0.2"));
}

#[test]
fn a_full_pin_pairs() {
    let mut app = two_hosts();
    app.open_pairing(1);
    assert_eq!(app.nav.screen, Screen::Pairing);
    app.pairing.pairing_focus = PairingFocus::Pin;
    for d in [1, 2, 3, 4] {
        app.enter_pin_digit(d);
    }
    assert!(app.pairing.pairing_busy);
    let target = match app.outbox.pop() {
        Some(Command::Pair { target, digits }) => {
            assert_eq!(digits, "1234");
            assert_eq!(target.host, "10.0.0.3");
            target
        }
        other => panic!("expected a pairing, got {other:?}"),
    };
    app.handle_pairing_event(MenuEvent::Up, 0);
    assert_eq!(app.pairing.pin_digits, [1, 2, 3, 4]);
    assert!(app.drain_pairing(Some(PairingOutcome { target, result: Ok([9; 32]) })));
    assert_eq!(app.nav.screen, Screen::Home);
    assert_eq!(app.hosts.known_hosts[1].fingerprint, Some([9; 32]));
    assert_eq!(app.hosts.selected_host, Some(("10.0.0.3".to_string(), 9777)));
    assert!(app.outbox.iter().any(|c| matches!(c, Command::SaveKnownHosts)));
}

#[test]
fn a_failed_pairing_changes_no_host() {
    let mut app = two_hosts();
    app.open_pairing(1);
    app.try_request_access();
    let target = match app.outbox.pop() {
        Some(Command::RequestAccess { target }) => target,
        other => panic!("expected a request, got {other:?}"),
    };
    assert!(app.drain_pairing(Some(PairingOutcome { target, result: Err("no".to_string()) })));
    assert_eq!(app.pairing.pairing_status, Some("no".to_string()));
    assert!(app.hosts.known_hosts[1].fingerprint.is_none());
    assert!(!app.drain_pairing(None));
}

#[test]
fn a_spun_digit_spins_back() {
    let mut app = two_hosts();
    app.open_pairing(1);
    app.pairing.pairing_focus = PairingFocus::Pin;
    app.handle_pairing_event(MenuEvent::Up, 0);
    assert_eq!(app.pairing.pin_digits[0], 1);
    app.handle_pairing_event(MenuEvent::Down, 0);
    assert_eq!(app.pairing.pin_digits[0], 0);
}

#[test]
fn forgetting_takes_a_second_look() {
    let mut app = two_hosts();
    app.open_forget_host(0);
    app.handle_forget_host_event(MenuEvent::Confirm, 0);
    assert_eq!(app.hosts.known_hosts.len(), 2);
    app.open_forget_host(0);
    app.handle_forget_host_event(MenuEvent::Left, 0);
    app.handle_forget_host_event(MenuEvent::Confirm, 0);
    assert_eq!(app.hosts.known_hosts.len(), 1);
    assert_eq!(app.hosts.known_hosts[0].name, "Attic");
    assert_eq!(app.hosts.entries.len(), 1);
    assert!(app.outbox.iter().any(|c| matches!(c, Command::ClearArtCache { .. })));
    assert_eq!(
        forget_host_subtitle("Den"),
        "Den will be removed from this TV. You can pair with it again later."
    );
}

#[test]
fn titles_are_sorted_and_pins_lead() {
    let sorted = sort_by_title(vec![game("1", "beta"), game("2", "Alpha"), game("3", "alpha")]);
    assert_eq!(ids(&sorted), vec!["2", "3", "1"]);
    let mut games = sorted;
    let pins = vec!["1".to_string(), "gone".to_string(), "3".to_string()];
    assert_eq!(reorder_by_pins(&mut games, &pins), 2);
    assert_eq!(ids(&games), vec!["1", "3", "2"]);
}

#[test]
fn library_fills_the_grid() {
    let mut app = two_hosts();
    loaded(&mut app, vec![game("b", "Beta"), game("a", "Alpha")]);
    assert_eq!(ids(&app.shelf.games), vec!["a", "b"]);
    assert!(app.shelf.games_loaded);
    // the desktop is pinned, so that it has the first row to itself
    assert_eq!(app.pin_id_at_grid_idx(0, 4), Some("desktop".to_string()));
    assert_eq!(app.grid_idx_for_pin_id("a", 4), Some(4));
    assert!(!app.is_grid_card(1, 4));
    assert_eq!(app.grid_len(4), 6);
}

#[test]
fn unreachable_host_is_offered_to_be_woken() {
    let mut app = two_hosts();
    app.select_host("10.0.0.2".to_string(), 9777, Some(9800));
    app.handle_library_error(
        "10.0.0.2".to_string(),
        9777,
        LibraryError::Unreachable("timeout".to_string()),
        0,
    );
    assert_eq!(app.nav.screen, Screen::Wake);
    app.handle_wake_event(MenuEvent::Confirm, 0);
    assert!(app.outbox.iter().any(|c| matches!(c, Command::SendWake { .. })));
    app.finish_wake_send(true, 0);
    assert!(app.wake.as_ref().unwrap().sent);
    app.dismiss_wake();
    assert_eq!(app.nav.screen, Screen::Home);
    assert!(app.home_status.as_ref().unwrap().starts_with("Wake signal sent to Den"));
    // the first probe goes out in time, and its answer ends the wait
    app.outbox.clear();
    app.tick_wake(10_000, None);
    assert!(app.outbox.iter().any(|c| matches!(c, Command::ProbeWake { .. })));
    assert!(app.tick_wake(10_500, Some(true)));
    assert!(app.wake.is_none());
}

#[test]
fn wake_signal_is_sent_again_each_minute() {
    let mut app = two_hosts();
    app.start_wake(
        "10.0.0.2".to_string(),
        9777,
        vec!["aa:bb:cc:dd:ee:ff".to_string()],
        "gone".to_string(),
        0,
    );
    app.handle_wake_event(MenuEvent::Confirm, 0);
    app.finish_wake_send(true, 0);
    app.outbox.clear();
    app.tick_wake(59_999, None);
    assert!(!app.outbox.iter().any(|c| matches!(c, Command::SendWake { .. })));
    app.outbox.clear();
    app.tick_wake(60_000, None);
    assert!(app.outbox.iter().any(|c| matches!(c, Command::SendWake { .. })));
}

#[test]
fn backing_out_of_waking_shows_why() {
    let mut app = two_hosts();
    app.start_wake("10.0.0.2".to_string(), 9777, vec!["m".to_string()], "gone".to_string(), 0);
    app.handle_wake_event(MenuEvent::Back, 0);
    assert_eq!(app.home_status, Some("gone".to_string()));
    assert!(app.wake.is_none());
}

#[test]
fn launch_needs_a_fresh_answer() {
    let mut app = two_hosts();
    loaded(&mut app, vec![game("a", "Alpha")]);
    let cell = app.grid_idx_for_pin_id("a", 4).unwrap();
    app.confirm_grid_card(cell, 4);
    assert!(app.outbox.iter().any(|c| matches!(c, Command::CheckLaunch { .. })));
    assert!(app.take_ready_launch().is_none());
    assert!(app.drain_launch_check(Some(Ok(Vec::new())), 5));
    let target = app.take_ready_launch().unwrap();
    assert_eq!(target.launch, Some("a".to_string()));
    assert_eq!(target.fingerprint, FP);
    assert!(app.take_ready_launch().is_none());
}

#[test]
fn remote_moves_between_the_list_and_the_grid() {
    let mut app = two_hosts();
    let vp = viewport();
    loaded(&mut app, vec![game("a", "Alpha"), game("b", "Beta")]);
    app.nav.home_focus = HomeFocus::Sidebar(0);
    app.handle_home_event(MenuEvent::Down, &vp, 0);
    assert_eq!(app.nav.home_focus, HomeFocus::Sidebar(1));
    app.nav.home_focus = HomeFocus::Sidebar(3);
    app.handle_home_event(MenuEvent::Right, &vp, 0);
    assert!(matches!(app.nav.home_focus, HomeFocus::Grid(_)));
    for ev in [MenuEvent::Down, MenuEvent::Right, MenuEvent::Right, MenuEvent::Up, MenuEvent::Left] {
        app.handle_home_event(ev, &vp, 0);
        match app.nav.home_focus {
            HomeFocus::Grid(i) => assert!(app.is_grid_card(i, 4)),
            _ => {}
        }
    }
}

#[test]
fn pins_are_switched_and_limited() {
    let mut app = two_hosts();
    let vp = viewport();
    loaded(&mut app, vec![game("a", "Alpha"), game("b", "Beta")]);
    app.nav.home_focus = HomeFocus::Grid(app.grid_idx_for_pin_id("b", 4).unwrap());
    assert_eq!(app.focused_pin_id(4), Some("b".to_string()));
    app.toggle_focused_pin(&vp, 5, false, 0);
    assert!(app.hosts.known_hosts[0].is_pinned("b"));
    assert_eq!(app.focused_pin_id(4), Some("b".to_string()));
    app.toggle_focused_pin(&vp, 5, false, 0);
    assert!(!app.hosts.known_hosts[0].is_pinned("b"));
    app.toggle_focused_pin(&vp, 1, false, 0);
    assert!(!app.hosts.known_hosts[0].is_pinned("b"));
    assert_eq!(app.nav.screen, Screen::PinLimit);
    app.handle_pin_limit_event(MenuEvent::Confirm);
    assert_eq!(app.nav.screen, Screen::Home);
}

#[test]
fn focused_card_is_scrolled_into_view() {
    let mut app = two_hosts();
    let vp = viewport();
    let games: Vec<GameEntry> =
        (0..40).map(|i| game(&format!("g{i}"), &format!("T{i:02}"))).collect();
    loaded(&mut app, games);
    let last = app.grid_idx_for_pin_id("g39", 4).unwrap();
    app.ensure_grid_visible(&vp, last, 0);
    let top = app.unscrolled_card_rect(&vp, last).y - app.canvas.grid_scroll_target;
    assert!(top >= 0 && top + 346 <= 1080);
    assert!(app.canvas.grid_scroll_target <= app.max_grid_scroll(&vp));
    assert!(app.scroll_grid_by(&vp, -100_000));
    assert_eq!(app.canvas.grid_scroll_target, 0);
}

#[test]
fn pinned_row_is_set_apart() {
    let mut app = two_hosts();
    let vp = viewport();
    loaded(&mut app, vec![game("a", "Alpha")]);
    assert!(app.has_pinned_divider(&vp));
    assert_eq!(app.extra_row_gap(&vp, 0), 0);
    assert_eq!(app.extra_row_gap(&vp, 4), 40);
    let r = app.unscrolled_card_rect(&vp, 4);
    assert_eq!((r.x, r.y, r.w, r.h), (440, 80 + 346 + 24 + 40, 260, 346));
    let line = app.pinned_separator_rect(&vp).unwrap();
    assert_eq!(line.h, 1);
}

#[test]
fn host_menu_offers_what_the_host_can_do() {
    let mut app = two_hosts();
    app.open_host_menu(1);
    let actions: Vec<HostAction> = app.host_menu_actions().iter().map(|r| r.action).collect();
    assert_eq!(
        actions,
        vec![
            HostAction::Connect,
            HostAction::Pair,
            HostAction::SpeedTest,
            HostAction::Wake,
            HostAction::Edit,
            HostAction::Forget,
        ]
    );
    assert_eq!(app.host_menu_title(), "Attic");
    assert_eq!(app.host_menu_subtitle(), "10.0.0.3:9777 · not paired");
    assert_eq!(action_label(HostAction::Forget), "Forget host");
    app.handle_host_menu_event(MenuEvent::Up, 0);
    assert_eq!(app.focused_menu_action(), Some(HostAction::Forget));
    app.handle_host_menu_event(MenuEvent::Confirm, 0);
    assert_eq!(app.nav.screen, Screen::ForgetHost);
}

#[test]
fn lists_wrap() {
    let mut focused = 0;
    assert!(list_nav(&mut focused, 3, MenuEvent::Up));
    assert_eq!(focused, 2);
    assert!(list_nav(&mut focused, 3, MenuEvent::Down));
    assert_eq!(focused, 0);
    assert!(!list_nav(&mut focused, 3, MenuEvent::Confirm));
    assert!(!list_nav(&mut focused, 0, MenuEvent::Down));
}

#[test]
fn wake_switch_is_kept_with_the_host() {
    let mut app = two_hosts();
    app.open_host_menu(0);
    app.open_wake_settings();
    assert_eq!(app.wake_settings_title(), "Wake · Den");
    assert!(!app.wake_settings_on());
    app.handle_wake_settings_event(MenuEvent::Confirm, 9);
    assert!(app.wake_settings_on());
    assert!(app.hosts.known_hosts[0].wol_auto);
    assert!(matches!(app.toggle_frac(true), SwitchMotion::Turning { at: 9, to: true }));
    app.toggle_wol_auto(20);
    assert!(!app.hosts.known_hosts[0].wol_auto);
}

#[test]
fn speed_test_recommends_a_bitrate() {
    let outcome = |kbps: u32| ProbeOutcome {
        throughput_kbps: kbps,
        loss_pct: 40,
        recv_bytes: 3 * 1024 * 1024,
        elapsed_ms: 900,
    };
    assert_eq!(recommended_kbps(&outcome(100_000), &RANGE), Some(70_000));
    assert_eq!(recommended_kbps(&outcome(1_000_000), &RANGE), Some(80_000));
    assert_eq!(recommended_kbps(&outcome(3_000), &RANGE), Some(5_000));
    assert_eq!(recommended_kbps(&outcome(1_999), &RANGE), None);
    assert_eq!(speed_test_apply_label(Some(70_000)), "Use 70 Mbps");
    assert_eq!(speed_test_apply_label(None), "Retry");
    let mut app = two_hosts();
    app.open_host_menu(0);
    app.open_speed_test(0);
    assert_eq!(app.speed_test_status(&RANGE), "Connecting to Den…");
    assert!(app.drain_speed_test(vec![SpeedTestMsg::Progress(outcome(0))]));
    assert_eq!(
        app.speed_test_status(&RANGE),
        "Measuring — 3 MB in over the real data plane…"
    );
    app.drain_speed_test(vec![SpeedTestMsg::Done { outcome: outcome(100_000), confirmed: true }]);
    assert!(app.speed_test_ended());
    assert_eq!(app.speed_test_advice(&RANGE), Some(70_000));
    assert!(app.speed_test_status(&RANGE).starts_with("100 Mbps delivered · 3 MB in 900 ms\n(40% of"));
    app.handle_speed_test_event(MenuEvent::Confirm, 0, &RANGE);
    assert_eq!(app.prefs.settings.bitrate_kbps, 70_000);
}

#[test]
fn failed_speed_test_says_so() {
    let mut app = two_hosts();
    app.open_host_menu(0);
    app.open_speed_test(0);
    app.drain_speed_test(vec![SpeedTestMsg::Failed("no route".to_string())]);
    assert_eq!(app.speed_test_status(&RANGE), "Couldn't measure: no route");
}

#[test]
fn announced_host_is_listed_once() {
    let mut app = empty_app();
    assert!(app.drain_discovery(&vec![found("Den", "10.0.0.2", Protocol::Punktfunk)]));
    assert_eq!(app.hosts.entries.len(), 1);
    assert!(!app.drain_discovery(&vec![found("Den", "10.0.0.2", Protocol::Punktfunk)]));
    assert_eq!(app.hosts.entries.len(), 1);
    assert!(matches!(&app.hosts.entries[0], HostEntry::Discovered(h) if h.name == "Den"));
}

#[test]
fn the_better_protocol_shadows_the_other() {
    let mut app = two_hosts();
    let mut twin = found("Den", "10.0.0.2", Protocol::GameStream);
    twin.port = 47989;
    app.drain_discovery(&vec![twin]);
    app.refresh_gamestream_shadowing();
    let before = app.hosts.entries.len();
    assert!(app.hosts.entries.iter().all(|e| e.protocol() == Protocol::Punktfunk
        || app.hosts.shadowed_gamestream.is_empty()));
    app.drain_reachability(
        &vec![Reachability {
            host: "10.0.0.2".to_string(),
            port: 9777,
            online: false,
            mac: Vec::new(),
        }],
        true,
    );
    app.refresh_gamestream_shadowing();
    assert!(app.hosts.entries.len() >= before);
    assert!(app.hosts.entries.iter().any(|e| e.name() == "Den"));
}

#[test]
fn hosts_are_swept_for_reachability() {
    let mut app = two_hosts();
    app.tick_reachability(1_000);
    assert!(matches!(&app.outbox[0], Command::SweepReachability { targets } if targets.len() == 2));
    app.tick_reachability(2_000);
    assert_eq!(app.outbox.len(), 1);
    app.drain_reachability(
        &vec![Reachability {
            host: "10.0.0.3".to_string(),
            port: 9777,
            online: true,
            mac: vec!["11:22:33:44:55:66".to_string()],
        }],
        true,
    );
    assert_eq!(app.entry_online(&app.hosts.entries[1]), Some(true));
    assert_eq!(app.reachability_list(), vec![None, Some(true)]);
    app.outbox.clear();
    app.tick_reachability(181_000);
    assert_eq!(app.outbox.len(), 1);
}

#[test]
fn reported_wake_address_is_learned() {
    let mut app = two_hosts();
    app.hosts.known_hosts[1].mac = Vec::new();
    assert!(app.learn_wake_mac("10.0.0.3", 9777, &vec!["11:22:33:44:55:66".to_string()]));
    assert_eq!(app.hosts.known_hosts[1].mac, vec!["11:22:33:44:55:66".to_string()]);
    assert!(!app.learn_wake_mac("10.0.0.99", 9777, &vec!["x".to_string()]));
}

#[test]
fn quitting_is_reported() {
    assert_eq!(quit_message("Den", QuitAnswer::Closed), "Den closed its running app.");
    assert_eq!(
        quit_message("Den", QuitAnswer::Refused),
        "Den had nothing running, or the session is another device's."
    );
    assert_eq!(quit_message("Den", QuitAnswer::Unreachable), "Couldn't reach Den.");
    let mut app = two_hosts();
    app.hosts.quit_app_pending = true;
    assert!(app.drain_quit_app(News::Came(("Den".to_string(), QuitAnswer::Closed))));
    assert_eq!(app.home_status, Some("Den closed its running app.".to_string()));
    assert!(!app.hosts.quit_app_pending);
}

#[test]
fn typed_gamestream_host_is_recognized() {
    let mut app = two_hosts();
    app.probe_gamestream_fallback("10.0.0.3".to_string(), 9777);
    assert!(app.outbox.iter().any(|c| matches!(c, Command::ProbeGameStream { .. })));
    app.drain_gamestream_probe(News::Came(GsProbed {
        host: "10.0.0.3".to_string(),
        port: 9777,
        name: "Tower".to_string(),
    }));
    let h = app.hosts.known_hosts.iter().find(|h| h.host == "10.0.0.3").unwrap();
    assert_eq!(h.protocol, Protocol::GameStream);
}

#[test]
fn settings_scroll_and_save() {
    let mut app = two_hosts();
    let rows: Vec<SettingsRow> = (0..20).map(SettingsRow::Other).collect();
    let m = metrics();
    app.open_settings();
    assert_eq!(app.nav.screen, Screen::Settings);
    let visible = settings_visible_rows(&app.prefs.settings, 20, &m);
    assert!(visible < 20);
    assert!(settings_content_h(&app.prefs.settings, 20, &m) + 110 + 40 <= 1080);
    for _ in 0..25 {
        app.handle_settings_event(MenuEvent::Down, &rows, 0, 0, &m, 0);
        let at = app.prefs.settings_focused;
        assert!(at < 20);
        let top = app.prefs.scroll.offset;
        assert!(top <= at && at < top + visible);
    }
    app.handle_settings_event(MenuEvent::Right, &rows, 0, 0, &m, 0);
    assert!(matches!(app.outbox.last(), Some(Command::AdjustSetting { forward: true, .. })));
    app.handle_settings_event(MenuEvent::Back, &rows, 0, 0, &m, 0);
    assert_eq!(app.nav.screen, Screen::Home);
    assert!(app.outbox.iter().any(|c| matches!(c, Command::SaveSettings)));
}

#[test]
fn focus_follows_its_setting() {
    let mut app = two_hosts();
    let rows = vec![SettingsRow::Hdr, SettingsRow::Codec, SettingsRow::About];
    app.prefs.settings_focused = 0;
    app.refocus_logical(SettingsRow::Codec, &rows);
    assert_eq!(app.prefs.settings_focused, 1);
}

#[test]
fn log_level_is_chosen_from_a_list() {
    let mut app = two_hosts();
    app.open_diagnostics();
    app.handle_diagnostics_event(MenuEvent::Confirm, 5);
    assert_eq!(app.prefs.dropdown.map(|d| d.focused), Some(1));
    let draw = app.dropdown_draw_state(200, 6).unwrap();
    assert!(matches!(draw.alpha, DropdownAlpha::Opening { since: Some(5) }));
    app.handle_diagnostics_event(MenuEvent::Up, 6);
    app.handle_diagnostics_event(MenuEvent::Confirm, 7);
    assert_eq!(app.prefs.settings.log_level_override, LogLevelOverride::Debug);
    assert!(app.prefs.dropdown.is_none());
    assert!(app.dropdown_draw_state(200, 206).is_some());
    assert!(app.dropdown_draw_state(200, 207).is_none());
    assert_eq!(log_level_dropdown_current_index(LogLevelOverride::Error), 3);
    assert!(step_choice(3, 4, MenuEvent::Down) < 4);
}

#[test]
fn frame_pacer_is_flipped_and_flipped_back() {
    let mut app = two_hosts();
    app.open_experimental();
    app.handle_experimental_event(MenuEvent::Confirm, 1, 3);
    assert!(app.prefs.settings.video_pacing);
    app.handle_experimental_event(MenuEvent::Confirm, 1, 4);
    assert!(!app.prefs.settings.video_pacing);
}

#[test]
fn about_scrolls_and_leaves_the_settings_where_they_were() {
    let mut app = two_hosts();
    app.open_settings();
    app.prefs.scroll = ScrollWindow { offset: 4, shown_at: None };
    app.open_about();
    assert_eq!(app.prefs.scroll.offset, 0);
    let g = geometry();
    app.handle_about_event(MenuEvent::Right, &g, 0);
    let page = app.prefs.scroll.offset;
    assert!(page > 0);
    app.handle_about_event(MenuEvent::Left, &g, 0);
    assert_eq!(app.prefs.scroll.offset, 0);
    assert!(app.scroll_about_by(400, &g, 0));
    app.return_to_settings();
    assert_eq!(app.nav.screen, Screen::Settings);
    assert_eq!(app.prefs.scroll.offset, 4);
}

#[test]
fn windows_stay_within_their_list() {
    let mut w = ScrollWindow::new();
    assert!(w.scroll_by(1000, 50, 10, 3));
    assert_eq!(w.offset, 40);
    assert!(!w.scroll_by(1, 50, 10, 4));
    w.scroll_into_view(2, 50, 10, 5);
    assert_eq!(w.offset, 2);
    assert!(w.shows_indicator(5));
    assert!(!w.shows_indicator(5 + 1050));
    w.page(8, true, 50, 10, 6);
    assert_eq!(w.offset, 10);
    let c = ContentWindow { start: 0, len: 80 };
    assert!(c.recenter_if_needed(10, 10, 400, 80, 16).is_none());
    let start = c.recenter_if_needed(100, 10, 400, 80, 16).unwrap();
    assert!(start <= 100 && 110 <= start + 80);
}

#[test]
fn modal_fades_out_on_the_way_home() {
    let mut f = ModalFade::new();
    f.switch(Screen::Home, Screen::Settings, 10);
    assert_eq!(f.opened_at, Some(10));
    f.switch(Screen::Settings, Screen::Home, 20);
    assert_eq!(f.closing_frame(219), Some(Screen::Settings));
    assert_eq!(f.closing_frame(220), None);
}

#[test]
fn pointer_lights_the_cross_and_leaves_the_focus() {
    let mut app = two_hosts();
    let cross = Rect { x: 900, y: 100, w: 40, h: 40 };
    assert!(!app.handle_mouse_motion(910, 110, &cross));
    app.open_settings();
    let focus = app.prefs.settings_focused;
    assert!(app.handle_mouse_motion(910, 110, &cross));
    assert!(app.nav.hover_close);
    assert!(!app.handle_mouse_motion(911, 111, &cross));
    assert_eq!(app.prefs.settings_focused, focus);
}

#[test]
fn click_opens_a_row() {
    let mut app = two_hosts();
    let rows: Vec<Rect> =
        (0..4).map(|i| Rect { x: 10, y: 100 + 70 * i, w: 380, h: 60 }).collect();
    let t = ClickTargets {
        close: NO_RECT,
        menu_buttons: vec![],
        sidebar_rows: rows.clone(),
        cell: None,
        list_rows: vec![],
        list_dots: vec![],
        request_button: NO_RECT,
    };
    let list = SettingsList { rows: vec![], choices: 0, current: 0, metrics: metrics() };
    app.handle_mouse_click(20, 100 + 70 * 3 + 5, &t, &viewport(), &list, &RANGE, 0);
    assert_eq!(app.nav.screen, Screen::Settings);
    app.back(&RANGE, 0);
    assert_eq!(app.nav.screen, Screen::Home);
    assert_eq!(app.focus_host_row_at(20, 105, &rows), Some(0));
    assert_eq!(app.host_row_focused(), Some(0));
}

#[test]
fn back_on_home_stays_there() {
    let mut app = two_hosts();
    app.back(&RANGE, 0);
    assert_eq!(app.nav.screen, Screen::Home);
}

#[test]
fn tiles_are_rasterized_once() {
    let mut app = two_hosts();
    let vp = viewport();
    let s = scene();
    loaded(&mut app, vec![game("a", "Alpha")]);
    let first = app.prepare_tiles(&vp, &s, false, 0);
    assert!(first.contains(&Tile::Sidebar));
    for i in 1..20 {
        app.prepare_tiles(&vp, &s, false, i * 16);
    }
    let settled = app.prepare_tiles(&vp, &s, false, 5_000);
    assert!(!settled.contains(&Tile::Sidebar));
    assert!(!settled.iter().any(|t| matches!(t, Tile::Card(_))));
    assert!(app.tile_pixmap(Tile::Sidebar));
    assert!(app.tile_pixmap(Tile::Card(0)));
    assert!(app.tile_pixmap(Tile::Card(1)));
    assert!(!app.tile_pixmap(Tile::Card(2)));
    assert_eq!(app.cell_of_card(1), app.grid_idx_for_pin_id("a", 4));
}

#[test]
fn pinning_rasterizes_no_card_again() {
    let mut app = two_hosts();
    let vp = viewport();
    let s = scene();
    loaded(
        &mut app,
        vec![game("a", "Alpha"), game("b", "Beta"), game("c", "Gamma"), game("d", "Delta")],
    );
    for i in 0..20 {
        app.prepare_tiles(&vp, &s, false, i * 1_000);
    }
    assert_eq!(app.shelf.card_ids, ["a", "b", "d", "c"]);
    let gamma = app.grid_idx_for_pin_id("c", 4).unwrap();
    assert_eq!(app.cell_of_card(4), Some(gamma));
    app.canvas.evicted_tiles.clear();
    app.nav.home_focus = HomeFocus::Grid(gamma);
    app.toggle_focused_pin(&vp, 12, false, 20_000);
    let moved = app.grid_idx_for_pin_id("c", 4).unwrap();
    assert_ne!(moved, gamma);
    assert_eq!(app.cell_of_card(4), Some(moved));
    assert!(app.canvas.evicted_tiles.is_empty());
    let again = app.prepare_tiles(&vp, &s, false, 21_000);
    assert!(!again.iter().any(|t| matches!(t, Tile::Card(_))));
    app.toggle_focused_pin(&vp, 12, false, 22_000);
    assert_eq!(app.cell_of_card(4), app.grid_idx_for_pin_id("c", 4));
    assert!(app.prepare_tiles(&vp, &s, false, 23_000).is_empty());
}

#[test]
fn settled_frame_rasterizes_nothing() {
    let mut app = two_hosts();
    let vp = viewport();
    let s = scene();
    loaded(&mut app, (0..60).map(|i| game(&format!("g{i}"), &format!("{i:03}"))).collect());
    for i in 0..60 {
        app.prepare_tiles(&vp, &s, true, i * 1_000);
    }
    assert!(!app.canvas.tiles_pending);
    assert!(app.canvas.grid_reveal_ready);
    assert!(app.prepare_tiles(&vp, &s, false, 61_000).is_empty());
    app.open_settings();
    assert!(!app.prepare_tiles(&vp, &s, false, 62_000).is_empty());
    assert!(app.prepare_tiles(&vp, &s, false, 62_016).is_empty());
    app.open_about();
    app.prefs.scroll = ScrollWindow { offset: 50, shown_at: None };
    assert!(app.prepare_tiles(&vp, &s, false, 63_000).contains(&Tile::ScrollContent(Screen::About)));
    assert!(app.prepare_tiles(&vp, &s, false, 63_016).is_empty());
}

#[test]
fn grid_is_revealed_beside_padding() {
    let mut app = two_hosts();
    let vp = viewport();
    let s = scene();
    loaded(&mut app, vec![game("a", "Alpha"), game("b", "Beta")]);
    app.shelf.art = vec!["a".to_string(), "b".to_string()];
    app.nav.home_focus = HomeFocus::Grid(app.grid_idx_for_pin_id("b", 4).unwrap());
    app.toggle_focused_pin(&vp, 12, false, 0);
    assert!(app.grid_len(4) > 3);
    for i in 0..8 {
        app.prepare_tiles(&vp, &s, false, i * 16);
    }
    assert!(app.canvas.grid_reveal_ready);
}

#[test]
fn desktop_has_no_cell_before_it_is_shown() {
    let mut app = two_hosts();
    app.hosts.known_hosts[0].pinned = Vec::new();
    app.select_host("10.0.0.2".to_string(), 9777, Some(9800));
    assert_eq!(app.grid_idx_for_pin_id(DESKTOP_PIN_ID, 4), None);
    assert!(app.grid_len(4) == 0);
    loaded(&mut app, vec![game("a", "Alpha")]);
    assert_eq!(app.grid_idx_for_pin_id(DESKTOP_PIN_ID, 4), Some(0));
    assert_eq!(app.grid_idx_for_pin_id("a", 4), Some(1));
}

#[test]
fn announcements_come_in_batches() {
    let mut app = two_hosts();
    let mut woken = found("Den", "10.0.0.2", Protocol::Punktfunk);
    woken.mac = vec!["aa".to_string()];
    let batch = vec![
        found("Loft", "10.0.0.8", Protocol::Punktfunk),
        woken,
        found("Loft again", "10.0.0.8", Protocol::Punktfunk),
        found("Hall", "10.0.0.9", Protocol::Punktfunk),
    ];
    assert!(app.drain_discovery(&batch));
    let names: Vec<String> = app.hosts.entries.iter().map(|e| e.name()).collect();
    assert_eq!(names, ["Den", "Attic", "Loft", "Hall"]);
    assert_eq!(app.hosts.known_hosts[0].mac, ["aa"]);
    assert!(!app.drain_discovery(&batch));
}

#[test]
fn shadowing_settles_at_once() {
    let mut app = two_hosts();
    let mut twin = found("Den", "10.0.0.2", Protocol::GameStream);
    twin.port = 47989;
    app.drain_discovery(&vec![twin]);
    assert!(app.refresh_gamestream_shadowing());
    let rows = app.hosts.entries.len();
    assert!(!app.refresh_gamestream_shadowing());
    assert_eq!(app.hosts.entries.len(), rows);
}

#[test]
fn diagnostics_leave_the_settings_where_they_were() {
    let mut app = two_hosts();
    app.open_settings();
    app.prefs.scroll = ScrollWindow { offset: 3, shown_at: None };
    app.open_diagnostics();
    app.handle_diagnostics_event(MenuEvent::Back, 0);
    assert_eq!(app.nav.screen, Screen::Settings);
    assert_eq!(app.prefs.scroll.offset, 3);
}

#[test]
fn handlers_leave_every_place_in_range() {
    let mut app = two_hosts();
    let vp = viewport();
    loaded(&mut app, (0..20).map(|i| game(&format!("g{i}"), &format!("{i:03}"))).collect());
    let steps = [MenuEvent::Down, MenuEvent::Right, MenuEvent::Up, MenuEvent::Left];
    for i in 0..200_usize {
        let _ = app.handle_home_event(steps[(i / 3) % 4], &vp, 0);
        if let HomeFocus::Grid(cell) = app.nav.home_focus {
            assert!(cell < app.grid_len(4));
        }
        assert!(app.canvas.grid_scroll_target <= app.max_grid_scroll(&vp));
    }
}

#[test]
fn focused_card_is_drawn_over_the_others() {
    let mut app = two_hosts();
    let vp = viewport();
    let s = scene();
    loaded(&mut app, vec![game("a", "Alpha"), game("b", "Beta"), game("c", "Gamma")]);
    for i in 0..20 {
        app.prepare_tiles(&vp, &s, false, i * 1_000);
    }
    let focus = app.grid_idx_for_pin_id("a", 4).unwrap();
    app.nav.home_focus = HomeFocus::Grid(focus);
    let cmds = app.draw_list(&vp, &s, 30_000);
    let cards: Vec<usize> = cmds
        .iter()
        .filter_map(|c| match c {
            DrawCmd::Tex { tile: Tile::Card(i), .. } => Some(*i),
            _ => None,
        })
        .collect();
    assert_eq!(cards.last(), Some(&1));
    let mut sorted = cards.clone();
    sorted.sort();
    assert_eq!(sorted, vec![0, 1, 2, 3]);
}

#[test]
fn modal_is_drawn_over_a_scrim() {
    let mut app = two_hosts();
    let vp = viewport();
    let s = scene();
    app.open_settings();
    app.prepare_tiles(&vp, &s, false, 0);
    let cmds = app.draw_list(&vp, &s, 10);
    assert_eq!(app.screen_drawn(10), Screen::Settings);
    let scrim = cmds
        .iter()
        .position(|c| matches!(c, DrawCmd::Fill { shade: Shade::Scrim, .. }))
        .unwrap();
    let modal = cmds
        .iter()
        .position(|c| matches!(c, DrawCmd::Tex { tile: Tile::Modal, .. }))
        .unwrap();
    assert!(scrim < modal);
}

#[test]
fn animations_come_to_rest() {
    let mut app = two_hosts();
    let tempo = Tempo { focus_pop: 150, launch_fade: 300 };
    app.canvas.grid_scroll_target = 100;
    let mut eased = 35;
    let mut steps = 0;
    while app.tick_animations(eased, &tempo, 10_000 + steps) && steps < 100 {
        let d = app.canvas.grid_scroll_target - app.canvas.grid_scroll;
        eased = (f64::from(d) * 0.35) as i32;
        steps += 1;
    }
    assert_eq!(app.canvas.grid_scroll, 100);
    assert!(!app.tick_animations(0, &tempo, 20_000));
}

#[test]
fn decoded_covers_dirty_their_cards() {
    let mut app = two_hosts();
    loaded(&mut app, vec![game("a", "Alpha")]);
    let cell = app.grid_idx_for_pin_id("a", 4).expect("the game has a card");
    assert_eq!(app.grid_card_content(cell, 4), ("Alpha".to_string(), None));
    assert!(app.drain_art(&vec!["a".to_string()], 4));
    assert_eq!(app.grid_card_content(cell, 4), ("Alpha".to_string(), Some("a".to_string())));
    let desktop = (0..app.grid_len(4)).find(|i| app.is_grid_card(*i, 4) && *i != cell);
    let desktop = desktop.expect("the desktop has a card");
    assert_eq!(app.grid_card_content(desktop, 4), ("Desktop".to_string(), None));
    assert_eq!(app.shelf.art, vec!["a".to_string()]);
    assert!(!app.drain_art(&vec![], 4));
}

#[test]
fn pairing_card_is_laid_out_from_top_to_bottom() {
    let mut app = two_hosts();
    app.open_pairing(1);
    let m = CardMetrics {
        card: Rect { x: 100, y: 50, w: 768, h: 600 },
        header_end: 200,
        value_h: 30,
        digit_h: 90,
    };
    let l = pairing_layout(&m);
    assert_eq!((l.button.x, l.button.y, l.button.w, l.button.h), (140, 226, 688, 64));
    assert_eq!(
        (l.button_caption_y, l.or_y, l.pin_caption_y, l.pin_y, l.status_y),
        (302, 352, 402, 446, 558)
    );
    assert_eq!(pairing_card_height(&m), 558 + 2 * 36 + 26);
    let widgets = app.render_pairing(&m, "Request access");
    assert_eq!(widgets.len(), 10);
    assert!(matches!(widgets[2], Widget::Primary { .. }));
    app.pairing.pairing_status = Some("no".to_string());
    let widgets = app.render_pairing(&m, "Request access");
    assert!(matches!(&widgets[10], Widget::Wrapped { text, ink: Ink::Error, .. } if text == "no"));
}

#[test]
fn typed_address_is_followed_by_its_caret() {
    let mut app = two_hosts();
    app.nav.screen = Screen::AddHost;
    let m = CardMetrics {
        card: Rect { x: 100, y: 50, w: 768, h: 300 },
        header_end: 200,
        value_h: 30,
        digit_h: 90,
    };
    let t = TypedMetrics {
        drawn: Rect { x: 130, y: 218, w: 708, h: 84 },
        text_w: 140,
        title_h: 41,
    };
    let widgets = app.render_host_address_form(&m, &t, "10.0.0.");
    assert_eq!(widgets.len(), 5);
    assert!(matches!(&widgets[1], Widget::Header { title, .. } if title == "Add host"));
    assert!(matches!(
        &widgets[3],
        Widget::Typed { left: 154, top: 239, text } if text == "10.0.0."
    ));
    match &widgets[4] {
        Widget::Caret { rect } => {
            assert_eq!((rect.x, rect.y, rect.w, rect.h), (300, 234, 3, 52));
        }
        other => panic!("expected a caret, got {other:?}"),
    }
    let flat = TypedMetrics { drawn: Rect { x: 0, y: 0, w: 9, h: 20 }, text_w: 0, title_h: 41 };
    match app.render_host_address_form(&m, &flat, "").pop() {
        Some(Widget::Caret { rect }) => assert_eq!((rect.x, rect.h), (30, 0)),
        other => panic!("expected a caret, got {other:?}"),
    }
}

#[test]
fn prompts_show_what_can_be_done() {
    let mut app = two_hosts();
    let card = Rect { x: 0, y: 0, w: 768, h: 300 };
    app.start_wake("10.0.0.2".to_string(), 9777, vec![], "gone".to_string(), 0);
    assert_eq!(app.render_wake(&card, &card).len(), 2);
    let mut app = two_hosts();
    app.start_wake("10.0.0.2".to_string(), 9777, vec!["m".to_string()], "gone".to_string(), 0);
    match app.render_wake(&card, &card).pop() {
        Some(Widget::Confirm { first, second, .. }) => {
            assert_eq!((first.label.as_str(), second.label.as_str()), ("Wake host", "Cancel"))
        }
        other => panic!("expected buttons, got {other:?}"),
    }
    assert!(app.render_forget_host(&card, &card).is_empty());
    app.open_forget_host(0);
    assert_eq!(app.render_forget_host(&card, &card).len(), 3);
    match app.render_send_logs(&card, &card).pop() {
        Some(Widget::Confirm { first, second, .. }) => {
            assert_eq!((first.label.as_str(), second.label.as_str()), ("Send", "Cancel"));
            assert_eq!(first.ink, Ink::Error);
        }
        other => panic!("expected buttons, got {other:?}"),
    }
    app.prefs.settings.bitrate_kbps = 60_000;
    assert_eq!(app.render_settings(&card, &card, 50_000).len(), 4);
    assert_eq!(app.render_settings(&card, &card, 60_000).len(), 3);
}

#[test]
fn cards_far_out_of_view_are_released() {
    let mut app = two_hosts();
    let vp = viewport();
    let s = scene();
    loaded(&mut app, (0..200).map(|i| game(&format!("g{i}"), &format!("{i:03}"))).collect());
    for i in 0..40 {
        app.prepare_tiles(&vp, &s, false, i * 100);
    }
    assert!(app.tiles.card_tiles[0].is_some());
    assert!(app.tiles.card_tiles[4].is_some());
    let end = app.max_grid_scroll(&vp);
    app.canvas.grid_scroll = end;
    app.canvas.grid_scroll_target = end;
    for i in 0..40 {
        app.prepare_tiles(&vp, &s, false, 4_000 + i * 100);
    }
    assert!(app.tiles.card_tiles[0].is_none());
    assert!(app.tiles.card_tiles[4].is_none());
    assert!(app.tiles.card_tiles.last().unwrap().is_some());
    assert!(app.canvas.grid_reveal_ready);
}

#[test]
fn cards_with_their_covers_come_first() {
    let mut app = two_hosts();
    let vp = viewport();
    let s = scene();
    loaded(&mut app, vec![game("a", "Alpha"), game("b", "Beta"), game("c", "Gamma")]);
    let covered = 3;
    let bare = 1;
    assert!(app.drain_art(&vec!["c".to_string()], 4));
    let mut order = Vec::new();
    for i in 0..20 {
        for t in app.prepare_tiles(&vp, &s, false, i * 100) {
            if let Tile::Card(slot) = t {
                order.push(slot);
            }
        }
    }
    let place = |slot: usize| order.iter().position(|s| *s == slot).unwrap();
    assert!(place(covered) < place(bare));
}
