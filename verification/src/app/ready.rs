//! What every handler keeps: the grid has screen coordinates, the focus is on something that can
//! be, and the frame can be drawn.
use vstd::prelude::*;

use crate::app::address::typed_record;
use crate::app::diagnostics::LOG_LEVEL_COUNT;
use crate::app::gamestream::{lemma_refreshed_parked, lemma_rows_bounded, lemma_sweep_keeps_focus, parked_wf};
use crate::app::grid::{law_cell_holds_pin_id, lemma_cells};
use crate::app::home::{lemma_layout_wf, LIMIT};
use crate::app::launch::pins_of;
use crate::app::navigate::lemma_grid_len_bound;
use crate::app::order::{by_title, law_by_title_sorts, law_pinning_keeps_games};
use crate::app::pairing::paired_record;
use crate::app::pins::lemma_switched_fits;
use crate::app::pointer::{ClickTargets, SettingsList};
use crate::app::prepare::{
    law_prepared_document_in_view, lemma_prepared_frame, Scene, ScrollGeometry,
};
use crate::app::reach::ReachabilityView;
use crate::app::settings::SettingsMetrics;
use crate::app::speedtest::BitrateRange;
use crate::app::tick::{eased_right, Tempo};
use crate::app::{
    AppView, CommandView, HomeFocus, Menu, PairingFocus, PairingOutcome, PairingView, PendingView,
    Prefs, Screen, Settings, SettingsRow,
};
use crate::discovery::DiscoveredView;
use crate::geometry::{hit_index, Rect, Viewport};
use crate::library::{GameEntry, GamesLoaded, LibraryError};
use crate::model::event::MenuEvent;
use crate::seqs::{lemma_index_in, views};
use crate::store::{
    entry_index, entry_keys, known_entries, lemma_known_entries, upserted, without_host, EntryView,
    KnownHostView,
};

verus! {

broadcast use crate::seqs::group_views;

impl AppView {
    /// The state in which every handler can be called, and the frame be prepared: Home is ready,
    /// and the rest is in bounds.
    pub open spec fn steady(self, vp: Viewport) -> bool {
        self.home_ready(vp) && self.bounded(vp)
    }

    /// Every focus is in range, cards under way have screen coordinates, and the rasterized part of
    /// a document is small. No more titles are pinned than there are, and only hosts of the
    /// protocol that gives way are kept off the sidebar.
    pub open spec fn bounded(self, vp: Viewport) -> bool {
        &&& self.in_range()
        &&& self.flights_fit(vp)
        &&& self.shelf.pending_launch matches Some(p) ==> vp.cell_fits(p.idx as int)
        &&& self.prefs.content_window.start + self.prefs.content_window.len <= 0x4000_0000
        &&& self.pins_fit()
        &&& parked_wf(self.hosts.shadowed_gamestream)
    }
}

/// A grid that has shrunk still fits.
proof fn lemma_smaller_grid_fits(s: AppView, t: AppView, vp: Viewport)
    requires
        s.fits(vp),
        t.cell_bound(vp.columns as int) <= s.cell_bound(vp.columns as int),
        t.sized(vp.columns as int),
        0 <= t.canvas.grid_scroll <= 0x4000_0000,
        0 <= t.canvas.grid_scroll_target <= 0x4000_0000,
    ensures
        t.fits(vp),
{
    assert forall|i: int| 0 <= i <= t.cell_bound(vp.columns as int) implies #[trigger] vp.cell_fits(
        i,
    ) by {}
}

/// A grid that fits is not scrolled out of the range of screen coordinates.
proof fn lemma_max_scroll_bound(s: AppView, vp: Viewport)
    requires
        s.fits(vp),
    ensures
        0 <= s.max_scroll(vp) <= 0x4000_0000,
{
    lemma_grid_len_bound(s, vp);
    let n = s.grid_len(vp.columns as int);
    if n > 0 {
        assert(vp.cell_fits(n - 1));
    }
}

/// Putting the focus on a cell keeps Home ready.
proof fn lemma_cell_keeps_ready(s: AppView, vp: Viewport, idx: int, now: u64)
    requires
        s.home_ready(vp),
        0 <= idx <= s.cell_bound(vp.columns as int),
    ensures
        s.at_cell(idx, vp, now).home_ready(vp),
{
    let f = s.focused(HomeFocus::Grid(idx as usize));
    lemma_max_scroll_bound(f, vp);
    lemma_smaller_grid_fits(s, s.at_cell(idx, vp, now), vp);
}

/// Selecting a host keeps Home ready.
proof fn lemma_selecting_keeps_ready(
    s: AppView,
    host: Seq<char>,
    port: u16,
    mgmt_port: Option<u16>,
    vp: Viewport,
)
    requires
        s.home_ready(vp),
    ensures
        s.host_selected(host, port, mgmt_port).home_ready(vp),
{
    lemma_smaller_grid_fits(s, s.host_selected(host, port, mgmt_port), vp);
}

/// Forgetting a host keeps Home ready.
proof fn lemma_forgetting_keeps_ready(s: AppView, idx: int, vp: Viewport)
    requires
        s.home_ready(vp),
    ensures
        s.host_forgotten(idx).home_ready(vp),
{
    if let EntryView::Known(h) = s.hosts.entries[idx] {
        lemma_fewer_hosts(s.hosts.known_hosts, h.host, h.port);
        lemma_known_entries(without_host(s.hosts.known_hosts, h.host, h.port));
    }
    lemma_smaller_grid_fits(s, s.host_forgotten(idx), vp);
}

/// No host is added by dropping some.
proof fn lemma_fewer_hosts(hosts: Seq<KnownHostView>, host: Seq<char>, port: u16)
    ensures
        without_host(hosts, host, port).len() <= hosts.len(),
{
    reveal(without_host);
    hosts.lemma_filter_len(|h: KnownHostView| !(h.host == host && h.port == port));
}

/// Saving a host adds at most one.
proof fn lemma_one_more_host(hosts: Seq<KnownHostView>, new: KnownHostView)
    ensures
        upserted(hosts, new).len() <= hosts.len() + 1,
{
    reveal(upserted);
}

/// The focus on a saved host is on a row.
proof fn lemma_host_row(s: AppView, host: Seq<char>, port: u16)
    requires
        s.hosts.entries.len() <= LIMIT,
    ensures
        s.focused_on_host(host, port).nav.home_focus matches HomeFocus::Sidebar(i) && i <= LIMIT,
{
    reveal(entry_index);
    lemma_index_in(entry_keys(s.hosts.entries), (host, port));
}

/// Events on Home keep it ready for the next.
#[verifier::rlimit(30)]
proof fn lemma_home_keeps_ready(s: AppView, ev: MenuEvent, vp: Viewport, now: u64)
    requires
        s.home_ready(vp),
    ensures
        s.home_event(ev, vp, now).home_ready(vp),
{
    reveal(AppView::home_event);
    lemma_grid_len_bound(s, vp);
    let c = vp.columns as int;
    match s.nav.home_focus {
        HomeFocus::Grid(i) => {
            if ev == MenuEvent::Up && i >= c {
                lemma_cell_keeps_ready(s, vp, i - c, now);
            } else if ev == MenuEvent::Down && i + c < s.grid_len(c) {
                lemma_cell_keeps_ready(s, vp, i + c, now);
            } else if ev == MenuEvent::Left && i > 0 {
                lemma_cell_keeps_ready(s, vp, i - 1, now);
                lemma_selected_row_bound(s);
            } else if ev == MenuEvent::Right && i + 1 < s.grid_len(c) {
                lemma_cell_keeps_ready(s, vp, i + 1, now);
            }
            if ev == MenuEvent::Left {
                lemma_selected_row_bound(s);
                assert(0int % c == 0) by (nonlinear_arith)
                    requires
                        c >= 1,
                ;
            }
        },
        HomeFocus::Sidebar(i) => {
            lemma_cell_keeps_ready(s, vp, 0, now);
            if i < s.hosts.entries.len() {
                lemma_forgetting_keeps_ready(s, i as int, vp);
                if let EntryView::Known(h) = s.hosts.entries[i as int] {
                    lemma_selecting_keeps_ready(s, h.host, h.port, h.mgmt_port, vp);
                }
            }
        },
        HomeFocus::SidebarMenu(_) => {
            lemma_cell_keeps_ready(s, vp, 0, now);
        },
    }
}

/// Confirming on Home keeps the rest in bounds.
proof fn lemma_confirm_keeps_bounds(s: AppView, vp: Viewport)
    requires
        s.steady(vp),
    ensures
        s.home_confirm(vp).bounded(vp),
{
    if let HomeFocus::Grid(i) = s.nav.home_focus {
        assert(vp.cell_fits(i as int));
    }
}

/// Moving about on Home, and forgetting a host there, keep the rest in bounds.
proof fn lemma_moves_keep_bounds(s: AppView, vp: Viewport, now: u64)
    requires
        s.steady(vp),
    ensures
        s.home_up(vp, now).bounded(vp),
        s.home_down(vp, now).bounded(vp),
        s.home_left(vp, now).bounded(vp),
        s.home_right(vp, now).bounded(vp),
        s.home_secondary().bounded(vp),
{
}

/// Events on Home leave a state in which every handler can be called.
pub proof fn law_home_keeps_steady(s: AppView, ev: MenuEvent, vp: Viewport, now: u64)
    requires
        s.steady(vp),
    ensures
        s.home_event(ev, vp, now).steady(vp),
{
    lemma_home_keeps_ready(s, ev, vp, now);
    lemma_confirm_keeps_bounds(s, vp);
    lemma_moves_keep_bounds(s, vp, now);
    let after = s.home_event(ev, vp, now);
    assert(after.bounded(vp)) by {
        reveal(AppView::home_event);
    }
}

/// The row of the selected host is one of the list.
proof fn lemma_selected_row_bound(s: AppView)
    ensures
        s.selected_row() matches Some(r) ==> 0 <= r < s.hosts.entries.len(),
{
    reveal(entry_index);
    if let Some((h, p)) = s.hosts.selected_host {
        lemma_index_in(entry_keys(s.hosts.entries), (h, p));
    }
}

/// Scrolling the grid keeps the state steady.
pub proof fn law_scroll_keeps_steady(s: AppView, vp: Viewport, dy: int)
    requires
        s.steady(vp),
    ensures
        s.grid_scrolled(vp, dy).steady(vp),
{
    lemma_max_scroll_bound(s, vp);
    lemma_smaller_grid_fits(s, s.grid_scrolled(vp, dy), vp);
}

/// Events on the pairing screen keep the state steady.
pub proof fn law_pairing_keeps_steady(s: AppView, ev: MenuEvent, vp: Viewport, now: u64)
    requires
        s.steady(vp),
    ensures
        s.pairing_event(ev, now).steady(vp),
{
    reveal(AppView::pairing_event);
}

/// Events on the wake prompt keep the state steady.
pub proof fn law_wake_keeps_steady(s: AppView, ev: MenuEvent, vp: Viewport, now: u64)
    requires
        s.steady(vp),
    ensures
        s.wake_event(ev, now).steady(vp),
{
    reveal(AppView::wake_event);
}

/// Events on the forget prompt keep the state steady.
#[verifier::rlimit(30)]
pub proof fn law_forget_keeps_steady(s: AppView, ev: MenuEvent, vp: Viewport, now: u64)
    requires
        s.steady(vp),
    ensures
        s.forget_event(ev, now).steady(vp),
{
    reveal(AppView::forget_event);
    if let Some(i) = s.menu.host_menu_index {
        lemma_forgetting_keeps_ready(s, i as int, vp);
    }
}

/// Events on the menu of a host keep the state steady.
#[verifier::rlimit(30)]
pub proof fn law_menu_keeps_steady(s: AppView, ev: MenuEvent, vp: Viewport, now: u64)
    requires
        s.steady(vp),
    ensures
        s.menu_event(ev, now).steady(vp),
{
    reveal(AppView::menu_event);
}

/// Events on the wake settings keep the state steady.
pub proof fn law_wake_settings_keeps_steady(s: AppView, ev: MenuEvent, vp: Viewport, now: u64)
    requires
        s.steady(vp),
    ensures
        s.wake_settings_event(ev, now).steady(vp),
{
    reveal(AppView::wake_settings_event);
}

/// Events on the speed test keep the state steady.
pub proof fn law_speed_test_keeps_steady(
    s: AppView,
    ev: MenuEvent,
    range: BitrateRange,
    vp: Viewport,
    now: u64,
)
    requires
        s.steady(vp),
    ensures
        s.speed_test_event(ev, now, range).steady(vp),
{
    reveal(AppView::speed_test_event);
}

/// Events on the experimental switches keep the state steady.
pub proof fn law_experimental_keeps_steady(
    s: AppView,
    ev: MenuEvent,
    rows: usize,
    vp: Viewport,
    now: u64,
)
    requires
        s.steady(vp),
    ensures
        s.experimental_event(ev, rows as int, now).steady(vp),
{
    reveal(AppView::experimental_event);
}

/// Events on the diagnostics keep the state steady.
pub proof fn law_diagnostics_keeps_steady(s: AppView, ev: MenuEvent, vp: Viewport, now: u64)
    requires
        s.steady(vp),
    ensures
        s.diagnostics_event(ev, now).steady(vp),
{
    reveal(AppView::diagnostics_event);
}

/// Events on the About page keep the state steady.
pub proof fn law_about_keeps_steady(
    s: AppView,
    ev: MenuEvent,
    g: ScrollGeometry,
    vp: Viewport,
    now: u64,
)
    requires
        s.steady(vp),
    ensures
        s.about_event(ev, g, now).steady(vp),
{
}

/// Events on the settings keep the state steady.
pub proof fn law_settings_keep_steady(
    s: AppView,
    ev: MenuEvent,
    rows: Seq<SettingsRow>,
    choices: int,
    current: usize,
    m: SettingsMetrics,
    vp: Viewport,
    now: u64,
)
    requires
        s.steady(vp),
    ensures
        s.settings_event(ev, rows, choices, current, m, now).steady(vp),
{
    reveal(AppView::settings_event);
}

/// Events on the form for a new address keep the state steady, while there is room for one more
/// host.
pub proof fn law_add_host_keeps_steady(
    s: AppView,
    ev: MenuEvent,
    typed: Option<(String, u16)>,
    vp: Viewport,
)
    requires
        s.steady(vp),
        s.hosts.known_hosts.len() < LIMIT,
    ensures
        s.add_host_event(ev, typed).steady(vp),
{
    reveal(AppView::add_host_event);
    if let Some((host, port)) = typed {
        let hosts = upserted(s.hosts.known_hosts, typed_record(host@, port));
        lemma_one_more_host(s.hosts.known_hosts, typed_record(host@, port));
        lemma_known_entries(hosts);
        lemma_host_row(s.with_hosts(hosts).asking(CommandView::SaveKnownHosts), host@, port);
        lemma_smaller_grid_fits(s, s.host_added(host@, port), vp);
    }
}

/// Events on the form for another address keep the state steady, while there is room for one more
/// host.
#[verifier::rlimit(30)]
pub proof fn law_edit_host_keeps_steady(
    s: AppView,
    ev: MenuEvent,
    typed: Option<(String, u16)>,
    vp: Viewport,
)
    requires
        s.steady(vp),
        s.hosts.known_hosts.len() < LIMIT,
    ensures
        s.edit_event(ev, typed).steady(vp),
{
    reveal(AppView::edit_event);
    if let Some((host, port)) = typed {
        if let Some(was) = s.edited_host() {
            let kept = without_host(s.hosts.known_hosts, was.host, was.port);
            let moved = KnownHostView { host: host@, port, ..was };
            lemma_fewer_hosts(s.hosts.known_hosts, was.host, was.port);
            lemma_one_more_host(kept, moved);
            lemma_known_entries(upserted(kept, moved));
            let t = s.host_rewritten(was, host@, port);
            lemma_host_row(t, host@, port);
            lemma_smaller_grid_fits(s, s.host_moved(was, host@, port), vp);
        }
    }
}

/// Switching the pin of the focused card keeps the state steady, on a grid that fits with every
/// title pinned.
pub proof fn law_pin_keeps_steady(
    s: AppView,
    vp: Viewport,
    max_pins: usize,
    snapshot: bool,
    now: u64,
)
    requires
        s.steady(vp),
        vp.grid_fits(4 * s.shelf.games.len() + vp.columns + 2),
    ensures
        s.pin_toggled(vp, max_pins, snapshot, now).steady(vp),
{
    if let (Some(id), Some(known)) = (s.focused_pin(vp.columns as int), s.selected_known()) {
        let t = s.pin_switched(id, vp.columns as int);
        let c = vp.columns as int;
        let n = s.shelf.games.len() as int;
        let i = s.nav.home_focus->Grid_0 as int;
        lemma_switched_fits(s, id, vp);
        lemma_layout_wf(s, c);
        lemma_cells(s.layout(c), n, c);
        assert(i < s.layout(c).cells(n).len() <= n + c + 2);
        assert(t.home_ready(vp));
        assert(vp.cell_fits(i));
        if let Some(to) = t.layout(c).cell_of(t.shelf.games, id) {
            lemma_layout_wf(t, c);
            lemma_cells(t.layout(c), n, c);
            law_cell_holds_pin_id(t.layout(c), t.shelf.games, c, id);
            assert(vp.cell_fits(to));
            lemma_cell_keeps_ready(t, vp, to, now);
        }
    }
}

/// A tick keeps the state steady.
pub proof fn law_tick_keeps_steady(s: AppView, eased: int, tempo: Tempo, vp: Viewport, now: u64)
    requires
        s.steady(vp),
        eased_right(s.scroll_left(), eased),
    ensures
        s.ticked(eased, tempo, now).steady(vp),
{
    lemma_smaller_grid_fits(s, s.ticked(eased, tempo, now), vp);
}

/// Going back from whichever screen is up keeps the state steady.
pub proof fn law_back_keeps_steady(s: AppView, range: BitrateRange, vp: Viewport, now: u64)
    requires
        s.steady(vp),
    ensures
        s.backed(range, now).steady(vp),
{
    law_pairing_keeps_steady(s, MenuEvent::Back, vp, now);
    law_wake_keeps_steady(s, MenuEvent::Back, vp, now);
    law_forget_keeps_steady(s, MenuEvent::Back, vp, now);
    law_menu_keeps_steady(s, MenuEvent::Back, vp, now);
    law_wake_settings_keeps_steady(s, MenuEvent::Back, vp, now);
    law_speed_test_keeps_steady(s, MenuEvent::Back, range, vp, now);
    law_diagnostics_keeps_steady(s, MenuEvent::Back, vp, now);
    law_experimental_keeps_steady(s, MenuEvent::Back, 0, vp, now);
    reveal(AppView::edit_event);
}

/// A steady state can be prepared, and stays steady over it. Once prepared the frame can be drawn,
/// until the screen that is drawn is a document that is no longer up.
pub proof fn law_prepared_keeps_steady(
    s: AppView,
    vp: Viewport,
    scene: Scene,
    content_dirty: bool,
    now: u64,
    later: u64,
)
    requires
        s.steady(vp),
        scene.valid(),
    ensures
        s.drawable(vp),
        s.prepared(vp, scene, content_dirty, now).steady(vp),
        ({
            let t = s.prepared(vp, scene, content_dirty, now);
            (t.drawn_screen(later) == Screen::About ==> s.nav.screen == Screen::About)
                ==> t.frameable(vp, scene, later)
        }),
{
    lemma_prepared_frame(s, vp, scene, content_dirty, now);
    if s.nav.screen == Screen::About {
        law_prepared_document_in_view(s, vp, scene, content_dirty, now);
    }
}

/// The menu before anything has happened is steady, on a screen that has room for a grid with no
/// title on it.
pub proof fn law_fresh_is_steady(hosts: Seq<KnownHostView>, settings: Settings, vp: Viewport)
    requires
        vp.valid(),
        vp.grid_fits(vp.columns + 2),
        hosts.len() <= LIMIT,
    ensures
        AppView::fresh(hosts, settings).steady(vp),
{
    lemma_known_entries(hosts);
}

/// The first rectangle that is hit is one of them, or past them.
proof fn lemma_hit_in_range(rects: Seq<Rect>, x: int, y: int)
    ensures
        0 <= hit_index(rects, x, y) <= rects.len(),
    decreases rects.len(),
{
    if rects.len() > 0 {
        lemma_hit_in_range(rects.drop_first(), x, y);
    }
}

/// A click keeps the state steady.
#[verifier::rlimit(30)]
pub proof fn law_click_keeps_steady(
    s: AppView,
    x: int,
    y: int,
    t: ClickTargets,
    vp: Viewport,
    list: SettingsList,
    range: BitrateRange,
    now: u64,
)
    requires
        s.steady(vp),
        s.clickable(t, vp, list),
    ensures
        s.pointed(x, y, t.close).clicked(x, y, t, vp, list, range, now).steady(vp),
{
    let p = s.pointed(x, y, t.close);
    assert(p.steady(vp));
    law_back_keeps_steady(p, range, vp, now);
    lemma_hit_in_range(t.menu_buttons@, x, y);
    lemma_hit_in_range(t.sidebar_rows@, x, y);
    lemma_hit_in_range(t.list_rows@, x, y);
    match s.nav.screen {
        Screen::Home => {
            let row = hit_index(t.sidebar_rows@, x, y);
            law_home_keeps_steady(
                p.focused(HomeFocus::Sidebar(row as usize)),
                MenuEvent::Confirm,
                vp,
                now,
            );
            if let Some(idx) = t.cell {
                law_home_keeps_steady(
                    p.focused(HomeFocus::Grid(idx)),
                    MenuEvent::Confirm,
                    vp,
                    now,
                );
            }
        },
        Screen::Settings => {
            let rows = list.rows@;
            let m = list.metrics;
            let to = p.prefs.scroll.kept(
                rows.len() as int,
                m.in_view(p.prefs.settings, rows.len() as int),
            ) + hit_index(t.list_rows@, x, y);
            let q = AppView { prefs: Prefs { settings_focused: to as usize, ..p.prefs }, ..p };
            law_settings_keep_steady(
                p,
                MenuEvent::Confirm,
                rows,
                list.choices as int,
                list.current,
                m,
                vp,
                now,
            );
            law_settings_keep_steady(
                q,
                MenuEvent::Confirm,
                rows,
                list.choices as int,
                list.current,
                m,
                vp,
                now,
            );
        },
        Screen::Pairing => {
            let q = p.pairing_as(
                PairingView { pairing_focus: PairingFocus::RequestAccess, ..p.pairing },
            );
            law_pairing_keeps_steady(q, MenuEvent::Confirm, vp, now);
        },
        Screen::HostMenu => {
            let i = hit_index(t.list_rows@, x, y);
            if i < t.list_rows.len() {
                let q = p.menu_as(Menu { menu_focused: i as usize, ..p.menu });
                let dots = q.row_has_dots() && i < t.list_dots.len() && t.list_dots@[i].holds(x, y);
                law_menu_keeps_steady(
                    q.menu_as(Menu { host_menu_dots: dots, ..q.menu }),
                    MenuEvent::Confirm,
                    vp,
                    now,
                );
            }
        },
        _ => {
            law_wake_keeps_steady(p, MenuEvent::Confirm, vp, now);
            law_forget_keeps_steady(p, MenuEvent::Confirm, vp, now);
            law_wake_settings_keeps_steady(p, MenuEvent::Confirm, vp, now);
            law_speed_test_keeps_steady(p, MenuEvent::Confirm, range, vp, now);
        },
    }
}

/// A library that fits keeps the state steady when it arrives; what was shown before it was none.
pub proof fn law_library_keeps_steady(s: AppView, loaded: GamesLoaded, vp: Viewport, now: u64)
    requires
        s.steady(vp),
        s.shelf.games.len() == 0,
        s.shelf.pinned_count == 0,
        loaded.result matches Ok(games) ==> games.len() <= LIMIT && vp.grid_fits(
            4 * games.len() + vp.columns + 2,
        ),
    ensures
        s.games_taken(loaded, now).steady(vp),
{
    if let Ok(games) = loaded.result {
        let all = by_title(views(games@));
        law_by_title_sorts(views(games@));
        law_pinning_keeps_games(all, pins_of(s.selected_known()));
        let t = s.games_taken(loaded, now);
        assert forall|i: int| 0 <= i <= t.cell_bound(vp.columns as int) implies #[trigger] vp.cell_fits(
            i,
        ) by {}
    }
}

/// The look at the host of a card that was confirmed keeps the state steady.
pub proof fn law_launch_keeps_steady(
    s: AppView,
    pending: PendingView,
    result: Result<Vec<GameEntry>, LibraryError>,
    vp: Viewport,
    now: u64,
)
    requires
        s.steady(vp),
        s.shelf.pending_launch == Some(pending),
    ensures
        s.launch_checked(pending, result, now).steady(vp),
{
}

/// The end of a pairing keeps the state steady, while there is room for one more host.
pub proof fn law_paired_keeps_steady(s: AppView, outcome: PairingOutcome, vp: Viewport)
    requires
        s.steady(vp),
        s.hosts.known_hosts.len() < LIMIT,
    ensures
        s.pairing_done(outcome).steady(vp),
{
    if let Ok(fingerprint) = outcome.result {
        let t = outcome.target@;
        let new = paired_record(t, fingerprint);
        let hosts = upserted(s.hosts.known_hosts, new);
        lemma_one_more_host(s.hosts.known_hosts, new);
        lemma_known_entries(hosts);
        lemma_smaller_grid_fits(s, s.pairing_done(outcome), vp);
    }
}

/// Waiting for a host to wake keeps the state steady.
pub proof fn law_wake_tick_keeps_steady(s: AppView, probe: Option<bool>, vp: Viewport, now: u64)
    requires
        s.steady(vp),
    ensures
        s.wake_ticked(now, probe).steady(vp),
{
    lemma_smaller_grid_fits(s, s.wake_ticked(now, probe), vp);
}

/// Moving hosts onto the sidebar and off it keeps the state steady, while there is room for their
/// rows and the focus is on a row that is there.
pub proof fn law_shadowing_keeps_steady(s: AppView, vp: Viewport)
    requires
        s.steady(vp),
        s.hosts.entries.len() + s.hosts.shadowed_gamestream.len() <= LIMIT,
        s.nav.home_focus matches HomeFocus::Sidebar(i) ==> i < s.hosts.entries.len() + 2,
    ensures
        s.shadowing_settled().steady(vp),
{
    lemma_rows_bounded(s);
    lemma_refreshed_parked(s);
    lemma_smaller_grid_fits(s, s.shadowing_settled(), vp);
}

/// The answers of a sweep keep the state steady, under the same conditions.
pub proof fn law_sweep_keeps_steady(
    s: AppView,
    rs: Seq<ReachabilityView>,
    finished: bool,
    vp: Viewport,
)
    requires
        s.steady(vp),
        s.hosts.entries.len() + s.hosts.shadowed_gamestream.len() <= LIMIT,
        s.nav.home_focus matches HomeFocus::Sidebar(i) ==> i < s.hosts.entries.len() + 2,
    ensures
        s.sweep_taken(rs, finished).steady(vp),
{
    lemma_sweep_keeps_focus(s, rs, finished);
    let noted = s.sweep_noted(rs, finished);
    lemma_smaller_grid_fits(s, noted, vp);
    if s.hosts.reach_pending {
        law_shadowing_keeps_steady(noted, vp);
    }
}

proof fn lemma_rows_shown_len(s: AppView, rows: Seq<EntryView>, found: bool, n: int)
    requires
        0 <= n <= rows.len(),
    ensures
        s.rows_shown(rows, found, n).len() <= n,
    decreases n,
{
    if n > 0 {
        lemma_rows_shown_len(s, rows, found, n - 1);
    }
}

/// Switching the other protocol on or off keeps the state steady, while there is room for the rows.
pub proof fn law_visibility_keeps_steady(s: AppView, vp: Viewport)
    requires
        s.steady(vp),
        s.hosts.known_hosts.len() + s.hosts.entries.len() + s.hosts.shadowed_gamestream.len()
            <= LIMIT,
    ensures
        s.visibility_applied().steady(vp),
{
    let asked = s.asking(CommandView::RestartDiscovery);
    let saved = known_entries(s.hosts.known_hosts);
    lemma_known_entries(s.hosts.known_hosts);
    lemma_rows_shown_len(asked, saved, false, saved.len() as int);
    lemma_rows_shown_len(asked, s.hosts.entries, true, s.hosts.entries.len() as int);
    let rows = asked.refiltered();
    lemma_rows_bounded(rows);
    lemma_refreshed_parked(rows);
    lemma_smaller_grid_fits(s, s.visibility_applied(), vp);
}

/// Announcements change rows and saved hosts only, and give at most one row each.
proof fn lemma_found_frame(s: AppView, fs: Seq<DiscoveredView>, n: int)
    requires
        0 <= n <= fs.len(),
    ensures
        s.hosts_found(fs, n) == (AppView { hosts: s.hosts_found(fs, n).hosts, ..s }),
        s.hosts_found(fs, n).hosts.entries.len() <= s.hosts.entries.len() + n,
        s.hosts_found(fs, n).hosts.known_hosts.len() == s.hosts.known_hosts.len(),
        s.hosts_found(fs, n).hosts.selected_host == s.hosts.selected_host,
        s.hosts_found(fs, n).hosts.shadowed_gamestream == s.hosts.shadowed_gamestream,
    decreases n,
{
    if n > 0 {
        lemma_found_frame(s, fs, n - 1);
    }
}

/// Announcements keep the state steady, while there is room for their rows.
pub proof fn law_discovery_keeps_steady(s: AppView, fs: Seq<DiscoveredView>, vp: Viewport)
    requires
        s.steady(vp),
        s.hosts.entries.len() + fs.len() <= LIMIT,
    ensures
        s.discovery_taken(fs).steady(vp),
{
    lemma_found_frame(s, fs, fs.len() as int);
    lemma_smaller_grid_fits(s, s.discovery_taken(fs), vp);
}

/// The focused row of the settings, and the row whose choices are listed, are among `rows`.
pub open spec fn rows_hold_focus(s: AppView, rows: int) -> bool {
    &&& s.prefs.settings_focused < rows
    &&& s.prefs.dropdown matches Some(dd) ==> dd.row < rows && dd.focused < usize::MAX
}

/// Events on the settings keep their focus, and that of an open list of choices, in range.
pub proof fn law_settings_keep_rows(
    s: AppView,
    ev: MenuEvent,
    rows: Seq<SettingsRow>,
    choices: int,
    current: usize,
    m: SettingsMetrics,
    now: u64,
)
    requires
        rows_hold_focus(s, rows.len() as int),
        rows.len() <= LIMIT,
        current < usize::MAX,
        0 <= choices <= LIMIT,
    ensures
        rows_hold_focus(s.settings_event(ev, rows, choices, current, m, now), rows.len() as int),
{
    reveal(AppView::settings_event);
}

/// Events on the diagnostics keep the focus of an open list of levels in range.
pub proof fn law_diagnostics_keep_choice(s: AppView, ev: MenuEvent, now: u64)
    requires
        s.prefs.dropdown matches Some(dd) ==> dd.focused < LOG_LEVEL_COUNT,
    ensures
        s.diagnostics_event(ev, now).prefs.dropdown matches Some(dd) ==> dd.focused
            < LOG_LEVEL_COUNT,
{
    reveal(AppView::diagnostics_event);
}

/// Events on Home open a modal only about a row that is listed.
pub proof fn law_home_leaves_rows(s: AppView, ev: MenuEvent, vp: Viewport, now: u64)
    requires
        s.steady(vp),
        s.row_there(),
        s.nav.screen == Screen::Home,
    ensures
        s.home_event(ev, vp, now).row_there(),
{
    lemma_home_keeps_ready(s, ev, vp, now);
    reveal(AppView::home_event);
}

/// Events on the pairing screen leave the row it is about listed.
pub proof fn law_pairing_leaves_rows(s: AppView, ev: MenuEvent, vp: Viewport, now: u64)
    requires
        s.steady(vp),
        s.row_there(),
    ensures
        s.pairing_event(ev, now).row_there(),
{
    reveal(AppView::pairing_event);
}

/// Events on the forget prompt leave the row of an open modal listed.
pub proof fn law_forget_leaves_rows(s: AppView, ev: MenuEvent, vp: Viewport, now: u64)
    requires
        s.steady(vp),
        s.row_there(),
        s.nav.screen == Screen::ForgetHost,
    ensures
        s.forget_event(ev, now).row_there(),
{
    law_forget_keeps_steady(s, ev, vp, now);
    reveal(AppView::forget_event);
}

/// Events on the menu of a host open a modal only about a row that is listed.
pub proof fn law_menu_leaves_rows(s: AppView, ev: MenuEvent, vp: Viewport, now: u64)
    requires
        s.steady(vp),
        s.row_there(),
    ensures
        s.menu_event(ev, now).row_there(),
{
    reveal(AppView::menu_event);
}

} // verus!
