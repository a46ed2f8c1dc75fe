//! A new menu, and what arrives for it: announced hosts and decoded covers.
use vstd::prelude::*;

use crate::app::grid::GridCard;
use crate::app::tiles::{no_tiles, TileCache};
use crate::app::{
    App, AppView, Canvas, CanvasView, Command, CommandView, ContentWindow, DropdownFade, HomeFocus,
    Hosts, HostsView, Menu, ModalFade, Nav, Pairing, PairingFocus, PairingView, Prefs, Screen,
    ScrollWindow, Settings, Shelf, ShelfView, Speed, SpeedView,
};
use crate::discovery::{DiscoveredHost, DiscoveredView};
use crate::seqs::{clone_strings, lemma_index_in, same_strings, views};
use crate::store::{
    find_host, find_text, host_at, host_index, known_entries, rows_of, EntryView, HostEntry,
    KnownHost, KnownHostView,
};
use crate::text::same_text;

verus! {

broadcast use crate::seqs::group_views;

/// Whether row `e` is a discovered host at the address of `f`.
pub open spec fn is_row_of(e: EntryView, f: DiscoveredView) -> bool {
    e matches EntryView::Discovered(d) && d.addr == f.addr && d.port == f.port
}

impl AppView {
    /// Whether a discovered host already has a row.
    pub open spec fn has_row(self, f: DiscoveredView) -> bool {
        exists|i: int| 0 <= i < self.hosts.entries.len() && #[trigger] is_row_of(
            self.hosts.entries[i],
            f,
        )
    }

    /// Whether an announcement tells how to wake a saved host, and differently than its record.
    pub open spec fn teaches_mac(self, f: DiscoveredView) -> bool {
        host_at(self.hosts.known_hosts, f.addr, f.port) matches Some(k) && f.mac.len() > 0 && k.mac
            != f.mac
    }

    /// Whether an announcement gives a new row: one for a host that is neither saved nor listed.
    pub open spec fn gives_row(self, f: DiscoveredView) -> bool {
        host_at(self.hosts.known_hosts, f.addr, f.port) is None && !self.has_row(f)
    }

    /// After one announcement.
    pub open spec fn host_found(self, f: DiscoveredView) -> AppView {
        if self.teaches_mac(f) {
            let k = host_at(self.hosts.known_hosts, f.addr, f.port)->0;
            AppView {
                hosts: HostsView {
                    known_hosts: self.hosts.known_hosts.update(
                        host_index(self.hosts.known_hosts, f.addr, f.port),
                        KnownHostView { mac: f.mac, ..k },
                    ),
                    ..self.hosts
                },
                ..self
            }
        } else if self.gives_row(f) {
            AppView {
                hosts: HostsView {
                    entries: self.hosts.entries.push(EntryView::Discovered(f)),
                    ..self.hosts
                },
                ..self
            }
        } else {
            self
        }
    }

    /// After the first `n` announcements.
    pub open spec fn hosts_found(self, fs: Seq<DiscoveredView>, n: int) -> AppView
        decreases n,
    {
        if n <= 0 {
            self
        } else {
            self.hosts_found(fs, n - 1).host_found(fs[n - 1])
        }
    }

    /// Whether any of the first `n` announcements tells how to wake a saved host.
    pub open spec fn macs_found(self, fs: Seq<DiscoveredView>, n: int) -> bool
        decreases n,
    {
        n > 0 && (self.macs_found(fs, n - 1) || self.hosts_found(fs, n - 1).teaches_mac(fs[n - 1]))
    }

    /// Whether any of the first `n` announcements gives a new row.
    pub open spec fn rows_found(self, fs: Seq<DiscoveredView>, n: int) -> bool
        decreases n,
    {
        n > 0 && (self.rows_found(fs, n - 1) || self.hosts_found(fs, n - 1).gives_row(fs[n - 1]))
    }

    /// Whether an announcement is of the host that is being woken.
    pub open spec fn is_awaited(self, f: DiscoveredView) -> bool {
        self.wake matches Some(w) && f.addr == w.host && f.port == w.port
    }

    /// The last of the first `n` announcements that is of the host being woken.
    pub open spec fn awaited(self, fs: Seq<DiscoveredView>, n: int) -> Option<DiscoveredView>
        decreases n,
    {
        if n <= 0 {
            None
        } else if self.is_awaited(fs[n - 1]) {
            Some(fs[n - 1])
        } else {
            self.awaited(fs, n - 1)
        }
    }

    /// Whether the announcements change the sidebar.
    pub open spec fn discovery_changes(self, fs: Seq<DiscoveredView>) -> bool {
        self.rows_found(fs, fs.len() as int) || self.awaited(fs, fs.len() as int) is Some
    }

    /// After taking in announcements: new rows are listed, wake addresses are learned and stored,
    /// and a host that was being woken is back.
    pub open spec fn discovery_taken(self, fs: Seq<DiscoveredView>) -> AppView {
        let n = fs.len() as int;
        let found = self.hosts_found(fs, n);
        let stored = if self.macs_found(fs, n) {
            found.asking(CommandView::SaveKnownHosts)
        } else {
            found
        };
        let woken = match self.awaited(fs, n) {
            Some(f) => stored.wake_over(f.addr, f.port, f.mgmt_port),
            None => stored,
        };
        if self.discovery_changes(fs) {
            woken.sidebar_stale()
        } else {
            woken
        }
    }
}

impl App {
    fn find_row(&self, f: &DiscoveredHost) -> (r: bool)
        ensures
            r == self@.has_row(f@),
    {
        let mut i: usize = 0;
        while i < self.hosts.entries.len()
            invariant
                i <= self.hosts.entries.len(),
                forall|j: int| 0 <= j < i ==> !#[trigger] is_row_of(self@.hosts.entries[j], f@),
            decreases self.hosts.entries.len() - i,
        {
            let same = match &self.hosts.entries[i] {
                HostEntry::Discovered(d) => d.port == f.port && same_text(
                    d.addr.as_str(),
                    f.addr.as_str(),
                ),
                HostEntry::Known(_) => false,
            };
            if same {
                assert(is_row_of(self@.hosts.entries[i as int], f@));
                return true;
            }
            i += 1;
        }
        false
    }

    fn take_found(&mut self, f: &DiscoveredHost) -> (r: (bool, bool))
        ensures
            final(self)@ == old(self)@.host_found(f@),
            r.0 == old(self)@.teaches_mac(f@),
            r.1 == old(self)@.gives_row(f@),
    {
        match find_host(&self.hosts.known_hosts, f.addr.as_str(), f.port) {
            Some(i) => {
                if f.mac.len() > 0 && !same_strings(&self.hosts.known_hosts[i].mac, &f.mac) {
                    let mut record = self.hosts.known_hosts[i].clone();
                    record.mac = clone_strings(&f.mac);
                    self.hosts.known_hosts.set(i, record);
                    (true, false)
                } else {
                    (false, false)
                }
            },
            None => {
                if self.find_row(f) {
                    (false, false)
                } else {
                    self.hosts.entries.push(HostEntry::Discovered(f.clone()));
                    (false, true)
                }
            },
        }
    }

    fn awaits(&self, f: &DiscoveredHost) -> (r: bool)
        ensures
            r == self@.is_awaited(f@),
    {
        match &self.wake {
            Some(w) => f.port == w.port && same_text(f.addr.as_str(), w.host.as_str()),
            None => false,
        }
    }

    fn last_awaited(&self, fs: &Vec<DiscoveredHost>) -> (r: Option<usize>)
        ensures
            match r {
                Some(i) => i < fs.len() && self@.awaited(views(fs@), fs.len() as int) == Some(
                    fs@[i as int]@,
                ),
                None => self@.awaited(views(fs@), fs.len() as int) is None,
            },
    {
        let mut at: Option<usize> = None;
        let mut i: usize = 0;
        while i < fs.len()
            invariant
                i <= fs.len(),
                match at {
                    Some(k) => k < i && self@.awaited(views(fs@), i as int) == Some(
                        fs@[k as int]@,
                    ),
                    None => self@.awaited(views(fs@), i as int) is None,
                },
            decreases fs.len() - i,
        {
            if self.awaits(&fs[i]) {
                at = Some(i);
            }
            i += 1;
        }
        at
    }

    fn take_all_found(&mut self, fs: &Vec<DiscoveredHost>) -> (r: (bool, bool))
        ensures
            final(self)@ == old(self)@.hosts_found(views(fs@), fs.len() as int),
            r.0 == old(self)@.macs_found(views(fs@), fs.len() as int),
            r.1 == old(self)@.rows_found(views(fs@), fs.len() as int),
    {
        let mut macs = false;
        let mut rows = false;
        let mut i: usize = 0;
        while i < fs.len()
            invariant
                i <= fs.len(),
                self@ == old(self)@.hosts_found(views(fs@), i as int),
                macs == old(self)@.macs_found(views(fs@), i as int),
                rows == old(self)@.rows_found(views(fs@), i as int),
            decreases fs.len() - i,
        {
            let (mac, row) = self.take_found(&fs[i]);
            macs = macs || mac;
            rows = rows || row;
            i += 1;
        }
        (macs, rows)
    }

    /// Takes in announcements. Returns whether the sidebar changed.
    pub fn drain_discovery(&mut self, fs: &Vec<DiscoveredHost>) -> (changed: bool)
        ensures
            final(self)@ == old(self)@.discovery_taken(views(fs@)),
            changed == old(self)@.discovery_changes(views(fs@)),
    {
        let back = self.last_awaited(fs);
        let (macs, rows) = self.take_all_found(fs);
        if macs {
            self.outbox.push(Command::SaveKnownHosts);
        }
        let changed = rows || back.is_some();
        match back {
            Some(i) => {
                self.wake_succeeded(fs[i].addr.clone(), fs[i].port, fs[i].mgmt_port);
            },
            None => {},
        }
        if changed {
            self.canvas.sidebar_dirty = true;
        }
        changed
    }
}

impl AppView {
    /// After the cover of one title has arrived: only its card is stale.
    pub open spec fn cover_arrived(self, id: Seq<char>, columns: int) -> AppView {
        AppView {
            shelf: ShelfView {
                art: if self.shelf.art.contains(id) {
                    self.shelf.art
                } else {
                    self.shelf.art.push(id)
                },
                ..self.shelf
            },
            canvas: CanvasView {
                grid_cards_dirty: match self.layout(columns).cell_of(self.shelf.games, id) {
                    Some(idx) => self.canvas.grid_cards_dirty.push(idx as usize),
                    None => self.canvas.grid_cards_dirty,
                },
                ..self.canvas
            },
            ..self
        }
    }

    /// After the covers of the first `n` of these titles have arrived.
    pub open spec fn covers_arrived(self, ids: Seq<Seq<char>>, columns: int, n: int) -> AppView
        decreases n,
    {
        if n <= 0 {
            self
        } else {
            self.covers_arrived(ids, columns, n - 1).cover_arrived(ids[n - 1], columns)
        }
    }

    /// After taking in covers; without a loader, none are taken.
    pub open spec fn art_taken(self, ids: Seq<Seq<char>>, columns: int) -> AppView {
        if self.shelf.art_loader is None {
            self
        } else {
            self.covers_arrived(ids, columns, ids.len() as int)
        }
    }
}

proof fn lemma_covers_same_layout(s: AppView, ids: Seq<Seq<char>>, columns: int, n: int)
    ensures
        s.covers_arrived(ids, columns, n).hosts == s.hosts,
        s.covers_arrived(ids, columns, n).shelf.games == s.shelf.games,
        s.covers_arrived(ids, columns, n).shelf.pinned_count == s.shelf.pinned_count,
        s.covers_arrived(ids, columns, n).shelf.games_loaded == s.shelf.games_loaded,
    decreases n,
{
    if n > 0 {
        lemma_covers_same_layout(s, ids, columns, n - 1);
    }
}

impl App {
    fn take_cover(&mut self, id: &String, columns: usize)
        requires
            old(self)@.sized(columns as int),
        ensures
            final(self)@ == old(self)@.cover_arrived(id@, columns as int),
    {
        let cell = self.grid_idx_for_pin_id(id.as_str(), columns);
        match cell {
            Some(idx) => {
                self.canvas.grid_cards_dirty.push(idx);
            },
            None => {},
        }
        proof {
            lemma_index_in(self@.shelf.art, id@);
        }
        if find_text(&self.shelf.art, id.as_str()).is_none() {
            self.shelf.art.push(id.clone());
        }
    }

    /// Takes in the covers of these titles. Returns whether any came.
    pub fn drain_art(&mut self, ids: &Vec<String>, columns: usize) -> (changed: bool)
        requires
            old(self)@.sized(columns as int),
        ensures
            final(self)@ == old(self)@.art_taken(views(ids@), columns as int),
            changed == (old(self)@.shelf.art_loader is Some && ids.len() > 0),
    {
        if self.shelf.art_loader.is_none() {
            return false;
        }
        let mut i: usize = 0;
        while i < ids.len()
            invariant
                i <= ids.len(),
                old(self)@.sized(columns as int),
                self@ == old(self)@.covers_arrived(views(ids@), columns as int, i as int),
            decreases ids.len() - i,
        {
            proof {
                lemma_covers_same_layout(old(self)@, views(ids@), columns as int, i as int);
            }
            self.take_cover(&ids[i], columns);
            i += 1;
        }
        ids.len() > 0
    }
}

/// The first saved host at this address that is paired, or the number of hosts.
pub open spec fn paired_index(hosts: Seq<KnownHostView>, host: Seq<char>, port: u16) -> int
    decreases hosts.len(),
{
    if hosts.len() == 0 {
        0
    } else if hosts[0].host == host && hosts[0].port == port && hosts[0].fingerprint is Some {
        0
    } else {
        1 + paired_index(hosts.drop_first(), host, port)
    }
}

proof fn lemma_paired_index(hosts: Seq<KnownHostView>, host: Seq<char>, port: u16, k: int)
    requires
        0 <= k <= hosts.len(),
        forall|i: int|
            0 <= i < k ==> !((#[trigger] hosts[i]).host == host && hosts[i].port == port
                && hosts[i].fingerprint is Some),
        k < hosts.len() ==> hosts[k].host == host && hosts[k].port == port && hosts[k].fingerprint
            is Some,
    ensures
        paired_index(hosts, host, port) == k,
    decreases hosts.len(),
{
    if hosts.len() > 0 && k > 0 {
        let rest = hosts.drop_first();
        assert(!(hosts[0].host == host && hosts[0].port == port && hosts[0].fingerprint is Some));
        assert forall|i: int| 0 <= i < k - 1 implies !((#[trigger] rest[i]).host == host
            && rest[i].port == port && rest[i].fingerprint is Some) by {
            assert(rest[i] == hosts[i + 1]);
        }
        lemma_paired_index(rest, host, port, k - 1);
    }
}

fn find_paired(hosts: &Vec<KnownHost>, host: &str, port: u16) -> (r: usize)
    ensures
        r == paired_index(views(hosts@), host@, port),
        r <= hosts.len(),
{
    let ghost all = views(hosts@);
    let mut i: usize = 0;
    while i < hosts.len()
        invariant
            i <= hosts.len(),
            all == views(hosts@),
            forall|j: int|
                0 <= j < i ==> !((#[trigger] all[j]).host == host@ && all[j].port == port
                    && all[j].fingerprint is Some),
        decreases hosts.len() - i,
    {
        if hosts[i].port == port && hosts[i].fingerprint.is_some() && same_text(
            hosts[i].host.as_str(),
            host,
        ) {
            proof {
                lemma_paired_index(all, host@, port, i as int);
            }
            return i;
        }
        i += 1;
    }
    proof {
        lemma_paired_index(all, host@, port, hosts.len() as int);
    }
    hosts.len()
}

impl AppView {
    /// The menu before anything has happened.
    pub open spec fn fresh(hosts: Seq<KnownHostView>, settings: Settings) -> AppView {
        AppView {
            nav: Nav {
                screen: Screen::Home,
                last_screen: Screen::Home,
                home_focus: HomeFocus::Sidebar(0),
                hover_close: false,
                modal_fade: ModalFade::still(),
                focus_anim: None,
                modal_focus_anim: None,
                switch_anim: None,
            },
            hosts: HostsView {
                known_hosts: hosts,
                entries: known_entries(hosts),
                shadowed_gamestream: seq![],
                selected_host: None,
                reachable: seq![],
                reach_pending: false,
                reach_last: None,
                quit_app_pending: false,
                gs_probe_pending: false,
            },
            shelf: ShelfView {
                games: seq![],
                pinned_count: 0,
                games_loaded: false,
                games_pending: false,
                card_ids: seq![],
                art: seq![],
                art_loader: None,
                pending_launch: None,
                launch_ready: None,
                launch_anim: None,
                launch_anim_idx: None,
            },
            home_status: None,
            prefs: Prefs {
                settings,
                settings_focused: 0,
                scroll: ScrollWindow::top(),
                settings_scroll: ScrollWindow::top(),
                content_window: ContentWindow::empty(),
                dropdown: None,
                dropdown_fade: DropdownFade { opened_at: None, closing: None },
                experimental_focused: 0,
                diagnostics_focused: 0,
            },
            menu: Menu {
                host_menu_index: None,
                host_menu_focused: 1,
                menu_focused: 0,
                host_menu_dots: false,
                wake_settings_focused: 0,
                edit_host_index: None,
            },
            speed: SpeedView {
                speed_test: None,
                speed_test_running: false,
                speed_test_focused: 0,
                speed_test_name: seq![],
            },
            pairing: PairingView {
                pin_digits: seq![0u8, 0u8, 0u8, 0u8],
                pin_digit_index: 0,
                pairing_focus: PairingFocus::Pin,
                pairing_status: None,
                pairing_busy: false,
                pairing_entry: 0,
            },
            wake: None,
            canvas: CanvasView {
                sidebar_dirty: true,
                grid_dirty: true,
                tiles_pending: false,
                grid_cards_dirty: seq![],
                evicted_tiles: seq![],
                grid_reveal_ready: true,
                spinner_frame: None,
                spinner_since: None,
                grid_scroll: 0,
                grid_scroll_target: 0,
                pin_move_anim: None,
            },
            tiles: no_tiles(),
            outbox: seq![],
        }
    }

    /// The menu at its start: the host that was selected last is selected again if it is still
    /// saved and paired.
    pub open spec fn started(
        hosts: Seq<KnownHostView>,
        settings: Settings,
        selected: Option<(Seq<char>, u16)>,
    ) -> AppView {
        let s = AppView::fresh(hosts, settings);
        match selected {
            None => s,
            Some((host, port)) => {
                let i = paired_index(hosts, host, port);
                if i < hosts.len() {
                    s.host_selected(hosts[i].host, hosts[i].port, hosts[i].mgmt_port)
                } else {
                    s
                }
            },
        }
    }
}

fn no_hosts(known_hosts: Vec<KnownHost>) -> (r: Hosts)
    ensures
        r@ == AppView::fresh(views(known_hosts@), arbitrary()).hosts,
{
    let entries = rows_of(&known_hosts);
    let r = Hosts {
        known_hosts,
        entries,
        shadowed_gamestream: Vec::new(),
        selected_host: None,
        reachable: Vec::new(),
        reach_pending: false,
        reach_last: None,
        quit_app_pending: false,
        gs_probe_pending: false,
    };
    assert(r@.shadowed_gamestream =~= seq![]);
    assert(r@.reachable =~= seq![]);
    r
}

fn no_shelf() -> (r: Shelf)
    ensures
        r@ == AppView::fresh(seq![], arbitrary()).shelf,
{
    let r = Shelf {
        games: Vec::new(),
        pinned_count: 0,
        games_loaded: false,
        games_pending: false,
        card_ids: Vec::new(),
        art: Vec::new(),
        art_loader: None,
        pending_launch: None,
        launch_ready: None,
        launch_anim: None,
        launch_anim_idx: None,
    };
    assert(r@.games =~= seq![]);
    assert(r@.card_ids =~= seq![]);
    assert(r@.art =~= seq![]);
    r
}

fn no_canvas() -> (r: Canvas)
    ensures
        r@ == AppView::fresh(seq![], arbitrary()).canvas,
{
    let r = Canvas {
        sidebar_dirty: true,
        grid_dirty: true,
        tiles_pending: false,
        grid_cards_dirty: Vec::new(),
        evicted_tiles: Vec::new(),
        grid_reveal_ready: true,
        spinner_frame: None,
        spinner_since: None,
        grid_scroll: 0,
        grid_scroll_target: 0,
        pin_move_anim: None,
    };
    assert(r@.grid_cards_dirty =~= seq![]);
    assert(r@.evicted_tiles =~= seq![]);
    r
}

fn no_pairing() -> (r: Pairing)
    ensures
        r@ == AppView::fresh(seq![], arbitrary()).pairing,
{
    let r = Pairing {
        pin_digits: [0u8, 0u8, 0u8, 0u8],
        pin_digit_index: 0,
        pairing_focus: PairingFocus::Pin,
        pairing_status: None,
        pairing_busy: false,
        pairing_entry: 0,
    };
    assert(r@.pin_digits =~= seq![0u8, 0u8, 0u8, 0u8]);
    r
}

impl App {
    fn fresh(known_hosts: Vec<KnownHost>, settings: Settings) -> (r: App)
        ensures
            r@ == AppView::fresh(views(known_hosts@), settings),
    {
        let r = App {
            nav: Nav {
                screen: Screen::Home,
                last_screen: Screen::Home,
                home_focus: HomeFocus::Sidebar(0),
                hover_close: false,
                modal_fade: ModalFade::new(),
                focus_anim: None,
                modal_focus_anim: None,
                switch_anim: None,
            },
            hosts: no_hosts(known_hosts),
            shelf: no_shelf(),
            home_status: None,
            prefs: Prefs {
                settings,
                settings_focused: 0,
                scroll: ScrollWindow::new(),
                settings_scroll: ScrollWindow::new(),
                content_window: ContentWindow::new(),
                dropdown: None,
                dropdown_fade: DropdownFade { opened_at: None, closing: None },
                experimental_focused: 0,
                diagnostics_focused: 0,
            },
            menu: Menu {
                host_menu_index: None,
                host_menu_focused: 1,
                menu_focused: 0,
                host_menu_dots: false,
                wake_settings_focused: 0,
                edit_host_index: None,
            },
            speed: Speed {
                speed_test: None,
                speed_test_running: false,
                speed_test_focused: 0,
                speed_test_name: String::new(),
            },
            pairing: no_pairing(),
            wake: None,
            canvas: no_canvas(),
            tiles: TileCache::new(),
            outbox: Vec::new(),
        };
        assert(r@.outbox =~= seq![]);
        assert(r@.speed.speed_test_name =~= seq![]);
        r
    }

    /// A menu with these saved hosts and settings. The host that was selected last is selected
    /// again if it is still saved and paired.
    pub fn new(
        known_hosts: Vec<KnownHost>,
        settings: Settings,
        selected: Option<(String, u16)>,
    ) -> (r: App)
        ensures
            r@ == AppView::started(
                views(known_hosts@),
                settings,
                crate::app::pair_view(selected),
            ),
    {
        let mut app = App::fresh(known_hosts, settings);
        match selected {
            None => {},
            Some((host, port)) => {
                let i: usize = find_paired(&app.hosts.known_hosts, host.as_str(), port);
                if i < app.hosts.known_hosts.len() {
                    let h = app.hosts.known_hosts[i].host.clone();
                    let p: u16 = app.hosts.known_hosts[i].port;
                    let mgmt = app.hosts.known_hosts[i].mgmt_port;
                    app.select_host(h, p, mgmt);
                }
            },
        }
        app
    }
}

/// A host is listed once however often it is announced.
pub proof fn law_announced_twice(s: AppView, f: DiscoveredView)
    ensures
        !s.host_found(f).gives_row(f),
{
    let t = s.host_found(f);
    if s.gives_row(f) {
        assert(is_row_of(t.hosts.entries[s.hosts.entries.len() as int], f));
    } else if s.teaches_mac(f) {
        let i = host_index(s.hosts.known_hosts, f.addr, f.port);
        reveal(host_index);
        assert(crate::store::host_keys(t.hosts.known_hosts) =~= crate::store::host_keys(
            s.hosts.known_hosts,
        ));
    }
}

/// Announcements add rows and never take one away.
pub proof fn law_announcements_keep_rows(s: AppView, fs: Seq<DiscoveredView>, n: int)
    requires
        0 <= n,
    ensures
        s.hosts.entries.len() <= s.hosts_found(fs, n).hosts.entries.len(),
        s.hosts_found(fs, n).hosts.entries.take(s.hosts.entries.len() as int) == s.hosts.entries,
    decreases n,
{
    let rows = s.hosts.entries;
    if n > 0 {
        law_announcements_keep_rows(s, fs, n - 1);
        let before = s.hosts_found(fs, n - 1).hosts.entries;
        let after = s.hosts_found(fs, n).hosts.entries;
        assert(after.take(rows.len() as int) =~= before.take(rows.len() as int));
    } else {
        assert(rows.take(rows.len() as int) =~= rows);
    }
}

impl AppView {
    /// Each discovered host has one row, and none that is saved has one besides its own.
    pub open spec fn rows_distinct(self) -> bool {
        &&& forall|i: int, j: int|
            #![trigger self.hosts.entries[i], self.hosts.entries[j]]
            0 <= i < j < self.hosts.entries.len() && self.hosts.entries[j] is Discovered
                ==> !is_row_of(self.hosts.entries[i], self.hosts.entries[j]->Discovered_0)
        &&& forall|i: int|
            0 <= i < self.hosts.entries.len() ==> ((#[trigger] self.hosts.entries[i]) matches
                EntryView::Discovered(d) ==> host_at(self.hosts.known_hosts, d.addr, d.port) is None)
    }

    /// Whether announcement `i` is the first of a host that is neither saved nor listed.
    pub open spec fn is_first_of_new(self, fs: Seq<DiscoveredView>, i: int) -> bool {
        self.gives_row(fs[i]) && forall|j: int|
            0 <= j < i ==> !((#[trigger] fs[j]).addr == fs[i].addr && fs[j].port == fs[i].port)
    }

    /// A row for each new host among the first `n` announcements, in the order that they were
    /// first announced in.
    pub open spec fn new_rows(self, fs: Seq<DiscoveredView>, n: int) -> Seq<EntryView>
        decreases n,
    {
        if n <= 0 {
            seq![]
        } else if self.is_first_of_new(fs, n - 1) {
            self.new_rows(fs, n - 1).push(EntryView::Discovered(fs[n - 1]))
        } else {
            self.new_rows(fs, n - 1)
        }
    }

    /// The wake addresses of saved host `k` after the first `n` announcements: the last that any
    /// of its own announcements told.
    pub open spec fn last_mac(self, fs: Seq<DiscoveredView>, n: int, k: int) -> Seq<Seq<char>>
        decreases n,
    {
        if n <= 0 {
            self.hosts.known_hosts[k].mac
        } else if fs[n - 1].mac.len() > 0 && host_index(
            self.hosts.known_hosts,
            fs[n - 1].addr,
            fs[n - 1].port,
        ) == k {
            fs[n - 1].mac
        } else {
            self.last_mac(fs, n - 1, k)
        }
    }

    /// The saved hosts with what the first `n` announcements told of waking them, and otherwise
    /// as they were.
    pub open spec fn macs_updated(self, fs: Seq<DiscoveredView>, n: int) -> Seq<KnownHostView> {
        Seq::new(
            self.hosts.known_hosts.len(),
            |k: int|
                KnownHostView { mac: self.last_mac(fs, n, k), ..self.hosts.known_hosts[k] },
        )
    }
}

/// Whether an announcement gives a row is a matter of its address.
proof fn lemma_rows_by_address(s: AppView, f: DiscoveredView, g: DiscoveredView)
    requires
        f.addr == g.addr,
        f.port == g.port,
    ensures
        s.gives_row(f) == s.gives_row(g),
{
    if s.has_row(f) {
        let i = choose|i: int|
            0 <= i < s.hosts.entries.len() && #[trigger] is_row_of(s.hosts.entries[i], f);
        assert(is_row_of(s.hosts.entries[i], g));
    }
    if s.has_row(g) {
        let i = choose|i: int|
            0 <= i < s.hosts.entries.len() && #[trigger] is_row_of(s.hosts.entries[i], g);
        assert(is_row_of(s.hosts.entries[i], f));
    }
}

/// The rows that the announcements gave are those of the new hosts among them.
proof fn lemma_new_rows_cover(s: AppView, fs: Seq<DiscoveredView>, n: int, f: DiscoveredView)
    requires
        0 <= n <= fs.len(),
    ensures
        (exists|k: int|
            0 <= k < s.new_rows(fs, n).len() && #[trigger] is_row_of(s.new_rows(fs, n)[k], f)) == (
        s.gives_row(f) && exists|j: int|
            0 <= j < n && (#[trigger] fs[j]).addr == f.addr && fs[j].port == f.port),
    decreases n,
{
    if n > 0 {
        lemma_new_rows_cover(s, fs, n - 1, f);
        let before = s.new_rows(fs, n - 1);
        let rows = s.new_rows(fs, n);
        let g = fs[n - 1];
        let same = g.addr == f.addr && g.port == f.port;
        if exists|k: int| 0 <= k < before.len() && #[trigger] is_row_of(before[k], f) {
            let k = choose|k: int| 0 <= k < before.len() && #[trigger] is_row_of(before[k], f);
            assert(is_row_of(rows[k], f));
        }
        if same && s.gives_row(f) {
            lemma_rows_by_address(s, f, g);
            if s.is_first_of_new(fs, n - 1) {
                assert(is_row_of(rows[before.len() as int], f));
            } else {
                let j = choose|j: int|
                    0 <= j < n - 1 && (#[trigger] fs[j]).addr == g.addr && fs[j].port == g.port;
                assert(fs[j].addr == f.addr);
            }
        }
        if exists|k: int| 0 <= k < rows.len() && #[trigger] is_row_of(rows[k], f) {
            let k = choose|k: int| 0 <= k < rows.len() && #[trigger] is_row_of(rows[k], f);
            if k < before.len() {
                assert(is_row_of(before[k], f));
            } else {
                assert(same);
                lemma_rows_by_address(s, f, g);
                assert(fs[n - 1].addr == f.addr);
            }
        }
    }
}

proof fn lemma_batch(s: AppView, fs: Seq<DiscoveredView>, n: int)
    requires
        0 <= n <= fs.len(),
        s.rows_distinct(),
    ensures
        ({
            let t = s.hosts_found(fs, n);
            &&& t.rows_distinct()
            &&& t.hosts.entries == s.hosts.entries + s.new_rows(fs, n)
            &&& t.hosts.known_hosts == s.macs_updated(fs, n)
            &&& s.rows_found(fs, n) <==> s.new_rows(fs, n).len() > 0
        }),
    decreases n,
{
    if n > 0 {
        lemma_batch(s, fs, n - 1);
        let before = s.hosts_found(fs, n - 1);
        let t = s.hosts_found(fs, n);
        let f = fs[n - 1];
        reveal(host_index);
        assert(crate::store::host_keys(before.hosts.known_hosts) =~= crate::store::host_keys(
            s.hosts.known_hosts,
        ));
        lemma_new_rows_cover(s, fs, n - 1, f);
        let rows = s.new_rows(fs, n - 1);
        let old_len = s.hosts.entries.len() as int;
        assert(before.has_row(f) == (s.has_row(f) || exists|k: int|
            0 <= k < rows.len() && #[trigger] is_row_of(rows[k], f))) by {
            if before.has_row(f) {
                let i = choose|i: int|
                    0 <= i < before.hosts.entries.len() && #[trigger] is_row_of(
                        before.hosts.entries[i],
                        f,
                    );
                if i < old_len {
                    assert(is_row_of(s.hosts.entries[i], f));
                } else {
                    assert(is_row_of(rows[i - old_len], f));
                }
            }
            if s.has_row(f) {
                let i = choose|i: int|
                    0 <= i < s.hosts.entries.len() && #[trigger] is_row_of(s.hosts.entries[i], f);
                assert(is_row_of(before.hosts.entries[i], f));
            }
            if exists|k: int| 0 <= k < rows.len() && #[trigger] is_row_of(rows[k], f) {
                let k = choose|k: int| 0 <= k < rows.len() && #[trigger] is_row_of(rows[k], f);
                assert(is_row_of(before.hosts.entries[old_len + k], f));
            }
        }
        assert(before.gives_row(f) == s.is_first_of_new(fs, n - 1));
        assert(t.hosts.entries =~= s.hosts.entries + s.new_rows(fs, n));
        assert(t.hosts.known_hosts =~= s.macs_updated(fs, n));
        assert(crate::store::host_keys(t.hosts.known_hosts) =~= crate::store::host_keys(
            s.hosts.known_hosts,
        ));
        assert(t.rows_distinct()) by {
            assert forall|i: int, j: int|
                #![trigger t.hosts.entries[i], t.hosts.entries[j]]
                0 <= i < j < t.hosts.entries.len()
                    && t.hosts.entries[j] is Discovered implies !is_row_of(
                t.hosts.entries[i],
                t.hosts.entries[j]->Discovered_0,
            ) by {
                if j < before.hosts.entries.len() {
                    assert(t.hosts.entries[i] == before.hosts.entries[i]);
                    assert(t.hosts.entries[j] == before.hosts.entries[j]);
                } else {
                    assert(t.hosts.entries[i] == before.hosts.entries[i]);
                }
            }
        }
    } else {
        assert(s.hosts.entries + s.new_rows(fs, n) =~= s.hosts.entries);
        assert(s.macs_updated(fs, n) =~= s.hosts.known_hosts);
    }
}

/// However many announcements come at once, and of whatever hosts: each new host gets one row,
/// behind those that were there, and no host gets two; every saved host keeps all but its wake
/// addresses, which become those that it told last, if it told any. The sidebar changes exactly
/// where a row came.
pub proof fn law_announcements_taken(s: AppView, fs: Seq<DiscoveredView>)
    requires
        s.rows_distinct(),
        s.wake is None,
    ensures
        s.discovery_taken(fs).rows_distinct(),
        s.discovery_taken(fs).hosts.entries == s.hosts.entries + s.new_rows(fs, fs.len() as int),
        s.discovery_taken(fs).hosts.known_hosts == s.macs_updated(fs, fs.len() as int),
        s.discovery_changes(fs) <==> s.new_rows(fs, fs.len() as int).len() > 0,
{
    let n = fs.len() as int;
    lemma_batch(s, fs, n);
    lemma_none_awaited(s, fs, n);
    assert(s.discovery_taken(fs).hosts == s.hosts_found(fs, n).hosts);
}

proof fn lemma_none_awaited(s: AppView, fs: Seq<DiscoveredView>, n: int)
    requires
        s.wake is None,
    ensures
        s.awaited(fs, n) is None,
    decreases n,
{
    if n > 0 {
        lemma_none_awaited(s, fs, n - 1);
    }
}

/// Covers that arrived stay, and those that were held are kept.
proof fn lemma_covers_held(s: AppView, ids: Seq<Seq<char>>, columns: int, n: int, id: Seq<char>)
    requires
        0 <= n <= ids.len(),
        s.shelf.art.contains(id) || ids.take(n).contains(id),
    ensures
        s.covers_arrived(ids, columns, n).shelf.art.contains(id),
    decreases n,
{
    if n > 0 {
        let before = s.covers_arrived(ids, columns, n - 1).shelf.art;
        let after = s.covers_arrived(ids, columns, n).shelf.art;
        if ids[n - 1] == id {
            if !before.contains(id) {
                assert(after[before.len() as int] == id);
            }
        } else {
            if ids.take(n).contains(id) {
                let k = choose|k: int| 0 <= k < n && ids.take(n)[k] == id;
                assert(ids.take(n - 1)[k] == id);
            }
            lemma_covers_held(s, ids, columns, n - 1, id);
            let k = choose|k: int| 0 <= k < before.len() && before[k] == id;
            assert(after[k] == id);
        }
    } else {
        assert(ids.take(n).len() == 0);
    }
}

/// Once the cover of a game has come in, the game's card shows it; no other card loses its own,
/// and every card keeps its title and its cell.
pub proof fn law_arrived_cover_is_shown(
    s: AppView,
    ids: Seq<Seq<char>>,
    columns: int,
    idx: int,
    g: usize,
)
    requires
        s.shelf.art_loader is Some,
        s.card_at(idx, columns) == Some(GridCard::Game(g)),
    ensures
        s.art_taken(ids, columns).card_at(idx, columns) == s.card_at(idx, columns),
        s.art_taken(ids, columns).card_content(idx, columns).0 == s.card_content(idx, columns).0,
        ids.contains(s.shelf.games[g as int].id) || s.card_content(idx, columns).1 is Some
            ==> s.art_taken(ids, columns).card_content(idx, columns).1 == Some(
            s.shelf.games[g as int].id,
        ),
{
    let id = s.shelf.games[g as int].id;
    lemma_covers_same_layout(s, ids, columns, ids.len() as int);
    assert(ids.take(ids.len() as int) =~= ids);
    if s.shelf.art.contains(id) || ids.contains(id) {
        lemma_covers_held(s, ids, columns, ids.len() as int, id);
    }
}

/// A host that is not paired, or no longer saved, is not selected at the start.
pub proof fn law_unpaired_not_restored(
    hosts: Seq<KnownHostView>,
    settings: Settings,
    host: Seq<char>,
    port: u16,
)
    requires
        forall|i: int|
            0 <= i < hosts.len() ==> !((#[trigger] hosts[i]).host == host && hosts[i].port == port
                && hosts[i].fingerprint is Some),
    ensures
        AppView::started(hosts, settings, Some((host, port))).hosts.selected_host is None,
{
    lemma_paired_index(hosts, host, port, hosts.len() as int);
}

/// One announcement does one thing: of a host that is neither saved nor listed it adds a row, at
/// the end; of a saved host it takes over how to wake it, where it tells that and the record says
/// otherwise; any other changes nothing.
pub proof fn law_announcement_does_one_thing(s: AppView, f: DiscoveredView)
    ensures
        ({
            let t = s.host_found(f);
            let known = host_at(s.hosts.known_hosts, f.addr, f.port);
            let listed = exists|i: int|
                0 <= i < s.hosts.entries.len() && (#[trigger] s.hosts.entries[i] matches
                    EntryView::Discovered(d) && d.addr == f.addr && d.port == f.port);
            &&& known is None && !listed ==> t.hosts.entries == s.hosts.entries.push(
                EntryView::Discovered(f),
            ) && t.hosts.known_hosts == s.hosts.known_hosts
            &&& known is Some && f.mac.len() > 0 && known->0.mac != f.mac ==> t.hosts.entries
                == s.hosts.entries && t.hosts.known_hosts == s.hosts.known_hosts.update(
                host_index(s.hosts.known_hosts, f.addr, f.port),
                KnownHostView { mac: f.mac, ..known->0 },
            )
            &&& !(known is None && !listed) && !(known is Some && f.mac.len() > 0 && known->0.mac
                != f.mac) ==> t == s
            &&& t.outbox == s.outbox && t.nav == s.nav && t.hosts.selected_host
                == s.hosts.selected_host
        }),
{
    assert(forall|i: int|
        0 <= i < s.hosts.entries.len() ==> (is_row_of(#[trigger] s.hosts.entries[i], f) == (
        s.hosts.entries[i] matches EntryView::Discovered(d) && d.addr == f.addr && d.port
            == f.port)));
    let listed = exists|i: int|
        0 <= i < s.hosts.entries.len() && (#[trigger] s.hosts.entries[i] matches
            EntryView::Discovered(d) && d.addr == f.addr && d.port == f.port);
    if s.has_row(f) {
        let i = choose|i: int|
            0 <= i < s.hosts.entries.len() && #[trigger] is_row_of(s.hosts.entries[i], f);
        assert(s.hosts.entries[i] matches EntryView::Discovered(d) && d.addr == f.addr && d.port
            == f.port);
        assert(listed);
    }
    if listed {
        let i = choose|i: int|
            0 <= i < s.hosts.entries.len() && (#[trigger] s.hosts.entries[i] matches
                EntryView::Discovered(d) && d.addr == f.addr && d.port == f.port);
        assert(is_row_of(s.hosts.entries[i], f));
        assert(s.has_row(f));
    }
}

/// A host that is being woken and announces itself is back: it is selected and asked for its
/// library, and the wake is over. What was learned of waking a host is stored.
pub proof fn law_announced_host_is_back(s: AppView, f: DiscoveredView)
    ensures
        ({
            let t = s.discovery_taken(seq![f]);
            let back = s.wake matches Some(w) && w.host == f.addr && w.port == f.port;
            let known = host_at(s.hosts.known_hosts, f.addr, f.port);
            let learned = known is Some && f.mac.len() > 0 && known->0.mac != f.mac;
            &&& back ==> t.wake is None && t.hosts.selected_host == Some((f.addr, f.port))
                && t.nav.screen == Screen::Home && t.outbox.last() is FetchGames
                && t.canvas.sidebar_dirty
            &&& !back ==> t.wake == s.wake && t.hosts.selected_host == s.hosts.selected_host && t.nav
                == s.nav
            &&& !back && learned ==> t.outbox == s.outbox.push(CommandView::SaveKnownHosts)
            &&& !back && !learned ==> t.outbox == s.outbox
            &&& t.hosts.known_hosts == s.host_found(f).hosts.known_hosts
            &&& t.hosts.entries == s.host_found(f).hosts.entries
        }),
{
    let fs = seq![f];
    assert(fs[0] == f);
    assert(s.hosts_found(fs, 0) == s);
    assert(s.hosts_found(fs, 1) == s.host_found(f));
    assert(s.macs_found(fs, 1) == s.teaches_mac(f)) by {
        assert(!s.macs_found(fs, 0));
    }
    assert(s.awaited(fs, 0) is None);
    assert(s.awaited(fs, 1) == if s.is_awaited(f) {
        Some(f)
    } else {
        None
    });
    assert(fs.len() == 1);
}

/// The menu starts at Home with a row for every saved host, nothing asked for but the library of
/// the host that was selected last, which is selected again if it is saved and paired.
pub proof fn law_menu_starts_where_it_was_left(
    hosts: Seq<KnownHostView>,
    settings: Settings,
    selected: Option<(Seq<char>, u16)>,
    i: int,
)
    requires
        0 <= i < hosts.len(),
    ensures
        ({
            let t = AppView::started(hosts, settings, selected);
            &&& t.nav.screen == Screen::Home && t.prefs.settings == settings
            &&& t.hosts.known_hosts == hosts && t.hosts.entries.len() == hosts.len()
            &&& t.hosts.entries[i] == EntryView::Known(hosts[i])
            &&& selected is None ==> t.hosts.selected_host is None && t.outbox.len() == 0
                && t.nav.home_focus == HomeFocus::Sidebar(0)
            &&& selected matches Some((h, p)) ==> (hosts[i].host == h && hosts[i].port == p
                && hosts[i].fingerprint is Some ==> t.hosts.selected_host == Some((h, p))
                && t.outbox.last() is FetchGames && t.nav.home_focus == HomeFocus::Grid(0))
            &&& t.wake is None && !t.pairing.pairing_busy && t.home_status is Some
                == t.hosts.selected_host is Some
        }),
{
    crate::store::lemma_known_entries(hosts);
    if let Some((h, p)) = selected {
        lemma_paired_found(hosts, h, p, i);
    }
}

proof fn lemma_paired_found(hosts: Seq<KnownHostView>, host: Seq<char>, port: u16, i: int)
    requires
        0 <= i < hosts.len(),
    ensures
        ({
            let k = paired_index(hosts, host, port);
            &&& 0 <= k <= hosts.len()
            &&& k < hosts.len() ==> hosts[k].host == host && hosts[k].port == port
                && hosts[k].fingerprint is Some
            &&& hosts[i].host == host && hosts[i].port == port && hosts[i].fingerprint is Some ==> k
                <= i
        }),
    decreases hosts.len(),
{
    let rest = hosts.drop_first();
    if rest.len() > 0 {
        lemma_paired_found(
            rest,
            host,
            port,
            if i > 0 {
                i - 1
            } else {
                0
            },
        );
        if i > 0 {
            assert(rest[i - 1] == hosts[i]);
        }
        let k = paired_index(rest, host, port);
        if k < rest.len() {
            assert(rest[k] == hosts[k + 1]);
        }
    } else {
        assert(paired_index(rest, host, port) == 0);
    }
}

/// A cover that came in is held from then on, once, and makes its own card stale and no other.
pub proof fn law_cover_is_held_once(s: AppView, id: Seq<char>, columns: int)
    ensures
        ({
            let t = s.cover_arrived(id, columns);
            &&& t.shelf.art.contains(id)
            &&& s.shelf.art.contains(id) ==> t.shelf.art == s.shelf.art
            &&& !s.shelf.art.contains(id) ==> t.shelf.art == s.shelf.art.push(id)
            &&& match s.layout(columns).cell_of(s.shelf.games, id) {
                Some(idx) => t.canvas.grid_cards_dirty == s.canvas.grid_cards_dirty.push(
                    idx as usize,
                ),
                None => t.canvas.grid_cards_dirty == s.canvas.grid_cards_dirty,
            }
            &&& t.canvas.grid_dirty == s.canvas.grid_dirty && t.shelf.games == s.shelf.games
            &&& t.outbox == s.outbox && t.nav == s.nav && t.hosts == s.hosts
        }),
{
    if !s.shelf.art.contains(id) {
        assert(s.shelf.art.push(id)[s.shelf.art.len() as int] == id);
    }
}

} // verus!
