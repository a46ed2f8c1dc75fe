//! Choosing a host, taking in its library, and starting a stream.
use vstd::prelude::*;

use crate::app::grid::{game_ids, ids_of, GridCard};
use crate::app::order::{by_title, pulled, reorder_by_pins, sort_by_title};
use crate::app::{
    App, AppView, CanvasView, Command, CommandView, ConnectTarget, HomeFocus, HostsView, Nav,
    PendingLaunch, PendingView, ShelfView, TargetView,
};
use crate::art::{ArtLoader, ArtLoaderView};
use crate::library::{
    library_error_text, GameEntry, GameView, GamesLoaded, LibraryError, DEFAULT_MGMT_PORT,
};
use crate::seqs::{clone_strings, opt_view, views};
use crate::store::{
    find_host, host_at, known_entries, lemma_known_entries, remove_host, rows_of, without_host,
    EntryView, HostEntry, KnownHost, KnownHostView,
};
use crate::text::{join3, lowercase_of};

verus! {

broadcast use crate::seqs::group_views;

pub const LOADING_HEAD: &'static str = "Loading library from ";

pub const ELLIPSIS: &'static str = "…";

/// The management port to use where `p` is what is on record.
pub open spec fn port_or_default(p: Option<u16>) -> u16 {
    match p {
        Some(p) => p,
        None => DEFAULT_MGMT_PORT,
    }
}

/// The name of the host at this address, or the address where it is not saved.
pub open spec fn name_of(hosts: Seq<KnownHostView>, host: Seq<char>, port: u16) -> Seq<char> {
    match host_at(hosts, host, port) {
        Some(h) => h.name,
        None => host,
    }
}

/// The pinned fingerprint of the host at this address.
pub open spec fn fingerprint_of(hosts: Seq<KnownHostView>, host: Seq<char>, port: u16) -> Option<
    [u8; 32],
> {
    match host_at(hosts, host, port) {
        Some(h) => h.fingerprint,
        None => None,
    }
}

impl AppView {
    /// The saved record of the selected host.
    pub open spec fn selected_known(self) -> Option<KnownHostView> {
        match self.hosts.selected_host {
            Some((h, p)) => host_at(self.hosts.known_hosts, h, p),
            None => None,
        }
    }

    /// After choosing the host at this address: its library is asked for, and nothing of the
    /// former library stays.
    pub open spec fn host_selected(self, host: Seq<char>, port: u16, mgmt_port: Option<u16>) -> AppView {
        AppView {
            nav: Nav { home_focus: HomeFocus::Grid(0), ..self.nav },
            hosts: HostsView { selected_host: Some((host, port)), ..self.hosts },
            shelf: ShelfView {
                games: seq![],
                pinned_count: 0,
                games_loaded: false,
                games_pending: true,
                card_ids: seq![],
                art: seq![],
                art_loader: None,
                ..self.shelf
            },
            canvas: CanvasView {
                sidebar_dirty: true,
                grid_dirty: true,
                grid_scroll: 0,
                grid_scroll_target: 0,
                ..self.canvas
            },
            ..self
        }.saying(
            LOADING_HEAD@ + name_of(self.hosts.known_hosts, host, port) + ELLIPSIS@,
        ).asking(CommandView::SaveSelectedHost { host, port }).asking(CommandView::StopArt).asking(
            CommandView::FetchGames {
                host,
                port,
                mgmt_port: port_or_default(mgmt_port),
                fingerprint: fingerprint_of(self.hosts.known_hosts, host, port),
            },
        )
    }
}

/// The management port to use where `p` is what is on record.
pub fn or_default(p: Option<u16>) -> (r: u16)
    ensures
        r == port_or_default(p),
{
    match p {
        Some(p) => p,
        None => DEFAULT_MGMT_PORT,
    }
}

/// The name of the host at this address, or the address where it is not saved.
pub fn host_name(hosts: &Vec<KnownHost>, host: &str, port: u16) -> (r: String)
    ensures
        r@ == name_of(views(hosts@), host@, port),
{
    match find_host(hosts, host, port) {
        Some(i) => hosts[i].name.clone(),
        None => host.to_owned(),
    }
}

/// The pinned fingerprint of the host at this address.
pub fn host_fingerprint(hosts: &Vec<KnownHost>, host: &str, port: u16) -> (r: Option<[u8; 32]>)
    ensures
        r == fingerprint_of(views(hosts@), host@, port),
{
    match find_host(hosts, host, port) {
        Some(i) => hosts[i].fingerprint,
        None => None,
    }
}

impl App {
    /// Makes the host at this address the selected one and asks for its library.
    pub fn select_host(&mut self, host: String, port: u16, mgmt_port: Option<u16>)
        ensures
            final(self)@ == old(self)@.host_selected(host@, port, mgmt_port),
    {
        self.outbox.push(Command::SaveSelectedHost { host: host.clone(), port });
        self.hosts.selected_host = Some((host.clone(), port));
        let name = host_name(&self.hosts.known_hosts, host.as_str(), port);
        self.home_status = Some(join3(LOADING_HEAD, name.as_str(), ELLIPSIS));
        self.shelf.games = Vec::new();
        self.shelf.pinned_count = 0;
        self.shelf.games_loaded = false;
        self.shelf.card_ids = Vec::new();
        self.shelf.art = Vec::new();
        self.shelf.art_loader = None;
        self.outbox.push(Command::StopArt);
        self.nav.home_focus = HomeFocus::Grid(0);
        self.canvas.sidebar_dirty = true;
        self.canvas.grid_dirty = true;
        self.canvas.grid_scroll = 0;
        self.canvas.grid_scroll_target = 0;
        let fingerprint = host_fingerprint(&self.hosts.known_hosts, host.as_str(), port);
        let mgmt_port: u16 = or_default(mgmt_port);
        self.outbox.push(Command::FetchGames { host, port, mgmt_port, fingerprint });
        self.shelf.games_pending = true;
    }
}

pub const CHECKING_HEAD: &'static str =
    "Checking the host is still reachable before starting ";

pub const STARTING_HEAD: &'static str = "Starting ";

pub const DESKTOP_TITLE: &'static str = "Desktop";

/// The pins of the host that is selected.
pub open spec fn pins_of(known: Option<KnownHostView>) -> Seq<Seq<char>> {
    match known {
        Some(h) => h.pinned,
        None => seq![],
    }
}

/// The Wake-on-LAN addresses of the host at this address.
pub open spec fn macs_of_host(hosts: Seq<KnownHostView>, host: Seq<char>, port: u16) -> Seq<
    Seq<char>,
> {
    match host_at(hosts, host, port) {
        Some(h) => h.mac,
        None => seq![],
    }
}

impl AppView {
    /// The same state with every card stale.
    pub open spec fn grid_stale(self) -> AppView {
        AppView { canvas: CanvasView { grid_dirty: true, ..self.canvas }, ..self }
    }

    /// The same state with this library, the pinned games in front.
    pub open spec fn shelved(self, games: Seq<GameView>) -> AppView {
        let (front, rest) = pulled(games, pins_of(self.selected_known()));
        AppView {
            shelf: ShelfView {
                games: front + rest,
                pinned_count: front.len() as usize,
                ..self.shelf
            },
            ..self
        }
    }

    /// After a host could not give its library: one that did not answer is woken, any other
    /// failure is a line of text beside the desktop card.
    pub open spec fn library_failed(
        self,
        host: Seq<char>,
        port: u16,
        e: LibraryError,
        now: u64,
    ) -> AppView {
        if e is Unreachable {
            self.wake_started(
                host,
                port,
                macs_of_host(self.hosts.known_hosts, host, port),
                library_error_text(e),
                now,
            )
        } else {
            AppView { shelf: ShelfView { games_loaded: true, ..self.shelf }, ..self }.saying(
                library_error_text(e),
            )
        }
    }

    /// After the answer to a library fetch.
    pub open spec fn games_taken(self, loaded: GamesLoaded, now: u64) -> AppView {
        let s = AppView { shelf: ShelfView { games_pending: false, ..self.shelf }, ..self };
        match loaded.result {
            Ok(games) => AppView {
                shelf: ShelfView {
                    games_loaded: true,
                    card_ids: game_ids(by_title(views(games@))),
                    art_loader: Some(ArtLoaderView::fresh()),
                    ..s.shelf
                },
                ..s
            }.silent().shelved(by_title(views(games@))).asking(
                CommandView::StartArt {
                    host: loaded.host@,
                    port: loaded.port,
                    mgmt_port: loaded.mgmt_port,
                    fingerprint: fingerprint_of(
                        self.hosts.known_hosts,
                        loaded.host@,
                        loaded.port,
                    ),
                },
            ).grid_stale(),
            Err(e) => s.library_failed(loaded.host@, loaded.port, e, now).grid_stale(),
        }
    }

    /// What confirming the card in cell `idx` would launch: its id and its title.
    pub open spec fn launch_of(self, idx: int, columns: int) -> Option<
        (Option<Seq<char>>, Seq<char>),
    > {
        match self.card_at(idx, columns) {
            None => None,
            Some(GridCard::Desktop) => Some((None, DESKTOP_TITLE@)),
            Some(GridCard::Game(g)) => Some(
                (Some(self.shelf.games[g as int].id), self.shelf.games[g as int].title),
            ),
        }
    }

    /// After confirming the card in cell `idx`: the host is looked at first. Nothing happens while
    /// another card is being started, for a host that is not paired, or on an empty cell.
    pub open spec fn card_confirmed(self, idx: usize, columns: int) -> AppView {
        match (self.shelf.pending_launch, self.selected_known(), self.launch_of(
            idx as int,
            columns,
        )) {
            (None, Some(known), Some((launch, title))) => match known.fingerprint {
                Some(pin) => AppView {
                    shelf: ShelfView {
                        pending_launch: Some(
                            PendingView {
                                host: known.host,
                                port: known.port,
                                fingerprint: pin,
                                launch,
                                title,
                                idx,
                            },
                        ),
                        ..self.shelf
                    },
                    ..self
                }.saying(CHECKING_HEAD@ + title + ELLIPSIS@).asking(
                    CommandView::CheckLaunch {
                        host: known.host,
                        port: known.port,
                        mgmt_port: port_or_default(known.mgmt_port),
                        pin,
                    },
                ),
                None => self,
            },
            _ => self,
        }
    }

    /// After the look at the host of a card that was confirmed: the stream is ready to start,
    /// unless another host has been selected since.
    pub open spec fn launch_checked(
        self,
        pending: PendingView,
        result: Result<Vec<GameEntry>, LibraryError>,
        now: u64,
    ) -> AppView {
        let s = AppView { shelf: ShelfView { pending_launch: None, ..self.shelf }, ..self };
        let after = match result {
            Ok(_) => if self.hosts.selected_host == Some((pending.host, pending.port)) {
                AppView {
                    shelf: ShelfView {
                        launch_anim_idx: Some(pending.idx),
                        launch_ready: Some(
                            TargetView {
                                host: pending.host,
                                port: pending.port,
                                fingerprint: pending.fingerprint,
                                launch: pending.launch,
                            },
                        ),
                        ..s.shelf
                    },
                    ..s
                }.saying(STARTING_HEAD@ + pending.title + ELLIPSIS@)
            } else {
                s
            },
            Err(e) => s.library_failed(pending.host, pending.port, e, now),
        };
        after.sidebar_stale()
    }

    /// The focus, brought back onto the sidebar where its row is gone.
    pub open spec fn refocused(self) -> AppView {
        match self.nav.home_focus {
            HomeFocus::Sidebar(i) => if i >= self.hosts.entries.len() + 2 {
                self.focused(HomeFocus::Sidebar((self.hosts.entries.len() + 1) as usize))
            } else {
                self
            },
            _ => self,
        }
    }

    /// The same state with the host at this address selected.
    pub open spec fn selecting(self, host: Seq<char>, port: u16) -> AppView {
        AppView { hosts: HostsView { selected_host: Some((host, port)), ..self.hosts }, ..self }
    }

    /// With no host selected, and nothing left of its library.
    pub open spec fn deselected(self) -> AppView {
        AppView {
            hosts: HostsView { selected_host: None, ..self.hosts },
            shelf: ShelfView { games: seq![], games_loaded: false, ..self.shelf },
            ..self
        }.silent().focused(HomeFocus::Sidebar(0))
    }

    /// After forgetting the host in row `idx`; a row that is only discovered stays.
    pub open spec fn host_forgotten(self, idx: int) -> AppView {
        match self.hosts.entries[idx] {
            EntryView::Discovered(_) => self,
            EntryView::Known(h) => {
                let s = self.with_hosts(
                    without_host(self.hosts.known_hosts, h.host, h.port),
                ).asking(CommandView::ClearArtCache { host: h.host, port: h.port }).asking(
                    CommandView::SaveKnownHosts,
                );
                let cleared = if self.hosts.selected_host == Some((h.host, h.port)) {
                    s.deselected()
                } else {
                    s
                };
                cleared.refocused().sidebar_stale().grid_stale()
            },
        }
    }
}

impl App {
    /// Moves the pinned games of the selected host to the front.
    pub fn reorder_games_by_pin(&mut self)
        ensures
            final(self)@ == old(self)@.shelved(old(self)@.shelf.games),
    {
        let pins: Vec<String> = match self.selected_known_host() {
            Some(i) => clone_strings(&self.hosts.known_hosts[i].pinned),
            None => Vec::new(),
        };
        let count: usize = reorder_by_pins(&mut self.shelf.games, &pins);
        self.shelf.pinned_count = count;
    }

    /// Handles a host that could not give its library.
    pub fn handle_library_error(&mut self, host: String, port: u16, e: LibraryError, now: u64)
        ensures
            final(self)@ == old(self)@.library_failed(host@, port, e, now),
    {
        let reason = e.message();
        match e {
            LibraryError::Unreachable(_) => {
                let mac: Vec<String> = match find_host(
                    &self.hosts.known_hosts,
                    host.as_str(),
                    port,
                ) {
                    Some(i) => clone_strings(&self.hosts.known_hosts[i].mac),
                    None => Vec::new(),
                };
                self.start_wake(host, port, mac, reason, now);
            },
            _ => {
                self.shelf.games_loaded = true;
                self.home_status = Some(reason);
            },
        }
    }

    /// Takes in the answer to a library fetch, where one has come. Returns whether anything
    /// changed.
    pub fn drain_games(&mut self, loaded: Option<GamesLoaded>, now: u64) -> (changed: bool)
        ensures
            changed == (old(self)@.shelf.games_pending && loaded is Some),
            final(self)@ == (if changed {
                old(self)@.games_taken(loaded->0, now)
            } else {
                old(self)@
            }),
    {
        if !self.shelf.games_pending {
            return false;
        }
        let loaded = match loaded {
            None => {
                return false;
            },
            Some(l) => l,
        };
        self.shelf.games_pending = false;
        match loaded.result {
            Ok(games) => {
                let fingerprint = host_fingerprint(
                    &self.hosts.known_hosts,
                    loaded.host.as_str(),
                    loaded.port,
                );
                self.outbox.push(
                    Command::StartArt {
                        host: loaded.host,
                        port: loaded.port,
                        mgmt_port: loaded.mgmt_port,
                        fingerprint,
                    },
                );
                self.shelf.art_loader = Some(ArtLoader::spawn());
                self.shelf.games = sort_by_title(games);
                self.shelf.card_ids = ids_of(&self.shelf.games);
                self.shelf.games_loaded = true;
                self.home_status = None;
                self.reorder_games_by_pin();
            },
            Err(e) => {
                self.handle_library_error(loaded.host, loaded.port, e, now);
            },
        }
        self.canvas.grid_dirty = true;
        true
    }

    /// Confirms the card in cell `idx`: asks whether its host still answers.
    pub fn confirm_grid_card(&mut self, idx: usize, columns: usize)
        requires
            old(self)@.sized(columns as int),
        ensures
            final(self)@ == old(self)@.card_confirmed(idx, columns as int),
    {
        if self.shelf.pending_launch.is_some() {
            return ;
        }
        let at: usize = match self.selected_known_host() {
            None => {
                return ;
            },
            Some(i) => i,
        };
        let fingerprint = match self.hosts.known_hosts[at].fingerprint {
            None => {
                return ;
            },
            Some(f) => f,
        };
        let (launch, title) = match self.grid_card_at(idx, columns) {
            None => {
                return ;
            },
            Some(GridCard::Desktop) => (None, DESKTOP_TITLE.to_owned()),
            Some(GridCard::Game(g)) => (
                Some(self.shelf.games[g].id.clone()),
                self.shelf.games[g].title.clone(),
            ),
        };
        let host = self.hosts.known_hosts[at].host.clone();
        let port: u16 = self.hosts.known_hosts[at].port;
        let mgmt_port: u16 = or_default(self.hosts.known_hosts[at].mgmt_port);
        self.home_status = Some(join3(CHECKING_HEAD, title.as_str(), ELLIPSIS));
        self.outbox.push(
            Command::CheckLaunch { host: host.clone(), port, mgmt_port, pin: fingerprint },
        );
        self.shelf.pending_launch = Some(
            PendingLaunch { host, port, fingerprint, launch, title, idx },
        );
    }

    /// Takes in whether the host of a confirmed card still answers, where that is known. Returns
    /// whether anything changed.
    pub fn drain_launch_check(
        &mut self,
        result: Option<Result<Vec<GameEntry>, LibraryError>>,
        now: u64,
    ) -> (changed: bool)
        ensures
            changed == (old(self)@.shelf.pending_launch is Some && result is Some),
            final(self)@ == (if changed {
                old(self)@.launch_checked(old(self)@.shelf.pending_launch->0, result->0, now)
            } else {
                old(self)@
            }),
    {
        let result = match result {
            None => {
                return false;
            },
            Some(r) => r,
        };
        let pending = match self.shelf.pending_launch.take() {
            None => {
                return false;
            },
            Some(p) => p,
        };
        match result {
            Ok(_) => {
                let same = match &self.hosts.selected_host {
                    Some((h, p)) => *p == pending.port && *h == pending.host,
                    None => false,
                };
                if same {
                    self.home_status = Some(
                        join3(STARTING_HEAD, pending.title.as_str(), ELLIPSIS),
                    );
                    self.shelf.launch_anim_idx = Some(pending.idx);
                    self.shelf.launch_ready = Some(
                        ConnectTarget {
                            host: pending.host,
                            port: pending.port,
                            fingerprint: pending.fingerprint,
                            launch: pending.launch,
                        },
                    );
                }
            },
            Err(e) => {
                self.handle_library_error(pending.host, pending.port, e, now);
            },
        }
        self.canvas.sidebar_dirty = true;
        true
    }

    /// Takes the target of a launch that is ready.
    pub fn take_ready_launch(&mut self) -> (r: Option<ConnectTarget>)
        ensures
            opt_view(r) == old(self)@.shelf.launch_ready,
            final(self)@ == (AppView {
                shelf: ShelfView { launch_ready: None, ..old(self)@.shelf },
                ..old(self)@
            }),
    {
        self.shelf.launch_ready.take()
    }

    /// Leaves no host selected.
    pub fn clear_selected_host(&mut self)
        ensures
            final(self)@ == old(self)@.deselected(),
    {
        self.hosts.selected_host = None;
        self.shelf.games = Vec::new();
        self.shelf.games_loaded = false;
        self.home_status = None;
        self.nav.home_focus = HomeFocus::Sidebar(0);
    }

    /// Brings a focus whose row is gone back onto the sidebar.
    pub fn refocus_sidebar(&mut self)
        requires
            old(self)@.hosts.entries.len() < usize::MAX - 2,
        ensures
            final(self)@ == old(self)@.refocused(),
    {
        let rows: usize = self.hosts.entries.len() + 2;
        match self.nav.home_focus {
            HomeFocus::Sidebar(i) => {
                if i >= rows {
                    self.nav.home_focus = HomeFocus::Sidebar(rows - 1);
                }
            },
            _ => {},
        }
    }

    fn drop_record(&mut self, host: &str, port: u16)
        ensures
            final(self)@ == old(self)@.with_hosts(
                without_host(old(self)@.hosts.known_hosts, host@, port),
            ).asking(CommandView::ClearArtCache { host: host@, port }).asking(
                CommandView::SaveKnownHosts,
            ),
    {
        self.outbox.push(Command::ClearArtCache { host: host.to_owned(), port });
        remove_host(&mut self.hosts.known_hosts, host, port);
        self.outbox.push(Command::SaveKnownHosts);
        self.hosts.entries = rows_of(&self.hosts.known_hosts);
    }

    /// Forgets the saved host in row `idx`.
    pub fn forget_host(&mut self, idx: usize)
        requires
            idx < old(self)@.hosts.entries.len(),
            old(self)@.hosts.known_hosts.len() < usize::MAX - 2,
        ensures
            final(self)@ == old(self)@.host_forgotten(idx as int),
    {
        let (host, port) = match &self.hosts.entries[idx] {
            HostEntry::Discovered(_) => {
                return ;
            },
            HostEntry::Known(h) => (h.host.clone(), h.port),
        };
        proof {
            lemma_without_host_len(self@.hosts.known_hosts, host@, port);
        }
        self.drop_record(host.as_str(), port);
        proof {
            lemma_known_entries(self@.hosts.known_hosts);
        }
        let same = match &self.hosts.selected_host {
            Some((h, p)) => *p == port && *h == host,
            None => false,
        };
        if same {
            self.clear_selected_host();
        }
        self.refocus_sidebar();
        self.canvas.sidebar_dirty = true;
        self.canvas.grid_dirty = true;
    }
}

proof fn lemma_without_host_len(hosts: Seq<KnownHostView>, host: Seq<char>, port: u16)
    ensures
        without_host(hosts, host, port).len() <= hosts.len(),
{
    broadcast use vstd::seq_lib::group_filter_ensures;

    reveal(without_host);
}

/// Forgetting a host removes that host and no other, from the saved hosts and from the rows.
pub proof fn law_forget_removes_exactly(s: AppView, idx: int, h: KnownHostView)
    requires
        0 <= idx < s.hosts.entries.len(),
        s.hosts.entries[idx] is Known,
    ensures
        s.host_forgotten(idx).hosts.known_hosts.contains(h) == (s.hosts.known_hosts.contains(h)
            && !(h.host == s.hosts.entries[idx].host() && h.port == s.hosts.entries[idx].port())),
        s.host_forgotten(idx).hosts.entries == known_entries(
            s.host_forgotten(idx).hosts.known_hosts,
        ),
        s.hosts.selected_host == Some((s.hosts.entries[idx].host(), s.hosts.entries[idx].port()))
            ==> s.host_forgotten(idx).hosts.selected_host is None,
{
    reveal(without_host);
    let gone = s.hosts.entries[idx]->Known_0;
    let keep = |k: KnownHostView| !(k.host == gone.host && k.port == gone.port);
    crate::app::order::lemma_filter_members(s.hosts.known_hosts, keep);
    let kept = s.hosts.known_hosts.filter(keep);
    if kept.contains(h) {
        let i = choose|i: int| 0 <= i < kept.len() && kept[i] == h;
        assert(keep(kept[i]));
    }
    if s.hosts.known_hosts.contains(h) && keep(h) {
        let i = choose|i: int| 0 <= i < s.hosts.known_hosts.len() && s.hosts.known_hosts[i] == h;
        assert(keep(s.hosts.known_hosts[i]));
    }
}

/// A stream starts only for a paired host that answered after the card was confirmed, and only
/// while that host is still the selected one.
pub proof fn law_launch_needs_answer(
    s: AppView,
    pending: PendingView,
    result: Result<Vec<GameEntry>, LibraryError>,
    now: u64,
)
    requires
        s.shelf.launch_ready is None,
    ensures
        s.launch_checked(pending, result, now).shelf.launch_ready is Some ==> result is Ok
            && s.hosts.selected_host == Some((pending.host, pending.port)),
{
}

/// Choosing a host makes it the selected one, remembers it, abandons the covers of the one before
/// and asks for its library, by the management port and the fingerprint on record. What was there
/// of another library is gone, the grid is at its top with its first cell focused, and the status
/// line says what is loading.
pub proof fn law_chosen_host_is_asked(s: AppView, host: Seq<char>, port: u16, mgmt: Option<u16>)
    ensures
        ({
            let t = s.host_selected(host, port, mgmt);
            let known = host_at(s.hosts.known_hosts, host, port);
            let n = s.outbox.len() as int;
            &&& t.hosts.selected_host == Some((host, port))
            &&& t.hosts.known_hosts == s.hosts.known_hosts && t.hosts.entries == s.hosts.entries
            &&& t.outbox.len() == n + 3
            &&& forall|i: int| 0 <= i < n ==> t.outbox[i] == s.outbox[i]
            &&& t.outbox[n] == CommandView::SaveSelectedHost { host, port }
            &&& t.outbox[n + 1] == CommandView::StopArt
            &&& t.outbox[n + 2] matches CommandView::FetchGames {
                host: h,
                port: p,
                mgmt_port,
                fingerprint,
            } && h == host && p == port && mgmt_port == (match mgmt {
                Some(m) => m,
                None => 47990,
            }) && fingerprint == (match known {
                Some(k) => k.fingerprint,
                None => None,
            })
            &&& t.shelf.games.len() == 0 && t.shelf.pinned_count == 0 && t.shelf.art.len() == 0
            &&& t.shelf.card_ids.len() == 0 && !t.shelf.games_loaded && t.shelf.games_pending
            &&& t.shelf.art_loader is None
            &&& t.nav.home_focus == HomeFocus::Grid(0) && t.nav.screen == s.nav.screen
            &&& t.canvas.grid_scroll == 0 && t.canvas.grid_scroll_target == 0
            &&& t.canvas.grid_dirty && t.canvas.sidebar_dirty
            &&& t.home_status == Some(
                "Loading library from "@ + (match known {
                    Some(k) => k.name,
                    None => host,
                }) + "…"@,
            )
        }),
{
}

/// Confirming a card looks at its host first: the selected one, by its own address, management
/// port and fingerprint. What is to start is the game in the cell, or the desktop, and the cell is
/// noted. Nothing happens while another card is being started, without a paired host, or on an
/// empty cell.
pub proof fn law_confirmed_card_is_checked(s: AppView, idx: usize, columns: int)
    ensures
        ({
            let t = s.card_confirmed(idx, columns);
            let known = s.selected_known();
            let can = s.shelf.pending_launch is None && known is Some && known->0.fingerprint is Some
                && s.card_at(idx as int, columns) is Some;
            &&& !can ==> t == s
            &&& can ==> {
                let k = known->0;
                &&& t.outbox.len() == s.outbox.len() + 1
                &&& t.outbox.last() matches CommandView::CheckLaunch { host, port, mgmt_port, pin }
                    && host == k.host && port == k.port && pin == k.fingerprint->0 && mgmt_port == (
                match k.mgmt_port {
                    Some(m) => m,
                    None => 47990,
                })
                &&& t.shelf.pending_launch matches Some(p) && {
                    &&& p.host == k.host && p.port == k.port && p.fingerprint == k.fingerprint->0
                    &&& p.idx == idx
                    &&& match s.card_at(idx as int, columns)->0 {
                        GridCard::Game(g) => p.launch == Some(s.shelf.games[g as int].id) && p.title
                            == s.shelf.games[g as int].title,
                        GridCard::Desktop => p.launch is None && p.title == "Desktop"@,
                    }
                    &&& t.home_status == Some(
                        "Checking the host is still reachable before starting "@ + p.title + "…"@,
                    )
                }
                &&& t.shelf.launch_ready == s.shelf.launch_ready
                &&& t.shelf.games == s.shelf.games && t.hosts == s.hosts
                &&& t.nav == s.nav
            }
        }),
{
}

/// A host that answered is streamed from: the target that becomes ready is the confirmed card's
/// host, by its fingerprint, and the card's game. One that was left for another host meanwhile is
/// not. One that did not answer is woken or told of. Either way no card is being started any more.
pub proof fn law_checked_launch_is_ready(
    s: AppView,
    pending: PendingView,
    result: Result<Vec<GameEntry>, LibraryError>,
    now: u64,
)
    ensures
        ({
            let t = s.launch_checked(pending, result, now);
            let selected = s.hosts.selected_host == Some((pending.host, pending.port));
            &&& t.shelf.pending_launch is None
            &&& result is Ok && selected ==> {
                &&& t.shelf.launch_ready matches Some(to) && to.host == pending.host && to.port
                    == pending.port && to.fingerprint == pending.fingerprint && to.launch
                    == pending.launch
                &&& t.shelf.launch_anim_idx == Some(pending.idx)
                &&& t.home_status == Some("Starting "@ + pending.title + "…"@)
            }
            &&& result is Ok && !selected ==> t.shelf.launch_ready == s.shelf.launch_ready
                && t.home_status == s.home_status
            &&& result is Ok ==> t.outbox == s.outbox && t.wake == s.wake
            &&& result is Err ==> t.shelf.launch_ready == s.shelf.launch_ready
            &&& result matches Err(e) ==> (t.wake is Some || t.home_status == Some(
                library_error_text(e),
            ))
            &&& t.hosts.known_hosts == s.hosts.known_hosts && t.hosts.selected_host
                == s.hosts.selected_host
        }),
{
}

/// A host that did not answer is woken, by the addresses on record for it; any other failure is
/// said, and the desktop can be streamed all the same.
pub proof fn law_only_silence_wakes(
    s: AppView,
    host: Seq<char>,
    port: u16,
    e: LibraryError,
    now: u64,
)
    ensures
        ({
            let t = s.library_failed(host, port, e, now);
            &&& e is Unreachable ==> (t.wake matches Some(w) && w.host == host && w.port == port
                && w.reason == library_error_text(e) && w.mac == (match host_at(
                s.hosts.known_hosts,
                host,
                port,
            ) {
                Some(h) => h.mac,
                None => seq![],
            }))
            &&& !(e is Unreachable) ==> t.wake == s.wake && t.home_status == Some(
                library_error_text(e),
            ) && t.shelf.games_loaded && t.outbox == s.outbox && t.nav == s.nav
        }),
{
}

/// A library that came in is on the shelf: all its games and no other, none pending any more, no
/// status left, and its covers are asked for from the host that it came from.
pub proof fn law_library_is_shelved(s: AppView, loaded: GamesLoaded, now: u64)
    requires
        loaded.result is Ok,
    ensures
        ({
            let t = s.games_taken(loaded, now);
            &&& !t.shelf.games_pending && t.shelf.games_loaded
            &&& t.home_status is None
            &&& t.outbox.len() == s.outbox.len() + 1
            &&& t.outbox.last() matches CommandView::StartArt { host, port, mgmt_port, fingerprint }
                && host == loaded.host@ && port == loaded.port && mgmt_port == loaded.mgmt_port
                && fingerprint == (match host_at(s.hosts.known_hosts, loaded.host@, loaded.port) {
                Some(k) => k.fingerprint,
                None => None,
            })
            &&& t.canvas.grid_dirty
            &&& t.hosts == s.hosts && t.nav == s.nav
            &&& t.shelf.art_loader is Some
            &&& t.shelf.games.to_multiset() == views(loaded.result->Ok_0@).to_multiset()
            &&& t.shelf.pinned_count <= t.shelf.games.len()
        }),
{
    let games = views(loaded.result->Ok_0@);
    crate::app::order::law_by_title_sorts(games);
    crate::app::order::law_pinning_keeps_games(by_title(games), pins_of(s.selected_known()));
    assert(loaded.result->Ok_0.len() <= usize::MAX);
}

/// The games that the selected host has pinned lead the library in the order of the pins, and all
/// others follow in the order of their titles, upper and lower case alike.
pub proof fn law_shelf_is_in_order(s: AppView, loaded: GamesLoaded, now: u64, i: int, j: int)
    requires
        loaded.result is Ok,
        crate::app::order::ids_unique(by_title(views(loaded.result->Ok_0@))),
        s.selected_known() is Some,
        s.selected_known()->0.pinned.no_duplicates(),
    ensures
        ({
            let t = s.games_taken(loaded, now).shelf;
            let pins = s.selected_known()->0.pinned;
            &&& game_ids(t.games.take(t.pinned_count as int)) == pins.filter(
                |id: Seq<char>| game_ids(by_title(views(loaded.result->Ok_0@))).contains(id),
            )
            &&& t.pinned_count <= i < j < t.games.len() ==> crate::app::order::text_le(
                lowercase_of(t.games[i].title),
                lowercase_of(t.games[j].title),
            )
            &&& t.pinned_count <= i < t.games.len() ==> !pins.contains(t.games[i].id)
        }),
{
    let games = views(loaded.result->Ok_0@);
    let sorted = by_title(games);
    let pins = s.selected_known()->0.pinned;
    crate::app::order::law_by_title_sorts(games);
    crate::app::order::law_pinning_keeps_games(sorted, pins);
    crate::app::order::law_pinned_lead_in_pin_order(sorted, pins);
    let (front, rest) = pulled(sorted, pins);
    assert(loaded.result->Ok_0.len() <= usize::MAX);
    let t = s.games_taken(loaded, now).shelf;
    assert(t.games == front + rest);
    assert(t.games.take(t.pinned_count as int) =~= front);
    let p = |g: GameView| !pins.contains(g.id);
    crate::app::order::lemma_filter_members(sorted, p);
    if t.pinned_count <= i < t.games.len() {
        assert(rest[i - front.len()] == t.games[i]);
    }
    if t.pinned_count <= i < j < t.games.len() {
        crate::app::order::lemma_filter_keeps_order(sorted, p, i - front.len(), j - front.len());
        assert(rest[j - front.len()] == t.games[j]);
    }
}

/// Forgetting a saved host deletes the covers stored for it and stores the hosts that are left.
/// The selected host stays selected unless it is the one that goes; then nothing of its library is
/// left. A row that was only announced is not forgotten.
pub proof fn law_forgetting_cleans_up(s: AppView, idx: int)
    requires
        0 <= idx < s.hosts.entries.len(),
    ensures
        ({
            let t = s.host_forgotten(idx);
            let e = s.hosts.entries[idx];
            let n = s.outbox.len() as int;
            &&& e is Discovered ==> t == s
            &&& e is Known ==> {
                &&& t.outbox.len() == n + 2
                &&& t.outbox[n] == CommandView::ClearArtCache { host: e.host(), port: e.port() }
                &&& t.outbox[n + 1] == CommandView::SaveKnownHosts
                &&& s.hosts.selected_host == Some((e.host(), e.port())) ==> t.hosts.selected_host
                    is None && t.shelf.games.len() == 0 && !t.shelf.games_loaded && t.home_status
                    is None && t.nav.home_focus == HomeFocus::Sidebar(0)
                &&& s.hosts.selected_host != Some((e.host(), e.port())) ==> t.hosts.selected_host
                    == s.hosts.selected_host && t.shelf == s.shelf && t.home_status == s.home_status
                &&& t.canvas.sidebar_dirty && t.canvas.grid_dirty
                &&& t.nav.screen == s.nav.screen
                &&& t.nav.home_focus matches HomeFocus::Sidebar(i) ==> i < t.hosts.entries.len() + 2
                    || t.hosts.entries.len() + 2 > usize::MAX
            }
        }),
{
}

} // verus!
