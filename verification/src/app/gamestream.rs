//! GameStream hosts on the sidebar: which of them get a row, ending what one is running, and
//! finding out whether a typed address is one.
use vstd::prelude::*;

use crate::app::reach::{Reachability, ReachabilityView};
use crate::app::{
    App, AppView, CanvasView, Command, CommandView, HomeFocus, HostsView, Menu, Screen,
};
use crate::backend::gamestream::DEFAULT_HTTP_PORT;
use crate::backend::{caps_of, protocol_caps, protocol_query_port, query_port_of};
use crate::discovery::{DiscoveredHost, DiscoveredView};
use crate::model::protocol::Protocol;
use crate::seqs::views;
use crate::store::{
    entry_index, find_entry, find_host, host_at, host_index, known_entries, lemma_known_entries,
    rows_of, EntryView, HostEntry, KnownHostView,
};
use crate::text::{join3, same_text};

verus! {

broadcast use crate::seqs::group_views;

/// The port on which a typed address is tried.
pub const GS_PROBE_PORT: u16 = DEFAULT_HTTP_PORT;

impl AppView {
    /// Whether row `i` shows that the machine at `addr` offers the better protocol, and nothing
    /// says that it does not answer there.
    pub open spec fn shadows(self, i: int, addr: Seq<char>) -> bool {
        let e = self.hosts.entries[i];
        e.host() == addr && e.protocol() == Protocol::Punktfunk && self.online(addr, e.port())
            != Some(false)
    }

    /// Whether a discovered GameStream host at `addr` is kept off the sidebar.
    #[verifier::opaque]
    pub open spec fn shadowed(self, addr: Seq<char>) -> bool {
        exists|i: int| 0 <= i < self.hosts.entries.len() && #[trigger] self.shadows(i, addr)
    }

    /// Whether a row gives way to a better one. A saved host never does.
    pub open spec fn gives_way(self, e: EntryView) -> bool {
        e matches EntryView::Discovered(d) && d.protocol == Protocol::GameStream && self.shadowed(
            d.addr,
        )
    }

    /// The first `n` rows without those that give way.
    pub open spec fn kept_rows(self, n: int) -> Seq<EntryView>
        decreases n,
    {
        if n <= 0 {
            seq![]
        } else if self.gives_way(self.hosts.entries[n - 1]) {
            self.kept_rows(n - 1)
        } else {
            self.kept_rows(n - 1).push(self.hosts.entries[n - 1])
        }
    }

    /// The hosts kept off the sidebar once the first `n` rows have given way.
    pub open spec fn parked_hosts(self, n: int) -> Seq<DiscoveredView>
        decreases n,
    {
        if n <= 0 {
            self.hosts.shadowed_gamestream
        } else if self.gives_way(self.hosts.entries[n - 1]) {
            parked(self.parked_hosts(n - 1), self.hosts.entries[n - 1]->Discovered_0)
        } else {
            self.parked_hosts(n - 1)
        }
    }

    /// Whether any of the first `n` rows gives way.
    pub open spec fn any_gives_way(self, n: int) -> bool
        decreases n,
    {
        n > 0 && (self.any_gives_way(n - 1) || self.gives_way(self.hosts.entries[n - 1]))
    }

    /// Those of the first `n` hosts of `hosts` that stay off the sidebar.
    pub open spec fn still_parked(self, hosts: Seq<DiscoveredView>, n: int) -> Seq<DiscoveredView>
        decreases n,
    {
        if n <= 0 {
            seq![]
        } else if self.shadowed(hosts[n - 1].addr) {
            self.still_parked(hosts, n - 1).push(hosts[n - 1])
        } else {
            self.still_parked(hosts, n - 1)
        }
    }

    /// `rows` with those of the first `n` hosts of `hosts` that are worth offering again and have
    /// no row yet.
    pub open spec fn rows_offered(
        self,
        rows: Seq<EntryView>,
        hosts: Seq<DiscoveredView>,
        n: int,
    ) -> Seq<EntryView>
        decreases n,
    {
        if n <= 0 {
            rows
        } else {
            let before = self.rows_offered(rows, hosts, n - 1);
            let d = hosts[n - 1];
            if self.shadowed(d.addr) || is_listed(before, d.addr, d.port) {
                before
            } else {
                before.push(EntryView::Discovered(d))
            }
        }
    }

    /// The rows once they match what is reachable.
    pub open spec fn rows_refreshed(self) -> Seq<EntryView> {
        let n = self.hosts.entries.len() as int;
        let hosts = self.parked_hosts(n);
        self.rows_offered(self.kept_rows(n), hosts, hosts.len() as int)
    }

    /// Whether that moves anything on the sidebar.
    pub open spec fn shadowing_changes(self) -> bool {
        let n = self.hosts.entries.len() as int;
        self.prefs.settings.gamestream_enabled && (self.any_gives_way(n)
            || self.rows_refreshed().len() > self.kept_rows(n).len())
    }

    /// After moving discovered GameStream hosts onto the sidebar and off it. With the protocol
    /// switched off, none is kept for later.
    pub open spec fn shadowing_refreshed(self) -> AppView {
        let n = self.hosts.entries.len() as int;
        let hosts = self.parked_hosts(n);
        if !self.prefs.settings.gamestream_enabled {
            AppView { hosts: HostsView { shadowed_gamestream: seq![], ..self.hosts }, ..self }
        } else {
            let s = AppView {
                hosts: HostsView {
                    entries: self.rows_refreshed(),
                    shadowed_gamestream: self.still_parked(hosts, hosts.len() as int),
                    ..self.hosts
                },
                ..self
            };
            if self.shadowing_changes() {
                s.sidebar_stale()
            } else {
                s
            }
        }
    }
}

/// After keeping a host off the sidebar; each is kept once.
pub open spec fn parked(hosts: Seq<DiscoveredView>, d: DiscoveredView) -> Seq<DiscoveredView> {
    if exists|i: int| 0 <= i < hosts.len() && #[trigger] same_address(hosts[i], d) {
        hosts
    } else {
        hosts.push(d)
    }
}

/// Whether two announcements are of the same address.
pub open spec fn same_address(a: DiscoveredView, b: DiscoveredView) -> bool {
    a.addr == b.addr && a.port == b.port
}

/// Whether a row has this address.
pub open spec fn is_listed(rows: Seq<EntryView>, host: Seq<char>, port: u16) -> bool {
    entry_index(rows, host, port) < rows.len()
}

/// Keeps a host off the sidebar.
pub fn park_gamestream(hosts: &mut Vec<DiscoveredHost>, host: DiscoveredHost)
    ensures
        views(final(hosts)@) == parked(views(old(hosts)@), host@),
{
    let mut i: usize = 0;
    while i < hosts.len()
        invariant
            i <= hosts.len(),
            hosts@ == old(hosts)@,
            forall|j: int| 0 <= j < i ==> !#[trigger] same_address(views(hosts@)[j], host@),
        decreases hosts.len() - i,
    {
        if hosts[i].port == host.port && same_text(hosts[i].addr.as_str(), host.addr.as_str()) {
            assert(same_address(views(hosts@)[i as int], host@));
            return ;
        }
        i += 1;
    }
    hosts.push(host);
}

impl App {
    /// Whether a discovered GameStream host at `addr` is kept off the sidebar, because the same
    /// machine offers the better protocol and may well answer there.
    pub fn gamestream_shadowed(&self, addr: &str) -> (r: bool)
        ensures
            r == self@.shadowed(addr@),
    {
        proof {
            reveal(AppView::shadowed);
        }
        let mut i: usize = 0;
        while i < self.hosts.entries.len()
            invariant
                i <= self.hosts.entries.len(),
                forall|j: int| 0 <= j < i ==> !#[trigger] self@.shadows(j, addr@),
            decreases self.hosts.entries.len() - i,
        {
            let e = &self.hosts.entries[i];
            if e.protocol() == Protocol::Punktfunk && same_text(e.host().as_str(), addr) {
                let known_down = match self.entry_online(e) {
                    Some(online) => !online,
                    None => false,
                };
                if !known_down {
                    assert(self@.shadows(i as int, addr@));
                    proof {
                        reveal(AppView::shadowed);
                    }
                    return true;
                }
            }
            i += 1;
        }
        false
    }

    fn row_gives_way(&self, e: &HostEntry) -> (r: bool)
        ensures
            r == self@.gives_way(e@),
    {
        match e {
            HostEntry::Known(_) => false,
            HostEntry::Discovered(d) => d.protocol == Protocol::GameStream
                && self.gamestream_shadowed(d.addr.as_str()),
        }
    }

    fn split_rows(&self, parked_now: &mut Vec<DiscoveredHost>) -> (r: (Vec<HostEntry>, bool))
        requires
            views(old(parked_now)@) == self@.hosts.shadowed_gamestream,
        ensures
            views(r.0@) == self@.kept_rows(self@.hosts.entries.len() as int),
            r.1 == self@.any_gives_way(self@.hosts.entries.len() as int),
            views(final(parked_now)@) == self@.parked_hosts(self@.hosts.entries.len() as int),
    {
        let mut kept: Vec<HostEntry> = Vec::new();
        let mut any = false;
        let mut i: usize = 0;
        assert(views(kept@) =~= self@.kept_rows(0));
        while i < self.hosts.entries.len()
            invariant
                i <= self.hosts.entries.len(),
                views(kept@) == self@.kept_rows(i as int),
                any == self@.any_gives_way(i as int),
                views(parked_now@) == self@.parked_hosts(i as int),
            decreases self.hosts.entries.len() - i,
        {
            if self.row_gives_way(&self.hosts.entries[i]) {
                any = true;
                match self.hosts.entries[i].clone() {
                    HostEntry::Discovered(d) => {
                        park_gamestream(parked_now, d);
                    },
                    HostEntry::Known(_) => {},
                }
            } else {
                kept.push(self.hosts.entries[i].clone());
            }
            i += 1;
        }
        (kept, any)
    }

    fn offer_rows(&self, rows: &mut Vec<HostEntry>, hosts: &Vec<DiscoveredHost>) -> (stay: Vec<
        DiscoveredHost,
    >)
        ensures
            views(final(rows)@) == self@.rows_offered(
                views(old(rows)@),
                views(hosts@),
                hosts.len() as int,
            ),
            views(stay@) == self@.still_parked(views(hosts@), hosts.len() as int),
    {
        let mut stay: Vec<DiscoveredHost> = Vec::new();
        let mut i: usize = 0;
        assert(views(stay@) =~= self@.still_parked(views(hosts@), 0));
        while i < hosts.len()
            invariant
                i <= hosts.len(),
                views(rows@) == self@.rows_offered(views(old(rows)@), views(hosts@), i as int),
                views(stay@) == self@.still_parked(views(hosts@), i as int),
            decreases hosts.len() - i,
        {
            let d = &hosts[i];
            if self.gamestream_shadowed(d.addr.as_str()) {
                stay.push(d.clone());
            } else if find_entry(rows, d.addr.as_str(), d.port).is_none() {
                rows.push(HostEntry::Discovered(d.clone()));
            }
            i += 1;
        }
        stay
    }

    /// Moves discovered GameStream hosts onto the sidebar and off it. Returns whether the sidebar
    /// moved; keeping the focus on its row is left to the caller.
    pub fn refresh_gamestream_shadowing(&mut self) -> (changed: bool)
        ensures
            final(self)@ == old(self)@.shadowing_refreshed(),
            changed == old(self)@.shadowing_changes(),
    {
        let mut hosts: Vec<DiscoveredHost> = Vec::new();
        std::mem::swap(&mut hosts, &mut self.hosts.shadowed_gamestream);
        assert(views(self.hosts.shadowed_gamestream@) =~= seq![]);
        if !self.prefs.settings.gamestream_enabled {
            return false;
        }
        self.hosts.shadowed_gamestream = hosts;
        let mut parked_now: Vec<DiscoveredHost> = clone_discovered(&self.hosts.shadowed_gamestream);
        let (mut rows, any) = self.split_rows(&mut parked_now);
        let before: usize = rows.len();
        let stay = self.offer_rows(&mut rows, &parked_now);
        let changed = any || rows.len() > before;
        self.hosts.entries = rows;
        self.hosts.shadowed_gamestream = stay;
        if changed {
            self.canvas.sidebar_dirty = true;
        }
        changed
    }
}

fn clone_discovered(hosts: &Vec<DiscoveredHost>) -> (r: Vec<DiscoveredHost>)
    ensures
        views(r@) == views(hosts@),
{
    let mut out: Vec<DiscoveredHost> = Vec::new();
    let mut i: usize = 0;
    while i < hosts.len()
        invariant
            i <= hosts.len(),
            out.len() == i,
            forall|j: int| 0 <= j < i ==> (#[trigger] out@[j])@ == hosts@[j]@,
        decreases hosts.len() - i,
    {
        out.push(hosts[i].clone());
        i += 1;
    }
    assert(views(out@) =~= views(hosts@));
    out
}

impl AppView {
    /// With the focus on the same row of the sidebar after the host rows, of which there were
    /// `before`, have come or gone: what follows the hosts has moved.
    pub open spec fn reanchored(self, before: int) -> AppView {
        let rows = self.hosts.entries.len();
        match self.nav.home_focus {
            HomeFocus::Sidebar(i) => if i >= before {
                self.focused(HomeFocus::Sidebar((rows + (i - before)) as usize))
            } else {
                self
            },
            _ => self,
        }
    }

    /// With the shadowing brought up to date, and the focus on its row.
    pub open spec fn shadowing_settled(self) -> AppView {
        if self.shadowing_changes() {
            self.shadowing_refreshed().reanchored(self.hosts.entries.len() as int)
        } else {
            self.shadowing_refreshed()
        }
    }

    /// With a sweep ended, where it has.
    pub open spec fn sweep_ended(self, finished: bool) -> AppView {
        AppView {
            hosts: HostsView { reach_pending: self.hosts.reach_pending && !finished, ..self.hosts },
            ..self
        }
    }

    /// Whether the answers are news of any kind.
    pub open spec fn sweep_news(self, rs: Seq<ReachabilityView>, finished: bool) -> bool {
        self.answers_new(rs, rs.len() as int) || self.answers_noted(
            rs,
            rs.len() as int,
        ).sweep_ended(finished).macs_new(rs, rs.len() as int)
    }

    /// After taking in the answers of a sweep, before rows move.
    pub open spec fn sweep_noted(self, rs: Seq<ReachabilityView>, finished: bool) -> AppView {
        let s = self.answers_noted(rs, rs.len() as int).sweep_ended(finished).macs_learned(
            rs,
            rs.len() as int,
        );
        if self.sweep_news(rs, finished) {
            s.sidebar_stale()
        } else {
            s
        }
    }

    /// After taking in the answers of a sweep.
    pub open spec fn sweep_taken(self, rs: Seq<ReachabilityView>, finished: bool) -> AppView {
        if !self.hosts.reach_pending {
            self
        } else {
            self.sweep_noted(rs, finished).shadowing_settled()
        }
    }

    /// Whether hosts of this protocol are shown.
    pub open spec fn shown(self, protocol: Protocol) -> bool {
        self.prefs.settings.gamestream_enabled || protocol != Protocol::GameStream
    }

    /// Those of the first `n` rows of `rows` that are shown and, where `found`, were only
    /// discovered.
    pub open spec fn rows_shown(self, rows: Seq<EntryView>, found: bool, n: int) -> Seq<EntryView>
        decreases n,
    {
        if n <= 0 {
            seq![]
        } else if self.shown(rows[n - 1].protocol()) && (found ==> rows[n - 1] is Discovered) {
            self.rows_shown(rows, found, n - 1).push(rows[n - 1])
        } else {
            self.rows_shown(rows, found, n - 1)
        }
    }

    /// With a row for each saved host that is shown, then the discovered ones that are.
    pub open spec fn refiltered(self) -> AppView {
        let saved = known_entries(self.hosts.known_hosts);
        AppView {
            hosts: HostsView {
                entries: self.rows_shown(saved, false, saved.len() as int) + self.rows_shown(
                    self.hosts.entries,
                    true,
                    self.hosts.entries.len() as int,
                ),
                ..self.hosts
            },
            ..self
        }.sidebar_stale()
    }

    /// Whether the selected host speaks GameStream.
    pub open spec fn gamestream_selected(self) -> bool {
        self.selected_known() matches Some(k) && k.protocol == Protocol::GameStream
    }

    /// After the protocol was switched on or off: browsing begins anew, the rows follow, and
    /// nothing of a host that is no longer shown stays on screen.
    pub open spec fn visibility_applied(self) -> AppView {
        let s = self.asking(CommandView::RestartDiscovery).refiltered();
        if self.prefs.settings.gamestream_enabled {
            s.shadowing_refreshed()
        } else {
            let t = AppView { hosts: HostsView { shadowed_gamestream: seq![], ..s.hosts }, ..s };
            if t.gamestream_selected() {
                t.deselected()
            } else {
                t
            }
        }
    }
}

impl App {
    /// Keeps the focus on its row of the sidebar after host rows have come or gone.
    pub fn reanchor_sidebar_focus(&mut self, before: usize)
        requires
            old(self)@.nav.home_focus matches HomeFocus::Sidebar(i) ==> i < before || old(
                self,
            )@.hosts.entries.len() + (i - before) <= usize::MAX,
        ensures
            final(self)@ == old(self)@.reanchored(before as int),
    {
        match self.nav.home_focus {
            HomeFocus::Sidebar(i) => {
                if i >= before {
                    let to: usize = self.hosts.entries.len() + (i - before);
                    self.nav.home_focus = HomeFocus::Sidebar(to);
                }
            },
            _ => {},
        }
    }

    fn note_sweep(&mut self, rs: &Vec<Reachability>, finished: bool) -> (news: bool)
        ensures
            final(self)@ == old(self)@.sweep_noted(views(rs@), finished),
            news == old(self)@.sweep_news(views(rs@), finished),
    {
        let answered = self.note_answers(rs);
        if finished {
            self.hosts.reach_pending = false;
        }
        let learned = self.learn_macs(rs);
        let news = answered || learned;
        if news {
            self.canvas.sidebar_dirty = true;
        }
        news
    }

    /// Takes in the answers of a sweep. `finished` tells that no more will come. Returns whether
    /// the sidebar changed.
    pub fn drain_reachability(&mut self, rs: &Vec<Reachability>, finished: bool) -> (changed: bool)
        requires
            old(self)@.nav.home_focus matches HomeFocus::Sidebar(i) ==> i < old(
                self,
            )@.hosts.entries.len() || old(self)@.hosts.shadowed_gamestream.len() + i <= usize::MAX,
        ensures
            final(self)@ == old(self)@.sweep_taken(views(rs@), finished),
            changed == (old(self)@.hosts.reach_pending && (old(self)@.sweep_news(
                views(rs@),
                finished,
            ) || old(self)@.sweep_noted(views(rs@), finished).shadowing_changes())),
    {
        if !self.hosts.reach_pending {
            return false;
        }
        let news = self.note_sweep(rs, finished);
        proof {
            lemma_sweep_keeps_focus(old(self)@, views(rs@), finished);
            lemma_rows_bounded(self@);
        }
        let before: usize = self.hosts.entries.len();
        let moved = self.refresh_gamestream_shadowing();
        if moved {
            self.reanchor_sidebar_focus(before);
        }
        news || moved
    }

    fn show_rows(&self, rows: &Vec<HostEntry>, found: bool) -> (r: Vec<HostEntry>)
        ensures
            views(r@) == self@.rows_shown(views(rows@), found, rows.len() as int),
    {
        let mut out: Vec<HostEntry> = Vec::new();
        let mut i: usize = 0;
        assert(views(out@) =~= self@.rows_shown(views(rows@), found, 0));
        while i < rows.len()
            invariant
                i <= rows.len(),
                views(out@) == self@.rows_shown(views(rows@), found, i as int),
            decreases rows.len() - i,
        {
            let e = &rows[i];
            let shown = self.prefs.settings.gamestream_enabled || e.protocol()
                != Protocol::GameStream;
            let wanted = match e {
                HostEntry::Known(_) => !found,
                HostEntry::Discovered(_) => true,
            };
            if shown && wanted {
                out.push(e.clone());
            }
            i += 1;
        }
        out
    }

    /// Lists the hosts that are shown anew.
    pub fn refilter_entries(&mut self)
        ensures
            final(self)@ == old(self)@.refiltered(),
    {
        let saved = rows_of(&self.hosts.known_hosts);
        let mut rows = self.show_rows(&saved, false);
        let mut found = self.show_rows(&self.hosts.entries, true);
        proof {
            lemma_known_entries(self@.hosts.known_hosts);
        }
        rows.append(&mut found);
        self.hosts.entries = rows;
        self.canvas.sidebar_dirty = true;
    }

    /// Follows the switch that turns the protocol on or off.
    pub fn apply_gamestream_visibility(&mut self)
        ensures
            final(self)@ == old(self)@.visibility_applied(),
    {
        self.outbox.push(Command::RestartDiscovery);
        self.refilter_entries();
        if self.prefs.settings.gamestream_enabled {
            self.refresh_gamestream_shadowing();
            return ;
        }
        self.hosts.shadowed_gamestream = Vec::new();
        assert(views(self.hosts.shadowed_gamestream@) =~= seq![]);
        let selected = match self.selected_known_host() {
            Some(i) => self.hosts.known_hosts[i].protocol == Protocol::GameStream,
            None => false,
        };
        if selected {
            self.clear_selected_host();
        }
    }
}

proof fn lemma_answers_keep_focus(s: AppView, rs: Seq<ReachabilityView>, n: int)
    ensures
        s.answers_noted(rs, n) == (AppView { hosts: s.answers_noted(rs, n).hosts, ..s }),
        s.answers_noted(rs, n).hosts.known_hosts == s.hosts.known_hosts,
        s.answers_noted(rs, n).hosts.selected_host == s.hosts.selected_host,
        s.answers_noted(rs, n).hosts.entries == s.hosts.entries,
        s.answers_noted(rs, n).hosts.shadowed_gamestream == s.hosts.shadowed_gamestream,
    decreases n,
{
    if n > 0 {
        lemma_answers_keep_focus(s, rs, n - 1);
    }
}

proof fn lemma_macs_keep_focus(s: AppView, rs: Seq<ReachabilityView>, n: int)
    ensures
        s.macs_learned(rs, n) == (AppView {
            hosts: s.macs_learned(rs, n).hosts,
            outbox: s.macs_learned(rs, n).outbox,
            ..s
        }),
        s.macs_learned(rs, n).hosts.known_hosts.len() == s.hosts.known_hosts.len(),
        s.macs_learned(rs, n).hosts.selected_host == s.hosts.selected_host,
        s.macs_learned(rs, n).hosts.entries.len() == s.hosts.entries.len(),
        s.macs_learned(rs, n).hosts.shadowed_gamestream == s.hosts.shadowed_gamestream,
    decreases n,
{
    if n > 0 {
        lemma_macs_keep_focus(s, rs, n - 1);
    }
}

pub(crate) proof fn lemma_sweep_keeps_focus(s: AppView, rs: Seq<ReachabilityView>, finished: bool)
    ensures
        s.sweep_noted(rs, finished) == (AppView {
            hosts: s.sweep_noted(rs, finished).hosts,
            outbox: s.sweep_noted(rs, finished).outbox,
            canvas: CanvasView {
                sidebar_dirty: s.sweep_noted(rs, finished).canvas.sidebar_dirty,
                ..s.canvas
            },
            ..s
        }),
        s.sweep_noted(rs, finished).hosts.known_hosts.len() == s.hosts.known_hosts.len(),
        s.sweep_noted(rs, finished).hosts.selected_host == s.hosts.selected_host,
        s.sweep_noted(rs, finished).hosts.entries.len() == s.hosts.entries.len(),
        s.sweep_noted(rs, finished).hosts.shadowed_gamestream == s.hosts.shadowed_gamestream,
{
    lemma_answers_keep_focus(s, rs, rs.len() as int);
    lemma_macs_keep_focus(
        s.answers_noted(rs, rs.len() as int).sweep_ended(finished),
        rs,
        rs.len() as int,
    );
}

proof fn lemma_rows_split(s: AppView, n: int)
    requires
        0 <= n <= s.hosts.entries.len(),
    ensures
        s.kept_rows(n).len() + s.parked_hosts(n).len() <= n + s.hosts.shadowed_gamestream.len(),
    decreases n,
{
    if n > 0 {
        lemma_rows_split(s, n - 1);
    }
}

proof fn lemma_rows_offered_len(
    s: AppView,
    rows: Seq<EntryView>,
    hosts: Seq<DiscoveredView>,
    n: int,
)
    requires
        0 <= n <= hosts.len(),
    ensures
        rows.len() <= s.rows_offered(rows, hosts, n).len() <= rows.len() + n,
    decreases n,
{
    if n > 0 {
        lemma_rows_offered_len(s, rows, hosts, n - 1);
    }
}

/// No host gets more than one row out of being moved on and off the sidebar.
pub(crate) proof fn lemma_rows_bounded(s: AppView)
    ensures
        s.rows_refreshed().len() <= s.hosts.entries.len() + s.hosts.shadowed_gamestream.len(),
{
    let n = s.hosts.entries.len() as int;
    lemma_rows_split(s, n);
    let hosts = s.parked_hosts(n);
    lemma_rows_offered_len(s, s.kept_rows(n), hosts, hosts.len() as int);
}

/// A row that does not give way keeps its place on the sidebar: every saved host does.
pub proof fn law_saved_rows_stay(s: AppView, i: int)
    requires
        0 <= i < s.hosts.entries.len(),
        s.hosts.entries[i] is Known,
        s.prefs.settings.gamestream_enabled,
    ensures
        s.shadowing_refreshed().hosts.entries.contains(s.hosts.entries[i]),
{
    let n = s.hosts.entries.len() as int;
    lemma_kept_contains(s, n, i);
    let hosts = s.parked_hosts(n);
    lemma_offered_contains(s, s.kept_rows(n), hosts, hosts.len() as int, s.hosts.entries[i]);
}

proof fn lemma_kept_contains(s: AppView, n: int, i: int)
    requires
        0 <= i < n <= s.hosts.entries.len(),
        !s.gives_way(s.hosts.entries[i]),
    ensures
        s.kept_rows(n).contains(s.hosts.entries[i]),
    decreases n,
{
    let before = s.kept_rows(n - 1);
    let all = s.kept_rows(n);
    if i == n - 1 {
        assert(all[before.len() as int] == s.hosts.entries[i]);
    } else {
        lemma_kept_contains(s, n - 1, i);
        let k = choose|k: int| 0 <= k < before.len() && before[k] == s.hosts.entries[i];
        assert(all[k] == s.hosts.entries[i]);
    }
}

proof fn lemma_offered_contains(
    s: AppView,
    rows: Seq<EntryView>,
    hosts: Seq<DiscoveredView>,
    n: int,
    e: EntryView,
)
    requires
        0 <= n <= hosts.len(),
        rows.contains(e),
    ensures
        s.rows_offered(rows, hosts, n).contains(e),
    decreases n,
{
    if n > 0 {
        lemma_offered_contains(s, rows, hosts, n - 1, e);
        let before = s.rows_offered(rows, hosts, n - 1);
        let k = choose|k: int| 0 <= k < before.len() && before[k] == e;
        assert(s.rows_offered(rows, hosts, n)[k] == e);
    }
}

proof fn lemma_kept_only(s: AppView, n: int, k: int)
    requires
        0 <= n <= s.hosts.entries.len(),
        0 <= k < s.kept_rows(n).len(),
    ensures
        !s.gives_way(s.kept_rows(n)[k]),
    decreases n,
{
    if n > 0 {
        let before = s.kept_rows(n - 1);
        if k < before.len() {
            lemma_kept_only(s, n - 1, k);
        }
    }
}

proof fn lemma_offered_only(
    s: AppView,
    rows: Seq<EntryView>,
    hosts: Seq<DiscoveredView>,
    n: int,
    k: int,
)
    requires
        0 <= n <= hosts.len(),
        0 <= k < s.rows_offered(rows, hosts, n).len(),
        forall|j: int| 0 <= j < rows.len() ==> !s.gives_way(#[trigger] rows[j]),
    ensures
        !s.gives_way(s.rows_offered(rows, hosts, n)[k]),
    decreases n,
{
    if n > 0 {
        let before = s.rows_offered(rows, hosts, n - 1);
        if k < before.len() {
            lemma_offered_only(s, rows, hosts, n - 1, k);
        }
    }
}

/// No row is left that would give way: a machine that offers the better protocol, and may well
/// answer there, is not offered twice.
pub proof fn law_no_shadowed_row_left(s: AppView, k: int)
    requires
        s.prefs.settings.gamestream_enabled,
        0 <= k < s.rows_refreshed().len(),
    ensures
        !s.gives_way(s.shadowing_refreshed().hosts.entries[k]),
{
    let n = s.hosts.entries.len() as int;
    let kept = s.kept_rows(n);
    assert forall|j: int| 0 <= j < kept.len() implies !s.gives_way(#[trigger] kept[j]) by {
        lemma_kept_only(s, n, j);
    }
    let hosts = s.parked_hosts(n);
    lemma_offered_only(s, kept, hosts, hosts.len() as int, k);
}

proof fn lemma_still_parked_only(s: AppView, hosts: Seq<DiscoveredView>, n: int, k: int)
    requires
        0 <= n <= hosts.len(),
        0 <= k < s.still_parked(hosts, n).len(),
    ensures
        s.shadowed(s.still_parked(hosts, n)[k].addr),
    decreases n,
{
    if n > 0 && k < s.still_parked(hosts, n - 1).len() {
        lemma_still_parked_only(s, hosts, n - 1, k);
    }
}

/// A host stays off the sidebar only while the better protocol may answer at its address.
pub proof fn law_parked_are_shadowed(s: AppView, k: int)
    requires
        s.prefs.settings.gamestream_enabled,
        0 <= k < s.shadowing_refreshed().hosts.shadowed_gamestream.len(),
    ensures
        s.shadowed(s.shadowing_refreshed().hosts.shadowed_gamestream[k].addr),
{
    let hosts = s.parked_hosts(s.hosts.entries.len() as int);
    lemma_still_parked_only(s, hosts, hosts.len() as int, k);
}

/// Only hosts of the protocol that gives way are kept off the sidebar.
pub open spec fn parked_wf(hosts: Seq<DiscoveredView>) -> bool {
    forall|i: int|
        0 <= i < hosts.len() ==> (#[trigger] hosts[i]).protocol == Protocol::GameStream
}

proof fn lemma_parked_protocol(s: AppView, n: int)
    requires
        0 <= n <= s.hosts.entries.len(),
        parked_wf(s.hosts.shadowed_gamestream),
    ensures
        parked_wf(s.parked_hosts(n)),
    decreases n,
{
    if n > 0 {
        lemma_parked_protocol(s, n - 1);
    }
}

proof fn lemma_still_parked_protocol(s: AppView, hosts: Seq<DiscoveredView>, n: int)
    requires
        0 <= n <= hosts.len(),
        parked_wf(hosts),
    ensures
        parked_wf(s.still_parked(hosts, n)),
    decreases n,
{
    if n > 0 {
        lemma_still_parked_protocol(s, hosts, n - 1);
    }
}

/// Moving hosts onto the sidebar and off it leaves only such hosts off it.
pub(crate) proof fn lemma_refreshed_parked(s: AppView)
    requires
        parked_wf(s.hosts.shadowed_gamestream),
    ensures
        parked_wf(s.shadowing_refreshed().hosts.shadowed_gamestream),
{
    let n = s.hosts.entries.len() as int;
    let hosts = s.parked_hosts(n);
    lemma_parked_protocol(s, n);
    lemma_still_parked_protocol(s, hosts, hosts.len() as int);
}

proof fn lemma_kept_from(s: AppView, n: int, k: int)
    requires
        0 <= n <= s.hosts.entries.len(),
        0 <= k < s.kept_rows(n).len(),
    ensures
        s.hosts.entries.contains(s.kept_rows(n)[k]),
    decreases n,
{
    if n > 0 {
        if k < s.kept_rows(n - 1).len() {
            lemma_kept_from(s, n - 1, k);
        } else {
            assert(s.hosts.entries[n - 1] == s.kept_rows(n)[k]);
        }
    }
}

proof fn lemma_offered_from(
    s: AppView,
    rows: Seq<EntryView>,
    hosts: Seq<DiscoveredView>,
    n: int,
    k: int,
)
    requires
        0 <= n <= hosts.len(),
        0 <= k < s.rows_offered(rows, hosts, n).len(),
        parked_wf(hosts),
    ensures
        rows.contains(s.rows_offered(rows, hosts, n)[k]) || s.rows_offered(
            rows,
            hosts,
            n,
        )[k].protocol() == Protocol::GameStream,
    decreases n,
{
    if n > 0 {
        let before = s.rows_offered(rows, hosts, n - 1);
        if k < before.len() {
            lemma_offered_from(s, rows, hosts, n - 1, k);
        }
    }
}

/// Moving hosts on and off the sidebar moves none of those that they give way to.
proof fn lemma_same_shadows(s: AppView, addr: Seq<char>)
    requires
        s.prefs.settings.gamestream_enabled,
        parked_wf(s.hosts.shadowed_gamestream),
    ensures
        s.shadowing_refreshed().shadowed(addr) == s.shadowed(addr),
{
    reveal(AppView::shadowed);
    let t = s.shadowing_refreshed();
    let n = s.hosts.entries.len() as int;
    let kept = s.kept_rows(n);
    let hosts = s.parked_hosts(n);
    lemma_parked_protocol(s, n);
    if s.shadowed(addr) {
        let i = choose|i: int| 0 <= i < n && #[trigger] s.shadows(i, addr);
        let e = s.hosts.entries[i];
        lemma_kept_contains(s, n, i);
        lemma_offered_contains(s, kept, hosts, hosts.len() as int, e);
        let j = choose|j: int| 0 <= j < t.hosts.entries.len() && t.hosts.entries[j] == e;
        assert(t.shadows(j, addr));
    }
    if t.shadowed(addr) {
        let j = choose|j: int| 0 <= j < t.hosts.entries.len() && #[trigger] t.shadows(j, addr);
        let e = t.hosts.entries[j];
        lemma_offered_from(s, kept, hosts, hosts.len() as int, j);
        let k = choose|k: int| 0 <= k < kept.len() && kept[k] == e;
        lemma_kept_from(s, n, k);
        let i = choose|i: int| 0 <= i < n && s.hosts.entries[i] == e;
        assert(s.shadows(i, addr));
    }
}

/// Where no row gives way, all are kept.
proof fn lemma_all_kept(s: AppView, n: int)
    requires
        0 <= n <= s.hosts.entries.len(),
        forall|i: int| 0 <= i < n ==> !s.gives_way(#[trigger] s.hosts.entries[i]),
    ensures
        s.kept_rows(n) == s.hosts.entries.take(n),
        s.parked_hosts(n) == s.hosts.shadowed_gamestream,
        !s.any_gives_way(n),
    decreases n,
{
    if n > 0 {
        lemma_all_kept(s, n - 1);
        assert(s.hosts.entries.take(n) =~= s.hosts.entries.take(n - 1).push(
            s.hosts.entries[n - 1],
        ));
    } else {
        assert(s.hosts.entries.take(n) =~= seq![]);
    }
}

/// Where all hosts are still shadowed, none is offered.
proof fn lemma_none_offered(s: AppView, rows: Seq<EntryView>, hosts: Seq<DiscoveredView>, n: int)
    requires
        0 <= n <= hosts.len(),
        forall|i: int| 0 <= i < n ==> s.shadowed((#[trigger] hosts[i]).addr),
    ensures
        s.rows_offered(rows, hosts, n) == rows,
        s.still_parked(hosts, n) == hosts.take(n),
    decreases n,
{
    if n > 0 {
        lemma_none_offered(s, rows, hosts, n - 1);
        assert(hosts.take(n) =~= hosts.take(n - 1).push(hosts[n - 1]));
    } else {
        assert(hosts.take(n) =~= seq![]);
    }
}

/// Once the sidebar matches what is reachable, it does: no row that is left gives way, every host
/// kept off it is shadowed, and matching it again moves nothing and changes nothing.
pub proof fn law_shadowing_settles(s: AppView)
    requires
        s.prefs.settings.gamestream_enabled,
        parked_wf(s.hosts.shadowed_gamestream),
    ensures
        ({
            let t = s.shadowing_refreshed();
            &&& parked_wf(t.hosts.shadowed_gamestream)
            &&& forall|k: int|
                0 <= k < t.hosts.entries.len() ==> !t.gives_way(#[trigger] t.hosts.entries[k])
            &&& forall|k: int|
                0 <= k < t.hosts.shadowed_gamestream.len() ==> t.shadowed(
                    (#[trigger] t.hosts.shadowed_gamestream[k]).addr,
                )
            &&& !t.shadowing_changes()
            &&& t.shadowing_refreshed() == t
        }),
{
    let t = s.shadowing_refreshed();
    let n = s.hosts.entries.len() as int;
    let hosts = s.parked_hosts(n);
    lemma_parked_protocol(s, n);
    lemma_still_parked_protocol(s, hosts, hosts.len() as int);
    assert forall|k: int| 0 <= k < t.hosts.entries.len() implies !t.gives_way(
        #[trigger] t.hosts.entries[k],
    ) by {
        law_no_shadowed_row_left(s, k);
        lemma_same_shadows(s, t.hosts.entries[k]->Discovered_0.addr);
    }
    assert forall|k: int| 0 <= k < t.hosts.shadowed_gamestream.len() implies t.shadowed(
        (#[trigger] t.hosts.shadowed_gamestream[k]).addr,
    ) by {
        law_parked_are_shadowed(s, k);
        lemma_same_shadows(s, t.hosts.shadowed_gamestream[k].addr);
    }
    let m = t.hosts.entries.len() as int;
    let stay = t.hosts.shadowed_gamestream;
    lemma_all_kept(t, m);
    assert(t.hosts.entries.take(m) =~= t.hosts.entries);
    lemma_none_offered(t, t.hosts.entries, stay, stay.len() as int);
    assert(stay.take(stay.len() as int) =~= stay);
    assert(t.shadowing_refreshed().hosts == t.hosts);
}

/// The rows that do not give way keep their order, and those that come back follow them.
pub proof fn law_other_rows_keep_order(s: AppView)
    requires
        s.prefs.settings.gamestream_enabled,
    ensures
        ({
            let kept = s.hosts.entries.filter(|e: EntryView| !s.gives_way(e));
            let rows = s.shadowing_refreshed().hosts.entries;
            &&& kept.len() <= rows.len()
            &&& rows.take(kept.len() as int) == kept
            &&& s.shadowing_changes() <==> kept.len() < s.hosts.entries.len() || rows.len()
                > kept.len()
        }),
{
    let n = s.hosts.entries.len() as int;
    lemma_kept_filter(s, n);
    assert(s.hosts.entries.take(n) =~= s.hosts.entries);
    let kept = s.kept_rows(n);
    let hosts = s.parked_hosts(n);
    lemma_offered_prefix(s, kept, hosts, hosts.len() as int);
}

proof fn lemma_kept_filter(s: AppView, n: int)
    requires
        0 <= n <= s.hosts.entries.len(),
    ensures
        s.kept_rows(n) == s.hosts.entries.take(n).filter(|e: EntryView| !s.gives_way(e)),
        s.kept_rows(n).len() <= n,
        s.any_gives_way(n) <==> s.kept_rows(n).len() < n,
    decreases n,
{
    reveal(Seq::filter);
    if n > 0 {
        lemma_kept_filter(s, n - 1);
        assert(s.hosts.entries.take(n).drop_last() =~= s.hosts.entries.take(n - 1));
    }
}

proof fn lemma_offered_prefix(s: AppView, rows: Seq<EntryView>, hosts: Seq<DiscoveredView>, n: int)
    requires
        0 <= n <= hosts.len(),
    ensures
        rows.len() <= s.rows_offered(rows, hosts, n).len(),
        s.rows_offered(rows, hosts, n).take(rows.len() as int) == rows,
    decreases n,
{
    if n > 0 {
        lemma_offered_prefix(s, rows, hosts, n - 1);
        let before = s.rows_offered(rows, hosts, n - 1);
        assert(s.rows_offered(rows, hosts, n).take(rows.len() as int) =~= before.take(
            rows.len() as int,
        ));
    } else {
        assert(rows.take(rows.len() as int) =~= rows);
    }
}

pub const QUIT_ASKING_HEAD: &'static str = "Asking ";

pub const QUIT_ASKING_TAIL: &'static str = " to close what it's running…";

pub const QUIT_CLOSED_TAIL: &'static str = " closed its running app.";

pub const QUIT_REFUSED_TAIL: &'static str = " had nothing running, or the session is another device's.";

pub const QUIT_FAILED_HEAD: &'static str = "Couldn't reach ";

pub const QUIT_FAILED_TAIL: &'static str = ".";

/// How a host answered when it was told to end what it is running.
#[derive(Clone, Copy, Debug, PartialEq, Eq, Structural)]
pub enum QuitAnswer {
    Closed,
    /// Nothing ran, or it belongs to another device.
    Refused,
    Unreachable,
}

/// What is said of that.
pub open spec fn quit_text(host: Seq<char>, answer: QuitAnswer) -> Seq<char> {
    match answer {
        QuitAnswer::Closed => host + QUIT_CLOSED_TAIL@,
        QuitAnswer::Refused => host + QUIT_REFUSED_TAIL@,
        QuitAnswer::Unreachable => QUIT_FAILED_HEAD@ + host + QUIT_FAILED_TAIL@,
    }
}

/// What is said of a host's answer.
pub fn quit_message(host: &str, answer: QuitAnswer) -> (r: String)
    ensures
        r@ == quit_text(host@, answer),
{
    match answer {
        QuitAnswer::Closed => {
            let mut s = host.to_owned();
            s.append(QUIT_CLOSED_TAIL);
            s
        },
        QuitAnswer::Refused => {
            let mut s = host.to_owned();
            s.append(QUIT_REFUSED_TAIL);
            s
        },
        QuitAnswer::Unreachable => join3(QUIT_FAILED_HEAD, host, QUIT_FAILED_TAIL),
    }
}

/// What has come of something that was asked of a host.
#[derive(Debug)]
pub enum News<T> {
    /// Nothing yet.
    Waiting,
    Came(T),
    /// Nothing, and nothing will.
    Lost,
}

/// An address that turned out to be a GameStream host.
#[derive(Debug)]
pub struct GsProbed {
    pub host: String,
    /// The port that its record was saved with.
    pub port: u16,
    /// What the host calls itself.
    pub name: String,
}

pub const IS_GAMESTREAM_TAIL: &'static str = " is a GameStream host — show its pairing PIN to pair.";

/// The row of the first saved host at this address, whatever its port, or the number of rows.
pub open spec fn saved_row(rows: Seq<EntryView>, host: Seq<char>) -> int
    decreases rows.len(),
{
    if rows.len() == 0 {
        0
    } else if rows[0] is Known && rows[0].host() == host {
        0
    } else {
        1 + saved_row(rows.drop_first(), host)
    }
}

proof fn lemma_saved_row(rows: Seq<EntryView>, host: Seq<char>, k: int)
    requires
        0 <= k <= rows.len(),
        forall|i: int| 0 <= i < k ==> !((#[trigger] rows[i]) is Known && rows[i].host() == host),
        k < rows.len() ==> rows[k] is Known && rows[k].host() == host,
    ensures
        saved_row(rows, host) == k,
    decreases rows.len(),
{
    if rows.len() > 0 && k > 0 {
        let rest = rows.drop_first();
        assert(!(rows[0] is Known && rows[0].host() == host));
        assert forall|i: int| 0 <= i < k - 1 implies !((#[trigger] rest[i]) is Known
            && rest[i].host() == host) by {
            assert(rest[i] == rows[i + 1]);
        }
        lemma_saved_row(rest, host, k - 1);
    }
}

fn find_saved_row(rows: &Vec<HostEntry>, host: &str) -> (r: usize)
    ensures
        r == saved_row(views(rows@), host@),
        r <= rows.len(),
{
    let ghost all = views(rows@);
    let mut i: usize = 0;
    while i < rows.len()
        invariant
            i <= rows.len(),
            all == views(rows@),
            forall|j: int|
                0 <= j < i ==> !((#[trigger] all[j]) is Known && all[j].host() == host@),
        decreases rows.len() - i,
    {
        let known = match &rows[i] {
            HostEntry::Known(_) => true,
            HostEntry::Discovered(_) => false,
        };
        if known && same_text(rows[i].host().as_str(), host) {
            proof {
                lemma_saved_row(all, host@, i as int);
            }
            return i;
        }
        i += 1;
    }
    proof {
        lemma_saved_row(all, host@, rows.len() as int);
    }
    rows.len()
}

/// A record rewritten for the host that answered: its own name is taken where the user gave none.
pub open spec fn rewritten(k: KnownHostView, p: GsProbed) -> KnownHostView {
    KnownHostView {
        protocol: Protocol::GameStream,
        port: GS_PROBE_PORT,
        mgmt_port: Some(GS_PROBE_PORT),
        name: if k.name == p.host@ {
            p.name@
        } else {
            k.name
        },
        ..k
    }
}

impl AppView {
    /// After telling the host in row `idx` to end what it is running, if its protocol can.
    pub open spec fn quit_started(self, idx: int) -> AppView {
        if 0 <= idx < self.hosts.entries.len() && caps_of(
            self.hosts.entries[idx].protocol(),
        ).quit_app {
            let e = self.hosts.entries[idx];
            AppView {
                hosts: HostsView { quit_app_pending: true, ..self.hosts },
                menu: Menu { host_menu_index: None, ..self.menu },
                ..self
            }.on(Screen::Home).saying(QUIT_ASKING_HEAD@ + e.name() + QUIT_ASKING_TAIL@).asking(
                CommandView::QuitApp {
                    name: e.name(),
                    host: e.host(),
                    port: match e.mgmt_port() {
                        Some(p) => p,
                        None => query_port_of(e.protocol()),
                    },
                },
            )
        } else {
            self
        }
    }

    /// After hearing how that went.
    pub open spec fn quit_heard(self, news: News<(String, QuitAnswer)>) -> AppView {
        let s = AppView { hosts: HostsView { quit_app_pending: false, ..self.hosts }, ..self };
        if !self.hosts.quit_app_pending {
            self
        } else {
            match news {
                News::Waiting => self,
                News::Came((name, answer)) => s.saying(quit_text(name@, answer)),
                News::Lost => s.silent(),
            }
        }
    }

    /// After asking a typed address whether it is a GameStream host.
    pub open spec fn fallback_probed(self, host: Seq<char>, port: u16) -> AppView {
        if !self.prefs.settings.gamestream_enabled {
            self
        } else {
            AppView {
                hosts: HostsView { gs_probe_pending: true, ..self.hosts },
                ..self
            }.asking(CommandView::ProbeGameStream { host, port })
        }
    }

    /// After rewriting the record of a typed address: one host, one row, and the focus on it.
    pub open spec fn record_rewritten(self, p: GsProbed) -> AppView {
        let k = host_at(self.hosts.known_hosts, p.host@, p.port)->0;
        let s = self.with_hosts(
            self.hosts.known_hosts.update(
                host_index(self.hosts.known_hosts, p.host@, p.port),
                rewritten(k, p),
            ),
        ).asking(CommandView::SaveKnownHosts).saying(p.name@ + IS_GAMESTREAM_TAIL@).sidebar_stale();
        let row = saved_row(s.hosts.entries, p.host@);
        if row < s.hosts.entries.len() {
            s.focused(HomeFocus::Sidebar(row as usize))
        } else {
            s
        }
    }

    /// After hearing whether a typed address is a GameStream host. A record that is gone or was
    /// edited meanwhile stays as it is.
    pub open spec fn fallback_heard(self, news: News<GsProbed>) -> AppView {
        let s = AppView { hosts: HostsView { gs_probe_pending: false, ..self.hosts }, ..self };
        if !self.hosts.gs_probe_pending {
            self
        } else {
            match news {
                News::Waiting => self,
                News::Lost => s,
                News::Came(p) => if s.is_saved(p.host@, p.port) {
                    s.record_rewritten(p)
                } else {
                    s
                },
            }
        }
    }
}

impl App {
    /// Tells the host in row `idx` to end what it is running.
    pub fn start_quit_app(&mut self, idx: usize)
        ensures
            final(self)@ == old(self)@.quit_started(idx as int),
    {
        if idx >= self.hosts.entries.len() {
            return ;
        }
        let e = &self.hosts.entries[idx];
        let protocol = e.protocol();
        if !protocol_caps(protocol).quit_app {
            return ;
        }
        let name = e.name();
        let host = e.host();
        let port: u16 = match e.mgmt_port() {
            Some(p) => p,
            None => protocol_query_port(protocol),
        };
        self.menu.host_menu_index = None;
        self.nav.screen = Screen::Home;
        self.home_status = Some(join3(QUIT_ASKING_HEAD, name.as_str(), QUIT_ASKING_TAIL));
        self.hosts.quit_app_pending = true;
        self.outbox.push(Command::QuitApp { name, host, port });
    }

    /// Takes in how ending the app went. Returns whether the status line changed.
    pub fn drain_quit_app(&mut self, news: News<(String, QuitAnswer)>) -> (changed: bool)
        ensures
            final(self)@ == old(self)@.quit_heard(news),
            changed == (old(self)@.hosts.quit_app_pending && !(news is Waiting)),
    {
        if !self.hosts.quit_app_pending {
            return false;
        }
        match news {
            News::Waiting => false,
            News::Came((name, answer)) => {
                self.hosts.quit_app_pending = false;
                self.home_status = Some(quit_message(name.as_str(), answer));
                true
            },
            News::Lost => {
                self.hosts.quit_app_pending = false;
                self.home_status = None;
                true
            },
        }
    }

    /// Asks a typed address whether it is a GameStream host.
    pub fn probe_gamestream_fallback(&mut self, host: String, port: u16)
        ensures
            final(self)@ == old(self)@.fallback_probed(host@, port),
    {
        if !self.prefs.settings.gamestream_enabled {
            return ;
        }
        self.hosts.gs_probe_pending = true;
        self.outbox.push(Command::ProbeGameStream { host, port });
    }

    fn rewrite_record(&mut self, at: usize, p: &GsProbed)
        requires
            old(self)@.is_saved(p.host@, p.port),
            at < old(self).hosts.known_hosts.len(),
            at == host_index(old(self)@.hosts.known_hosts, p.host@, p.port),
        ensures
            final(self)@ == old(self)@.record_rewritten(*p),
    {
        let mut record = self.hosts.known_hosts[at].clone();
        record.protocol = Protocol::GameStream;
        record.port = GS_PROBE_PORT;
        record.mgmt_port = Some(GS_PROBE_PORT);
        if same_text(record.name.as_str(), p.host.as_str()) {
            record.name = p.name.clone();
        }
        self.hosts.known_hosts.set(at, record);
        self.outbox.push(Command::SaveKnownHosts);
        self.hosts.entries = rows_of(&self.hosts.known_hosts);
        let mut said = p.name.clone();
        said.append(IS_GAMESTREAM_TAIL);
        self.home_status = Some(said);
        let row: usize = find_saved_row(&self.hosts.entries, p.host.as_str());
        if row < self.hosts.entries.len() {
            self.nav.home_focus = HomeFocus::Sidebar(row);
        }
        self.canvas.sidebar_dirty = true;
    }

    /// Takes in whether a typed address is a GameStream host. Returns whether its record was
    /// rewritten.
    pub fn drain_gamestream_probe(&mut self, news: News<GsProbed>) -> (changed: bool)
        ensures
            final(self)@ == old(self)@.fallback_heard(news),
            changed == (old(self)@.hosts.gs_probe_pending && (news matches News::Came(p)
                && old(self)@.is_saved(p.host@, p.port))),
    {
        if !self.hosts.gs_probe_pending {
            return false;
        }
        match news {
            News::Waiting => false,
            News::Lost => {
                self.hosts.gs_probe_pending = false;
                false
            },
            News::Came(p) => {
                self.hosts.gs_probe_pending = false;
                match find_host(&self.hosts.known_hosts, p.host.as_str(), p.port) {
                    None => false,
                    Some(at) => {
                        self.rewrite_record(at, &p);
                        true
                    },
                }
            },
        }
    }
}

/// A row gives way exactly where it was only announced, speaks GameStream, and another row shows
/// the same machine with the better protocol, which is not known not to answer.
pub proof fn law_row_gives_way_to_the_better_protocol(s: AppView, e: EntryView)
    ensures
        s.gives_way(e) == (e is Discovered && e.protocol() == Protocol::GameStream && exists|i: int|
            0 <= i < s.hosts.entries.len() && (#[trigger] s.hosts.entries[i]).host() == e.host()
                && s.hosts.entries[i].protocol() == Protocol::Punktfunk && s.online(
                e.host(),
                s.hosts.entries[i].port(),
            ) != Some(false)),
{
    reveal(AppView::shadowed);
    if s.gives_way(e) {
        let i = choose|i: int|
            0 <= i < s.hosts.entries.len() && #[trigger] s.shadows(i, e.host());
        assert(s.hosts.entries[i].host() == e.host());
    }
    if e is Discovered && exists|i: int|
        0 <= i < s.hosts.entries.len() && (#[trigger] s.hosts.entries[i]).host() == e.host()
            && s.hosts.entries[i].protocol() == Protocol::Punktfunk && s.online(
            e.host(),
            s.hosts.entries[i].port(),
        ) != Some(false) {
        let i = choose|i: int|
            0 <= i < s.hosts.entries.len() && (#[trigger] s.hosts.entries[i]).host() == e.host()
                && s.hosts.entries[i].protocol() == Protocol::Punktfunk && s.online(
                e.host(),
                s.hosts.entries[i].port(),
            ) != Some(false);
        assert(s.shadows(i, e.host()));
    }
}

proof fn lemma_offered_all(
    s: AppView,
    rows: Seq<EntryView>,
    hosts: Seq<DiscoveredView>,
    n: int,
    j: int,
)
    requires
        0 <= j < n <= hosts.len(),
        !s.shadowed(hosts[j].addr),
    ensures
        exists|k: int|
            0 <= k < s.rows_offered(rows, hosts, n).len() && (#[trigger] s.rows_offered(
                rows,
                hosts,
                n,
            )[k]).host() == hosts[j].addr && s.rows_offered(rows, hosts, n)[k].port()
                == hosts[j].port,
    decreases n,
{
    let before = s.rows_offered(rows, hosts, n - 1);
    let all = s.rows_offered(rows, hosts, n);
    if j < n - 1 {
        lemma_offered_all(s, rows, hosts, n - 1, j);
        let k = choose|k: int|
            0 <= k < before.len() && (#[trigger] before[k]).host() == hosts[j].addr
                && before[k].port() == hosts[j].port;
        assert(all[k] == before[k]);
    } else {
        let d = hosts[j];
        if is_listed(before, d.addr, d.port) {
            let k = entry_index(before, d.addr, d.port);
            if before.len() > 0 {
                crate::store::law_row_is_found_by_its_address(before, d.addr, d.port, 0);
            } else {
                reveal(crate::store::entry_index);
                crate::seqs::lemma_index_in(
                    crate::store::entry_keys(before),
                    (d.addr, d.port),
                );
            }
            assert(all[k].host() == d.addr);
        } else {
            assert(all[before.len() as int] == EntryView::Discovered(d));
        }
    }
}

proof fn lemma_parked_prefix(s: AppView, n: int)
    requires
        0 <= n <= s.hosts.entries.len(),
    ensures
        s.hosts.shadowed_gamestream.len() <= s.parked_hosts(n).len(),
        forall|j: int|
            0 <= j < s.hosts.shadowed_gamestream.len() ==> s.parked_hosts(n)[j]
                == #[trigger] s.hosts.shadowed_gamestream[j],
    decreases n,
{
    if n > 0 {
        lemma_parked_prefix(s, n - 1);
    }
}

/// A host that was kept off the sidebar has a row again as soon as nothing better may answer at
/// its address.
pub proof fn law_host_comes_back(s: AppView, j: int)
    requires
        s.prefs.settings.gamestream_enabled,
        0 <= j < s.hosts.shadowed_gamestream.len(),
        !s.shadowed(s.hosts.shadowed_gamestream[j].addr),
    ensures
        exists|k: int|
            0 <= k < s.shadowing_refreshed().hosts.entries.len() && (
            #[trigger] s.shadowing_refreshed().hosts.entries[k]).host()
                == s.hosts.shadowed_gamestream[j].addr
                && s.shadowing_refreshed().hosts.entries[k].port()
                == s.hosts.shadowed_gamestream[j].port,
{
    let n = s.hosts.entries.len() as int;
    let hosts = s.parked_hosts(n);
    lemma_parked_prefix(s, n);
    assert(hosts[j] == s.hosts.shadowed_gamestream[j]);
    lemma_offered_all(s, s.kept_rows(n), hosts, hosts.len() as int, j);
    let rows = s.rows_refreshed();
    let k = choose|k: int|
        0 <= k < rows.len() && (#[trigger] rows[k]).host() == hosts[j].addr && rows[k].port()
            == hosts[j].port;
    assert(s.shadowing_refreshed().hosts.entries[k] == rows[k]);
}

/// With the protocol switched off no host is kept for later, and the rows stay as they are.
pub proof fn law_nothing_parked_while_off(s: AppView)
    requires
        !s.prefs.settings.gamestream_enabled,
    ensures
        s.shadowing_refreshed().hosts.shadowed_gamestream.len() == 0,
        s.shadowing_refreshed().hosts.entries == s.hosts.entries,
        !s.shadowing_changes(),
{
}

/// After rows have come or gone the focus is on the same row: a host row keeps its place, and
/// what follows the hosts, "Add host" and "Settings", moves along with their number.
pub proof fn law_focus_keeps_its_row(s: AppView, before: int)
    requires
        s.nav.home_focus matches HomeFocus::Sidebar(i) ==> i < before || s.hosts.entries.len() + i
            - before <= usize::MAX,
    ensures
        ({
            let t = s.reanchored(before);
            &&& s.nav.home_focus matches HomeFocus::Sidebar(i) ==> (t.nav.home_focus matches
                HomeFocus::Sidebar(j) && (if i < before {
                j == i
            } else {
                j - s.hosts.entries.len() == i - before
            }))
            &&& !(s.nav.home_focus is Sidebar) ==> t == s
            &&& t.hosts == s.hosts
        }),
{
}

/// The answers of a sweep are taken in while one is under way, and only then; the sweep is over
/// once no more will come.
pub proof fn law_sweep_is_heard_while_it_runs(s: AppView, rs: Seq<ReachabilityView>, finished: bool)
    ensures
        !s.hosts.reach_pending ==> s.sweep_taken(rs, finished) == s,
        s.hosts.reach_pending ==> s.sweep_taken(rs, finished).hosts.reach_pending == !finished,
{
    if s.hosts.reach_pending {
        lemma_sweep_pending(s, rs, finished);
    }
}

proof fn lemma_sweep_pending(s: AppView, rs: Seq<ReachabilityView>, finished: bool)
    ensures
        s.sweep_noted(rs, finished).hosts.reach_pending == (s.hosts.reach_pending && !finished),
        s.sweep_noted(rs, finished).shadowing_settled().hosts.reach_pending == (
        s.hosts.reach_pending && !finished),
{
    let a = s.answers_noted(rs, rs.len() as int);
    lemma_answers_pending(s, rs, rs.len() as int);
    lemma_macs_pending(a.sweep_ended(finished), rs, rs.len() as int);
}

proof fn lemma_answers_pending(s: AppView, rs: Seq<ReachabilityView>, n: int)
    ensures
        s.answers_noted(rs, n).hosts.reach_pending == s.hosts.reach_pending,
    decreases n,
{
    if n > 0 {
        lemma_answers_pending(s, rs, n - 1);
    }
}

proof fn lemma_macs_pending(s: AppView, rs: Seq<ReachabilityView>, n: int)
    ensures
        s.macs_learned(rs, n).hosts.reach_pending == s.hosts.reach_pending,
    decreases n,
{
    if n > 0 {
        lemma_macs_pending(s, rs, n - 1);
    }
}

/// The answers of a sweep stand: of a host asked about once, what it answered is known after the
/// sweep.
pub proof fn law_answers_stand(s: AppView, rs: Seq<ReachabilityView>, n: int, i: int)
    requires
        0 <= i < n <= rs.len(),
        forall|j: int|
            i < j < n ==> !((#[trigger] rs[j]).host == rs[i].host && rs[j].port == rs[i].port),
    ensures
        s.answers_noted(rs, n).online(rs[i].host, rs[i].port) == Some(rs[i].online),
    decreases n,
{
    let before = s.answers_noted(rs, n - 1);
    crate::app::reach::law_answer_is_taken_down(before, rs[n - 1], rs[i].host, rs[i].port);
    if i < n - 1 {
        law_answers_stand(s, rs, n - 1, i);
    }
}

proof fn lemma_rows_shown(s: AppView, rows: Seq<EntryView>, found: bool, n: int, e: EntryView)
    requires
        0 <= n <= rows.len(),
    ensures
        s.rows_shown(rows, found, n).contains(e) == (rows.take(n).contains(e) && (
        s.prefs.settings.gamestream_enabled || e.protocol() != Protocol::GameStream) && (found
            ==> e is Discovered)),
    decreases n,
{
    if n > 0 {
        lemma_rows_shown(s, rows, found, n - 1, e);
        let before = s.rows_shown(rows, found, n - 1);
        let all = s.rows_shown(rows, found, n);
        assert(rows.take(n - 1).push(rows[n - 1]) =~= rows.take(n));
        let kept = s.shown(rows[n - 1].protocol()) && (found ==> rows[n - 1] is Discovered);
        if all.contains(e) {
            let k = choose|k: int| 0 <= k < all.len() && all[k] == e;
            if kept && k == before.len() {
                assert(rows.take(n)[n - 1] == e);
            } else {
                assert(before[k] == e);
                assert(before.contains(e));
                let head = rows.take(n - 1);
                let q = choose|q: int| 0 <= q < head.len() && head[q] == e;
                assert(rows.take(n)[q] == e);
            }
        }
        if rows.take(n).contains(e) {
            let head = rows.take(n);
            let q = choose|q: int| 0 <= q < head.len() && head[q] == e;
            if q < n - 1 {
                assert(rows.take(n - 1)[q] == e);
                if before.contains(e) {
                    let k = choose|k: int| 0 <= k < before.len() && before[k] == e;
                    assert(all[k] == e);
                }
            } else if kept {
                assert(all[before.len() as int] == e);
            }
        }
    } else {
        assert(rows.take(0) =~= seq![]);
    }
}

/// The rows are listed anew with every saved host and every announced one that had a row, less
/// those of a protocol that is switched off.
pub proof fn law_rows_follow_the_switch(s: AppView, e: EntryView)
    ensures
        ({
            let shown = s.prefs.settings.gamestream_enabled || e.protocol() != Protocol::GameStream;
            let had = match e {
                EntryView::Known(h) => s.hosts.known_hosts.contains(h),
                EntryView::Discovered(_) => s.hosts.entries.contains(e),
            };
            s.refiltered().hosts.entries.contains(e) == (shown && had)
        }),
        s.refiltered().hosts.known_hosts == s.hosts.known_hosts,
        s.refiltered().outbox == s.outbox,
{
    let saved = known_entries(s.hosts.known_hosts);
    crate::store::lemma_known_entries(s.hosts.known_hosts);
    let n = saved.len() as int;
    let m = s.hosts.entries.len() as int;
    lemma_rows_shown(s, saved, false, n, e);
    lemma_rows_shown(s, s.hosts.entries, true, m, e);
    assert(saved.take(n) =~= saved);
    assert(s.hosts.entries.take(m) =~= s.hosts.entries);
    let a = s.rows_shown(saved, false, n);
    let b = s.rows_shown(s.hosts.entries, true, m);
    let rows = s.refiltered().hosts.entries;
    assert(rows == a + b);
    if a.contains(e) {
        let k = choose|k: int| 0 <= k < a.len() && a[k] == e;
        assert(rows[k] == e);
    }
    if b.contains(e) {
        let k = choose|k: int| 0 <= k < b.len() && b[k] == e;
        assert(rows[a.len() + k] == e);
    }
    if rows.contains(e) {
        let k = choose|k: int| 0 <= k < rows.len() && rows[k] == e;
        if k < a.len() {
            assert(a[k] == e);
        } else {
            assert(b[k - a.len()] == e);
        }
    }
    if let EntryView::Known(h) = e {
        if s.hosts.known_hosts.contains(h) {
            let k = choose|k: int|
                0 <= k < s.hosts.known_hosts.len() && s.hosts.known_hosts[k] == h;
            assert(saved[k] == e);
        }
        if saved.contains(e) {
            let k = choose|k: int| 0 <= k < saved.len() && saved[k] == e;
            assert(s.hosts.known_hosts[k] == h);
        }
    } else {
        if saved.contains(e) {
            let k = choose|k: int| 0 <= k < saved.len() && saved[k] == e;
            assert(saved[k] is Known);
        }
    }
}

/// Switching the protocol begins browsing anew; switching it off leaves no host of it selected.
pub proof fn law_switching_off_deselects(s: AppView)
    ensures
        ({
            let t = s.visibility_applied();
            let gs = s.selected_known() matches Some(k) && k.protocol == Protocol::GameStream;
            &&& t.outbox == s.outbox.push(CommandView::RestartDiscovery)
            &&& !s.prefs.settings.gamestream_enabled && gs ==> t.hosts.selected_host is None
                && t.shelf.games.len() == 0
            &&& s.prefs.settings.gamestream_enabled || !gs ==> t.hosts.selected_host
                == s.hosts.selected_host && t.shelf == s.shelf
            &&& t.hosts.known_hosts == s.hosts.known_hosts
        }),
{
}

/// A host that can end what it is running is asked to, at its management port or the usual one;
/// another host is not. Its answer is told, once.
pub proof fn law_running_app_is_ended(s: AppView, idx: int, name: String, answer: QuitAnswer)
    ensures
        ({
            let t = s.quit_started(idx);
            let e = s.hosts.entries[idx];
            let can = 0 <= idx < s.hosts.entries.len() && e.protocol() == Protocol::GameStream;
            &&& !can ==> t == s
            &&& can ==> {
                &&& t.hosts.quit_app_pending && t.nav.screen == Screen::Home
                &&& t.outbox == s.outbox.push(
                    CommandView::QuitApp {
                        name: e.name(),
                        host: e.host(),
                        port: match e.mgmt_port() {
                            Some(p) => p,
                            None => 47989,
                        },
                    },
                )
                &&& t.home_status == Some("Asking "@ + e.name() + " to close what it's running…"@)
            }
            &&& s.hosts.quit_app_pending ==> {
                let u = s.quit_heard(News::Came((name, answer)));
                &&& !u.hosts.quit_app_pending
                &&& u.home_status == Some(
                    match answer {
                        QuitAnswer::Closed => name@ + " closed its running app."@,
                        QuitAnswer::Refused => name@
                            + " had nothing running, or the session is another device's."@,
                        QuitAnswer::Unreachable => "Couldn't reach "@ + name@ + "."@,
                    },
                )
                &&& s.quit_heard(News::Waiting) == s
                &&& s.quit_heard(News::Lost).home_status is None
                &&& !s.quit_heard(News::Lost).hosts.quit_app_pending
            }
            &&& !s.hosts.quit_app_pending ==> s.quit_heard(News::Came((name, answer))) == s
        }),
{
}

/// A typed address that turns out to be a GameStream host becomes one: its record gets the
/// protocol and its port, and the host's own name where it had none but its address; the pairing,
/// the pins and all other records stay. It is asked only while the protocol is switched on.
pub proof fn law_typed_address_becomes_gamestream(s: AppView, p: GsProbed, i: int)
    requires
        s.hosts.gs_probe_pending,
        host_at(s.hosts.known_hosts, p.host@, p.port) is Some,
        0 <= i < s.hosts.known_hosts.len(),
    ensures
        ({
            let t = s.fallback_heard(News::Came(p));
            let at = host_index(s.hosts.known_hosts, p.host@, p.port);
            let was = s.hosts.known_hosts[i];
            let is = t.hosts.known_hosts[i];
            &&& !t.hosts.gs_probe_pending
            &&& t.hosts.known_hosts.len() == s.hosts.known_hosts.len()
            &&& i != at ==> is == was
            &&& i == at ==> {
                &&& is.protocol == Protocol::GameStream && is.port == 47989 && is.mgmt_port == Some(
                    47989u16,
                )
                &&& is.host == was.host && is.fingerprint == was.fingerprint && is.pinned
                    == was.pinned && is.mac == was.mac && is.wol_auto == was.wol_auto
                &&& is.name == if was.name == p.host@ {
                    p.name@
                } else {
                    was.name
                }
            }
            &&& t.outbox == s.outbox.push(CommandView::SaveKnownHosts)
            &&& t.home_status == Some(
                p.name@ + " is a GameStream host — show its pairing PIN to pair."@,
            )
        }),
        forall|host: Seq<char>, port: u16|
            s.prefs.settings.gamestream_enabled ==> (#[trigger] s.fallback_probed(host, port)).outbox
                == s.outbox.push(CommandView::ProbeGameStream { host, port }),
        forall|host: Seq<char>, port: u16|
            !s.prefs.settings.gamestream_enabled ==> #[trigger] s.fallback_probed(host, port) == s,
        s.fallback_heard(News::Waiting) == s,
        s.fallback_heard(News::Lost).hosts.known_hosts == s.hosts.known_hosts,
{
}

} // verus!
