//! Which hosts of the sidebar answer, asked now and then.
use vstd::prelude::*;

use crate::app::scroll::{elapsed, since};
use crate::app::{
    App, AppView, Command, CommandView, HostsView, Reach, ReachTarget, ReachTargetView, ReachView,
};
use crate::seqs::{clone_strings, index_in, lemma_index_in, lemma_index_in_unique, views};
use crate::store::{
    entry_index, find_entry, find_host, host_at, host_index, EntryView, HostEntry, KnownHostView,
};
use crate::text::same_text;

verus! {

broadcast use crate::seqs::group_views;

/// Milliseconds between two sweeps over the hosts.
pub const REACH_INTERVAL: u64 = 180_000;

/// One host's answer to a probe.
#[derive(Debug)]
pub struct Reachability {
    pub host: String,
    pub port: u16,
    pub online: bool,
    /// Wake-on-LAN addresses that the host reported of itself.
    pub mac: Vec<String>,
}

/// A `Reachability` as values.
pub struct ReachabilityView {
    pub host: Seq<char>,
    pub port: u16,
    pub online: bool,
    pub mac: Seq<Seq<char>>,
}

impl View for Reachability {
    type V = ReachabilityView;

    open spec fn view(&self) -> ReachabilityView {
        ReachabilityView {
            host: self.host@,
            port: self.port,
            online: self.online,
            mac: views(self.mac@),
        }
    }
}

/// The addresses that something is known of.
pub open spec fn reach_keys(reachable: Seq<ReachView>) -> Seq<(Seq<char>, u16)> {
    Seq::new(reachable.len(), |i: int| (reachable[i].host, reachable[i].port))
}

/// Where an address is noted, or the number of notes.
#[verifier::opaque]
pub open spec fn reach_index(reachable: Seq<ReachView>, host: Seq<char>, port: u16) -> int {
    index_in(reach_keys(reachable), (host, port))
}

/// Whether the host at this address answered last; nothing until it has been probed.
pub open spec fn reach_of(reachable: Seq<ReachView>, host: Seq<char>, port: u16) -> Option<bool> {
    let i = reach_index(reachable, host, port);
    if 0 <= i < reachable.len() {
        Some(reachable[i].online)
    } else {
        None
    }
}

/// After noting an answer.
pub open spec fn reach_noted(reachable: Seq<ReachView>, r: ReachView) -> Seq<ReachView> {
    let i = reach_index(reachable, r.host, r.port);
    if 0 <= i < reachable.len() {
        reachable.update(i, r)
    } else {
        reachable.push(r)
    }
}

fn find_reach(reachable: &Vec<Reach>, host: &str, port: u16) -> (r: usize)
    ensures
        r == reach_index(views(reachable@), host@, port),
        r <= reachable.len(),
{
    proof {
        reveal(reach_index);
    }
    let ghost keys = reach_keys(views(reachable@));
    let mut i: usize = 0;
    while i < reachable.len()
        invariant
            i <= reachable.len(),
            keys == reach_keys(views(reachable@)),
            forall|j: int| 0 <= j < i ==> keys[j] != (host@, port),
        decreases reachable.len() - i,
    {
        if reachable[i].port == port && same_text(reachable[i].host.as_str(), host) {
            proof {
                reveal(reach_index);
                lemma_index_in_unique(keys, (host@, port), i as int);
            }
            return i;
        }
        i += 1;
    }
    proof {
        lemma_index_in_unique(keys, (host@, port), reachable.len() as int);
    }
    reachable.len()
}

/// The row of a host, as a sweep takes it: a host with no Wake-on-LAN address on record is asked
/// for one.
pub open spec fn reach_target(e: EntryView) -> ReachTargetView {
    ReachTargetView {
        protocol: e.protocol(),
        host: e.host(),
        port: e.port(),
        want_mac: e.mac().len() == 0,
    }
}

/// The rows of a sweep.
pub open spec fn reach_targets(entries: Seq<EntryView>) -> Seq<ReachTargetView> {
    Seq::new(entries.len(), |i: int| reach_target(entries[i]))
}

impl AppView {
    /// Whether the host at this address answered last.
    pub open spec fn online(self, host: Seq<char>, port: u16) -> Option<bool> {
        reach_of(self.hosts.reachable, host, port)
    }

    /// Whether a sweep is due.
    pub open spec fn sweep_due(self, now: u64) -> bool {
        !self.hosts.reach_pending && match self.hosts.reach_last {
            Some(t) => elapsed(now, t) >= REACH_INTERVAL,
            None => true,
        }
    }

    /// After starting a sweep where one is due; with no host there is nothing to probe.
    pub open spec fn reach_ticked(self, now: u64) -> AppView {
        if !self.sweep_due(now) {
            self
        } else if self.hosts.entries.len() == 0 {
            AppView { hosts: HostsView { reach_last: Some(now), ..self.hosts }, ..self }
        } else {
            AppView {
                hosts: HostsView { reach_last: Some(now), reach_pending: true, ..self.hosts },
                ..self
            }.asking(
                CommandView::SweepReachability { targets: reach_targets(self.hosts.entries) },
            )
        }
    }

    /// After noting one answer.
    pub open spec fn answer_noted(self, r: ReachabilityView) -> AppView {
        AppView {
            hosts: HostsView {
                reachable: if self.online(r.host, r.port) == Some(r.online) {
                    self.hosts.reachable
                } else {
                    reach_noted(
                        self.hosts.reachable,
                        ReachView { host: r.host, port: r.port, online: r.online },
                    )
                },
                ..self.hosts
            },
            ..self
        }
    }

    /// After noting the first `n` answers.
    pub open spec fn answers_noted(self, rs: Seq<ReachabilityView>, n: int) -> AppView
        decreases n,
    {
        if n <= 0 {
            self
        } else {
            self.answers_noted(rs, n - 1).answer_noted(rs[n - 1])
        }
    }

    /// Whether any of the first `n` answers is news.
    pub open spec fn answers_new(self, rs: Seq<ReachabilityView>, n: int) -> bool
        decreases n,
    {
        n > 0 && (self.answers_new(rs, n - 1) || self.answers_noted(rs, n - 1).online(
            rs[n - 1].host,
            rs[n - 1].port,
        ) != Some(rs[n - 1].online))
    }

    /// Whether the host at this address is saved.
    pub open spec fn is_saved(self, host: Seq<char>, port: u16) -> bool {
        host_at(self.hosts.known_hosts, host, port) is Some
    }

    /// With these Wake-on-LAN addresses in the row of the host, where that shows a saved one.
    pub open spec fn row_mac(self, host: Seq<char>, port: u16, mac: Seq<Seq<char>>) -> AppView {
        let i = entry_index(self.hosts.entries, host, port);
        if 0 <= i < self.hosts.entries.len() {
            match self.hosts.entries[i] {
                EntryView::Known(k) => AppView {
                    hosts: HostsView {
                        entries: self.hosts.entries.update(
                            i,
                            EntryView::Known(KnownHostView { mac, ..k }),
                        ),
                        ..self.hosts
                    },
                    ..self
                },
                EntryView::Discovered(_) => self,
            }
        } else {
            self
        }
    }

    /// With these Wake-on-LAN addresses in the record of the host, and the record stored.
    pub open spec fn record_mac(self, host: Seq<char>, port: u16, mac: Seq<Seq<char>>) -> AppView {
        match host_at(self.hosts.known_hosts, host, port) {
            Some(k) => AppView {
                hosts: HostsView {
                    known_hosts: self.hosts.known_hosts.update(
                        host_index(self.hosts.known_hosts, host, port),
                        KnownHostView { mac, ..k },
                    ),
                    ..self.hosts
                },
                ..self
            }.asking(CommandView::SaveKnownHosts),
            None => self,
        }
    }

    /// After learning how to wake a host: its row and its record say so.
    pub open spec fn mac_learned(self, host: Seq<char>, port: u16, mac: Seq<Seq<char>>) -> AppView {
        self.row_mac(host, port, mac).record_mac(host, port, mac)
    }

    /// After learning from the first `n` answers how to wake their hosts.
    pub open spec fn macs_learned(self, rs: Seq<ReachabilityView>, n: int) -> AppView
        decreases n,
    {
        if n <= 0 {
            self
        } else {
            let before = self.macs_learned(rs, n - 1);
            if rs[n - 1].mac.len() == 0 {
                before
            } else {
                before.mac_learned(rs[n - 1].host, rs[n - 1].port, rs[n - 1].mac)
            }
        }
    }

    /// Whether any of the first `n` answers says how to wake a saved host.
    pub open spec fn macs_new(self, rs: Seq<ReachabilityView>, n: int) -> bool
        decreases n,
    {
        n > 0 && (self.macs_new(rs, n - 1) || (rs[n - 1].mac.len() > 0 && self.macs_learned(
            rs,
            n - 1,
        ).is_saved(rs[n - 1].host, rs[n - 1].port)))
    }
}

impl App {
    /// Asks for a sweep over the hosts where one is due.
    pub fn tick_reachability(&mut self, now: u64)
        ensures
            final(self)@ == old(self)@.reach_ticked(now),
    {
        if self.hosts.reach_pending {
            return ;
        }
        let recent = match self.hosts.reach_last {
            Some(t) => since(now, t) < REACH_INTERVAL,
            None => false,
        };
        if recent {
            return ;
        }
        self.hosts.reach_last = Some(now);
        if self.hosts.entries.len() == 0 {
            return ;
        }
        let mut targets: Vec<ReachTarget> = Vec::new();
        let mut i: usize = 0;
        while i < self.hosts.entries.len()
            invariant
                i <= self.hosts.entries.len(),
                targets.len() == i,
                forall|j: int|
                    0 <= j < i ==> (#[trigger] targets@[j])@ == reach_target(
                        self.hosts.entries@[j]@,
                    ),
            decreases self.hosts.entries.len() - i,
        {
            let e = &self.hosts.entries[i];
            let mac = e.mac();
            targets.push(
                ReachTarget {
                    protocol: e.protocol(),
                    host: e.host(),
                    port: e.port(),
                    want_mac: mac.len() == 0,
                },
            );
            i += 1;
        }
        assert(views(targets@) =~= reach_targets(views(self.hosts.entries@)));
        self.hosts.reach_pending = true;
        self.outbox.push(Command::SweepReachability { targets });
    }

    fn note_answer(&mut self, r: &Reachability) -> (news: bool)
        ensures
            final(self)@ == old(self)@.answer_noted(r@),
            news == (old(self)@.online(r.host@, r.port) != Some(r.online)),
    {
        let i: usize = find_reach(&self.hosts.reachable, r.host.as_str(), r.port);
        let noted = Reach { host: r.host.clone(), port: r.port, online: r.online };
        if i < self.hosts.reachable.len() {
            if self.hosts.reachable[i].online == r.online {
                return false;
            }
            self.hosts.reachable.set(i, noted);
        } else {
            self.hosts.reachable.push(noted);
        }
        true
    }

    fn set_row_mac(&mut self, host: &str, port: u16, mac: &Vec<String>)
        ensures
            final(self)@ == old(self)@.row_mac(host@, port, views(mac@)),
    {
        match find_entry(&self.hosts.entries, host, port) {
            Some(i) => {
                match self.hosts.entries[i].clone() {
                    HostEntry::Known(k) => {
                        let mut record = k;
                        record.mac = clone_strings(mac);
                        self.hosts.entries.set(i, HostEntry::Known(record));
                    },
                    HostEntry::Discovered(_) => {},
                }
            },
            None => {},
        }
    }

    fn set_record_mac(&mut self, host: &str, port: u16, mac: &Vec<String>) -> (saved: bool)
        ensures
            final(self)@ == old(self)@.record_mac(host@, port, views(mac@)),
            saved == old(self)@.is_saved(host@, port),
    {
        match find_host(&self.hosts.known_hosts, host, port) {
            Some(i) => {
                let mut record = self.hosts.known_hosts[i].clone();
                record.mac = clone_strings(mac);
                self.hosts.known_hosts.set(i, record);
                self.outbox.push(Command::SaveKnownHosts);
                true
            },
            None => false,
        }
    }

    /// Notes how to wake a host, and stores it. Returns whether there was a record to keep it in.
    pub fn learn_wake_mac(&mut self, host: &str, port: u16, mac: &Vec<String>) -> (saved: bool)
        ensures
            final(self)@ == old(self)@.mac_learned(host@, port, views(mac@)),
            saved == old(self)@.is_saved(host@, port),
    {
        self.set_row_mac(host, port, mac);
        self.set_record_mac(host, port, mac)
    }

    pub(crate) fn note_answers(&mut self, rs: &Vec<Reachability>) -> (news: bool)
        ensures
            final(self)@ == old(self)@.answers_noted(views(rs@), rs.len() as int),
            news == old(self)@.answers_new(views(rs@), rs.len() as int),
    {
        let mut news = false;
        let mut i: usize = 0;
        while i < rs.len()
            invariant
                i <= rs.len(),
                self@ == old(self)@.answers_noted(views(rs@), i as int),
                news == old(self)@.answers_new(views(rs@), i as int),
            decreases rs.len() - i,
        {
            let new = self.note_answer(&rs[i]);
            news = news || new;
            i += 1;
        }
        news
    }

    pub(crate) fn learn_macs(&mut self, rs: &Vec<Reachability>) -> (news: bool)
        ensures
            final(self)@ == old(self)@.macs_learned(views(rs@), rs.len() as int),
            news == old(self)@.macs_new(views(rs@), rs.len() as int),
    {
        let mut news = false;
        let mut i: usize = 0;
        while i < rs.len()
            invariant
                i <= rs.len(),
                self@ == old(self)@.macs_learned(views(rs@), i as int),
                news == old(self)@.macs_new(views(rs@), i as int),
            decreases rs.len() - i,
        {
            let r = &rs[i];
            if r.mac.len() > 0 {
                let saved = self.learn_wake_mac(r.host.as_str(), r.port, &r.mac);
                news = news || saved;
            }
            i += 1;
        }
        news
    }

    /// Whether the host of a row answered last; nothing until it has been probed.
    pub fn entry_online(&self, entry: &HostEntry) -> (r: Option<bool>)
        ensures
            r == self@.online(entry@.host(), entry@.port()),
    {
        let host = entry.host();
        let i: usize = find_reach(&self.hosts.reachable, host.as_str(), entry.port());
        if i < self.hosts.reachable.len() {
            Some(self.hosts.reachable[i].online)
        } else {
            None
        }
    }

    /// What is known of each row, in order.
    pub fn reachability_list(&self) -> (r: Vec<Option<bool>>)
        ensures
            r@ == Seq::new(
                self@.hosts.entries.len(),
                |i: int|
                    self@.online(self@.hosts.entries[i].host(), self@.hosts.entries[i].port()),
            ),
    {
        let mut out: Vec<Option<bool>> = Vec::new();
        let mut i: usize = 0;
        while i < self.hosts.entries.len()
            invariant
                i <= self.hosts.entries.len(),
                out.len() == i,
                forall|j: int|
                    0 <= j < i ==> #[trigger] out@[j] == self@.online(
                        self@.hosts.entries[j].host(),
                        self@.hosts.entries[j].port(),
                    ),
            decreases self.hosts.entries.len() - i,
        {
            out.push(self.entry_online(&self.hosts.entries[i]));
            i += 1;
        }
        out
    }
}

/// What was noted of a host is what is known of it.
pub proof fn law_noted_is_known(reachable: Seq<ReachView>, r: ReachView)
    ensures
        reach_of(reach_noted(reachable, r), r.host, r.port) == Some(r.online),
{
    reveal(reach_index);
    let keys = reach_keys(reachable);
    let key = (r.host, r.port);
    lemma_index_in(keys, key);
    let after = reach_noted(reachable, r);
    let i = index_in(keys, key);
    if i < reachable.len() {
        assert(reach_keys(after) =~= keys);
    } else {
        assert(reach_keys(after) =~= keys.push(key));
        assert forall|j: int| 0 <= j < keys.len() implies reach_keys(after)[j] != key by {
            assert(keys[j] != key);
        }
        lemma_index_in_unique(reach_keys(after), key, reachable.len() as int);
    }
}

/// Noting something of one host leaves what is known of the others.
pub proof fn law_noting_leaves_others(
    reachable: Seq<ReachView>,
    r: ReachView,
    host: Seq<char>,
    port: u16,
)
    requires
        (host, port) != (r.host, r.port),
    ensures
        reach_of(reach_noted(reachable, r), host, port) == reach_of(reachable, host, port),
{
    reveal(reach_index);
    let keys = reach_keys(reachable);
    let key = (host, port);
    lemma_index_in(keys, key);
    lemma_index_in(keys, (r.host, r.port));
    let after = reach_noted(reachable, r);
    let i = index_in(keys, (r.host, r.port));
    if i < reachable.len() {
        assert(reach_keys(after) =~= keys);
    } else {
        let k = index_in(keys, key);
        assert(reach_keys(after) =~= keys.push((r.host, r.port)));
        if k < keys.len() {
            assert forall|j: int| 0 <= j < k implies reach_keys(after)[j] != key by {
                assert(keys[j] != key);
            }
            lemma_index_in_unique(reach_keys(after), key, k);
        } else {
            assert forall|j: int| 0 <= j < reach_keys(after).len() implies reach_keys(after)[j]
                != key by {
                if j < keys.len() {
                    assert(keys[j] != key);
                }
            }
            lemma_index_in_unique(reach_keys(after), key, reach_keys(after).len() as int);
        }
    }
}

/// No second sweep begins while one is under way, nor before the interval has passed.
pub proof fn law_one_sweep_at_a_time(s: AppView, now: u64, later: u64)
    requires
        s.sweep_due(now),
        now <= later,
        later - now < REACH_INTERVAL,
    ensures
        s.reach_ticked(now).reach_ticked(later) == s.reach_ticked(now),
{
}

/// A sweep asks every row of the host list, each at its own address and by its own protocol, and
/// asks for a wake address where none is on record. It begins at once, and then three minutes
/// after the last, while none is under way; with no row there is nothing to ask.
pub proof fn law_sweep_asks_every_row(s: AppView, now: u64, i: int)
    requires
        0 <= i < s.hosts.entries.len(),
    ensures
        ({
            let t = s.reach_ticked(now);
            let due = !s.hosts.reach_pending && (s.hosts.reach_last is None || (now
                >= s.hosts.reach_last->0 + 180_000));
            let e = s.hosts.entries[i];
            &&& !due ==> t == s
            &&& due ==> {
                &&& t.hosts.reach_pending && t.hosts.reach_last == Some(now)
                &&& t.outbox.len() == s.outbox.len() + 1
                &&& t.outbox.last() matches CommandView::SweepReachability { targets }
                    && targets.len() == s.hosts.entries.len() && targets[i].host == e.host()
                    && targets[i].port == e.port() && targets[i].protocol == e.protocol()
                    && targets[i].want_mac == (e.mac().len() == 0)
            }
            &&& t.hosts.entries == s.hosts.entries && t.hosts.known_hosts == s.hosts.known_hosts
        }),
{
}

/// An answer is what is known of its host from then on, and of no other; the hosts themselves
/// stay.
pub proof fn law_answer_is_taken_down(s: AppView, r: ReachabilityView, host: Seq<char>, port: u16)
    ensures
        s.answer_noted(r).online(host, port) == (if host == r.host && port == r.port {
            Some(r.online)
        } else {
            s.online(host, port)
        }),
        s.answer_noted(r).hosts.entries == s.hosts.entries,
        s.answer_noted(r).hosts.known_hosts == s.hosts.known_hosts,
        s.answer_noted(r).outbox == s.outbox,
{
    let note = ReachView { host: r.host, port: r.port, online: r.online };
    if s.online(r.host, r.port) != Some(r.online) {
        law_noted_is_known(s.hosts.reachable, note);
        if (host, port) != (r.host, r.port) {
            law_noting_leaves_others(s.hosts.reachable, note, host, port);
        }
    }
}

/// How a saved host can be woken is kept in its record and stored, and in no other record; a host
/// that is not saved leaves no trace among the saved ones.
pub proof fn law_wake_address_is_kept(
    s: AppView,
    host: Seq<char>,
    port: u16,
    mac: Seq<Seq<char>>,
    i: int,
)
    requires
        0 <= i < s.hosts.known_hosts.len(),
    ensures
        ({
            let t = s.mac_learned(host, port, mac);
            let was = s.hosts.known_hosts[i];
            let at = host_index(s.hosts.known_hosts, host, port);
            &&& t.hosts.known_hosts.len() == s.hosts.known_hosts.len()
            &&& i == at ==> t.hosts.known_hosts[i] == KnownHostView { mac, ..was }
            &&& i != at ==> t.hosts.known_hosts[i] == was
            &&& host_at(s.hosts.known_hosts, host, port) is Some ==> t.outbox == s.outbox.push(
                CommandView::SaveKnownHosts,
            )
            &&& host_at(s.hosts.known_hosts, host, port) is None ==> t.outbox == s.outbox
            &&& t.hosts.entries.len() == s.hosts.entries.len()
            &&& t.hosts.selected_host == s.hosts.selected_host
        }),
{
}

/// The row of a saved host shows the wake addresses that were learned of it; other rows stay.
pub proof fn law_wake_address_is_shown(
    s: AppView,
    host: Seq<char>,
    port: u16,
    mac: Seq<Seq<char>>,
    i: int,
)
    requires
        0 <= i < s.hosts.entries.len(),
    ensures
        ({
            let t = s.mac_learned(host, port, mac);
            let was = s.hosts.entries[i];
            let at = entry_index(s.hosts.entries, host, port);
            &&& i == at && was is Known ==> t.hosts.entries[i].mac() == mac && t.hosts.entries[i]
                == EntryView::Known(KnownHostView { mac, ..was->Known_0 })
            &&& i != at || was is Discovered ==> t.hosts.entries[i] == was
        }),
{
}

/// Whether the answer `k` tells how to wake a host that is saved by then.
#[verifier::opaque]
pub open spec fn tells_of_saved(s: AppView, rs: Seq<ReachabilityView>, k: int) -> bool {
    rs[k].mac.len() > 0 && s.macs_learned(rs, k).is_saved(rs[k].host, rs[k].port)
}

/// The addresses are worth saving exactly where one of the answers tells how to wake a host that
/// is saved by then.
pub proof fn law_saved_hosts_learn_from_answers(s: AppView, rs: Seq<ReachabilityView>, n: int)
    requires
        0 <= n <= rs.len(),
    ensures
        s.macs_new(rs, n) <==> exists|k: int| 0 <= k < n && #[trigger] tells_of_saved(s, rs, k),
    decreases n,
{
    if n > 0 {
        law_saved_hosts_learn_from_answers(s, rs, n - 1);
        assert(s.macs_new(rs, n) == (s.macs_new(rs, n - 1) || tells_of_saved(s, rs, n - 1))) by {
            reveal(tells_of_saved);
        }
    }
}

} // verus!
