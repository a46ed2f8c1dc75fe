//! Saved hosts and the rows of the host list.
use vstd::prelude::*;

use crate::discovery::{DiscoveredHost, DiscoveredView};
use crate::model::protocol::Protocol;
use crate::seqs::{clone_strings, index_in, lemma_index_in, lemma_index_in_unique, views};
use crate::text::same_text;

verus! {

broadcast use crate::seqs::group_views;

/// The pin id of the card that streams the whole desktop.
pub const DESKTOP_PIN_ID: &'static str = "desktop";

/// A saved host.
#[derive(Debug)]
pub struct KnownHost {
    pub name: String,
    pub host: String,
    pub port: u16,
    pub protocol: Protocol,
    /// The pinned certificate fingerprint; present once paired.
    pub fingerprint: Option<[u8; 32]>,
    pub mgmt_port: Option<u16>,
    pub mac: Vec<String>,
    /// Whether an unreachable host is sent a wake signal without asking.
    pub wol_auto: bool,
    /// The ids of the pinned cards, in pin order.
    pub pinned: Vec<String>,
}

/// A `KnownHost` as values.
pub struct KnownHostView {
    pub name: Seq<char>,
    pub host: Seq<char>,
    pub port: u16,
    pub protocol: Protocol,
    pub fingerprint: Option<[u8; 32]>,
    pub mgmt_port: Option<u16>,
    pub mac: Seq<Seq<char>>,
    pub wol_auto: bool,
    pub pinned: Seq<Seq<char>>,
}

impl View for KnownHost {
    type V = KnownHostView;

    open spec fn view(&self) -> KnownHostView {
        KnownHostView {
            name: self.name@,
            host: self.host@,
            port: self.port,
            protocol: self.protocol,
            fingerprint: self.fingerprint,
            mgmt_port: self.mgmt_port,
            mac: views(self.mac@),
            wol_auto: self.wol_auto,
            pinned: views(self.pinned@),
        }
    }
}

impl Clone for KnownHost {
    fn clone(&self) -> (r: Self)
        ensures
            r@ == self@,
    {
        KnownHost {
            name: self.name.clone(),
            host: self.host.clone(),
            port: self.port,
            protocol: self.protocol,
            fingerprint: self.fingerprint,
            mgmt_port: self.mgmt_port,
            mac: clone_strings(&self.mac),
            wol_auto: self.wol_auto,
            pinned: clone_strings(&self.pinned),
        }
    }
}

/// Where `id` first occurs among `ids`.
pub fn find_text(ids: &Vec<String>, id: &str) -> (r: Option<usize>)
    ensures
        match r {
            Some(i) => i < ids.len() && i == index_in(views(ids@), id@),
            None => index_in(views(ids@), id@) == ids.len(),
        },
{
    let mut i: usize = 0;
    while i < ids.len()
        invariant
            i <= ids.len(),
            forall|j: int| 0 <= j < i ==> views(ids@)[j] != id@,
        decreases ids.len() - i,
    {
        if same_text(ids[i].as_str(), id) {
            proof {
                lemma_index_in_unique(views(ids@), id@, i as int);
            }
            return Some(i);
        }
        i += 1;
    }
    proof {
        lemma_index_in_unique(views(ids@), id@, ids.len() as int);
    }
    None
}

/// The pin list after `id` has been switched on or off: an id that is on it leaves, another goes
/// to its end.
pub open spec fn pins_toggled(pinned: Seq<Seq<char>>, id: Seq<char>) -> Seq<Seq<char>> {
    let i = index_in(pinned, id);
    if i < pinned.len() {
        pinned.remove(i)
    } else {
        pinned.push(id)
    }
}

impl KnownHost {
    /// Whether the card `id` is pinned.
    pub fn is_pinned(&self, id: &str) -> (r: bool)
        ensures
            r == self@.pinned.contains(id@),
    {
        proof {
            crate::seqs::lemma_index_in(views(self.pinned@), id@);
        }
        find_text(&self.pinned, id).is_some()
    }

    /// Whether `id` may be switched: unpinning always, pinning while there is room.
    pub fn can_toggle_pin(&self, id: &str, max_pins: usize) -> (r: bool)
        ensures
            r == (self@.pinned.contains(id@) || self@.pinned.len() < max_pins),
    {
        self.is_pinned(id) || self.pinned.len() < max_pins
    }

    /// Pins `id`, or unpins it where it is pinned.
    pub fn toggle_pin(&mut self, id: &str)
        ensures
            final(self)@ == (KnownHostView { pinned: pins_toggled(old(self)@.pinned, id@), ..old(self)@ }),
    {
        match find_text(&self.pinned, id) {
            Some(i) => {
                let _ = self.pinned.remove(i);
            },
            None => {
                self.pinned.push(id.to_owned());
            },
        }
    }
}

/// The address of each host, in order.
pub open spec fn host_keys(hosts: Seq<KnownHostView>) -> Seq<(Seq<char>, u16)> {
    Seq::new(hosts.len(), |i: int| (hosts[i].host, hosts[i].port))
}

/// Where the first host with this address stands, or the number of hosts.
#[verifier::opaque]
pub open spec fn host_index(hosts: Seq<KnownHostView>, host: Seq<char>, port: u16) -> int {
    index_in(host_keys(hosts), (host, port))
}

/// The first host with this address.
pub open spec fn host_at(hosts: Seq<KnownHostView>, host: Seq<char>, port: u16) -> Option<
    KnownHostView,
> {
    let i = host_index(hosts, host, port);
    if 0 <= i < hosts.len() {
        Some(hosts[i])
    } else {
        None
    }
}

/// Where the first host with this address stands.
pub fn find_host(hosts: &Vec<KnownHost>, host: &str, port: u16) -> (r: Option<usize>)
    ensures
        match r {
            Some(i) => i < hosts.len() && i == host_index(views(hosts@), host@, port),
            None => host_index(views(hosts@), host@, port) == hosts.len(),
        },
        host_at(views(hosts@), host@, port) == (match r {
            Some(i) => Some(hosts@[i as int]@),
            None => None,
        }),
{
    proof {
        reveal(host_index);
    }
    let ghost keys = host_keys(views(hosts@));
    let mut i: usize = 0;
    while i < hosts.len()
        invariant
            i <= hosts.len(),
            keys == host_keys(views(hosts@)),
            forall|j: int| 0 <= j < i ==> keys[j] != (host@, port),
        decreases hosts.len() - i,
    {
        if hosts[i].port == port && same_text(hosts[i].host.as_str(), host) {
            proof {
                reveal(host_index);
                lemma_index_in_unique(keys, (host@, port), i as int);
            }
            return Some(i);
        }
        i += 1;
    }
    proof {
        lemma_index_in_unique(keys, (host@, port), hosts.len() as int);
    }
    None
}

/// The list after `new` has been saved: a host with the same address is replaced in place and
/// keeps its wake setting and its pins, any other goes to the end.
#[verifier::opaque]
pub open spec fn upserted(hosts: Seq<KnownHostView>, new: KnownHostView) -> Seq<KnownHostView> {
    let i = host_index(hosts, new.host, new.port);
    if 0 <= i < hosts.len() {
        hosts.update(
            i,
            KnownHostView { wol_auto: hosts[i].wol_auto, pinned: hosts[i].pinned, ..new },
        )
    } else {
        hosts.push(new)
    }
}

/// Saves `new` among `hosts`.
pub fn upsert_known_host(hosts: &mut Vec<KnownHost>, new: KnownHost)
    ensures
        views(final(hosts)@) == upserted(views(old(hosts)@), new@),
{
    proof {
        reveal(upserted);
        reveal(host_index);
    }
    match find_host(hosts, new.host.as_str(), new.port) {
        Some(i) => {
            let kept_auto = hosts[i].wol_auto;
            let kept_pins = clone_strings(&hosts[i].pinned);
            let rec = KnownHost { wol_auto: kept_auto, pinned: kept_pins, ..new };
            hosts.set(i, rec);
        },
        None => {
            hosts.push(new);
        },
    }
}

/// The hosts without those at this address.
#[verifier::opaque]
pub open spec fn without_host(hosts: Seq<KnownHostView>, host: Seq<char>, port: u16) -> Seq<
    KnownHostView,
> {
    hosts.filter(|h: KnownHostView| !(h.host == host && h.port == port))
}

/// Drops every host at this address.
pub fn remove_host(hosts: &mut Vec<KnownHost>, host: &str, port: u16)
    ensures
        views(final(hosts)@) == without_host(views(old(hosts)@), host@, port),
{
    proof {
        reveal(without_host);
    }
    let ghost keep = |h: KnownHostView| !(h.host == host@ && h.port == port);
    let ghost all = views(hosts@);
    let mut out: Vec<KnownHost> = Vec::new();
    let mut i: usize = 0;
    proof {
        assert(all.take(0).filter(keep) =~= seq![]) by {
            reveal(Seq::filter);
        }
    }
    while i < hosts.len()
        invariant
            i <= hosts.len(),
            all == views(hosts@),
            keep == (|h: KnownHostView| !(h.host == host@ && h.port == port)),
            views(out@) == all.take(i as int).filter(keep),
        decreases hosts.len() - i,
    {
        let rec = hosts[i].clone();
        proof {
            assert(all.take(i + 1).drop_last() =~= all.take(i as int));
            assert(all.take(i + 1).last() == rec@);
            reveal(Seq::filter);
        }
        if !(rec.port == port && same_text(rec.host.as_str(), host)) {
            out.push(rec);
        }
        i += 1;
    }
    assert(all.take(all.len() as int) =~= all);
    *hosts = out;
}

/// One host row of the sidebar: a saved host, or one that only announced itself.
#[derive(Debug)]
pub enum HostEntry {
    Known(KnownHost),
    Discovered(DiscoveredHost),
}

/// A `HostEntry` as values.
pub enum EntryView {
    Known(KnownHostView),
    Discovered(DiscoveredView),
}

impl View for HostEntry {
    type V = EntryView;

    open spec fn view(&self) -> EntryView {
        match self {
            HostEntry::Known(h) => EntryView::Known(h@),
            HostEntry::Discovered(d) => EntryView::Discovered(d@),
        }
    }
}

impl Clone for HostEntry {
    fn clone(&self) -> (r: Self)
        ensures
            r@ == self@,
    {
        match self {
            HostEntry::Known(h) => HostEntry::Known(h.clone()),
            HostEntry::Discovered(d) => HostEntry::Discovered(d.clone()),
        }
    }
}

impl EntryView {
    pub open spec fn host(self) -> Seq<char> {
        match self {
            EntryView::Known(h) => h.host,
            EntryView::Discovered(d) => d.addr,
        }
    }

    pub open spec fn port(self) -> u16 {
        match self {
            EntryView::Known(h) => h.port,
            EntryView::Discovered(d) => d.port,
        }
    }

    pub open spec fn name(self) -> Seq<char> {
        match self {
            EntryView::Known(h) => h.name,
            EntryView::Discovered(d) => d.name,
        }
    }

    pub open spec fn mgmt_port(self) -> Option<u16> {
        match self {
            EntryView::Known(h) => h.mgmt_port,
            EntryView::Discovered(d) => d.mgmt_port,
        }
    }

    pub open spec fn mac(self) -> Seq<Seq<char>> {
        match self {
            EntryView::Known(h) => h.mac,
            EntryView::Discovered(d) => d.mac,
        }
    }

    pub open spec fn protocol(self) -> Protocol {
        match self {
            EntryView::Known(h) => h.protocol,
            EntryView::Discovered(d) => d.protocol,
        }
    }

    /// Only a saved host with a pinned certificate is paired.
    pub open spec fn is_paired(self) -> bool {
        match self {
            EntryView::Known(h) => h.fingerprint is Some,
            EntryView::Discovered(_) => false,
        }
    }
}

impl HostEntry {
    /// The network address.
    pub fn host(&self) -> (r: String)
        ensures
            r@ == self@.host(),
    {
        match self {
            HostEntry::Known(h) => h.host.clone(),
            HostEntry::Discovered(d) => d.addr.clone(),
        }
    }

    pub fn port(&self) -> (r: u16)
        ensures
            r == self@.port(),
    {
        match self {
            HostEntry::Known(h) => h.port,
            HostEntry::Discovered(d) => d.port,
        }
    }

    /// The name shown in the row.
    pub fn name(&self) -> (r: String)
        ensures
            r@ == self@.name(),
    {
        match self {
            HostEntry::Known(h) => h.name.clone(),
            HostEntry::Discovered(d) => d.name.clone(),
        }
    }

    pub fn mgmt_port(&self) -> (r: Option<u16>)
        ensures
            r == self@.mgmt_port(),
    {
        match self {
            HostEntry::Known(h) => h.mgmt_port,
            HostEntry::Discovered(d) => d.mgmt_port,
        }
    }

    /// The Wake-on-LAN addresses on record.
    pub fn mac(&self) -> (r: Vec<String>)
        ensures
            views(r@) == self@.mac(),
    {
        match self {
            HostEntry::Known(h) => clone_strings(&h.mac),
            HostEntry::Discovered(d) => clone_strings(&d.mac),
        }
    }

    pub fn protocol(&self) -> (r: Protocol)
        ensures
            r == self@.protocol(),
    {
        match self {
            HostEntry::Known(h) => h.protocol,
            HostEntry::Discovered(d) => d.protocol,
        }
    }

    pub fn is_paired(&self) -> (r: bool)
        ensures
            r == self@.is_paired(),
    {
        match self {
            HostEntry::Known(h) => h.fingerprint.is_some(),
            HostEntry::Discovered(_) => false,
        }
    }
}

/// A row for each saved host.
#[verifier::opaque]
pub open spec fn known_entries(hosts: Seq<KnownHostView>) -> Seq<EntryView> {
    Seq::new(hosts.len(), |i: int| EntryView::Known(hosts[i]))
}

/// There are as many rows as saved hosts, and they show them.
pub broadcast proof fn lemma_known_entries(hosts: Seq<KnownHostView>)
    ensures
        (#[trigger] known_entries(hosts)).len() == hosts.len(),
        forall|i: int| 0 <= i < hosts.len() ==> known_entries(hosts)[i] == EntryView::Known(hosts[i]),
{
    reveal(known_entries);
}

/// A row for each saved host, in order.
pub fn rows_of(hosts: &Vec<KnownHost>) -> (r: Vec<HostEntry>)
    ensures
        views(r@) == known_entries(views(hosts@)),
{
    proof {
        reveal(known_entries);
    }
    let mut out: Vec<HostEntry> = Vec::new();
    let mut i: usize = 0;
    while i < hosts.len()
        invariant
            i <= hosts.len(),
            out.len() == i,
            forall|j: int| 0 <= j < i ==> #[trigger] out@[j]@ == EntryView::Known(hosts@[j]@),
        decreases hosts.len() - i,
    {
        out.push(HostEntry::Known(hosts[i].clone()));
        i += 1;
    }
    assert(views(out@) =~= known_entries(views(hosts@)));
    out
}

/// The address of each row, in order.
pub open spec fn entry_keys(entries: Seq<EntryView>) -> Seq<(Seq<char>, u16)> {
    Seq::new(entries.len(), |i: int| (entries[i].host(), entries[i].port()))
}

/// Where the first row with this address stands, or the number of rows.
#[verifier::opaque]
pub open spec fn entry_index(entries: Seq<EntryView>, host: Seq<char>, port: u16) -> int {
    index_in(entry_keys(entries), (host, port))
}

/// Where the first row with this address stands.
pub fn find_entry(entries: &Vec<HostEntry>, host: &str, port: u16) -> (r: Option<usize>)
    ensures
        match r {
            Some(i) => i < entries.len() && i == entry_index(views(entries@), host@, port),
            None => entry_index(views(entries@), host@, port) == entries.len(),
        },
{
    proof {
        reveal(entry_index);
    }
    let ghost keys = entry_keys(views(entries@));
    let mut i: usize = 0;
    while i < entries.len()
        invariant
            i <= entries.len(),
            keys == entry_keys(views(entries@)),
            forall|j: int| 0 <= j < i ==> keys[j] != (host@, port),
        decreases entries.len() - i,
    {
        if entries[i].port() == port && same_text(entries[i].host().as_str(), host) {
            proof {
                reveal(entry_index);
                lemma_index_in_unique(keys, (host@, port), i as int);
            }
            return Some(i);
        }
        i += 1;
    }
    proof {
        lemma_index_in_unique(keys, (host@, port), entries.len() as int);
    }
    None
}

proof fn lemma_host_index(hosts: Seq<KnownHostView>, host: Seq<char>, port: u16)
    ensures
        0 <= host_index(hosts, host, port) <= hosts.len(),
        host_index(hosts, host, port) < hosts.len() ==> hosts[host_index(hosts, host, port)].host
            == host && hosts[host_index(hosts, host, port)].port == port,
        forall|i: int|
            0 <= i < host_index(hosts, host, port) ==> !((#[trigger] hosts[i]).host == host
                && hosts[i].port == port),
{
    reveal(host_index);
    let keys = host_keys(hosts);
    lemma_index_in(keys, (host, port));
    assert forall|i: int| 0 <= i < host_index(hosts, host, port) implies !((
    #[trigger] hosts[i]).host == host && hosts[i].port == port) by {
        assert(keys[i] != (host, port));
    }
}

proof fn lemma_host_index_is(hosts: Seq<KnownHostView>, host: Seq<char>, port: u16, k: int)
    requires
        0 <= k <= hosts.len(),
        forall|i: int|
            0 <= i < k ==> !((#[trigger] hosts[i]).host == host && hosts[i].port == port),
        k < hosts.len() ==> hosts[k].host == host && hosts[k].port == port,
    ensures
        host_index(hosts, host, port) == k,
{
    reveal(host_index);
    lemma_index_in_unique(host_keys(hosts), (host, port), k);
}

/// A host that was saved is found at its address, as it was saved but for the wake setting and
/// the pins, which a host that was there already keeps.
pub proof fn law_saved_host_is_found(hosts: Seq<KnownHostView>, new: KnownHostView)
    ensures
        host_at(upserted(hosts, new), new.host, new.port) == Some(
            match host_at(hosts, new.host, new.port) {
                Some(was) => KnownHostView { wol_auto: was.wol_auto, pinned: was.pinned, ..new },
                None => new,
            },
        ),
{
    reveal(upserted);
    lemma_host_index(hosts, new.host, new.port);
    let i = host_index(hosts, new.host, new.port);
    lemma_host_index_is(upserted(hosts, new), new.host, new.port, i);
}

/// Saving a host leaves every other as it is.
pub proof fn law_saving_leaves_others(
    hosts: Seq<KnownHostView>,
    new: KnownHostView,
    host: Seq<char>,
    port: u16,
)
    requires
        !(host == new.host && port == new.port),
    ensures
        host_at(upserted(hosts, new), host, port) == host_at(hosts, host, port),
{
    reveal(upserted);
    lemma_host_index(hosts, new.host, new.port);
    lemma_host_index(hosts, host, port);
    let i = host_index(hosts, new.host, new.port);
    let k = host_index(hosts, host, port);
    let after = upserted(hosts, new);
    if k < hosts.len() {
        lemma_host_index_is(after, host, port, k);
    } else {
        lemma_host_index_is(after, host, port, after.len() as int);
    }
}

/// A host that was removed is not found any more.
pub proof fn law_removed_host_is_gone(hosts: Seq<KnownHostView>, host: Seq<char>, port: u16)
    ensures
        host_at(without_host(hosts, host, port), host, port) is None,
    decreases hosts.len(),
{
    reveal(without_host);
    let keep = |h: KnownHostView| !(h.host == host && h.port == port);
    let left = hosts.filter(keep);
    assert(left == without_host(hosts, host, port));
    lemma_host_index(left, host, port);
    let k = host_index(left, host, port);
    if k < left.len() {
        hosts.lemma_filter_pred(keep, k);
    }
}

/// A row shows the host that it is about: a saved host by its record, one that announced itself
/// by its announcement. Only a saved host with a fingerprint counts as paired.
pub proof fn law_row_shows_its_host(e: EntryView)
    ensures
        match e {
            EntryView::Known(h) => {
                &&& e.host() == h.host && e.port() == h.port && e.name() == h.name
                &&& e.protocol() == h.protocol && e.mgmt_port() == h.mgmt_port && e.mac() == h.mac
                &&& e.is_paired() == (h.fingerprint is Some)
            },
            EntryView::Discovered(d) => {
                &&& e.host() == d.addr && e.port() == d.port && e.name() == d.name
                &&& e.protocol() == d.protocol && e.mgmt_port() == d.mgmt_port && e.mac() == d.mac
                &&& !e.is_paired()
            },
        },
{
}

/// The host found at an address is the first saved one that has both its parts, and none is found
/// only where no saved one has.
pub proof fn law_host_is_found_by_its_address(
    hosts: Seq<KnownHostView>,
    host: Seq<char>,
    port: u16,
    i: int,
)
    requires
        0 <= i < hosts.len(),
    ensures
        host_at(hosts, host, port) matches Some(h) ==> h.host == host && h.port == port,
        hosts[i].host == host && hosts[i].port == port ==> host_at(hosts, host, port) is Some
            && host_index(hosts, host, port) <= i,
        0 <= host_index(hosts, host, port) < hosts.len() ==> host_at(hosts, host, port) == Some(
            hosts[host_index(hosts, host, port)],
        ),
{
    lemma_host_index(hosts, host, port);
}

/// The row found for an address is the first with both its parts, and none is found only where no
/// row has.
pub proof fn law_row_is_found_by_its_address(
    entries: Seq<EntryView>,
    host: Seq<char>,
    port: u16,
    i: int,
)
    requires
        0 <= i < entries.len(),
    ensures
        ({
            let k = entry_index(entries, host, port);
            &&& 0 <= k <= entries.len()
            &&& k < entries.len() ==> entries[k].host() == host && entries[k].port() == port
            &&& entries[i].host() == host && entries[i].port() == port ==> k <= i
        }),
{
    reveal(entry_index);
    let keys = entry_keys(entries);
    lemma_index_in(keys, (host, port));
    let k = index_in(keys, (host, port));
    if entries[i].host() == host && entries[i].port() == port && i < k {
        assert(keys[i] == (host, port));
    }
}

/// Forgetting a host takes exactly those at its address out of the list: every other stays, and
/// none is added.
pub proof fn law_removal_keeps_the_others(
    hosts: Seq<KnownHostView>,
    host: Seq<char>,
    port: u16,
    k: KnownHostView,
)
    ensures
        without_host(hosts, host, port).contains(k) == (hosts.contains(k) && !(k.host == host
            && k.port == port)),
        without_host(hosts, host, port).len() <= hosts.len(),
{
    reveal(without_host);
    let keep = |h: KnownHostView| !(h.host == host && h.port == port);
    let left = hosts.filter(keep);
    assert(left == without_host(hosts, host, port));
    hosts.lemma_filter_len(keep);
    if hosts.contains(k) && keep(k) {
        let i = choose|i: int| 0 <= i < hosts.len() && hosts[i] == k;
        hosts.lemma_filter_contains(keep, i);
    }
    if left.contains(k) {
        let i = choose|i: int| 0 <= i < left.len() && left[i] == k;
        hosts.lemma_filter_pred(keep, i);
        hosts.lemma_filter_contains_rev(keep, left[i]);
    }
}

/// Saving a host adds at most one to the list, at its end, and only where none had its address;
/// the order of the others stays.
pub proof fn law_saving_keeps_the_order(hosts: Seq<KnownHostView>, new: KnownHostView, i: int)
    requires
        0 <= i < hosts.len(),
    ensures
        upserted(hosts, new).len() == hosts.len() + (if host_at(hosts, new.host, new.port) is None {
            1int
        } else {
            0int
        }),
        upserted(hosts, new)[i].host == hosts[i].host && upserted(hosts, new)[i].port
            == hosts[i].port,
        !(hosts[i].host == new.host && hosts[i].port == new.port) ==> upserted(hosts, new)[i]
            == hosts[i],
        upserted(hosts, new)[i].pinned == hosts[i].pinned,
        upserted(hosts, new)[i].wol_auto == hosts[i].wol_auto,
{
    reveal(upserted);
    lemma_host_index(hosts, new.host, new.port);
}

/// Switching a pin puts an id that was not pinned at the end of the list, and takes one that was
/// pinned off it; whatever else is pinned stays.
pub proof fn law_pin_is_switched(pinned: Seq<Seq<char>>, id: Seq<char>, other: Seq<char>)
    requires
        other != id,
    ensures
        pins_toggled(pinned, id).contains(other) == pinned.contains(other),
        !pinned.contains(id) ==> pins_toggled(pinned, id) == pinned.push(id),
        pinned.contains(id) ==> pins_toggled(pinned, id).len() == pinned.len() - 1,
        pinned.contains(id) && pinned.no_duplicates() ==> !pins_toggled(pinned, id).contains(id),
{
    lemma_index_in(pinned, id);
    let i = index_in(pinned, id);
    let after = pins_toggled(pinned, id);
    if pinned.contains(other) {
        let k = choose|k: int| 0 <= k < pinned.len() && pinned[k] == other;
        if i < pinned.len() {
            assert(after[if k < i {
                k
            } else {
                k - 1
            }] == other);
        } else {
            assert(after[k] == other);
        }
    }
    if after.contains(other) {
        let k = choose|k: int| 0 <= k < after.len() && after[k] == other;
        if i < pinned.len() {
            assert(pinned[if k < i {
                k
            } else {
                k + 1
            }] == other);
        } else {
            assert(pinned[k] == other);
        }
    }
    if i < pinned.len() && pinned.no_duplicates() && after.contains(id) {
        let k = choose|k: int| 0 <= k < after.len() && after[k] == id;
        let j = if k < i {
            k
        } else {
            k + 1
        };
        assert(pinned[j] == id && pinned[i] == id && i != j);
    }
}

} // verus!
