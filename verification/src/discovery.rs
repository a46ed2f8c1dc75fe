//! Hosts found on the local network.
use vstd::prelude::*;

use crate::backend::HostBackend;
use crate::model::protocol::Protocol;
use crate::seqs::{clone_strings, views};
use crate::text::{chars_of, parse_number, parse_unsigned, trim_spec, trimmed};

verus! {

broadcast use crate::seqs::group_views;

/// A host that announced itself.
#[derive(Debug)]
pub struct DiscoveredHost {
    pub name: String,
    pub addr: String,
    pub port: u16,
    pub protocol: Protocol,
    /// The management port, where one is advertised.
    pub mgmt_port: Option<u16>,
    /// Wake-on-LAN addresses, where they are advertised.
    pub mac: Vec<String>,
}

/// A `DiscoveredHost` as values.
pub struct DiscoveredView {
    pub name: Seq<char>,
    pub addr: Seq<char>,
    pub port: u16,
    pub protocol: Protocol,
    pub mgmt_port: Option<u16>,
    pub mac: Seq<Seq<char>>,
}

impl View for DiscoveredHost {
    type V = DiscoveredView;

    open spec fn view(&self) -> DiscoveredView {
        DiscoveredView {
            name: self.name@,
            addr: self.addr@,
            port: self.port,
            protocol: self.protocol,
            mgmt_port: self.mgmt_port,
            mac: views(self.mac@),
        }
    }
}

impl Clone for DiscoveredHost {
    fn clone(&self) -> (r: Self)
        ensures
            r@ == self@,
    {
        DiscoveredHost {
            name: self.name.clone(),
            addr: self.addr.clone(),
            port: self.port,
            protocol: self.protocol,
            mgmt_port: self.mgmt_port,
            mac: clone_strings(&self.mac),
        }
    }
}

/// What an mDNS answer says of a service.
#[derive(Debug)]
pub struct ServiceRecord {
    pub fullname: String,
    /// The IPv4 addresses, as text.
    pub addresses: Vec<String>,
    pub port: u16,
    /// The `mgmt` property.
    pub mgmt: Option<String>,
    /// The `mac` property.
    pub mac: Option<String>,
}

/// Where `c` first occurs in `s` from `i` on, or the length of `s`.
pub open spec fn next_at(s: Seq<char>, c: char, i: int) -> int
    decreases s.len() - i,
{
    if i >= s.len() {
        s.len() as int
    } else if s[i] == c {
        i
    } else {
        next_at(s, c, i + 1)
    }
}

/// The text before the first `c`, or all of it.
pub open spec fn before_first(s: Seq<char>, c: char) -> Seq<char> {
    s.take(next_at(s, c, 0))
}

/// The pieces of `s` between commas, from `i` on, each trimmed, empty ones left out.
pub open spec fn list_items(s: Seq<char>, i: int) -> Seq<Seq<char>>
    decreases s.len() - i,
{
    if i < 0 || i > s.len() {
        seq![]
    } else {
        let end = next_at(s, ',', i);
        let item = trim_spec(s.subrange(i, end));
        let rest = if i <= end < s.len() {
            list_items(s, end + 1)
        } else {
            seq![]
        };
        if item.len() == 0 {
            rest
        } else {
            seq![item] + rest
        }
    }
}

proof fn lemma_next_at(s: Seq<char>, c: char, i: int)
    requires
        0 <= i <= s.len(),
    ensures
        i <= next_at(s, c, i) <= s.len(),
    decreases s.len() - i,
{
    if i < s.len() && s[i] != c {
        lemma_next_at(s, c, i + 1);
    }
}

fn find_from(cs: &Vec<char>, c: char, from: usize) -> (r: usize)
    requires
        from <= cs.len(),
    ensures
        r == next_at(cs@, c, from as int),
        from <= r <= cs.len(),
{
    let mut i: usize = from;
    while i < cs.len() && cs[i] != c
        invariant
            from <= i <= cs.len(),
            next_at(cs@, c, from as int) == next_at(cs@, c, i as int),
        decreases cs.len() - i,
    {
        i += 1;
    }
    i
}

fn piece(cs: &Vec<char>, from: usize, to: usize) -> (r: String)
    requires
        from <= to <= cs.len(),
    ensures
        r@ == cs@.subrange(from as int, to as int),
{
    let mut out = String::new();
    let mut i: usize = from;
    while i < to
        invariant
            from <= i <= to <= cs.len(),
            out@ == cs@.subrange(from as int, i as int),
        decreases to - i,
    {
        proof {
            assert(cs@.subrange(from as int, i + 1) =~= cs@.subrange(from as int, i as int).push(
                cs@[i as int],
            ));
        }
        out.push(cs[i]);
        i += 1;
    }
    out
}

/// The first label of a full service name.
pub fn first_label(fullname: &str) -> (r: String)
    ensures
        r@ == before_first(fullname@, '.'),
{
    let cs = chars_of(fullname);
    let end: usize = find_from(&cs, '.', 0);
    let r = piece(&cs, 0, end);
    assert(r@ =~= before_first(fullname@, '.'));
    r
}

/// The entries of a comma-separated list, trimmed, empty ones left out.
pub fn split_list(s: &str) -> (r: Vec<String>)
    ensures
        views(r@) == list_items(s@, 0),
{
    let cs = chars_of(s);
    let mut out: Vec<String> = Vec::new();
    let mut i: usize = 0;
    let mut done = false;
    while !done
        invariant
            cs@ == s@,
            i <= cs.len(),
            !done ==> views(out@) + list_items(s@, i as int) == list_items(s@, 0),
            done ==> views(out@) == list_items(s@, 0),
        decreases cs.len() - i + (if done { 0int } else { 1int }),
    {
        let end: usize = find_from(&cs, ',', i);
        let word = piece(&cs, i, end);
        let item = trimmed(word.as_str());
        let ghost before = views(out@);
        let ghost from = i as int;
        let keep = !item.as_str().is_empty();
        if keep {
            out.push(item);
        }
        if end < cs.len() {
            i = end + 1;
            proof {
                assert(views(out@) + list_items(s@, i as int) =~= before + list_items(s@, from));
            }
        } else {
            proof {
                assert(views(out@) =~= before + list_items(s@, from));
            }
            done = true;
        }
    }
    out
}

/// The address that a record is reached at: the first IPv4 address, if there is one.
pub open spec fn record_addr(r: ServiceRecord) -> Option<Seq<char>> {
    if r.addresses@.len() == 0 {
        None
    } else {
        Some(r.addresses@[0]@)
    }
}

/// The management port in a record's properties.
pub open spec fn record_mgmt(r: ServiceRecord) -> Option<u16> {
    match r.mgmt {
        Some(v) => match parse_unsigned(v@, u16::MAX as nat) {
            Some(n) => Some(n as u16),
            None => None,
        },
        None => None,
    }
}

/// The Wake-on-LAN addresses in a record's properties.
pub open spec fn record_macs(r: ServiceRecord) -> Seq<Seq<char>> {
    match r.mac {
        Some(v) => list_items(v@, 0),
        None => seq![],
    }
}

/// The management port in a record's properties.
pub fn mgmt_of(record: &ServiceRecord) -> (r: Option<u16>)
    ensures
        r == record_mgmt(*record),
{
    match &record.mgmt {
        Some(v) => match parse_number(v.as_str(), u16::MAX as u64) {
            Some(n) => Some(n as u16),
            None => None,
        },
        None => None,
    }
}

/// The Wake-on-LAN addresses in a record's properties.
pub fn macs_of(record: &ServiceRecord) -> (r: Vec<String>)
    ensures
        views(r@) == record_macs(*record),
{
    match &record.mac {
        Some(v) => split_list(v.as_str()),
        None => {
            let v: Vec<String> = Vec::new();
            proof {
                assert(views(v@) =~= seq![]);
            }
            v
        },
    }
}

/// The name, the first IPv4 address: what both protocols read from a record.
pub fn label_and_addr(record: &ServiceRecord) -> (r: Option<(String, String)>)
    ensures
        match r {
            Some((name, addr)) => record_addr(*record) == Some(addr@) && name@ == before_first(
                record.fullname@,
                '.',
            ),
            None => record_addr(*record) is None,
        },
{
    if record.addresses.len() == 0 {
        None
    } else {
        Some((first_label(record.fullname.as_str()), record.addresses[0].clone()))
    }
}

/// What a browser of the network hears.
#[derive(Debug)]
pub enum BrowseEvent {
    /// A service was resolved.
    Resolved(ServiceRecord),
    /// Anything else.
    Other,
}

/// What a browser does next.
#[derive(Debug)]
pub enum BrowseStep {
    /// Hand the host on.
    Announce(DiscoveredHost),
    /// Listen on.
    Listen,
    /// Stop, and shut the daemon down.
    Stop,
}

/// Decides on an event. A service without an IPv4 address is passed over, since hosts are
/// dialled over IPv4 alone.
pub fn browse_step<B: HostBackend>(backend: &B, event: &BrowseEvent) -> (r: BrowseStep)
    ensures
        match event {
            BrowseEvent::Resolved(record) => match r {
                BrowseStep::Announce(host) => backend.announced(*record) == Some(host@),
                BrowseStep::Listen => backend.announced(*record) is None,
                BrowseStep::Stop => false,
            },
            BrowseEvent::Other => r is Listen,
        },
{
    match event {
        BrowseEvent::Resolved(record) => match backend.parse_discovery(record) {
            Some(host) => BrowseStep::Announce(host),
            None => BrowseStep::Listen,
        },
        BrowseEvent::Other => BrowseStep::Listen,
    }
}

/// Decides after a host was handed on: with nobody left to take hosts, browsing stops.
pub fn after_announce(taken: bool) -> (r: BrowseStep)
    ensures
        r == (if taken {
            BrowseStep::Listen
        } else {
            BrowseStep::Stop
        }),
{
    if taken {
        BrowseStep::Listen
    } else {
        BrowseStep::Stop
    }
}

proof fn lemma_first_place(s: Seq<char>, c: char, i: int)
    requires
        0 <= i <= s.len(),
    ensures
        i <= next_at(s, c, i) <= s.len(),
        forall|k: int| i <= k < next_at(s, c, i) ==> #[trigger] s[k] != c,
        next_at(s, c, i) < s.len() ==> s[next_at(s, c, i)] == c,
    decreases s.len() - i,
{
    if i < s.len() && s[i] != c {
        lemma_first_place(s, c, i + 1);
    }
}

proof fn lemma_place_is_first(s: Seq<char>, c: char, i: int, k: int)
    requires
        0 <= i <= k <= s.len(),
        forall|j: int| i <= j < k ==> #[trigger] s[j] != c,
        k < s.len() ==> s[k] == c,
    ensures
        next_at(s, c, i) == k,
{
    lemma_first_place(s, c, i);
}

/// The name of a service is all that stands before its first dot.
pub proof fn law_name_ends_at_the_first_dot(fullname: Seq<char>, dot: char)
    ensures
        before_first(fullname, dot).len() <= fullname.len(),
        forall|i: int|
            0 <= i < before_first(fullname, dot).len() ==> #[trigger] before_first(fullname, dot)[i]
                == fullname[i] && fullname[i] != dot,
        before_first(fullname, dot).len() < fullname.len() ==> fullname[before_first(
            fullname,
            dot,
        ).len() as int] == dot,
{
    lemma_first_place(fullname, dot, 0);
}

proof fn lemma_items_from(s: Seq<char>, t: Seq<char>, i: int)
    requires
        0 <= i <= s.len(),
        t == s.skip(i),
    ensures
        list_items(s, i) == list_items(t, 0),
    decreases s.len() - i,
{
    lemma_first_place(s, ',', i);
    let end = next_at(s, ',', i);
    assert forall|j: int| 0 <= j < end - i implies #[trigger] t[j] != ',' by {
        assert(t[j] == s[i + j]);
    }
    if end < s.len() {
        assert(t[end - i] == s[end]);
    }
    lemma_place_is_first(t, ',', 0, end - i);
    assert(t.subrange(0, end - i) =~= s.subrange(i, end));
    if end < s.len() {
        lemma_items_from(s, s.skip(end + 1), end + 1);
        assert(t.skip(end - i + 1) =~= s.skip(end + 1));
        lemma_items_from(t, t.skip(end - i + 1), end - i + 1);
    }
}

/// A list without a comma is one entry, trimmed, or none where there is nothing in it.
pub proof fn law_list_of_one(s: Seq<char>)
    requires
        forall|i: int| 0 <= i < s.len() ==> #[trigger] s[i] != ',',
    ensures
        trim_spec(s).len() > 0 ==> list_items(s, 0) == seq![trim_spec(s)],
        trim_spec(s).len() == 0 ==> list_items(s, 0).len() == 0,
{
    lemma_place_is_first(s, ',', 0, s.len() as int);
    assert(s.subrange(0, s.len() as int) =~= s);
    assert(list_items(s, 0) =~= if trim_spec(s).len() == 0 {
        seq![]
    } else {
        seq![trim_spec(s)]
    });
}

/// A comma parts a list: the entries are those before it, then those after it.
pub proof fn law_comma_parts_a_list(front: Seq<char>, rest: Seq<char>)
    requires
        forall|i: int| 0 <= i < front.len() ==> #[trigger] front[i] != ',',
    ensures
        list_items(front + seq![','] + rest, 0) == list_items(front, 0) + list_items(rest, 0),
{
    let s = front + seq![','] + rest;
    let k = front.len() as int;
    assert forall|j: int| 0 <= j < k implies #[trigger] s[j] != ',' by {
        assert(s[j] == front[j]);
    }
    assert(s[k] == ',');
    lemma_place_is_first(s, ',', 0, k);
    assert(s.subrange(0, k) =~= front);
    assert(s.skip(k + 1) =~= rest);
    lemma_items_from(s, rest, k + 1);
    law_list_of_one(front);
    assert(list_items(s, 0) =~= list_items(front, 0) + list_items(rest, 0));
}

/// A host is reached at the first address that it announced, and nowhere where it announced none.
pub proof fn law_first_address_is_taken(record: ServiceRecord)
    ensures
        record.addresses@.len() > 0 ==> record_addr(record) == Some(record.addresses@[0]@),
        record.addresses@.len() == 0 ==> record_addr(record) is None,
{
}

/// The management port is the number that the record gives, where it is one that a port can be.
pub proof fn law_management_port_is_announced(record: ServiceRecord)
    ensures
        record.mgmt is None ==> record_mgmt(record) is None,
        record.mgmt matches Some(v) ==> match record_mgmt(record) {
            Some(port) => parse_unsigned(v@, 65535) == Some(port as nat),
            None => parse_unsigned(v@, 65535) is None,
        },
        record.mac is None ==> record_macs(record).len() == 0,
        record.mac matches Some(v) ==> record_macs(record) == list_items(v@, 0),
{
}

} // verus!
