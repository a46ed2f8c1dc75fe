//! What the streaming protocols offer, and how their announcements are read.
use vstd::prelude::*;

use crate::backend::gamestream::GameStream;
use crate::backend::punktfunk::Punktfunk;
use crate::discovery::{
    law_name_ends_at_the_first_dot, DiscoveredHost, DiscoveredView, ServiceRecord,
};
use crate::model::protocol::Protocol;

pub mod gamestream;
pub mod punktfunk;

verus! {

/// Which optional features a protocol has. Screens leave out what a host cannot do.
#[derive(Clone, Copy, Debug, PartialEq, Eq, Structural)]
pub struct BackendCaps {
    /// A bandwidth probe before connecting.
    pub speed_test: bool,
    /// Pairing without a PIN, by asking for access.
    pub request_access: bool,
    /// The host can be told to forget this device.
    pub unpair: bool,
    /// The host can be told to end what it is running.
    pub quit_app: bool,
}

/// One protocol's hosts.
pub trait HostBackend {
    /// The protocol, as a value.
    spec fn speaks(&self) -> Protocol;

    /// What the protocol offers, as a value.
    spec fn offers(&self) -> BackendCaps;

    /// The service type, as a value.
    spec fn service(&self) -> Seq<char>;

    /// The port for queries, as a value.
    spec fn query_port(&self) -> u16;

    /// The host that a record announces, as a value.
    spec fn announced(&self, record: ServiceRecord) -> Option<DiscoveredView>;

    /// The protocol that the hosts speak.
    fn protocol(&self) -> (r: Protocol)
        ensures
            r == self.speaks(),
    ;

    /// What the protocol offers.
    fn caps(&self) -> (r: BackendCaps)
        ensures
            r == self.offers(),
    ;

    /// The mDNS service type that the hosts announce.
    fn discovery_service(&self) -> (r: &'static str)
        ensures
            r@ == self.service(),
    ;

    /// The port for queries where none is on record.
    fn default_query_port(&self) -> (r: u16)
        ensures
            r == self.query_port(),
    ;

    /// The host that a record announces; none where it has no IPv4 address.
    fn parse_discovery(&self, record: &ServiceRecord) -> (r: Option<DiscoveredHost>)
        ensures
            match r {
                Some(h) => self.announced(*record) == Some(h@),
                None => self.announced(*record) is None,
            },
    ;
}

/// What a protocol offers.
pub open spec fn caps_of(protocol: Protocol) -> BackendCaps {
    match protocol {
        Protocol::Punktfunk => Punktfunk.offers(),
        Protocol::GameStream => GameStream.offers(),
    }
}

/// What a protocol offers.
pub fn protocol_caps(protocol: Protocol) -> (r: BackendCaps)
    ensures
        r == caps_of(protocol),
{
    match protocol {
        Protocol::Punktfunk => Punktfunk.caps(),
        Protocol::GameStream => GameStream.caps(),
    }
}

/// The port for queries where none is on record.
pub open spec fn query_port_of(protocol: Protocol) -> u16 {
    match protocol {
        Protocol::Punktfunk => Punktfunk.query_port(),
        Protocol::GameStream => GameStream.query_port(),
    }
}

/// The port for queries where none is on record.
pub fn protocol_query_port(protocol: Protocol) -> (r: u16)
    ensures
        r == query_port_of(protocol),
{
    match protocol {
        Protocol::Punktfunk => Punktfunk.default_query_port(),
        Protocol::GameStream => GameStream.default_query_port(),
    }
}

/// The backend for a protocol, where this build can talk to such hosts. There is none for a
/// GameStream host, rather than one that would speak the wrong protocol to it.
pub fn backend_for(protocol: Protocol) -> (r: Option<Punktfunk>)
    ensures
        r == (match protocol {
            Protocol::Punktfunk => Some(Punktfunk),
            Protocol::GameStream => None,
        }),
{
    match protocol {
        Protocol::Punktfunk => Some(Punktfunk),
        Protocol::GameStream => None,
    }
}

/// The backend for a protocol where a host without one cannot be reported.
pub fn backend_or_punktfunk(protocol: Protocol) -> (r: Punktfunk)
    ensures
        r == Punktfunk,
{
    match backend_for(protocol) {
        Some(b) => b,
        None => Punktfunk,
    }
}

/// A record announces the same address and the same name to both protocols; they differ in what
/// else they read from it.
pub proof fn law_same_address_announced(record: ServiceRecord)
    ensures
        Punktfunk.announced(record) is Some == GameStream.announced(record) is Some,
        match (Punktfunk.announced(record), GameStream.announced(record)) {
            (Some(p), Some(g)) => p.addr == g.addr && p.name == g.name && p.port == g.port,
            _ => true,
        },
{
}

/// The service type alone tells the protocol.
pub proof fn law_services_differ()
    ensures
        Punktfunk.service() != GameStream.service(),
{
    reveal_strlit("_punktfunk._udp.local.");
    reveal_strlit("_nvstream._tcp.local.");
    assert(Punktfunk.service()[1] != GameStream.service()[1]);
}

/// What only one of the protocols can do is offered for its hosts alone: a speed test and asking
/// for access over the one, unpairing and ending what runs over the other.
pub proof fn law_each_protocol_offers_its_own(protocol: Protocol)
    ensures
        caps_of(protocol).speed_test <==> protocol is Punktfunk,
        caps_of(protocol).request_access <==> protocol is Punktfunk,
        caps_of(protocol).unpair <==> protocol is GameStream,
        caps_of(protocol).quit_app <==> protocol is GameStream,
        protocol is Punktfunk ==> query_port_of(protocol) == 47990,
        protocol is GameStream ==> query_port_of(protocol) == 47989,
        Punktfunk.speaks() is Punktfunk,
        GameStream.speaks() is GameStream,
        Punktfunk.service() == "_punktfunk._udp.local."@,
        GameStream.service() == "_nvstream._tcp.local."@,
{
}

/// An announced host has the first label of its service as its name, its first address and its
/// port, and speaks the protocol that it was announced under. Only a record without an address
/// announces none.
pub proof fn law_announced_host_is_the_records(record: ServiceRecord)
    ensures
        record.addresses@.len() == 0 ==> Punktfunk.announced(record) is None
            && GameStream.announced(record) is None,
        record.addresses@.len() > 0 ==> {
            &&& Punktfunk.announced(record) matches Some(h) && h.protocol is Punktfunk && h.addr
                == record.addresses@[0]@ && h.port == record.port && (record.mgmt is None
                ==> h.mgmt_port is None) && (record.mac is None ==> h.mac.len() == 0) && (forall|
                i: int,
            |
                0 <= i < h.name.len() ==> #[trigger] h.name[i] == record.fullname@[i] && h.name[i]
                    != '.') && (h.name.len() < record.fullname@.len() ==> record.fullname@[h.name.len() as int]
                == '.')
            &&& GameStream.announced(record) matches Some(h) && h.protocol is GameStream && h.addr
                == record.addresses@[0]@ && h.port == record.port && h.mgmt_port == Some(
                record.port,
            ) && h.mac.len() == 0
        },
{
    law_name_ends_at_the_first_dot(record.fullname@, '.');
}

} // verus!
