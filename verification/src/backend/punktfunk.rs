//! Punktfunk hosts.
use vstd::prelude::*;

use crate::backend::{BackendCaps, HostBackend};
use crate::discovery::{
    before_first, label_and_addr, macs_of, mgmt_of, record_addr, record_macs, record_mgmt,
    DiscoveredHost, DiscoveredView, ServiceRecord,
};
use crate::library::DEFAULT_MGMT_PORT;
use crate::model::protocol::Protocol;

verus! {

/// The service type that the hosts announce.
pub const SERVICE_TYPE: &'static str = "_punktfunk._udp.local.";

/// Punktfunk hosts.
#[derive(Clone, Copy, Debug, PartialEq, Eq, Structural)]
pub struct Punktfunk;

impl HostBackend for Punktfunk {
    open spec fn speaks(&self) -> Protocol {
        Protocol::Punktfunk
    }

    open spec fn offers(&self) -> BackendCaps {
        BackendCaps { speed_test: true, request_access: true, unpair: false, quit_app: false }
    }

    open spec fn service(&self) -> Seq<char> {
        SERVICE_TYPE@
    }

    open spec fn query_port(&self) -> u16 {
        DEFAULT_MGMT_PORT
    }

    /// The management port and the Wake-on-LAN addresses are in the record's properties.
    open spec fn announced(&self, record: ServiceRecord) -> Option<DiscoveredView> {
        match record_addr(record) {
            None => None,
            Some(addr) => Some(
                DiscoveredView {
                    name: before_first(record.fullname@, '.'),
                    addr,
                    port: record.port,
                    protocol: Protocol::Punktfunk,
                    mgmt_port: record_mgmt(record),
                    mac: record_macs(record),
                },
            ),
        }
    }

    fn protocol(&self) -> (r: Protocol) {
        Protocol::Punktfunk
    }

    fn caps(&self) -> (r: BackendCaps) {
        BackendCaps { speed_test: true, request_access: true, unpair: false, quit_app: false }
    }

    fn discovery_service(&self) -> (r: &'static str) {
        SERVICE_TYPE
    }

    fn default_query_port(&self) -> (r: u16) {
        DEFAULT_MGMT_PORT
    }

    fn parse_discovery(&self, record: &ServiceRecord) -> (r: Option<DiscoveredHost>) {
        match label_and_addr(record) {
            None => None,
            Some((name, addr)) => Some(
                DiscoveredHost {
                    name,
                    addr,
                    port: record.port,
                    protocol: Protocol::Punktfunk,
                    mgmt_port: mgmt_of(record),
                    mac: macs_of(record),
                },
            ),
        }
    }
}

} // verus!
