//! Which streaming protocol a host speaks, and what trusting it means.
use vstd::prelude::*;

verus! {

/// The protocol a host speaks, decided once when the host is first learned.
#[derive(Clone, Copy, Debug, PartialEq, Eq, Structural)]
pub enum Protocol {
    Punktfunk,
    /// Sunshine and compatible hosts.
    GameStream,
}

impl Default for Protocol {
    fn default() -> (r: Self)
        ensures
            r == Protocol::Punktfunk,
    {
        Protocol::Punktfunk
    }
}

/// Why a host is believed to be the one this device paired with.
#[derive(Clone, Copy, Debug, PartialEq, Eq)]
pub enum HostTrust {
    /// Discovered but never paired.
    Unpaired,
    /// The SHA-256 of the host's pinned leaf certificate.
    Pinned([u8; 32]),
    /// The host registered this device's client certificate; nothing host-side is stored.
    ClientCertPaired,
}

impl Default for HostTrust {
    fn default() -> (r: Self)
        ensures
            r == HostTrust::Unpaired,
    {
        HostTrust::Unpaired
    }
}

impl HostTrust {
    /// The pinned fingerprint, exactly when the trust is a pin.
    pub fn pin(self) -> (r: Option<[u8; 32]>)
        ensures
            r == (match self {
                HostTrust::Pinned(fp) => Some(fp),
                HostTrust::Unpaired => None,
                HostTrust::ClientCertPaired => None,
            }),
    {
        match self {
            HostTrust::Pinned(fp) => Some(fp),
            HostTrust::Unpaired => None,
            HostTrust::ClientCertPaired => None,
        }
    }

    /// Whether the host is trusted in any way.
    pub fn is_paired(self) -> (r: bool)
        ensures
            r == (self != HostTrust::Unpaired),
    {
        match self {
            HostTrust::Unpaired => false,
            HostTrust::Pinned(_) => true,
            HostTrust::ClientCertPaired => true,
        }
    }
}

} // verus!
