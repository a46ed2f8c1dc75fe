//! Calls to a GameStream host: which come in what order, and what each comes to. The calls
//! themselves are made elsewhere, and their outcomes are handed in.
use vstd::prelude::*;

use crate::backend::gamestream::http::{api_message, call_text, MoonlightClientError};
use crate::backend::gamestream::DEFAULT_HTTP_PORT;

verus! {

/// How this device calls itself in a host's list.
pub const DEVICE_NAME: &'static str = "webOS TV";

pub const NO_CERTIFICATE: &'static str = "pairing reported success but left no server certificate";

/// The port to query where `port` was announced, or not.
pub fn query_port(port: Option<u16>) -> (r: u16)
    ensures
        r == (match port {
            Some(p) => p,
            None => DEFAULT_HTTP_PORT,
        }),
{
    match port {
        Some(p) => p,
        None => DEFAULT_HTTP_PORT,
    }
}

/// What to do next to open a host.
#[derive(Debug)]
pub enum OpenStep {
    /// Give up, and show why.
    Failed(String),
    /// Use the stored identity, which queries the host with it.
    Restore,
    /// Query the host without one.
    Update,
    /// The host can be used.
    Opened,
}

/// What the user is shown for a call that came to `outcome`.
pub open spec fn failure_text(outcome: Result<(), MoonlightClientError>) -> Option<Seq<char>> {
    match outcome {
        Ok(_) => None,
        Err(e) => Some(call_text(e)),
    }
}

/// After the host was named: it is queried with the stored identity where its certificate
/// is stored, else without.
pub fn after_naming(named: Result<(), MoonlightClientError>, certificate_stored: bool) -> (r:
    OpenStep)
    ensures
        match r {
            OpenStep::Failed(why) => failure_text(named) == Some(why@),
            OpenStep::Restore => named is Ok && certificate_stored,
            OpenStep::Update => named is Ok && !certificate_stored,
            OpenStep::Opened => false,
        },
{
    match named {
        Err(e) => OpenStep::Failed(api_message("open host", &e)),
        Ok(_) => if certificate_stored {
            OpenStep::Restore
        } else {
            OpenStep::Update
        },
    }
}

/// After the query with the stored identity. `identity` says whether this device's own half
/// could be had. What the query came to does not matter: a host that does not take the
/// identity may be about to be paired, and one that is merely off must not cost the pairing.
pub fn after_restore(identity: Result<(), String>) -> (r: OpenStep)
    ensures
        r == (match identity {
            Err(why) => OpenStep::Failed(why),
            Ok(_) => OpenStep::Opened,
        }),
{
    match identity {
        Err(why) => OpenStep::Failed(why),
        Ok(_) => OpenStep::Opened,
    }
}

/// After the query without an identity.
pub fn after_update(updated: Result<(), MoonlightClientError>) -> (r: OpenStep)
    ensures
        match r {
            OpenStep::Failed(why) => failure_text(updated) == Some(why@),
            OpenStep::Opened => updated is Ok,
            _ => false,
        },
{
    match updated {
        Err(e) => OpenStep::Failed(api_message("query host", &e)),
        Ok(_) => OpenStep::Opened,
    }
}

/// What pairing came to: the certificate to store for the host, or what the user is shown.
pub fn pair(
    outcome: Result<(), MoonlightClientError>,
    server: Option<String>,
) -> (r: Result<String, String>)
    ensures
        match r {
            Ok(certificate) => outcome is Ok && server == Some(certificate),
            Err(why) => match failure_text(outcome) {
                Some(text) => why@ == text,
                None => server is None && why@ == NO_CERTIFICATE@,
            },
        },
{
    match outcome {
        Err(e) => Err(api_message("pairing", &e)),
        Ok(_) => match server {
            Some(certificate) => Ok(certificate),
            None => Err(NO_CERTIFICATE.to_owned()),
        },
    }
}

/// What dropping a pairing comes to: whether the host's certificate is deleted here, and what
/// the user is shown.
#[derive(Debug)]
pub struct Unpaired {
    pub forget_server: bool,
    pub failure: Option<String>,
}

/// Drops a pairing on both sides. This side's half is done even where the call failed, else a
/// host that is off would leave a certificate that nothing accepts.
pub fn unpair(outcome: Result<(), MoonlightClientError>) -> (r: Unpaired)
    ensures
        r.forget_server,
        match r.failure {
            Some(why) => failure_text(outcome) == Some(why@),
            None => outcome is Ok,
        },
{
    match outcome {
        Err(e) => Unpaired { forget_server: true, failure: Some(api_message("unpair", &e)) },
        Ok(_) => Unpaired { forget_server: true, failure: None },
    }
}

/// The app that a host reports as running. It reports 0 when it is idle.
pub fn current_game(id: u32) -> (r: Option<u32>)
    ensures
        r == (if id != 0 {
            Some(id)
        } else {
            None
        }),
{
    if id != 0 {
        Some(id)
    } else {
        None
    }
}

/// A call that came to something shows nothing, and one that failed shows why.
pub proof fn law_failure_is_shown(e: MoonlightClientError)
    ensures
        failure_text(Ok(())) is None,
        failure_text(Err(e)) == Some(call_text(e)),
{
}

} // verus!
