//! User-facing sentences for connection, pairing and session failures.
use vstd::prelude::*;

use crate::text::{hex_fixed, push_hex_fixed};

verus! {

pub const DENIED: &'static str = "The host declined this device's request.";

pub const APPROVAL_TIMEOUT: &'static str = "Nobody approved the request on the host in time — approve this device on the host, then try again.";

pub const SUPERSEDED: &'static str = "A newer request from this device replaced this one — approve the latest request on the host.";

pub const IDENTITY_REQUIRED: &'static str = "The host requires pairing — pair this device (PIN or request access) first.";

pub const PAIRING_NOT_ARMED: &'static str = "Pairing isn't armed on the host — arm it on the host's Pairing page, then try again.";

pub const PAIRING_OTHER_DEVICE: &'static str = "The host's pairing window is armed for a different device — arm it for this one.";

pub const PAIRING_RATE_LIMITED: &'static str = "Too many pairing attempts — wait a couple of seconds and try again.";

pub const WIRE_VERSION_MISMATCH: &'static str = "Client and host versions don't match — update both to the same release.";

pub const BUSY: &'static str = "The host is busy with another session.";

pub const SETUP_FAILED: &'static str = "The host accepted the connection but couldn't start the stream — the host's own log has the cause.";

pub const NO_ANSWER: &'static str = "The host didn't answer. Is it running and reachable?";

pub const UNREACHABLE_HEAD: &'static str = "Couldn't reach the host (";

pub const UNREACHABLE_TAIL: &'static str = ") — check that this TV and the host are on the same network.";

pub const CLOSED: &'static str = "The host closed the connection.";

pub const CONNECTION_FAILED: &'static str = "Connection failed: ";

pub const WRONG_PIN: &'static str = "Wrong PIN — check the PIN on the host's Pairing page and try again.";

pub const PROTECTED_CONTENT_MESSAGE: &'static str = "The host stopped streaming because something on screen is protected content — DRM-protected video can't be captured.";

pub const ENCODER_FAILED_MESSAGE: &'static str = "The host's video encoder failed — lower the resolution or frame rate, or check the host's GPU driver.";

pub const ENDED_HEAD: &'static str = "The host ended the session unexpectedly (code 0x";

pub const ENDED_TAIL: &'static str = ") — the host's own log has the cause.";

/// The connection was asked to end, or its control channel simply went away.
pub const GRACEFUL: i32 = -2147287005;

/// Something on screen may not be captured.
pub const PROTECTED_CONTENT: i32 = -2146528510;

/// The host's encoder could not take a frame.
pub const ENCODER_FAILED: i32 = -2146528253;

/// Why a host turned a connection away.
#[derive(Clone, Copy, Debug, PartialEq, Eq, Structural)]
pub enum RejectReason {
    Denied,
    ApprovalTimeout,
    Superseded,
    IdentityRequired,
    PairingNotArmed,
    PairingBoundToOtherDevice,
    PairingRateLimited,
    WireVersionMismatch,
    Busy,
    SetupFailed,
}

/// How a connection, a probe or a pairing failed.
#[derive(Debug)]
pub enum ClientError {
    Rejected(RejectReason),
    Timeout,
    /// Transport trouble, in the words of the network layer.
    Io(String),
    Closed,
    /// A key did not verify, in the words of the protocol layer; while pairing, a wrong PIN.
    Crypto(String),
    /// Any other failure, in its own words.
    Other(String),
}

/// An error as it reaches the menu: one of the client's own, or any other in its own words.
#[derive(Debug)]
pub enum Failure {
    Client(ClientError),
    Other(String),
}

/// The sentence for each rejection.
pub open spec fn reject_text(reason: RejectReason) -> Seq<char> {
    match reason {
        RejectReason::Denied => DENIED@,
        RejectReason::ApprovalTimeout => APPROVAL_TIMEOUT@,
        RejectReason::Superseded => SUPERSEDED@,
        RejectReason::IdentityRequired => IDENTITY_REQUIRED@,
        RejectReason::PairingNotArmed => PAIRING_NOT_ARMED@,
        RejectReason::PairingBoundToOtherDevice => PAIRING_OTHER_DEVICE@,
        RejectReason::PairingRateLimited => PAIRING_RATE_LIMITED@,
        RejectReason::WireVersionMismatch => WIRE_VERSION_MISMATCH@,
        RejectReason::Busy => BUSY@,
        RejectReason::SetupFailed => SETUP_FAILED@,
    }
}

/// The sentence for a failed connection or probe: a rejection is told apart from transport
/// trouble.
pub open spec fn connect_text(err: ClientError) -> Seq<char> {
    match err {
        ClientError::Rejected(reason) => reject_text(reason),
        ClientError::Timeout => NO_ANSWER@,
        ClientError::Io(e) => UNREACHABLE_HEAD@ + e@ + UNREACHABLE_TAIL@,
        ClientError::Closed => CLOSED@,
        ClientError::Crypto(words) => CONNECTION_FAILED@ + words@,
        ClientError::Other(words) => CONNECTION_FAILED@ + words@,
    }
}

/// The sentence for a failed pairing: a key that does not verify is a wrong PIN.
pub open spec fn pair_text(err: ClientError) -> Seq<char> {
    match err {
        ClientError::Crypto(_) => WRONG_PIN@,
        other => connect_text(other),
    }
}

/// The sentence for a session that the host ended with `code`. A control channel that went away
/// without a word leaves the code 0, which reads like a graceful end.
pub open spec fn end_text(code: i32) -> Seq<char> {
    if code == 0 || code == GRACEFUL {
        CLOSED@
    } else if code == PROTECTED_CONTENT {
        PROTECTED_CONTENT_MESSAGE@
    } else if code == ENCODER_FAILED {
        ENCODER_FAILED_MESSAGE@
    } else {
        ENDED_HEAD@ + hex_fixed(code as u32 as nat, 8) + ENDED_TAIL@
    }
}

/// Why the host turned this connection away.
pub fn reject_message(reason: RejectReason) -> (r: String)
    ensures
        r@ == reject_text(reason),
{
    match reason {
        RejectReason::Denied => DENIED.to_owned(),
        RejectReason::ApprovalTimeout => APPROVAL_TIMEOUT.to_owned(),
        RejectReason::Superseded => SUPERSEDED.to_owned(),
        RejectReason::IdentityRequired => IDENTITY_REQUIRED.to_owned(),
        RejectReason::PairingNotArmed => PAIRING_NOT_ARMED.to_owned(),
        RejectReason::PairingBoundToOtherDevice => PAIRING_OTHER_DEVICE.to_owned(),
        RejectReason::PairingRateLimited => PAIRING_RATE_LIMITED.to_owned(),
        RejectReason::WireVersionMismatch => WIRE_VERSION_MISMATCH.to_owned(),
        RejectReason::Busy => BUSY.to_owned(),
        RejectReason::SetupFailed => SETUP_FAILED.to_owned(),
    }
}

/// Why a connection or a probe failed.
pub fn connect_message(err: &ClientError) -> (r: String)
    ensures
        r@ == connect_text(*err),
{
    match err {
        ClientError::Rejected(reason) => reject_message(*reason),
        ClientError::Timeout => NO_ANSWER.to_owned(),
        ClientError::Io(e) => {
            let mut s = UNREACHABLE_HEAD.to_owned();
            s.append(e.as_str());
            s.append(UNREACHABLE_TAIL);
            s
        },
        ClientError::Closed => CLOSED.to_owned(),
        ClientError::Crypto(words) => {
            let mut s = CONNECTION_FAILED.to_owned();
            s.append(words.as_str());
            s
        },
        ClientError::Other(words) => {
            let mut s = CONNECTION_FAILED.to_owned();
            s.append(words.as_str());
            s
        },
    }
}

/// Why PIN pairing failed.
pub fn pair_message(err: &ClientError) -> (r: String)
    ensures
        r@ == pair_text(*err),
{
    match err {
        ClientError::Crypto(_) => WRONG_PIN.to_owned(),
        _ => connect_message(err),
    }
}

/// Why a session ended, from the reason code of its control channel.
pub fn gamestream_end_message(code: i32) -> (r: String)
    ensures
        r@ == end_text(code),
{
    if code == 0 || code == GRACEFUL {
        CLOSED.to_owned()
    } else if code == PROTECTED_CONTENT {
        PROTECTED_CONTENT_MESSAGE.to_owned()
    } else if code == ENCODER_FAILED {
        ENCODER_FAILED_MESSAGE.to_owned()
    } else {
        let mut s = ENDED_HEAD.to_owned();
        push_hex_fixed(&mut s, code as u32, 8);
        s.append(ENDED_TAIL);
        s
    }
}

/// The sentence to show for any error: the client's own errors are explained, others are quoted.
pub fn friendly(err: &Failure) -> (r: String)
    ensures
        r@ == (match err {
            Failure::Client(e) => connect_text(*e),
            Failure::Other(words) => words@,
        }),
{
    match err {
        Failure::Client(e) => connect_message(e),
        Failure::Other(words) => words.clone(),
    }
}

/// Each way in which a host turns a device away has its own sentence, which tells what to do
/// about it.
pub proof fn law_refusals_are_explained(reason: RejectReason)
    ensures
        reason is Denied ==> reject_text(reason) == "The host declined this device's request."@,
        reason is ApprovalTimeout ==> reject_text(reason)
            == "Nobody approved the request on the host in time — approve this device on the host, then try again."@,
        reason is Superseded ==> reject_text(reason)
            == "A newer request from this device replaced this one — approve the latest request on the host."@,
        reason is IdentityRequired ==> reject_text(reason)
            == "The host requires pairing — pair this device (PIN or request access) first."@,
        reason is PairingNotArmed ==> reject_text(reason)
            == "Pairing isn't armed on the host — arm it on the host's Pairing page, then try again."@,
        reason is PairingBoundToOtherDevice ==> reject_text(reason)
            == "The host's pairing window is armed for a different device — arm it for this one."@,
        reason is PairingRateLimited ==> reject_text(reason)
            == "Too many pairing attempts — wait a couple of seconds and try again."@,
        reason is WireVersionMismatch ==> reject_text(reason)
            == "Client and host versions don't match — update both to the same release."@,
        reason is Busy ==> reject_text(reason) == "The host is busy with another session."@,
        reason is SetupFailed ==> reject_text(reason)
            == "The host accepted the connection but couldn't start the stream — the host's own log has the cause."@,
{
}

/// A refusal is told in its own sentence and never as trouble on the way; what the layers below
/// said of a failure is quoted.
pub proof fn law_refusal_is_no_transport_trouble(err: ClientError)
    ensures
        err matches ClientError::Rejected(reason) ==> connect_text(err) == reject_text(reason),
        err is Timeout ==> connect_text(err)
            == "The host didn't answer. Is it running and reachable?"@,
        err is Closed ==> connect_text(err) == "The host closed the connection."@,
        err matches ClientError::Io(e) ==> connect_text(err) == "Couldn't reach the host ("@ + e@
            + ") — check that this TV and the host are on the same network."@,
        err matches ClientError::Crypto(e) ==> connect_text(err) == "Connection failed: "@ + e@,
        err matches ClientError::Other(e) ==> connect_text(err) == "Connection failed: "@ + e@,
{
}

/// Pairing fails in the same words as connecting, but for a key that does not verify, which is a
/// wrong PIN.
pub proof fn law_wrong_pin_is_told_while_pairing(err: ClientError)
    ensures
        err is Crypto ==> pair_text(err)
            == "Wrong PIN — check the PIN on the host's Pairing page and try again."@,
        !(err is Crypto) ==> pair_text(err) == connect_text(err),
{
}

/// A session that was asked to end is not reported as trouble, and one that ended for any reason
/// that is not known is reported with its code, in eight hexadecimal digits.
pub proof fn law_end_is_told_by_its_code(code: i32)
    ensures
        ({
            let unsigned = if code < 0 {
                0x1_0000_0000 + code
            } else {
                code as int
            };
            &&& unsigned == 0 || unsigned == 0x8003_0023 ==> end_text(code)
                == "The host closed the connection."@
            &&& unsigned == 0x800E_9302 ==> end_text(code)
                == "The host stopped streaming because something on screen is protected content — DRM-protected video can't be captured."@
            &&& unsigned == 0x800E_9403 ==> end_text(code)
                == "The host's video encoder failed — lower the resolution or frame rate, or check the host's GPU driver."@
            &&& unsigned != 0 && unsigned != 0x8003_0023 && unsigned != 0x800E_9302 && unsigned
                != 0x800E_9403 ==> end_text(code)
                == "The host ended the session unexpectedly (code 0x"@ + hex_fixed(
                unsigned as nat,
                8,
            ) + ") — the host's own log has the cause."@
        }),
{
    assert(code < 0 ==> (code as u32) == 0x1_0000_0000 + code) by (bit_vector);
    assert(code >= 0 ==> (code as u32) == code) by (bit_vector);
}

} // verus!
