//! Requests to a GameStream host: their addresses, what is tried again, and what the user is
//! told of a failure.
//!
//! A host serves a self-signed certificate with nothing in it to check a name or a chain
//! against. What it is trusted by is the very certificate that it gave when it was paired.
use vstd::prelude::*;
use vstd::utf8::encode_utf8;

use crate::backend::gamestream::identity::PemBlock;
use crate::text::{join3, quoted, quoted_of, same_text};

verus! {

/// How often a request is sent again after its connection broke.
pub const HANDSHAKE_RETRIES: u32 = 2;

/// How long to wait before a request is sent again, in milliseconds.
pub const RETRY_DELAY_MS: u64 = 400;

pub const NOT_ACCEPTED: &'static str = "The host didn't accept this device — pair with it again.";

pub const BAD_CERTIFICATE: &'static str = "This device's pairing certificate couldn't be used.";

pub const NOT_REACHED: &'static str = "The host couldn't be reached.";

pub const NOT_UNDERSTOOD: &'static str = "The host's answer wasn't understood.";

pub const NOT_PAIRED_YET: &'static str = "This host hasn't been paired yet.";

pub const NOT_RESPONDING: &'static str = "The host isn't responding.";

pub const WENT_WRONG: &'static str = "Something went wrong talking to the host.";

pub const PIN_WAS_WRONG: &'static str = "The host says that PIN was wrong.";

pub const ANOTHER_PAIRING: &'static str = "Another device is pairing with this host — try again shortly.";

pub const PAIRING_REFUSED: &'static str = "The host refused the pairing.";

pub const BAD_KEY_TAG: &'static str = "unsupported private key PEM tag ";

pub const PKCS8_TAG: &'static str = "PRIVATE KEY";

pub const PKCS1_TAG: &'static str = "RSA PRIVATE KEY";

/// Why a request got no answer.
#[derive(Clone, Copy, Debug, PartialEq, Eq, Structural)]
pub enum TransportError {
    /// An established connection broke.
    Io,
    HostNotFound,
    ConnectionFailed,
    Tls,
    Rustls,
    Other,
}

/// Why an answer could not be read.
#[derive(Debug)]
pub enum ParseError {
    /// The host turned the request down, mostly with a word on why.
    InvalidXmlStatusCode { message: Option<String> },
    Other,
}

/// Why a request failed.
#[derive(Debug)]
pub enum GsHttpError {
    Ureq(TransportError),
    Parse(ParseError),
    /// This device's own certificate is unusable, with the reason.
    Tls(String),
}

/// Why pairing failed.
#[derive(Debug)]
pub enum ClientPairingError {
    FailedWrongPin,
    FailedAlreadyInProgress,
    Failed,
    /// A phase of the exchange failed, in a request or elsewhere.
    Crypto(Option<GsHttpError>),
}

/// Why a call to a host failed.
#[derive(Debug)]
pub enum MoonlightClientError {
    /// A request failed, or something else below.
    Backend(Option<GsHttpError>),
    NotPaired,
    Offline,
    Unauthenticated,
    Poisoned,
    Pairing(ClientPairingError),
    /// The host cannot meet a setting, in words that name it.
    StreamConfig(String),
    Moonlight(String),
}

impl GsHttpError {
    /// What the host itself said when it turned the request down.
    pub open spec fn host_says(self) -> Option<Seq<char>> {
        match self {
            GsHttpError::Parse(ParseError::InvalidXmlStatusCode { message: Some(m) }) => Some(m@),
            _ => None,
        }
    }

    /// The sentence for a request without an answer.
    pub open spec fn transport_text(self) -> Seq<char> {
        match self {
            GsHttpError::Ureq(TransportError::Tls) => NOT_ACCEPTED@,
            GsHttpError::Ureq(TransportError::Rustls) => NOT_ACCEPTED@,
            GsHttpError::Tls(_) => BAD_CERTIFICATE@,
            GsHttpError::Ureq(_) => NOT_REACHED@,
            GsHttpError::Parse(_) => NOT_UNDERSTOOD@,
        }
    }

    /// The host's own words where it gave any, else a sentence.
    pub open spec fn shown(self) -> Seq<char> {
        match self.host_says() {
            Some(m) => m,
            None => self.transport_text(),
        }
    }

    /// What the host itself said when it turned the request down.
    pub fn host_message(&self) -> (r: Option<&str>)
        ensures
            match r {
                Some(m) => self.host_says() == Some(m@),
                None => self.host_says() is None,
            },
    {
        match self {
            GsHttpError::Parse(ParseError::InvalidXmlStatusCode { message: Some(m) }) => Some(
                m.as_str(),
            ),
            _ => None,
        }
    }

    /// One sentence for a request without an answer.
    pub fn transport_message(&self) -> (r: &'static str)
        ensures
            r@ == self.transport_text(),
    {
        match self {
            GsHttpError::Ureq(TransportError::Tls) | GsHttpError::Ureq(TransportError::Rustls) => {
                NOT_ACCEPTED
            },
            GsHttpError::Tls(_) => BAD_CERTIFICATE,
            GsHttpError::Ureq(_) => NOT_REACHED,
            GsHttpError::Parse(_) => NOT_UNDERSTOOD,
        }
    }

    /// Whether no connection came about, or it broke.
    pub fn is_connect(&self) -> (r: bool)
        ensures
            r == (self == GsHttpError::Ureq(TransportError::HostNotFound) || self
                == GsHttpError::Ureq(TransportError::ConnectionFailed) || self
                == GsHttpError::Ureq(TransportError::Io)),
    {
        match self {
            GsHttpError::Ureq(TransportError::HostNotFound)
            | GsHttpError::Ureq(TransportError::ConnectionFailed)
            | GsHttpError::Ureq(TransportError::Io) => true,
            _ => false,
        }
    }

    /// Whether the host no longer accepts this device's certificate: it dropped the device
    /// from its list.
    pub fn is_encryption(&self) -> (r: bool)
        ensures
            r == (self == GsHttpError::Ureq(TransportError::Tls) || self == GsHttpError::Ureq(
                TransportError::Rustls,
            )),
    {
        match self {
            GsHttpError::Ureq(TransportError::Tls) | GsHttpError::Ureq(TransportError::Rustls) => {
                true
            },
            _ => false,
        }
    }

    /// The unreadable answer that this error is, or the error back.
    pub fn into_parse_error(self) -> (r: Result<ParseError, GsHttpError>)
        ensures
            r == (match self {
                GsHttpError::Parse(e) => Ok::<ParseError, GsHttpError>(e),
                other => Err(other),
            }),
    {
        match self {
            GsHttpError::Parse(e) => Ok(e),
            other => Err(other),
        }
    }
}

/// The sentence that the user is shown for a failed call.
pub open spec fn call_text(err: MoonlightClientError) -> Seq<char> {
    match err {
        MoonlightClientError::Backend(Some(inner)) => inner.shown(),
        MoonlightClientError::Pairing(ClientPairingError::Crypto(Some(inner))) => inner.shown(),
        MoonlightClientError::NotPaired => NOT_PAIRED_YET@,
        MoonlightClientError::Offline => NOT_RESPONDING@,
        MoonlightClientError::Unauthenticated => NOT_ACCEPTED@,
        MoonlightClientError::Poisoned => WENT_WRONG@,
        MoonlightClientError::Pairing(ClientPairingError::FailedWrongPin) => PIN_WAS_WRONG@,
        MoonlightClientError::Pairing(
            ClientPairingError::FailedAlreadyInProgress,
        ) => ANOTHER_PAIRING@,
        MoonlightClientError::Pairing(ClientPairingError::Failed) => PAIRING_REFUSED@,
        MoonlightClientError::StreamConfig(words) => words@,
        MoonlightClientError::Moonlight(words) => words@,
        MoonlightClientError::Pairing(ClientPairingError::Crypto(None)) => NOT_REACHED@,
        MoonlightClientError::Backend(None) => NOT_REACHED@,
    }
}

fn shown_message(e: &GsHttpError) -> (r: String)
    ensures
        r@ == e.shown(),
{
    match e.host_message() {
        Some(m) => m.to_owned(),
        None => e.transport_message().to_owned(),
    }
}

/// One sentence for a failed call. `what` names the call for the log, and is not shown.
pub fn api_message(what: &str, err: &MoonlightClientError) -> (r: String)
    ensures
        r@ == call_text(*err),
{
    match err {
        MoonlightClientError::Backend(Some(inner)) => shown_message(inner),
        MoonlightClientError::Pairing(ClientPairingError::Crypto(Some(inner))) => {
            shown_message(inner)
        },
        MoonlightClientError::NotPaired => NOT_PAIRED_YET.to_owned(),
        MoonlightClientError::Offline => NOT_RESPONDING.to_owned(),
        MoonlightClientError::Unauthenticated => NOT_ACCEPTED.to_owned(),
        MoonlightClientError::Poisoned => WENT_WRONG.to_owned(),
        MoonlightClientError::Pairing(ClientPairingError::FailedWrongPin) => {
            PIN_WAS_WRONG.to_owned()
        },
        MoonlightClientError::Pairing(ClientPairingError::FailedAlreadyInProgress) => {
            ANOTHER_PAIRING.to_owned()
        },
        MoonlightClientError::Pairing(ClientPairingError::Failed) => PAIRING_REFUSED.to_owned(),
        MoonlightClientError::StreamConfig(words) => words.clone(),
        MoonlightClientError::Moonlight(words) => words.clone(),
        MoonlightClientError::Pairing(ClientPairingError::Crypto(None)) => NOT_REACHED.to_owned(),
        MoonlightClientError::Backend(None) => NOT_REACHED.to_owned(),
    }
}

/// Whether a byte of a value stands in a query as it is: the letters, the digits and four
/// marks that every reader takes literally.
pub open spec fn unreserved(b: u8) -> bool {
    ||| 0x41 <= b <= 0x5A
    ||| 0x61 <= b <= 0x7A
    ||| 0x30 <= b <= 0x39
    ||| b == 0x2D
    ||| b == 0x2E
    ||| b == 0x5F
    ||| b == 0x7E
}

/// The hexadecimal digit `d`, in upper case.
pub open spec fn upper_hex(d: int) -> char {
    if d < 10 {
        (0x30 + d) as char
    } else {
        (0x41 + (d - 10)) as char
    }
}

/// How one byte of a value is written in a query.
pub open spec fn escaped_byte(b: u8) -> Seq<char> {
    if unreserved(b) {
        seq![b as char]
    } else {
        seq!['%', upper_hex(b as int / 16), upper_hex(b as int % 16)]
    }
}

/// How the bytes of a value are written in a query.
pub open spec fn escaped(bytes: Seq<u8>) -> Seq<char>
    decreases bytes.len(),
{
    if bytes.len() == 0 {
        seq![]
    } else {
        escaped(bytes.drop_last()) + escaped_byte(bytes.last())
    }
}

/// A query with one more parameter.
pub open spec fn query_with(query: Seq<char>, key: Seq<char>, value: Seq<char>) -> Seq<char> {
    (if query.len() == 0 {
        query
    } else {
        query.push('&')
    }) + key + seq!['='] + escaped(encode_utf8(value))
}

fn upper_hex_digit(d: u8) -> (c: char)
    requires
        d < 16,
    ensures
        c == upper_hex(d as int),
{
    if d < 10 {
        (0x30u8 + d) as char
    } else {
        (0x41u8 + (d - 10)) as char
    }
}

fn is_unreserved(b: u8) -> (r: bool)
    ensures
        r == unreserved(b),
{
    (0x41 <= b && b <= 0x5A) || (0x61 <= b && b <= 0x7A) || (0x30 <= b && b <= 0x39) || b == 0x2D
        || b == 0x2E || b == 0x5F || b == 0x7E
}

/// A query string whose values are escaped.
#[derive(Debug)]
pub struct EncodedQuery(pub String);

impl EncodedQuery {
    /// A query without parameters.
    pub fn new() -> (query: Self)
        ensures
            query.0@ == Seq::<char>::empty(),
    {
        EncodedQuery(String::new())
    }

    /// Adds a parameter.
    pub fn append(&mut self, key: &str, value: &str)
        ensures
            final(self).0@ == query_with(old(self).0@, key@, value@),
    {
        if self.0.as_str().unicode_len() > 0 {
            self.0.push('&');
        }
        self.0.append(key);
        self.0.push('=');
        let bytes = value.as_bytes();
        let ghost base = self.0@;
        let mut i: usize = 0;
        assert(bytes@.take(0) =~= seq![]);
        while i < bytes.len()
            invariant
                i <= bytes.len(),
                self.0@ == base + escaped(bytes@.take(i as int)),
            decreases bytes.len() - i,
        {
            let b: u8 = bytes[i];
            if is_unreserved(b) {
                self.0.push(b as char);
            } else {
                self.0.push('%');
                self.0.push(upper_hex_digit(b / 16));
                self.0.push(upper_hex_digit(b % 16));
            }
            i += 1;
            proof {
                let part = bytes@.take(i as int);
                assert(part.drop_last() =~= bytes@.take(i - 1));
                assert(self.0@ =~= base + escaped(part));
            }
        }
        assert(bytes@.take(bytes@.len() as int) =~= bytes@);
    }
}

/// The address of a request.
pub open spec fn address_of(
    use_https: bool,
    hostport: Seq<char>,
    path: Seq<char>,
    query: Seq<char>,
) -> Seq<char> {
    (if use_https {
        "https://"@
    } else {
        "http://"@
    }) + hostport + path + "?"@ + query
}

/// The address of a request for `path` at the host. `hostport` comes ready for an address,
/// with brackets round an IPv6 literal.
pub fn url(use_https: bool, hostport: &str, path: &str, query: &EncodedQuery) -> (r: String)
    ensures
        r@ == address_of(use_https, hostport@, path@, query.0@),
{
    let scheme = if use_https {
        "https://"
    } else {
        "http://"
    };
    let mut r = join3(scheme, hostport, path);
    r.append("?");
    r.append(query.0.as_str());
    r
}

/// What to do after an attempt at a request.
#[derive(Clone, Copy, Debug, PartialEq, Eq, Structural)]
pub enum AfterAttempt {
    /// Hand out what came back.
    Done,
    /// Wait, then send the request again.
    Again { delay_ms: u64 },
}

/// Whether the request is sent again after `attempt` earlier attempts and one that came out
/// as `failure` says. A broken connection was never served, so that any request may be sent
/// again. Where nothing listens, or the host rejects the certificate, nothing is gained.
pub open spec fn sent_again(attempt: nat, failure: Option<TransportError>) -> bool {
    attempt < HANDSHAKE_RETRIES && failure == Some(TransportError::Io)
}

/// The attempts at one request.
#[derive(Clone, Copy, Debug, PartialEq, Eq, Structural)]
pub struct Attempts {
    /// How many have come to nothing.
    pub broken: u32,
}

impl Attempts {
    /// Before the first.
    pub fn new() -> (r: Self)
        ensures
            r.broken == 0,
    {
        Attempts { broken: 0 }
    }

    /// Decides after an attempt that failed as `failure` says, or not.
    pub fn after(&mut self, failure: Option<TransportError>) -> (next: AfterAttempt)
        ensures
            next == (if sent_again(old(self).broken as nat, failure) {
                AfterAttempt::Again { delay_ms: RETRY_DELAY_MS }
            } else {
                AfterAttempt::Done
            }),
            final(self).broken == old(self).broken + (if sent_again(
                old(self).broken as nat,
                failure,
            ) {
                1int
            } else {
                0
            }),
    {
        match failure {
            Some(TransportError::Io) => {
                if self.broken < HANDSHAKE_RETRIES {
                    self.broken += 1;
                    AfterAttempt::Again { delay_ms: RETRY_DELAY_MS }
                } else {
                    AfterAttempt::Done
                }
            },
            _ => AfterAttempt::Done,
        }
    }
}

/// The attempt whose outcome is handed out, where the attempt `k` comes out as `outcome(k)`
/// and the first `attempt` broke.
pub open spec fn handed_out(outcome: spec_fn(nat) -> Option<TransportError>, attempt: nat) -> nat
    decreases HANDSHAKE_RETRIES - attempt,
{
    if sent_again(attempt, outcome(attempt)) {
        handed_out(outcome, attempt + 1)
    } else {
        attempt
    }
}

/// A private key, as its encoding says.
#[derive(Debug)]
pub enum ClientKey {
    Pkcs8(Vec<u8>),
    Pkcs1(Vec<u8>),
}

/// The key in `key`. Its tag decides how it is encoded: this client writes the first kind, and
/// a file from another client is mostly of the second.
pub fn client_key_der(key: PemBlock) -> (r: Result<ClientKey, GsHttpError>)
    ensures
        match r {
            Ok(ClientKey::Pkcs8(der)) => key.tag@ == PKCS8_TAG@ && der == key.contents,
            Ok(ClientKey::Pkcs1(der)) => key.tag@ != PKCS8_TAG@ && key.tag@ == PKCS1_TAG@ && der
                == key.contents,
            Err(e) => key.tag@ != PKCS8_TAG@ && key.tag@ != PKCS1_TAG@ && (e matches GsHttpError::Tls(
                why,
            ) && why@ == BAD_KEY_TAG@ + quoted_of(key.tag@)),
        },
{
    if same_text(key.tag.as_str(), PKCS8_TAG) {
        Ok(ClientKey::Pkcs8(key.contents))
    } else if same_text(key.tag.as_str(), PKCS1_TAG) {
        Ok(ClientKey::Pkcs1(key.contents))
    } else {
        let mut why = BAD_KEY_TAG.to_owned();
        let shown = quoted(key.tag.as_str());
        why.append(shown.as_str());
        Err(GsHttpError::Tls(why))
    }
}

/// Whether a host that presents `end_entity` is the one that was paired under `expected`:
/// only the very same certificate counts.
pub fn certificate_trusted(end_entity: &[u8], expected: &[u8]) -> (r: bool)
    ensures
        r == (end_entity@ == expected@),
{
    if end_entity.len() != expected.len() {
        return false;
    }
    let mut i: usize = 0;
    while i < end_entity.len()
        invariant
            i <= end_entity.len(),
            end_entity@.len() == expected@.len(),
            end_entity@.take(i as int) == expected@.take(i as int),
        decreases end_entity.len() - i,
    {
        if end_entity[i] != expected[i] {
            assert(end_entity@[i as int] != expected@[i as int]);
            return false;
        }
        i += 1;
        proof {
            assert(end_entity@.take(i as int) =~= end_entity@.take(i - 1).push(
                end_entity@[i - 1],
            ));
            assert(expected@.take(i as int) =~= expected@.take(i - 1).push(expected@[i - 1]));
        }
    }
    assert(end_entity@.take(end_entity@.len() as int) =~= end_entity@);
    assert(expected@.take(expected@.len() as int) =~= expected@);
    true
}

/// What a digit of an escape stands for.
pub open spec fn hex_value(c: char) -> int {
    if '0' <= c && c <= '9' {
        c as int - 0x30
    } else {
        c as int - 0x41 + 10
    }
}

/// The bytes that a written value stands for.
pub open spec fn unescaped(s: Seq<char>) -> Seq<u8>
    decreases s.len(),
{
    if s.len() == 0 {
        seq![]
    } else if s[0] == '%' && s.len() >= 3 {
        seq![(hex_value(s[1]) * 16 + hex_value(s[2])) as u8] + unescaped(s.skip(3))
    } else {
        seq![s[0] as u8] + unescaped(s.skip(1))
    }
}

proof fn lemma_escaped_front(bytes: Seq<u8>)
    requires
        bytes.len() > 0,
    ensures
        escaped(bytes) == escaped_byte(bytes[0]) + escaped(bytes.drop_first()),
    decreases bytes.len(),
{
    if bytes.len() == 1 {
        assert(escaped(bytes.drop_last()) =~= seq![]);
        assert(escaped(bytes.drop_first()) =~= seq![]);
        assert(escaped(bytes) =~= escaped_byte(bytes[0]) + escaped(bytes.drop_first()));
    } else {
        lemma_escaped_front(bytes.drop_last());
        assert(bytes.drop_last().drop_first() =~= bytes.drop_first().drop_last());
        assert(escaped(bytes) =~= escaped_byte(bytes[0]) + escaped(bytes.drop_first()));
    }
}

/// A value reads back from a query as the bytes that it was written from: nothing in it is
/// lost, and no two values are written alike.
pub proof fn law_escaped_reads_back(bytes: Seq<u8>)
    ensures
        unescaped(escaped(bytes)) == bytes,
    decreases bytes.len(),
{
    if bytes.len() > 0 {
        let b = bytes[0];
        let rest = escaped(bytes.drop_first());
        lemma_escaped_front(bytes);
        law_escaped_reads_back(bytes.drop_first());
        let s = escaped(bytes);
        if unreserved(b) {
            assert(s.skip(1) =~= rest);
            assert(b as char != '%');
        } else {
            assert(s.skip(3) =~= rest);
            assert(hex_value(upper_hex(b as int / 16)) == b as int / 16);
            assert(hex_value(upper_hex(b as int % 16)) == b as int % 16);
        }
        assert(unescaped(s) =~= bytes);
    }
}

/// What a query may hold between its marks.
pub open spec fn query_char(c: char) -> bool {
    c == '%' || (c as int <= 0x7F && unreserved(c as u8))
}

/// A written value holds nothing that ends it or that an address may not hold: no space, no
/// `&`, no `=` and nothing outside ASCII.
pub proof fn law_escaped_is_plain(bytes: Seq<u8>)
    ensures
        forall|i: int| 0 <= i < escaped(bytes).len() ==> query_char(#[trigger] escaped(bytes)[i]),
    decreases bytes.len(),
{
    if bytes.len() > 0 {
        law_escaped_is_plain(bytes.drop_last());
        let b = bytes.last();
        assert forall|i: int| 0 <= i < escaped_byte(b).len() implies query_char(
            #[trigger] escaped_byte(b)[i],
        ) by {
            if unreserved(b) {
                assert((b as char) as u8 == b);
            }
        }
        let head = escaped(bytes.drop_last());
        assert forall|i: int| 0 <= i < escaped(bytes).len() implies query_char(
            #[trigger] escaped(bytes)[i],
        ) by {
            if i < head.len() {
                assert(escaped(bytes)[i] == head[i]);
            } else {
                assert(escaped(bytes)[i] == escaped_byte(b)[i - head.len()]);
            }
        }
    }
}

/// A request is sent at most three times. Each attempt before the one that is handed out
/// broke, and that one either did not break or was the last.
pub proof fn law_attempts_are_few(outcome: spec_fn(nat) -> Option<TransportError>, attempt: nat)
    requires
        attempt <= HANDSHAKE_RETRIES,
    ensures
        attempt <= handed_out(outcome, attempt) <= HANDSHAKE_RETRIES,
        forall|k: nat|
            attempt <= k < handed_out(outcome, attempt) ==> #[trigger] outcome(k) == Some(
                TransportError::Io,
            ),
        handed_out(outcome, attempt) < HANDSHAKE_RETRIES ==> outcome(handed_out(outcome, attempt))
            != Some(TransportError::Io),
    decreases HANDSHAKE_RETRIES - attempt,
{
    if sent_again(attempt, outcome(attempt)) {
        law_attempts_are_few(outcome, attempt + 1);
    }
}

/// Where a host turns a request down with a word on why, that word is what the user sees.
pub proof fn law_host_words_surface(message: String)
    ensures
        ({
            let refusal = GsHttpError::Parse(
                ParseError::InvalidXmlStatusCode { message: Some(message) },
            );
            &&& call_text(MoonlightClientError::Backend(Some(refusal))) == message@
            &&& call_text(
                MoonlightClientError::Pairing(ClientPairingError::Crypto(Some(refusal))),
            ) == message@
        }),
{
}

/// Every other failure has a sentence that tells it from the rest: whether the host knows this
/// device, can be reached, answers, or said no to the pairing and why.
pub proof fn law_failed_call_is_explained(err: MoonlightClientError)
    ensures
        err is NotPaired ==> call_text(err) == "This host hasn't been paired yet."@,
        err is Offline ==> call_text(err) == "The host isn't responding."@,
        err is Unauthenticated ==> call_text(err)
            == "The host didn't accept this device — pair with it again."@,
        err is Poisoned ==> call_text(err) == "Something went wrong talking to the host."@,
        err matches MoonlightClientError::StreamConfig(words) ==> call_text(err) == words@,
        err matches MoonlightClientError::Moonlight(words) ==> call_text(err) == words@,
        err matches MoonlightClientError::Pairing(e) ==> {
            &&& e is FailedWrongPin ==> call_text(err) == "The host says that PIN was wrong."@
            &&& e is FailedAlreadyInProgress ==> call_text(err)
                == "Another device is pairing with this host — try again shortly."@
            &&& e is Failed ==> call_text(err) == "The host refused the pairing."@
            &&& e == ClientPairingError::Crypto(None) ==> call_text(err)
                == "The host couldn't be reached."@
        },
        err == MoonlightClientError::Backend(None) ==> call_text(err)
            == "The host couldn't be reached."@,
{
}

/// A request that failed without a word from the host is told by the layer that failed, alike
/// wherever it was made.
pub proof fn law_silent_failure_is_told_by_its_layer(e: GsHttpError)
    requires
        !(e matches GsHttpError::Parse(ParseError::InvalidXmlStatusCode { message: Some(_) })),
    ensures
        ({
            let said = call_text(MoonlightClientError::Backend(Some(e)));
            &&& said == call_text(MoonlightClientError::Pairing(ClientPairingError::Crypto(Some(e))))
            &&& e == GsHttpError::Ureq(TransportError::Tls) || e == GsHttpError::Ureq(
                TransportError::Rustls,
            ) ==> said == "The host didn't accept this device — pair with it again."@
            &&& e == GsHttpError::Ureq(TransportError::Io) || e == GsHttpError::Ureq(
                TransportError::HostNotFound,
            ) || e == GsHttpError::Ureq(TransportError::ConnectionFailed) || e == GsHttpError::Ureq(
                TransportError::Other,
            ) ==> said == "The host couldn't be reached."@
            &&& e is Tls ==> said == "This device's pairing certificate couldn't be used."@
            &&& e is Parse ==> said == "The host's answer wasn't understood."@
        }),
{
}

/// Only a connection that broke is tried again, twice at most, after two fifths of a second.
pub proof fn law_only_a_broken_connection_is_tried_again(
    attempt: nat,
    failure: Option<TransportError>,
)
    ensures
        sent_again(attempt, failure) <==> attempt <= 1 && failure is Some && failure->0 is Io,
        RETRY_DELAY_MS == 400,
{
}

/// A byte that is plain everywhere stands for itself, and any other is written as a percent sign
/// and its two digits, in upper case.
pub proof fn law_plain_bytes_stand_for_themselves(b: u8)
    ensures
        ({
            let plain = ('A' as int <= b <= 'Z' as int) || ('a' as int <= b <= 'z' as int) || (
            '0' as int <= b <= '9' as int) || b == '-' as int || b == '.' as int || b == '_' as int
                || b == '~' as int;
            let w = escaped_byte(b);
            &&& plain ==> w.len() == 1 && w[0] as int == b
            &&& !plain ==> w.len() == 3 && w[0] == '%' && forall|i: int|
                1 <= i < 3 ==> ('0' <= #[trigger] w[i] <= '9' || 'A' <= w[i] <= 'F')
        }),
{
}

/// A parameter is added at the end of a query, as its key, an equals sign and the escaped value,
/// and parted from those before it by an ampersand.
pub proof fn law_parameters_are_parted(query: Seq<char>, key: Seq<char>, value: Seq<char>)
    ensures
        query_with(seq![], key, value) == key + "="@ + escaped(encode_utf8(value)),
        query.len() > 0 ==> query_with(query, key, value) == query + "&"@ + query_with(
            seq![],
            key,
            value,
        ),
{
    reveal_strlit("=");
    reveal_strlit("&");
    assert("="@ =~= seq!['=']);
    assert("&"@ =~= seq!['&']);
    assert(query_with(seq![], key, value) =~= key + "="@ + escaped(encode_utf8(value)));
    assert(query.len() > 0 ==> query_with(query, key, value) =~= query + "&"@ + query_with(
        seq![],
        key,
        value,
    ));
}

/// An encrypted request goes by the encrypted scheme, a plain one by the plain; the rest of the
/// address is the same.
pub proof fn law_scheme_is_the_requests(hostport: Seq<char>, path: Seq<char>, query: Seq<char>)
    ensures
        address_of(true, hostport, path, query) == "https://"@ + (hostport + path + "?"@ + query),
        address_of(false, hostport, path, query) == "http://"@ + (hostport + path + "?"@ + query),
{
    assert(address_of(true, hostport, path, query) =~= "https://"@ + (hostport + path + "?"@
        + query));
    assert(address_of(false, hostport, path, query) =~= "http://"@ + (hostport + path + "?"@
        + query));
}

} // verus!
