//! The host's game library: what an entry is, where it is fetched from, and what a failed
//! fetch means.
use rustls::pki_types::pem::PemObject;
use rustls::pki_types::{CertificateDer, PrivateKeyDer};
use vstd::prelude::*;
use vstd::utf8::encode_utf8;

use crate::seqs::opt_view;
use crate::text::{chars_of, decimal, push_decimal};

verus! {

/// The management API's port where a host advertises none.
pub const DEFAULT_MGMT_PORT: u16 = 47990;

/// Seconds a fetch waits for a connection.
pub const CONNECT_TIMEOUT_SECS: u64 = 5;

/// Seconds a fetch may take in all.
pub const TOTAL_TIMEOUT_SECS: u64 = 10;

/// Cover-art paths of a title, each relative to the host.
#[derive(Debug)]
pub struct Artwork {
    pub portrait: Option<String>,
    pub hero: Option<String>,
    pub logo: Option<String>,
    pub header: Option<String>,
}

/// An `Artwork` as values.
pub struct ArtworkView {
    pub portrait: Option<Seq<char>>,
    pub hero: Option<Seq<char>>,
    pub logo: Option<Seq<char>>,
    pub header: Option<Seq<char>>,
}

impl View for Artwork {
    type V = ArtworkView;

    open spec fn view(&self) -> ArtworkView {
        ArtworkView {
            portrait: opt_view(self.portrait),
            hero: opt_view(self.hero),
            logo: opt_view(self.logo),
            header: opt_view(self.header),
        }
    }
}

impl Default for Artwork {
    fn default() -> (r: Self)
        ensures
            r@ == no_artwork(),
    {
        Artwork { portrait: None, hero: None, logo: None, header: None }
    }
}

/// A title without any art.
pub open spec fn no_artwork() -> ArtworkView {
    ArtworkView { portrait: None, hero: None, logo: None, header: None }
}

impl Clone for Artwork {
    fn clone(&self) -> (r: Self)
        ensures
            r@ == self@,
    {
        Artwork {
            portrait: clone_opt(&self.portrait),
            hero: clone_opt(&self.hero),
            logo: clone_opt(&self.logo),
            header: clone_opt(&self.header),
        }
    }
}

/// A copy of an optional text.
pub fn clone_opt(o: &Option<String>) -> (r: Option<String>)
    ensures
        r == *o,
{
    match o {
        Some(s) => Some(s.clone()),
        None => None,
    }
}

/// One title of the host's library. The id is also the launch handle.
#[derive(Debug)]
pub struct GameEntry {
    pub id: String,
    pub title: String,
    pub art: Artwork,
}

/// A `GameEntry` as values.
pub struct GameView {
    pub id: Seq<char>,
    pub title: Seq<char>,
    pub art: ArtworkView,
}

impl View for GameEntry {
    type V = GameView;

    open spec fn view(&self) -> GameView {
        GameView { id: self.id@, title: self.title@, art: self.art@ }
    }
}

impl Clone for GameEntry {
    fn clone(&self) -> (r: Self)
        ensures
            r@ == self@,
    {
        GameEntry { id: self.id.clone(), title: self.title.clone(), art: self.art.clone() }
    }
}

/// Why the library could not be had.
#[derive(Debug)]
pub enum LibraryError {
    /// The host does not have this device on its paired list.
    NotPaired,
    /// The host's certificate is not the pinned one.
    PinMismatch,
    Http(u16),
    Unreachable(String),
}

pub const NOT_PAIRED: &'static str = "Not paired — pair with the host first.";

pub const PIN_MISMATCH: &'static str = "Host certificate changed — re-pair with a PIN.";

pub const HTTP_HEAD: &'static str = "Management API returned HTTP ";

pub const UNREACHABLE_HEAD: &'static str = "Couldn't reach the host's management API: ";

/// The sentence shown for each failure.
pub open spec fn library_error_text(e: LibraryError) -> Seq<char> {
    match e {
        LibraryError::NotPaired => NOT_PAIRED@,
        LibraryError::PinMismatch => PIN_MISMATCH@,
        LibraryError::Http(code) => HTTP_HEAD@ + decimal(code as nat) + "."@,
        LibraryError::Unreachable(why) => UNREACHABLE_HEAD@ + why@ + "."@,
    }
}

impl LibraryError {
    /// The sentence shown for this failure.
    pub fn message(&self) -> (r: String)
        ensures
            r@ == library_error_text(*self),
    {
        match self {
            LibraryError::NotPaired => NOT_PAIRED.to_owned(),
            LibraryError::PinMismatch => PIN_MISMATCH.to_owned(),
            LibraryError::Http(code) => {
                let mut s = HTTP_HEAD.to_owned();
                push_decimal(&mut s, *code as u64);
                s.append(".");
                s
            },
            LibraryError::Unreachable(why) => {
                let mut s = UNREACHABLE_HEAD.to_owned();
                s.append(why.as_str());
                s.append(".");
                s
            },
        }
    }
}

/// The root of the management API: an address with a colon is an IPv6 literal and is bracketed.
pub open spec fn base_url_text(addr: Seq<char>, mgmt_port: u16) -> Seq<char> {
    if addr.contains(':') {
        "https://["@ + addr + "]:"@ + decimal(mgmt_port as nat)
    } else {
        "https://"@ + addr + ":"@ + decimal(mgmt_port as nat)
    }
}

/// Whether `c` occurs in `s`.
pub fn has_char(s: &str, c: char) -> (r: bool)
    ensures
        r == s@.contains(c),
{
    let cs = chars_of(s);
    let mut i: usize = 0;
    while i < cs.len()
        invariant
            i <= cs.len(),
            cs@ == s@,
            forall|j: int| 0 <= j < i ==> cs@[j] != c,
        decreases cs.len() - i,
    {
        if cs[i] == c {
            assert(s@[i as int] == c);
            return true;
        }
        i += 1;
    }
    false
}

/// `https://addr:port`, IPv6 literals bracketed.
pub fn base_url(addr: &str, mgmt_port: u16) -> (r: String)
    ensures
        r@ == base_url_text(addr@, mgmt_port),
{
    let bracket = has_char(addr, ':');
    if bracket {
        let mut s = "https://[".to_owned();
        s.append(addr);
        s.append("]:");
        push_decimal(&mut s, mgmt_port as u64);
        s
    } else {
        let mut s = "https://".to_owned();
        s.append(addr);
        s.append(":");
        push_decimal(&mut s, mgmt_port as u64);
        s
    }
}

/// Where the library itself is fetched from.
pub fn library_url(addr: &str, mgmt_port: u16) -> (r: String)
    ensures
        r@ == base_url_text(addr@, mgmt_port) + "/api/v1/library"@,
{
    let mut s = base_url(addr, mgmt_port);
    s.append("/api/v1/library");
    s
}

/// Where the cover at the host-relative `art_path` is fetched from.
pub fn art_url(addr: &str, mgmt_port: u16, art_path: &str) -> (r: String)
    ensures
        r@ == base_url_text(addr@, mgmt_port) + art_path@,
{
    let mut s = base_url(addr, mgmt_port);
    s.append(art_path);
    s
}

/// How an HTTP request failed, as the transport reports it.
#[derive(Debug)]
pub enum HttpFailure {
    /// The host answered with this error status.
    Status(u16),
    /// The certificate check of `PinVerify` turned the host away.
    PinRejected,
    /// Anything else, in the transport's words.
    Other(String),
}

/// What a failed request means for the menu.
pub fn classify(e: HttpFailure) -> (r: LibraryError)
    ensures
        match e {
            HttpFailure::Status(code) => if code == 401 || code == 403 {
                r == LibraryError::NotPaired
            } else {
                r == LibraryError::Http(code)
            },
            HttpFailure::PinRejected => r == LibraryError::PinMismatch,
            HttpFailure::Other(words) => r == LibraryError::Unreachable(words),
        },
{
    match e {
        HttpFailure::Status(code) => if code == 401 || code == 403 {
            LibraryError::NotPaired
        } else {
            LibraryError::Http(code)
        },
        HttpFailure::PinRejected => LibraryError::PinMismatch,
        HttpFailure::Other(words) => LibraryError::Unreachable(words),
    }
}

/// A failed step of a fetch: `what: why`.
pub fn fetch_step_failed(what: &str, why: &str) -> (r: LibraryError)
    ensures
        r matches LibraryError::Unreachable(w) && w@ == what@ + ": "@ + why@,
{
    let mut s = what.to_owned();
    s.append(": ");
    s.append(why);
    LibraryError::Unreachable(s)
}

/// How a private key is written down.
#[derive(Clone, Copy, Debug, PartialEq, Eq, Structural)]
pub enum KeyForm {
    Pkcs1,
    Sec1,
    Pkcs8,
}

/// What this device presents to a host: its certificate and its key.
#[derive(Debug)]
pub struct ClientDer {
    pub cert: Vec<u8>,
    pub form: KeyForm,
    pub key: Vec<u8>,
}

/// The bytes of the first certificate in a PEM text, or why there is none.
pub uninterp spec fn cert_in(pem: Seq<u8>) -> Result<Seq<u8>, Seq<char>>;

/// The form and the bytes of the first private key in a PEM text, or why there is none.
pub uninterp spec fn key_in(pem: Seq<u8>) -> Result<(KeyForm, Seq<u8>), Seq<char>>;

/// `CertificateDer::from_pem_slice` of `rustls`: the first certificate's bytes, or the error as it
/// is displayed, which follow from the text alone.
#[verifier::external_body]
fn read_cert(pem: &[u8]) -> (r: Result<Vec<u8>, String>)
    ensures
        match r {
            Ok(der) => cert_in(pem@) == Ok::<Seq<u8>, Seq<char>>(der@),
            Err(why) => cert_in(pem@) == Err::<Seq<u8>, Seq<char>>(why@),
        },
{
    match CertificateDer::from_pem_slice(pem) {
        Ok(cert) => Ok(cert.to_vec()),
        Err(e) => Err(e.to_string()),
    }
}

/// `PrivateKeyDer::from_pem_slice` of `rustls`: the first private key's form and bytes, or the
/// error as it is displayed, which follow from the text alone. Only the three forms come out of a
/// PEM text.
#[verifier::external_body]
fn read_key(pem: &[u8]) -> (r: Result<(KeyForm, Vec<u8>), String>)
    ensures
        match r {
            Ok((form, der)) => key_in(pem@) == Ok::<(KeyForm, Seq<u8>), Seq<char>>((form, der@)),
            Err(why) => key_in(pem@) == Err::<(KeyForm, Seq<u8>), Seq<char>>(why@),
        },
{
    match PrivateKeyDer::from_pem_slice(pem) {
        Ok(PrivateKeyDer::Pkcs1(k)) => Ok((KeyForm::Pkcs1, k.secret_pkcs1_der().to_vec())),
        Ok(PrivateKeyDer::Sec1(k)) => Ok((KeyForm::Sec1, k.secret_sec1_der().to_vec())),
        Ok(PrivateKeyDer::Pkcs8(k)) => Ok((KeyForm::Pkcs8, k.secret_pkcs8_der().to_vec())),
        Ok(_) => Err("unknown form".to_owned()),
        Err(e) => Err(e.to_string()),
    }
}

/// This device's identity from what was read of its certificate and its key, or the failed step.
pub fn client_of(
    cert: Result<Vec<u8>, String>,
    key: Result<(KeyForm, Vec<u8>), String>,
) -> (r: Result<ClientDer, LibraryError>)
    ensures
        match (cert, key) {
            (Err(why), _) => r matches Err(LibraryError::Unreachable(w)) && w@
                == "client cert pem"@ + ": "@ + why@,
            (Ok(_), Err(why)) => r matches Err(LibraryError::Unreachable(w)) && w@
                == "client key pem"@ + ": "@ + why@,
            (Ok(cert), Ok((form, key))) => r matches Ok(c) && c.cert == cert && c.form == form
                && c.key == key,
        },
{
    match (cert, key) {
        (Err(why), _) => Err(fetch_step_failed("client cert pem", why.as_str())),
        (Ok(_), Err(why)) => Err(fetch_step_failed("client key pem", why.as_str())),
        (Ok(cert), Ok((form, key))) => Ok(ClientDer { cert, form, key }),
    }
}

/// This device's identity from the texts of its certificate and its key, or the failed step.
pub fn client_der(cert_pem: &str, key_pem: &str) -> (r: Result<ClientDer, LibraryError>)
    ensures
        match cert_in(encode_utf8(cert_pem@)) {
            Err(why) => r matches Err(LibraryError::Unreachable(w)) && w@ == "client cert pem"@
                + ": "@ + why,
            Ok(cert) => match key_in(encode_utf8(key_pem@)) {
                Err(why) => r matches Err(LibraryError::Unreachable(w)) && w@
                    == "client key pem"@ + ": "@ + why,
                Ok((form, key)) => r matches Ok(c) && c.cert@ == cert && c.form == form && c.key@
                    == key,
            },
        },
{
    client_of(read_cert(cert_pem.as_bytes()), read_key(key_pem.as_bytes()))
}

/// Trusts a host by the fingerprint of its leaf certificate; without a pin any host passes.
#[derive(Debug)]
pub struct PinVerify {
    pub pin: Option<[u8; 32]>,
}

impl PinVerify {
    /// Whether a host whose certificate hashes to `fingerprint` is let through.
    pub fn accepts(&self, fingerprint: [u8; 32]) -> (r: bool)
        ensures
            r == (self.pin matches Some(p) ==> p@ == fingerprint@),
    {
        match self.pin {
            None => true,
            Some(p) => {
                let mut i: usize = 0;
                while i < 32
                    invariant
                        i <= 32,
                        self.pin == Some(p),
                        forall|j: int| 0 <= j < i ==> p@[j] == fingerprint@[j],
                    decreases 32 - i,
                {
                    if p[i] != fingerprint[i] {
                        assert(p@[i as int] != fingerprint@[i as int]);
                        return false;
                    }
                    i += 1;
                }
                assert(p@ =~= fingerprint@);
                true
            },
        }
    }
}

/// The outcome of one library fetch, with the host it was for.
#[derive(Debug)]
pub struct GamesLoaded {
    pub host: String,
    pub port: u16,
    pub mgmt_port: u16,
    pub result: Result<Vec<GameEntry>, LibraryError>,
}

/// An address is followed by the port, and one with a colon of its own is bracketed, so that the
/// port can be told from it.
pub proof fn law_port_is_told_from_the_address(addr: Seq<char>, mgmt_port: u16)
    ensures
        (forall|i: int| 0 <= i < addr.len() ==> #[trigger] addr[i] != ':') ==> base_url_text(
            addr,
            mgmt_port,
        ) == "https://"@ + addr + ":"@ + decimal(mgmt_port as nat),
        (exists|i: int| 0 <= i < addr.len() && #[trigger] addr[i] == ':') ==> base_url_text(
            addr,
            mgmt_port,
        ) == "https://["@ + addr + "]:"@ + decimal(mgmt_port as nat),
{
    if exists|i: int| 0 <= i < addr.len() && #[trigger] addr[i] == ':' {
        let i = choose|i: int| 0 <= i < addr.len() && #[trigger] addr[i] == ':';
        assert(addr.contains(':'));
    }
}

/// A failed fetch is told by what failed: pairing where the host does not know this device, the
/// certificate where it is another one, else the status or the reason itself.
pub proof fn law_failed_fetch_is_told(e: LibraryError)
    ensures
        e is NotPaired ==> library_error_text(e) == "Not paired — pair with the host first."@,
        e is PinMismatch ==> library_error_text(e)
            == "Host certificate changed — re-pair with a PIN."@,
        e matches LibraryError::Http(code) ==> library_error_text(e)
            == "Management API returned HTTP "@ + decimal(code as nat) + "."@,
        e matches LibraryError::Unreachable(why) ==> library_error_text(e)
            == "Couldn't reach the host's management API: "@ + why@ + "."@,
{
}

} // verus!
