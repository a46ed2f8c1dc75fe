//! This device's certificate towards GameStream hosts, and the one that each host gave when
//! it was paired. They have files of their own: the other protocol's are of another kind, and
//! a host keys its list of devices by the certificate.
use vstd::prelude::*;

use crate::text::join3;

verus! {

pub const CERT_FILE: &'static str = "gamestream-cert.pem";

pub const KEY_FILE: &'static str = "gamestream-key.pem";

pub const SERVER_FILE_HEAD: &'static str = "gamestream-server-";

pub const SERVER_FILE_TAIL: &'static str = ".pem";

/// A PEM block: what it is, and its bytes.
#[derive(Debug)]
pub struct PemBlock {
    pub tag: String,
    pub contents: Vec<u8>,
}

/// The tag and the bytes of the first PEM block in a text, where it can be read.
pub uninterp spec fn pem_of(text: Seq<char>) -> Option<(Seq<char>, Seq<u8>)>;

/// `pem::parse`: reads the first block of the text, which fixes its tag and its bytes, or
/// fails. Of a block's headers nothing is handed out.
#[verifier::external_body]
fn parse_pem(text: &str) -> (r: Option<PemBlock>)
    ensures
        match r {
            Some(block) => pem_of(text@) == Some((block.tag@, block.contents@)),
            None => pem_of(text@) is None,
        },
{
    match pem::parse(text) {
        Ok(block) => Some(
            PemBlock { tag: block.tag().to_owned(), contents: block.into_contents() },
        ),
        Err(_) => None,
    }
}

/// The names of the files with this device's certificate and key, in the app's directory.
pub fn client_paths() -> (r: (&'static str, &'static str))
    ensures
        r.0@ == CERT_FILE@,
        r.1@ == KEY_FILE@,
{
    (CERT_FILE, KEY_FILE)
}

/// Whether a character of an address stands in a file's name as it is.
pub open spec fn plain_in_name(c: char) -> bool {
    ||| 'a' <= c && c <= 'z'
    ||| 'A' <= c && c <= 'Z'
    ||| '0' <= c && c <= '9'
    ||| c == '.'
    ||| c == '-'
}

/// An address with everything else made an underscore: an IPv6 literal has colons, and a host
/// name could hold a slash.
pub open spec fn safe_name(address: Seq<char>) -> Seq<char> {
    Seq::new(
        address.len(),
        |i: int|
            if plain_in_name(address[i]) {
                address[i]
            } else {
                '_'
            },
    )
}

/// The name of the file with a host's certificate.
pub open spec fn server_file(address: Seq<char>) -> Seq<char> {
    SERVER_FILE_HEAD@ + safe_name(address) + SERVER_FILE_TAIL@
}

/// The name of the file with the certificate of the host at `address`, in the app's
/// directory.
pub fn server_path(address: &str) -> (r: String)
    ensures
        r@ == server_file(address@),
{
    let mut safe = String::new();
    let n: usize = address.unicode_len();
    let mut i: usize = 0;
    assert(safe@ =~= safe_name(address@.take(0)));
    while i < n
        invariant
            i <= n,
            n == address@.len(),
            safe@ == safe_name(address@.take(i as int)),
        decreases n - i,
    {
        let c = address.get_char(i);
        let plain = ('a' <= c && c <= 'z') || ('A' <= c && c <= 'Z') || ('0' <= c && c <= '9') || c
            == '.' || c == '-';
        if plain {
            safe.push(c);
        } else {
            safe.push('_');
        }
        i += 1;
        assert(safe@ =~= safe_name(address@.take(i as int)));
    }
    assert(address@.take(address@.len() as int) =~= address@);
    join3(SERVER_FILE_HEAD, safe.as_str(), SERVER_FILE_TAIL)
}

/// The PEM block in a file whose text is `text`, where there is such a file and it holds one.
pub fn read_pem(text: Option<&str>) -> (r: Option<PemBlock>)
    ensures
        match (text, r) {
            (None, got) => got is None,
            (Some(t), Some(block)) => pem_of(t@) == Some((block.tag@, block.contents@)),
            (Some(t), None) => pem_of(t@) is None,
        },
{
    match text {
        None => None,
        Some(t) => parse_pem(t),
    }
}

/// How this device comes by its identity.
#[derive(Debug)]
pub enum ClientIdentity {
    /// The stored certificate and key.
    Stored { certificate: PemBlock, key: PemBlock },
    /// One has to be made, and stored under the names of [`client_paths`].
    Generate,
}

/// The identity to use: the stored one where both halves of it can be read, so that it is
/// made once and kept.
pub fn load_or_create_client(
    certificate: Option<PemBlock>,
    key: Option<PemBlock>,
) -> (r: ClientIdentity)
    ensures
        r == (match (certificate, key) {
            (Some(certificate), Some(key)) => ClientIdentity::Stored { certificate, key },
            _ => ClientIdentity::Generate,
        }),
{
    match (certificate, key) {
        (Some(certificate), Some(key)) => ClientIdentity::Stored { certificate, key },
        _ => ClientIdentity::Generate,
    }
}

/// Whether a character may stand in a file's name.
pub open spec fn name_char(c: char) -> bool {
    plain_in_name(c) || c == '_'
}

/// The name of a host's file is one name, whatever the address holds: it holds no separator.
pub proof fn law_server_file_is_one_name(address: Seq<char>)
    ensures
        forall|i: int|
            0 <= i < server_file(address).len() ==> name_char(#[trigger] server_file(address)[i]),
        forall|c: char| #[trigger] name_char(c) ==> c != '/' && c != ':' && c != '\\',
{
    reveal_strlit("gamestream-server-");
    reveal_strlit(".pem");
    let head = SERVER_FILE_HEAD@;
    let tail = SERVER_FILE_TAIL@;
    let safe = safe_name(address);
    assert forall|i: int| 0 <= i < server_file(address).len() implies name_char(
        #[trigger] server_file(address)[i],
    ) by {
        if i < head.len() {
            assert(server_file(address)[i] == head[i]);
        } else if i < head.len() + safe.len() {
            assert(server_file(address)[i] == safe[i - head.len()]);
        } else {
            assert(server_file(address)[i] == tail[i - head.len() - safe.len()]);
        }
    }
}

/// Hosts under addresses that need no replacement have files of their own.
pub proof fn law_server_files_distinct(a: Seq<char>, b: Seq<char>)
    requires
        forall|i: int| 0 <= i < a.len() ==> plain_in_name(#[trigger] a[i]),
        forall|i: int| 0 <= i < b.len() ==> plain_in_name(#[trigger] b[i]),
        server_file(a) == server_file(b),
    ensures
        a == b,
{
    let head = SERVER_FILE_HEAD@;
    assert(safe_name(a) =~= a);
    assert(safe_name(b) =~= b);
    assert(server_file(a).len() == head.len() + a.len() + SERVER_FILE_TAIL@.len());
    assert(server_file(b).len() == head.len() + b.len() + SERVER_FILE_TAIL@.len());
    assert forall|i: int| 0 <= i < a.len() implies a[i] == b[i] by {
        assert(server_file(a)[head.len() + i] == a[i]);
        assert(server_file(b)[head.len() + i] == b[i]);
    }
    assert(a =~= b);
}

/// A host's file is named by its address: letters, digits, dots and hyphens stand in the name as
/// they are, and an underscore for each other character.
pub proof fn law_server_file_is_named_by_the_address(address: Seq<char>, i: int)
    requires
        0 <= i < address.len(),
    ensures
        server_file(address).len() == "gamestream-server-"@.len() + address.len() + ".pem"@.len(),
        server_file(address).take("gamestream-server-"@.len() as int) == "gamestream-server-"@,
        server_file(address).skip((address.len() + "gamestream-server-"@.len()) as int) == ".pem"@,
        ({
            let c = address[i];
            let kept = ('a' <= c <= 'z') || ('A' <= c <= 'Z') || ('0' <= c <= '9') || c == '.' || c
                == '-';
            server_file(address)["gamestream-server-"@.len() + i] == (if kept {
                c
            } else {
                '_'
            })
        }),
{
    let head = "gamestream-server-"@;
    assert(server_file(address).take(head.len() as int) =~= head);
    assert(server_file(address).skip((address.len() + head.len()) as int) =~= ".pem"@);
}

} // verus!
