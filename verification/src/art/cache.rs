//! The covers on disk: one directory for each host, and in it, for each title, the cover as it
//! was fetched and its pixels as they are drawn.
use vstd::prelude::*;

use crate::art::decode::{fits, keep_pixels, Pixmap};
use crate::bytes::{law_le32_reads_back, le32, le32_at, push_le32, read_le32};
use crate::text::{decimal, push_decimal};

verus! {

/// What marks a file of pixels, with the version of its layout.
pub const RAW_CACHE_MAGIC: u32 = 0x50465232;

pub const CACHE_DIR: &'static str = "art-cache";

/// Where the covers are kept when the app has no directory of its own.
pub const FALLBACK_HOME: &'static str = "/tmp";

/// Whether a character of an id stands in a file's name as it is.
pub open spec fn plain_in_cache(c: char) -> bool {
    ||| 'a' <= c && c <= 'z'
    ||| 'A' <= c && c <= 'Z'
    ||| '0' <= c && c <= '9'
}

/// An id with everything else made an underscore.
pub open spec fn name_of(id: Seq<char>) -> Seq<char> {
    Seq::new(
        id.len(),
        |i: int|
            if plain_in_cache(id[i]) {
                id[i]
            } else {
                '_'
            },
    )
}

/// The name of a host's directory.
pub open spec fn host_dir(host: Seq<char>, port: u16) -> Seq<char> {
    name_of(host.push('_') + decimal(port as nat))
}

/// The bytes of a file of pixels: the mark, the width, the height, then the pixels.
pub open spec fn raw_bytes(width: u32, height: u32, pixels: Seq<u8>) -> Seq<u8> {
    le32(RAW_CACHE_MAGIC) + le32(width) + le32(height) + pixels
}

/// The pixels in a file, where it is one of this layout and holds as many as it says.
pub open spec fn raw_pixels(buf: Seq<u8>) -> Option<(u32, u32, Seq<u8>)> {
    if buf.len() < 12 || le32_at(buf, 0) != RAW_CACHE_MAGIC {
        None
    } else {
        let width = le32_at(buf, 4) as u32;
        let height = le32_at(buf, 8) as u32;
        if fits(width, height, (buf.len() - 12) as nat) {
            Some((width, height, buf.skip(12)))
        } else {
            None
        }
    }
}

/// The directory that the covers' own is in: the app's, where it has one.
pub fn cache_root<'a>(home: Option<&'a str>) -> (r: &'a str)
    ensures
        r@ == (match home {
            Some(h) => h@,
            None => FALLBACK_HOME@,
        }),
{
    match home {
        Some(h) => h,
        None => FALLBACK_HOME,
    }
}

/// A name for a file from an id such as `steam:570`. Different ids may share one.
pub fn cache_name(id: &str) -> (r: String)
    ensures
        r@ == name_of(id@),
{
    let mut name = String::new();
    let n: usize = id.unicode_len();
    let mut i: usize = 0;
    assert(name@ =~= name_of(id@.take(0)));
    while i < n
        invariant
            i <= n,
            n == id@.len(),
            name@ == name_of(id@.take(i as int)),
        decreases n - i,
    {
        let c = id.get_char(i);
        if ('a' <= c && c <= 'z') || ('A' <= c && c <= 'Z') || ('0' <= c && c <= '9') {
            name.push(c);
        } else {
            name.push('_');
        }
        i += 1;
        assert(name@ =~= name_of(id@.take(i as int)));
    }
    assert(id@.take(id@.len() as int) =~= id@);
    name
}

/// The name of the directory of the host under `host` and `port`. It goes with the host, so
/// that a forgotten one's covers are dropped at once, and no title of another shows them.
pub fn cache_dir(host: &str, port: u16) -> (r: String)
    ensures
        r@ == host_dir(host@, port),
{
    let mut key = host.to_owned();
    key.push('_');
    push_decimal(&mut key, port as u64);
    cache_name(key.as_str())
}

/// The name of a title's file of pixels, next to its cover's, which is [`cache_name`].
pub fn raw_cache_path(game_id: &str) -> (r: String)
    ensures
        r@ == name_of(game_id@) + ".raw"@,
{
    let mut name = cache_name(game_id);
    name.append(".raw");
    name
}

/// The bytes to store for a cover's pixels.
pub fn write_raw_cache(pixmap: &Pixmap) -> (r: Vec<u8>)
    ensures
        r@ == raw_bytes(pixmap.width, pixmap.height, pixmap.pixels@),
{
    let mut buf: Vec<u8> = Vec::new();
    push_le32(&mut buf, RAW_CACHE_MAGIC);
    push_le32(&mut buf, pixmap.width);
    push_le32(&mut buf, pixmap.height);
    let ghost head = buf@;
    let mut i: usize = 0;
    assert(pixmap.pixels@.take(0) =~= seq![]);
    while i < pixmap.pixels.len()
        invariant
            i <= pixmap.pixels.len(),
            buf@ == head + pixmap.pixels@.take(i as int),
        decreases pixmap.pixels.len() - i,
    {
        buf.push(pixmap.pixels[i]);
        i += 1;
        assert(buf@ =~= head + pixmap.pixels@.take(i as int));
    }
    assert(pixmap.pixels@.take(pixmap.pixels@.len() as int) =~= pixmap.pixels@);
    assert(buf@ =~= raw_bytes(pixmap.width, pixmap.height, pixmap.pixels@));
    buf
}

/// The pixels in a stored file, or none where it is not one of this layout.
pub fn read_raw_cache(buf: &Vec<u8>) -> (r: Option<Pixmap>)
    ensures
        match r {
            Some(p) => raw_pixels(buf@) == Some((p.width, p.height, p.pixels@)) && p.wf(),
            None => raw_pixels(buf@) is None,
        },
{
    if buf.len() < 12 {
        return None;
    }
    let magic: u32 = read_le32(buf, 0);
    if magic != RAW_CACHE_MAGIC {
        return None;
    }
    let width: u32 = read_le32(buf, 4);
    let height: u32 = read_le32(buf, 8);
    let mut pixels: Vec<u8> = Vec::new();
    let mut i: usize = 12;
    while i < buf.len()
        invariant
            12 <= i <= buf.len(),
            pixels@ == buf@.subrange(12, i as int),
        decreases buf.len() - i,
    {
        pixels.push(buf[i]);
        i += 1;
        assert(pixels@ =~= buf@.subrange(12, i as int));
    }
    assert(pixels@ =~= buf@.skip(12));
    keep_pixels(pixels, width, height)
}

/// A cover's pixels read back from the bytes that were stored for them.
pub proof fn law_raw_cache_reads_back(width: u32, height: u32, pixels: Seq<u8>)
    requires
        fits(width, height, pixels.len()),
    ensures
        raw_pixels(raw_bytes(width, height, pixels)) == Some((width, height, pixels)),
{
    let buf = raw_bytes(width, height, pixels);
    let m = le32(RAW_CACHE_MAGIC);
    let w = le32(width);
    let h = le32(height);
    law_le32_reads_back(seq![], RAW_CACHE_MAGIC, w + h + pixels);
    assert(buf =~= Seq::<u8>::empty() + m + (w + h + pixels));
    law_le32_reads_back(m, width, h + pixels);
    assert(buf =~= m + w + (h + pixels));
    law_le32_reads_back(m + w, height, pixels);
    assert(buf =~= m + w + h + pixels);
    assert(buf.skip(12) =~= pixels);
}

/// A file that was cut short holds no pixels: it can never be taken for the cover.
pub proof fn law_truncated_is_refused(width: u32, height: u32, pixels: Seq<u8>, n: int)
    requires
        fits(width, height, pixels.len()),
        0 <= n < raw_bytes(width, height, pixels).len(),
    ensures
        raw_pixels(raw_bytes(width, height, pixels).take(n)) is None,
{
    let buf = raw_bytes(width, height, pixels);
    law_raw_cache_reads_back(width, height, pixels);
    if n >= 12 {
        let cut = buf.take(n);
        assert(le32_at(cut, 4) == le32_at(buf, 4));
        assert(le32_at(cut, 8) == le32_at(buf, 8));
    }
}

/// The names of the cache hold letters, digits and underscores: each is one name in its
/// directory, and a file of pixels is never taken for a cover.
pub proof fn law_cache_names_are_plain(id: Seq<char>, other: Seq<char>)
    ensures
        forall|i: int|
            0 <= i < name_of(id).len() ==> plain_in_cache(#[trigger] name_of(id)[i]) || name_of(
                id,
            )[i] == '_',
        name_of(id) != name_of(other) + ".raw"@,
{
    reveal_strlit(".raw");
    let raw = name_of(other) + ".raw"@;
    let dot = name_of(other).len() as int;
    assert(raw[dot] == '.');
    if name_of(id) == raw {
        assert(name_of(id).len() == raw.len());
        assert(plain_in_cache(name_of(id)[dot]) || name_of(id)[dot] == '_');
    }
}

/// A name of the cache is as long as the id; letters and digits stand in it as they are, and an
/// underscore for each other character.
pub proof fn law_cache_name_follows_the_id(id: Seq<char>, i: int)
    requires
        0 <= i < id.len(),
    ensures
        name_of(id).len() == id.len(),
        ({
            let c = id[i];
            let kept = ('a' <= c <= 'z') || ('A' <= c <= 'Z') || ('0' <= c <= '9');
            name_of(id)[i] == (if kept {
                c
            } else {
                '_'
            })
        }),
{
}

/// A host's directory is named by its address and its port, with an underscore between them.
pub proof fn law_directory_is_the_hosts(host: Seq<char>, port: u16)
    ensures
        host_dir(host, port) == name_of(host) + seq!['_'] + name_of(decimal(port as nat)),
{
    assert(host_dir(host, port) =~= name_of(host) + seq!['_'] + name_of(decimal(port as nat)));
}

/// A file of pixels begins with its mark, the width and the height, lowest bytes first.
pub proof fn law_pixels_follow_their_size(width: u32, height: u32, pixels: Seq<u8>)
    ensures
        raw_bytes(width, height, pixels).len() == 12 + pixels.len(),
        raw_bytes(width, height, pixels).take(4) == seq![0x32u8, 0x52, 0x46, 0x50],
        raw_bytes(width, height, pixels).subrange(4, 8) == le32(width),
        raw_bytes(width, height, pixels).subrange(8, 12) == le32(height),
        raw_bytes(width, height, pixels).skip(12) == pixels,
{
    let b = raw_bytes(width, height, pixels);
    assert(b.take(4) =~= seq![0x32u8, 0x52, 0x46, 0x50]);
    assert(b.subrange(4, 8) =~= le32(width));
    assert(b.subrange(8, 12) =~= le32(height));
    assert(b.skip(12) =~= pixels);
}

} // verus!
