//! The fetcher of covers: where each cover comes from, and what is stored of it.
use vstd::prelude::*;

use crate::art::cache::{raw_pixels, read_raw_cache};
use crate::art::decode::{cover_of, decode_cover, Cover, Pixmap};

verus! {

/// What the fetcher is to do next for a request.
#[derive(Debug)]
pub enum ArtStep {
    /// Hand the pixels to the screen.
    Deliver(Pixmap),
    /// Read the cover from disk.
    ReadCover,
    /// Connect to the host, once for all covers.
    Connect,
    /// Fetch the cover over the connection.
    Fetch,
    /// Store the cover, then go on with it.
    StoreCover(Vec<u8>),
    /// Store the pixels, then hand them to the screen.
    StorePixels(Pixmap),
    /// Delete the cover on disk, which cannot be read, and leave the card without one.
    DropCover,
    /// Leave the card without a cover.
    Skip,
}

/// After the file of pixels was read: one of the current layout is all it takes.
pub fn after_pixels(file: Option<Vec<u8>>) -> (r: ArtStep)
    ensures
        match r {
            ArtStep::Deliver(p) => p.wf() && file is Some && raw_pixels(file->0@) == Some(
                (p.width, p.height, p.pixels@),
            ),
            ArtStep::ReadCover => file is Some ==> raw_pixels(file->0@) is None,
            _ => false,
        },
{
    match file {
        None => ArtStep::ReadCover,
        Some(buf) => match read_raw_cache(&buf) {
            Some(p) => ArtStep::Deliver(p),
            None => ArtStep::ReadCover,
        },
    }
}

/// What a readable cover comes to: its pixels are stored before they are shown. One that
/// cannot be read is deleted, else it would keep its card empty for good.
pub open spec fn decoded_step(bytes: Seq<u8>, step: ArtStep) -> bool {
    match step {
        ArtStep::StorePixels(p) => p.wf() && cover_of(bytes) == Some(
            Some((p.width, p.height, p.pixels@)),
        ),
        ArtStep::DropCover => cover_of(bytes) is None,
        ArtStep::Skip => cover_of(bytes) == Some(None::<(u32, u32, Seq<u8>)>),
        _ => false,
    }
}

/// Goes on with the bytes of a cover.
pub fn decode_step(bytes: &Vec<u8>) -> (r: ArtStep)
    ensures
        decoded_step(bytes@, r),
{
    match decode_cover(bytes) {
        Cover::Unreadable => ArtStep::DropCover,
        Cover::Empty => ArtStep::Skip,
        Cover::Ready(p) => ArtStep::StorePixels(p),
    }
}

/// After the cover was read from disk. An empty file is as good as none. The connection is
/// made for the first cover that is not on disk, so that a library that all is makes none.
pub fn after_cover(file: Option<Vec<u8>>, connected: bool) -> (r: ArtStep)
    ensures
        match file {
            Some(bytes) if bytes@.len() > 0 => decoded_step(bytes@, r),
            _ => r == (if connected {
                ArtStep::Fetch
            } else {
                ArtStep::Connect
            }),
        },
{
    match file {
        Some(bytes) => {
            if bytes.len() > 0 {
                return decode_step(&bytes);
            }
        },
        None => {},
    }
    if connected {
        ArtStep::Fetch
    } else {
        ArtStep::Connect
    }
}

/// After an attempt to connect. The next request tries again where it failed.
pub fn after_connect(connected: bool) -> (r: ArtStep)
    ensures
        r == (if connected {
            ArtStep::Fetch
        } else {
            ArtStep::Skip
        }),
{
    if connected {
        ArtStep::Fetch
    } else {
        ArtStep::Skip
    }
}

/// After the fetch: what came is stored, whatever it is, and then decoded.
pub fn after_fetch(fetched: Option<Vec<u8>>) -> (r: ArtStep)
    ensures
        r == (match fetched {
            Some(bytes) => ArtStep::StoreCover(bytes),
            None => ArtStep::Skip,
        }),
{
    match fetched {
        Some(bytes) => ArtStep::StoreCover(bytes),
        None => ArtStep::Skip,
    }
}

} // verus!
