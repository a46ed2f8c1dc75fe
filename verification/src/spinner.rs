//! The spinner's frames as the build packs them: their size, their count, then each frame's
//! delay in milliseconds and its pixels, scaled by alpha. So nothing is decoded on the device.
use image::codecs::gif::GifDecoder;
use image::AnimationDecoder;
use vstd::prelude::*;

use crate::bytes::{le32, push_le32};
use crate::pixels::{premultiplied, premultiply_rgba};
use crate::seqs::views;

verus! {

broadcast use crate::seqs::group_views;

/// A decoded frame.
#[derive(Debug)]
pub struct Frame {
    pub width: u32,
    pub height: u32,
    /// The delay in milliseconds, as a fraction.
    pub delay_numer: u32,
    pub delay_denom: u32,
    /// The pixels, not scaled by alpha.
    pub rgba: Vec<u8>,
}

/// A `Frame` as values.
pub struct FrameView {
    pub width: u32,
    pub height: u32,
    pub delay_numer: u32,
    pub delay_denom: u32,
    pub rgba: Seq<u8>,
}

impl View for Frame {
    type V = FrameView;

    open spec fn view(&self) -> FrameView {
        FrameView {
            width: self.width,
            height: self.height,
            delay_numer: self.delay_numer,
            delay_denom: self.delay_denom,
            rgba: self.rgba@,
        }
    }
}

/// A frame's delay in whole milliseconds, 0 where it has none.
pub open spec fn delay_ms(numer: u32, denom: u32) -> u32 {
    if denom == 0 {
        0
    } else {
        (numer as int / denom as int) as u32
    }
}

/// How the first `n` frames are packed.
pub open spec fn packed_frames(frames: Seq<FrameView>, n: nat) -> Seq<u8>
    decreases n,
{
    if n == 0 {
        seq![]
    } else {
        let f = frames[n - 1];
        packed_frames(frames, (n - 1) as nat) + le32(delay_ms(f.delay_numer, f.delay_denom))
            + premultiplied(f.rgba)
    }
}

/// The width of the frames, which is the first one's.
pub open spec fn spinner_width(frames: Seq<FrameView>) -> u32 {
    if frames.len() == 0 {
        0
    } else {
        frames[0].width
    }
}

/// The height of the frames, which is the first one's.
pub open spec fn spinner_height(frames: Seq<FrameView>) -> u32 {
    if frames.len() == 0 {
        0
    } else {
        frames[0].height
    }
}

/// How the frames are packed.
pub open spec fn packed(frames: Seq<FrameView>) -> Seq<u8> {
    le32(spinner_width(frames)) + le32(spinner_height(frames)) + le32(frames.len() as u32)
        + packed_frames(frames, frames.len())
}

fn append_bytes(out: &mut Vec<u8>, more: &Vec<u8>)
    ensures
        final(out)@ == old(out)@ + more@,
{
    let ghost base = out@;
    let mut i: usize = 0;
    assert(out@ =~= base + more@.take(0));
    while i < more.len()
        invariant
            i <= more.len(),
            out@ == base + more@.take(i as int),
        decreases more.len() - i,
    {
        out.push(more[i]);
        i += 1;
        assert(out@ =~= base + more@.take(i as int));
    }
    assert(more@.take(more@.len() as int) =~= more@);
}

/// Whether all frames have the first one's size.
pub open spec fn one_size(frames: Seq<FrameView>) -> bool {
    forall|i: int|
        0 <= i < frames.len() ==> (#[trigger] frames[i]).width == spinner_width(frames)
            && frames[i].height == spinner_height(frames)
}

/// Packs the frames, which all have one size.
pub fn build_spinner_frames(frames: &Vec<Frame>) -> (blob: Vec<u8>)
    requires
        frames.len() <= u32::MAX,
        one_size(views(frames@)),
    ensures
        blob@ == packed(views(frames@)),
{
    let (width, height): (u32, u32) = if frames.len() == 0 {
        (0, 0)
    } else {
        (frames[0].width, frames[0].height)
    };
    let mut blob: Vec<u8> = Vec::new();
    push_le32(&mut blob, width);
    push_le32(&mut blob, height);
    push_le32(&mut blob, frames.len() as u32);
    let ghost head = blob@;
    let mut i: usize = 0;
    assert(blob@ =~= head + packed_frames(views(frames@), 0));
    while i < frames.len()
        invariant
            i <= frames.len(),
            blob@ == head + packed_frames(views(frames@), i as nat),
        decreases frames.len() - i,
    {
        let frame = &frames[i];
        let delay: u32 = if frame.delay_denom == 0 {
            0
        } else {
            frame.delay_numer / frame.delay_denom
        };
        let mut rgba = frame.rgba.clone();
        assert(rgba@ =~= frame.rgba@);
        premultiply_rgba(&mut rgba);
        push_le32(&mut blob, delay);
        append_bytes(&mut blob, &rgba);
        i += 1;
        assert(blob@ =~= head + packed_frames(views(frames@), i as nat));
    }
    assert(blob@ =~= packed(views(frames@)));
    blob
}

/// Packs the frames, or nothing where they differ in size or are too many.
pub fn pack_frames(frames: &Vec<Frame>) -> (r: Option<Vec<u8>>)
    ensures
        match r {
            Some(blob) => one_size(views(frames@)) && frames.len() <= u32::MAX && blob@ == packed(
                views(frames@),
            ),
            None => !(one_size(views(frames@)) && frames.len() <= u32::MAX),
        },
{
    if frames.len() as u64 > u32::MAX as u64 {
        return None;
    }
    let mut i: usize = 0;
    while i < frames.len()
        invariant
            i <= frames.len(),
            forall|k: int|
                0 <= k < i ==> (#[trigger] views(frames@)[k]).width == spinner_width(views(frames@))
                    && views(frames@)[k].height == spinner_height(views(frames@)),
        decreases frames.len() - i,
    {
        assert(views(frames@)[i as int] == frames@[i as int]@);
        assert(views(frames@)[0] == frames@[0]@);
        if frames[i].width != frames[0].width || frames[i].height != frames[0].height {
            return None;
        }
        i += 1;
    }
    Some(build_spinner_frames(frames))
}

/// The bytes of the largest picture that a GIF can describe.
pub const LARGEST_GIF: u64 = 17_179_344_900;

/// Whether this machine can address the largest picture that a GIF can describe.
pub open spec fn addresses_any_gif() -> bool {
    isize::MAX as int >= LARGEST_GIF
}

/// The frames of a GIF, where all of it can be decoded.
pub uninterp spec fn gif_frames(gif: Seq<u8>) -> Option<Seq<FrameView>>;

/// `GifDecoder::new`, `into_frames` and `Frames::collect_frames` of `image`: the GIF's frames in
/// order, each with its size, delay and pixels, or nothing where any of it cannot be decoded. They
/// follow from the bytes alone. The decoder panics where a picture's size cannot be addressed.
#[verifier::external_body]
fn decode_gif(gif: &Vec<u8>) -> (r: Option<Vec<Frame>>)
    requires
        addresses_any_gif(),
    ensures
        match r {
            Some(frames) => gif_frames(gif@) == Some(views(frames@)),
            None => gif_frames(gif@) is None,
        },
{
    let decoder = GifDecoder::new(std::io::Cursor::new(gif.as_slice())).ok()?;
    let frames = decoder.into_frames().collect_frames().ok()?;
    let plain = frames.into_iter().map(|f| {
        let (width, height) = f.buffer().dimensions();
        let (delay_numer, delay_denom) = f.delay().numer_denom_ms();
        Frame { width, height, delay_numer, delay_denom, rgba: f.into_buffer().into_raw() }
    });
    Some(plain.collect())
}

/// The spinner's frames as the build packs them, from its GIF: nothing where the GIF cannot be
/// decoded, its frames differ in size or are too many, or this machine cannot address the largest
/// picture that a GIF can describe.
pub fn spinner_blob(gif: &Vec<u8>) -> (r: Option<Vec<u8>>)
    ensures
        match r {
            Some(blob) => addresses_any_gif() && (gif_frames(gif@) matches Some(frames) && one_size(
                frames,
            ) && frames.len() <= u32::MAX && blob@ == packed(frames)),
            None => !(addresses_any_gif() && (gif_frames(gif@) matches Some(frames) && one_size(
                frames,
            ) && frames.len() <= u32::MAX)),
        },
{
    if (isize::MAX as u64) < LARGEST_GIF {
        return None;
    }
    match decode_gif(gif) {
        Some(frames) => pack_frames(&frames),
        None => None,
    }
}

/// Every frame takes the same room, so that a frame can be found by its place.
pub proof fn law_frames_are_evenly_spaced(frames: Seq<FrameView>, n: nat, room: nat)
    requires
        n <= frames.len(),
        forall|i: int| 0 <= i < frames.len() ==> (#[trigger] frames[i]).rgba.len() == room,
    ensures
        packed_frames(frames, n).len() == n * (4 + room),
    decreases n,
{
    if n == 0 {
        assert(n * (4 + room) == 0) by (nonlinear_arith)
            requires
                n == 0,
        ;
    } else {
        let m = (n - 1) as nat;
        law_frames_are_evenly_spaced(frames, m, room);
        assert(frames[n - 1].rgba.len() == room);
        assert(n * (4 + room) == m * (4 + room) + (4 + room)) by (nonlinear_arith)
            requires
                n == m + 1,
        ;
    }
}

/// A frame's delay is its fraction of a millisecond rounded down, and 0 where it has none.
pub proof fn law_delay_is_whole_milliseconds(numer: u32, denom: u32)
    ensures
        denom == 0 ==> delay_ms(numer, denom) == 0,
        denom > 0 ==> delay_ms(numer, denom) * denom <= numer < (delay_ms(numer, denom) + 1) * denom,
{
    if denom > 0 {
        let n = numer as int;
        let d = denom as int;
        vstd::arithmetic::div_mod::lemma_fundamental_div_mod(n, d);
        vstd::arithmetic::div_mod::lemma_mod_bound(n, d);
        assert((n / d) * d == d * (n / d)) by (nonlinear_arith);
        assert((n / d + 1) * d == d * (n / d) + d) by (nonlinear_arith);
        assert(0 <= n / d <= n) by (nonlinear_arith)
            requires
                n >= 0,
                d > 0,
        ;
    }
}

/// A frame is found by its place: its delay, lowest byte first, then its pixels, scaled by alpha.
pub proof fn law_frame_is_found_by_its_place(frames: Seq<FrameView>, n: nat, k: int, room: nat)
    requires
        0 <= k < n <= frames.len(),
        forall|i: int| 0 <= i < frames.len() ==> (#[trigger] frames[i]).rgba.len() == room,
    ensures
        ({
            let at = k * (4 + room);
            let p = packed_frames(frames, n);
            &&& 0 <= at && at + 4 + room <= p.len()
            &&& p.subrange(at, at + 4) == le32(delay_ms(frames[k].delay_numer, frames[k].delay_denom))
            &&& p.subrange(at + 4, at + 4 + room) == premultiplied(frames[k].rgba)
        }),
    decreases n,
{
    let m = (n - 1) as nat;
    let before = packed_frames(frames, m);
    let f = frames[n - 1];
    let p = packed_frames(frames, n);
    let at = k * (4 + room);
    law_frames_are_evenly_spaced(frames, n, room);
    law_frames_are_evenly_spaced(frames, m, room);
    assert(p == before + le32(delay_ms(f.delay_numer, f.delay_denom)) + premultiplied(f.rgba));
    assert(at >= 0) by (nonlinear_arith)
        requires
            k >= 0,
            at == k * (4 + room),
            room >= 0,
    ;
    if k == m {
        assert(p.subrange(at, at + 4) =~= le32(delay_ms(f.delay_numer, f.delay_denom)));
        assert(p.subrange(at + 4, at + 4 + room) =~= premultiplied(f.rgba));
    } else {
        law_frame_is_found_by_its_place(frames, m, k, room);
        assert(p.subrange(at, at + 4) =~= before.subrange(at, at + 4));
        assert(p.subrange(at + 4, at + 4 + room) =~= before.subrange(at + 4, at + 4 + room));
    }
}

/// The size and the count come first, the size being that of the frames.
pub proof fn law_size_and_count_come_first(frames: Seq<FrameView>)
    requires
        0 < frames.len() <= u32::MAX,
        one_size(frames),
    ensures
        packed(frames).take(4) == le32(frames.last().width),
        packed(frames).subrange(4, 8) == le32(frames.last().height),
        packed(frames).subrange(8, 12) == le32(frames.len() as u32),
        packed(frames).skip(12) == packed_frames(frames, frames.len()),
{
    assert(frames[frames.len() - 1] == frames.last());
    let body = packed_frames(frames, frames.len());
    let p = packed(frames);
    assert(p.take(4) =~= le32(frames.last().width));
    assert(p.subrange(4, 8) =~= le32(frames.last().height));
    assert(p.subrange(8, 12) =~= le32(frames.len() as u32));
    assert(p.skip(12) =~= body);
}

} // verus!
