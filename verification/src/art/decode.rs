//! From the bytes of a cover to the pixels of a card.
use vstd::prelude::*;

use crate::pixels::{premultiplied, premultiply_rgba};

verus! {

/// The longer side of a cover at most. A card is narrower than that on any screen.
pub const MAX_ART_DIMENSION: u32 = 480;

/// `image::DynamicImage`: a decoded picture. Nothing is said of it but what `picture_held` and
/// the functions below say.
#[verifier::external_type_specification]
#[verifier::external_body]
pub struct ExDynamicImage(image::DynamicImage);

/// A rectangle of pixels, their colours scaled by alpha.
#[derive(Debug)]
pub struct Pixmap {
    pub width: u32,
    pub height: u32,
    pub pixels: Vec<u8>,
}

/// Whether `len` bytes are the pixels of a rectangle of this size, and it can be drawn.
pub open spec fn fits(width: u32, height: u32, len: nat) -> bool {
    width > 0 && height > 0 && 4 * width <= i32::MAX && len == 4 * width * height
}

impl Pixmap {
    /// Whether there are as many pixels as the size says.
    pub open spec fn wf(self) -> bool {
        fits(self.width, self.height, self.pixels@.len())
    }
}

/// `tiny_skia::Pixmap::from_vec`, on the size from `tiny_skia::IntSize::from_wh`: takes the
/// bytes as they are where the size is not empty, a row fits in an `i32`, and there are four
/// bytes for each pixel, and hands them back here unchanged.
#[verifier::external_body]
fn skia_pixels(pixels: Vec<u8>, width: u32, height: u32) -> (r: Option<Vec<u8>>)
    ensures
        match r {
            Some(kept) => fits(width, height, pixels@.len()) && kept@ == pixels@,
            None => !fits(width, height, pixels@.len()),
        },
{
    match tiny_skia::IntSize::from_wh(width, height) {
        Some(size) => match tiny_skia::Pixmap::from_vec(pixels, size) {
            Some(pixmap) => Some(pixmap.take()),
            None => None,
        },
        None => None,
    }
}

/// A rectangle of these pixels, where they are as many as its size says.
pub fn keep_pixels(pixels: Vec<u8>, width: u32, height: u32) -> (r: Option<Pixmap>)
    ensures
        match r {
            Some(p) => p.wf() && p.width == width && p.height == height && p.pixels@ == pixels@,
            None => !fits(width, height, pixels@.len()),
        },
{
    match skia_pixels(pixels, width, height) {
        Some(kept) => Some(Pixmap { width, height, pixels: kept }),
        None => None,
    }
}

/// A picture as values.
pub struct PictureView {
    pub width: u32,
    pub height: u32,
    /// How the samples make up colours: how many a pixel has, of which width and in which
    /// colour space.
    pub layout: Seq<u8>,
    pub samples: Seq<u8>,
}

/// What a picture holds.
pub uninterp spec fn picture_held(picture: image::DynamicImage) -> PictureView;

/// The picture in a file's bytes, where it can be read.
pub uninterp spec fn picture_in(bytes: Seq<u8>) -> Option<PictureView>;

/// The part of a picture that starts at `x` and `y` and has this size.
pub uninterp spec fn picture_part(
    picture: PictureView,
    x: u32,
    y: u32,
    width: u32,
    height: u32,
) -> PictureView;

/// A picture scaled to fit within a size.
pub uninterp spec fn picture_scaled(picture: PictureView, width: u32, height: u32) -> PictureView;

/// The pixels of a picture in red, green, blue and alpha, not scaled by alpha.
pub uninterp spec fn picture_pixels(picture: PictureView) -> Seq<u8>;

/// `image::load_from_memory`: guesses the format and decodes the bytes, or fails. What comes
/// of it is a function of the bytes alone.
#[verifier::external_body]
fn load_picture(bytes: &Vec<u8>) -> (r: Option<image::DynamicImage>)
    ensures
        match r {
            Some(picture) => picture_in(bytes@) == Some(picture_held(picture)),
            None => picture_in(bytes@) is None,
        },
{
    match image::load_from_memory(bytes) {
        Ok(picture) => Some(picture),
        Err(_) => None,
    }
}

/// `image::DynamicImage::width` and `height`: the size of the picture.
#[verifier::external_body]
fn size_of_picture(picture: &image::DynamicImage) -> (r: (u32, u32))
    ensures
        r.0 == picture_held(*picture).width,
        r.1 == picture_held(*picture).height,
{
    (picture.width(), picture.height())
}

/// `image::DynamicImage::crop_imm`: a copy of a part that lies in the picture, so that it has
/// the size asked for.
#[verifier::external_body]
fn crop_picture(
    picture: &image::DynamicImage,
    x: u32,
    y: u32,
    width: u32,
    height: u32,
) -> (r: image::DynamicImage)
    requires
        x + width <= picture_held(*picture).width,
        y + height <= picture_held(*picture).height,
    ensures
        picture_held(r) == picture_part(picture_held(*picture), x, y, width, height),
        picture_held(r).width == width,
        picture_held(r).height == height,
{
    picture.crop_imm(x, y, width, height)
}

/// `image::DynamicImage::resize` with the `Triangle` filter, to a size no larger than a cover's:
/// the picture scaled to the largest size within the bounds that keeps its aspect, which has a
/// pixel at least, and lies within the bounds unless the picture was empty.
#[verifier::external_body]
fn scale_picture(picture: &image::DynamicImage, width: u32, height: u32) -> (r:
    image::DynamicImage)
    requires
        0 < width <= MAX_ART_DIMENSION,
        0 < height <= MAX_ART_DIMENSION,
    ensures
        picture_held(r) == picture_scaled(picture_held(*picture), width, height),
        picture_held(*picture).width > 0 && picture_held(*picture).height > 0 ==> 0
            < picture_held(r).width <= width && 0 < picture_held(r).height <= height,
{
    picture.resize(width, height, image::imageops::FilterType::Triangle)
}

/// `image::DynamicImage::to_rgba8`: the picture's pixels, with four bytes for each at least.
#[verifier::external_body]
fn rgba_of_picture(picture: &image::DynamicImage) -> (r: Vec<u8>)
    ensures
        r@ == picture_pixels(picture_held(*picture)),
        r@.len() >= 4 * picture_held(*picture).width * picture_held(*picture).height,
{
    picture.to_rgba8().into_raw()
}

/// What to cut out of a picture.
#[derive(Clone, Copy, Debug, PartialEq, Eq, Structural)]
pub struct Crop {
    pub x: u32,
    pub y: u32,
    pub width: u32,
    pub height: u32,
}

/// Whether the aspect of a picture is a card's, three to four, to within a hundredth.
pub open spec fn near_card_aspect(w: int, h: int) -> bool {
    -h <= 25 * (4 * w - 3 * h) <= h
}

/// The middle of a picture with a card's aspect. None where it is that already, or empty.
pub open spec fn card_crop(w: int, h: int) -> Option<(int, int, int, int)> {
    if w == 0 || h == 0 || near_card_aspect(w, h) {
        None
    } else if 4 * w > 3 * h {
        // too wide: three quarters of the height, to the nearest
        let width = (3 * h + 2) / 4;
        Some(((w - width) / 2, 0, width, h))
    } else {
        // too tall: four thirds of the width, to the nearest
        let height = (8 * w + 3) / 6;
        Some((0, (h - height) / 2, w, height))
    }
}

/// What to cut out of a picture of this size, so that it fills a card without being
/// stretched.
pub fn crop_to_aspect(w: u32, h: u32) -> (r: Option<Crop>)
    ensures
        match r {
            None => card_crop(w as int, h as int) is None,
            Some(c) => card_crop(w as int, h as int) == Some(
                (c.x as int, c.y as int, c.width as int, c.height as int),
            ) && c.x + c.width <= w && c.y + c.height <= h && c.width > 0 && c.height > 0,
        },
{
    if w == 0 || h == 0 {
        return None;
    }
    let over: i128 = 25 * (4 * w as i128 - 3 * h as i128);
    if -(h as i128) <= over && over <= h as i128 {
        return None;
    }
    if 4 * w as u64 > 3 * h as u64 {
        let width: u32 = ((3 * h as u64 + 2) / 4) as u32;
        Some(Crop { x: (w - width) / 2, y: 0, width, height: h })
    } else {
        let height: u32 = ((8 * w as u64 + 3) / 6) as u32;
        Some(Crop { x: 0, y: (h - height) / 2, width: w, height })
    }
}

/// A picture cut to a card's aspect.
pub open spec fn card_part(picture: PictureView) -> PictureView {
    match card_crop(picture.width as int, picture.height as int) {
        None => picture,
        Some((x, y, w, h)) => picture_part(picture, x as u32, y as u32, w as u32, h as u32),
    }
}

/// A picture no larger than a cover may be.
pub open spec fn cover_size(picture: PictureView) -> PictureView {
    if picture.width > MAX_ART_DIMENSION || picture.height > MAX_ART_DIMENSION {
        picture_scaled(picture, MAX_ART_DIMENSION, MAX_ART_DIMENSION)
    } else {
        picture
    }
}

/// The rectangle that a picture of this size and these pixels is drawn as, where there is
/// one.
pub open spec fn drawn_as(size: (u32, u32), rgba: Seq<u8>) -> Option<(u32, u32, Seq<u8>)> {
    if fits(size.0, size.1, rgba.len()) {
        Some((size.0, size.1, premultiplied(rgba)))
    } else {
        None
    }
}

/// What a cover's bytes come to.
#[derive(Debug)]
pub enum Cover {
    /// They are no picture.
    Unreadable,
    /// They are one that cannot be drawn.
    Empty,
    Ready(Pixmap),
}

/// The card that the bytes of a cover come to.
pub open spec fn cover_of(bytes: Seq<u8>) -> Option<Option<(u32, u32, Seq<u8>)>> {
    match picture_in(bytes) {
        None => None,
        Some(picture) => {
            let cut = cover_size(card_part(picture));
            Some(drawn_as((cut.width, cut.height), picture_pixels(cut)))
        },
    }
}

/// The rectangle to draw for a picture of this size with these pixels.
pub fn finish_cover(rgba: Vec<u8>, width: u32, height: u32) -> (r: Option<Pixmap>)
    ensures
        match r {
            Some(p) => p.wf() && drawn_as((width, height), rgba@) == Some(
                (p.width, p.height, p.pixels@),
            ),
            None => drawn_as((width, height), rgba@) is None,
        },
{
    let mut buf = rgba;
    premultiply_rgba(&mut buf);
    keep_pixels(buf, width, height)
}

/// Decodes a cover, cuts it to a card's aspect, makes it no larger than it has to be, and
/// scales its colours by alpha.
pub fn decode_cover(bytes: &Vec<u8>) -> (r: Cover)
    ensures
        match r {
            Cover::Unreadable => cover_of(bytes@) is None,
            Cover::Empty => cover_of(bytes@) == Some(None::<(u32, u32, Seq<u8>)>),
            Cover::Ready(p) => p.wf() && cover_of(bytes@) == Some(
                Some((p.width, p.height, p.pixels@)),
            ),
        },
{
    let picture = match load_picture(bytes) {
        None => {
            return Cover::Unreadable;
        },
        Some(picture) => picture,
    };
    let (w, h) = size_of_picture(&picture);
    let cut = match crop_to_aspect(w, h) {
        None => picture,
        Some(c) => crop_picture(&picture, c.x, c.y, c.width, c.height),
    };
    let (w, h) = size_of_picture(&cut);
    let small = if w > MAX_ART_DIMENSION || h > MAX_ART_DIMENSION {
        scale_picture(&cut, MAX_ART_DIMENSION, MAX_ART_DIMENSION)
    } else {
        cut
    };
    let (w, h) = size_of_picture(&small);
    let rgba = rgba_of_picture(&small);
    match finish_cover(rgba, w, h) {
        Some(p) => Cover::Ready(p),
        None => Cover::Empty,
    }
}

/// What is cut out lies in the picture, in its middle to within a pixel, and takes its whole
/// width or its whole height.
pub proof fn law_crop_is_central(w: int, h: int)
    requires
        w >= 0,
        h >= 0,
        card_crop(w, h) is Some,
    ensures
        ({
            let (x, y, cw, ch) = card_crop(w, h)->0;
            &&& 0 < cw <= w
            &&& 0 < ch <= h
            &&& x >= 0
            &&& y >= 0
            &&& 0 <= (w - (x + cw)) - x <= 1
            &&& 0 <= (h - (y + ch)) - y <= 1
            &&& cw == w || ch == h
        }),
{
}

/// What is cut out has a card's aspect as nearly as whole pixels allow.
pub proof fn law_crop_has_card_aspect(w: int, h: int)
    requires
        w >= 0,
        h >= 0,
        card_crop(w, h) is Some,
    ensures
        ({
            let (x, y, cw, ch) = card_crop(w, h)->0;
            -2 <= 4 * cw - 3 * ch <= 2
        }),
{
}

/// A scaled picture still fills as many pixels as its size says, so that a picture that is
/// not empty can always be drawn.
pub proof fn law_small_pictures_are_drawn(size: (u32, u32), rgba: Seq<u8>)
    requires
        0 < size.0 <= MAX_ART_DIMENSION,
        0 < size.1 <= MAX_ART_DIMENSION,
        rgba.len() == 4 * size.0 * size.1,
    ensures
        drawn_as(size, rgba) is Some,
{
}

/// A picture is cut exactly where its aspect is off a card's by more than a hundredth of the
/// height: its sides where it is too wide, its top and bottom where it is too tall.
pub proof fn law_picture_is_cut_where_its_aspect_is_off(w: int, h: int)
    requires
        w > 0,
        h > 0,
    ensures
        ({
            let off = 100 * w - 75 * h;
            &&& card_crop(w, h) is None <==> -h <= off <= h
            &&& card_crop(w, h) matches Some((x, y, cw, ch)) ==> {
                &&& off > 0 ==> y == 0 && ch == h && cw <= w
                &&& off < 0 ==> x == 0 && cw == w && ch <= h
            }
        }),
{
}

/// An empty picture is left alone.
pub proof fn law_empty_picture_is_left(w: int, h: int)
    requires
        w == 0 || h == 0,
    ensures
        card_crop(w, h) is None,
{
}

/// A picture of a card's aspect that is no larger than a cover may be is drawn as it is, and any
/// other is cut first and scaled after.
pub proof fn law_fitting_picture_is_drawn_as_it_is(bytes: Seq<u8>, picture: PictureView)
    requires
        picture_in(bytes) == Some(picture),
        0 < picture.width <= 480,
        0 < picture.height <= 480,
        -(picture.height as int) <= 100 * picture.width - 75 * picture.height <= picture.height,
        picture_pixels(picture).len() == 4 * picture.width * picture.height,
    ensures
        cover_of(bytes) == Some(
            Some((picture.width, picture.height, premultiplied(picture_pixels(picture)))),
        ),
{
    law_picture_is_cut_where_its_aspect_is_off(picture.width as int, picture.height as int);
}

/// A picture larger than a cover may be is scaled to that size after it was cut.
pub proof fn law_large_picture_is_scaled(picture: PictureView)
    ensures
        picture.width > 480 || picture.height > 480 ==> cover_size(picture) == picture_scaled(
            picture,
            480,
            480,
        ),
        picture.width <= 480 && picture.height <= 480 ==> cover_size(picture) == picture,
        card_crop(picture.width as int, picture.height as int) matches Some((x, y, w, h))
            ==> card_part(picture) == picture_part(picture, x as u32, y as u32, w as u32, h as u32),
{
}

} // verus!
