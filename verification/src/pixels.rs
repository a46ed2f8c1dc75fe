//! Pixels of four bytes: red, green, blue, alpha.
use vstd::prelude::*;

verus! {

/// The byte `i` of a run of straight pixels once each pixel's colours are scaled by its alpha.
/// Bytes after the last whole pixel stay.
pub open spec fn premultiplied_byte(px: Seq<u8>, i: int) -> u8 {
    let start = i - i % 4;
    if i % 4 == 3 || start + 4 > px.len() {
        px[i]
    } else {
        (px[i] as int * px[start + 3] as int / 255) as u8
    }
}

/// A run of straight pixels with their colours scaled by alpha.
pub open spec fn premultiplied(px: Seq<u8>) -> Seq<u8> {
    Seq::new(px.len(), |i: int| premultiplied_byte(px, i))
}

/// The byte `i` of a run of scaled pixels once the scaling is undone, as far as it can be.
pub open spec fn straight_byte(px: Seq<u8>, i: int) -> u8 {
    let a = px[i - i % 4 + 3] as int;
    if i % 4 == 3 || a == 0 || a == 255 {
        px[i]
    } else if px[i] as int * 255 / a > 255 {
        255
    } else {
        (px[i] as int * 255 / a) as u8
    }
}

/// The whole pixels of a run of scaled ones, with the scaling undone.
pub open spec fn straightened(px: Seq<u8>) -> Seq<u8> {
    Seq::new((px.len() - px.len() % 4) as nat, |i: int| straight_byte(px, i))
}

fn scaled(c: u8, a: u8) -> (r: u8)
    ensures
        r == c as int * a as int / 255,
        r <= a,
{
    proof {
        lemma_scaled(c as int, a as int);
    }
    ((c as u32 * a as u32) / 255) as u8
}

proof fn lemma_scaled(c: int, a: int)
    requires
        0 <= c <= 255,
        0 <= a <= 255,
    ensures
        0 <= c * a <= 65025,
        0 <= c * a / 255 <= a,
{
    assert(0 <= c * a <= 255 * a) by (nonlinear_arith)
        requires
            0 <= c <= 255,
            0 <= a <= 255,
    ;
}

/// Scales the colours of straight pixels by their alpha.
pub fn premultiply_rgba(rgba: &mut Vec<u8>)
    ensures
        final(rgba)@ == premultiplied(old(rgba)@),
{
    let ghost px = rgba@;
    let n: usize = rgba.len();
    let mut i: usize = 0;
    while n - i >= 4
        invariant
            i <= n,
            i % 4 == 0,
            n == px.len(),
            rgba@.len() == n,
            forall|k: int| 0 <= k < i ==> #[trigger] rgba@[k] == premultiplied_byte(px, k),
            forall|k: int| i <= k < n ==> #[trigger] rgba@[k] == px[k],
        decreases n - i,
    {
        let a: u8 = rgba[i + 3];
        let r: u8 = scaled(rgba[i], a);
        let g: u8 = scaled(rgba[i + 1], a);
        let b: u8 = scaled(rgba[i + 2], a);
        rgba[i] = r;
        rgba[i + 1] = g;
        rgba[i + 2] = b;
        i += 4;
    }
    assert forall|k: int| 0 <= k < n implies #[trigger] rgba@[k] == premultiplied_byte(px, k) by {
        if k >= i {
            assert(k - k % 4 == i);
        }
    }
    assert(rgba@ =~= premultiplied(px));
}

fn unscaled(c: u8, a: u8) -> (r: u8)
    requires
        0 < a < 255,
    ensures
        r == (if c as int * 255 / a as int > 255 {
            255
        } else {
            c as int * 255 / a as int
        }),
{
    let v: u16 = (c as u16 * 255) / a as u16;
    if v > 255 {
        255
    } else {
        v as u8
    }
}

/// Undoes the scaling of pixels, for a texture that is blended by its alpha.
pub fn straighten_rgba(px: &Vec<u8>) -> (r: Vec<u8>)
    ensures
        r@ == straightened(px@),
{
    let n: usize = px.len();
    let mut out: Vec<u8> = Vec::new();
    let mut i: usize = 0;
    while n - i >= 4
        invariant
            i <= n,
            i % 4 == 0,
            n == px@.len(),
            out@.len() == i,
            forall|k: int| 0 <= k < i ==> #[trigger] out@[k] == straight_byte(px@, k),
        decreases n - i,
    {
        let a: u8 = px[i + 3];
        if a == 0 || a == 255 {
            out.push(px[i]);
            out.push(px[i + 1]);
            out.push(px[i + 2]);
        } else {
            out.push(unscaled(px[i], a));
            out.push(unscaled(px[i + 1], a));
            out.push(unscaled(px[i + 2], a));
        }
        out.push(a);
        i += 4;
    }
    assert(out@ =~= straightened(px@));
    out
}

/// In scaled pixels no colour exceeds its alpha, which is what makes them valid, and alpha is
/// as it was.
pub proof fn law_premultiplied_is_valid(px: Seq<u8>, i: int)
    requires
        px.len() % 4 == 0,
        0 <= i < px.len(),
    ensures
        premultiplied(px)[i] <= px[i - i % 4 + 3],
        i % 4 == 3 ==> premultiplied(px)[i] == px[i],
{
    lemma_scaled(px[i] as int, px[i - i % 4 + 3] as int);
}

/// Opaque pixels come through scaling and its undoing unchanged, and so does the alpha of
/// every pixel.
pub proof fn law_opaque_comes_through(px: Seq<u8>, i: int)
    requires
        px.len() % 4 == 0,
        0 <= i < px.len(),
        i % 4 == 3 || px[i - i % 4 + 3] == 255,
    ensures
        straightened(premultiplied(px))[i] == px[i],
{
    let s = i - i % 4;
    assert(premultiplied(px)[s + 3] == px[s + 3]);
    if i % 4 != 3 {
        let c = px[i] as int;
        assert(c * 255 / 255 == c);
        assert(premultiplied(px)[i] == px[i]);
    }
}

/// Undoing the scaling never makes a colour brighter than it was before it was scaled.
pub proof fn law_straightened_is_no_brighter(px: Seq<u8>, i: int)
    requires
        px.len() % 4 == 0,
        0 <= i < px.len(),
    ensures
        straightened(premultiplied(px))[i] <= px[i],
{
    let s = i - i % 4;
    let a = px[s + 3] as int;
    let c = px[i] as int;
    assert(premultiplied(px)[s + 3] == px[s + 3]);
    if i % 4 != 3 {
        lemma_scaled(c, a);
        let m = c * a / 255;
        assert(premultiplied(px)[i] == m);
        if a != 0 && a != 255 {
            assert(m * 255 <= c * a);
            assert(m * 255 / a <= c) by (nonlinear_arith)
                requires
                    m * 255 <= c * a,
                    a > 0,
            ;
        } else if a == 255 {
            assert(c * 255 / 255 == c);
        } else {
            assert(c * a == 0) by (nonlinear_arith)
                requires
                    a == 0,
            ;
        }
    }
}

/// A colour is scaled by its own pixel's alpha, in parts of 255, rounded down.
pub proof fn law_colours_are_scaled_by_their_alpha(px: Seq<u8>, pixel: int, colour: int)
    requires
        px.len() % 4 == 0,
        0 <= 4 * pixel < px.len(),
        0 <= colour < 3,
    ensures
        premultiplied(px).len() == px.len(),
        ({
            let full = px[4 * pixel + colour] as int * px[4 * pixel + 3] as int;
            let scaled = premultiplied(px)[4 * pixel + colour] as int;
            255 * scaled <= full < 255 * scaled + 255
        }),
{
    let i = 4 * pixel + colour;
    assert(i % 4 == colour && i - i % 4 == 4 * pixel);
    lemma_scaled(px[i] as int, px[4 * pixel + 3] as int);
}

/// Undoing the scaling divides a colour by its own pixel's alpha, in parts of 255, rounded down
/// and at full brightness at most. Where alpha is 0 there is nothing to undo.
pub proof fn law_scaling_is_undone_by_alpha(px: Seq<u8>, pixel: int, colour: int)
    requires
        px.len() % 4 == 0,
        0 <= 4 * pixel < px.len(),
        0 <= colour < 3,
    ensures
        straightened(px).len() == px.len(),
        ({
            let a = px[4 * pixel + 3] as int;
            let c = px[4 * pixel + colour] as int;
            let got = straightened(px)[4 * pixel + colour] as int;
            &&& a == 0 ==> got == c
            &&& a > 0 && c >= a ==> got == (if a == 255 {
                c
            } else {
                255
            })
            &&& a > 0 && c < a ==> a * got <= 255 * c < a * got + a
            &&& straightened(px)[4 * pixel + 3] == px[4 * pixel + 3]
        }),
{
    let i = 4 * pixel + colour;
    let j = 4 * pixel + 3;
    assert(i % 4 == colour && i - i % 4 == 4 * pixel);
    assert(j % 4 == 3);
    let a = px[4 * pixel + 3] as int;
    let c = px[i] as int;
    if a > 0 {
        vstd::arithmetic::div_mod::lemma_fundamental_div_mod(c * 255, a);
        vstd::arithmetic::div_mod::lemma_mod_bound(c * 255, a);
        let q = c * 255 / a;
        if c >= a {
            assert(q >= 255) by (nonlinear_arith)
                requires
                    c >= a,
                    a > 0,
                    c * 255 == a * q + (c * 255) % a,
                    0 <= (c * 255) % a < a,
            ;
        } else {
            assert(0 <= q <= 255) by (nonlinear_arith)
                requires
                    0 <= c < a,
                    a > 0,
                    c * 255 == a * q + (c * 255) % a,
                    0 <= (c * 255) % a < a,
            ;
        }
    }
}

} // verus!
