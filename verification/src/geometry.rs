//! Rectangles on the screen, and where the cells of the card grid lie.
use vstd::prelude::*;

verus! {

/// A rectangle in screen pixels.
#[derive(Clone, Copy, Debug, PartialEq, Eq, Structural)]
pub struct Rect {
    pub x: i32,
    pub y: i32,
    pub w: u32,
    pub h: u32,
}

impl Rect {
    /// The points of the rectangle: its left and top edges belong to it, its right and bottom
    /// edges do not.
    pub open spec fn holds(self, px: int, py: int) -> bool {
        self.x <= px < self.x + self.w && self.y <= py < self.y + self.h
    }

    /// Whether the point lies in the rectangle.
    pub fn contains_point(&self, px: i32, py: i32) -> (r: bool)
        ensures
            r == self.holds(px as int, py as int),
    {
        let right: i64 = self.x as i64 + self.w as i64;
        let bottom: i64 = self.y as i64 + self.h as i64;
        self.x <= px && (px as i64) < right && self.y <= py && (py as i64) < bottom
    }
}

/// The first of `rects` that holds the point, or their number.
pub open spec fn hit_index(rects: Seq<Rect>, px: int, py: int) -> int
    decreases rects.len(),
{
    if rects.len() == 0 {
        0
    } else if rects[0].holds(px, py) {
        0
    } else {
        1 + hit_index(rects.drop_first(), px, py)
    }
}

proof fn lemma_hit_index(rects: Seq<Rect>, px: int, py: int, k: int)
    requires
        0 <= k <= rects.len(),
        forall|i: int| 0 <= i < k ==> !(#[trigger] rects[i]).holds(px, py),
        k < rects.len() ==> rects[k].holds(px, py),
    ensures
        hit_index(rects, px, py) == k,
    decreases rects.len(),
{
    if rects.len() > 0 && k > 0 {
        let rest = rects.drop_first();
        assert forall|i: int| 0 <= i < k - 1 implies !(#[trigger] rest[i]).holds(px, py) by {
            assert(rest[i] == rects[i + 1]);
        }
        lemma_hit_index(rest, px, py, k - 1);
    }
}

/// The first of `rects` that holds the point.
pub fn hit_test(rects: &Vec<Rect>, px: i32, py: i32) -> (r: Option<usize>)
    ensures
        match r {
            Some(i) => i < rects.len() && i == hit_index(rects@, px as int, py as int),
            None => hit_index(rects@, px as int, py as int) == rects.len(),
        },
{
    let mut i: usize = 0;
    while i < rects.len()
        invariant
            i <= rects.len(),
            forall|j: int| 0 <= j < i ==> !(#[trigger] rects@[j]).holds(px as int, py as int),
        decreases rects.len() - i,
    {
        if rects[i].contains_point(px, py) {
            proof {
                lemma_hit_index(rects@, px as int, py as int, i as int);
            }
            return Some(i);
        }
        i += 1;
    }
    proof {
        lemma_hit_index(rects@, px as int, py as int, rects.len() as int);
    }
    None
}

/// The sizes that the menu is laid out with, for the screen at hand.
#[derive(Clone, Copy, Debug)]
pub struct Viewport {
    pub screen_w: u32,
    pub screen_h: u32,
    /// Width of the host list at the left.
    pub sidebar_w: u32,
    /// Cards in one row of the grid.
    pub columns: usize,
    pub card_w: u32,
    pub card_h: u32,
    /// Where the first row of cards begins.
    pub top_y: i32,
    /// Space around the grid.
    pub pad: i32,
    /// Space between cards.
    pub gap: i32,
    /// Extra space below the pinned cards.
    pub section_gap: i32,
}

/// No length on screen is larger than this.
pub const MAX_LENGTH: i32 = 32768;

impl Viewport {
    /// Lengths are those of a screen, and there is at least one column.
    pub open spec fn valid(self) -> bool {
        &&& 1 <= self.columns <= MAX_LENGTH
        &&& self.screen_w <= MAX_LENGTH
        &&& self.screen_h <= MAX_LENGTH
        &&& self.sidebar_w <= MAX_LENGTH
        &&& 1 <= self.card_w <= MAX_LENGTH
        &&& 1 <= self.card_h <= MAX_LENGTH
        &&& 0 <= self.top_y <= MAX_LENGTH
        &&& 0 <= self.pad <= MAX_LENGTH
        &&& 0 <= self.gap <= MAX_LENGTH
        &&& 0 <= self.section_gap <= MAX_LENGTH
    }

    /// The width left for the grid.
    pub open spec fn available(self) -> int {
        if self.screen_w >= self.sidebar_w {
            self.screen_w - self.sidebar_w
        } else {
            0
        }
    }

    /// Distance from one row of cards to the next.
    pub open spec fn stride(self) -> int {
        self.card_h + self.gap
    }

    /// The cell `idx` of the grid before scrolling: rows from top to bottom, columns from left to
    /// right.
    pub open spec fn cell(self, idx: int) -> (int, int) {
        (
            self.sidebar_w + self.pad + (idx % self.columns as int) * (self.card_w + self.gap),
            self.top_y + (idx / self.columns as int) * self.stride(),
        )
    }

    /// The height of a grid of `n` cells.
    pub open spec fn grid_height(self, n: int) -> int {
        if n <= 0 {
            0
        } else {
            ((n - 1) / self.columns as int) * self.stride() + self.card_h
        }
    }

    /// Whether cell `idx` lies within the range of screen coordinates.
    pub open spec fn cell_fits(self, idx: int) -> bool {
        &&& 0 <= (idx / self.columns as int) * self.stride() <= 0x2000_0000
        &&& 0 <= (idx % self.columns as int) * (self.card_w + self.gap) <= 0x2000_0000
    }

    /// Whether a grid of `n` cells lies within the range of screen coordinates.
    pub open spec fn grid_fits(self, n: int) -> bool {
        forall|i: int| 0 <= i <= n ==> #[trigger] self.cell_fits(i)
    }

    /// The width left for the grid.
    pub fn available_w(&self) -> (r: u32)
        ensures
            r == self.available(),
    {
        self.screen_w.saturating_sub(self.sidebar_w)
    }

    /// The left and top edge of cell `idx`, before scrolling.
    pub fn cell_at(&self, idx: usize) -> (r: (i32, i32))
        requires
            self.valid(),
            self.cell_fits(idx as int),
        ensures
            (r.0 as int, r.1 as int) == self.cell(idx as int),
    {
        let step: i64 = self.card_w as i64 + self.gap as i64;
        let stride: i64 = self.card_h as i64 + self.gap as i64;
        proof {
            let row_at = idx as int / self.columns as int;
            let col_at = idx as int % self.columns as int;
            assert(row_at <= row_at * stride) by (nonlinear_arith)
                requires
                    row_at >= 0,
                    stride >= 1,
            ;
            assert(col_at <= col_at * step) by (nonlinear_arith)
                requires
                    col_at >= 0,
                    step >= 1,
            ;
        }
        let col: i64 = (idx % self.columns) as i64;
        let row: i64 = (idx / self.columns) as i64;
        let x: i64 = self.sidebar_w as i64 + self.pad as i64 + col * step;
        let y: i64 = self.top_y as i64 + row * stride;
        (x as i32, y as i32)
    }

    /// The height of a grid of `n` cells.
    pub fn height_of(&self, n: usize) -> (r: i32)
        requires
            self.valid(),
            n > 0 ==> self.cell_fits(n - 1),
        ensures
            r as int == self.grid_height(n as int),
            0 <= r <= 0x2000_0000 + MAX_LENGTH,
    {
        if n == 0 {
            0
        } else {
            let (_, y) = self.cell_at(n - 1);
            y - self.top_y + self.card_h as i32
        }
    }
}

/// The first cell lies at the top left of the grid; from one cell to the next in its row it is the
/// width of a card and a gap, and from one row to the next the height of a card and a gap.
pub proof fn law_cells_are_evenly_spaced(vp: Viewport, idx: int)
    requires
        vp.columns >= 1,
        0 <= idx,
    ensures
        vp.cell(0) == (vp.sidebar_w + vp.pad, vp.top_y as int),
        (idx + 1) % vp.columns as int != 0 ==> vp.cell(idx + 1) == (
            vp.cell(idx).0 + vp.card_w + vp.gap,
            vp.cell(idx).1,
        ),
        vp.cell(idx + vp.columns) == (vp.cell(idx).0, vp.cell(idx).1 + vp.card_h + vp.gap),
        (idx + 1) % vp.columns as int == 0 ==> vp.cell(idx + 1) == (
            vp.sidebar_w + vp.pad,
            vp.cell(idx).1 + vp.card_h + vp.gap,
        ),
{
    let c = vp.columns as int;
    let q = idx / c;
    let r = idx % c;
    let step = vp.card_w + vp.gap;
    let stride = vp.stride();
    vstd::arithmetic::div_mod::lemma_fundamental_div_mod(idx, c);
    vstd::arithmetic::div_mod::lemma_mod_bound(idx, c);
    assert(c * q == q * c) by (nonlinear_arith);
    assert(0int / c == 0 && 0int % c == 0) by (nonlinear_arith)
        requires
            c >= 1,
    ;
    assert(0 * step == 0 && 0 * stride == 0) by (nonlinear_arith);
    if r + 1 < c {
        vstd::arithmetic::div_mod::lemma_fundamental_div_mod_converse(idx + 1, c, q, r + 1);
        assert((r + 1) * step == r * step + step) by (nonlinear_arith);
    } else {
        assert((q + 1) * c == q * c + c) by (nonlinear_arith);
        vstd::arithmetic::div_mod::lemma_fundamental_div_mod_converse(idx + 1, c, q + 1, 0);
        assert((q + 1) * stride == q * stride + stride) by (nonlinear_arith);
    }
    assert((q + 1) * c == q * c + c) by (nonlinear_arith);
    vstd::arithmetic::div_mod::lemma_fundamental_div_mod_converse(idx + c, c, q + 1, r);
    assert((q + 1) * stride == q * stride + stride) by (nonlinear_arith);
}

/// The height of a grid reaches from the top of its first row to the bottom of its last.
pub proof fn law_height_ends_with_the_last_row(vp: Viewport, n: int)
    requires
        vp.columns >= 1,
    ensures
        n > 0 ==> vp.grid_height(n) == vp.cell(n - 1).1 + vp.card_h - vp.top_y,
        n <= 0 ==> vp.grid_height(n) == 0,
{
}

/// The rectangle that is hit is the first that the point lies in: at or right of its left edge and
/// left of its right one, at or below its top edge and above its bottom one.
pub proof fn law_first_rectangle_is_hit(rects: Seq<Rect>, px: int, py: int, i: int)
    requires
        0 <= i < rects.len(),
    ensures
        ({
            let k = hit_index(rects, px, py);
            let r = rects[k];
            let inside = rects[i].x <= px < rects[i].x + rects[i].w && rects[i].y <= py < rects[i].y
                + rects[i].h;
            &&& 0 <= k <= rects.len()
            &&& k < rects.len() ==> r.x <= px < r.x + r.w && r.y <= py < r.y + r.h
            &&& inside ==> k <= i
        }),
    decreases rects.len(),
{
    let rest = rects.drop_first();
    if rest.len() > 0 {
        law_first_rectangle_is_hit(
            rest,
            px,
            py,
            if i > 0 {
                i - 1
            } else {
                0
            },
        );
        if i > 0 {
            assert(rest[i - 1] == rects[i]);
        }
        let k = hit_index(rest, px, py);
        if k < rest.len() {
            assert(rest[k] == rects[k + 1]);
        }
    } else {
        assert(hit_index(rest, px, py) == 0);
    }
}

} // verus!
