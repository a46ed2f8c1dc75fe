//! Tiles, the steps that compose a frame from them, and the pixels that go to the GPU.
use vstd::prelude::*;

use crate::app::Screen;
use crate::geometry::Rect;
use crate::pixels::{straighten_rgba, straightened};

verus! {

/// One cached texture.
#[derive(Clone, Copy, Debug, PartialEq, Eq, Hash, Structural)]
pub enum Tile {
    /// The host list, no row focused; the only opaque tile.
    Sidebar,
    /// The focused row of the host list.
    FocusRow,
    /// The card with this number. It stands for the card's pin id, not for its cell, so that
    /// pinning, which only moves cards, needs no texture again.
    Card(usize),
    /// The glow round the focused card.
    Ring,
    /// The edge of the focused card.
    CardOutline,
    /// The badge of a pinned card.
    PinBadge,
    /// A card on its way to another cell.
    PinMove,
    /// The open modal, no widget focused.
    Modal,
    /// The focused widget of the open modal.
    ModalFocusElement,
    DropdownOverlay,
    DropdownFocusOption,
    /// The status line of Home.
    Status,
    /// The hint that no host is selected.
    NoHost,
    ScrollIndicator(Screen),
    /// The scrolling content of a modal, as far as it is rasterized.
    ScrollContent(Screen),
    SpinnerFrame(usize),
    StatsOverlay,
    Notification,
    LogOverlay,
    DisconnectDialog,
    DisconnectFocusButton,
}

/// How a tile moves and fades. A fraction runs from 0 to 1 since the time given, and is 1 where
/// none is given; the modal's fraction is that of its fade.
#[derive(Clone, Copy, Debug, PartialEq, Eq, Structural)]
pub enum Motion {
    /// As it is.
    Still,
    /// Grows to its size, and becomes opaque, with the card's fraction.
    PopIn { since: Option<u64> },
    /// The same, grown further with the focus's fraction.
    FocusCard { since: Option<u64>, focus: Option<u64> },
    /// The same, also becoming opaque with the focus's fraction.
    FocusRing { since: Option<u64>, focus: Option<u64> },
    /// Grown with the focus's fraction, becoming opaque with the card's.
    FocusBadge { since: Option<u64>, focus: Option<u64> },
    /// Flies to another place, then padded.
    Fly { at: u64, to: Rect, pad: i32 },
    /// The modal itself: slides into its place and becomes opaque, and grows while it opens.
    Modal { opening: bool },
    /// Slides and becomes opaque with the modal.
    Slide,
    /// The same, grown with the focus's fraction.
    SlideZoom { focus: Option<u64> },
    /// The same as `Slide`, fading out once the list has rested.
    SlideFade { shown_at: Option<u64> },
    /// Grows out of the screen.
    Launch { at: u64 },
}

/// The colour of a fill.
#[derive(Clone, Copy, Debug, PartialEq, Eq, Structural)]
pub enum Shade {
    /// A faint line.
    Line,
    /// Behind the status line.
    StatusBar,
    /// Behind a modal, as dark as the modal is opaque.
    Scrim,
    /// Over everything while a launch begins.
    Launch { at: u64 },
}

/// One step of a frame, in paint order.
#[derive(Clone, Copy, Debug, PartialEq, Eq, Structural)]
pub enum DrawCmd {
    /// Copies a tile to `base`, moved and faded.
    Tex { tile: Tile, base: Rect, motion: Motion },
    /// Copies a part of a tile.
    TexCropped { tile: Tile, src: Rect, base: Rect, motion: Motion },
    /// Blends a solid rectangle.
    Fill { rect: Rect, shade: Shade },
}

/// What the GPU is sent for a tile.
#[derive(Debug)]
pub struct Upload {
    /// Whether the texture has to be made first, the old one going.
    pub recreate: bool,
    /// Whether the texture is blended by its alpha.
    pub blend: bool,
    /// The pixels, or none where they go as they are.
    pub pixels: Option<Vec<u8>>,
}

/// A texture, and the tile that it shows.
#[derive(Clone, Copy, Debug, PartialEq, Eq, Structural)]
pub struct Texture {
    pub tile: Tile,
    pub width: u32,
    pub height: u32,
}

/// Whether a texture shows `t`.
pub open spec fn listed(textures: Seq<Texture>, t: Tile) -> bool {
    exists|i: int| 0 <= i < textures.len() && #[trigger] textures[i].tile == t
}

/// The size of the texture that shows `t`.
pub open spec fn listed_size(textures: Seq<Texture>, t: Tile) -> (u32, u32) {
    let i = choose|i: int| 0 <= i < textures.len() && #[trigger] textures[i].tile == t;
    (textures[i].width, textures[i].height)
}

/// Which tiles have a texture, and of what size.
#[derive(Debug)]
pub struct Compositor {
    textures: Vec<Texture>,
}

impl View for Compositor {
    type V = Map<Tile, (u32, u32)>;

    closed spec fn view(&self) -> Map<Tile, (u32, u32)> {
        Map::new(
            |t: Tile| listed(self.textures@, t),
            |t: Tile| listed_size(self.textures@, t),
        )
    }
}

/// The tile that a step copies, where it copies one.
pub open spec fn tile_of(cmd: DrawCmd) -> Option<Tile> {
    match cmd {
        DrawCmd::Tex { tile, .. } => Some(tile),
        DrawCmd::TexCropped { tile, .. } => Some(tile),
        DrawCmd::Fill { .. } => None,
    }
}

/// Whether a step is painted: a tile without a texture is passed over, as its art may still be
/// on its way.
pub open spec fn painted(textures: Map<Tile, (u32, u32)>, cmd: DrawCmd) -> bool {
    match tile_of(cmd) {
        Some(tile) => textures.contains_key(tile),
        None => true,
    }
}

/// The places of the steps among the first `n` that are painted, in order.
pub open spec fn painted_steps(
    textures: Map<Tile, (u32, u32)>,
    cmds: Seq<DrawCmd>,
    n: nat,
) -> Seq<usize>
    decreases n,
{
    if n == 0 {
        seq![]
    } else {
        let before = painted_steps(textures, cmds, (n - 1) as nat);
        if painted(textures, cmds[n - 1]) {
            before.push((n - 1) as usize)
        } else {
            before
        }
    }
}

impl Compositor {
    /// Whether each tile has one texture at most.
    pub closed spec fn wf(self) -> bool {
        forall|i: int, j: int|
            0 <= i < j < self.textures@.len() ==> #[trigger] self.textures@[i].tile
                != #[trigger] self.textures@[j].tile
    }

    /// No textures.
    pub fn new() -> (r: Self)
        ensures
            r.wf(),
            r@ == Map::<Tile, (u32, u32)>::empty(),
    {
        let r = Compositor { textures: Vec::new() };
        assert(r@ =~= Map::<Tile, (u32, u32)>::empty());
        r
    }

    fn find(&self, tile: Tile) -> (r: Option<usize>)
        requires
            self.wf(),
        ensures
            match r {
                Some(i) => i < self.textures@.len() && self.textures@[i as int].tile == tile
                    && self@.contains_key(tile) && self@[tile] == (
                    self.textures@[i as int].width,
                    self.textures@[i as int].height,
                ),
                None => !self@.contains_key(tile),
            },
    {
        let mut i: usize = 0;
        while i < self.textures.len()
            invariant
                i <= self.textures.len(),
                self.wf(),
                forall|k: int| 0 <= k < i ==> #[trigger] self.textures@[k].tile != tile,
            decreases self.textures.len() - i,
        {
            if self.textures[i].tile == tile {
                assert(listed(self.textures@, tile));
                return Some(i);
            }
            i += 1;
        }
        None
    }

    /// Whether a tile of straight pixels has to be sent. One that has a texture keeps it.
    pub fn upload_raw(&self, tile: Tile) -> (r: bool)
        requires
            self.wf(),
        ensures
            r == !self@.contains_key(tile),
    {
        self.find(tile).is_none()
    }

    /// How to send a rasterized tile of this size. The sidebar, the only opaque tile, goes as
    /// it is; for the others the scaling by alpha is undone. Once it is sent, it is to be
    /// [kept](Compositor::keep).
    pub fn upload(&self, tile: Tile, w: u32, h: u32, pixels: &Vec<u8>) -> (r: Upload)
        requires
            self.wf(),
        ensures
            r.recreate == !(self@.contains_key(tile) && self@[tile] == (w, h)),
            r.blend == !(tile is Sidebar),
            match r.pixels {
                None => tile is Sidebar,
                Some(px) => !(tile is Sidebar) && px@ == straightened(pixels@),
            },
    {
        let recreate = match self.find(tile) {
            Some(i) => self.textures[i].width != w || self.textures[i].height != h,
            None => true,
        };
        let opaque = matches!(tile, Tile::Sidebar);
        if opaque {
            Upload { recreate, blend: false, pixels: None }
        } else {
            Upload { recreate, blend: true, pixels: Some(straighten_rgba(pixels)) }
        }
    }

    /// Records that the tile has a texture of this size.
    pub fn keep(&mut self, tile: Tile, w: u32, h: u32)
        requires
            old(self).wf(),
        ensures
            final(self).wf(),
            final(self)@ == old(self)@.insert(tile, (w, h)),
    {
        let found = self.find(tile);
        let ghost before = self.textures@;
        let texture = Texture { tile, width: w, height: h };
        match found {
            Some(i) => {
                self.textures[i] = texture;
                proof {
                    lemma_replaced(before, i as int, texture);
                }
            },
            None => {
                self.textures.push(texture);
                proof {
                    lemma_added(before, texture);
                }
            },
        }
        assert(self@ =~= old(self)@.insert(tile, (w, h)));
    }

    /// Records that the tile's texture is to go. Says whether it had one.
    pub fn drop_tile(&mut self, tile: Tile) -> (r: bool)
        requires
            old(self).wf(),
        ensures
            final(self).wf(),
            r == old(self)@.contains_key(tile),
            final(self)@ == old(self)@.remove(tile),
    {
        let ghost before = self.textures@;
        match self.find(tile) {
            Some(i) => {
                let _ = self.textures.remove(i);
                proof {
                    lemma_removed(before, i as int);
                }
                assert(self@ =~= old(self)@.remove(tile));
                true
            },
            None => {
                assert(self@ =~= old(self)@.remove(tile));
                false
            },
        }
    }

    /// Hands out every texture's tile, so that all go at once when a stream starts.
    pub fn clear_all(&mut self) -> (r: Vec<Tile>)
        requires
            old(self).wf(),
        ensures
            final(self).wf(),
            final(self)@ == Map::<Tile, (u32, u32)>::empty(),
            forall|t: Tile| #[trigger] r@.contains(t) <==> old(self)@.contains_key(t),
            r@.no_duplicates(),
    {
        let mut out: Vec<Tile> = Vec::new();
        let ghost before = self.textures@;
        let mut i: usize = 0;
        while i < self.textures.len()
            invariant
                i <= self.textures.len(),
                self.textures@ == before,
                out@.len() == i,
                forall|k: int| 0 <= k < i ==> #[trigger] out@[k] == before[k].tile,
            decreases self.textures.len() - i,
        {
            out.push(self.textures[i].tile);
            i += 1;
        }
        proof {
            assert forall|t: Tile| #[trigger] out@.contains(t) <==> old(self)@.contains_key(t) by {
                if out@.contains(t) {
                    let k = choose|k: int| 0 <= k < out@.len() && out@[k] == t;
                    assert(before[k].tile == t);
                }
                if listed(before, t) {
                    let k = choose|k: int| 0 <= k < before.len() && #[trigger] before[k].tile == t;
                    assert(out@[k] == t);
                }
            }
            assert forall|a: int, b: int| 0 <= a < out@.len() && 0 <= b < out@.len() && a
                != b implies out@[a] != out@[b] by {
                if a < b {
                    assert(before[a].tile != before[b].tile);
                } else {
                    assert(before[b].tile != before[a].tile);
                }
            }
        }
        self.textures = Vec::new();
        assert(self@ =~= Map::<Tile, (u32, u32)>::empty());
        out
    }

    /// The places of the steps of a frame that are painted, in paint order.
    pub fn execute(&self, cmds: &Vec<DrawCmd>) -> (r: Vec<usize>)
        requires
            self.wf(),
        ensures
            r@ == painted_steps(self@, cmds@, cmds@.len()),
    {
        let mut out: Vec<usize> = Vec::new();
        let mut i: usize = 0;
        while i < cmds.len()
            invariant
                i <= cmds.len(),
                self.wf(),
                out@ == painted_steps(self@, cmds@, i as nat),
            decreases cmds.len() - i,
        {
            let shown = match cmds[i] {
                DrawCmd::Tex { tile, .. } => self.find(tile).is_some(),
                DrawCmd::TexCropped { tile, .. } => self.find(tile).is_some(),
                DrawCmd::Fill { .. } => true,
            };
            if shown {
                out.push(i);
            }
            i += 1;
        }
        out
    }
}

/// Whether each tile is listed once at most.
spec fn distinct(textures: Seq<Texture>) -> bool {
    forall|i: int, j: int|
        0 <= i < j < textures.len() ==> #[trigger] textures[i].tile != #[trigger] textures[j].tile
}

proof fn lemma_size(textures: Seq<Texture>, i: int)
    requires
        distinct(textures),
        0 <= i < textures.len(),
    ensures
        listed(textures, textures[i].tile),
        listed_size(textures, textures[i].tile) == (textures[i].width, textures[i].height),
{
    let t = textures[i].tile;
    let k = choose|k: int| 0 <= k < textures.len() && #[trigger] textures[k].tile == t;
    assert(textures[k].tile == t);
    if k < i {
        assert(textures[k].tile != textures[i].tile);
    } else if i < k {
        assert(textures[i].tile != textures[k].tile);
    }
}

proof fn lemma_replaced(textures: Seq<Texture>, i: int, new: Texture)
    requires
        distinct(textures),
        0 <= i < textures.len(),
        textures[i].tile == new.tile,
    ensures
        distinct(textures.update(i, new)),
        forall|t: Tile| #[trigger] listed(textures.update(i, new), t) <==> listed(textures, t),
        listed_size(textures.update(i, new), new.tile) == (new.width, new.height),
        forall|t: Tile|
            t != new.tile && listed(textures, t) ==> #[trigger] listed_size(
                textures.update(i, new),
                t,
            ) == listed_size(textures, t),
{
    let after = textures.update(i, new);
    lemma_size(after, i);
    assert forall|t: Tile| #[trigger] listed(after, t) <==> listed(textures, t) by {
        if listed(textures, t) {
            let k = choose|k: int| 0 <= k < textures.len() && #[trigger] textures[k].tile == t;
            assert(after[k].tile == t);
        }
        if listed(after, t) {
            let k = choose|k: int| 0 <= k < after.len() && #[trigger] after[k].tile == t;
            assert(textures[k].tile == t);
        }
    }
    assert forall|t: Tile| t != new.tile && listed(textures, t) implies #[trigger] listed_size(
        after,
        t,
    ) == listed_size(textures, t) by {
        let k = choose|k: int| 0 <= k < textures.len() && #[trigger] textures[k].tile == t;
        lemma_size(textures, k);
        lemma_size(after, k);
    }
}

proof fn lemma_added(textures: Seq<Texture>, new: Texture)
    requires
        distinct(textures),
        !listed(textures, new.tile),
    ensures
        distinct(textures.push(new)),
        forall|t: Tile|
            #[trigger] listed(textures.push(new), t) <==> listed(textures, t) || t == new.tile,
        listed_size(textures.push(new), new.tile) == (new.width, new.height),
        forall|t: Tile|
            listed(textures, t) ==> #[trigger] listed_size(textures.push(new), t) == listed_size(
                textures,
                t,
            ),
{
    let after = textures.push(new);
    let n = textures.len() as int;
    assert(after[n] == new);
    assert forall|i: int, j: int| 0 <= i < j < after.len() implies #[trigger] after[i].tile
        != #[trigger] after[j].tile by {
        if j == n {
            assert(textures[i].tile == after[i].tile);
        }
    }
    lemma_size(after, n);
    assert forall|t: Tile| #[trigger] listed(after, t) <==> listed(textures, t) || t
        == new.tile by {
        if listed(textures, t) {
            let k = choose|k: int| 0 <= k < textures.len() && #[trigger] textures[k].tile == t;
            assert(after[k].tile == t);
        }
        if listed(after, t) && t != new.tile {
            let k = choose|k: int| 0 <= k < after.len() && #[trigger] after[k].tile == t;
            assert(textures[k].tile == t);
        }
    }
    assert forall|t: Tile| listed(textures, t) implies #[trigger] listed_size(after, t)
        == listed_size(textures, t) by {
        let k = choose|k: int| 0 <= k < textures.len() && #[trigger] textures[k].tile == t;
        lemma_size(textures, k);
        lemma_size(after, k);
    }
}

proof fn lemma_removed(textures: Seq<Texture>, i: int)
    requires
        distinct(textures),
        0 <= i < textures.len(),
    ensures
        distinct(textures.remove(i)),
        forall|t: Tile|
            #[trigger] listed(textures.remove(i), t) <==> listed(textures, t) && t
                != textures[i].tile,
        forall|t: Tile|
            t != textures[i].tile && listed(textures, t) ==> #[trigger] listed_size(
                textures.remove(i),
                t,
            ) == listed_size(textures, t),
{
    let after = textures.remove(i);
    assert forall|t: Tile| #[trigger] listed(after, t) <==> listed(textures, t) && t
        != textures[i].tile by {
        if listed(textures, t) && t != textures[i].tile {
            let k = choose|k: int| 0 <= k < textures.len() && #[trigger] textures[k].tile == t;
            if k < i {
                assert(after[k].tile == t);
            } else {
                assert(after[k - 1].tile == t);
            }
        }
        if listed(after, t) {
            let k = choose|k: int| 0 <= k < after.len() && #[trigger] after[k].tile == t;
            if k < i {
                assert(textures[k].tile == t);
            } else {
                assert(textures[k + 1].tile == t);
            }
        }
    }
    assert forall|t: Tile| t != textures[i].tile && listed(textures, t) implies #[trigger] listed_size(
        after,
        t,
    ) == listed_size(textures, t) by {
        let k = choose|k: int| 0 <= k < textures.len() && #[trigger] textures[k].tile == t;
        lemma_size(textures, k);
        if k < i {
            lemma_size(after, k);
        } else {
            lemma_size(after, k - 1);
        }
    }
}

/// What is painted of a frame keeps its order.
pub proof fn law_paint_order(
    textures: Map<Tile, (u32, u32)>,
    cmds: Seq<DrawCmd>,
    n: nat,
    a: int,
    b: int,
)
    requires
        n <= cmds.len(),
        cmds.len() <= usize::MAX,
        0 <= a < b < painted_steps(textures, cmds, n).len(),
    ensures
        painted_steps(textures, cmds, n)[a] < painted_steps(textures, cmds, n)[b] < n,
    decreases n,
{
    if n > 0 {
        let m = (n - 1) as nat;
        let before = painted_steps(textures, cmds, m);
        if b < before.len() {
            law_paint_order(textures, cmds, m, a, b);
        } else {
            lemma_steps_below(textures, cmds, m, a);
        }
    }
}

proof fn lemma_steps_below(
    textures: Map<Tile, (u32, u32)>,
    cmds: Seq<DrawCmd>,
    n: nat,
    a: int,
)
    requires
        n <= cmds.len(),
        cmds.len() <= usize::MAX,
        0 <= a < painted_steps(textures, cmds, n).len(),
    ensures
        painted_steps(textures, cmds, n)[a] < n,
    decreases n,
{
    if n > 0 {
        let m = (n - 1) as nat;
        if a < painted_steps(textures, cmds, m).len() {
            lemma_steps_below(textures, cmds, m, a);
        }
    }
}

/// A step is painted exactly when it fills, or copies a tile that has a texture.
pub proof fn law_painted_exactly(
    textures: Map<Tile, (u32, u32)>,
    cmds: Seq<DrawCmd>,
    n: nat,
    k: int,
)
    requires
        n <= cmds.len(),
        cmds.len() <= usize::MAX,
        0 <= k < n,
    ensures
        painted_steps(textures, cmds, n).contains(k as usize) <==> painted(textures, cmds[k]),
    decreases n,
{
    let m = (n - 1) as nat;
    let before = painted_steps(textures, cmds, m);
    let after = painted_steps(textures, cmds, n);
    if k < m {
        law_painted_exactly(textures, cmds, m, k);
        if before.contains(k as usize) {
            let a = choose|a: int| 0 <= a < before.len() && before[a] == k as usize;
            assert(after[a] == k as usize);
        }
        if after.contains(k as usize) {
            let a = choose|a: int| 0 <= a < after.len() && after[a] == k as usize;
            assert(a < before.len());
            assert(before[a] == k as usize);
        }
    } else {
        if painted(textures, cmds[k]) {
            assert(after[before.len() as int] == k as usize);
        } else if after.contains(k as usize) {
            let a = choose|a: int| 0 <= a < before.len() && before[a] == k as usize;
            lemma_steps_below(textures, cmds, m, a);
        }
    }
}

/// A fill is always painted, and a tile, whole or in part, exactly where it has a texture.
pub proof fn law_tile_is_painted_with_its_texture(
    textures: Map<Tile, (u32, u32)>,
    t: Tile,
    src: Rect,
    rect: Rect,
    motion: Motion,
    shade: Shade,
)
    ensures
        painted(textures, DrawCmd::Fill { rect, shade }),
        painted(textures, DrawCmd::Tex { tile: t, base: rect, motion }) <==> textures.dom().contains(
            t,
        ),
        painted(textures, DrawCmd::TexCropped { tile: t, src, base: rect, motion })
            <==> textures.dom().contains(t),
{
}

/// Every step of a frame is painted once all its tiles have a texture.
pub proof fn law_whole_frame_is_painted(textures: Map<Tile, (u32, u32)>, cmds: Seq<DrawCmd>, n: nat)
    requires
        n <= cmds.len(),
        cmds.len() <= usize::MAX,
        forall|t: Tile| #[trigger] textures.dom().contains(t),
    ensures
        painted_steps(textures, cmds, n).len() == n,
        forall|k: int| 0 <= k < n ==> #[trigger] painted_steps(textures, cmds, n)[k] == k,
    decreases n,
{
    if n > 0 {
        law_whole_frame_is_painted(textures, cmds, (n - 1) as nat);
    }
}

} // verus!
