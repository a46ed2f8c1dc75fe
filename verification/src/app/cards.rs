//! Which cards of the grid are rasterized, and when the grid is revealed.
use vstd::prelude::*;

use crate::app::grid::{ids_distinct, law_cards_distinct, lemma_cells, GridCard, GridLayout};
use crate::app::home::lemma_layout_wf;
use crate::app::scroll::{elapsed, since};
use crate::app::tiles::{CardTile, TilesView};
use crate::app::{App, AppView, CanvasView, ShelfView};
use crate::art::cover_path;
use crate::compositor::Tile;
use crate::geometry::Viewport;
use crate::seqs::{index_in, lemma_index_in, remove_text, texts_without};
use crate::store::find_text;

verus! {

broadcast use crate::seqs::group_views;

/// Rows beyond the view that are rasterized ahead of it.
pub const CARD_PREFETCH_ROWS: i32 = 2;

/// Rows beyond the view from which on cards are dropped.
pub const CARD_KEEP_ROWS: i32 = 5;

/// Cards rasterized in one frame.
pub const CARD_BUILD_BUDGET: usize = 1;

/// Milliseconds after which the grid is shown though covers are missing.
pub const SPINNER_MAX_WAIT: u64 = 900;

impl AppView {
    /// The first row in view.
    pub open spec fn first_row(self, vp: Viewport) -> int {
        self.canvas.grid_scroll as int / vp.stride()
    }

    /// The number of rows in view, in part or whole.
    pub open spec fn view_rows(self, vp: Viewport) -> int {
        let h = vp.screen_h - vp.top_y;
        (if h > vp.stride() {
            h
        } else {
            vp.stride()
        }) / vp.stride() + 1
    }

    /// Whether cell `idx` is in a row at most `margin` rows out of view.
    #[verifier::opaque]
    pub open spec fn near(self, vp: Viewport, margin: int, idx: int) -> bool {
        let row = idx / vp.columns as int;
        self.first_row(vp) - margin <= row <= self.first_row(vp) + self.view_rows(vp) + margin
    }

    /// The game in cell `idx`.
    pub open spec fn game_in(self, idx: int, columns: int) -> Option<int> {
        match self.card_at(idx, columns) {
            Some(GridCard::Game(g)) => Some(g as int),
            _ => None,
        }
    }

    /// Nothing more can arrive for cell `idx`: its cover is here, or it never had one.
    pub open spec fn cover_ready(self, idx: int, columns: int) -> bool {
        match self.game_in(idx, columns) {
            None => true,
            Some(g) => self.shelf.art.contains(self.shelf.games[g].id) || cover_path(
                self.shelf.games[g],
            ) is None,
        }
    }

    /// The number by which the texture of the card in cell `idx` goes. It follows from the card's
    /// pin id alone, so that a card keeps its texture wherever its cell is.
    pub open spec fn card_slot(self, idx: int, columns: int) -> usize {
        match self.card_at(idx, columns) {
            None => usize::MAX,
            Some(GridCard::Desktop) => 0,
            Some(GridCard::Game(g)) => slot_of(
                self.shelf.card_ids,
                self.shelf.games[g as int].id,
            ),
        }
    }

    /// No two titles have the same id, and each was in the library as it came in.
    pub open spec fn cards_numbered(self) -> bool {
        &&& ids_distinct(self.shelf.games)
        &&& self.shelf.card_ids.len() < usize::MAX - 1
        &&& forall|g: int|
            0 <= g < self.shelf.games.len() ==> self.shelf.card_ids.contains(
                (#[trigger] self.shelf.games[g]).id,
            )
    }

    /// The same state with the cards like this.
    pub open spec fn cards_as(self, card_tiles: Seq<Option<CardTile>>) -> AppView {
        AppView { tiles: TilesView { card_tiles, ..self.tiles }, ..self }
    }

    /// Whether every card is stale.
    pub open spec fn cards_stale(self, count: int) -> bool {
        self.canvas.grid_dirty || self.tiles.card_tiles.len() != count
    }

    /// After dropping every card; a library that was just loaded hides behind the spinner.
    pub open spec fn cards_cleared(self, count: int) -> AppView {
        AppView {
            canvas: CanvasView {
                evicted_tiles: self.canvas.evicted_tiles + card_names(self.tiles.card_tiles),
                grid_dirty: false,
                grid_cards_dirty: seq![],
                grid_reveal_ready: self.canvas.grid_reveal_ready && !self.canvas.grid_dirty,
                spinner_since: if self.canvas.grid_dirty {
                    None
                } else {
                    self.canvas.spinner_since
                },
                spinner_frame: if self.canvas.grid_dirty {
                    None
                } else {
                    self.canvas.spinner_frame
                },
                ..self.canvas
            },
            ..self.cards_as(no_cards(count))
        }
    }

    /// After dropping the stale cards only.
    pub open spec fn cards_freshened(self) -> AppView {
        AppView {
            canvas: CanvasView { grid_cards_dirty: seq![], ..self.canvas },
            ..self.cards_as(without_cards(self.tiles.card_tiles, self.canvas.grid_cards_dirty))
        }
    }

    /// After dropping the stale cards, all of them or some.
    pub open spec fn cards_dropped(self, count: int) -> AppView {
        if self.cards_stale(count) {
            self.cards_cleared(count)
        } else {
            self.cards_freshened()
        }
    }

    /// After dropping the cover of game `g`.
    pub open spec fn cover_dropped(self, g: int) -> AppView {
        let id = self.shelf.games[g].id;
        AppView {
            shelf: ShelfView {
                art: texts_without(self.shelf.art, id),
                art_loader: match self.shelf.art_loader {
                    Some(loader) => Some(loader.after_forget(id)),
                    None => None,
                },
                ..self.shelf
            },
            ..self
        }
    }

    /// After dropping the card in cell `idx`.
    pub open spec fn card_dropped(self, idx: int) -> AppView {
        AppView {
            canvas: CanvasView {
                evicted_tiles: self.canvas.evicted_tiles.push(
                    Tile::Card((self.tiles.card_tiles[idx]->0).slot),
                ),
                ..self.canvas
            },
            ..self.cards_as(self.tiles.card_tiles.update(idx, None))
        }
    }

    /// After dropping the card in cell `idx`, and its cover, if it is far out of view.
    pub open spec fn cell_evicted(self, vp: Viewport, idx: int) -> AppView {
        if self.near(vp, CARD_KEEP_ROWS as int, idx) || self.tiles.card_tiles[idx] is None {
            self
        } else {
            match self.game_in(idx, vp.columns as int) {
                Some(g) => self.card_dropped(idx).cover_dropped(g),
                None => self.card_dropped(idx),
            }
        }
    }

    /// After that, for the first `n` cells.
    pub open spec fn cells_evicted(self, vp: Viewport, n: int) -> AppView
        decreases n,
    {
        if n <= 0 {
            self
        } else {
            self.cells_evicted(vp, n - 1).cell_evicted(vp, n - 1)
        }
    }

    /// After asking for the cover of the card in cell `idx` if it is about to be seen.
    pub open spec fn cover_wanted(self, vp: Viewport, idx: int) -> AppView {
        match (self.shelf.art_loader, self.game_in(idx, vp.columns as int)) {
            (Some(loader), Some(g)) => if self.near(vp, CARD_PREFETCH_ROWS as int, idx) {
                AppView {
                    shelf: ShelfView {
                        art_loader: Some(loader.after_request(self.shelf.games[g])),
                        ..self.shelf
                    },
                    ..self
                }
            } else {
                self
            },
            _ => self,
        }
    }

    /// After that, for the first `n` cells.
    pub open spec fn covers_wanted(self, vp: Viewport, n: int) -> AppView
        decreases n,
    {
        if n <= 0 {
            self
        } else {
            self.covers_wanted(vp, n - 1).cover_wanted(vp, n - 1)
        }
    }

    /// Whether cell `idx` holds a card that is about to be seen and is not rasterized.
    pub open spec fn missing(self, vp: Viewport, idx: int) -> bool {
        &&& self.near(vp, CARD_PREFETCH_ROWS as int, idx)
        &&& self.card_at(idx, vp.columns as int) is Some
        &&& self.tiles.card_tiles[idx] is None
    }

    /// The missing cards of the first `n` cells whose covers are ready (or are not).
    pub open spec fn missing_cards(self, vp: Viewport, ready: bool, n: int) -> Seq<usize>
        decreases n,
    {
        if n <= 0 {
            seq![]
        } else {
            let before = self.missing_cards(vp, ready, n - 1);
            if self.missing(vp, n - 1) && self.cover_ready(n - 1, vp.columns as int) == ready {
                before.push((n - 1) as usize)
            } else {
                before
            }
        }
    }

    /// The cards to rasterize, in order: those with their cover first.
    pub open spec fn build_queue(self, vp: Viewport, count: int) -> Seq<usize> {
        self.missing_cards(vp, true, count) + self.missing_cards(vp, false, count)
    }

    /// After rasterizing the card in cell `idx`, which zooms in if the grid is on screen.
    pub open spec fn card_built(self, idx: int, columns: int, now: u64) -> AppView {
        self.cards_as(
            self.tiles.card_tiles.update(
                idx,
                Some(
                    CardTile {
                        slot: self.card_slot(idx, columns),
                        pop_since: if self.canvas.grid_reveal_ready {
                            Some(now)
                        } else {
                            None
                        },
                    },
                ),
            ),
        )
    }

    /// After rasterizing the first `n` cards of `queue`.
    pub open spec fn cards_built(
        self,
        queue: Seq<usize>,
        columns: int,
        n: int,
        now: u64,
    ) -> AppView
        decreases n,
    {
        if n <= 0 {
            self
        } else {
            self.cards_built(queue, columns, n - 1, now).card_built(
                queue[n - 1] as int,
                columns,
                now,
            )
        }
    }

    /// After rasterizing as many cards as one frame allows.
    pub open spec fn cards_filled(self, vp: Viewport, count: int, now: u64) -> AppView {
        let queue = self.build_queue(vp, count);
        let s = self.cards_built(
            queue,
            vp.columns as int,
            within_budget(queue.len() as int),
            now,
        );
        AppView {
            canvas: CanvasView {
                tiles_pending: queue.len() > CARD_BUILD_BUDGET,
                ..s.canvas
            },
            ..s
        }
    }

    /// Whether every card about to be seen is rasterized, with its cover.
    pub open spec fn window_ready(self, vp: Viewport, count: int) -> bool {
        forall|idx: int|
            0 <= idx < count && #[trigger] self.near(vp, CARD_PREFETCH_ROWS as int, idx)
                && self.card_at(idx, vp.columns as int) is Some ==> self.tiles.card_tiles[idx] is Some
                && self.cover_ready(idx, vp.columns as int)
    }

    /// Whether the wait for the grid is over.
    pub open spec fn reveal_due(self, vp: Viewport, count: int, now: u64) -> bool {
        self.window_ready(vp, count) || (self.canvas.spinner_since matches Some(t) && elapsed(
            now,
            t,
        ) >= SPINNER_MAX_WAIT)
    }

    /// After revealing the grid once that is due; until then the spinner turns.
    pub open spec fn revealed(self, vp: Viewport, count: int, frame: usize, now: u64) -> AppView {
        if self.canvas.grid_reveal_ready {
            self
        } else if self.reveal_due(vp, count, now) {
            AppView {
                canvas: CanvasView {
                    grid_reveal_ready: true,
                    spinner_since: None,
                    spinner_frame: None,
                    ..self.canvas
                },
                ..self.cards_as(popping(self.tiles.card_tiles, now))
            }
        } else {
            AppView {
                canvas: CanvasView {
                    spinner_since: Some(
                        match self.canvas.spinner_since {
                            Some(t) => t,
                            None => now,
                        },
                    ),
                    spinner_frame: Some(frame),
                    ..self.canvas
                },
                ..self
            }
        }
    }

    /// The spinner's tile where it is needed and differs from the one on screen.
    pub open spec fn spinner_tiles(self, vp: Viewport, count: int, frame: usize, now: u64) -> Seq<
        Tile,
    > {
        if !self.canvas.grid_reveal_ready && !self.reveal_due(vp, count, now)
            && self.canvas.spinner_frame != Some(frame) {
            seq![Tile::SpinnerFrame(frame)]
        } else {
            seq![]
        }
    }
}

/// The number by which the texture of the title `id` goes: its place in the library as it came in,
/// behind the desktop.
pub open spec fn slot_of(ids: Seq<Seq<char>>, id: Seq<char>) -> usize {
    if index_in(ids, id) < ids.len() {
        (index_in(ids, id) + 1) as usize
    } else {
        usize::MAX
    }
}

/// The tiles of these cards, as far as they are rasterized.
pub open spec fn card_names(cards: Seq<Option<CardTile>>) -> Seq<Tile>
    decreases cards.len(),
{
    if cards.len() == 0 {
        seq![]
    } else {
        let before = card_names(cards.drop_last());
        match cards.last() {
            Some(c) => before.push(Tile::Card(c.slot)),
            None => before,
        }
    }
}

/// No card rasterized.
pub open spec fn no_cards(n: int) -> Seq<Option<CardTile>> {
    Seq::new(n as nat, |i: int| None)
}

/// The cards without those of `cells`.
pub open spec fn without_cards(cards: Seq<Option<CardTile>>, cells: Seq<usize>) -> Seq<
    Option<CardTile>,
> {
    Seq::new(
        cards.len(),
        |i: int|
            if cells.contains(i as usize) {
                None
            } else {
                cards[i]
            },
    )
}

/// The cards, with those that were hidden zooming in from now on.
pub open spec fn popping(cards: Seq<Option<CardTile>>, now: u64) -> Seq<Option<CardTile>> {
    Seq::new(
        cards.len(),
        |i: int|
            match cards[i] {
                Some(c) => Some(
                    CardTile {
                        slot: c.slot,
                        pop_since: Some(
                            match c.pop_since {
                                Some(t) => t,
                                None => now,
                            },
                        ),
                    },
                ),
                None => None,
            },
    )
}

/// How many of `n` cards one frame allows.
pub open spec fn within_budget(n: int) -> int {
    if n < CARD_BUILD_BUDGET {
        n
    } else {
        CARD_BUILD_BUDGET as int
    }
}

impl AppView {
    /// The tiles of the cards that `queue` lets one frame rasterize.
    pub open spec fn built_tiles(self, queue: Seq<usize>, columns: int) -> Seq<Tile> {
        Seq::new(
            within_budget(queue.len() as int) as nat,
            |i: int| Tile::Card(self.card_slot(queue[i] as int, columns)),
        )
    }
}

impl App {
    /// The number by which the texture of the card in cell `idx` goes.
    pub(crate) fn slot_at(&self, layout: &GridLayout, columns: usize, idx: usize) -> (slot: usize)
        requires
            self@.sized(columns as int),
            *layout == self@.layout(columns as int),
        ensures
            slot == self@.card_slot(idx as int, columns as int),
    {
        proof {
            lemma_layout_wf(self@, columns as int);
        }
        match layout.card_at(self.shelf.games.len(), idx) {
            None => usize::MAX,
            Some(GridCard::Desktop) => 0,
            Some(GridCard::Game(g)) => {
                proof {
                    lemma_index_in(self@.shelf.card_ids, self@.shelf.games[g as int].id);
                }
                match find_text(&self.shelf.card_ids, self.shelf.games[g].id.as_str()) {
                    Some(k) => k + 1,
                    None => usize::MAX,
                }
            },
        }
    }

    fn cell_near(&self, vp: &Viewport, margin: i32, idx: usize) -> (r: bool)
        requires
            self@.fits(*vp),
            0 <= margin <= 100,
            idx <= 0x7fff_ffff,
        ensures
            r == self@.near(*vp, margin as int, idx as int),
    {
        proof {
            reveal(AppView::near);
        }
        let stride: i32 = vp.card_h as i32 + vp.gap;
        let h: i32 = vp.screen_h as i32 - vp.top_y;
        let tall: i32 = if h > stride {
            h
        } else {
            stride
        };
        let rows: i32 = tall / stride + 1;
        let first: i32 = self.canvas.grid_scroll / stride;
        let row: i64 = (idx / vp.columns) as i64;
        proof {
            assert(tall / stride <= tall) by (nonlinear_arith)
                requires
                    tall >= 0,
                    stride >= 1,
            ;
            let scroll = self.canvas.grid_scroll;
            assert(0 <= scroll / stride <= scroll) by (nonlinear_arith)
                requires
                    scroll >= 0,
                    stride >= 1,
            ;
            assert(0 <= tall / stride) by (nonlinear_arith)
                requires
                    tall >= 0,
                    stride >= 1,
            ;
        }
        let lo: i64 = first as i64 - margin as i64;
        let hi: i64 = first as i64 + rows as i64 + margin as i64;
        lo <= row && row <= hi
    }

    fn art_ready(&self, layout: &GridLayout, columns: usize, idx: usize) -> (r: bool)
        requires
            self@.sized(columns as int),
            *layout == self@.layout(columns as int),
        ensures
            r == self@.cover_ready(idx as int, columns as int),
    {
        proof {
            lemma_layout_wf(self@, columns as int);
        }
        match layout.card_at(self.shelf.games.len(), idx) {
            Some(GridCard::Game(g)) => {
                let game = &self.shelf.games[g];
                proof {
                    lemma_index_in(self@.shelf.art, game.id@);
                }
                find_text(&self.shelf.art, game.id.as_str()).is_some() || (
                game.art.portrait.is_none() && game.art.header.is_none())
            },
            _ => true,
        }
    }

    /// Releases the textures of all cards.
    pub(crate) fn forget_textures(&mut self)
        ensures
            final(self)@ == (AppView {
                canvas: CanvasView {
                    evicted_tiles: old(self)@.canvas.evicted_tiles + card_names(
                        old(self)@.tiles.card_tiles,
                    ),
                    ..old(self)@.canvas
                },
                ..old(self)@
            }),
            final(self).tiles == old(self).tiles,
    {
        let ghost cards_then = self.tiles.card_tiles@;
        let mut i: usize = 0;
        assert(old(self)@.canvas.evicted_tiles + card_names(cards_then.take(0))
            =~= old(self)@.canvas.evicted_tiles);
        while i < self.tiles.card_tiles.len()
            invariant
                i <= self.tiles.card_tiles.len(),
                cards_then == self.tiles.card_tiles@,
                self.tiles == old(self).tiles,
                self@ == (AppView {
                    canvas: CanvasView {
                        evicted_tiles: old(self)@.canvas.evicted_tiles + card_names(
                            cards_then.take(i as int),
                        ),
                        ..old(self)@.canvas
                    },
                    ..old(self)@
                }),
            decreases self.tiles.card_tiles.len() - i,
        {
            match self.tiles.card_tiles[i] {
                Some(c) => {
                    self.canvas.evicted_tiles.push(Tile::Card(c.slot));
                },
                None => {},
            }
            assert(cards_then.take(i + 1).drop_last() =~= cards_then.take(i as int));
            assert(self.canvas.evicted_tiles@ =~= old(self)@.canvas.evicted_tiles + card_names(
                cards_then.take(i + 1),
            ));
            i += 1;
        }
        assert(cards_then.take(cards_then.len() as int) =~= cards_then);
    }

    fn clear_cards(&mut self, count: usize)
        ensures
            final(self)@ == old(self)@.cards_cleared(count as int),
    {
        self.forget_textures();
        let mut cards: Vec<Option<CardTile>> = Vec::new();
        let mut k: usize = 0;
        while k < count
            invariant
                k <= count,
                cards@ == no_cards(k as int),
            decreases count - k,
        {
            cards.push(None);
            assert(cards@ =~= no_cards(k + 1));
            k += 1;
        }
        self.tiles.card_tiles = cards;
        if self.canvas.grid_dirty {
            self.canvas.grid_reveal_ready = false;
            self.canvas.spinner_since = None;
            self.canvas.spinner_frame = None;
        }
        self.canvas.grid_dirty = false;
        self.canvas.grid_cards_dirty = Vec::new();
        assert(self.canvas.grid_cards_dirty@ =~= seq![]);
    }

    pub(crate) fn freshen_cards(&mut self)
        ensures
            final(self)@ == old(self)@.cards_freshened(),
    {
        let ghost cards = self.tiles.card_tiles@;
        let ghost cells = self.canvas.grid_cards_dirty@;
        let mut i: usize = 0;
        proof {
            assert(without_cards(cards, cells.take(0)) =~= cards);
        }
        while i < self.canvas.grid_cards_dirty.len()
            invariant
                i <= self.canvas.grid_cards_dirty.len(),
                cells == self.canvas.grid_cards_dirty@,
                cards == old(self).tiles.card_tiles@,
                self@ == old(self)@.cards_as(without_cards(cards, cells.take(i as int))),
            decreases self.canvas.grid_cards_dirty.len() - i,
        {
            let idx: usize = self.canvas.grid_cards_dirty[i];
            if idx < self.tiles.card_tiles.len() {
                self.tiles.card_tiles.set(idx, None);
            }
            proof {
                let before = cells.take(i as int);
                let after = cells.take(i + 1);
                assert(after =~= before.push(idx));
                assert forall|j: usize| after.contains(j) == (before.contains(j) || j == idx) by {
                    if before.contains(j) {
                        let k = choose|k: int| 0 <= k < before.len() && before[k] == j;
                        assert(after[k] == j);
                    }
                    assert(after[before.len() as int] == idx);
                }
                assert(self.tiles.card_tiles@ =~= without_cards(cards, after));
            }
            i += 1;
        }
        assert(cells.take(cells.len() as int) =~= cells);
        self.canvas.grid_cards_dirty = Vec::new();
        assert(self.canvas.grid_cards_dirty@ =~= seq![]);
    }

    pub(crate) fn drop_cards(&mut self, count: usize)
        ensures
            final(self)@ == old(self)@.cards_dropped(count as int),
            final(self)@.same_library(old(self)@),
            final(self)@.tiles.card_tiles.len() == count,
    {
        if self.canvas.grid_dirty || self.tiles.card_tiles.len() != count {
            self.clear_cards(count);
        } else {
            self.freshen_cards();
        }
    }

    fn drop_cover(&mut self, g: usize)
        requires
            g < old(self).shelf.games.len(),
        ensures
            final(self)@ == old(self)@.cover_dropped(g as int),
    {
        let id = self.shelf.games[g].id.clone();
        remove_text(&mut self.shelf.art, id.as_str());
        let mut loader = self.shelf.art_loader.take();
        match loader {
            Some(mut l) => {
                l.forget(id.as_str());
                self.shelf.art_loader = Some(l);
            },
            None => {},
        }
    }

    fn drop_card(&mut self, idx: usize)
        requires
            idx < old(self).tiles.card_tiles.len(),
            old(self).tiles.card_tiles[idx as int] is Some,
        ensures
            final(self)@ == old(self)@.card_dropped(idx as int),
            final(self).shelf == old(self).shelf,
    {
        if let Some(c) = self.tiles.card_tiles[idx] {
            self.tiles.card_tiles.set(idx, None);
            self.canvas.evicted_tiles.push(Tile::Card(c.slot));
        }
    }

    fn evict_cell(&mut self, layout: &GridLayout, vp: &Viewport, idx: usize)
        requires
            old(self)@.fits(*vp),
            *layout == old(self)@.layout(vp.columns as int),
            idx < old(self).tiles.card_tiles.len(),
            idx <= 0x7fff_ffff,
        ensures
            final(self)@ == old(self)@.cell_evicted(*vp, idx as int),
    {
        proof {
            lemma_layout_wf(self@, vp.columns as int);
        }
        if self.cell_near(vp, CARD_KEEP_ROWS, idx) || self.tiles.card_tiles[idx].is_none() {
            return ;
        }
        let game = layout.game_at(self.shelf.games.len(), idx);
        self.drop_card(idx);
        match game {
            Some(g) => {
                self.drop_cover(g);
            },
            None => {},
        }
    }

    fn want_cover(&mut self, layout: &GridLayout, vp: &Viewport, idx: usize)
        requires
            old(self)@.fits(*vp),
            *layout == old(self)@.layout(vp.columns as int),
            idx <= 0x7fff_ffff,
        ensures
            final(self)@ == old(self)@.cover_wanted(*vp, idx as int),
    {
        proof {
            lemma_layout_wf(self@, vp.columns as int);
        }
        let game = layout.game_at(self.shelf.games.len(), idx);
        if !self.cell_near(vp, CARD_PREFETCH_ROWS, idx) {
            return ;
        }
        match game {
            None => {},
            Some(g) => {
                let loader = self.shelf.art_loader.take();
                match loader {
                    Some(mut l) => {
                        l.request(&self.shelf.games[g]);
                        self.shelf.art_loader = Some(l);
                    },
                    None => {},
                }
            },
        }
    }
}

impl AppView {
    /// The same library and host list, laid out and scrolled the same way, behind the same modal.
    pub open spec fn same_library(self, other: AppView) -> bool {
        &&& self.hosts == other.hosts
        &&& self.shelf.games == other.shelf.games
        &&& self.shelf.pinned_count == other.shelf.pinned_count
        &&& self.shelf.card_ids == other.shelf.card_ids
        &&& self.shelf.games_loaded == other.shelf.games_loaded
        &&& self.canvas.grid_scroll == other.canvas.grid_scroll
        &&& self.canvas.grid_scroll_target == other.canvas.grid_scroll_target
        &&& self.tiles.pin_badge_tile == other.tiles.pin_badge_tile
        &&& self.nav == other.nav
        &&& self.prefs == other.prefs
        &&& self.pairing == other.pairing
    }

    /// The same, with as many cells.
    pub open spec fn same_grid(self, other: AppView) -> bool {
        self.same_library(other) && self.tiles.card_tiles.len() == other.tiles.card_tiles.len()
    }
}

/// The same library has the same shape, the same cards in the same cells, and the same rows in
/// view.
pub proof fn lemma_same_grid(s: AppView, t: AppView, vp: Viewport)
    requires
        t.same_library(s),
        s.fits(vp),
    ensures
        t.fits(vp),
        t.layout(vp.columns as int) == s.layout(vp.columns as int),
        t.grid_len(vp.columns as int) == s.grid_len(vp.columns as int),
        forall|idx: int|
            t.card_at(idx, vp.columns as int) == #[trigger] s.card_at(idx, vp.columns as int),
        forall|idx: int|
            t.card_slot(idx, vp.columns as int) == #[trigger] s.card_slot(idx, vp.columns as int),
        forall|m: int, idx: int| t.near(vp, m, idx) == #[trigger] s.near(vp, m, idx),
{
    reveal(AppView::near);
}

pub proof fn lemma_evicted_same_grid(s: AppView, vp: Viewport, n: int)
    requires
        n <= s.tiles.card_tiles.len(),
    ensures
        s.cells_evicted(vp, n).same_grid(s),
    decreases n,
{
    if n > 0 {
        lemma_evicted_same_grid(s, vp, n - 1);
    }
}

pub proof fn lemma_wanted_same_grid(s: AppView, vp: Viewport, n: int)
    ensures
        s.covers_wanted(vp, n).same_grid(s),
        s.covers_wanted(vp, n).tiles == s.tiles,
        s.covers_wanted(vp, n).shelf.art == s.shelf.art,
        s.covers_wanted(vp, n).canvas == s.canvas,
    decreases n,
{
    if n > 0 {
        lemma_wanted_same_grid(s, vp, n - 1);
    }
}

pub proof fn lemma_built_same_grid(s: AppView, queue: Seq<usize>, columns: int, n: int, now: u64)
    requires
        n <= queue.len(),
        forall|i: int| 0 <= i < queue.len() ==> #[trigger] queue[i] < s.tiles.card_tiles.len(),
    ensures
        s.cards_built(queue, columns, n, now).same_grid(s),
        s.cards_built(queue, columns, n, now).canvas == s.canvas,
        s.cards_built(queue, columns, n, now).shelf == s.shelf,
    decreases n,
{
    if n > 0 {
        lemma_built_same_grid(s, queue, columns, n - 1, now);
    }
}

pub proof fn lemma_missing_in_grid(s: AppView, vp: Viewport, ready: bool, n: int)
    requires
        n <= usize::MAX,
    ensures
        s.missing_cards(vp, ready, n).len() <= (if n > 0 { n } else { 0 }),
        forall|i: int|
            0 <= i < s.missing_cards(vp, ready, n).len() ==> 0 <= #[trigger] s.missing_cards(
                vp,
                ready,
                n,
            )[i] < n,
    decreases n,
{
    if n > 0 {
        lemma_missing_in_grid(s, vp, ready, n - 1);
    }
}

/// Releasing far cards touches the cards, the covers and the list of released tiles only.
pub(crate) proof fn lemma_evicted_frame(s: AppView, vp: Viewport, n: int)
    ensures
        ({
            let e = s.cells_evicted(vp, n);
            &&& e == AppView { canvas: e.canvas, tiles: e.tiles, shelf: e.shelf, ..s }
            &&& e.canvas == CanvasView { evicted_tiles: e.canvas.evicted_tiles, ..s.canvas }
            &&& e.tiles == TilesView { card_tiles: e.tiles.card_tiles, ..s.tiles }
            &&& e.shelf == ShelfView {
                art: e.shelf.art,
                art_loader: e.shelf.art_loader,
                ..s.shelf
            }
        }),
    decreases n,
{
    if n > 0 {
        lemma_evicted_frame(s, vp, n - 1);
    }
}

/// Asking for covers touches the library's covers only.
pub(crate) proof fn lemma_wanted_frame(s: AppView, vp: Viewport, n: int)
    ensures
        s.covers_wanted(vp, n) == (AppView { shelf: s.covers_wanted(vp, n).shelf, ..s }),
        s.covers_wanted(vp, n).shelf == (ShelfView {
            art_loader: s.covers_wanted(vp, n).shelf.art_loader,
            ..s.shelf
        }),
    decreases n,
{
    if n > 0 {
        lemma_wanted_frame(s, vp, n - 1);
    }
}

/// Rasterizing cards touches the cards only.
pub(crate) proof fn lemma_built_frame(
    s: AppView,
    queue: Seq<usize>,
    columns: int,
    n: int,
    now: u64,
)
    ensures
        s.cards_built(queue, columns, n, now) == s.cards_as(
            s.cards_built(queue, columns, n, now).tiles.card_tiles,
        ),
    decreases n,
{
    if n > 0 {
        lemma_built_frame(s, queue, columns, n - 1, now);
    }
}

impl App {
    pub(crate) fn evict_cells(&mut self, layout: &GridLayout, vp: &Viewport, count: usize)
        requires
            old(self)@.fits(*vp),
            *layout == old(self)@.layout(vp.columns as int),
            count == old(self).tiles.card_tiles.len(),
            count <= 0x7fff_ffff,
        ensures
            final(self)@ == old(self)@.cells_evicted(*vp, count as int),
            final(self)@.same_grid(old(self)@),
    {
        let mut i: usize = 0;
        while i < count
            invariant
                i <= count,
                old(self)@.fits(*vp),
                *layout == old(self)@.layout(vp.columns as int),
                count == old(self)@.tiles.card_tiles.len(),
                count <= 0x7fff_ffff,
                self@ == old(self)@.cells_evicted(*vp, i as int),
                self@.same_grid(old(self)@),
            decreases count - i,
        {
            proof {
                lemma_same_grid(old(self)@, self@, *vp);
                lemma_evicted_same_grid(old(self)@, *vp, i + 1);
            }
            self.evict_cell(layout, vp, i);
            i += 1;
        }
    }

    pub(crate) fn want_covers(&mut self, layout: &GridLayout, vp: &Viewport, count: usize)
        requires
            old(self)@.fits(*vp),
            *layout == old(self)@.layout(vp.columns as int),
            count <= 0x7fff_ffff,
        ensures
            final(self)@ == old(self)@.covers_wanted(*vp, count as int),
            final(self)@.same_grid(old(self)@),
    {
        let mut i: usize = 0;
        while i < count
            invariant
                i <= count,
                old(self)@.fits(*vp),
                *layout == old(self)@.layout(vp.columns as int),
                count <= 0x7fff_ffff,
                self@ == old(self)@.covers_wanted(*vp, i as int),
                self@.same_grid(old(self)@),
            decreases count - i,
        {
            proof {
                lemma_same_grid(old(self)@, self@, *vp);
                lemma_wanted_same_grid(old(self)@, *vp, i + 1);
            }
            self.want_cover(layout, vp, i);
            i += 1;
        }
    }

    fn queue_cards(&self, layout: &GridLayout, vp: &Viewport, count: usize) -> (queue: Vec<usize>)
        requires
            self@.fits(*vp),
            *layout == self@.layout(vp.columns as int),
            count == self.tiles.card_tiles.len(),
            count <= 0x7fff_ffff,
        ensures
            queue@ == self@.build_queue(*vp, count as int),
    {
        let mut ready: Vec<usize> = Vec::new();
        let mut waiting: Vec<usize> = Vec::new();
        let mut i: usize = 0;
        proof {
            lemma_layout_wf(self@, vp.columns as int);
        }
        while i < count
            invariant
                i <= count,
                self@.fits(*vp),
                *layout == self@.layout(vp.columns as int),
                layout.wf(self.shelf.games.len() as int, vp.columns as int),
                count == self.tiles.card_tiles.len(),
                count <= 0x7fff_ffff,
                ready@ == self@.missing_cards(*vp, true, i as int),
                waiting@ == self@.missing_cards(*vp, false, i as int),
            decreases count - i,
        {
            let missing = self.cell_near(vp, CARD_PREFETCH_ROWS, i) && layout.card_at(
                self.shelf.games.len(),
                i,
            ).is_some() && self.tiles.card_tiles[i].is_none();
            if missing {
                if self.art_ready(layout, vp.columns, i) {
                    ready.push(i);
                } else {
                    waiting.push(i);
                }
            }
            i += 1;
        }
        ready.append(&mut waiting);
        ready
    }

    fn build_card(&mut self, layout: &GridLayout, columns: usize, idx: usize, now: u64) -> (slot:
        usize)
        requires
            idx < old(self).tiles.card_tiles.len(),
            old(self)@.sized(columns as int),
            *layout == old(self)@.layout(columns as int),
        ensures
            final(self)@ == old(self)@.card_built(idx as int, columns as int, now),
            slot == old(self)@.card_slot(idx as int, columns as int),
    {
        let slot: usize = self.slot_at(layout, columns, idx);
        let pop_since: Option<u64> = if self.canvas.grid_reveal_ready {
            Some(now)
        } else {
            None
        };
        self.tiles.card_tiles.set(idx, Some(CardTile { slot, pop_since }));
        slot
    }

    pub(crate) fn fill_cards(
        &mut self,
        layout: &GridLayout,
        vp: &Viewport,
        count: usize,
        now: u64,
        updated: &mut Vec<Tile>,
    )
        requires
            old(self)@.fits(*vp),
            *layout == old(self)@.layout(vp.columns as int),
            count == old(self).tiles.card_tiles.len(),
            count <= 0x7fff_ffff,
        ensures
            final(self)@ == old(self)@.cards_filled(*vp, count as int, now),
            final(self)@.same_grid(old(self)@),
            final(updated)@ == old(updated)@ + old(self)@.built_tiles(
                old(self)@.build_queue(*vp, count as int),
                vp.columns as int,
            ),
    {
        let queue = self.queue_cards(layout, vp, count);
        proof {
            lemma_missing_in_grid(self@, *vp, true, count as int);
            lemma_missing_in_grid(self@, *vp, false, count as int);
        }
        let n: usize = if queue.len() < CARD_BUILD_BUDGET {
            queue.len()
        } else {
            CARD_BUILD_BUDGET
        };
        let ghost names = self@.built_tiles(queue@, vp.columns as int);
        let mut i: usize = 0;
        while i < n
            invariant
                i <= n <= queue.len(),
                n == within_budget(queue.len() as int),
                names == old(self)@.built_tiles(queue@, vp.columns as int),
                old(self)@.fits(*vp),
                *layout == old(self)@.layout(vp.columns as int),
                forall|k: int|
                    0 <= k < queue.len() ==> #[trigger] queue@[k] < old(
                        self,
                    )@.tiles.card_tiles.len(),
                self@ == old(self)@.cards_built(queue@, vp.columns as int, i as int, now),
                self@.same_grid(old(self)@),
                updated@ == old(updated)@ + names.take(i as int),
            decreases n - i,
        {
            let idx: usize = queue[i];
            proof {
                lemma_same_grid(old(self)@, self@, *vp);
            }
            let slot: usize = self.build_card(layout, vp.columns, idx, now);
            updated.push(Tile::Card(slot));
            proof {
                lemma_built_same_grid(old(self)@, queue@, vp.columns as int, i + 1, now);
                assert(names.take(i + 1) =~= names.take(i as int).push(Tile::Card(slot)));
                assert(updated@ =~= old(updated)@ + names.take(i + 1));
            }
            i += 1;
        }
        assert(names.take(n as int) =~= names);
        self.canvas.tiles_pending = queue.len() > CARD_BUILD_BUDGET;
    }

    fn is_window_ready(&self, layout: &GridLayout, vp: &Viewport, count: usize) -> (r: bool)
        requires
            self@.fits(*vp),
            *layout == self@.layout(vp.columns as int),
            count == self.tiles.card_tiles.len(),
            count <= 0x7fff_ffff,
        ensures
            r == self@.window_ready(*vp, count as int),
    {
        proof {
            lemma_layout_wf(self@, vp.columns as int);
        }
        let mut i: usize = 0;
        while i < count
            invariant
                i <= count,
                self@.fits(*vp),
                *layout == self@.layout(vp.columns as int),
                layout.wf(self.shelf.games.len() as int, vp.columns as int),
                count == self.tiles.card_tiles.len(),
                count <= 0x7fff_ffff,
                forall|idx: int|
                    0 <= idx < i && #[trigger] self@.near(*vp, CARD_PREFETCH_ROWS as int, idx)
                        && self@.card_at(idx, vp.columns as int) is Some
                        ==> self@.tiles.card_tiles[idx] is Some && self@.cover_ready(
                        idx,
                        vp.columns as int,
                    ),
            decreases count - i,
        {
            if self.cell_near(vp, CARD_PREFETCH_ROWS, i) && layout.card_at(
                self.shelf.games.len(),
                i,
            ).is_some() {
                if self.tiles.card_tiles[i].is_none() || !self.art_ready(layout, vp.columns, i) {
                    return false;
                }
            }
            i += 1;
        }
        true
    }

    fn pop_cards(&mut self, now: u64)
        ensures
            final(self)@ == old(self)@.cards_as(popping(old(self)@.tiles.card_tiles, now)),
    {
        let ghost cards = self.tiles.card_tiles@;
        let mut i: usize = 0;
        proof {
            assert(popping(cards, now).take(0) + cards.skip(0) =~= cards);
        }
        while i < self.tiles.card_tiles.len()
            invariant
                i <= cards.len(),
                cards == old(self).tiles.card_tiles@,
                self.tiles.card_tiles.len() == cards.len(),
                self@ == old(self)@.cards_as(popping(cards, now).take(i as int) + cards.skip(i as int)),
            decreases cards.len() - i,
        {
            match self.tiles.card_tiles[i] {
                Some(c) => {
                    if c.pop_since.is_none() {
                        self.tiles.card_tiles.set(
                            i,
                            Some(CardTile { slot: c.slot, pop_since: Some(now) }),
                        );
                    }
                },
                None => {},
            }
            proof {
                assert(self.tiles.card_tiles@ =~= popping(cards, now).take(i + 1) + cards.skip(
                    i + 1,
                ));
            }
            i += 1;
        }
        assert(popping(cards, now).take(cards.len() as int) + cards.skip(cards.len() as int)
            =~= popping(cards, now));
    }

    pub(crate) fn reveal_grid(
        &mut self,
        layout: &GridLayout,
        vp: &Viewport,
        count: usize,
        frame: usize,
        now: u64,
        updated: &mut Vec<Tile>,
    )
        requires
            old(self)@.fits(*vp),
            *layout == old(self)@.layout(vp.columns as int),
            count == old(self).tiles.card_tiles.len(),
            count <= 0x7fff_ffff,
        ensures
            final(self)@ == old(self)@.revealed(*vp, count as int, frame, now),
            final(updated)@ == old(updated)@ + old(self)@.spinner_tiles(
                *vp,
                count as int,
                frame,
                now,
            ),
    {
        if self.canvas.grid_reveal_ready {
            assert(updated@ =~= old(updated)@ + seq![]);
            return ;
        }
        let ready = self.is_window_ready(layout, vp, count);
        let waited = match self.canvas.spinner_since {
            Some(t) => since(now, t) >= SPINNER_MAX_WAIT,
            None => false,
        };
        if ready || waited {
            self.pop_cards(now);
            self.canvas.grid_reveal_ready = true;
            self.canvas.spinner_since = None;
            self.canvas.spinner_frame = None;
            assert(updated@ =~= old(updated)@ + seq![]);
        } else {
            if self.canvas.spinner_since.is_none() {
                self.canvas.spinner_since = Some(now);
            }
            let shown = match self.canvas.spinner_frame {
                Some(f) => f == frame,
                None => false,
            };
            if !shown {
                self.canvas.spinner_frame = Some(frame);
                updated.push(Tile::SpinnerFrame(frame));
            }
            assert(updated@ =~= old(updated)@ + old(self)@.spinner_tiles(
                *vp,
                count as int,
                frame,
                now,
            ));
        }
    }
}

/// A card's number stands for the card: no two cells with a card share one, and an empty cell has
/// that of no card.
pub proof fn law_card_number_is_its_own(s: AppView, columns: int, a: int, b: int)
    requires
        s.sized(columns),
        s.cards_numbered(),
        s.card_at(a, columns) is Some,
        a != b,
    ensures
        s.card_slot(a, columns) != s.card_slot(b, columns),
        s.card_slot(a, columns) < usize::MAX,
{
    let n = s.shelf.games.len() as int;
    let ids = s.shelf.card_ids;
    let layout = s.layout(columns);
    lemma_layout_wf(s, columns);
    lemma_cells(layout, n, columns);
    if let Some(GridCard::Game(g)) = s.card_at(a, columns) {
        lemma_index_in(ids, s.shelf.games[g as int].id);
    }
    if let Some(GridCard::Game(g)) = s.card_at(b, columns) {
        lemma_index_in(ids, s.shelf.games[g as int].id);
    }
    if s.card_at(a, columns) == s.card_at(b, columns) {
        law_cards_distinct(layout, n, columns, a, b);
    }
}

/// Cards far out of view are released, all of them; those closer keep what they have.
pub proof fn law_far_cards_released(s: AppView, vp: Viewport, n: int, idx: int)
    requires
        s.fits(vp),
        0 <= idx < n <= s.tiles.card_tiles.len(),
    ensures
        s.cells_evicted(vp, n).tiles.card_tiles[idx] == (if s.near(vp, CARD_KEEP_ROWS as int, idx) {
            s.tiles.card_tiles[idx]
        } else {
            None
        }),
    decreases n,
{
    let before = s.cells_evicted(vp, n - 1);
    lemma_evicted_same_grid(s, vp, n - 1);
    lemma_same_grid(s, before, vp);
    if idx < n - 1 {
        law_far_cards_released(s, vp, n - 1, idx);
    } else {
        lemma_untouched(s, vp, n - 1, idx);
    }
}

proof fn lemma_untouched(s: AppView, vp: Viewport, n: int, idx: int)
    requires
        n <= idx < s.tiles.card_tiles.len(),
    ensures
        s.cells_evicted(vp, n).tiles.card_tiles[idx] == s.tiles.card_tiles[idx],
    decreases n,
{
    if n > 0 {
        lemma_untouched(s, vp, n - 1, idx);
        lemma_evicted_same_grid(s, vp, n - 1);
    }
}

/// The cards waiting to be rasterized are exactly the missing ones.
pub proof fn law_queue_is_missing(s: AppView, vp: Viewport, count: int, idx: usize)
    requires
        0 <= idx < count <= usize::MAX,
    ensures
        s.build_queue(vp, count).contains(idx) == s.missing(vp, idx as int),
{
    let ready = s.missing_cards(vp, true, count);
    let waiting = s.missing_cards(vp, false, count);
    lemma_missing_exactly(s, vp, true, count, idx);
    lemma_missing_exactly(s, vp, false, count, idx);
    let queue = ready + waiting;
    if ready.contains(idx) {
        let k = choose|k: int| 0 <= k < ready.len() && ready[k] == idx;
        assert(queue[k] == idx);
    }
    if waiting.contains(idx) {
        let k = choose|k: int| 0 <= k < waiting.len() && waiting[k] == idx;
        assert(queue[ready.len() + k] == idx);
    }
    if queue.contains(idx) {
        let k = choose|k: int| 0 <= k < queue.len() && queue[k] == idx;
        if k < ready.len() {
            assert(ready[k] == idx);
        } else {
            assert(waiting[k - ready.len()] == idx);
        }
    }
}

proof fn lemma_missing_exactly(s: AppView, vp: Viewport, ready: bool, n: int, idx: usize)
    requires
        n <= usize::MAX,
    ensures
        s.missing_cards(vp, ready, n).contains(idx) == (idx < n && s.missing(vp, idx as int)
            && s.cover_ready(idx as int, vp.columns as int) == ready),
    decreases n,
{
    if n > 0 {
        lemma_missing_exactly(s, vp, ready, n - 1, idx);
        let before = s.missing_cards(vp, ready, n - 1);
        let all = s.missing_cards(vp, ready, n);
        if before.contains(idx) {
            let k = choose|k: int| 0 <= k < before.len() && before[k] == idx;
            assert(all[k] == idx);
        }
        if all.len() > before.len() {
            assert(all[before.len() as int] == n - 1);
        }
        if all.contains(idx) && idx != n - 1 {
            let k = choose|k: int| 0 <= k < all.len() && all[k] == idx;
            assert(k < before.len());
            assert(before[k] == idx);
        }
    }
}

/// A card with its cover is rasterized before one that still waits for it.
pub proof fn law_covers_first(s: AppView, vp: Viewport, count: int, idx: usize)
    requires
        0 <= idx < count <= usize::MAX,
        s.missing(vp, idx as int),
        s.cover_ready(idx as int, vp.columns as int),
    ensures
        s.build_queue(vp, count).len() > 0,
        s.cover_ready(s.build_queue(vp, count)[0] as int, vp.columns as int),
{
    lemma_missing_exactly(s, vp, true, count, idx);
    let ready = s.missing_cards(vp, true, count);
    let k = choose|k: int| 0 <= k < ready.len() && ready[k] == idx;
    assert(ready.contains(ready[0]));
    lemma_missing_exactly(s, vp, true, count, ready[0]);
}

/// Each frame rasterizes one card, the first that waits, as long as any does: that card then
/// waits no more, and no other comes to wait. So the grid fills up, and a grid that is full has
/// nothing rasterized.
pub proof fn law_frame_fills_one_card(s: AppView, vp: Viewport, count: int, now: u64, idx: usize)
    requires
        s.fits(vp),
        idx < count <= s.tiles.card_tiles.len(),
        count <= usize::MAX,
    ensures
        s.build_queue(vp, count).len() == 0 ==> s.built_tiles(
            s.build_queue(vp, count),
            vp.columns as int,
        ) == Seq::<Tile>::empty(),
        s.build_queue(vp, count).len() > 0 ==> s.built_tiles(
            s.build_queue(vp, count),
            vp.columns as int,
        ) == seq![
            Tile::Card(s.card_slot(s.build_queue(vp, count)[0] as int, vp.columns as int)),
        ],
        s.cards_filled(vp, count, now).missing(vp, idx as int) == (s.missing(vp, idx as int)
            && idx != s.build_queue(vp, count)[0]),
{
    let queue = s.build_queue(vp, count);
    let t = s.cards_filled(vp, count, now);
    law_queue_is_missing(s, vp, count, idx);
    reveal_with_fuel(AppView::cards_built, 2);
    assert(t.same_library(s));
    lemma_same_grid(s, t, vp);
    if queue.len() > 0 {
        let first = queue[0];
        let ready = s.missing_cards(vp, true, count);
        let waiting = s.missing_cards(vp, false, count);
        assert(ready.contains(first) || waiting.contains(first)) by {
            if ready.len() > 0 {
                assert(ready[0] == first);
            } else {
                assert(waiting[0] == first);
            }
        }
        lemma_missing_exactly(s, vp, true, count, first);
        lemma_missing_exactly(s, vp, false, count, first);
        assert(t.tiles.card_tiles[idx as int] == (if idx == first {
            s.card_built(first as int, vp.columns as int, now).tiles.card_tiles[first as int]
        } else {
            s.tiles.card_tiles[idx as int]
        }));
        assert(s.built_tiles(queue, vp.columns as int) =~= seq![
            Tile::Card(s.card_slot(queue[0] as int, vp.columns as int)),
        ]);
    } else {
        assert(s.built_tiles(queue, vp.columns as int) =~= Seq::<Tile>::empty());
    }
}

/// A card about to be seen is never released, so that releasing far cards leaves none to rasterize
/// that was not missing before.
pub proof fn law_release_leaves_none_missing(s: AppView, vp: Viewport, n: int, idx: int)
    requires
        s.fits(vp),
        0 <= idx < n <= s.tiles.card_tiles.len(),
    ensures
        s.cells_evicted(vp, n).missing(vp, idx) == s.missing(vp, idx),
{
    law_far_cards_released(s, vp, n, idx);
    lemma_evicted_same_grid(s, vp, n);
    lemma_same_grid(s, s.cells_evicted(vp, n), vp);
    reveal(AppView::near);
}

/// The grid is revealed as soon as every card about to be seen is rasterized with its cover, even
/// beside the empty cells of a row that the pinned cards do not fill.
pub proof fn law_full_window_is_revealed(
    s: AppView,
    vp: Viewport,
    count: int,
    frame: usize,
    now: u64,
)
    requires
        forall|idx: int|
            0 <= idx < count && #[trigger] s.near(vp, CARD_PREFETCH_ROWS as int, idx) ==> !s.missing(
                vp,
                idx,
            ) && s.cover_ready(idx, vp.columns as int),
    ensures
        s.revealed(vp, count, frame, now).canvas.grid_reveal_ready,
{
}

/// Once revealed, the grid stays revealed: scrolling, covers and new pins do not bring the
/// spinner back.
pub proof fn law_reveal_stays(s: AppView, vp: Viewport, count: int, frame: usize, now: u64)
    requires
        s.canvas.grid_reveal_ready,
        !s.canvas.grid_dirty,
    ensures
        s.cards_dropped(count).canvas.grid_reveal_ready,
        s.revealed(vp, count, frame, now).canvas.grid_reveal_ready,
{
}

/// The texture of a card goes by the place that its game had in the library as it came in,
/// behind the desktop's, whatever cell the card is in.
pub proof fn law_texture_goes_by_the_game(s: AppView, columns: int, idx: int, k: int)
    requires
        s.shelf.card_ids.no_duplicates(),
        0 <= k < s.shelf.card_ids.len() < usize::MAX,
    ensures
        s.card_at(idx, columns) == Some(GridCard::Desktop) ==> s.card_slot(idx, columns) == 0,
        s.card_at(idx, columns) matches Some(GridCard::Game(g)) ==> (s.shelf.games[g as int].id
            == s.shelf.card_ids[k] ==> s.card_slot(idx, columns) == k + 1),
{
    if let Some(GridCard::Game(g)) = s.card_at(idx, columns) {
        if s.shelf.games[g as int].id == s.shelf.card_ids[k] {
            lemma_index_in(s.shelf.card_ids, s.shelf.card_ids[k]);
            let j = index_in(s.shelf.card_ids, s.shelf.card_ids[k]);
            assert(s.shelf.card_ids[j] == s.shelf.card_ids[k]);
        }
    }
}

/// A card that reaches into the screen counts as about to be seen, however the grid is scrolled,
/// so that it is rasterized and never released.
pub proof fn law_card_in_view_is_near(s: AppView, vp: Viewport, idx: int, y: int, pad: int)
    requires
        s.fits(vp),
        0 <= idx,
        0 <= pad,
        vp.top_y + vp.section_gap + pad <= vp.card_h + 2 * vp.gap,
        vp.cell(idx).1 - s.canvas.grid_scroll <= y <= vp.cell(idx).1 + vp.section_gap
            - s.canvas.grid_scroll,
        y + vp.card_h + pad >= 0,
        y - pad <= vp.screen_h,
    ensures
        s.near(vp, 2, idx),
        s.near(vp, 5, idx),
{
    reveal(AppView::near);
    let stride = vp.stride();
    let row = idx / vp.columns as int;
    let scroll = s.canvas.grid_scroll as int;
    let first = scroll / stride;
    let h = vp.screen_h - vp.top_y;
    let view = if h > stride {
        h
    } else {
        stride
    };
    let n = view / stride;
    assert(first * stride <= scroll < first * stride + stride) by (nonlinear_arith)
        requires
            first == scroll / stride,
            stride >= 1,
    ;
    assert(n * stride <= view < n * stride + stride) by (nonlinear_arith)
        requires
            n == view / stride,
            stride >= 1,
    ;
    if row < first - 2 {
        assert(row * stride <= (first - 3) * stride) by (nonlinear_arith)
            requires
                row <= first - 3,
                stride >= 1,
        ;
        assert((first - 3) * stride == first * stride - 3 * stride) by (nonlinear_arith);
    }
    if row > first + n + 1 + 2 {
        assert(row * stride >= (first + n + 4) * stride) by (nonlinear_arith)
            requires
                row >= first + n + 4,
                stride >= 1,
        ;
        assert((first + n + 4) * stride == first * stride + n * stride + 4 * stride)
            by (nonlinear_arith);
    }
}

/// A card is kept within five rows of the view and rasterized within two: what is near by the
/// narrower measure is near by the wider, and the measure counts rows.
pub proof fn law_nearness_counts_rows(s: AppView, vp: Viewport, margin: int, idx: int)
    requires
        s.fits(vp),
        0 <= margin,
        0 <= idx,
    ensures
        ({
            let row = idx / vp.columns as int;
            let first = s.canvas.grid_scroll as int / (vp.card_h + vp.gap);
            &&& s.near(vp, margin, idx) ==> s.near(vp, margin + 1, idx)
            &&& s.near(vp, margin, idx) ==> first - margin <= row
            &&& row == first ==> s.near(vp, margin, idx)
            &&& row < first - margin ==> !s.near(vp, margin, idx)
            &&& (row - margin - 1) * (vp.card_h + vp.gap) > s.canvas.grid_scroll + vp.screen_h
                + vp.card_h + vp.gap ==> !s.near(vp, margin, idx)
        }),
{
    reveal(AppView::near);
    let stride = vp.stride();
    let row = idx / vp.columns as int;
    let scroll = s.canvas.grid_scroll as int;
    let first = scroll / stride;
    let h = vp.screen_h - vp.top_y;
    let view = if h > stride {
        h
    } else {
        stride
    };
    let n = view / stride;
    assert(first * stride <= scroll) by (nonlinear_arith)
        requires
            first == scroll / stride,
            stride >= 1,
    ;
    assert(n * stride <= view) by (nonlinear_arith)
        requires
            n == view / stride,
            stride >= 1,
    ;
    assert(n >= 0) by (nonlinear_arith)
        requires
            n == view / stride,
            view >= 0,
            stride >= 1,
    ;
    if s.near(vp, margin, idx) {
        assert((row - margin - 1) * stride <= (first + n) * stride) by (nonlinear_arith)
            requires
                row - margin - 1 <= first + n,
                stride >= 1,
        ;
        assert((first + n) * stride == first * stride + n * stride) by (nonlinear_arith);
    }
}

/// Stale cards are dropped, and no other: all of them where the grid is stale as a whole, those
/// noted otherwise. A library that was just loaded hides behind the spinner from then on.
pub proof fn law_stale_cards_are_dropped(s: AppView, count: int, i: int)
    requires
        0 <= i < count <= usize::MAX,
    ensures
        ({
            let t = s.cards_dropped(count);
            let all = s.canvas.grid_dirty || s.tiles.card_tiles.len() != count;
            &&& t.tiles.card_tiles.len() == count
            &&& all ==> t.tiles.card_tiles[i] is None
            &&& !all ==> t.tiles.card_tiles[i] == (if s.canvas.grid_cards_dirty.contains(
                i as usize,
            ) {
                None
            } else {
                s.tiles.card_tiles[i]
            })
            &&& t.canvas.grid_cards_dirty.len() == 0 && (all ==> !t.canvas.grid_dirty)
            &&& s.canvas.grid_dirty ==> !t.canvas.grid_reveal_ready
            &&& !s.canvas.grid_dirty ==> t.canvas.grid_reveal_ready == s.canvas.grid_reveal_ready
            &&& t.shelf == s.shelf && t.nav == s.nav
        }),
{
}

/// The grid is revealed once every card about to be seen is there with its cover, or 900 ms after
/// the spinner came up; until then the spinner turns, timed from its first frame. Cards that were
/// hidden zoom in from the moment that they are revealed.
pub proof fn law_grid_is_revealed_in_time(
    s: AppView,
    vp: Viewport,
    count: int,
    frame: usize,
    now: u64,
)
    requires
        !s.canvas.grid_reveal_ready,
    ensures
        ({
            let t = s.revealed(vp, count, frame, now);
            let waited = s.canvas.spinner_since matches Some(at) && now >= at + 900;
            &&& waited || s.window_ready(vp, count) ==> t.canvas.grid_reveal_ready
                && t.canvas.spinner_since is None && t.canvas.spinner_frame is None
            &&& !waited && !s.window_ready(vp, count) ==> !t.canvas.grid_reveal_ready
                && t.canvas.spinner_frame == Some(frame) && t.canvas.spinner_since == Some(
                match s.canvas.spinner_since {
                    Some(at) => at,
                    None => now,
                },
            ) && t.tiles == s.tiles
            &&& t.tiles.card_tiles.len() == s.tiles.card_tiles.len()
            &&& t.canvas.grid_reveal_ready ==> forall|i: int|
                0 <= i < t.tiles.card_tiles.len() ==> match s.tiles.card_tiles[i] {
                    Some(c) => #[trigger] t.tiles.card_tiles[i] == Some(
                        CardTile {
                            slot: c.slot,
                            pop_since: Some(
                                match c.pop_since {
                                    Some(at) => at,
                                    None => now,
                                },
                            ),
                        },
                    ),
                    None => t.tiles.card_tiles[i] is None,
                }
        }),
{
}

/// The cover of a game is asked for where its card is about to be seen and a loader is there, and
/// for no other card.
pub proof fn law_covers_are_asked_for_near_the_view(s: AppView, vp: Viewport, idx: int)
    ensures
        ({
            let t = s.cover_wanted(vp, idx);
            let wanted = s.shelf.art_loader is Some && s.near(vp, 2, idx) && s.card_at(
                idx,
                vp.columns as int,
            ) is Some && s.card_at(idx, vp.columns as int)->0 is Game;
            &&& !wanted ==> t == s
            &&& wanted ==> t.shelf.art_loader == Some(
                s.shelf.art_loader->0.after_request(
                    s.shelf.games[(s.card_at(idx, vp.columns as int)->0)->Game_0 as int],
                ),
            ) && t.shelf.games == s.shelf.games && t.shelf.art == s.shelf.art && t.tiles == s.tiles
        }),
{
}

proof fn lemma_covers_wanted_keeps(s: AppView, vp: Viewport, n: int)
    requires
        s.shelf.art_loader is Some,
    ensures
        ({
            let t = s.covers_wanted(vp, n);
            &&& t.shelf.art_loader is Some
            &&& t == (AppView {
                shelf: ShelfView { art_loader: t.shelf.art_loader, ..s.shelf },
                ..s
            })
        }),
    decreases n,
{
    if n > 0 {
        lemma_covers_wanted_keeps(s, vp, n - 1);
    }
}

/// Every cover that is about to be seen has been asked for, in whichever cell it is.
pub proof fn law_every_near_cover_is_asked_for(s: AppView, vp: Viewport, n: int, idx: int, g: int)
    requires
        s.shelf.art_loader is Some,
        0 <= idx < n,
        s.near(vp, 2, idx),
        s.game_in(idx, vp.columns as int) == Some(g),
    ensures
        s.covers_wanted(vp, n).shelf.art_loader is Some,
        s.covers_wanted(vp, n).shelf.art_loader->0.requested.contains(s.shelf.games[g].id),
    decreases n,
{
    let t = s.covers_wanted(vp, n - 1);
    lemma_covers_wanted_keeps(s, vp, n - 1);
    let loader = t.shelf.art_loader->0;
    let id = s.shelf.games[g].id;
    assert(t.game_in(idx, vp.columns as int) == s.game_in(idx, vp.columns as int));
    assert(t.near(vp, 2, idx) == s.near(vp, 2, idx)) by {
        reveal(AppView::near);
    }
    if idx == n - 1 {
        let after = loader.after_request(s.shelf.games[g]);
        if !loader.requested.contains(id) {
            assert(after.requested[after.requested.len() - 1] == id);
        }
    } else {
        law_every_near_cover_is_asked_for(s, vp, n - 1, idx, g);
        match t.game_in(n - 1, vp.columns as int) {
            Some(k) => {
                let after = loader.after_request(t.shelf.games[k]);
                let i = choose|i: int| 0 <= i < loader.requested.len() && loader.requested[i] == id;
                assert(after.requested[i] == id);
            },
            None => {},
        }
    }
}

} // verus!
