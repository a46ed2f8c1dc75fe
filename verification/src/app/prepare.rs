//! Which tiles have to be rasterized again for the next frame.
use vstd::prelude::*;

use crate::app::cards::{
    law_frame_fills_one_card, law_queue_is_missing, law_release_leaves_none_missing,
    lemma_built_frame, lemma_built_same_grid, lemma_evicted_frame, lemma_evicted_same_grid,
    lemma_missing_in_grid, lemma_same_grid, lemma_wanted_frame, lemma_wanted_same_grid,
    within_budget,
};
use crate::app::grid::GridLayout;
use crate::app::modal::{ABOUT_WINDOW_BUDGET, ABOUT_WINDOW_MARGIN};
use crate::app::navigate::lemma_grid_len_bound;
use crate::app::scroll::{law_recentred_window_stays, law_window_before_view};
use crate::app::speedtest::BitrateRange;
use crate::app::tiles::TilesView;
use crate::app::{App, AppView, CanvasView, HomeFocus, Nav, Prefs, Screen, ShelfView};
use crate::compositor::Tile;
use crate::geometry::{Rect, Viewport, MAX_LENGTH};
use crate::library::clone_opt;

verus! {

broadcast use crate::seqs::group_views;

/// How much of a list there is, how much of it is in view, and where it lies.
#[derive(Clone, Copy, Debug)]
pub struct ScrollGeometry {
    pub total: usize,
    pub visible: usize,
    pub card: Rect,
    pub content: Rect,
    /// Pixels from one unit to the next.
    pub stride: i32,
}

/// What the widgets measure on this screen, with these fonts.
#[derive(Clone, Copy, Debug)]
pub struct Scene {
    /// Transparent space around a card, around the focus ring and around a row.
    pub card_pad: i32,
    pub ring_pad: i32,
    pub row_pad: i32,
    /// The edge of the pin badge.
    pub badge: u32,
    /// The spinner's frame at this moment, and its size.
    pub spinner_frame: usize,
    pub spinner_w: u32,
    pub spinner_h: u32,
    /// The size of the hint that no host is selected.
    pub hint_w: u32,
    pub hint_h: u32,
    /// The size of the status text, and the height of one of its lines.
    pub status_w: u32,
    pub status_h: u32,
    pub status_line_h: u32,
    /// The focused row of the sidebar, and its settings row.
    pub sidebar_row: Rect,
    pub settings_row: Rect,
    /// The focused widget of the modal.
    pub widget: Rect,
    /// The open list of choices, and the focused one among them.
    pub overlay: Rect,
    pub option: Rect,
    pub settings: ScrollGeometry,
    pub about: ScrollGeometry,
    pub bitrates: BitrateRange,
}

/// One tile where `stale`.
pub open spec fn tile_if(stale: bool, tile: Tile) -> Seq<Tile> {
    if stale {
        seq![tile]
    } else {
        seq![]
    }
}

pub(crate) fn push_if(updated: &mut Vec<Tile>, stale: bool, tile: Tile)
    ensures
        final(updated)@ == old(updated)@ + tile_if(stale, tile),
{
    if stale {
        updated.push(tile);
    }
    assert(updated@ =~= old(updated)@ + tile_if(stale, tile));
}

impl AppView {
    /// After noticing that another screen is up.
    pub open spec fn screen_seen(self, now: u64) -> AppView {
        if self.nav.screen == self.nav.last_screen {
            self
        } else {
            AppView {
                nav: Nav {
                    last_screen: self.nav.screen,
                    modal_fade: self.nav.modal_fade.moved(
                        self.nav.last_screen,
                        self.nav.screen,
                        now,
                    ),
                    ..self.nav
                },
                ..self
            }
        }
    }

    /// Whether the sidebar has to be rasterized.
    pub open spec fn sidebar_due(self) -> bool {
        self.canvas.sidebar_dirty || !self.tiles.sidebar_layer
    }

    /// After rasterizing the sidebar where that is due; what its rows say may have changed.
    pub open spec fn sidebar_drawn(self) -> AppView {
        if self.sidebar_due() {
            AppView {
                canvas: CanvasView { sidebar_dirty: false, ..self.canvas },
                tiles: TilesView {
                    sidebar_layer: true,
                    focused_row_tile: None,
                    ..self.tiles
                },
                ..self
            }
        } else {
            self
        }
    }

    /// The focused sidebar row, and whether its menu button is the focused part.
    pub open spec fn sidebar_focus(self) -> Option<(usize, bool)> {
        match self.nav.home_focus {
            HomeFocus::Sidebar(i) => Some((i, false)),
            HomeFocus::SidebarMenu(i) => Some((i, true)),
            HomeFocus::Grid(_) => None,
        }
    }

    /// Whether the focused sidebar row has to be rasterized.
    pub open spec fn focus_row_due(self) -> bool {
        self.sidebar_focus() is Some && self.tiles.focused_row_tile != self.sidebar_focus()
    }

    /// After rasterizing the focused sidebar row where that is due.
    pub open spec fn focus_row_drawn(self) -> AppView {
        if self.focus_row_due() {
            AppView {
                tiles: TilesView { focused_row_tile: self.sidebar_focus(), ..self.tiles },
                ..self
            }
        } else {
            self
        }
    }

    /// The width of the focus ring's tile.
    pub open spec fn ring_width(vp: Viewport, scene: Scene) -> int {
        vp.card_w + 2 * scene.ring_pad
    }

    /// After rasterizing the tiles that all cards share, and the status line.
    pub open spec fn shared_drawn(self, vp: Viewport, scene: Scene) -> AppView {
        AppView {
            tiles: TilesView {
                ring_tile: Some(AppView::ring_width(vp, scene) as u32),
                status_tile: self.home_status,
                ..self.tiles
            },
            ..self
        }
    }

    /// The tiles rasterized for that.
    pub open spec fn shared_tiles(self, vp: Viewport, scene: Scene) -> Seq<Tile> {
        tile_if(
            self.tiles.ring_tile != Some(AppView::ring_width(vp, scene) as u32),
            Tile::Ring,
        ) + tile_if(
            self.home_status is Some && self.tiles.status_tile != self.home_status,
            Tile::Status,
        )
    }

    /// With the pin badge rasterized.
    pub open spec fn badge_drawn(self) -> AppView {
        AppView { tiles: TilesView { pin_badge_tile: true, ..self.tiles }, ..self }
    }

    /// With no cards waiting.
    pub open spec fn nothing_pending(self) -> AppView {
        AppView { canvas: CanvasView { tiles_pending: false, ..self.canvas }, ..self }
    }

    /// The state in which the cards to rasterize are chosen: stale and far cards are dropped, and
    /// covers about to be seen are asked for.
    pub open spec fn grid_swept(self, vp: Viewport) -> AppView {
        let count = self.grid_len(vp.columns as int);
        self.cards_dropped(count).cells_evicted(vp, count).covers_wanted(vp, count)
    }

    /// The state in which it is decided whether to reveal the grid.
    pub open spec fn grid_filled(self, vp: Viewport, now: u64) -> AppView {
        self.grid_swept(vp).cards_filled(vp, self.grid_len(vp.columns as int), now).badge_drawn()
    }

    /// After preparing the grid of the selected host.
    pub open spec fn grid_drawn(self, vp: Viewport, scene: Scene, now: u64) -> AppView {
        self.grid_filled(vp, now).revealed(
            vp,
            self.grid_len(vp.columns as int),
            scene.spinner_frame,
            now,
        ).shared_drawn(vp, scene)
    }

    /// The tiles rasterized for that.
    pub open spec fn grid_tiles(self, vp: Viewport, scene: Scene, now: u64) -> Seq<Tile> {
        let count = self.grid_len(vp.columns as int);
        let filled = self.grid_filled(vp, now);
        self.filled_tiles(vp) + filled.spinner_tiles(vp, count, scene.spinner_frame, now) + filled.revealed(
            vp,
            count,
            scene.spinner_frame,
            now,
        ).shared_tiles(vp, scene)
    }

    /// After preparing the place of the grid while no host is selected.
    pub open spec fn hint_drawn(self) -> AppView {
        AppView {
            canvas: CanvasView { grid_reveal_ready: true, spinner_since: None, ..self.canvas },
            tiles: TilesView { nohost_tile: true, ..self.tiles },
            ..self
        }
    }

    /// After preparing the right side of Home.
    pub open spec fn home_drawn(self, vp: Viewport, scene: Scene, now: u64) -> AppView {
        if self.hosts.selected_host is Some {
            self.nothing_pending().grid_drawn(vp, scene, now)
        } else {
            self.nothing_pending().hint_drawn()
        }
    }

    /// The tiles rasterized for that.
    pub open spec fn home_tiles(self, vp: Viewport, scene: Scene, now: u64) -> Seq<Tile> {
        if self.hosts.selected_host is Some {
            self.nothing_pending().grid_tiles(vp, scene, now)
        } else {
            tile_if(!self.tiles.nohost_tile, Tile::NoHost)
        }
    }
}

impl Scene {
    /// Lengths are those of a screen.
    pub open spec fn valid(self) -> bool {
        &&& 0 <= self.card_pad <= MAX_LENGTH
        &&& 0 <= self.ring_pad <= MAX_LENGTH
        &&& 0 <= self.row_pad <= MAX_LENGTH
        &&& self.badge <= MAX_LENGTH
        &&& self.spinner_w <= MAX_LENGTH
        &&& self.spinner_h <= MAX_LENGTH
        &&& self.hint_w <= MAX_LENGTH
        &&& self.hint_h <= MAX_LENGTH
        &&& self.status_w <= MAX_LENGTH
        &&& self.status_h <= MAX_LENGTH
        &&& self.status_line_h <= MAX_LENGTH
        &&& on_screen(self.sidebar_row)
        &&& on_screen(self.settings_row)
        &&& on_screen(self.widget)
        &&& on_screen(self.overlay)
        &&& on_screen(self.option)
        &&& self.settings.valid()
        &&& self.about.valid()
    }
}

/// Coordinates are those of a screen, or a little out of it.
pub open spec fn on_screen(r: Rect) -> bool {
    &&& -MAX_LENGTH <= r.x <= MAX_LENGTH
    &&& -MAX_LENGTH <= r.y <= MAX_LENGTH
    &&& r.w <= MAX_LENGTH
    &&& r.h <= MAX_LENGTH
}

impl ScrollGeometry {
    /// Lengths are those of a screen, and the list of a document.
    pub open spec fn valid(self) -> bool {
        &&& self.total <= 0x1000_0000
        &&& self.visible <= 0x1000_0000
        &&& on_screen(self.card)
        &&& on_screen(self.content)
        &&& 0 <= self.stride
        &&& self.total * self.stride <= 0x4000_0000
    }
}

impl App {
    fn see_screen(&mut self, now: u64) -> (changed: bool)
        ensures
            final(self)@ == old(self)@.screen_seen(now),
            changed == (old(self)@.nav.screen != old(self)@.nav.last_screen),
    {
        let left = self.nav.last_screen;
        let to = self.nav.screen;
        if left == to {
            return false;
        }
        self.nav.last_screen = to;
        self.nav.modal_fade.switch(left, to, now);
        true
    }

    fn draw_sidebar(&mut self, updated: &mut Vec<Tile>)
        ensures
            final(self)@ == old(self)@.sidebar_drawn(),
            final(updated)@ == old(updated)@ + tile_if(old(self)@.sidebar_due(), Tile::Sidebar),
    {
        let due = self.canvas.sidebar_dirty || !self.tiles.sidebar_layer;
        if due {
            self.canvas.sidebar_dirty = false;
            self.tiles.sidebar_layer = true;
            self.tiles.focused_row_tile = None;
        }
        push_if(updated, due, Tile::Sidebar);
    }

    fn draw_focus_row(&mut self, updated: &mut Vec<Tile>)
        ensures
            final(self)@ == old(self)@.focus_row_drawn(),
            final(updated)@ == old(updated)@ + tile_if(
                old(self)@.focus_row_due(),
                Tile::FocusRow,
            ),
    {
        let key: (usize, bool) = match self.nav.home_focus {
            HomeFocus::Sidebar(i) => (i, false),
            HomeFocus::SidebarMenu(i) => (i, true),
            HomeFocus::Grid(_) => {
                push_if(updated, false, Tile::FocusRow);
                return ;
            },
        };
        let fresh = match self.tiles.focused_row_tile {
            Some((i, menu)) => i == key.0 && menu == key.1,
            None => false,
        };
        if !fresh {
            self.tiles.focused_row_tile = Some(key);
        }
        push_if(updated, !fresh, Tile::FocusRow);
    }

    fn draw_shared(&mut self, vp: &Viewport, scene: &Scene, updated: &mut Vec<Tile>)
        requires
            vp.valid(),
            scene.valid(),
        ensures
            final(self)@ == old(self)@.shared_drawn(*vp, *scene),
            final(updated)@ == old(updated)@ + old(self)@.shared_tiles(*vp, *scene),
    {
        let w: u32 = vp.card_w + 2 * scene.ring_pad as u32;
        let fresh = match self.tiles.ring_tile {
            Some(have) => have == w,
            None => false,
        };
        self.tiles.ring_tile = Some(w);
        push_if(updated, !fresh, Tile::Ring);
        let status_due = match (&self.home_status, &self.tiles.status_tile) {
            (Some(s), Some(t)) => *s != *t,
            (Some(_), None) => true,
            (None, _) => false,
        };
        self.tiles.status_tile = clone_opt(&self.home_status);
        push_if(updated, status_due, Tile::Status);
        assert(updated@ =~= old(updated)@ + old(self)@.shared_tiles(*vp, *scene));
    }

    fn sweep_grid(&mut self, layout: &GridLayout, vp: &Viewport, count: usize)
        requires
            old(self)@.fits(*vp),
            *layout == old(self)@.layout(vp.columns as int),
            count == old(self)@.grid_len(vp.columns as int),
            count <= 0x7fff_ffff,
        ensures
            final(self)@ == old(self)@.grid_swept(*vp),
            final(self)@.same_library(old(self)@),
            final(self)@.tiles.card_tiles.len() == count,
    {
        self.drop_cards(count);
        proof {
            lemma_same_grid(old(self)@, self@, *vp);
        }
        self.evict_cells(layout, vp, count);
        proof {
            lemma_same_grid(old(self)@, self@, *vp);
        }
        self.want_covers(layout, vp, count);
    }
}

impl AppView {
    /// The same screen, settings and pairing.
    pub open spec fn same_modal(self, other: AppView) -> bool {
        self.nav == other.nav && self.prefs == other.prefs && self.pairing == other.pairing
    }

    /// The tiles rasterized for the cards and their badge.
    pub open spec fn filled_tiles(self, vp: Viewport) -> Seq<Tile> {
        self.grid_swept(vp).built_tiles(
            self.grid_swept(vp).build_queue(vp, self.grid_len(vp.columns as int)),
            vp.columns as int,
        ) + tile_if(!self.tiles.pin_badge_tile, Tile::PinBadge)
    }
}

impl App {
    fn fill_grid(
        &mut self,
        layout: &GridLayout,
        vp: &Viewport,
        count: usize,
        now: u64,
        updated: &mut Vec<Tile>,
    )
        requires
            old(self)@.fits(*vp),
            *layout == old(self)@.layout(vp.columns as int),
            count == old(self)@.grid_len(vp.columns as int),
            count <= 0x7fff_ffff,
        ensures
            final(self)@ == old(self)@.grid_filled(*vp, now),
            final(self)@.fits(*vp),
            final(self)@.layout(vp.columns as int) == *layout,
            final(self)@.tiles.card_tiles.len() == count,
            final(self)@.same_modal(old(self)@),
            final(updated)@ == old(updated)@ + old(self)@.filled_tiles(*vp),
    {
        self.sweep_grid(layout, vp, count);
        proof {
            lemma_same_grid(old(self)@, self@, *vp);
        }
        self.fill_cards(layout, vp, count, now, updated);
        proof {
            lemma_same_grid(old(self)@, self@, *vp);
        }
        let badge_due = !self.tiles.pin_badge_tile;
        let ghost unbadged = self@;
        self.tiles.pin_badge_tile = true;
        push_if(updated, badge_due, Tile::PinBadge);
        assert(self@ == unbadged.badge_drawn());
        assert(updated@ =~= old(updated)@ + old(self)@.filled_tiles(*vp));
    }

    fn draw_grid(&mut self, vp: &Viewport, scene: &Scene, now: u64, updated: &mut Vec<Tile>)
        requires
            old(self)@.fits(*vp),
            scene.valid(),
        ensures
            final(self)@ == old(self)@.grid_drawn(*vp, *scene, now),
            final(self)@.same_modal(old(self)@),
            final(updated)@ == old(updated)@ + old(self)@.grid_tiles(*vp, *scene, now),
    {
        let count: usize = self.grid_len(vp.columns);
        let layout = self.grid_layout(vp.columns);
        proof {
            lemma_grid_len_bound(self@, *vp);
        }
        self.fill_grid(&layout, vp, count, now, updated);
        self.reveal_grid(&layout, vp, count, scene.spinner_frame, now, updated);
        self.draw_shared(vp, scene, updated);
        assert(updated@ =~= old(updated)@ + old(self)@.grid_tiles(*vp, *scene, now));
    }

    fn draw_home(&mut self, vp: &Viewport, scene: &Scene, now: u64, updated: &mut Vec<Tile>)
        requires
            old(self)@.fits(*vp),
            scene.valid(),
        ensures
            final(self)@ == old(self)@.home_drawn(*vp, *scene, now),
            final(self)@.same_modal(old(self)@),
            final(updated)@ == old(updated)@ + old(self)@.home_tiles(*vp, *scene, now),
    {
        self.canvas.tiles_pending = false;
        if self.hosts.selected_host.is_some() {
            self.draw_grid(vp, scene, now, updated);
        } else {
            self.canvas.grid_reveal_ready = true;
            self.canvas.spinner_since = None;
            let due = !self.tiles.nohost_tile;
            self.tiles.nohost_tile = true;
            push_if(updated, due, Tile::NoHost);
        }
    }
}

impl AppView {
    /// Whether another screen is up than on the last frame.
    pub open spec fn screen_changed(self) -> bool {
        self.nav.screen != self.nav.last_screen
    }

    /// The state once the sidebar is prepared.
    pub open spec fn side_prepared(self, now: u64) -> AppView {
        self.screen_seen(now).sidebar_drawn().focus_row_drawn()
    }

    /// The state once all of Home is prepared.
    pub open spec fn home_prepared(self, vp: Viewport, scene: Scene, now: u64) -> AppView {
        self.side_prepared(now).home_drawn(vp, scene, now)
    }

    /// After preparing the modal's shell and focused widget. `changed` tells whether the modal
    /// has just been opened.
    pub open spec fn face_drawn(self, scene: Scene, changed: bool, content_dirty: bool) -> AppView {
        self.shell_drawn(scene.bitrates, changed, content_dirty).focus_drawn(scene.bitrates)
    }

    /// The tiles rasterized for that.
    pub open spec fn face_tiles(self, scene: Scene, changed: bool, content_dirty: bool) -> Seq<
        Tile,
    > {
        tile_if(self.shell_due(scene.bitrates, changed, content_dirty), Tile::Modal) + tile_if(
            self.shell_drawn(scene.bitrates, changed, content_dirty).focus_due(scene.bitrates),
            Tile::ModalFocusElement,
        )
    }

    /// After preparing the modal.
    pub open spec fn modal_drawn(self, scene: Scene, changed: bool, content_dirty: bool) -> AppView {
        self.face_drawn(scene, changed, content_dirty).dropdown_drawn().scroll_drawn(scene)
    }

    /// The tiles rasterized for that.
    pub open spec fn modal_tiles(self, scene: Scene, changed: bool, content_dirty: bool) -> Seq<
        Tile,
    > {
        let face = self.face_drawn(scene, changed, content_dirty);
        self.face_tiles(scene, changed, content_dirty) + face.dropdown_tiles()
            + face.dropdown_drawn().scroll_tiles(scene)
    }

    /// The state once everything is prepared.
    pub open spec fn prepared(
        self,
        vp: Viewport,
        scene: Scene,
        content_dirty: bool,
        now: u64,
    ) -> AppView {
        self.home_prepared(vp, scene, now).modal_drawn(scene, self.screen_changed(), content_dirty)
    }

    /// The tiles rasterized for the sidebar.
    pub open spec fn side_tiles(self, now: u64) -> Seq<Tile> {
        let seen = self.screen_seen(now);
        tile_if(seen.sidebar_due(), Tile::Sidebar) + tile_if(
            seen.sidebar_drawn().focus_row_due(),
            Tile::FocusRow,
        )
    }

    /// The tiles rasterized for the next frame, in order.
    pub open spec fn prepared_tiles(
        self,
        vp: Viewport,
        scene: Scene,
        content_dirty: bool,
        now: u64,
    ) -> Seq<Tile> {
        self.side_tiles(now) + self.side_prepared(now).home_tiles(vp, scene, now)
            + self.home_prepared(vp, scene, now).modal_tiles(
            scene,
            self.screen_changed(),
            content_dirty,
        )
    }

    /// The grid has screen coordinates, and the rasterized part of a document is small.
    pub open spec fn drawable(self, vp: Viewport) -> bool {
        &&& self.fits(vp)
        &&& self.pairing.wf()
        &&& self.prefs.content_window.start + self.prefs.content_window.len <= 0x4000_0000
    }
}

impl App {
    fn prepare_side(&mut self, now: u64, updated: &mut Vec<Tile>) -> (changed: bool)
        ensures
            final(self)@ == old(self)@.side_prepared(now),
            changed == old(self)@.screen_changed(),
            final(updated)@ == old(updated)@ + old(self)@.side_tiles(now),
    {
        let changed = self.see_screen(now);
        self.draw_sidebar(updated);
        self.draw_focus_row(updated);
        assert(updated@ =~= old(updated)@ + old(self)@.side_tiles(now));
        changed
    }

    fn prepare_home(&mut self, vp: &Viewport, scene: &Scene, now: u64, updated: &mut Vec<Tile>) -> (
        changed: bool)
        requires
            old(self)@.drawable(*vp),
            scene.valid(),
        ensures
            final(self)@ == old(self)@.home_prepared(*vp, *scene, now),
            final(self)@.pairing == old(self)@.pairing,
            final(self)@.prefs == old(self)@.prefs,
            changed == old(self)@.screen_changed(),
            final(updated)@ == old(updated)@ + old(self)@.side_tiles(now) + old(
                self,
            )@.side_prepared(now).home_tiles(*vp, *scene, now),
    {
        let changed = self.prepare_side(now, updated);
        self.draw_home(vp, scene, now, updated);
        changed
    }

    fn prepare_face(
        &mut self,
        scene: &Scene,
        changed: bool,
        content_dirty: bool,
        updated: &mut Vec<Tile>,
    )
        requires
            old(self)@.pairing.wf(),
        ensures
            final(self)@ == old(self)@.face_drawn(*scene, changed, content_dirty),
            final(self)@.prefs == old(self)@.prefs,
            final(updated)@ == old(updated)@ + old(self)@.face_tiles(
                *scene,
                changed,
                content_dirty,
            ),
    {
        self.draw_shell(&scene.bitrates, changed, content_dirty, updated);
        self.draw_focus(&scene.bitrates, updated);
        assert(updated@ =~= old(updated)@ + old(self)@.face_tiles(*scene, changed, content_dirty));
    }

    fn prepare_modal(
        &mut self,
        scene: &Scene,
        changed: bool,
        content_dirty: bool,
        updated: &mut Vec<Tile>,
    )
        requires
            scene.valid(),
            old(self)@.pairing.wf(),
            old(self)@.prefs.content_window.start + old(self)@.prefs.content_window.len
                <= 0x4000_0000,
        ensures
            final(self)@ == old(self)@.modal_drawn(*scene, changed, content_dirty),
            final(updated)@ == old(updated)@ + old(self)@.modal_tiles(
                *scene,
                changed,
                content_dirty,
            ),
    {
        self.prepare_face(scene, changed, content_dirty, updated);
        self.draw_dropdown(updated);
        self.draw_scroll(scene, updated);
        assert(updated@ =~= old(updated)@ + old(self)@.modal_tiles(*scene, changed, content_dirty));
    }

    /// Decides which tiles have to be rasterized for the next frame, and notes them as rasterized.
    /// The caller rasterizes and uploads those returned, in order; `cell_of_card` tells where a
    /// card is. `content_dirty` tells whether anything but an animation has happened since the
    /// last frame.
    pub fn prepare_tiles(
        &mut self,
        vp: &Viewport,
        scene: &Scene,
        content_dirty: bool,
        now: u64,
    ) -> (updated: Vec<Tile>)
        requires
            old(self)@.drawable(*vp),
            scene.valid(),
        ensures
            final(self)@ == old(self)@.prepared(*vp, *scene, content_dirty, now),
            updated@ == old(self)@.prepared_tiles(*vp, *scene, content_dirty, now),
    {
        let mut updated: Vec<Tile> = Vec::new();
        let changed = self.prepare_home(vp, scene, now, &mut updated);
        self.prepare_modal(scene, changed, content_dirty, &mut updated);
        assert(updated@ =~= old(self)@.prepared_tiles(*vp, *scene, content_dirty, now));
        updated
    }
}

/// Preparing the grid leaves the library, the screen and the settings alone.
proof fn lemma_filled_same_library(s: AppView, vp: Viewport, now: u64)
    requires
        s.fits(vp),
    ensures
        s.grid_swept(vp).same_library(s),
        s.grid_swept(vp).tiles.card_tiles.len() == s.grid_len(vp.columns as int),
        s.grid_filled(vp, now).same_modal(s),
        s.grid_filled(vp, now).fits(vp),
{
    let count = s.grid_len(vp.columns as int);
    lemma_grid_len_bound(s, vp);
    let dropped = s.cards_dropped(count);
    lemma_evicted_same_grid(dropped, vp, count);
    let evicted = dropped.cells_evicted(vp, count);
    lemma_wanted_same_grid(evicted, vp, count);
    let swept = s.grid_swept(vp);
    lemma_same_grid(s, swept, vp);
    lemma_missing_in_grid(swept, vp, true, count);
    lemma_missing_in_grid(swept, vp, false, count);
    let queue = swept.build_queue(vp, count);
    lemma_built_same_grid(
        swept,
        queue,
        vp.columns as int,
        within_budget(queue.len() as int),
        now,
    );
    lemma_same_grid(
        s,
        swept.cards_built(queue, vp.columns as int, within_budget(queue.len() as int), now),
        vp,
    );
}

/// Once prepared, a document is rasterized from a line at or before the first one in view, so
/// that the frame can be drawn.
pub proof fn law_prepared_document_in_view(
    s: AppView,
    vp: Viewport,
    scene: Scene,
    content_dirty: bool,
    now: u64,
)
    requires
        s.drawable(vp),
        scene.valid(),
        s.nav.screen == Screen::About,
    ensures
        s.prepared(vp, scene, content_dirty, now).document_in_view(scene),
{
    reveal(AppView::scroll_drawn);
    reveal(AppView::dropdown_drawn);
    let side = s.side_prepared(now);
    if side.hosts.selected_host is Some {
        lemma_filled_same_library(side.nothing_pending(), vp, now);
    }
    let home = s.home_prepared(vp, scene, now);
    assert(home.prefs == s.prefs);
    assert(home.nav.screen == Screen::About);
    let g = scene.about;
    law_window_before_view(
        s.prefs.scroll.kept(g.total as int, g.visible as int),
        g.visible as int,
        g.total as int,
        ABOUT_WINDOW_BUDGET as int,
    );
}

/// What a modal looks like does not depend on what is rasterized of it.
proof fn lemma_keys_kept(s: AppView, scene: Scene, changed: bool, content_dirty: bool)
    ensures
        ({
            let shell = s.shell_drawn(scene.bitrates, changed, content_dirty);
            let t = s.modal_drawn(scene, changed, content_dirty);
            &&& shell.focus_key(scene.bitrates) == s.focus_key(scene.bitrates)
            &&& t.shell_key(scene.bitrates) == s.shell_key(scene.bitrates)
            &&& t.focus_key(scene.bitrates) == s.focus_key(scene.bitrates)
            &&& t.shell_drawn(scene.bitrates, false, false).focus_key(scene.bitrates)
                == s.focus_key(scene.bitrates)
        }),
{
    reveal(AppView::shell_key);
    reveal(AppView::focus_key);
    reveal(AppView::scroll_drawn);
    reveal(AppView::dropdown_drawn);
}

impl ScrollGeometry {
    /// The part of a document that is rasterized at once has room for what is in view and for the
    /// margins around it.
    pub open spec fn roomy(self) -> bool {
        0 < self.total && self.visible + 2 * ABOUT_WINDOW_MARGIN <= ABOUT_WINDOW_BUDGET
    }
}

/// Once the content of a list is rasterized, it stays so until the list changes or moves.
proof fn lemma_content_settles(s: AppView, g: ScrollGeometry)
    requires
        g.valid(),
        s.nav.screen == Screen::About ==> g.roomy(),
    ensures
        !s.content_drawn(g).content_due(g),
        s.content_drawn(g).indicator_key(g) == s.indicator_key(g),
        s.content_drawn(g).nav == s.nav,
{
    if s.nav.screen == Screen::About {
        law_recentred_window_stays(
            s.prefs.scroll.kept(g.total as int, g.visible as int),
            g.visible as int,
            g.total as int,
            ABOUT_WINDOW_BUDGET as int,
            ABOUT_WINDOW_MARGIN as int,
        );
    }
}

/// A modal that has been prepared needs nothing rasterized while only animations go on.
pub proof fn law_settled_modal_rasterizes_nothing(
    s: AppView,
    scene: Scene,
    changed: bool,
    content_dirty: bool,
)
    requires
        scene.valid(),
        s.nav.switch_anim is None,
        s.nav.screen == Screen::About ==> scene.about.roomy(),
    ensures
        s.modal_drawn(scene, changed, content_dirty).modal_tiles(scene, false, false) == Seq::<
            Tile,
        >::empty(),
{
    let t = s.modal_drawn(scene, changed, content_dirty);
    reveal(AppView::scroll_drawn);
    reveal(AppView::dropdown_drawn);
    reveal(AppView::scroll_tiles);
    reveal(AppView::dropdown_tiles);
    lemma_keys_kept(s, scene, changed, content_dirty);
    assert(t.shell_key(scene.bitrates) == s.shell_key(scene.bitrates));
    assert(t.focus_key(scene.bitrates) == s.focus_key(scene.bitrates));
    match scene.scroll_on(s.nav.screen) {
        Some(g) => {
            let listed = s.face_drawn(scene, changed, content_dirty).dropdown_drawn();
            let marked = AppView {
                tiles: TilesView {
                    scroll_indicator_tile: Some(listed.indicator_key(g)),
                    ..listed.tiles
                },
                ..listed
            };
            lemma_content_settles(marked, g);
        },
        None => {},
    }
    assert(t.modal_tiles(scene, false, false) =~= Seq::<Tile>::empty());
}

/// A sidebar that has been prepared needs nothing rasterized until something on it changes.
pub proof fn law_settled_sidebar_rasterizes_nothing(s: AppView, now: u64, later: u64)
    ensures
        s.side_prepared(now).side_tiles(later) == Seq::<Tile>::empty(),
{
    assert(s.side_prepared(now).side_tiles(later) =~= Seq::<Tile>::empty());
}

/// Preparing the grid touches what it rasterizes, the covers and the spinner only.
proof fn lemma_filled_frame(s: AppView, vp: Viewport, now: u64)
    requires
        s.fits(vp),
    ensures
        ({
            let f = s.grid_filled(vp, now);
            &&& f.same_library(s.badge_drawn())
            &&& f == AppView { canvas: f.canvas, tiles: f.tiles, shelf: f.shelf, ..s }
            &&& f.tiles == TilesView {
                card_tiles: f.tiles.card_tiles,
                pin_badge_tile: true,
                ..s.tiles
            }
            &&& f.tiles.card_tiles.len() == s.grid_len(vp.columns as int)
            &&& f.shelf == ShelfView {
                art: f.shelf.art,
                art_loader: f.shelf.art_loader,
                ..s.shelf
            }
            &&& f.canvas.pin_move_anim == s.canvas.pin_move_anim
            &&& f.canvas.sidebar_dirty == s.canvas.sidebar_dirty
            &&& !f.canvas.grid_dirty
            &&& f.canvas.grid_cards_dirty == Seq::<usize>::empty()
        }),
{
    let count = s.grid_len(vp.columns as int);
    lemma_filled_same_library(s, vp, now);
    let dropped = s.cards_dropped(count);
    lemma_evicted_frame(dropped, vp, count);
    lemma_wanted_frame(dropped.cells_evicted(vp, count), vp, count);
    lemma_wanted_same_grid(dropped.cells_evicted(vp, count), vp, count);
    let swept = s.grid_swept(vp);
    let queue = swept.build_queue(vp, count);
    lemma_built_frame(
        swept,
        queue,
        vp.columns as int,
        within_budget(queue.len() as int),
        now,
    );
    lemma_grid_len_bound(s, vp);
    lemma_missing_in_grid(swept, vp, true, count);
    lemma_missing_in_grid(swept, vp, false, count);
    lemma_built_same_grid(
        swept,
        queue,
        vp.columns as int,
        within_budget(queue.len() as int),
        now,
    );
}

/// A grid with no card waiting has every card about to be seen.
proof fn lemma_filled_none_missing(s: AppView, vp: Viewport, now: u64, idx: usize)
    requires
        s.fits(vp),
        idx < s.grid_len(vp.columns as int),
        !s.grid_filled(vp, now).canvas.tiles_pending,
    ensures
        !s.grid_filled(vp, now).missing(vp, idx as int),
{
    let count = s.grid_len(vp.columns as int);
    let swept = s.grid_swept(vp);
    lemma_filled_same_library(s, vp, now);
    lemma_grid_len_bound(s, vp);
    lemma_same_grid(s, swept, vp);
    law_queue_is_missing(swept, vp, count, idx);
    law_frame_fills_one_card(swept, vp, count, now, idx);
    let filled = swept.cards_filled(vp, count, now);
    lemma_filled_frame(s, vp, now);
    let f = s.grid_filled(vp, now);
    assert(f == filled.badge_drawn());
    lemma_built_frame(
        swept,
        swept.build_queue(vp, count),
        vp.columns as int,
        within_budget(swept.build_queue(vp, count).len() as int),
        now,
    );
    assert(filled.same_library(swept));
    lemma_same_grid(swept, filled, vp);
    reveal(AppView::near);
    assert(f.missing(vp, idx as int) == filled.missing(vp, idx as int));
}

/// A grid that lacks no card about to be seen, and of which none is stale, has nothing rasterized.
proof fn lemma_full_grid_settles(t: AppView, vp: Viewport, scene: Scene, now: u64)
    requires
        t.fits(vp),
        !t.cards_stale(t.grid_len(vp.columns as int)),
        t.canvas.grid_cards_dirty == Seq::<usize>::empty(),
        forall|idx: usize|
            idx < t.grid_len(vp.columns as int) ==> !#[trigger] t.missing(vp, idx as int),
        t.tiles.pin_badge_tile,
        t.canvas.grid_reveal_ready,
        t.tiles.ring_tile == Some(AppView::ring_width(vp, scene) as u32),
        t.tiles.status_tile == t.home_status,
    ensures
        t.grid_tiles(vp, scene, now) == Seq::<Tile>::empty(),
{
    let count = t.grid_len(vp.columns as int);
    lemma_grid_len_bound(t, vp);
    let dropped = t.cards_dropped(count);
    assert(dropped.tiles.card_tiles =~= t.tiles.card_tiles);
    assert(dropped == t);
    let evicted = t.cells_evicted(vp, count);
    lemma_evicted_same_grid(t, vp, count);
    lemma_same_grid(t, evicted, vp);
    lemma_evicted_frame(t, vp, count);
    let swept = t.grid_swept(vp);
    lemma_wanted_same_grid(evicted, vp, count);
    lemma_wanted_frame(evicted, vp, count);
    lemma_same_grid(evicted, swept, vp);
    let queue = swept.build_queue(vp, count);
    lemma_missing_in_grid(swept, vp, true, count);
    lemma_missing_in_grid(swept, vp, false, count);
    if queue.len() > 0 {
        let first = queue[0];
        assert(queue.contains(first));
        let ready = swept.missing_cards(vp, true, count);
        let waiting = swept.missing_cards(vp, false, count);
        assert(first < count) by {
            if ready.len() > 0 {
                assert(ready[0] == first);
            } else {
                assert(waiting[0] == first);
            }
        }
        law_queue_is_missing(swept, vp, count, first);
        assert(evicted.missing(vp, first as int));
        law_release_leaves_none_missing(t, vp, count, first as int);
        assert(!t.missing(vp, first as int));
    }
    assert(queue.len() == 0);
    lemma_filled_frame(t, vp, now);
    lemma_built_frame(swept, queue, vp.columns as int, 0, now);
    let filled = t.grid_filled(vp, now);
    assert(filled.canvas.grid_reveal_ready);
    assert(t.filled_tiles(vp) =~= Seq::<Tile>::empty());
    assert(t.grid_tiles(vp, scene, now) =~= Seq::<Tile>::empty());
}

/// What an open modal looks like does not depend on the grid behind it.
proof fn lemma_keys_over_grid(a: AppView, b: AppView, scene: Scene)
    requires
        b == (AppView { canvas: b.canvas, shelf: b.shelf, tiles: b.tiles, ..a }),
    ensures
        b.shell_key(scene.bitrates) == a.shell_key(scene.bitrates),
        b.focus_key(scene.bitrates) == a.focus_key(scene.bitrates),
{
    assert(b.menu_entry() == a.menu_entry());
    assert(b.menu_title() == a.menu_title());
    assert(b.menu_subtitle() == a.menu_subtitle());
    assert(b.actions() == a.actions());
    assert(b.wake_settings_for() == a.wake_settings_for());
    reveal(AppView::shell_key);
    reveal(AppView::focus_key);
}

/// What is rasterized of an open modal does not depend on the grid behind it.
proof fn lemma_modal_over_grid(a: AppView, b: AppView, scene: Scene, changed: bool, dirty: bool)
    requires
        b == (AppView { canvas: b.canvas, shelf: b.shelf, tiles: b.tiles, ..a }),
        b.tiles == (TilesView {
            card_tiles: b.tiles.card_tiles,
            ring_tile: b.tiles.ring_tile,
            status_tile: b.tiles.status_tile,
            pin_badge_tile: b.tiles.pin_badge_tile,
            nohost_tile: b.tiles.nohost_tile,
            ..a.tiles
        }),
    ensures
        b.modal_tiles(scene, changed, dirty) == a.modal_tiles(scene, changed, dirty),
{
    lemma_keys_over_grid(a, b, scene);
    lemma_keys_kept(a, scene, changed, dirty);
    lemma_keys_kept(b, scene, changed, dirty);
    let fa = a.face_drawn(scene, changed, dirty);
    let fb = b.face_drawn(scene, changed, dirty);
    assert(a.face_tiles(scene, changed, dirty) == b.face_tiles(scene, changed, dirty));
    assert(fa.dropdown_tiles() == fb.dropdown_tiles()) by {
        reveal(AppView::dropdown_tiles);
    }
    assert(fa.dropdown_drawn().scroll_tiles(scene) == fb.dropdown_drawn().scroll_tiles(scene)) by {
        reveal(AppView::scroll_tiles);
        reveal(AppView::dropdown_drawn);
    }
}

/// What preparing the right side of Home touches.
proof fn lemma_home_frame(s: AppView, vp: Viewport, scene: Scene, now: u64)
    requires
        s.fits(vp),
    ensures
        ({
            let b = s.home_drawn(vp, scene, now);
            &&& b == AppView { canvas: b.canvas, shelf: b.shelf, tiles: b.tiles, ..s }
            &&& b.tiles == TilesView {
                card_tiles: b.tiles.card_tiles,
                ring_tile: b.tiles.ring_tile,
                status_tile: b.tiles.status_tile,
                pin_badge_tile: b.tiles.pin_badge_tile,
                nohost_tile: b.tiles.nohost_tile,
                ..s.tiles
            }
            &&& b.shelf == ShelfView {
                art: b.shelf.art,
                art_loader: b.shelf.art_loader,
                ..s.shelf
            }
            &&& b.canvas.sidebar_dirty == s.canvas.sidebar_dirty
            &&& b.canvas.pin_move_anim == s.canvas.pin_move_anim
            &&& b.canvas.grid_scroll == s.canvas.grid_scroll
            &&& b.canvas.grid_scroll_target == s.canvas.grid_scroll_target
        }),
{
    if s.hosts.selected_host is Some {
        lemma_filled_frame(s.nothing_pending(), vp, now);
    }
}

/// The grid of a frame that has caught up needs nothing rasterized on the next.
proof fn lemma_home_settles(s: AppView, t: AppView, vp: Viewport, scene: Scene, now: u64, later: u64)
    requires
        s.fits(vp),
        t == (AppView { tiles: t.tiles, prefs: t.prefs, ..s.home_drawn(vp, scene, now) }),
        t.tiles.card_tiles == s.home_drawn(vp, scene, now).tiles.card_tiles,
        t.tiles.ring_tile == s.home_drawn(vp, scene, now).tiles.ring_tile,
        t.tiles.status_tile == s.home_drawn(vp, scene, now).tiles.status_tile,
        t.tiles.pin_badge_tile == s.home_drawn(vp, scene, now).tiles.pin_badge_tile,
        t.tiles.nohost_tile == s.home_drawn(vp, scene, now).tiles.nohost_tile,
        !t.canvas.tiles_pending,
        t.canvas.grid_reveal_ready,
    ensures
        t.home_tiles(vp, scene, later) == Seq::<Tile>::empty(),
        t.fits(vp),
{
    let p = s.nothing_pending();
    assert(p.fits(vp));
    if s.hosts.selected_host is Some {
        lemma_filled_frame(p, vp, now);
        let count = p.grid_len(vp.columns as int);
        let f = p.grid_filled(vp, now);
        assert(!f.canvas.tiles_pending);
        reveal(AppView::near);
        assert forall|idx: usize| idx < count implies !#[trigger] t.missing(vp, idx as int) by {
            lemma_filled_none_missing(p, vp, now, idx);
            assert(!f.missing(vp, idx as int));
            assert(t.tiles.card_tiles[idx as int] is None ==> f.tiles.card_tiles[idx as int] is None);
        }
        assert(t.grid_len(vp.columns as int) == count);
        lemma_full_grid_settles(t, vp, scene, later);
        assert(t.nothing_pending() == t);
    }
    assert(t.home_tiles(vp, scene, later) =~= Seq::<Tile>::empty());
}

/// What is rasterized of the sidebar does not depend on what lies beside it.
proof fn lemma_side_settles(side: AppView, t: AppView, later: u64)
    requires
        !side.screen_changed(),
        !side.sidebar_due(),
        !side.focus_row_due(),
        t.nav == side.nav,
        t.canvas.sidebar_dirty == side.canvas.sidebar_dirty,
        t.tiles.sidebar_layer == side.tiles.sidebar_layer,
        t.tiles.focused_row_tile == side.tiles.focused_row_tile,
    ensures
        t.side_prepared(later) == t,
        !t.screen_changed(),
        t.side_tiles(later) == Seq::<Tile>::empty(),
{
    assert(t.side_tiles(later) =~= Seq::<Tile>::empty());
}

/// What preparing a modal touches.
proof fn lemma_modal_frame(h: AppView, scene: Scene, changed: bool, dirty: bool)
    ensures
        ({
            let t = h.modal_drawn(scene, changed, dirty);
            &&& t == AppView { tiles: t.tiles, prefs: t.prefs, ..h }
            &&& t.tiles.card_tiles == h.tiles.card_tiles
            &&& t.tiles.ring_tile == h.tiles.ring_tile
            &&& t.tiles.status_tile == h.tiles.status_tile
            &&& t.tiles.pin_badge_tile == h.tiles.pin_badge_tile
            &&& t.tiles.nohost_tile == h.tiles.nohost_tile
            &&& t.tiles.sidebar_layer == h.tiles.sidebar_layer
            &&& t.tiles.focused_row_tile == h.tiles.focused_row_tile
        }),
{
    reveal(AppView::scroll_drawn);
    reveal(AppView::dropdown_drawn);
}

/// Preparing a frame leaves the library, its scroll and every focus alone, and keeps the rasterized
/// part of a document small.
pub(crate) proof fn lemma_prepared_frame(
    s: AppView,
    vp: Viewport,
    scene: Scene,
    content_dirty: bool,
    now: u64,
)
    requires
        s.drawable(vp),
        scene.valid(),
    ensures
        ({
            let t = s.prepared(vp, scene, content_dirty, now);
            &&& t.drawable(vp)
            &&& t.hosts == s.hosts
            &&& t.pairing == s.pairing
            &&& t.menu == s.menu
            &&& t.speed == s.speed
            &&& t.nav.home_focus == s.nav.home_focus
            &&& t.shelf.games == s.shelf.games
            &&& t.shelf.pinned_count == s.shelf.pinned_count
            &&& t.shelf.launch_anim_idx == s.shelf.launch_anim_idx
            &&& t.shelf.pending_launch == s.shelf.pending_launch
            &&& t.canvas.pin_move_anim == s.canvas.pin_move_anim
            &&& t.prefs == Prefs { content_window: t.prefs.content_window, ..s.prefs }
        }),
{
    let side = s.side_prepared(now);
    let home = side.home_drawn(vp, scene, now);
    let t = home.modal_drawn(scene, s.screen_changed(), content_dirty);
    lemma_home_frame(side, vp, scene, now);
    lemma_modal_frame(home, scene, s.screen_changed(), content_dirty);
    if side.hosts.selected_host is Some {
        lemma_filled_frame(side.nothing_pending(), vp, now);
    }
    assert(home.prefs == s.prefs);
    reveal(AppView::scroll_drawn);
    reveal(AppView::dropdown_drawn);
    let g = scene.about;
    law_window_before_view(
        s.prefs.scroll.kept(g.total as int, g.visible as int),
        g.visible as int,
        g.total as int,
        ABOUT_WINDOW_BUDGET as int,
    );
}

/// A frame on which nothing has changed has nothing rasterized: not for the sidebar, the grid, the
/// status line, nor the open modal. The frame before has to have caught up with the cards about to
/// be seen and revealed the grid; only animations have gone on since, and no switch slides.
pub proof fn law_settled_frame_rasterizes_nothing(
    s: AppView,
    vp: Viewport,
    scene: Scene,
    content_dirty: bool,
    now: u64,
    later: u64,
)
    requires
        s.drawable(vp),
        scene.valid(),
        !s.prepared(vp, scene, content_dirty, now).canvas.tiles_pending,
        s.prepared(vp, scene, content_dirty, now).canvas.grid_reveal_ready,
        s.nav.switch_anim is None,
        s.nav.screen == Screen::About ==> scene.about.roomy(),
    ensures
        s.prepared(vp, scene, content_dirty, now).prepared_tiles(vp, scene, false, later) == Seq::<
            Tile,
        >::empty(),
{
    let side = s.side_prepared(now);
    let home = side.home_drawn(vp, scene, now);
    let t = home.modal_drawn(scene, s.screen_changed(), content_dirty);
    assert(side.fits(vp));
    lemma_home_frame(side, vp, scene, now);
    lemma_modal_frame(home, scene, s.screen_changed(), content_dirty);
    lemma_home_settles(side, t, vp, scene, now, later);
    lemma_side_settles(side, t, later);
    law_settled_modal_rasterizes_nothing(home, scene, s.screen_changed(), content_dirty);
    lemma_home_frame(t, vp, scene, later);
    lemma_modal_over_grid(t, t.home_drawn(vp, scene, later), scene, false, false);
    assert(t.prepared_tiles(vp, scene, false, later) =~= Seq::<Tile>::empty());
}

proof fn lemma_in_sum(a: Seq<Tile>, b: Seq<Tile>, x: Tile)
    ensures
        (a + b).contains(x) == (a.contains(x) || b.contains(x)),
{
    if a.contains(x) {
        let i = choose|i: int| 0 <= i < a.len() && a[i] == x;
        assert((a + b)[i] == x);
    }
    if b.contains(x) {
        let i = choose|i: int| 0 <= i < b.len() && b[i] == x;
        assert((a + b)[a.len() + i] == x);
    }
    if (a + b).contains(x) {
        let i = choose|i: int| 0 <= i < (a + b).len() && (a + b)[i] == x;
        if i < a.len() {
            assert(a[i] == x);
        } else {
            assert(b[i - a.len()] == x);
        }
    }
}

proof fn lemma_parts_in_all(
    s: AppView,
    vp: Viewport,
    scene: Scene,
    content_dirty: bool,
    now: u64,
    x: Tile,
)
    ensures
        s.side_tiles(now).contains(x) || s.side_prepared(now).home_tiles(vp, scene, now).contains(x)
            || s.home_prepared(vp, scene, now).modal_tiles(
            scene,
            s.screen_changed(),
            content_dirty,
        ).contains(x) ==> s.prepared_tiles(vp, scene, content_dirty, now).contains(x),
{
    let side = s.side_tiles(now);
    let home = s.side_prepared(now).home_tiles(vp, scene, now);
    let modal = s.home_prepared(vp, scene, now).modal_tiles(
        scene,
        s.screen_changed(),
        content_dirty,
    );
    lemma_in_sum(side, home, x);
    lemma_in_sum(side + home, modal, x);
}

proof fn lemma_side_ready(s: AppView, vp: Viewport, now: u64)
    requires
        s.fits(vp),
    ensures
        ({
            let t = s.side_prepared(now);
            &&& t.fits(vp)
            &&& t.hosts == s.hosts && t.home_status == s.home_status
            &&& t.tiles.status_tile == s.tiles.status_tile
            &&& t.tiles.modal_tile == s.tiles.modal_tile
            &&& t.tiles.nohost_tile == s.tiles.nohost_tile
            &&& t.nav.screen == s.nav.screen
        }),
{
    let t = s.side_prepared(now);
    assert(t.cell_bound(vp.columns as int) == s.cell_bound(vp.columns as int));
}

proof fn lemma_side_rasterized(s: AppView, now: u64)
    ensures
        ({
            let row = match s.nav.home_focus {
                HomeFocus::Sidebar(i) => Some((i, false)),
                HomeFocus::SidebarMenu(i) => Some((i, true)),
                HomeFocus::Grid(_) => None,
            };
            let side = s.canvas.sidebar_dirty || !s.tiles.sidebar_layer;
            &&& side ==> s.side_tiles(now).contains(Tile::Sidebar)
            &&& row is Some && (side || s.tiles.focused_row_tile != row) ==> s.side_tiles(
                now,
            ).contains(Tile::FocusRow)
        }),
{
    let seen = s.screen_seen(now);
    let a = tile_if(seen.sidebar_due(), Tile::Sidebar);
    let b = tile_if(seen.sidebar_drawn().focus_row_due(), Tile::FocusRow);
    if seen.sidebar_due() {
        assert(a[0] == Tile::Sidebar);
    }
    if seen.sidebar_drawn().focus_row_due() {
        assert(b[0] == Tile::FocusRow);
    }
    lemma_in_sum(a, b, Tile::Sidebar);
    lemma_in_sum(a, b, Tile::FocusRow);
}

proof fn lemma_status_rasterized(p: AppView, vp: Viewport, scene: Scene, now: u64)
    requires
        p.fits(vp),
        p.home_status is Some,
        p.tiles.status_tile != p.home_status,
    ensures
        p.grid_tiles(vp, scene, now).contains(Tile::Status),
{
    let count = p.grid_len(vp.columns as int);
    let f = p.grid_filled(vp, now);
    lemma_filled_frame(p, vp, now);
    let rev = f.revealed(vp, count, scene.spinner_frame, now);
    let shared = rev.shared_tiles(vp, scene);
    let ring = tile_if(
        rev.tiles.ring_tile != Some(AppView::ring_width(vp, scene) as u32),
        Tile::Ring,
    );
    let st: Seq<Tile> = seq![Tile::Status];
    assert(st[0] == Tile::Status);
    lemma_in_sum(ring, st, Tile::Status);
    assert(shared == ring + st);
    lemma_in_sum(
        p.filled_tiles(vp) + f.spinner_tiles(vp, count, scene.spinner_frame, now),
        shared,
        Tile::Status,
    );
}

proof fn lemma_modal_rasterized(h: AppView, scene: Scene, changed: bool, content_dirty: bool)
    requires
        h.nav.screen != Screen::Home,
        changed || !h.tiles.modal_tile,
    ensures
        h.modal_tiles(scene, changed, content_dirty).contains(Tile::Modal),
{
    assert(h.face_tiles(scene, changed, content_dirty)[0] == Tile::Modal);
    assert(h.modal_tiles(scene, changed, content_dirty)[0] == Tile::Modal);
}

/// Whatever no longer shows what is to be seen is rasterized for the next frame: the host list
/// once something on it changed, its focused row once another is focused, the hint, the status
/// line once it says something else, and a modal that has just come up.
pub proof fn law_changed_parts_are_rasterized(
    s: AppView,
    vp: Viewport,
    scene: Scene,
    content_dirty: bool,
    now: u64,
)
    requires
        s.fits(vp),
    ensures
        ({
            let all = s.prepared_tiles(vp, scene, content_dirty, now);
            let row = match s.nav.home_focus {
                HomeFocus::Sidebar(i) => Some((i, false)),
                HomeFocus::SidebarMenu(i) => Some((i, true)),
                HomeFocus::Grid(_) => None,
            };
            let side = s.canvas.sidebar_dirty || !s.tiles.sidebar_layer;
            &&& side ==> all.contains(Tile::Sidebar)
            &&& row is Some && (side || s.tiles.focused_row_tile != row) ==> all.contains(
                Tile::FocusRow,
            )
            &&& s.hosts.selected_host is None && !s.tiles.nohost_tile ==> all.contains(Tile::NoHost)
            &&& s.hosts.selected_host is Some && s.home_status is Some && s.tiles.status_tile
                != s.home_status ==> all.contains(Tile::Status)
            &&& s.nav.screen != Screen::Home && (s.nav.screen != s.nav.last_screen
                || !s.tiles.modal_tile) ==> all.contains(Tile::Modal)
        }),
{
    let ready = s.side_prepared(now);
    lemma_side_ready(s, vp, now);
    lemma_side_rasterized(s, now);
    lemma_parts_in_all(s, vp, scene, content_dirty, now, Tile::Sidebar);
    lemma_parts_in_all(s, vp, scene, content_dirty, now, Tile::FocusRow);
    lemma_parts_in_all(s, vp, scene, content_dirty, now, Tile::NoHost);
    lemma_parts_in_all(s, vp, scene, content_dirty, now, Tile::Status);
    lemma_parts_in_all(s, vp, scene, content_dirty, now, Tile::Modal);
    if s.hosts.selected_host is None && !s.tiles.nohost_tile {
        assert(ready.home_tiles(vp, scene, now)[0] == Tile::NoHost);
    }
    if s.hosts.selected_host is Some && s.home_status is Some && s.tiles.status_tile
        != s.home_status {
        let p = ready.nothing_pending();
        assert(p.cell_bound(vp.columns as int) == ready.cell_bound(vp.columns as int));
        lemma_status_rasterized(p, vp, scene, now);
    }
    if s.nav.screen != Screen::Home && (s.nav.screen != s.nav.last_screen || !s.tiles.modal_tile) {
        lemma_home_frame(ready, vp, scene, now);
        lemma_modal_rasterized(
            s.home_prepared(vp, scene, now),
            scene,
            s.screen_changed(),
            content_dirty,
        );
    }
}

/// What was rasterized is noted as it is then to be seen: the focused row, the status line and the
/// width of the focus ring.
pub proof fn law_rasterized_is_noted(s: AppView, vp: Viewport, scene: Scene, now: u64)
    requires
        s.hosts.selected_host is Some,
    ensures
        ({
            let t = s.home_prepared(vp, scene, now);
            &&& t.tiles.status_tile == t.home_status
            &&& t.tiles.ring_tile == Some((vp.card_w + 2 * scene.ring_pad) as u32)
            &&& !s.side_prepared(now).canvas.sidebar_dirty && s.side_prepared(
                now,
            ).tiles.sidebar_layer
            &&& s.nav.home_focus matches HomeFocus::Sidebar(i) ==> s.side_prepared(
                now,
            ).tiles.focused_row_tile == Some((i, false))
            &&& s.nav.home_focus matches HomeFocus::SidebarMenu(i) ==> s.side_prepared(
                now,
            ).tiles.focused_row_tile == Some((i, true))
            &&& s.side_prepared(now).nav.last_screen == s.nav.screen
        }),
{
}

} // verus!
