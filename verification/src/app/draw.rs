//! The steps that compose one frame.
use vstd::prelude::*;

use crate::app::cards::law_card_number_is_its_own;
use crate::app::navigate::lemma_grid_len_bound;
use crate::app::prepare::{Scene, ScrollGeometry};
use crate::app::tiles::TilesView;
use crate::app::{App, AppView, HomeFocus, Screen, SpeedTestState};
use crate::compositor::{DrawCmd, Motion, Shade, Tile};
use crate::geometry::{Rect, Viewport, MAX_LENGTH};

verus! {

broadcast use crate::seqs::group_views;

/// From the corner of a card to its badge.
pub const PIN_BADGE_MARGIN: i32 = 10;

/// Above and below the lines of the status text.
pub const STATUS_BG_PAD: i32 = 12;

/// From the right edge of a modal to its scroll indicator.
pub const SCROLL_INDICATOR_INSET: i32 = 26;

/// The width of a scroll indicator.
pub const SCROLL_INDICATOR_TILE_W: u32 = 10;

/// `r` with `pad` more on every side.
pub open spec fn padded(r: Rect, pad: i32) -> Rect {
    Rect {
        x: (r.x - pad) as i32,
        y: (r.y - pad) as i32,
        w: (r.w + 2 * pad) as u32,
        h: (r.h + 2 * pad) as u32,
    }
}

/// `r` with `pad` more on every side.
fn pad_rect(r: Rect, pad: i32) -> (p: Rect)
    requires
        0 <= pad <= MAX_LENGTH,
        -0x4000_0000 <= r.x <= 0x4000_0000,
        -0x4000_0000 <= r.y <= 0x4000_0000,
        r.w <= MAX_LENGTH,
        r.h <= MAX_LENGTH,
    ensures
        p == padded(r, pad),
{
    Rect { x: r.x - pad, y: r.y - pad, w: r.w + 2 * pad as u32, h: r.h + 2 * pad as u32 }
}

/// `n / d`, rounded towards zero.
pub open spec fn toward_zero(n: int, d: int) -> int {
    if n >= 0 {
        n / d
    } else {
        -((-n) / d)
    }
}

pub(crate) fn div_toward_zero(n: i32, d: i32) -> (r: i32)
    requires
        d > 0,
        n > i32::MIN,
    ensures
        r == toward_zero(n as int, d as int),
{
    if n >= 0 {
        n / d
    } else {
        let m: i32 = -n;
        let q: i32 = m / d;
        assert(0 <= m / d <= m) by (nonlinear_arith)
            requires
                m >= 0,
                d > 0,
        ;
        -q
    }
}

/// One step where there is one.
pub open spec fn step_if(shown: bool, cmd: DrawCmd) -> Seq<DrawCmd> {
    if shown {
        seq![cmd]
    } else {
        seq![]
    }
}

fn draw_if(cmds: &mut Vec<DrawCmd>, shown: bool, cmd: DrawCmd)
    ensures
        final(cmds)@ == old(cmds)@ + step_if(shown, cmd),
{
    if shown {
        cmds.push(cmd);
    }
    assert(cmds@ =~= old(cmds)@ + step_if(shown, cmd));
}

impl AppView {
    /// The hint that no host is selected.
    pub open spec fn hint_cmd(vp: Viewport, scene: Scene) -> DrawCmd {
        DrawCmd::Tex {
            tile: Tile::NoHost,
            base: Rect {
                x: (vp.sidebar_w + vp.pad) as i32,
                y: vp.top_y,
                w: scene.hint_w,
                h: scene.hint_h,
            },
            motion: Motion::Still,
        }
    }

    /// The spinner: in the middle of the grid's width, two fifths down its height.
    pub open spec fn spinner_cmd(vp: Viewport, scene: Scene) -> DrawCmd {
        DrawCmd::Tex {
            tile: Tile::SpinnerFrame(scene.spinner_frame),
            base: Rect {
                x: (vp.sidebar_w + toward_zero(vp.available() - scene.spinner_w, 2)) as i32,
                y: (vp.top_y + toward_zero(
                    (vp.screen_h - vp.top_y - scene.spinner_h) * 2,
                    5,
                )) as i32,
                w: scene.spinner_w,
                h: scene.spinner_h,
            },
            motion: Motion::Still,
        }
    }

    /// The focused cell, where it is a cell.
    pub open spec fn focused_cell(self, columns: int) -> Option<int> {
        match self.nav.home_focus {
            HomeFocus::Grid(i) => if i < self.grid_len(columns) {
                Some(i as int)
            } else {
                None
            },
            _ => None,
        }
    }

    /// Since when the card in cell `idx` zooms in.
    pub open spec fn pop_since(self, idx: int) -> Option<u64> {
        if 0 <= idx < self.tiles.card_tiles.len() {
            match self.tiles.card_tiles[idx] {
                Some(c) => c.pop_since,
                None => None,
            }
        } else {
            None
        }
    }

    /// Whether the card in cell `idx` reaches into the screen at this scroll offset.
    pub open spec fn card_visible(self, vp: Viewport, scene: Scene, idx: int) -> bool {
        let r = self.scrolled(vp, idx);
        r.y + r.h + scene.card_pad >= 0 && r.y - scene.card_pad <= vp.screen_h
    }

    /// Whether cell `idx` is drawn with the others: it holds a card, not the focused one, and is
    /// on screen.
    pub open spec fn card_drawn(self, vp: Viewport, scene: Scene, idx: int) -> bool {
        &&& self.focused_cell(vp.columns as int) != Some(idx)
        &&& self.card_at(idx, vp.columns as int) is Some
        &&& self.card_visible(vp, scene, idx)
    }

    /// The card in cell `idx`.
    pub open spec fn card_cmd(self, vp: Viewport, scene: Scene, idx: int) -> DrawCmd {
        DrawCmd::Tex {
            tile: Tile::Card(self.card_slot(idx, vp.columns as int)),
            base: padded(self.scrolled(vp, idx), scene.card_pad),
            motion: Motion::PopIn { since: self.pop_since(idx) },
        }
    }

    /// The cards of the first `n` cells but the focused one.
    pub open spec fn card_cmds(self, vp: Viewport, scene: Scene, n: int) -> Seq<DrawCmd>
        decreases n,
    {
        if n <= 0 {
            seq![]
        } else {
            self.card_cmds(vp, scene, n - 1) + step_if(
                self.card_drawn(vp, scene, n - 1),
                self.card_cmd(vp, scene, n - 1),
            )
        }
    }

    /// The line below the pinned cards, where it is on screen.
    pub open spec fn separator_cmds(self, vp: Viewport) -> Seq<DrawCmd> {
        match self.separator(vp) {
            Some(rect) => step_if(
                0 <= rect.y <= vp.screen_h,
                DrawCmd::Fill { rect, shade: Shade::Line },
            ),
            None => seq![],
        }
    }

    /// Whether the card in cell `idx` is pinned.
    pub open spec fn cell_pinned(self, idx: int, columns: int) -> bool {
        match (self.pin_id_at(idx, columns), self.selected_known()) {
            (Some(id), Some(known)) => known.pinned.contains(id),
            _ => false,
        }
    }

    /// Where the badge of the card in cell `idx` lies: in its top right corner.
    pub open spec fn badge_rect(self, vp: Viewport, scene: Scene, idx: int) -> Rect {
        let r = self.scrolled(vp, idx);
        Rect {
            x: (r.x + r.w - scene.badge - PIN_BADGE_MARGIN) as i32,
            y: (r.y + PIN_BADGE_MARGIN) as i32,
            w: scene.badge,
            h: scene.badge,
        }
    }

    /// The focused card, with its ring and, where it is pinned, its badge.
    pub open spec fn focused_cmds(self, vp: Viewport, scene: Scene) -> Seq<DrawCmd> {
        match self.focused_cell(vp.columns as int) {
            None => seq![],
            Some(idx) => {
                let r = self.scrolled(vp, idx);
                let since = self.pop_since(idx);
                let focus = self.nav.focus_anim;
                seq![
                    DrawCmd::Tex {
                        tile: Tile::Card(self.card_slot(idx, vp.columns as int)),
                        base: padded(r, scene.card_pad),
                        motion: Motion::FocusCard { since, focus },
                    },
                    DrawCmd::Tex {
                        tile: Tile::Ring,
                        base: padded(r, scene.ring_pad),
                        motion: Motion::FocusRing { since, focus },
                    },
                ] + step_if(
                    self.cell_pinned(idx, vp.columns as int),
                    DrawCmd::Tex {
                        tile: Tile::PinBadge,
                        base: self.badge_rect(vp, scene, idx),
                        motion: Motion::FocusBadge { since, focus },
                    },
                )
            },
        }
    }

    /// `r` moved up by the scroll offset.
    pub open spec fn raised(self, r: Rect) -> Rect {
        Rect { y: (r.y - self.canvas.grid_scroll) as i32, ..r }
    }

    /// The card on its way to another cell.
    pub open spec fn flying_cmds(self, scene: Scene) -> Seq<DrawCmd> {
        match self.canvas.pin_move_anim {
            None => seq![],
            Some((since, from, to)) => seq![
                DrawCmd::Tex {
                    tile: Tile::PinMove,
                    base: self.raised(from),
                    motion: Motion::Fly { at: since, to: self.raised(to), pad: scene.card_pad },
                },
            ],
        }
    }

    /// The cards: the focused one over the others, and one on its way over all.
    pub open spec fn cards_cmds(self, vp: Viewport, scene: Scene) -> Seq<DrawCmd> {
        self.card_cmds(vp, scene, self.grid_len(vp.columns as int)) + self.separator_cmds(vp)
            + self.focused_cmds(vp, scene) + self.flying_cmds(scene)
    }

    /// The right side of Home: a hint, the spinner or the cards.
    pub open spec fn grid_cmds(self, vp: Viewport, scene: Scene) -> Seq<DrawCmd> {
        if self.hosts.selected_host is None {
            step_if(self.tiles.nohost_tile, AppView::hint_cmd(vp, scene))
        } else if !self.canvas.grid_reveal_ready {
            seq![AppView::spinner_cmd(vp, scene)]
        } else {
            self.cards_cmds(vp, scene)
        }
    }

    /// Where the status bar begins, and its height.
    pub open spec fn status_bar(vp: Viewport, scene: Scene) -> Rect {
        let h = 2 * scene.status_line_h + 2 * STATUS_BG_PAD;
        Rect {
            x: vp.sidebar_w as i32,
            y: (vp.screen_h - h) as i32,
            w: vp.available() as u32,
            h: h as u32,
        }
    }

    /// The status line over its bar.
    pub open spec fn status_cmds(self, vp: Viewport, scene: Scene) -> Seq<DrawCmd> {
        if self.hosts.selected_host is Some && self.home_status is Some && self.tiles.status_tile
            is Some {
            let bar = AppView::status_bar(vp, scene);
            seq![
                DrawCmd::Fill { rect: bar, shade: Shade::StatusBar },
                DrawCmd::Tex {
                    tile: Tile::Status,
                    base: Rect {
                        x: (vp.sidebar_w + vp.pad) as i32,
                        y: (bar.y + toward_zero(bar.h - scene.status_h, 2)) as i32,
                        w: scene.status_w,
                        h: scene.status_h,
                    },
                    motion: Motion::Still,
                },
            ]
        } else {
            seq![]
        }
    }

    /// The focused row of the sidebar.
    pub open spec fn row_cmds(self, scene: Scene) -> Seq<DrawCmd> {
        match self.sidebar_focus() {
            None => seq![],
            Some((i, _)) => seq![
                DrawCmd::Tex {
                    tile: Tile::FocusRow,
                    base: padded(
                        if i == self.hosts.entries.len() + 1 {
                            scene.settings_row
                        } else {
                            scene.sidebar_row
                        },
                        scene.row_pad,
                    ),
                    motion: Motion::Still,
                },
            ],
        }
    }

    /// The screen that is drawn: one that fades out is still drawn after it was left.
    pub open spec fn drawn_screen(self, now: u64) -> Screen {
        match self.nav.modal_fade.leaving(now) {
            Some(screen) => screen,
            None => self.nav.screen,
        }
    }

    /// The part of the content that is scrolled to; a document's tile begins at its window.
    pub open spec fn content_cmds(self, screen: Screen, g: ScrollGeometry) -> Seq<DrawCmd> {
        let from = self.prefs.scroll.kept(g.total as int, g.visible as int) - (
        if screen == Screen::About {
            self.prefs.content_window.start as int
        } else {
            0
        });
        seq![
            DrawCmd::TexCropped {
                tile: Tile::ScrollContent(screen),
                src: Rect {
                    x: 0,
                    y: (from * g.stride) as i32,
                    w: g.content.w,
                    h: g.content.h,
                },
                base: g.content,
                motion: Motion::Slide,
            },
        ]
    }

    /// A tile of the open list of choices.
    pub open spec fn dropdown_cmds(self, screen: Screen, tile: Tile, base: Rect) -> Seq<DrawCmd> {
        step_if(
            screen == Screen::Settings && self.prefs.dropdown is Some,
            DrawCmd::Tex { tile, base, motion: Motion::Slide },
        )
    }

    /// Whether the screen has a focused widget.
    pub open spec fn has_widget(self, screen: Screen) -> bool {
        match screen {
            Screen::Settings
            | Screen::Experimental
            | Screen::Diagnostics
            | Screen::Pairing
            | Screen::ForgetHost
            | Screen::HostMenu
            | Screen::WakeSettings => true,
            Screen::Wake => self.wake matches Some(w) && w.mac.len() > 0,
            Screen::SpeedTest => self.speed.ended(),
            Screen::Home
            | Screen::AddHost
            | Screen::EditHost
            | Screen::About
            | Screen::PinLimit => false,
        }
    }

    /// The focused widget of the modal.
    pub open spec fn widget_cmds(self, screen: Screen, scene: Scene) -> Seq<DrawCmd> {
        step_if(
            self.has_widget(screen),
            DrawCmd::Tex {
                tile: Tile::ModalFocusElement,
                base: padded(scene.widget, scene.row_pad),
                motion: Motion::SlideZoom { focus: self.nav.modal_focus_anim },
            },
        )
    }

    /// The scroll indicator, while it is seen.
    pub open spec fn indicator_cmds(self, screen: Screen, g: ScrollGeometry, now: u64) -> Seq<
        DrawCmd,
    > {
        step_if(
            g.total > g.visible && self.prefs.scroll.indicated(now),
            DrawCmd::Tex {
                tile: Tile::ScrollIndicator(screen),
                base: Rect {
                    x: (g.card.x + g.card.w - SCROLL_INDICATOR_INSET) as i32,
                    y: g.content.y,
                    w: SCROLL_INDICATOR_TILE_W,
                    h: g.content.h,
                },
                motion: Motion::SlideFade { shown_at: self.prefs.scroll.shown_at },
            },
        )
    }

    /// The scrim and the shell of a modal.
    pub open spec fn shell_cmds(self, vp: Viewport, now: u64) -> Seq<DrawCmd> {
        let all = Rect { x: 0, y: 0, w: vp.screen_w, h: vp.screen_h };
        seq![
            DrawCmd::Fill { rect: all, shade: Shade::Scrim },
            DrawCmd::Tex {
                tile: Tile::Modal,
                base: all,
                motion: Motion::Modal { opening: self.nav.modal_fade.leaving(now) is None },
            },
        ]
    }

    /// The modal on `screen`, from its shell to its scroll indicator.
    pub open spec fn modal_cmds(self, vp: Viewport, scene: Scene, now: u64) -> Seq<DrawCmd> {
        let screen = self.drawn_screen(now);
        let g = scene.scroll_on(screen);
        if screen == Screen::Home {
            seq![]
        } else {
            self.shell_cmds(vp, now) + (if g is Some {
                self.content_cmds(screen, g->0)
            } else {
                seq![]
            }) + self.dropdown_cmds(screen, Tile::DropdownOverlay, scene.overlay)
                + self.widget_cmds(screen, scene) + self.dropdown_cmds(
                screen,
                Tile::DropdownFocusOption,
                scene.option,
            ) + (if g is Some {
                self.indicator_cmds(screen, g->0, now)
            } else {
                seq![]
            })
        }
    }

    /// A launch that begins: its card grows, and everything darkens.
    pub open spec fn launch_cmds(self, vp: Viewport) -> Seq<DrawCmd> {
        match (self.shelf.launch_anim, self.shelf.launch_anim_idx) {
            (Some(since), Some(idx)) => seq![
                DrawCmd::Tex {
                    tile: Tile::Card(self.card_slot(idx as int, vp.columns as int)),
                    base: self.scrolled(vp, idx as int),
                    motion: Motion::Launch { at: since },
                },
                DrawCmd::Fill {
                    rect: Rect { x: 0, y: 0, w: vp.screen_w, h: vp.screen_h },
                    shade: Shade::Launch { at: since },
                },
            ],
            _ => seq![],
        }
    }

    /// The host list.
    pub open spec fn sidebar_cmd(vp: Viewport) -> DrawCmd {
        DrawCmd::Tex {
            tile: Tile::Sidebar,
            base: Rect { x: 0, y: 0, w: vp.sidebar_w, h: vp.screen_h },
            motion: Motion::Still,
        }
    }

    /// The frame: Home, then the modal, then a launch.
    pub open spec fn frame(self, vp: Viewport, scene: Scene, now: u64) -> Seq<DrawCmd> {
        seq![AppView::sidebar_cmd(vp)] + self.grid_cmds(vp, scene) + self.status_cmds(vp, scene)
            + self.row_cmds(scene) + self.modal_cmds(vp, scene, now) + self.launch_cmds(vp)
    }

    /// The rasterized part of a document begins at or before the lines in view.
    pub open spec fn document_in_view(self, scene: Scene) -> bool {
        self.prefs.content_window.start <= self.prefs.scroll.kept(
            scene.about.total as int,
            scene.about.visible as int,
        )
    }

    /// Everything that the frame shows has screen coordinates.
    pub open spec fn frameable(self, vp: Viewport, scene: Scene, now: u64) -> bool {
        &&& self.fits(vp)
        &&& scene.valid()
        &&& self.drawn_screen(now) == Screen::About ==> self.document_in_view(scene)
        &&& self.flights_fit(vp)
    }

    /// The card on its way to another cell, and the one that is launched, have screen coordinates.
    pub open spec fn flights_fit(self, vp: Viewport) -> bool {
        &&& self.canvas.pin_move_anim matches Some((_, from, to)) ==> 0 <= from.y <= 0x3fff_ffff
            && 0 <= to.y <= 0x3fff_ffff
        &&& self.shelf.launch_anim_idx matches Some(i) ==> vp.cell_fits(i as int)
    }
}

impl App {
    fn draw_spinner(&self, vp: &Viewport, scene: &Scene) -> (r: DrawCmd)
        requires
            vp.valid(),
            scene.valid(),
        ensures
            r == AppView::spinner_cmd(*vp, *scene),
    {
        let free_w: i32 = vp.available_w() as i32 - scene.spinner_w as i32;
        let free_h: i32 = vp.screen_h as i32 - vp.top_y - scene.spinner_h as i32;
        let dx: i32 = div_toward_zero(free_w, 2);
        let dy: i32 = div_toward_zero(free_h * 2, 5);
        DrawCmd::Tex {
            tile: Tile::SpinnerFrame(scene.spinner_frame),
            base: Rect {
                x: vp.sidebar_w as i32 + dx,
                y: vp.top_y + dy,
                w: scene.spinner_w,
                h: scene.spinner_h,
            },
            motion: Motion::Still,
        }
    }

    fn pop_clock(&self, idx: usize) -> (r: Option<u64>)
        ensures
            r == self@.pop_since(idx as int),
    {
        if idx < self.tiles.card_tiles.len() {
            match self.tiles.card_tiles[idx] {
                Some(c) => c.pop_since,
                None => None,
            }
        } else {
            None
        }
    }

    fn focus_in_grid(&self, count: usize, columns: usize) -> (r: Option<usize>)
        requires
            count == self@.grid_len(columns as int),
        ensures
            match r {
                Some(i) => self@.focused_cell(columns as int) == Some(i as int) && i < count,
                None => self@.focused_cell(columns as int) is None,
            },
    {
        match self.nav.home_focus {
            HomeFocus::Grid(i) => if i < count {
                Some(i)
            } else {
                None
            },
            _ => None,
        }
    }

    fn draw_cards(&self, vp: &Viewport, scene: &Scene, count: usize, cmds: &mut Vec<DrawCmd>)
        requires
            self@.fits(*vp),
            scene.valid(),
            count == self@.grid_len(vp.columns as int),
            count <= self@.cell_bound(vp.columns as int),
        ensures
            final(cmds)@ == old(cmds)@ + self@.card_cmds(*vp, *scene, count as int),
    {
        let focused = self.focus_in_grid(count, vp.columns);
        let layout = self.grid_layout(vp.columns);
        let mut i: usize = 0;
        assert(cmds@ =~= old(cmds)@ + self@.card_cmds(*vp, *scene, 0));
        while i < count
            invariant
                i <= count,
                self@.fits(*vp),
                scene.valid(),
                count == self@.grid_len(vp.columns as int),
                count <= self@.cell_bound(vp.columns as int),
                layout == self@.layout(vp.columns as int),
                layout.wf(self.shelf.games.len() as int, vp.columns as int),
                match focused {
                    Some(f) => self@.focused_cell(vp.columns as int) == Some(f as int),
                    None => self@.focused_cell(vp.columns as int) is None,
                },
                cmds@ == old(cmds)@ + self@.card_cmds(*vp, *scene, i as int),
            decreases count - i,
        {
            let is_focus = match focused {
                Some(f) => f == i,
                None => false,
            };
            let has_card = layout.card_at(self.shelf.games.len(), i).is_some();
            let r = self.scrolled_card_rect(vp, i);
            let visible = r.y + r.h as i32 + scene.card_pad >= 0 && r.y - scene.card_pad
                <= vp.screen_h as i32;
            let base = pad_rect(r, scene.card_pad);
            let cmd = DrawCmd::Tex {
                tile: Tile::Card(self.slot_at(&layout, vp.columns, i)),
                base,
                motion: Motion::PopIn { since: self.pop_clock(i) },
            };
            draw_if(cmds, !is_focus && has_card && visible, cmd);
            i += 1;
            assert(cmds@ =~= old(cmds)@ + self@.card_cmds(*vp, *scene, i as int));
        }
    }

    fn draw_separator(&self, vp: &Viewport, cmds: &mut Vec<DrawCmd>)
        requires
            self@.fits(*vp),
        ensures
            final(cmds)@ == old(cmds)@ + self@.separator_cmds(*vp),
    {
        match self.pinned_separator_rect(vp) {
            Some(rect) => {
                draw_if(
                    cmds,
                    rect.y >= 0 && rect.y <= vp.screen_h as i32,
                    DrawCmd::Fill { rect, shade: Shade::Line },
                );
            },
            None => {},
        }
        assert(cmds@ =~= old(cmds)@ + self@.separator_cmds(*vp));
    }

    fn is_cell_pinned(&self, idx: usize, columns: usize) -> (r: bool)
        requires
            self@.sized(columns as int),
        ensures
            r == self@.cell_pinned(idx as int, columns as int),
    {
        match self.pin_id_at_grid_idx(idx, columns) {
            Some(id) => match self.selected_known_host() {
                Some(k) => self.hosts.known_hosts[k].is_pinned(id.as_str()),
                None => false,
            },
            None => false,
        }
    }

    fn draw_focused(&self, vp: &Viewport, scene: &Scene, count: usize, cmds: &mut Vec<DrawCmd>)
        requires
            self@.fits(*vp),
            scene.valid(),
            count == self@.grid_len(vp.columns as int),
            count <= self@.cell_bound(vp.columns as int),
        ensures
            final(cmds)@ == old(cmds)@ + self@.focused_cmds(*vp, *scene),
    {
        match self.focus_in_grid(count, vp.columns) {
            None => {},
            Some(idx) => {
                let layout = self.grid_layout(vp.columns);
                let r = self.scrolled_card_rect(vp, idx);
                let since = self.pop_clock(idx);
                let focus = self.nav.focus_anim;
                let card = pad_rect(r, scene.card_pad);
                let ring = pad_rect(r, scene.ring_pad);
                let badge = Rect {
                    x: r.x + r.w as i32 - scene.badge as i32 - PIN_BADGE_MARGIN,
                    y: r.y + PIN_BADGE_MARGIN,
                    w: scene.badge,
                    h: scene.badge,
                };
                cmds.push(
                    DrawCmd::Tex {
                        tile: Tile::Card(self.slot_at(&layout, vp.columns, idx)),
                        base: card,
                        motion: Motion::FocusCard { since, focus },
                    },
                );
                cmds.push(
                    DrawCmd::Tex {
                        tile: Tile::Ring,
                        base: ring,
                        motion: Motion::FocusRing { since, focus },
                    },
                );
                let pinned = self.is_cell_pinned(idx, vp.columns);
                draw_if(
                    cmds,
                    pinned,
                    DrawCmd::Tex {
                        tile: Tile::PinBadge,
                        base: badge,
                        motion: Motion::FocusBadge { since, focus },
                    },
                );
            },
        }
        assert(cmds@ =~= old(cmds)@ + self@.focused_cmds(*vp, *scene));
    }

    fn raise(&self, r: Rect) -> (up: Rect)
        requires
            0 <= r.y <= 0x3fff_ffff,
            0 <= self@.canvas.grid_scroll <= 0x4000_0000,
        ensures
            up == self@.raised(r),
    {
        Rect { x: r.x, y: r.y - self.canvas.grid_scroll, w: r.w, h: r.h }
    }

    fn draw_cards_cmds(&self, vp: &Viewport, scene: &Scene, cmds: &mut Vec<DrawCmd>)
        requires
            self@.fits(*vp),
            scene.valid(),
            self@.canvas.pin_move_anim matches Some((_, from, to)) ==> 0 <= from.y <= 0x3fff_ffff
                && 0 <= to.y <= 0x3fff_ffff,
        ensures
            final(cmds)@ == old(cmds)@ + self@.cards_cmds(*vp, *scene),
    {
        let count: usize = self.grid_len(vp.columns);
        proof {
            lemma_grid_len_bound(self@, *vp);
        }
        self.draw_cards(vp, scene, count, cmds);
        self.draw_separator(vp, cmds);
        self.draw_focused(vp, scene, count, cmds);
        match self.canvas.pin_move_anim {
            None => {},
            Some((since, from, to)) => {
                cmds.push(
                    DrawCmd::Tex {
                        tile: Tile::PinMove,
                        base: self.raise(from),
                        motion: Motion::Fly { at: since, to: self.raise(to), pad: scene.card_pad },
                    },
                );
            },
        }
        assert(cmds@ =~= old(cmds)@ + self@.cards_cmds(*vp, *scene));
    }

    fn draw_right(&self, vp: &Viewport, scene: &Scene, cmds: &mut Vec<DrawCmd>)
        requires
            self@.fits(*vp),
            scene.valid(),
            self@.canvas.pin_move_anim matches Some((_, from, to)) ==> 0 <= from.y <= 0x3fff_ffff
                && 0 <= to.y <= 0x3fff_ffff,
        ensures
            final(cmds)@ == old(cmds)@ + self@.grid_cmds(*vp, *scene),
    {
        if self.hosts.selected_host.is_none() {
            let hint = DrawCmd::Tex {
                tile: Tile::NoHost,
                base: Rect {
                    x: vp.sidebar_w as i32 + vp.pad,
                    y: vp.top_y,
                    w: scene.hint_w,
                    h: scene.hint_h,
                },
                motion: Motion::Still,
            };
            draw_if(cmds, self.tiles.nohost_tile, hint);
        } else if !self.canvas.grid_reveal_ready {
            cmds.push(self.draw_spinner(vp, scene));
            assert(cmds@ =~= old(cmds)@ + self@.grid_cmds(*vp, *scene));
        } else {
            self.draw_cards_cmds(vp, scene, cmds);
        }
    }

    fn draw_status(&self, vp: &Viewport, scene: &Scene, cmds: &mut Vec<DrawCmd>)
        requires
            vp.valid(),
            scene.valid(),
        ensures
            final(cmds)@ == old(cmds)@ + self@.status_cmds(*vp, *scene),
    {
        if self.hosts.selected_host.is_some() && self.home_status.is_some()
            && self.tiles.status_tile.is_some() {
            let h: u32 = 2 * scene.status_line_h + 2 * STATUS_BG_PAD as u32;
            let y: i32 = vp.screen_h as i32 - h as i32;
            cmds.push(
                DrawCmd::Fill {
                    rect: Rect { x: vp.sidebar_w as i32, y, w: vp.available_w(), h },
                    shade: Shade::StatusBar,
                },
            );
            let dy: i32 = div_toward_zero(h as i32 - scene.status_h as i32, 2);
            cmds.push(
                DrawCmd::Tex {
                    tile: Tile::Status,
                    base: Rect {
                        x: vp.sidebar_w as i32 + vp.pad,
                        y: y + dy,
                        w: scene.status_w,
                        h: scene.status_h,
                    },
                    motion: Motion::Still,
                },
            );
        }
        assert(cmds@ =~= old(cmds)@ + self@.status_cmds(*vp, *scene));
    }

    fn draw_row(&self, scene: &Scene, cmds: &mut Vec<DrawCmd>)
        requires
            scene.valid(),
        ensures
            final(cmds)@ == old(cmds)@ + self@.row_cmds(*scene),
    {
        let row: Option<usize> = match self.nav.home_focus {
            HomeFocus::Sidebar(i) => Some(i),
            HomeFocus::SidebarMenu(i) => Some(i),
            HomeFocus::Grid(_) => None,
        };
        match row {
            None => {},
            Some(i) => {
                let rect = if i > 0 && i - 1 == self.hosts.entries.len() {
                    scene.settings_row
                } else {
                    scene.sidebar_row
                };
                cmds.push(
                    DrawCmd::Tex {
                        tile: Tile::FocusRow,
                        base: pad_rect(rect, scene.row_pad),
                        motion: Motion::Still,
                    },
                );
            },
        }
        assert(cmds@ =~= old(cmds)@ + self@.row_cmds(*scene));
    }
}

impl App {
    /// The screen to draw: one that fades out is still drawn after it was left.
    pub fn screen_drawn(&self, now: u64) -> (r: Screen)
        ensures
            r == self@.drawn_screen(now),
    {
        match self.nav.modal_fade.closing_frame(now) {
            Some(screen) => screen,
            None => self.nav.screen,
        }
    }

    fn draw_content(&self, screen: Screen, g: &ScrollGeometry, cmds: &mut Vec<DrawCmd>)
        requires
            g.valid(),
            screen == Screen::About ==> self@.prefs.content_window.start <= self@.prefs.scroll.kept(
                g.total as int,
                g.visible as int,
            ),
        ensures
            final(cmds)@ == old(cmds)@ + self@.content_cmds(screen, *g),
    {
        let scroll: usize = self.prefs.scroll.clamped(g.total, g.visible);
        let start: usize = if screen == Screen::About {
            self.prefs.content_window.start
        } else {
            0
        };
        let from: usize = scroll - start;
        proof {
            let total = g.total as int;
            let stride = g.stride as int;
            assert(0 <= from * stride <= total * stride) by (nonlinear_arith)
                requires
                    0 <= from <= total,
                    0 <= stride,
            ;
        }
        cmds.push(
            DrawCmd::TexCropped {
                tile: Tile::ScrollContent(screen),
                src: Rect { x: 0, y: from as i32 * g.stride, w: g.content.w, h: g.content.h },
                base: g.content,
                motion: Motion::Slide,
            },
        );
        assert(cmds@ =~= old(cmds)@ + self@.content_cmds(screen, *g));
    }

    fn shows_widget(&self, screen: Screen) -> (r: bool)
        ensures
            r == self@.has_widget(screen),
    {
        match screen {
            Screen::Settings
            | Screen::Experimental
            | Screen::Diagnostics
            | Screen::Pairing
            | Screen::ForgetHost
            | Screen::HostMenu
            | Screen::WakeSettings => true,
            Screen::Wake => match &self.wake {
                Some(w) => w.mac.len() > 0,
                None => false,
            },
            Screen::SpeedTest => match &self.speed.speed_test {
                Some(SpeedTestState::Done { .. }) => true,
                Some(SpeedTestState::Failed(_)) => true,
                _ => false,
            },
            Screen::Home
            | Screen::AddHost
            | Screen::EditHost
            | Screen::About
            | Screen::PinLimit => false,
        }
    }

    fn draw_choices(&self, screen: Screen, tile: Tile, base: Rect, cmds: &mut Vec<DrawCmd>)
        ensures
            final(cmds)@ == old(cmds)@ + self@.dropdown_cmds(screen, tile, base),
    {
        draw_if(
            cmds,
            screen == Screen::Settings && self.prefs.dropdown.is_some(),
            DrawCmd::Tex { tile, base, motion: Motion::Slide },
        );
    }

    fn draw_widget(&self, screen: Screen, scene: &Scene, cmds: &mut Vec<DrawCmd>)
        requires
            scene.valid(),
        ensures
            final(cmds)@ == old(cmds)@ + self@.widget_cmds(screen, *scene),
    {
        let shown = self.shows_widget(screen);
        let base = pad_rect(scene.widget, scene.row_pad);
        draw_if(
            cmds,
            shown,
            DrawCmd::Tex {
                tile: Tile::ModalFocusElement,
                base,
                motion: Motion::SlideZoom { focus: self.nav.modal_focus_anim },
            },
        );
    }

    fn draw_indicator(&self, screen: Screen, g: &ScrollGeometry, now: u64, cmds: &mut Vec<DrawCmd>)
        requires
            g.valid(),
        ensures
            final(cmds)@ == old(cmds)@ + self@.indicator_cmds(screen, *g, now),
    {
        let shown = g.total > g.visible && self.prefs.scroll.shows_indicator(now);
        draw_if(
            cmds,
            shown,
            DrawCmd::Tex {
                tile: Tile::ScrollIndicator(screen),
                base: Rect {
                    x: g.card.x + g.card.w as i32 - SCROLL_INDICATOR_INSET,
                    y: g.content.y,
                    w: SCROLL_INDICATOR_TILE_W,
                    h: g.content.h,
                },
                motion: Motion::SlideFade { shown_at: self.prefs.scroll.shown_at },
            },
        );
    }

    fn draw_shell_cmds(&self, vp: &Viewport, now: u64, cmds: &mut Vec<DrawCmd>)
        ensures
            final(cmds)@ == old(cmds)@ + self@.shell_cmds(*vp, now),
    {
        let all = Rect { x: 0, y: 0, w: vp.screen_w, h: vp.screen_h };
        cmds.push(DrawCmd::Fill { rect: all, shade: Shade::Scrim });
        cmds.push(
            DrawCmd::Tex {
                tile: Tile::Modal,
                base: all,
                motion: Motion::Modal {
                    opening: self.nav.modal_fade.closing_frame(now).is_none(),
                },
            },
        );
        assert(cmds@ =~= old(cmds)@ + self@.shell_cmds(*vp, now));
    }

    fn draw_modal(&self, vp: &Viewport, scene: &Scene, now: u64, cmds: &mut Vec<DrawCmd>)
        requires
            scene.valid(),
            self@.drawn_screen(now) == Screen::About ==> self@.document_in_view(*scene),
        ensures
            final(cmds)@ == old(cmds)@ + self@.modal_cmds(*vp, *scene, now),
    {
        let screen = self.screen_drawn(now);
        if screen == Screen::Home {
            assert(cmds@ =~= old(cmds)@ + self@.modal_cmds(*vp, *scene, now));
            return ;
        }
        let geometry = scene.scroll_geometry_for(screen);
        self.draw_shell_cmds(vp, now, cmds);
        match &geometry {
            Some(g) => {
                self.draw_content(screen, g, cmds);
            },
            None => {},
        }
        self.draw_choices(screen, Tile::DropdownOverlay, scene.overlay, cmds);
        self.draw_widget(screen, scene, cmds);
        self.draw_choices(screen, Tile::DropdownFocusOption, scene.option, cmds);
        match &geometry {
            Some(g) => {
                self.draw_indicator(screen, g, now, cmds);
            },
            None => {},
        }
        assert(cmds@ =~= old(cmds)@ + self@.modal_cmds(*vp, *scene, now));
    }

    fn draw_launch(&self, vp: &Viewport, cmds: &mut Vec<DrawCmd>)
        requires
            self@.fits(*vp),
            self@.shelf.launch_anim_idx matches Some(i) ==> vp.cell_fits(i as int),
        ensures
            final(cmds)@ == old(cmds)@ + self@.launch_cmds(*vp),
    {
        match (self.shelf.launch_anim, self.shelf.launch_anim_idx) {
            (Some(since), Some(idx)) => {
                let layout = self.grid_layout(vp.columns);
                let base = self.scrolled_card_rect(vp, idx);
                let slot: usize = self.slot_at(&layout, vp.columns, idx);
                cmds.push(
                    DrawCmd::Tex {
                        tile: Tile::Card(slot),
                        base,
                        motion: Motion::Launch { at: since },
                    },
                );
                cmds.push(
                    DrawCmd::Fill {
                        rect: Rect { x: 0, y: 0, w: vp.screen_w, h: vp.screen_h },
                        shade: Shade::Launch { at: since },
                    },
                );
            },
            _ => {},
        }
        assert(cmds@ =~= old(cmds)@ + self@.launch_cmds(*vp));
    }

    /// The steps of this frame, in paint order.
    pub fn draw_list(&self, vp: &Viewport, scene: &Scene, now: u64) -> (cmds: Vec<DrawCmd>)
        requires
            self@.frameable(*vp, *scene, now),
        ensures
            cmds@ == self@.frame(*vp, *scene, now),
    {
        let mut cmds: Vec<DrawCmd> = Vec::new();
        cmds.push(
            DrawCmd::Tex {
                tile: Tile::Sidebar,
                base: Rect { x: 0, y: 0, w: vp.sidebar_w, h: vp.screen_h },
                motion: Motion::Still,
            },
        );
        self.draw_right(vp, scene, &mut cmds);
        self.draw_status(vp, scene, &mut cmds);
        self.draw_row(scene, &mut cmds);
        self.draw_modal(vp, scene, now, &mut cmds);
        self.draw_launch(vp, &mut cmds);
        assert(cmds@ =~= self@.frame(*vp, *scene, now));
        cmds
    }

    /// The first cell whose card is rasterized and goes by this number.
    pub fn cell_of_card(&self, slot: usize) -> (r: Option<usize>)
        ensures
            match r {
                Some(i) => self@.tiles.card_in(i as int, slot) && forall|j: int|
                    0 <= j < i ==> !#[trigger] self@.tiles.card_in(j, slot),
                None => !self@.tiles.has(Tile::Card(slot)),
            },
    {
        let mut i: usize = 0;
        while i < self.tiles.card_tiles.len()
            invariant
                i <= self.tiles.card_tiles.len(),
                forall|j: int| 0 <= j < i ==> !#[trigger] self@.tiles.card_in(j, slot),
            decreases self.tiles.card_tiles.len() - i,
        {
            if let Some(c) = self.tiles.card_tiles[i] {
                if c.slot == slot {
                    assert(self@.tiles.card_in(i as int, slot));
                    return Some(i);
                }
            }
            assert(!self@.tiles.card_in(i as int, slot));
            i += 1;
        }
        None
    }

    /// Whether `tile` is rasterized; some tiles are uploaded without that.
    pub fn tile_pixmap(&self, tile: Tile) -> (r: bool)
        ensures
            r == self@.tiles.has(tile),
    {
        match tile {
            Tile::Sidebar => self.tiles.sidebar_layer,
            Tile::FocusRow => self.tiles.focused_row_tile.is_some(),
            Tile::Card(slot) => self.cell_of_card(slot).is_some(),
            Tile::Ring => self.tiles.ring_tile.is_some(),
            Tile::PinBadge => self.tiles.pin_badge_tile,
            Tile::PinMove => self.tiles.pin_move_tile,
            Tile::Modal => self.tiles.modal_tile,
            Tile::ModalFocusElement => self.tiles.modal_focus_tile.is_some(),
            Tile::DropdownOverlay => self.tiles.dropdown_overlay_tile.is_some(),
            Tile::DropdownFocusOption => self.tiles.dropdown_focus_tile.is_some(),
            Tile::ScrollIndicator(_) => self.tiles.scroll_indicator_tile.is_some(),
            Tile::ScrollContent(_) => self.tiles.scroll_content_tile.is_some(),
            Tile::Status => self.tiles.status_tile.is_some(),
            Tile::NoHost => self.tiles.nohost_tile,
            Tile::CardOutline
            | Tile::SpinnerFrame(_)
            | Tile::StatsOverlay
            | Tile::Notification
            | Tile::LogOverlay
            | Tile::DisconnectDialog
            | Tile::DisconnectFocusButton => false,
        }
    }
}

impl TilesView {
    /// Whether the card in cell `i` is rasterized and goes by this number.
    pub open spec fn card_in(self, i: int, slot: usize) -> bool {
        0 <= i < self.card_tiles.len() && (self.card_tiles[i] matches Some(c) && c.slot == slot)
    }

    /// Whether `tile` is rasterized.
    pub open spec fn has(self, tile: Tile) -> bool {
        match tile {
            Tile::Sidebar => self.sidebar_layer,
            Tile::FocusRow => self.focused_row_tile is Some,
            Tile::Card(slot) => exists|i: int| #[trigger] self.card_in(i, slot),
            Tile::Ring => self.ring_tile is Some,
            Tile::PinBadge => self.pin_badge_tile,
            Tile::PinMove => self.pin_move_tile,
            Tile::Modal => self.modal_tile,
            Tile::ModalFocusElement => self.modal_focus_tile is Some,
            Tile::DropdownOverlay => self.dropdown_overlay_tile is Some,
            Tile::DropdownFocusOption => self.dropdown_focus_tile is Some,
            Tile::ScrollIndicator(_) => self.scroll_indicator_tile is Some,
            Tile::ScrollContent(_) => self.scroll_content_tile is Some,
            Tile::Status => self.status_tile is Some,
            Tile::NoHost => self.nohost_tile,
            _ => false,
        }
    }
}

/// The focused card is drawn once, after every other card.
pub proof fn law_focused_card_on_top(s: AppView, vp: Viewport, scene: Scene, n: int, k: int)
    requires
        0 <= k < s.card_cmds(vp, scene, n).len(),
        n <= usize::MAX,
        s.sized(vp.columns as int),
        s.cards_numbered(),
        s.focused_cell(vp.columns as int) is Some,
    ensures
        s.card_cmds(vp, scene, n)[k] matches DrawCmd::Tex { tile, .. } && tile != Tile::Card(
            s.card_slot(s.focused_cell(vp.columns as int)->0, vp.columns as int),
        ),
{
    let c = vp.columns as int;
    lemma_card_cmds_below(s, vp, scene, n, k);
    let i = choose|i: int|
        0 <= i < n && s.card_drawn(vp, scene, i) && #[trigger] s.card_cmd(vp, scene, i)
            == s.card_cmds(vp, scene, n)[k];
    law_card_number_is_its_own(s, c, i, s.focused_cell(c)->0);
}

/// Every card in the grid that is on screen is drawn, and nothing else is drawn as a card: not an
/// empty cell, not one off screen.
pub proof fn law_cards_drawn_exactly(s: AppView, vp: Viewport, scene: Scene, n: int, idx: int)
    requires
        0 <= idx < n <= usize::MAX,
        s.sized(vp.columns as int),
        s.cards_numbered(),
    ensures
        s.card_drawn(vp, scene, idx) == s.card_cmds(vp, scene, n).contains(
            s.card_cmd(vp, scene, idx),
        ),
{
    let c = vp.columns as int;
    let all = s.card_cmds(vp, scene, n);
    if s.card_drawn(vp, scene, idx) {
        lemma_drawn_card_listed(s, vp, scene, n, idx);
    }
    if all.contains(s.card_cmd(vp, scene, idx)) {
        let k = choose|k: int| 0 <= k < all.len() && all[k] == s.card_cmd(vp, scene, idx);
        lemma_card_cmds_below(s, vp, scene, n, k);
        let i = choose|i: int|
            0 <= i < n && s.card_drawn(vp, scene, i) && #[trigger] s.card_cmd(vp, scene, i)
                == all[k];
        if i != idx {
            law_card_number_is_its_own(s, c, i, idx);
        }
    }
}

pub proof fn lemma_drawn_card_listed(s: AppView, vp: Viewport, scene: Scene, n: int, idx: int)
    requires
        0 <= idx < n <= usize::MAX,
        s.card_drawn(vp, scene, idx),
    ensures
        s.card_cmds(vp, scene, n).contains(s.card_cmd(vp, scene, idx)),
    decreases n,
{
    let before = s.card_cmds(vp, scene, n - 1);
    let all = s.card_cmds(vp, scene, n);
    if idx < n - 1 {
        lemma_drawn_card_listed(s, vp, scene, n - 1, idx);
        let k = choose|k: int| 0 <= k < before.len() && before[k] == s.card_cmd(vp, scene, idx);
        assert(all[k] == s.card_cmd(vp, scene, idx));
    } else {
        assert(all[before.len() as int] == s.card_cmd(vp, scene, idx));
    }
}

pub proof fn lemma_card_cmds_below(s: AppView, vp: Viewport, scene: Scene, n: int, k: int)
    requires
        0 <= k < s.card_cmds(vp, scene, n).len(),
        n <= usize::MAX,
    ensures
        exists|i: int|
            0 <= i < n && s.card_drawn(vp, scene, i) && #[trigger] s.card_cmd(vp, scene, i)
                == s.card_cmds(vp, scene, n)[k],
    decreases n,
{
    if n > 0 {
        let before = s.card_cmds(vp, scene, n - 1);
        if k < before.len() {
            lemma_card_cmds_below(s, vp, scene, n - 1, k);
            let i = choose|i: int|
                0 <= i < n - 1 && s.card_drawn(vp, scene, i) && #[trigger] s.card_cmd(
                    vp,
                    scene,
                    i,
                ) == before[k];
            assert(s.card_cmd(vp, scene, i) == s.card_cmds(vp, scene, n)[k]);
        } else {
            assert(s.card_cmd(vp, scene, n - 1) == s.card_cmds(vp, scene, n)[k]);
        }
    }
}

/// The line below the pinned cards is drawn where it is on screen, faintly, and nothing else is
/// drawn for it.
pub proof fn law_line_is_drawn_on_screen(s: AppView, vp: Viewport)
    ensures
        s.separator(vp) is None ==> s.separator_cmds(vp).len() == 0,
        s.separator(vp) matches Some(r) ==> (r.y < 0 || r.y > vp.screen_h ==> s.separator_cmds(
            vp,
        ).len() == 0) && (0 <= r.y <= vp.screen_h ==> s.separator_cmds(vp) == seq![
            DrawCmd::Fill { rect: r, shade: Shade::Line },
        ]),
{
}

} // verus!
