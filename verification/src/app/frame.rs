//! What holds of a frame as it is drawn: where the cards come to lie on the screen, and what of
//! the menu is shown.
use vstd::prelude::*;

use crate::app::cards::law_card_number_is_its_own;
use crate::app::draw::{lemma_card_cmds_below, lemma_drawn_card_listed};
use crate::app::grid::lemma_cells;
use crate::app::home::{law_focused_card_in_view, lemma_layout_wf, lemma_rows_for, rows_for, FOCUS_MARGIN};
use crate::app::navigate::lemma_grid_len_bound;
use crate::app::prepare::Scene;
use crate::app::{AppView, CanvasView, HomeFocus, Screen};
use crate::compositor::{DrawCmd, Motion, Shade, Tile};
use crate::geometry::{Rect, Viewport};

verus! {

/// How many cards are pinned for the selected host, its desktop among them.
pub open spec fn pinned_cards(s: AppView) -> int {
    s.shelf.pinned_count + (if s.shelf.games_loaded && (s.selected_known() matches Some(h)
        && h.pinned.contains("desktop"@)) {
        1int
    } else {
        0int
    })
}

/// Where the row of cell `idx` begins on screen: rows follow each other at the height of a card
/// and a gap, those below the pinned cards are set off by a wider gap, and all are moved up as far
/// as the grid is scrolled.
pub open spec fn row_top(s: AppView, vp: Viewport, idx: int) -> int {
    let row = idx / vp.columns as int;
    vp.top_y + row * (vp.card_h + vp.gap) + (if 0 < pinned_cards(s) <= row * vp.columns {
        vp.section_gap as int
    } else {
        0
    }) - s.canvas.grid_scroll
}

/// Where the column of cell `idx` begins on screen.
pub open spec fn column_left(vp: Viewport, idx: int) -> int {
    vp.sidebar_w + vp.pad + (idx % vp.columns as int) * (vp.card_w + vp.gap)
}

/// Whether `cmd` draws the card with this number among the cards of the grid.
pub open spec fn draws_card(cmd: DrawCmd, slot: usize) -> bool {
    cmd matches DrawCmd::Tex { tile, motion, .. } && tile == Tile::Card(slot) && (motion is PopIn
        || motion is FocusCard)
}

/// The place on screen that a step draws to.
pub open spec fn place_of(cmd: DrawCmd) -> Rect {
    match cmd {
        DrawCmd::Tex { base, .. } => base,
        DrawCmd::TexCropped { base, .. } => base,
        DrawCmd::Fill { rect, .. } => rect,
    }
}

/// A card lies in its cell: at the row's and the column's edge, all round larger by the pad.
pub open spec fn in_cell(s: AppView, vp: Viewport, idx: int, pad: int, r: Rect) -> bool {
    &&& r.x == column_left(vp, idx) - pad
    &&& r.y == row_top(s, vp, idx) - pad
    &&& r.w == vp.card_w + 2 * pad
    &&& r.h == vp.card_h + 2 * pad
}

proof fn lemma_scrolled(s: AppView, vp: Viewport, idx: int)
    requires
        s.fits(vp),
        0 <= idx,
        vp.cell_fits(idx),
    ensures
        s.scrolled(vp, idx).x == column_left(vp, idx),
        s.scrolled(vp, idx).y == row_top(s, vp, idx),
        s.scrolled(vp, idx).w == vp.card_w,
        s.scrolled(vp, idx).h == vp.card_h,
        -0x4000_0000 <= row_top(s, vp, idx) <= 0x2100_0000,
        0 <= column_left(vp, idx) <= 0x2100_0000,
{
    let c = vp.columns as int;
    let front = pinned_cards(s);
    let rows = rows_for(front, c);
    let row = idx / c;
    lemma_layout_wf(s, c);
    lemma_rows_for(front, c);
    if row >= rows {
        assert(row * c >= rows * c) by (nonlinear_arith)
            requires
                row >= rows,
                c >= 1,
        ;
    } else {
        assert(row * c <= (rows - 1) * c) by (nonlinear_arith)
            requires
                row <= rows - 1,
                c >= 1,
        ;
        assert((rows - 1) * c == rows * c - c) by (nonlinear_arith);
    }
    if front > 0 {
        assert(rows > 0) by (nonlinear_arith)
            requires
                rows * c >= front,
                front > 0,
                c >= 1,
        ;
    }
    assert(rows <= rows * c) by (nonlinear_arith)
        requires
            rows >= 0,
            c >= 1,
    ;
    assert(s.layout(c).pinned_rows == rows);
}

proof fn lemma_cards_in_cells(s: AppView, vp: Viewport, scene: Scene, now: u64, k: int, slot: usize)
    requires
        s.fits(vp),
        scene.valid(),
        0 <= k < s.frame(vp, scene, now).len(),
        draws_card(s.frame(vp, scene, now)[k], slot),
    ensures
        s.hosts.selected_host is Some,
        s.canvas.grid_reveal_ready,
        exists|idx: int|
            0 <= idx < s.grid_len(vp.columns as int) && slot == #[trigger] s.card_slot(
                idx,
                vp.columns as int,
            ) && (s.card_at(idx, vp.columns as int) is Some || s.nav.home_focus == HomeFocus::Grid(
                idx as usize,
            )) && in_cell(s, vp, idx, scene.card_pad as int, place_of(s.frame(vp, scene, now)[k])),
{
    let c = vp.columns as int;
    let n = s.grid_len(c);
    lemma_grid_len_bound(s, vp);
    let cmd = s.frame(vp, scene, now)[k];
    let cards = s.card_cmds(vp, scene, n);
    let before: Seq<DrawCmd> = seq![AppView::sidebar_cmd(vp)];
    let grid = s.grid_cmds(vp, scene);
    let status = s.status_cmds(vp, scene);
    let row = s.row_cmds(scene);
    let modal = s.modal_cmds(vp, scene, now);
    let launch = s.launch_cmds(vp);
    assert forall|i: int| 0 <= i < modal.len() implies !draws_card(#[trigger] modal[i], slot) by {
        lemma_modal_draws_no_card(s, vp, scene, now, i, slot);
    }
    let j = k - before.len();
    assert(0 <= j < grid.len() && cmd == grid[j]);
    assert(s.hosts.selected_host is Some && s.canvas.grid_reveal_ready);
    if j < cards.len() {
        lemma_card_cmds_below(s, vp, scene, n, j);
        let idx = choose|i: int|
            0 <= i < n && s.card_drawn(vp, scene, i) && #[trigger] s.card_cmd(vp, scene, i)
                == cards[j];
        assert(vp.cell_fits(idx));
        lemma_scrolled(s, vp, idx);
        assert(slot == s.card_slot(idx, c));
    } else {
        let idx = s.focused_cell(c)->0;
        assert(vp.cell_fits(idx));
        lemma_scrolled(s, vp, idx);
        assert(slot == s.card_slot(idx, c));
    }
}

proof fn lemma_modal_draws_no_card(
    s: AppView,
    vp: Viewport,
    scene: Scene,
    now: u64,
    i: int,
    slot: usize,
)
    requires
        0 <= i < s.modal_cmds(vp, scene, now).len(),
    ensures
        !draws_card(s.modal_cmds(vp, scene, now)[i], slot),
        !(s.modal_cmds(vp, scene, now)[i] matches DrawCmd::Tex { motion, .. } && motion is Launch),
{
}

/// Every card that is drawn lies in its cell on screen: the rows moved up as far as the grid is
/// scrolled, the columns from the host list on, larger than the cell by the pad all round.
pub proof fn law_cards_lie_in_their_cells(
    s: AppView,
    vp: Viewport,
    scene: Scene,
    now: u64,
    k: int,
    slot: usize,
)
    requires
        s.fits(vp),
        scene.valid(),
        0 <= k < s.frame(vp, scene, now).len(),
        draws_card(s.frame(vp, scene, now)[k], slot),
    ensures
        exists|idx: int|
            0 <= idx < s.grid_len(vp.columns as int) && slot == #[trigger] s.card_slot(
                idx,
                vp.columns as int,
            ) && {
                let r = place_of(s.frame(vp, scene, now)[k]);
                &&& r.x == column_left(vp, idx) - scene.card_pad
                &&& r.y == row_top(s, vp, idx) - scene.card_pad
                &&& r.w == vp.card_w + 2 * scene.card_pad
                &&& r.h == vp.card_h + 2 * scene.card_pad
            },
{
    lemma_cards_in_cells(s, vp, scene, now, k, slot);
}

/// Scrolling the grid down moves every card up by as much, and not sideways: a card that is drawn
/// both before and after is drawn that much higher.
pub proof fn law_cards_move_with_the_scroll(
    s: AppView,
    t: AppView,
    vp: Viewport,
    scene: Scene,
    now: u64,
    d: int,
    k: int,
    l: int,
    slot: usize,
)
    requires
        t == (AppView {
            canvas: CanvasView { grid_scroll: t.canvas.grid_scroll, ..s.canvas },
            ..s
        }),
        t.canvas.grid_scroll == s.canvas.grid_scroll + d,
        s.fits(vp),
        t.fits(vp),
        s.cards_numbered(),
        scene.valid(),
        0 <= k < s.frame(vp, scene, now).len(),
        0 <= l < t.frame(vp, scene, now).len(),
        draws_card(s.frame(vp, scene, now)[k], slot),
        draws_card(t.frame(vp, scene, now)[l], slot),
    ensures
        ({
            let a = place_of(s.frame(vp, scene, now)[k]);
            let b = place_of(t.frame(vp, scene, now)[l]);
            b.y == a.y - d && b.x == a.x && b.w == a.w && b.h == a.h
        }),
{
    let c = vp.columns as int;
    lemma_cards_in_cells(s, vp, scene, now, k, slot);
    lemma_cards_in_cells(t, vp, scene, now, l, slot);
    let i = choose|idx: int|
        0 <= idx < s.grid_len(c) && slot == #[trigger] s.card_slot(idx, c) && (s.card_at(idx, c)
            is Some || s.nav.home_focus == HomeFocus::Grid(idx as usize)) && in_cell(
            s,
            vp,
            idx,
            scene.card_pad as int,
            place_of(s.frame(vp, scene, now)[k]),
        );
    let j = choose|idx: int|
        0 <= idx < t.grid_len(c) && slot == #[trigger] t.card_slot(idx, c) && (t.card_at(idx, c)
            is Some || t.nav.home_focus == HomeFocus::Grid(idx as usize)) && in_cell(
            t,
            vp,
            idx,
            scene.card_pad as int,
            place_of(t.frame(vp, scene, now)[l]),
        );
    assert(t.layout(c) == s.layout(c));
    assert(t.card_slot(j, c) == s.card_slot(j, c));
    assert(t.card_at(j, c) == s.card_at(j, c));
    lemma_grid_len_bound(s, vp);
    if i != j {
        if s.card_at(i, c) is Some {
            law_card_number_is_its_own(s, c, i, j);
        } else if s.card_at(j, c) is Some {
            law_card_number_is_its_own(s, c, j, i);
        }
    }
}

/// A card that reaches into the screen where it belongs is drawn there.
pub proof fn law_card_in_view_is_drawn(s: AppView, vp: Viewport, scene: Scene, now: u64, idx: int)
    requires
        s.fits(vp),
        scene.valid(),
        s.hosts.selected_host is Some,
        s.canvas.grid_reveal_ready,
        0 <= idx < s.grid_len(vp.columns as int),
        s.card_at(idx, vp.columns as int) is Some,
        row_top(s, vp, idx) + vp.card_h + scene.card_pad >= 0,
        row_top(s, vp, idx) - scene.card_pad <= vp.screen_h,
    ensures
        exists|k: int|
            0 <= k < s.frame(vp, scene, now).len() && draws_card(
                #[trigger] s.frame(vp, scene, now)[k],
                s.card_slot(idx, vp.columns as int),
            ) && in_cell(
                s,
                vp,
                idx,
                scene.card_pad as int,
                place_of(s.frame(vp, scene, now)[k]),
            ),
{
    let c = vp.columns as int;
    let n = s.grid_len(c);
    let all = s.frame(vp, scene, now);
    let cards = s.card_cmds(vp, scene, n);
    lemma_grid_len_bound(s, vp);
    assert(vp.cell_fits(idx));
    lemma_scrolled(s, vp, idx);
    assert(all.len() > 0);
    if s.focused_cell(c) == Some(idx) {
        let k = 1 + cards.len() + s.separator_cmds(vp).len();
        assert(all[k as int] == s.focused_cmds(vp, scene)[0]);
        assert(draws_card(all[k as int], s.card_slot(idx, c)));
    } else {
        lemma_drawn_card_listed(s, vp, scene, n, idx);
        let j = choose|j: int| 0 <= j < cards.len() && cards[j] == s.card_cmd(vp, scene, idx);
        assert(all[1 + j] == cards[j]);
        assert(draws_card(all[1 + j], s.card_slot(idx, c)));
    }
}

/// Once the scroll has come to where moving the focus sends it, the focused card is drawn wholly
/// between the top of the grid and the bottom of the screen less its pad, with its ring round it.
pub proof fn law_focused_card_is_drawn_in_view(
    s: AppView,
    t: AppView,
    vp: Viewport,
    scene: Scene,
    idx: usize,
    at: u64,
    now: u64,
)
    requires
        s.fits(vp),
        scene.valid(),
        s.hosts.selected_host is Some,
        s.canvas.grid_reveal_ready,
        s.nav.home_focus == HomeFocus::Grid(idx),
        0 <= idx < s.grid_len(vp.columns as int),
        vp.card_h + 2 * FOCUS_MARGIN <= vp.screen_h - vp.pad - vp.top_y,
        t == (AppView {
            canvas: CanvasView {
                grid_scroll: s.ensured(vp, idx as int, at).canvas.grid_scroll_target,
                ..s.ensured(vp, idx as int, at).canvas
            },
            ..s.ensured(vp, idx as int, at)
        }),
    ensures
        exists|k: int|
            0 <= k < t.frame(vp, scene, now).len() - 1 && {
                let card = place_of(#[trigger] t.frame(vp, scene, now)[k]);
                let ring = place_of(t.frame(vp, scene, now)[k + 1]);
                &&& draws_card(
                    t.frame(vp, scene, now)[k],
                    t.card_slot(idx as int, vp.columns as int),
                )
                &&& t.frame(vp, scene, now)[k + 1]->Tex_tile == Tile::Ring
                &&& vp.top_y <= card.y + scene.card_pad
                &&& card.y + scene.card_pad + vp.card_h <= vp.screen_h - vp.pad
                &&& card.h == vp.card_h + 2 * scene.card_pad
                &&& ring.x + scene.ring_pad == card.x + scene.card_pad
                &&& ring.y + scene.ring_pad == card.y + scene.card_pad
                &&& ring.w == vp.card_w + 2 * scene.ring_pad
                &&& ring.h == vp.card_h + 2 * scene.ring_pad
            },
{
    let c = vp.columns as int;
    let i = idx as int;
    let u = s.ensured(vp, i, at);
    law_focused_card_in_view(s, vp, i, at);
    lemma_grid_len_bound(s, vp);
    assert(t.layout(c) == s.layout(c));
    assert(vp.cell_fits(i));
    lemma_max_scroll_bound(s, vp);
    assert(0 <= t.canvas.grid_scroll <= 0x4000_0000);
    assert(t.fits(vp)) by {
        assert(t.cell_bound(c) == s.cell_bound(c));
    }
    lemma_scrolled(t, vp, i);
    lemma_scrolled(s, vp, i);
    let all = t.frame(vp, scene, now);
    let cards = t.card_cmds(vp, scene, t.grid_len(c));
    let k = (1 + cards.len() + t.separator_cmds(vp).len()) as int;
    let f = t.focused_cmds(vp, scene);
    assert(t.focused_cell(c) == Some(i));
    assert(f.len() >= 2);
    assert(all[k] == f[0]);
    assert(all[k + 1] == f[1]);
    assert(draws_card(all[k], t.card_slot(i, c)));
}

proof fn lemma_max_scroll_bound(s: AppView, vp: Viewport)
    requires
        s.fits(vp),
    ensures
        0 <= s.max_scroll(vp) <= 0x2100_0000,
{
    let c = vp.columns as int;
    lemma_layout_wf(s, c);
    lemma_cells(s.layout(c), s.shelf.games.len() as int, c);
    let n = s.grid_len(c);
    lemma_grid_len_bound(s, vp);
    if n > 0 {
        assert(vp.cell_fits(n - 1));
    }
}

/// Where a step of the frame comes from.
spec fn part_of(s: AppView, vp: Viewport, scene: Scene, now: u64, k: int) -> int {
    let g = 1 + s.grid_cmds(vp, scene).len();
    let t = g + s.status_cmds(vp, scene).len();
    let r = t + s.row_cmds(scene).len();
    let m = r + s.modal_cmds(vp, scene, now).len();
    if k < 1 {
        0
    } else if k < g {
        1
    } else if k < t {
        2
    } else if k < r {
        3
    } else if k < m {
        4
    } else {
        5
    }
}

proof fn lemma_frame_part(s: AppView, vp: Viewport, scene: Scene, now: u64, k: int)
    requires
        0 <= k < s.frame(vp, scene, now).len(),
    ensures
        ({
            let cmd = s.frame(vp, scene, now)[k];
            let g = (1 + s.grid_cmds(vp, scene).len()) as int;
            let t = g + s.status_cmds(vp, scene).len();
            let r = t + s.row_cmds(scene).len();
            let m = r + s.modal_cmds(vp, scene, now).len();
            let part = part_of(s, vp, scene, now, k);
            &&& part == 0 ==> k == 0 && cmd == AppView::sidebar_cmd(vp)
            &&& part == 1 ==> cmd == s.grid_cmds(vp, scene)[k - 1] && !is_status(cmd)
                && !is_home_row(cmd) && !is_modal(cmd)
            &&& part == 2 ==> cmd == s.status_cmds(vp, scene)[k - g] && is_status(cmd)
            &&& part == 3 ==> cmd == s.row_cmds(scene)[k - t] && is_home_row(cmd)
            &&& part == 4 ==> cmd == s.modal_cmds(vp, scene, now)[k - r] && is_modal(cmd)
            &&& part == 5 ==> cmd == s.launch_cmds(vp)[k - m] && !is_status(cmd) && !is_home_row(cmd)
                && !is_modal(cmd)
        }),
{
    let part = part_of(s, vp, scene, now, k);
    if part == 1 {
        lemma_grid_has_no_status(s, vp, scene, k - 1);
    } else if part == 4 {
        let r = (1 + s.grid_cmds(vp, scene).len() + s.status_cmds(vp, scene).len() + s.row_cmds(
            scene,
        ).len()) as int;
        lemma_modal_is_modal(s, vp, scene, now, k - r);
    }
}

proof fn lemma_modal_is_modal(s: AppView, vp: Viewport, scene: Scene, now: u64, i: int)
    requires
        0 <= i < s.modal_cmds(vp, scene, now).len(),
    ensures
        is_modal(s.modal_cmds(vp, scene, now)[i]),
{
}

/// The right side of Home shows one thing at a time: while no host is selected the hint, where it
/// is rasterized; while the library loads the spinner, in the middle of what the host list leaves
/// of the width; after that the cards, and neither of the two.
pub proof fn law_home_shows_one_thing(s: AppView, vp: Viewport, scene: Scene, now: u64, k: int)
    requires
        vp.valid(),
        scene.valid(),
        vp.sidebar_w <= vp.screen_w,
        0 <= k < s.frame(vp, scene, now).len(),
    ensures
        ({
            let cmd = s.frame(vp, scene, now)[k];
            let r = place_of(cmd);
            &&& cmd matches DrawCmd::Tex { tile, .. } ==> {
                &&& tile == Tile::NoHost ==> s.hosts.selected_host is None && r == (Rect {
                    x: (vp.sidebar_w + vp.pad) as i32,
                    y: vp.top_y,
                    w: scene.hint_w,
                    h: scene.hint_h,
                })
                &&& tile is SpinnerFrame ==> {
                    &&& s.hosts.selected_host is Some && !s.canvas.grid_reveal_ready
                    &&& tile == Tile::SpinnerFrame(scene.spinner_frame)
                    &&& -1 <= 2 * (r.x - vp.sidebar_w) + r.w - (vp.screen_w - vp.sidebar_w) <= 1
                    &&& r.w == scene.spinner_w && r.h == scene.spinner_h
                    &&& scene.spinner_h <= vp.screen_h - vp.top_y ==> 5 * (r.y - vp.top_y) <= 2 * (
                    vp.screen_h - vp.top_y - r.h) < 5 * (r.y - vp.top_y + 1)
                }
            }
        }),
{
    lemma_frame_part(s, vp, scene, now, k);
    if part_of(s, vp, scene, now, k) == 1 && s.hosts.selected_host is Some
        && s.canvas.grid_reveal_ready {
        let n = s.grid_len(vp.columns as int);
        let cards = s.card_cmds(vp, scene, n);
        if k - 1 < cards.len() {
            lemma_cards_are_cards(s, vp, scene, n, k - 1);
            assert(s.grid_cmds(vp, scene)[k - 1] == cards[k - 1]);
        }
    }
}

/// Where the hint or the spinner is due it is drawn.
pub proof fn law_hint_or_spinner_is_shown(s: AppView, vp: Viewport, scene: Scene, now: u64)
    ensures
        s.frame(vp, scene, now).len() >= 1,
        s.hosts.selected_host is None && s.tiles.nohost_tile ==> s.frame(vp, scene, now).len() >= 2
            && (s.frame(vp, scene, now)[1] matches DrawCmd::Tex { tile, .. } && tile
            == Tile::NoHost),
        s.hosts.selected_host is Some && !s.canvas.grid_reveal_ready ==> s.frame(
            vp,
            scene,
            now,
        ).len() >= 2 && (s.frame(vp, scene, now)[1] matches DrawCmd::Tex { tile, .. } && tile
            == Tile::SpinnerFrame(scene.spinner_frame)),
        s.frame(vp, scene, now)[0] == (DrawCmd::Tex {
            tile: Tile::Sidebar,
            base: Rect { x: 0, y: 0, w: vp.sidebar_w, h: vp.screen_h },
            motion: Motion::Still,
        }),
{
    let grid = s.grid_cmds(vp, scene);
    if grid.len() > 0 {
        assert(s.frame(vp, scene, now)[1] == grid[0]);
    }
}

/// The status line is drawn exactly where there is something to say of a selected host and it is
/// rasterized: over a bar that ends at the bottom of the screen and begins at the host list.
pub proof fn law_status_line_is_shown(s: AppView, vp: Viewport, scene: Scene, now: u64)
    requires
        vp.valid(),
        scene.valid(),
        vp.sidebar_w <= vp.screen_w,
    ensures
        ({
            let all = s.frame(vp, scene, now);
            let due = s.hosts.selected_host is Some && s.home_status is Some && s.tiles.status_tile
                is Some;
            &&& due == exists|k: int|
                0 <= k < all.len() && (#[trigger] all[k] matches DrawCmd::Tex { tile, .. } && tile
                    == Tile::Status)
            &&& forall|k: int|
                0 <= k < all.len() && (#[trigger] all[k] matches DrawCmd::Fill { shade, .. } && shade
                    == Shade::StatusBar) ==> {
                    let bar = place_of(all[k]);
                    let text = place_of(all[k + 1]);
                    &&& due
                    &&& k + 1 < all.len()
                    &&& bar.x == vp.sidebar_w && bar.x + bar.w == vp.screen_w
                    &&& bar.y + bar.h == vp.screen_h
                    &&& bar.h == 2 * scene.status_line_h + 24
                    &&& all[k + 1]->Tex_tile == Tile::Status
                    &&& text.x == vp.sidebar_w + vp.pad
                    &&& text.w == scene.status_w && text.h == scene.status_h
                    &&& -1 <= 2 * (text.y - bar.y) + text.h - bar.h <= 1
                }
        }),
{
    let all = s.frame(vp, scene, now);
    let status = s.status_cmds(vp, scene);
    let n = (1 + s.grid_cmds(vp, scene).len()) as int;
    if status.len() > 0 {
        assert(all[n] == status[0]);
        assert(all[n + 1] == status[1]);
    }
    assert forall|k: int| 0 <= k < all.len() && is_status(#[trigger] all[k]) implies n <= k < n
        + status.len() && all[k] == status[k - n] by {
        lemma_frame_part(s, vp, scene, now, k);
    }
}

spec fn is_status(cmd: DrawCmd) -> bool {
    match cmd {
        DrawCmd::Tex { tile, .. } => tile == Tile::Status,
        DrawCmd::TexCropped { .. } => false,
        DrawCmd::Fill { shade, .. } => shade == Shade::StatusBar,
    }
}

proof fn lemma_grid_has_no_status(s: AppView, vp: Viewport, scene: Scene, k: int)
    requires
        0 <= k < s.grid_cmds(vp, scene).len(),
    ensures
        !is_status(s.grid_cmds(vp, scene)[k]),
        !is_home_row(s.grid_cmds(vp, scene)[k]),
        !is_modal(s.grid_cmds(vp, scene)[k]),
{
    if s.hosts.selected_host is Some && s.canvas.grid_reveal_ready {
        let n = s.grid_len(vp.columns as int);
        let cards = s.card_cmds(vp, scene, n);
        if k < cards.len() {
            lemma_cards_are_cards(s, vp, scene, n, k);
        }
    }
}

proof fn lemma_cards_are_cards(s: AppView, vp: Viewport, scene: Scene, n: int, k: int)
    requires
        0 <= k < s.card_cmds(vp, scene, n).len(),
    ensures
        s.card_cmds(vp, scene, n)[k] matches DrawCmd::Tex { tile, motion, .. } && tile is Card
            && motion is PopIn,
    decreases n,
{
    if n > 0 {
        let before = s.card_cmds(vp, scene, n - 1);
        if k < before.len() {
            lemma_cards_are_cards(s, vp, scene, n - 1, k);
        }
    }
}

spec fn is_home_row(cmd: DrawCmd) -> bool {
    cmd matches DrawCmd::Tex { tile, .. } && tile == Tile::FocusRow
}

/// Whether a step belongs to a modal.
pub open spec fn is_modal(cmd: DrawCmd) -> bool {
    match cmd {
        DrawCmd::Tex { tile, .. } => tile is Modal || tile is ModalFocusElement || tile
            is DropdownOverlay || tile is DropdownFocusOption || tile is ScrollIndicator,
        DrawCmd::TexCropped { .. } => true,
        DrawCmd::Fill { shade, .. } => shade == Shade::Scrim,
    }
}

/// The focused row of the host list is drawn exactly while the focus is in the list, round the row
/// or round the settings row at its end.
pub proof fn law_focused_row_is_shown(s: AppView, vp: Viewport, scene: Scene, now: u64, k: int)
    requires
        scene.valid(),
        0 <= k < s.frame(vp, scene, now).len(),
        s.frame(vp, scene, now)[k] matches DrawCmd::Tex { tile, .. } && tile == Tile::FocusRow,
    ensures
        !(s.nav.home_focus is Grid),
        ({
            let at = match s.nav.home_focus {
                HomeFocus::Sidebar(i) => i,
                HomeFocus::SidebarMenu(i) => i,
                HomeFocus::Grid(i) => i,
            };
            let row = if at == s.hosts.entries.len() + 1 {
                scene.settings_row
            } else {
                scene.sidebar_row
            };
            let r = place_of(s.frame(vp, scene, now)[k]);
            &&& r.x == row.x - scene.row_pad && r.y == row.y - scene.row_pad
            &&& r.w == row.w + 2 * scene.row_pad && r.h == row.h + 2 * scene.row_pad
        }),
{
    lemma_frame_part(s, vp, scene, now, k);
}

/// While the focus is in the host list its row is drawn.
pub proof fn law_list_focus_is_seen(s: AppView, vp: Viewport, scene: Scene, now: u64)
    requires
        !(s.nav.home_focus is Grid),
    ensures
        exists|k: int|
            0 <= k < s.frame(vp, scene, now).len() && (#[trigger] s.frame(vp, scene, now)[k]
                matches DrawCmd::Tex { tile, .. } && tile == Tile::FocusRow),
{
    let n = (1 + s.grid_cmds(vp, scene).len() + s.status_cmds(vp, scene).len()) as int;
    assert(s.frame(vp, scene, now)[n] == s.row_cmds(scene)[0]);
}

/// A modal is drawn exactly while another screen than Home is up, or still fades out, 200 ms long:
/// a scrim over the whole screen and the modal on it, all of it after everything of Home.
pub proof fn law_modal_covers_home(s: AppView, vp: Viewport, scene: Scene, now: u64)
    ensures
        ({
            let all = s.frame(vp, scene, now);
            let n = 1 + s.grid_cmds(vp, scene).len() + s.status_cmds(vp, scene).len() + s.row_cmds(
                scene,
            ).len();
            let shown = match s.nav.modal_fade.closing {
                Some((t, screen)) => if now < t || now - t < 200 {
                    screen
                } else {
                    s.nav.screen
                },
                None => s.nav.screen,
            };
            &&& s.drawn_screen(now) == shown
            &&& forall|k: int| 0 <= k < n ==> !is_modal(#[trigger] all[k])
            &&& shown == Screen::Home ==> forall|k: int|
                0 <= k < all.len() ==> !is_modal(#[trigger] all[k])
            &&& shown != Screen::Home ==> {
                &&& all.len() >= n + 2
                &&& all[n as int] == DrawCmd::Fill {
                    rect: Rect { x: 0, y: 0, w: vp.screen_w, h: vp.screen_h },
                    shade: Shade::Scrim,
                }
                &&& all[n as int + 1] matches DrawCmd::Tex { tile, base, motion } && tile == Tile::Modal
                    && base == (Rect { x: 0, y: 0, w: vp.screen_w, h: vp.screen_h }) && motion
                    == (Motion::Modal {
                    opening: !(s.nav.modal_fade.closing matches Some((t, _)) && (now < t || now - t
                        < 200)),
                })
            }
        }),
{
    let all = s.frame(vp, scene, now);
    let grid = s.grid_cmds(vp, scene);
    assert forall|k: int| 0 <= k < grid.len() implies !is_modal(#[trigger] grid[k]) by {
        lemma_grid_has_no_status(s, vp, scene, k);
    }
    let n = 1 + grid.len() + s.status_cmds(vp, scene).len() + s.row_cmds(scene).len();
    assert forall|k: int| 0 <= k < n implies !is_modal(#[trigger] all[k]) by {
        if 1 <= k < 1 + grid.len() {
            assert(all[k] == grid[k - 1]);
        }
    }
    if s.drawn_screen(now) != Screen::Home {
        let shell = s.shell_cmds(vp, now);
        assert(all[n as int] == shell[0]);
        assert(all[n as int + 1] == shell[1]);
    }
}

/// What a modal shows belongs to its screen: the focused widget on every screen that has one to
/// focus, the open list of choices on the settings, and the scrolled part of a list or a document
/// from the line that it is scrolled to on.
pub proof fn law_modal_shows_its_parts(s: AppView, vp: Viewport, scene: Scene, now: u64, k: int)
    requires
        scene.valid(),
        0 <= k < s.frame(vp, scene, now).len(),
    ensures
        ({
            let cmd = s.frame(vp, scene, now)[k];
            let screen = s.drawn_screen(now);
            let r = place_of(cmd);
            &&& cmd matches DrawCmd::Tex { tile, .. } ==> {
                &&& tile == Tile::ModalFocusElement ==> {
                    &&& screen != Screen::Home && screen != Screen::AddHost && screen
                        != Screen::EditHost && screen != Screen::About && screen != Screen::PinLimit
                    &&& screen == Screen::Wake ==> s.wake is Some && s.wake->0.mac.len() > 0
                    &&& screen == Screen::SpeedTest ==> (s.speed.speed_test matches Some(t) && (t
                        is Done || t is Failed))
                    &&& r.x == scene.widget.x - scene.row_pad && r.y == scene.widget.y
                        - scene.row_pad
                    &&& r.w == scene.widget.w + 2 * scene.row_pad && r.h == scene.widget.h + 2
                        * scene.row_pad
                }
                &&& tile == Tile::DropdownOverlay ==> screen == Screen::Settings && s.prefs.dropdown
                    is Some && r == scene.overlay
                &&& tile == Tile::DropdownFocusOption ==> screen == Screen::Settings
                    && s.prefs.dropdown is Some && r == scene.option
                &&& tile is ScrollIndicator ==> {
                    let g = scene.scroll_on(screen)->0;
                    &&& tile == Tile::ScrollIndicator(screen)
                    &&& g.total > g.visible
                    &&& s.prefs.scroll.shown_at is Some
                    &&& r.y == g.content.y && r.h == g.content.h && r.w == 10
                    &&& r.x + 26 == g.card.x + g.card.w
                }
            }
            &&& cmd matches DrawCmd::TexCropped { tile, src, base, .. } ==> {
                let g = scene.scroll_on(screen)->0;
                let last = if g.total > g.visible {
                    g.total - g.visible
                } else {
                    0
                };
                let line = if s.prefs.scroll.offset > last {
                    last
                } else {
                    s.prefs.scroll.offset as int
                };
                &&& tile == Tile::ScrollContent(screen)
                &&& base == g.content && src.w == base.w && src.h == base.h && src.x == 0
                &&& screen != Screen::About ==> src.y == line * g.stride
                &&& screen == Screen::About && s.prefs.content_window.start <= line ==> src.y == (line
                    - s.prefs.content_window.start) * g.stride
            }
        }),
{
    let all = s.frame(vp, scene, now);
    let grid = s.grid_cmds(vp, scene);
    let screen = s.drawn_screen(now);
    let n = 1 + grid.len() + s.status_cmds(vp, scene).len() + s.row_cmds(scene).len();
    let modal = s.modal_cmds(vp, scene, now);
    if 1 <= k < 1 + grid.len() {
        assert(all[k] == grid[k - 1]);
        lemma_grid_has_no_status(s, vp, scene, k - 1);
    }
    if is_modal(all[k]) {
        assert(n <= k < n + modal.len());
        assert(all[k] == modal[k - n]);
        if all[k] is TexCropped {
            let g = scene.scroll_on(screen)->0;
            let line = s.prefs.scroll.kept(g.total as int, g.visible as int);
            let from = if screen == Screen::About {
                line - s.prefs.content_window.start
            } else {
                line
            };
            let total = g.total as int;
            let stride = g.stride as int;
            if from >= 0 {
                assert(0 <= from * stride <= total * stride) by (nonlinear_arith)
                    requires
                        0 <= from <= total,
                        0 <= stride,
                ;
            }
        }
    }
}

/// The focused widget is drawn on every screen that has one to focus, and the open list of choices
/// on the settings.
pub proof fn law_modal_parts_are_seen(s: AppView, vp: Viewport, scene: Scene, now: u64)
    ensures
        ({
            let all = s.frame(vp, scene, now);
            let screen = s.drawn_screen(now);
            &&& screen == Screen::Settings || screen == Screen::Experimental || screen
                == Screen::Diagnostics || screen == Screen::Pairing || screen == Screen::ForgetHost
                || screen == Screen::HostMenu || screen == Screen::WakeSettings || (screen
                == Screen::Wake && s.wake is Some && s.wake->0.mac.len() > 0) || (screen
                == Screen::SpeedTest && (s.speed.speed_test matches Some(t) && (t is Done || t
                is Failed))) ==> exists|k: int|
                0 <= k < all.len() && (#[trigger] all[k] matches DrawCmd::Tex { tile, .. } && tile
                    == Tile::ModalFocusElement)
            &&& screen == Screen::Settings && s.prefs.dropdown is Some ==> (exists|k: int|
                0 <= k < all.len() && (#[trigger] all[k] matches DrawCmd::Tex { tile, .. } && tile
                    == Tile::DropdownOverlay)) && (exists|k: int|
                0 <= k < all.len() && (#[trigger] all[k] matches DrawCmd::Tex { tile, .. } && tile
                    == Tile::DropdownFocusOption))
            &&& scene.scroll_on(screen) is Some && screen != Screen::Home ==> exists|k: int|
                0 <= k < all.len() && (#[trigger] all[k] matches DrawCmd::TexCropped { tile, .. }
                    && tile == Tile::ScrollContent(screen))
        }),
{
    let all = s.frame(vp, scene, now);
    let screen = s.drawn_screen(now);
    let n = (1 + s.grid_cmds(vp, scene).len() + s.status_cmds(vp, scene).len() + s.row_cmds(
        scene,
    ).len()) as int;
    let modal = s.modal_cmds(vp, scene, now);
    assert forall|i: int| 0 <= i < modal.len() implies all[n + i] == #[trigger] modal[i] by {}
    if screen != Screen::Home {
        let g = scene.scroll_on(screen);
        let content = if g is Some {
            s.content_cmds(screen, g->0)
        } else {
            seq![]
        };
        let over = s.dropdown_cmds(screen, Tile::DropdownOverlay, scene.overlay);
        let widget = s.widget_cmds(screen, scene);
        let option = s.dropdown_cmds(screen, Tile::DropdownFocusOption, scene.option);
        let a = 2int;
        let b = a + content.len();
        let c = b + over.len();
        let d = c + widget.len();
        if content.len() > 0 {
            assert(modal[a] == content[0]);
            assert(all[n + a] == content[0]);
        }
        if over.len() > 0 {
            assert(modal[b] == over[0]);
            assert(all[n + b] == over[0]);
            assert(modal[d] == option[0]);
            assert(all[n + d] == option[0]);
        }
        if widget.len() > 0 {
            assert(modal[c] == widget[0]);
            assert(all[n + c] == widget[0]);
        }
    }
}

/// A launch that begins is drawn over everything: the launched card where it lies, and the whole
/// screen darkening over it as the last step. Without one, nothing is.
pub proof fn law_launch_is_drawn_last(s: AppView, vp: Viewport, scene: Scene, now: u64)
    requires
        s.fits(vp),
        s.shelf.launch_anim_idx matches Some(i) ==> vp.cell_fits(i as int),
    ensures
        ({
            let all = s.frame(vp, scene, now);
            let n = all.len() as int;
            match (s.shelf.launch_anim, s.shelf.launch_anim_idx) {
                (Some(since), Some(idx)) => {
                    &&& n >= 2
                    &&& all[n - 1] == DrawCmd::Fill {
                        rect: Rect { x: 0, y: 0, w: vp.screen_w, h: vp.screen_h },
                        shade: Shade::Launch { at: since },
                    }
                    &&& all[n - 2] matches DrawCmd::Tex { tile, base, motion } && tile == Tile::Card(
                        s.card_slot(idx as int, vp.columns as int),
                    ) && motion == (Motion::Launch { at: since }) && base.x == column_left(
                        vp,
                        idx as int,
                    ) && base.y == row_top(s, vp, idx as int) && base.w == vp.card_w && base.h
                        == vp.card_h
                },
                _ => forall|k: int|
                    0 <= k < n ==> !(#[trigger] all[k] matches DrawCmd::Fill { shade, .. } && shade
                        is Launch),
            }
        }),
{
    let all = s.frame(vp, scene, now);
    let grid = s.grid_cmds(vp, scene);
    let launch = s.launch_cmds(vp);
    if launch.len() > 0 {
        lemma_scrolled(s, vp, s.shelf.launch_anim_idx->0 as int);
        assert(all[all.len() - 1] == launch[1]);
        assert(all[all.len() - 2] == launch[0]);
    } else {
        assert forall|k: int| 0 <= k < all.len() implies !(#[trigger] all[k] matches DrawCmd::Fill {
            shade,
            ..
        } && shade is Launch) by {
            if 1 <= k < 1 + grid.len() {
                assert(all[k] == grid[k - 1]);
                lemma_grid_darkens_nothing(s, vp, scene, k - 1);
            }
        }
    }
}

proof fn lemma_grid_darkens_nothing(s: AppView, vp: Viewport, scene: Scene, k: int)
    requires
        0 <= k < s.grid_cmds(vp, scene).len(),
    ensures
        !(s.grid_cmds(vp, scene)[k] matches DrawCmd::Fill { shade, .. } && shade is Launch),
        s.grid_cmds(vp, scene)[k] matches DrawCmd::Tex { tile, .. } && tile == Tile::PinBadge
            ==> s.hosts.selected_host is Some && s.canvas.grid_reveal_ready && s.focused_cmds(
            vp,
            scene,
        ).contains(s.grid_cmds(vp, scene)[k]),
        s.grid_cmds(vp, scene)[k] matches DrawCmd::Fill { .. } ==> s.separator_cmds(vp).contains(
            s.grid_cmds(vp, scene)[k],
        ),
        s.grid_cmds(vp, scene)[k] matches DrawCmd::Tex { tile, .. } && tile == Tile::PinMove
            ==> s.flying_cmds(scene).contains(s.grid_cmds(vp, scene)[k]),
{
    if s.hosts.selected_host is Some && s.canvas.grid_reveal_ready {
        let n = s.grid_len(vp.columns as int);
        let cards = s.card_cmds(vp, scene, n);
        let sep = s.separator_cmds(vp);
        let f = s.focused_cmds(vp, scene);
        let fly = s.flying_cmds(scene);
        let a = cards.len();
        let b = a + sep.len();
        let c = b + f.len();
        let cmd = s.grid_cmds(vp, scene)[k];
        if k < a {
            lemma_cards_are_cards(s, vp, scene, n, k);
        } else if k < b {
            assert(sep[k - a] == cmd);
        } else if k < c {
            assert(f[k - b] == cmd);
        } else {
            assert(fly[k - c] == cmd);
        }
    }
}

/// A badge is drawn on the focused card alone, where it is pinned, in its top right corner.
pub proof fn law_badge_marks_the_pinned_card(
    s: AppView,
    vp: Viewport,
    scene: Scene,
    now: u64,
    k: int,
)
    requires
        s.fits(vp),
        scene.valid(),
        0 <= k < s.frame(vp, scene, now).len(),
        s.frame(vp, scene, now)[k] matches DrawCmd::Tex { tile, .. } && tile == Tile::PinBadge,
    ensures
        s.nav.home_focus matches HomeFocus::Grid(i) && {
            let r = place_of(s.frame(vp, scene, now)[k]);
            &&& i < s.grid_len(vp.columns as int)
            &&& r.x + r.w + 10 == column_left(vp, i as int) + vp.card_w
            &&& r.y == row_top(s, vp, i as int) + 10
            &&& r.w == scene.badge && r.h == scene.badge
            &&& s.selected_known() matches Some(h) && (s.pin_id_at(i as int, vp.columns as int)
                matches Some(id) && h.pinned.contains(id))
        },
{
    let grid = s.grid_cmds(vp, scene);
    lemma_grid_len_bound(s, vp);
    if 1 <= k < 1 + grid.len() {
        assert(s.frame(vp, scene, now)[k] == grid[k - 1]);
        lemma_grid_darkens_nothing(s, vp, scene, k - 1);
        let i = s.focused_cell(vp.columns as int)->0;
        assert(vp.cell_fits(i));
        lemma_scrolled(s, vp, i);
    }
}

/// The line that sets off the pinned cards lies between their last row and the first row of the
/// others, scrolled with them, and is drawn only where there are both.
pub proof fn law_line_lies_between(s: AppView, vp: Viewport, rows: int)
    requires
        s.fits(vp),
        s.separator(vp) is Some,
        0 <= rows,
        pinned_cards(s) <= rows * vp.columns < pinned_cards(s) + vp.columns,
    ensures
        ({
            let r = s.separator(vp)->0;
            let below = rows * vp.columns;
            &&& 0 < pinned_cards(s)
            &&& below < s.layout(vp.columns as int).cells(s.shelf.games.len() as int).len()
            &&& rows > 0 ==> row_top(s, vp, below - 1) + vp.card_h <= r.y <= row_top(s, vp, below)
            &&& rows > 0 ==> -1 <= (r.y - (row_top(s, vp, below - 1) + vp.card_h)) - (row_top(
                s,
                vp,
                below,
            ) - r.y) <= 1
            &&& r.x == vp.sidebar_w + vp.pad
            &&& r.h == 1
            &&& vp.sidebar_w + 2 * vp.pad <= vp.screen_w ==> r.x + r.w == vp.screen_w - vp.pad
        }),
{
    let c = vp.columns as int;
    let front = pinned_cards(s);
    lemma_rows_for(front, c);
    lemma_layout_wf(s, c);
    let r0 = rows_for(front, c);
    assert(rows == r0) by (nonlinear_arith)
        requires
            front <= rows * c < front + c,
            front <= r0 * c < front + c,
            c >= 1,
    ;
    assert(rows <= rows * c) by (nonlinear_arith)
        requires
            rows >= 0,
            c >= 1,
    ;
    lemma_cells(s.layout(c), s.shelf.games.len() as int, c);
    let below = rows * c;
    assert(vp.cell_fits(below));
    assert(below / c == rows) by (nonlinear_arith)
        requires
            below == rows * c,
            c >= 1,
    ;
    if rows > 0 {
        assert((below - 1) / c == rows - 1) by (nonlinear_arith)
            requires
                below == rows * c,
                c >= 1,
                rows > 0,
        ;
        let stride = vp.card_h + vp.gap;
        assert((rows - 1) * stride == rows * stride - stride) by (nonlinear_arith);
        assert((rows - 1) * c == rows * c - c) by (nonlinear_arith);
        assert((rows - 1) * c < front);
    }
}

/// A card on its way to another cell is drawn from where it was to where it goes, both moved up as
/// far as the grid is scrolled.
pub proof fn law_flight_follows_the_scroll(s: AppView, vp: Viewport, scene: Scene, now: u64, k: int)
    requires
        s.fits(vp),
        s.flights_fit(vp),
        0 <= k < s.frame(vp, scene, now).len(),
        s.frame(vp, scene, now)[k] matches DrawCmd::Tex { tile, .. } && tile == Tile::PinMove,
    ensures
        s.canvas.pin_move_anim matches Some((since, from, to)) && {
            let r = place_of(s.frame(vp, scene, now)[k]);
            &&& r.x == from.x && r.y == from.y - s.canvas.grid_scroll && r.w == from.w && r.h
                == from.h
            &&& s.frame(vp, scene, now)[k]->Tex_motion matches Motion::Fly { at, to: end, pad } && at
                == since && end.x == to.x && end.y == to.y - s.canvas.grid_scroll && end.w == to.w
                && end.h == to.h && pad == scene.card_pad
        },
{
    let grid = s.grid_cmds(vp, scene);
    if 1 <= k < 1 + grid.len() {
        assert(s.frame(vp, scene, now)[k] == grid[k - 1]);
        lemma_grid_darkens_nothing(s, vp, scene, k - 1);
    }
}

} // verus!
