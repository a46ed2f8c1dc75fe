//! Home: moving between the host list and the grid, and scrolling the grid.
use vstd::prelude::*;

use crate::app::grid::{pin_id_of, GridCard, GridLayout};
use crate::app::launch::DESKTOP_TITLE;
use crate::app::{App, AppView, CanvasView, HomeFocus, Nav};
use crate::geometry::{Rect, Viewport, MAX_LENGTH};
use crate::seqs::lemma_index_in;
use crate::store::{entry_index, find_entry, find_host, find_text, DESKTOP_PIN_ID};

verus! {

broadcast use crate::seqs::group_views;

/// More rows or titles than this cannot be held.
pub const LIMIT: usize = 0x1000_0000;

/// How far the focus ring and a little air reach beyond a card.
pub const FOCUS_MARGIN: i32 = 16;

/// Whole rows that `n` cards take.
pub open spec fn rows_for(n: int, columns: int) -> int {
    if n <= 0 {
        0
    } else {
        (n + columns - 1) / columns
    }
}

/// `n` cards reach into their last row and not beyond it.
pub proof fn lemma_rows_for(n: int, columns: int)
    requires
        0 <= n,
        1 <= columns,
    ensures
        0 <= rows_for(n, columns),
        n <= rows_for(n, columns) * columns < n + columns,
{
    if n > 0 {
        let x = n + columns - 1;
        let q = x / columns;
        vstd::arithmetic::div_mod::lemma_fundamental_div_mod(x, columns);
        vstd::arithmetic::div_mod::lemma_mod_bound(x, columns);
        assert(columns * q == q * columns) by (nonlinear_arith);
        assert(q >= 0) by (nonlinear_arith)
            requires
                q * columns > 0,
                columns >= 1,
        ;
    } else {
        assert(rows_for(n, columns) * columns == 0);
    }
}

impl AppView {
    /// Whether the desktop card is pinned for the selected host.
    pub open spec fn desktop_pinned(self) -> bool {
        self.shelf.games_loaded && self.selected_known() is Some
            && self.selected_known()->0.pinned.contains(DESKTOP_PIN_ID@)
    }

    /// The shape of the grid in this many columns.
    pub open spec fn layout(self, columns: int) -> GridLayout {
        let front = self.shelf.pinned_count + (if self.desktop_pinned() { 1int } else { 0int });
        GridLayout {
            pinned_count: self.shelf.pinned_count,
            desktop_pinned: self.desktop_pinned(),
            desktop_in_rest: self.shelf.games_loaded && !self.desktop_pinned(),
            front_count: front as usize,
            pinned_rows: rows_for(front, columns) as usize,
            unpinned_start: (rows_for(front, columns) * columns) as usize,
        }
    }

    /// The library can be laid out in this many columns.
    pub open spec fn sized(self, columns: int) -> bool {
        &&& self.shelf.pinned_count <= LIMIT
        &&& self.shelf.games.len() <= LIMIT
        &&& 1 <= columns <= MAX_LENGTH
    }

    /// The number of cells: none until a host is selected.
    pub open spec fn grid_len(self, columns: int) -> int {
        if self.hosts.selected_host is None {
            0
        } else {
            self.layout(columns).cells(self.shelf.games.len() as int).len() as int
        }
    }

    /// The card in cell `idx`.
    pub open spec fn card_at(self, idx: int, columns: int) -> Option<GridCard> {
        self.layout(columns).card(self.shelf.games.len() as int, idx)
    }

    /// The pin id of the card in cell `idx`.
    pub open spec fn pin_id_at(self, idx: int, columns: int) -> Option<Seq<char>> {
        match self.card_at(idx, columns) {
            Some(card) => Some(pin_id_of(self.shelf.games, card)),
            None => None,
        }
    }

    /// What the card in cell `idx` shows: its title, and the game whose cover it carries, once
    /// that is decoded. The desktop's card has no cover.
    pub open spec fn card_content(self, idx: int, columns: int) -> (Seq<char>, Option<Seq<char>>) {
        match self.card_at(idx, columns) {
            Some(GridCard::Game(g)) => {
                let game = self.shelf.games[g as int];
                (
                    game.title,
                    if self.shelf.art.contains(game.id) {
                        Some(game.id)
                    } else {
                        None
                    },
                )
            },
            _ => (DESKTOP_TITLE@, None),
        }
    }

    /// The sidebar row of the selected host.
    pub open spec fn selected_row(self) -> Option<int> {
        match self.hosts.selected_host {
            Some((h, p)) => if entry_index(self.hosts.entries, h, p) < self.hosts.entries.len() {
                Some(entry_index(self.hosts.entries, h, p))
            } else {
                None
            },
            None => None,
        }
    }
}

/// A library that can be laid out is laid out well.
pub proof fn lemma_layout_wf(s: AppView, columns: int)
    requires
        s.sized(columns),
    ensures
        s.layout(columns).wf(s.shelf.games.len() as int, columns),
        s.layout(columns).unpinned_start < s.shelf.pinned_count + 1 + columns,
{
    let front = s.shelf.pinned_count + (if s.desktop_pinned() { 1int } else { 0int });
    lemma_rows_for(front, columns);
    let rows = rows_for(front, columns);
    assert(rows <= rows * columns) by (nonlinear_arith)
        requires
            rows >= 0,
            columns >= 1,
    ;
}

impl App {
    /// The number of sidebar rows: the hosts, "Add host" and "Settings".
    pub fn sidebar_len(&self) -> (r: usize)
        requires
            self@.hosts.entries.len() <= LIMIT,
        ensures
            r == self@.hosts.entries.len() + 2,
    {
        self.hosts.entries.len() + 2
    }

    /// Where the saved record of the selected host stands.
    pub fn selected_known_host(&self) -> (r: Option<usize>)
        ensures
            match r {
                Some(i) => i < self.hosts.known_hosts.len() && self@.selected_known() == Some(
                    self.hosts.known_hosts@[i as int]@,
                ) && self.hosts.selected_host is Some && i == crate::store::host_index(
                    self@.hosts.known_hosts,
                    (self.hosts.selected_host->0).0@,
                    (self.hosts.selected_host->0).1,
                ),
                None => self@.selected_known() is None,
            },
    {
        match &self.hosts.selected_host {
            Some((h, p)) => find_host(&self.hosts.known_hosts, h.as_str(), *p),
            None => None,
        }
    }

    /// The shape of the grid in this many columns.
    pub fn grid_layout(&self, columns: usize) -> (r: GridLayout)
        requires
            self@.sized(columns as int),
        ensures
            r == self@.layout(columns as int),
            r.wf(self.shelf.games.len() as int, columns as int),
    {
        let pinned = match self.selected_known_host() {
            Some(i) => self.hosts.known_hosts[i].is_pinned(DESKTOP_PIN_ID),
            None => false,
        };
        let desktop_pinned = self.shelf.games_loaded && pinned;
        let extra: usize = if desktop_pinned {
            1
        } else {
            0
        };
        let front_count: usize = self.shelf.pinned_count + extra;
        proof {
            lemma_layout_wf(self@, columns as int);
            lemma_rows_for(front_count as int, columns as int);
        }
        let pinned_rows: usize = if front_count == 0 {
            0
        } else {
            (front_count + columns - 1) / columns
        };
        GridLayout {
            pinned_count: self.shelf.pinned_count,
            desktop_pinned,
            desktop_in_rest: self.shelf.games_loaded && !desktop_pinned,
            front_count,
            pinned_rows,
            unpinned_start: pinned_rows * columns,
        }
    }

    /// The number of cells of the grid.
    pub fn grid_len(&self, columns: usize) -> (r: usize)
        requires
            self@.sized(columns as int),
        ensures
            r == self@.grid_len(columns as int),
    {
        if self.hosts.selected_host.is_none() {
            return 0;
        }
        let layout = self.grid_layout(columns);
        layout.len(self.shelf.games.len())
    }

    /// The card in cell `idx`.
    pub fn grid_card_at(&self, idx: usize, columns: usize) -> (r: Option<GridCard>)
        requires
            self@.sized(columns as int),
        ensures
            r == self@.card_at(idx as int, columns as int),
            r matches Some(GridCard::Game(g)) ==> g < self.shelf.games.len(),
    {
        let layout = self.grid_layout(columns);
        layout.card_at(self.shelf.games.len(), idx)
    }

    /// Whether cell `idx` holds a card.
    pub fn is_grid_card(&self, idx: usize, columns: usize) -> (r: bool)
        requires
            self@.sized(columns as int),
        ensures
            r == (self@.card_at(idx as int, columns as int) is Some),
    {
        self.grid_card_at(idx, columns).is_some()
    }

    /// The title on the card in cell `idx`, and the game whose cover goes under it.
    pub fn grid_card_content(&self, idx: usize, columns: usize) -> (r: (String, Option<String>))
        requires
            self@.sized(columns as int),
            self@.card_at(idx as int, columns as int) is Some,
        ensures
            r.0@ == self@.card_content(idx as int, columns as int).0,
            match r.1 {
                Some(id) => self@.card_content(idx as int, columns as int).1 == Some(id@),
                None => self@.card_content(idx as int, columns as int).1 is None,
            },
    {
        match self.grid_card_at(idx, columns) {
            Some(GridCard::Game(g)) => {
                let game = &self.shelf.games[g];
                proof {
                    lemma_index_in(self@.shelf.art, game.id@);
                }
                let cover = if find_text(&self.shelf.art, game.id.as_str()).is_some() {
                    Some(game.id.clone())
                } else {
                    None
                };
                (game.title.clone(), cover)
            },
            _ => (DESKTOP_TITLE.to_owned(), None),
        }
    }

    /// The pin id of the card in cell `idx`.
    pub fn pin_id_at_grid_idx(&self, idx: usize, columns: usize) -> (r: Option<String>)
        requires
            self@.sized(columns as int),
        ensures
            match r {
                Some(id) => self@.pin_id_at(idx as int, columns as int) == Some(id@),
                None => self@.pin_id_at(idx as int, columns as int) is None,
            },
    {
        match self.grid_card_at(idx, columns) {
            None => None,
            Some(GridCard::Desktop) => Some(DESKTOP_PIN_ID.to_owned()),
            Some(GridCard::Game(g)) => Some(self.shelf.games[g].id.clone()),
        }
    }

    /// The cell of the card with this pin id.
    pub fn grid_idx_for_pin_id(&self, id: &str, columns: usize) -> (r: Option<usize>)
        requires
            self@.sized(columns as int),
        ensures
            match r {
                Some(i) => self@.layout(columns as int).cell_of(self@.shelf.games, id@) == Some(
                    i as int,
                ),
                None => self@.layout(columns as int).cell_of(self@.shelf.games, id@) is None,
            },
    {
        let layout = self.grid_layout(columns);
        layout.idx_for_pin_id(&self.shelf.games, id)
    }

    /// The sidebar row of the selected host, if it has one.
    pub fn sidebar_index_of_selected_host(&self) -> (r: Option<usize>)
        ensures
            match r {
                Some(i) => self@.selected_row() == Some(i as int),
                None => self@.selected_row() is None,
            },
    {
        match &self.hosts.selected_host {
            Some((h, p)) => find_entry(&self.hosts.entries, h.as_str(), *p),
            None => None,
        }
    }
}

impl AppView {
    /// More cells than the grid can have.
    pub open spec fn cell_bound(self, columns: int) -> int {
        self.shelf.pinned_count + 2 * self.shelf.games.len() + columns + 2
    }

    /// Everything on the grid has screen coordinates.
    pub open spec fn fits(self, vp: Viewport) -> bool {
        &&& vp.valid()
        &&& self.sized(vp.columns as int)
        &&& vp.grid_fits(self.cell_bound(vp.columns as int))
        &&& 0 <= self.canvas.grid_scroll <= 0x4000_0000
        &&& 0 <= self.canvas.grid_scroll_target <= 0x4000_0000
    }

    /// Space added above the row of cell `idx`: the gap below the pinned block, once.
    pub open spec fn row_gap(self, vp: Viewport, idx: int) -> int {
        let rows = self.layout(vp.columns as int).pinned_rows;
        if rows > 0 && idx / vp.columns as int >= rows {
            vp.section_gap as int
        } else {
            0
        }
    }

    /// Where the card in cell `idx` lies before scrolling.
    pub open spec fn unscrolled(self, vp: Viewport, idx: int) -> Rect {
        Rect {
            x: vp.cell(idx).0 as i32,
            y: (vp.cell(idx).1 + self.row_gap(vp, idx)) as i32,
            w: vp.card_w,
            h: vp.card_h,
        }
    }

    /// Where the card in cell `idx` lies on screen.
    pub open spec fn scrolled(self, vp: Viewport, idx: int) -> Rect {
        let r = self.unscrolled(vp, idx);
        Rect { y: (r.y - self.canvas.grid_scroll) as i32, ..r }
    }

    /// Whether something follows the pinned block.
    pub open spec fn has_divider(self, vp: Viewport) -> bool {
        let layout = self.layout(vp.columns as int);
        layout.pinned_rows > 0 && layout.cells(self.shelf.games.len() as int).len()
            > layout.unpinned_start
    }

    /// The lowest line between the pinned block and the rest, scrolled.
    pub open spec fn separator(self, vp: Viewport) -> Option<Rect> {
        if self.has_divider(vp) {
            Some(
                Rect {
                    x: (vp.sidebar_w + vp.pad) as i32,
                    y: (vp.top_y + self.layout(vp.columns as int).pinned_rows * vp.stride() - vp.gap
                        / 2 + vp.section_gap / 2 - self.canvas.grid_scroll) as i32,
                    w: (if vp.available() >= 2 * vp.pad {
                        vp.available() - 2 * vp.pad
                    } else {
                        0
                    }) as u32,
                    h: 1,
                },
            )
        } else {
            None
        }
    }

    /// How far the grid can be scrolled: nowhere while all of it is in view.
    pub open spec fn max_scroll(self, vp: Viewport) -> int {
        let viewport_h = vp.screen_h - vp.pad - vp.top_y;
        let extra = if self.has_divider(vp) {
            vp.section_gap as int
        } else {
            0
        };
        let over = vp.grid_height(self.grid_len(vp.columns as int)) + extra - viewport_h;
        if over > 0 {
            over
        } else {
            0
        }
    }

    /// After moving the focus to cell `idx`: the grid scrolls just far enough to show the card.
    pub open spec fn ensured(self, vp: Viewport, idx: int, now: u64) -> AppView {
        let r = self.unscrolled(vp, idx);
        AppView {
            nav: Nav { focus_anim: Some(now), ..self.nav },
            canvas: CanvasView {
                grid_scroll_target: scroll_to(
                    self.canvas.grid_scroll_target as int,
                    r.y - FOCUS_MARGIN,
                    r.y + r.h + FOCUS_MARGIN,
                    vp.top_y as int,
                    vp.screen_h - vp.pad,
                    self.max_scroll(vp),
                ) as i32,
                ..self.canvas
            },
            ..self
        }
    }

    /// After scrolling the grid by `dy` pixels.
    pub open spec fn grid_scrolled(self, vp: Viewport, dy: int) -> AppView {
        if self.hosts.selected_host is None {
            self
        } else {
            AppView {
                canvas: CanvasView {
                    grid_scroll_target: clamped(
                        self.canvas.grid_scroll_target + dy,
                        self.max_scroll(vp),
                    ) as i32,
                    ..self.canvas
                },
                ..self
            }
        }
    }
}

/// `x` brought into `0..=max`.
pub open spec fn clamped(x: int, max: int) -> int {
    if x < 0 {
        0
    } else if x > max {
        max
    } else {
        x
    }
}

/// The scroll offset, nearest to `target`, at which `top..bottom` lies in `view_top..view_bottom`,
/// brought into the range of the grid.
pub open spec fn scroll_to(
    target: int,
    top: int,
    bottom: int,
    view_top: int,
    view_bottom: int,
    max: int,
) -> int {
    clamped(
        if top - target < view_top {
            top - view_top
        } else if bottom - target > view_bottom {
            bottom - view_bottom
        } else {
            target
        },
        max,
    )
}

fn clamp_to(x: i32, max: i32) -> (r: i32)
    requires
        max >= 0,
    ensures
        r as int == clamped(x as int, max as int),
{
    if x < 0 {
        0
    } else if x > max {
        max
    } else {
        x
    }
}

/// The focus on sidebar row `index`: on its menu button where that is wanted and it has one.
pub open spec fn focus_for(index: usize, host_count: int, prefer_menu: bool) -> HomeFocus {
    if prefer_menu && index < host_count {
        HomeFocus::SidebarMenu(index)
    } else {
        HomeFocus::Sidebar(index)
    }
}

/// The focus on sidebar row `index`, kept in the column of menu buttons where it can be.
pub fn sidebar_focus_for(index: usize, host_count: usize, prefer_menu: bool) -> (r: HomeFocus)
    ensures
        r == focus_for(index, host_count as int, prefer_menu),
{
    if prefer_menu && index < host_count {
        HomeFocus::SidebarMenu(index)
    } else {
        HomeFocus::Sidebar(index)
    }
}

impl App {
    /// Space added above the row of cell `idx`.
    pub fn extra_row_gap(&self, vp: &Viewport, idx: usize) -> (r: i32)
        requires
            self@.fits(*vp),
        ensures
            r == self@.row_gap(*vp, idx as int),
            0 <= r <= MAX_LENGTH,
    {
        let layout = self.grid_layout(vp.columns);
        if layout.pinned_rows > 0 && idx / vp.columns >= layout.pinned_rows {
            vp.section_gap
        } else {
            0
        }
    }

    /// Where the card in cell `idx` lies before scrolling.
    pub fn unscrolled_card_rect(&self, vp: &Viewport, idx: usize) -> (r: Rect)
        requires
            self@.fits(*vp),
            vp.cell_fits(idx as int),
        ensures
            r == self@.unscrolled(*vp, idx as int),
            0 <= r.y <= 0x2000_0000 + 2 * MAX_LENGTH,
            0 <= r.x <= 0x2000_0000 + 2 * MAX_LENGTH,
            r.y == vp.cell(idx as int).1 + self@.row_gap(*vp, idx as int),
            r.x == vp.cell(idx as int).0,
    {
        assert(vp.cell_fits(idx as int));
        let (x, y) = vp.cell_at(idx);
        let extra: i32 = self.extra_row_gap(vp, idx);
        Rect { x, y: y + extra, w: vp.card_w, h: vp.card_h }
    }

    /// Where the card in cell `idx` lies on screen.
    pub fn scrolled_card_rect(&self, vp: &Viewport, idx: usize) -> (r: Rect)
        requires
            self@.fits(*vp),
            vp.cell_fits(idx as int),
        ensures
            r == self@.scrolled(*vp, idx as int),
            -0x4000_0000 <= r.y <= 0x2000_0000 + 2 * MAX_LENGTH,
            0 <= r.x <= 0x2000_0000 + 2 * MAX_LENGTH,
    {
        let r = self.unscrolled_card_rect(vp, idx);
        Rect { x: r.x, y: r.y - self.canvas.grid_scroll, w: r.w, h: r.h }
    }

    /// Whether something follows the pinned block.
    pub fn has_pinned_divider(&self, vp: &Viewport) -> (r: bool)
        requires
            self@.fits(*vp),
        ensures
            r == self@.has_divider(*vp),
    {
        let layout = self.grid_layout(vp.columns);
        layout.pinned_rows > 0 && layout.len(self.shelf.games.len()) > layout.unpinned_start
    }

    /// The line between the pinned block and the rest, scrolled with the grid.
    pub fn pinned_separator_rect(&self, vp: &Viewport) -> (r: Option<Rect>)
        requires
            self@.fits(*vp),
        ensures
            r == self@.separator(*vp),
    {
        if !self.has_pinned_divider(vp) {
            return None;
        }
        let layout = self.grid_layout(vp.columns);
        let rows: usize = layout.pinned_rows;
        proof {
            lemma_layout_wf(self@, vp.columns as int);
            let c = vp.columns as int;
            assert(vp.cell_fits(rows * c));
            assert((rows * c) / c == rows as int) by (nonlinear_arith)
                requires
                    c >= 1,
            ;
            let stride = vp.stride();
            assert(rows <= rows * stride) by (nonlinear_arith)
                requires
                    rows >= 0,
                    stride >= 1,
            ;
        }
        let y: i64 = vp.top_y as i64 + rows as i64 * (vp.card_h as i64 + vp.gap as i64) - (vp.gap
            / 2) as i64 + (vp.section_gap / 2) as i64 - self.canvas.grid_scroll as i64;
        let w: u32 = vp.available_w().saturating_sub(2 * vp.pad as u32);
        Some(Rect { x: vp.sidebar_w as i32 + vp.pad, y: y as i32, w, h: 1 })
    }

    /// How far the grid can be scrolled.
    pub fn max_grid_scroll(&self, vp: &Viewport) -> (r: i32)
        requires
            self@.fits(*vp),
        ensures
            r as int == self@.max_scroll(*vp),
            0 <= r <= 0x2000_0000 + 4 * MAX_LENGTH,
    {
        let viewport_h: i32 = vp.screen_h as i32 - vp.pad - vp.top_y;
        let extra: i32 = if self.has_pinned_divider(vp) {
            vp.section_gap
        } else {
            0
        };
        let len: usize = self.grid_len(vp.columns);
        proof {
            lemma_layout_wf(self@, vp.columns as int);
            crate::app::grid::lemma_cells(
                self@.layout(vp.columns as int),
                self@.shelf.games.len() as int,
                vp.columns as int,
            );
            if len > 0 {
                assert(vp.cell_fits(len - 1));
            }
        }
        let over: i32 = vp.height_of(len) + extra - viewport_h;
        if over > 0 {
            over
        } else {
            0
        }
    }

    /// Scrolls the grid just far enough to show the card in cell `idx`, which the focus has moved
    /// to.
    pub fn ensure_grid_visible(&mut self, vp: &Viewport, idx: usize, now: u64)
        requires
            old(self)@.fits(*vp),
            idx <= old(self)@.cell_bound(vp.columns as int),
        ensures
            final(self)@ == old(self)@.ensured(*vp, idx as int, now),
            final(self)@.fits(*vp),
    {
        let r = self.unscrolled_card_rect(vp, idx);
        let max: i32 = self.max_grid_scroll(vp);
        let top: i32 = r.y - FOCUS_MARGIN;
        let bottom: i32 = r.y + r.h as i32 + FOCUS_MARGIN;
        let view_bottom: i32 = vp.screen_h as i32 - vp.pad;
        let mut target: i32 = self.canvas.grid_scroll_target;
        if top - target < vp.top_y {
            target = top - vp.top_y;
        } else if bottom - target > view_bottom {
            target = bottom - view_bottom;
        }
        self.nav.focus_anim = Some(now);
        self.canvas.grid_scroll_target = clamp_to(target, max);
    }

    /// Scrolls the grid by `dy_px` pixels. Returns whether the target moved.
    pub fn scroll_grid_by(&mut self, vp: &Viewport, dy_px: i32) -> (changed: bool)
        requires
            old(self)@.fits(*vp),
        ensures
            final(self)@ == old(self)@.grid_scrolled(*vp, dy_px as int),
            changed == (final(self)@.canvas.grid_scroll_target
                != old(self)@.canvas.grid_scroll_target),
            final(self)@.fits(*vp),
    {
        if self.hosts.selected_host.is_none() {
            return false;
        }
        let max: i32 = self.max_grid_scroll(vp);
        let wide: i64 = self.canvas.grid_scroll_target as i64 + dy_px as i64;
        let next: i32 = if wide < 0 {
            0
        } else if wide > max as i64 {
            max
        } else {
            wide as i32
        };
        let changed = next != self.canvas.grid_scroll_target;
        self.canvas.grid_scroll_target = next;
        changed
    }
}

/// The scroll target is within the grid after every scroll.
pub proof fn law_scroll_in_range(s: AppView, vp: Viewport, idx: int, dy: int, now: u64)
    requires
        s.fits(vp),
        0 <= idx <= s.cell_bound(vp.columns as int),
        s.hosts.selected_host is Some,
        s.max_scroll(vp) <= i32::MAX,
    ensures
        0 <= s.ensured(vp, idx, now).canvas.grid_scroll_target <= s.max_scroll(vp),
        0 <= s.grid_scrolled(vp, dy).canvas.grid_scroll_target <= s.max_scroll(vp),
{
}

/// The card that the focus has moved to is wholly in view once the scroll has reached its target,
/// on a screen that has room for a card and its margin.
pub proof fn law_focused_card_in_view(s: AppView, vp: Viewport, idx: int, now: u64)
    requires
        s.fits(vp),
        s.hosts.selected_host is Some,
        0 <= idx < s.grid_len(vp.columns as int),
        vp.card_h + 2 * FOCUS_MARGIN <= vp.screen_h - vp.pad - vp.top_y,
    ensures
        ({
            let target = s.ensured(vp, idx, now).canvas.grid_scroll_target;
            let y = vp.cell(idx).1 + s.row_gap(vp, idx);
            vp.top_y <= y - target && y + vp.card_h - target <= vp.screen_h - vp.pad
        }),
{
    let c = vp.columns as int;
    let games = s.shelf.games.len() as int;
    let n = s.grid_len(c);
    lemma_layout_wf(s, c);
    let layout = s.layout(c);
    crate::app::grid::lemma_cells(layout, games, c);
    assert(vp.cell_fits(idx));
    assert(vp.cell_fits(n - 1));
    let row = idx / c;
    let last = (n - 1) / c;
    let stride = vp.stride();
    assert(0 <= row <= last) by (nonlinear_arith)
        requires
            0 <= idx <= n - 1,
            c >= 1,
            row == idx / c,
            last == (n - 1) / c,
    ;
    assert(row * stride <= last * stride) by (nonlinear_arith)
        requires
            row <= last,
            stride >= 1,
    ;
    if layout.pinned_rows > 0 && row >= layout.pinned_rows {
        let rows = layout.pinned_rows as int;
        assert(idx >= rows * c) by (nonlinear_arith)
            requires
                row == idx / c,
                row >= rows,
                idx >= 0,
                c >= 1,
        ;
    }
}

/// The shape of the grid follows from what is pinned: the pinned games and, where it is pinned for
/// the selected host, the desktop stand in front, in rows of their own; while the library is there
/// the desktop stands either among them or among the rest.
pub proof fn law_layout_follows_the_pins(s: AppView, columns: int)
    requires
        s.sized(columns),
    ensures
        ({
            let l = s.layout(columns);
            let desktop = s.shelf.games_loaded && (s.hosts.selected_host matches Some((h, p))
                && crate::store::host_at(s.hosts.known_hosts, h, p) matches Some(k)
                && k.pinned.contains("desktop"@));
            &&& l.pinned_count == s.shelf.pinned_count
            &&& l.desktop_pinned == desktop
            &&& l.desktop_in_rest == (s.shelf.games_loaded && !desktop)
            &&& l.front_count == s.shelf.pinned_count + if desktop {
                1int
            } else {
                0int
            }
            &&& l.front_count <= l.unpinned_start < l.front_count + columns
            &&& l.unpinned_start as int % columns == 0
            &&& l.unpinned_start == l.pinned_rows * columns
        }),
{
    lemma_layout_wf(s, columns);
    let rows = s.layout(columns).pinned_rows as int;
    assert((rows * columns) % columns == 0) by {
        vstd::arithmetic::div_mod::lemma_mod_multiples_basic(rows, columns);
    }
}

/// A card shows the title of its game, and its cover once that is decoded; the desktop's card
/// shows that it is the desktop. Its pin id is its game's id.
pub proof fn law_card_shows_its_game(s: AppView, columns: int, idx: int)
    ensures
        match s.card_at(idx, columns) {
            Some(GridCard::Game(g)) => {
                let game = s.shelf.games[g as int];
                &&& s.card_content(idx, columns).0 == game.title
                &&& s.card_content(idx, columns).1 == (if s.shelf.art.contains(game.id) {
                    Some(game.id)
                } else {
                    None
                })
                &&& s.pin_id_at(idx, columns) == Some(game.id)
            },
            Some(GridCard::Desktop) => s.card_content(idx, columns).0 == "Desktop"@
                && s.card_content(idx, columns).1 is None && s.pin_id_at(idx, columns) == Some(
                "desktop"@,
            ),
            None => s.pin_id_at(idx, columns) is None,
        },
        s.hosts.selected_host is None ==> s.grid_len(columns) == 0,
{
}

/// Scrolled as far as it goes, the grid ends at the bottom of the screen less its pad; one that
/// fits is not scrolled at all.
pub proof fn law_scroll_ends_with_the_grid(s: AppView, vp: Viewport)
    requires
        s.fits(vp),
        s.hosts.selected_host is Some,
    ensures
        ({
            let n = s.grid_len(vp.columns as int);
            let bottom = vp.cell(n - 1).1 + s.row_gap(vp, n - 1) + vp.card_h;
            &&& n > 0 && bottom > vp.screen_h - vp.pad ==> bottom - s.max_scroll(vp) == vp.screen_h
                - vp.pad
            &&& n > 0 && bottom <= vp.screen_h - vp.pad ==> s.max_scroll(vp) == 0
            &&& s.max_scroll(vp) >= 0
        }),
{
    let c = vp.columns as int;
    lemma_layout_wf(s, c);
    let layout = s.layout(c);
    crate::app::grid::lemma_cells(layout, s.shelf.games.len() as int, c);
    let n = s.grid_len(c);
    let rows = layout.pinned_rows as int;
    if n > 0 {
        assert((n - 1) / c >= rows <==> n - 1 >= rows * c) by (nonlinear_arith)
            requires
                c >= 1,
                n >= 1,
        ;
    }
}

/// A card that is in view with its margin does not make the grid scroll; another makes it scroll
/// only so far that its edge meets the edge of the view, as far as the grid goes.
pub proof fn law_scroll_is_as_short_as_can_be(s: AppView, vp: Viewport, idx: int, now: u64)
    requires
        s.fits(vp),
        0 <= idx <= s.cell_bound(vp.columns as int),
        0 <= s.canvas.grid_scroll_target <= s.max_scroll(vp) <= i32::MAX,
    ensures
        ({
            let was = s.canvas.grid_scroll_target as int;
            let now_at = s.ensured(vp, idx, now).canvas.grid_scroll_target as int;
            let top = vp.cell(idx).1 + s.row_gap(vp, idx) - 16;
            let bottom = top + vp.card_h + 32;
            let view = vp.screen_h - vp.pad;
            &&& vp.top_y <= top - was && bottom - was <= view ==> now_at == was
            &&& top - was < vp.top_y && 0 <= top - vp.top_y <= s.max_scroll(vp) ==> top - now_at
                == vp.top_y
            &&& vp.top_y <= top - was && bottom - was > view && bottom - view <= s.max_scroll(vp)
                ==> bottom - now_at == view
            &&& s.ensured(vp, idx, now).nav.home_focus == s.nav.home_focus
            &&& s.ensured(vp, idx, now).canvas.grid_scroll == s.canvas.grid_scroll
        }),
{
    assert(vp.cell_fits(idx));
}

/// The wheel moves the target of the scroll by what it turned, and stops at the ends of the grid.
pub proof fn law_wheel_scrolls(s: AppView, vp: Viewport, dy: int)
    requires
        s.hosts.selected_host is Some,
        s.max_scroll(vp) <= i32::MAX,
    ensures
        ({
            let to = s.grid_scrolled(vp, dy).canvas.grid_scroll_target as int;
            let asked = s.canvas.grid_scroll_target + dy;
            &&& 0 <= asked <= s.max_scroll(vp) ==> to == asked
            &&& asked < 0 ==> to == 0
            &&& asked > s.max_scroll(vp) && asked >= 0 ==> to == s.max_scroll(vp)
        }),
        s.grid_scrolled(vp, dy).nav == s.nav,
        s.grid_scrolled(vp, dy).canvas.grid_scroll == s.canvas.grid_scroll,
{
}

/// The focus stays in the column of menu buttons for as long as the row has one, and is on the row
/// itself everywhere else.
pub proof fn law_menu_column_is_kept(index: usize, host_count: int)
    ensures
        focus_for(index, host_count, false) == HomeFocus::Sidebar(index),
        index < host_count ==> focus_for(index, host_count, true) == HomeFocus::SidebarMenu(index),
        index >= host_count ==> focus_for(index, host_count, true) == HomeFocus::Sidebar(index),
{
}

} // verus!
