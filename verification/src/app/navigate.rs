//! Home: what the remote does on it.
use vstd::prelude::*;

use crate::app::home::{focus_for, lemma_layout_wf, sidebar_focus_for, LIMIT};
use crate::app::{
    App, AppView, Command, CommandView, ConnectTarget, ContentWindow, HomeFocus, Prefs, Screen,
    ScrollWindow,
};
use crate::geometry::Viewport;
use crate::model::event::MenuEvent;

verus! {

broadcast use crate::seqs::group_views;

impl AppView {
    /// The state in which Home takes events: what is on the grid has screen coordinates, and the
    /// focus is on it.
    pub open spec fn home_ready(self, vp: Viewport) -> bool {
        &&& self.fits(vp)
        &&& self.hosts.entries.len() <= LIMIT
        &&& self.hosts.known_hosts.len() <= LIMIT
        &&& match self.nav.home_focus {
            HomeFocus::Sidebar(i) => i <= LIMIT + 2,
            HomeFocus::SidebarMenu(i) => i <= LIMIT + 2,
            HomeFocus::Grid(i) => i <= self.cell_bound(vp.columns as int),
        }
    }

    /// No more titles lead the library as pinned than there are, while a host is selected.
    pub open spec fn pins_fit(self) -> bool {
        self.hosts.selected_host is Some ==> self.shelf.pinned_count <= self.shelf.games.len()
    }

    /// The row above `i`, from the first to the last.
    pub open spec fn row_above(self, i: usize) -> usize {
        if i == 0 {
            (self.hosts.entries.len() + 1) as usize
        } else {
            (i - 1) as usize
        }
    }

    /// The row below `i`, from the last to the first.
    pub open spec fn row_below(self, i: usize) -> usize {
        ((i + 1) % (self.hosts.entries.len() as int + 2)) as usize
    }

    /// The same state with the focus on cell `idx`, scrolled to it.
    pub open spec fn at_cell(self, idx: int, vp: Viewport, now: u64) -> AppView {
        self.focused(HomeFocus::Grid(idx as usize)).ensured(vp, idx, now)
    }

    pub open spec fn home_up(self, vp: Viewport, now: u64) -> AppView {
        let c = vp.columns as int;
        match self.nav.home_focus {
            HomeFocus::Sidebar(i) => self.focused(HomeFocus::Sidebar(self.row_above(i))),
            HomeFocus::SidebarMenu(i) => self.focused(
                focus_for(self.row_above(i), self.hosts.entries.len() as int, true),
            ),
            HomeFocus::Grid(i) => if i >= c && self.card_at(i - c, c) is Some {
                self.at_cell(i - c, vp, now)
            } else {
                self
            },
        }
    }

    pub open spec fn home_down(self, vp: Viewport, now: u64) -> AppView {
        let c = vp.columns as int;
        match self.nav.home_focus {
            HomeFocus::Sidebar(i) => self.focused(HomeFocus::Sidebar(self.row_below(i))),
            HomeFocus::SidebarMenu(i) => self.focused(
                focus_for(self.row_below(i), self.hosts.entries.len() as int, true),
            ),
            HomeFocus::Grid(i) => if i + c < self.grid_len(c) && self.card_at(i + c, c) is Some {
                self.at_cell(i + c, vp, now)
            } else {
                self
            },
        }
    }

    pub open spec fn home_left(self, vp: Viewport, now: u64) -> AppView {
        let c = vp.columns as int;
        match self.nav.home_focus {
            HomeFocus::Sidebar(_) => self,
            HomeFocus::SidebarMenu(i) => self.focused(HomeFocus::Sidebar(i)),
            HomeFocus::Grid(i) => if i as int % c == 0 {
                self.focused(
                    HomeFocus::Sidebar(
                        match self.selected_row() {
                            Some(r) => r as usize,
                            None => 0,
                        },
                    ),
                )
            } else {
                self.at_cell(i - 1, vp, now)
            },
        }
    }

    pub open spec fn home_right(self, vp: Viewport, now: u64) -> AppView {
        let c = vp.columns as int;
        let into_grid = if self.grid_len(c) > 0 {
            self.at_cell(0, vp, now)
        } else {
            self
        };
        match self.nav.home_focus {
            HomeFocus::Sidebar(i) => if i < self.hosts.entries.len() {
                self.focused(HomeFocus::SidebarMenu(i))
            } else {
                into_grid
            },
            HomeFocus::SidebarMenu(_) => into_grid,
            HomeFocus::Grid(i) => if (i + 1) % c != 0 && i + 1 < self.grid_len(c) && self.card_at(
                i + 1,
                c,
            ) is Some {
                self.at_cell(i + 1, vp, now)
            } else {
                self
            },
        }
    }

    /// After opening the settings, at their first row.
    pub open spec fn settings_opened(self) -> AppView {
        AppView {
            prefs: Prefs {
                dropdown: None,
                settings_focused: 0,
                scroll: ScrollWindow { offset: 0, shown_at: None },
                content_window: ContentWindow { start: 0, len: 0 },
                ..self.prefs
            },
            ..self
        }.on(Screen::Settings)
    }

    pub open spec fn home_confirm(self, vp: Viewport) -> AppView {
        match self.nav.home_focus {
            HomeFocus::Sidebar(i) => if i < self.hosts.entries.len() {
                self.sidebar_confirmed(i)
            } else if i == self.hosts.entries.len() {
                self.on(Screen::AddHost).asking(CommandView::AddressReset { address: None })
            } else {
                self.settings_opened()
            },
            HomeFocus::SidebarMenu(i) => self.menu_opened(i),
            HomeFocus::Grid(i) => self.card_confirmed(i, vp.columns as int),
        }
    }

    pub open spec fn home_secondary(self) -> AppView {
        match self.nav.home_focus {
            HomeFocus::Sidebar(i) => if i < self.hosts.entries.len() {
                self.host_forgotten(i as int)
            } else {
                self
            },
            _ => self,
        }
    }

    /// After one event on Home.
    #[verifier::opaque]
    pub open spec fn home_event(self, ev: MenuEvent, vp: Viewport, now: u64) -> AppView {
        match ev {
            MenuEvent::Up => self.home_up(vp, now),
            MenuEvent::Down => self.home_down(vp, now),
            MenuEvent::Left => self.home_left(vp, now),
            MenuEvent::Right => self.home_right(vp, now),
            MenuEvent::Confirm => self.home_confirm(vp),
            MenuEvent::Secondary => self.home_secondary(),
            MenuEvent::Back => self,
        }
    }
}

impl App {
    /// Puts the focus on cell `idx` and scrolls to it.
    fn go_to_cell(&mut self, vp: &Viewport, idx: usize, now: u64)
        requires
            old(self)@.fits(*vp),
            idx <= old(self)@.cell_bound(vp.columns as int),
        ensures
            final(self)@ == old(self)@.at_cell(idx as int, *vp, now),
    {
        self.nav.home_focus = HomeFocus::Grid(idx);
        self.ensure_grid_visible(vp, idx, now);
    }

    fn move_up(&mut self, vp: &Viewport, now: u64)
        requires
            old(self)@.home_ready(*vp),
        ensures
            final(self)@ == old(self)@.home_up(*vp, now),
    {
        let rows: usize = self.sidebar_len();
        match self.nav.home_focus {
            HomeFocus::Sidebar(i) => {
                let next: usize = if i == 0 {
                    rows - 1
                } else {
                    i - 1
                };
                self.nav.home_focus = HomeFocus::Sidebar(next);
            },
            HomeFocus::SidebarMenu(i) => {
                let next: usize = if i == 0 {
                    rows - 1
                } else {
                    i - 1
                };
                self.nav.home_focus = sidebar_focus_for(next, self.hosts.entries.len(), true);
            },
            HomeFocus::Grid(i) => {
                if i >= vp.columns && self.is_grid_card(i - vp.columns, vp.columns) {
                    self.go_to_cell(vp, i - vp.columns, now);
                }
            },
        }
    }

    fn move_down(&mut self, vp: &Viewport, now: u64)
        requires
            old(self)@.home_ready(*vp),
        ensures
            final(self)@ == old(self)@.home_down(*vp, now),
    {
        let rows: usize = self.sidebar_len();
        match self.nav.home_focus {
            HomeFocus::Sidebar(i) => {
                self.nav.home_focus = HomeFocus::Sidebar((i + 1) % rows);
            },
            HomeFocus::SidebarMenu(i) => {
                self.nav.home_focus = sidebar_focus_for(
                    (i + 1) % rows,
                    self.hosts.entries.len(),
                    true,
                );
            },
            HomeFocus::Grid(i) => {
                proof {
                    lemma_grid_len_bound(self@, *vp);
                }
                let next: usize = i + vp.columns;
                let len: usize = self.grid_len(vp.columns);
                if next < len && self.is_grid_card(next, vp.columns) {
                    self.go_to_cell(vp, next, now);
                }
            },
        }
    }

    fn move_left(&mut self, vp: &Viewport, now: u64)
        requires
            old(self)@.home_ready(*vp),
        ensures
            final(self)@ == old(self)@.home_left(*vp, now),
    {
        match self.nav.home_focus {
            HomeFocus::Sidebar(_) => {},
            HomeFocus::SidebarMenu(i) => {
                self.nav.home_focus = HomeFocus::Sidebar(i);
            },
            HomeFocus::Grid(i) => {
                if i % vp.columns == 0 {
                    let row: usize = match self.sidebar_index_of_selected_host() {
                        Some(r) => r,
                        None => 0,
                    };
                    self.nav.home_focus = HomeFocus::Sidebar(row);
                } else {
                    proof {
                        if i == 0 {
                            vstd::arithmetic::div_mod::lemma_small_mod(0, vp.columns as nat);
                        }
                    }
                    self.go_to_cell(vp, i - 1, now);
                }
            },
        }
    }

    fn move_right(&mut self, vp: &Viewport, now: u64)
        requires
            old(self)@.home_ready(*vp),
        ensures
            final(self)@ == old(self)@.home_right(*vp, now),
    {
        let len: usize = self.grid_len(vp.columns);
        match self.nav.home_focus {
            HomeFocus::Sidebar(i) => {
                if i < self.hosts.entries.len() {
                    self.nav.home_focus = HomeFocus::SidebarMenu(i);
                } else if len > 0 {
                    self.go_to_cell(vp, 0, now);
                }
            },
            HomeFocus::SidebarMenu(_) => {
                if len > 0 {
                    self.go_to_cell(vp, 0, now);
                }
            },
            HomeFocus::Grid(i) => {
                proof {
                    lemma_grid_len_bound(self@, *vp);
                }
                if (i + 1) % vp.columns != 0 && i + 1 < len && self.is_grid_card(
                    i + 1,
                    vp.columns,
                ) {
                    self.go_to_cell(vp, i + 1, now);
                }
            },
        }
    }

    /// Opens the settings at their first row.
    pub fn open_settings(&mut self)
        ensures
            final(self)@ == old(self)@.settings_opened(),
    {
        self.nav.screen = Screen::Settings;
        self.prefs.dropdown = None;
        self.prefs.settings_focused = 0;
        self.prefs.scroll = ScrollWindow { offset: 0, shown_at: None };
        self.prefs.content_window = ContentWindow { start: 0, len: 0 };
    }

    fn confirm_home(&mut self, vp: &Viewport)
        requires
            old(self)@.home_ready(*vp),
        ensures
            final(self)@ == old(self)@.home_confirm(*vp),
    {
        match self.nav.home_focus {
            HomeFocus::Sidebar(i) => {
                if i < self.hosts.entries.len() {
                    self.confirm_sidebar_host(i);
                } else if i == self.hosts.entries.len() {
                    self.outbox.push(Command::AddressReset { address: None });
                    self.nav.screen = Screen::AddHost;
                } else {
                    self.open_settings();
                }
            },
            HomeFocus::SidebarMenu(i) => {
                self.open_host_menu(i);
            },
            HomeFocus::Grid(i) => {
                self.confirm_grid_card(i, vp.columns);
            },
        }
    }

    /// Handles one event on Home. What it starts is handed out by `take_ready_launch`, so there
    /// is never a target to return at once.
    pub fn handle_home_event(&mut self, ev: MenuEvent, vp: &Viewport, now: u64) -> (r: Option<
        ConnectTarget,
    >)
        requires
            old(self)@.home_ready(*vp),
        ensures
            final(self)@ == old(self)@.home_event(ev, *vp, now),
            r is None,
    {
        proof {
            reveal(AppView::home_event);
        }
        match ev {
            MenuEvent::Up => {
                self.move_up(vp, now);
            },
            MenuEvent::Down => {
                self.move_down(vp, now);
            },
            MenuEvent::Left => {
                self.move_left(vp, now);
            },
            MenuEvent::Right => {
                self.move_right(vp, now);
            },
            MenuEvent::Confirm => {
                self.confirm_home(vp);
            },
            MenuEvent::Secondary => {
                match self.nav.home_focus {
                    HomeFocus::Sidebar(i) => {
                        if i < self.hosts.entries.len() {
                            self.forget_host(i);
                        }
                    },
                    _ => {},
                }
            },
            MenuEvent::Back => {},
        }
        None
    }
}

/// The grid has no more cells than its bound.
pub proof fn lemma_grid_len_bound(s: AppView, vp: Viewport)
    requires
        s.fits(vp),
    ensures
        0 <= s.grid_len(vp.columns as int) <= s.cell_bound(vp.columns as int),
{
    lemma_layout_wf(s, vp.columns as int);
    crate::app::grid::lemma_cells(
        s.layout(vp.columns as int),
        s.shelf.games.len() as int,
        vp.columns as int,
    );
}

/// The focus is on a card of the grid, or outside the grid.
pub open spec fn on_a_card(s: AppView, columns: int) -> bool {
    s.nav.home_focus matches HomeFocus::Grid(i) ==> s.card_at(i as int, columns) is Some
}

/// Moving about on Home never leaves the focus on an empty cell.
pub proof fn law_focus_stays_on_cards(s: AppView, ev: MenuEvent, vp: Viewport, now: u64)
    requires
        s.home_ready(vp),
        s.pins_fit(),
        on_a_card(s, vp.columns as int),
        ev == MenuEvent::Up || ev == MenuEvent::Down || ev == MenuEvent::Left || ev
            == MenuEvent::Right,
    ensures
        on_a_card(s.home_event(ev, vp, now), vp.columns as int),
{
    reveal(AppView::home_event);
    let c = vp.columns as int;
    let n = s.shelf.games.len() as int;
    let layout = s.layout(c);
    lemma_layout_wf(s, c);
    crate::app::grid::lemma_cells(layout, n, c);
    reveal(crate::app::grid::GridLayout::cells);
    if let HomeFocus::Grid(i) = s.nav.home_focus {
        if i as int % c != 0 {
            let start = layout.unpinned_start as int;
            let rows = layout.pinned_rows as int;
            assert(start == rows * c);
            assert((rows * c) % c == 0) by (nonlinear_arith)
                requires
                    c >= 1,
            ;
            assert(i != start);
            assert(s.card_at(i - 1, c) is Some);
        }
    }
    let after = s.home_event(ev, vp, now);
    assert(after.shelf == s.shelf && after.hosts == s.hosts);
    assert(after.layout(c) == layout);
}

/// Moving right from the host list lands on a card whenever there are any.
pub proof fn law_right_enters_grid(s: AppView, vp: Viewport, i: usize, now: u64)
    requires
        s.home_ready(vp),
        s.nav.home_focus == HomeFocus::SidebarMenu(i),
        s.pins_fit(),
        s.grid_len(vp.columns as int) > 0,
    ensures
        s.home_event(MenuEvent::Right, vp, now).nav.home_focus == HomeFocus::Grid(0),
        s.card_at(0, vp.columns as int) is Some,
{
    reveal(AppView::home_event);
    let c = vp.columns as int;
    lemma_layout_wf(s, c);
    let layout = s.layout(c);
    crate::app::grid::lemma_cells(layout, s.shelf.games.len() as int, c);
    reveal(crate::app::grid::GridLayout::cells);
    if layout.front_count == 0 {
        assert(layout.unpinned_start == 0) by {
            assert(layout.pinned_rows == 0);
            assert(0 * c == 0) by (nonlinear_arith);
        }
    }
}

/// In the host list Up and Down go one row up and down, round from the first host to "Settings"
/// and back, and stay in the column of menu buttons where the row has one.
pub proof fn law_list_is_walked_round(s: AppView, vp: Viewport, i: usize, menu: bool, now: u64)
    requires
        s.hosts.entries.len() < 0x1000_0000,
        i < s.hosts.entries.len() + 2,
        s.nav.home_focus == (if menu {
            HomeFocus::SidebarMenu(i)
        } else {
            HomeFocus::Sidebar(i)
        }),
    ensures
        ({
            let n = s.hosts.entries.len() as int;
            let up = s.home_event(MenuEvent::Up, vp, now);
            let down = s.home_event(MenuEvent::Down, vp, now);
            let above = if i == 0 {
                n + 1
            } else {
                i - 1
            };
            let below = if i == n + 1 {
                0
            } else {
                i + 1
            };
            &&& up.nav.home_focus == if menu && above < n {
                HomeFocus::SidebarMenu(above as usize)
            } else {
                HomeFocus::Sidebar(above as usize)
            }
            &&& down.nav.home_focus == if menu && below < n {
                HomeFocus::SidebarMenu(below as usize)
            } else {
                HomeFocus::Sidebar(below as usize)
            }
            &&& up.hosts == s.hosts && down.hosts == s.hosts
            &&& up.nav.screen == s.nav.screen && down.nav.screen == s.nav.screen
            &&& up.outbox == s.outbox && down.outbox == s.outbox
        }),
{
    reveal(AppView::home_event);
    let n = s.hosts.entries.len() as int;
    if i == n + 1 {
        assert((n + 2) % (n + 2) == 0);
    } else {
        assert((i + 1) % (n + 2) == i + 1) by (nonlinear_arith)
            requires
                0 <= i + 1 < n + 2,
        ;
    }
}

/// In the grid a move goes to the neighbouring cell in its direction: a whole row up or down, one
/// cell left or right in the row. It stays where there is no card, and from the first column Left
/// leads to the row of the selected host.
pub proof fn law_grid_is_walked_by_neighbours(s: AppView, vp: Viewport, i: usize, now: u64)
    requires
        s.fits(vp),
        s.nav.home_focus == HomeFocus::Grid(i),
        i < s.grid_len(vp.columns as int),
    ensures
        ({
            let c = vp.columns as int;
            let n = s.grid_len(c);
            let up = s.home_event(MenuEvent::Up, vp, now).nav.home_focus;
            let down = s.home_event(MenuEvent::Down, vp, now).nav.home_focus;
            let left = s.home_event(MenuEvent::Left, vp, now).nav.home_focus;
            let right = s.home_event(MenuEvent::Right, vp, now).nav.home_focus;
            &&& up == if i >= c && s.card_at(i - c, c) is Some {
                HomeFocus::Grid((i - c) as usize)
            } else {
                HomeFocus::Grid(i)
            }
            &&& down == if i + c < n && s.card_at(i + c, c) is Some {
                HomeFocus::Grid((i + c) as usize)
            } else {
                HomeFocus::Grid(i)
            }
            &&& right == if (i + 1) % c != 0 && s.card_at(i + 1, c) is Some {
                HomeFocus::Grid((i + 1) as usize)
            } else {
                HomeFocus::Grid(i)
            }
            &&& i as int % c != 0 ==> left == HomeFocus::Grid((i - 1) as usize)
            &&& i as int % c == 0 ==> left == HomeFocus::Sidebar(
                match s.selected_row() {
                    Some(r) => r as usize,
                    None => 0,
                },
            )
        }),
{
    reveal(AppView::home_event);
    lemma_grid_len_bound(s, vp);
    lemma_layout_wf(s, vp.columns as int);
    crate::app::grid::lemma_cells(
        s.layout(vp.columns as int),
        s.shelf.games.len() as int,
        vp.columns as int,
    );
}

/// A move in the grid makes the grid scroll to the cell that it goes to, and starts no stream,
/// asks for nothing and leaves the hosts and the library as they are.
pub proof fn law_moves_only_move(s: AppView, ev: MenuEvent, vp: Viewport, now: u64)
    requires
        s.fits(vp),
        ev == MenuEvent::Up || ev == MenuEvent::Down || ev == MenuEvent::Left || ev
            == MenuEvent::Right || ev == MenuEvent::Back,
    ensures
        ({
            let t = s.home_event(ev, vp, now);
            &&& t.outbox == s.outbox && t.hosts == s.hosts && t.shelf == s.shelf
            &&& t.nav.screen == s.nav.screen && t.prefs == s.prefs && t.pairing == s.pairing
            &&& t.wake == s.wake && t.home_status == s.home_status
            &&& ev == MenuEvent::Back ==> t == s
            &&& t.nav.home_focus matches HomeFocus::Grid(i) ==> t.nav.home_focus == s.nav.home_focus
                || t == s.focused(HomeFocus::Grid(i)).ensured(vp, i as int, now)
        }),
{
    reveal(AppView::home_event);
    lemma_grid_len_bound(s, vp);
    if let HomeFocus::Grid(i) = s.nav.home_focus {
        let c = vp.columns as int;
        assert(i as int % c != 0 ==> i > 0) by (nonlinear_arith)
            requires
                c >= 1,
                i >= 0,
        ;
    }
}

/// From a host's row Right leads to its menu button, from the button into the grid where it has
/// cells; from "Add host" and "Settings" it leads into the grid at once. Left leads back from the
/// button to the row.
pub proof fn law_right_leads_to_the_menu_then_the_grid(s: AppView, vp: Viewport, i: usize, now: u64)
    ensures
        ({
            let c = vp.columns as int;
            let on_row = s.focused(HomeFocus::Sidebar(i));
            let on_menu = s.focused(HomeFocus::SidebarMenu(i));
            let grid = s.grid_len(c) > 0;
            &&& i < s.hosts.entries.len() ==> on_row.home_event(
                MenuEvent::Right,
                vp,
                now,
            ).nav.home_focus == HomeFocus::SidebarMenu(i)
            &&& i >= s.hosts.entries.len() ==> on_row.home_event(
                MenuEvent::Right,
                vp,
                now,
            ).nav.home_focus == if grid {
                HomeFocus::Grid(0)
            } else {
                HomeFocus::Sidebar(i)
            }
            &&& on_menu.home_event(MenuEvent::Right, vp, now).nav.home_focus == if grid {
                HomeFocus::Grid(0)
            } else {
                HomeFocus::SidebarMenu(i)
            }
            &&& on_menu.home_event(MenuEvent::Left, vp, now).nav.home_focus == HomeFocus::Sidebar(i)
            &&& on_row.home_event(MenuEvent::Left, vp, now) == on_row
        }),
{
    reveal(AppView::home_event);
    let c = vp.columns as int;
    assert(s.focused(HomeFocus::Sidebar(i)).grid_len(c) == s.grid_len(c));
    assert(s.focused(HomeFocus::SidebarMenu(i)).grid_len(c) == s.grid_len(c));
}

/// Confirm on a row of the host list: a paired host is selected, any other host is paired with,
/// "Add host" opens the screen for an address with an empty field, and "Settings" opens the
/// settings at their first row. On a menu button it opens the menu of that host.
pub proof fn law_confirm_opens_what_is_focused(s: AppView, vp: Viewport, i: usize, now: u64)
    ensures
        ({
            let n = s.hosts.entries.len();
            let row = s.focused(HomeFocus::Sidebar(i)).home_event(MenuEvent::Confirm, vp, now);
            let dots = s.focused(HomeFocus::SidebarMenu(i)).home_event(MenuEvent::Confirm, vp, now);
            &&& i < n && s.hosts.entries[i as int].is_paired() ==> row.hosts.selected_host == Some(
                (s.hosts.entries[i as int].host(), s.hosts.entries[i as int].port()),
            ) && row.nav.screen == s.nav.screen
            &&& i < n && !s.hosts.entries[i as int].is_paired() ==> row.nav.screen == Screen::Pairing
                && row.pairing.pairing_entry == i && row.hosts == s.hosts && row.outbox == s.outbox
            &&& i == n ==> row.nav.screen == Screen::AddHost && row.outbox == s.outbox.push(
                CommandView::AddressReset { address: None },
            )
            &&& i > n ==> row.nav.screen == Screen::Settings && row.prefs.settings_focused == 0
                && row.prefs.scroll.offset == 0 && row.prefs.dropdown is None && row.prefs.settings
                == s.prefs.settings && row.outbox == s.outbox
            &&& dots.nav.screen == Screen::HostMenu && dots.menu.host_menu_index == Some(i)
                && dots.menu.menu_focused == 0 && dots.outbox == s.outbox && dots.hosts == s.hosts
        }),
{
    reveal(AppView::home_event);
}

/// The second button forgets the saved host whose row is focused, and does nothing anywhere else.
pub proof fn law_secondary_forgets_the_row(s: AppView, vp: Viewport, now: u64)
    ensures
        s.nav.home_focus matches HomeFocus::Sidebar(i) ==> (i < s.hosts.entries.len()
            && s.hosts.entries[i as int] is Known ==> s.home_event(
            MenuEvent::Secondary,
            vp,
            now,
        ).hosts.known_hosts == crate::store::without_host(
            s.hosts.known_hosts,
            s.hosts.entries[i as int].host(),
            s.hosts.entries[i as int].port(),
        )),
        !(s.nav.home_focus matches HomeFocus::Sidebar(i) && i < s.hosts.entries.len()
            && s.hosts.entries[i as int] is Known) ==> s.home_event(MenuEvent::Secondary, vp, now)
            == s,
{
    reveal(AppView::home_event);
}

} // verus!
