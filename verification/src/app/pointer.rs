//! The pointer and the way back: what Back means on each screen, and what a click does.
use vstd::prelude::*;

use crate::app::diagnostics::LOG_LEVEL_COUNT;
use crate::app::home::LIMIT;
use crate::app::settings::{settings_visible_rows, SettingsMetrics};
use crate::app::speedtest::BitrateRange;
use crate::app::{
    App, AppView, Command, CommandView, HomeFocus, Menu, Nav, PairingFocus, PairingView, Prefs,
    Screen, SettingsRow, SpeedView,
};
use crate::geometry::{hit_index, hit_test, Rect, Viewport};
use crate::model::event::MenuEvent;

verus! {

broadcast use crate::seqs::group_views;

impl AppView {
    /// Every focus that steps through a list can be stepped, and the PIN is one.
    pub open spec fn in_range(self) -> bool {
        &&& self.pairing.wf()
        &&& forall|i: int| 0 <= i < 4 ==> #[trigger] self.pairing.pin_digits[i] <= 9
        &&& self.menu.host_menu_focused <= 1
        &&& self.menu.menu_focused < usize::MAX
        &&& self.menu.wake_settings_focused < usize::MAX
        &&& self.speed.speed_test_focused <= 1
        &&& self.prefs.experimental_focused < usize::MAX
        &&& self.prefs.diagnostics_focused < usize::MAX
    }

    /// The row that a screen is about is still there.
    pub open spec fn row_there(self) -> bool {
        &&& self.nav.screen == Screen::Pairing ==> self.pairing.pairing_entry
            < self.hosts.entries.len()
        &&& self.nav.screen == Screen::ForgetHost ==> (self.menu.host_menu_index matches Some(i)
            ==> i < self.hosts.entries.len())
        &&& self.hosts.known_hosts.len() <= LIMIT
    }

    /// After leaving the settings, or a list of choices on them.
    pub open spec fn settings_left(self, now: u64) -> AppView {
        match self.prefs.dropdown {
            Some(dd) => self.dropdown_closed(dd, now),
            None => self.asking(CommandView::SaveSettings).on(Screen::Home),
        }
    }

    /// After Back on whichever screen is up; Home is the root and has no way back.
    pub open spec fn backed(self, range: BitrateRange, now: u64) -> AppView {
        match self.nav.screen {
            Screen::Home => self,
            Screen::Pairing => self.pairing_event(MenuEvent::Back, now),
            Screen::Settings => self.settings_left(now),
            Screen::AddHost => self.on(Screen::Home),
            Screen::Wake => self.wake_event(MenuEvent::Back, now),
            Screen::ForgetHost => self.forget_event(MenuEvent::Back, now),
            Screen::HostMenu => self.menu_event(MenuEvent::Back, now),
            Screen::WakeSettings => self.wake_settings_event(MenuEvent::Back, now),
            Screen::SpeedTest => self.speed_test_event(MenuEvent::Back, now, range),
            Screen::EditHost => self.edit_event(MenuEvent::Back, None),
            Screen::About => self.back_in_settings(),
            Screen::PinLimit => self.on(Screen::Home),
            Screen::Experimental => self.experimental_event(MenuEvent::Back, 0, now),
            Screen::Diagnostics => self.diagnostics_event(MenuEvent::Back, now),
        }
    }
}

impl App {
    fn leave_settings(&mut self, now: u64)
        ensures
            final(self)@ == old(self)@.settings_left(now),
    {
        match self.prefs.dropdown {
            Some(dd) => {
                self.close_dropdown(dd.row, dd.focused, now);
            },
            None => {
                self.outbox.push(Command::SaveSettings);
                self.nav.screen = Screen::Home;
            },
        }
    }

    /// Goes back from whichever screen is up.
    pub fn back(&mut self, range: &BitrateRange, now: u64)
        requires
            old(self)@.in_range(),
            old(self)@.row_there(),
            old(self)@.nav.screen == Screen::Diagnostics ==> (old(
                self,
            )@.prefs.dropdown matches Some(dd) ==> dd.focused
                < LOG_LEVEL_COUNT),
        ensures
            final(self)@ == old(self)@.backed(*range, now),
    {
        proof {
            reveal(AppView::add_host_event);
        }
        match self.nav.screen {
            Screen::Home => {},
            Screen::Pairing => {
                self.handle_pairing_event(MenuEvent::Back, now);
            },
            Screen::Settings => {
                self.leave_settings(now);
            },
            Screen::AddHost => {
                self.handle_add_host_event(MenuEvent::Back, None);
            },
            Screen::Wake => {
                self.handle_wake_event(MenuEvent::Back, now);
            },
            Screen::ForgetHost => {
                self.handle_forget_host_event(MenuEvent::Back, now);
            },
            Screen::HostMenu => {
                self.handle_host_menu_event(MenuEvent::Back, now);
            },
            Screen::WakeSettings => {
                self.handle_wake_settings_event(MenuEvent::Back, now);
            },
            Screen::SpeedTest => {
                self.handle_speed_test_event(MenuEvent::Back, now, range);
            },
            Screen::EditHost => {
                self.handle_edit_host_event(MenuEvent::Back, None);
            },
            Screen::About => {
                self.return_to_settings();
            },
            Screen::PinLimit => {
                self.handle_pin_limit_event(MenuEvent::Back);
            },
            Screen::Experimental => {
                self.handle_experimental_event(MenuEvent::Back, 0, now);
            },
            Screen::Diagnostics => {
                self.handle_diagnostics_event(MenuEvent::Back, now);
            },
        }
    }
}

/// What lies under the pointer's reach on the screen that is up.
#[derive(Debug)]
pub struct ClickTargets {
    /// The close button of a modal.
    pub close: Rect,
    /// The menu buttons of the host rows, and all rows of the sidebar.
    pub menu_buttons: Vec<Rect>,
    pub sidebar_rows: Vec<Rect>,
    /// The cell of the grid under the pointer.
    pub cell: Option<usize>,
    /// The rows in view of a list, and the menu button of each.
    pub list_rows: Vec<Rect>,
    pub list_dots: Vec<Rect>,
    /// The button that asks for access.
    pub request_button: Rect,
}

impl AppView {
    /// With the pointer on the close button or off it.
    pub open spec fn hovering(self, hover_close: bool) -> AppView {
        AppView { nav: Nav { hover_close, ..self.nav }, ..self }
    }

    /// Whether the screen has a close button that the pointer can be on.
    pub open spec fn has_close(self) -> bool {
        self.nav.screen != Screen::Home && !(self.nav.screen == Screen::Wake && self.wake is None)
    }

    /// After the pointer has moved: only the close button follows it, not the focus. Home has no
    /// close button, and none stays lit there.
    pub open spec fn pointed(self, x: int, y: int, close: Rect) -> AppView {
        if self.nav.screen == Screen::Home {
            self.hovering(false)
        } else if self.has_close() {
            self.hovering(close.holds(x, y))
        } else {
            self
        }
    }
}

impl App {
    /// Notes whether the pointer is on the close button. Returns whether that changed.
    pub fn set_hover_close(&mut self, hover_close: bool) -> (changed: bool)
        ensures
            final(self)@ == old(self)@.hovering(hover_close),
            changed == (hover_close != old(self)@.nav.hover_close),
    {
        let changed = hover_close != self.nav.hover_close;
        self.nav.hover_close = hover_close;
        changed
    }

    /// Handles a move of the pointer. Returns whether anything on screen changed.
    pub fn handle_mouse_motion(&mut self, x: i32, y: i32, close: &Rect) -> (changed: bool)
        ensures
            final(self)@ == old(self)@.pointed(x as int, y as int, *close),
            changed == (old(self)@.has_close() && close.holds(x as int, y as int) != old(
                self,
            )@.nav.hover_close),
    {
        match self.nav.screen {
            Screen::Home => {
                self.nav.hover_close = false;
                false
            },
            Screen::Wake => {
                if self.wake.is_none() {
                    return false;
                }
                self.set_hover_close(close.contains_point(x, y))
            },
            _ => self.set_hover_close(close.contains_point(x, y)),
        }
    }

    /// The host row that has the focus on Home.
    pub fn host_row_focused(&self) -> (r: Option<usize>)
        ensures
            r == (match self@.nav.home_focus {
                HomeFocus::Sidebar(i) => if self@.nav.screen == Screen::Home && i
                    < self@.hosts.entries.len() {
                    Some(i)
                } else {
                    None
                },
                _ => None,
            }),
    {
        if self.nav.screen != Screen::Home {
            return None;
        }
        match self.nav.home_focus {
            HomeFocus::Sidebar(i) => if i < self.hosts.entries.len() {
                Some(i)
            } else {
                None
            },
            _ => None,
        }
    }

    /// Focuses the host row under the pointer, if there is one. Anything else stays as it is.
    pub fn focus_host_row_at(&mut self, x: i32, y: i32, rows: &Vec<Rect>) -> (r: Option<usize>)
        ensures
            ({
                let i = hit_index(rows@, x as int, y as int);
                if old(self)@.nav.screen == Screen::Home && i < rows.len() && i < old(
                    self,
                )@.hosts.entries.len() {
                    r == Some(i as usize) && final(self)@ == old(self)@.focused(
                        HomeFocus::Sidebar(i as usize),
                    )
                } else {
                    r is None && final(self)@ == old(self)@
                }
            }),
    {
        if self.nav.screen != Screen::Home {
            return None;
        }
        match hit_test(rows, x, y) {
            None => None,
            Some(i) => {
                if i >= self.hosts.entries.len() {
                    return None;
                }
                self.nav.home_focus = HomeFocus::Sidebar(i);
                Some(i)
            },
        }
    }
}

impl AppView {
    /// After a click on Home: a menu button opens its menu, a row or a card is focused and
    /// confirmed, and empty space does nothing.
    pub open spec fn home_clicked(
        self,
        x: int,
        y: int,
        t: ClickTargets,
        vp: Viewport,
        now: u64,
    ) -> AppView {
        let button = hit_index(t.menu_buttons@, x, y);
        let row = hit_index(t.sidebar_rows@, x, y);
        if button < t.menu_buttons.len() {
            self.focused(HomeFocus::SidebarMenu(button as usize)).menu_opened(button as usize)
        } else if row < t.sidebar_rows.len() {
            self.focused(HomeFocus::Sidebar(row as usize)).home_event(MenuEvent::Confirm, vp, now)
        } else {
            match t.cell {
                Some(idx) => if self.card_at(idx as int, vp.columns as int) is Some {
                    self.focused(HomeFocus::Grid(idx)).home_event(MenuEvent::Confirm, vp, now)
                } else {
                    self
                },
                None => self,
            }
        }
    }

    /// After a click on the settings: the row under the pointer is focused and confirmed. An open
    /// list of choices takes its focused one.
    pub open spec fn settings_clicked(
        self,
        x: int,
        y: int,
        t: ClickTargets,
        rows: Seq<SettingsRow>,
        choices: int,
        current: usize,
        m: SettingsMetrics,
        now: u64,
    ) -> AppView {
        let local = hit_index(t.list_rows@, x, y);
        if self.prefs.dropdown is Some {
            self.settings_event(MenuEvent::Confirm, rows, choices, current, m, now)
        } else if local < t.list_rows.len() {
            let to = self.prefs.scroll.kept(
                rows.len() as int,
                m.in_view(self.prefs.settings, rows.len() as int),
            ) + local;
            AppView {
                prefs: Prefs { settings_focused: to as usize, ..self.prefs },
                ..self
            }.settings_event(MenuEvent::Confirm, rows, choices, current, m, now)
        } else {
            self
        }
    }

    /// After a click on the menu of a host: the row under the pointer, or its own menu button, is
    /// focused and confirmed.
    pub open spec fn menu_clicked(self, x: int, y: int, t: ClickTargets, now: u64) -> AppView {
        let i = hit_index(t.list_rows@, x, y);
        if i < t.list_rows.len() {
            let s = self.menu_as(Menu { menu_focused: i as usize, ..self.menu });
            s.menu_as(
                Menu {
                    host_menu_dots: s.row_has_dots() && i < t.list_dots.len() && t.list_dots@[i].holds(
                        x,
                        y,
                    ),
                    ..s.menu
                },
            ).menu_event(MenuEvent::Confirm, now)
        } else {
            self
        }
    }

    /// Whether the focused row of the menu has a menu button of its own.
    pub open spec fn row_has_dots(self) -> bool {
        self.menu.menu_focused < self.actions().len()
            && self.actions()[self.menu.menu_focused as int].dots
    }

    /// After a click on the pairing screen: only the button that asks for access takes one.
    pub open spec fn pairing_clicked(self, x: int, y: int, t: ClickTargets, now: u64) -> AppView {
        if t.request_button.holds(x, y) {
            self.pairing_as(
                PairingView { pairing_focus: PairingFocus::RequestAccess, ..self.pairing },
            ).pairing_event(MenuEvent::Confirm, now)
        } else {
            self
        }
    }

    /// After a click on the wake settings.
    pub open spec fn wake_settings_clicked(self, x: int, y: int, t: ClickTargets, now: u64) -> AppView {
        if t.list_rows.len() > 0 && t.list_rows@[0].holds(x, y) {
            self.wake_settings_event(MenuEvent::Confirm, now)
        } else {
            self
        }
    }
}

impl App {
    fn click_home(
        &mut self,
        x: i32,
        y: i32,
        t: &ClickTargets,
        vp: &Viewport,
        now: u64,
    )
        requires
            old(self)@.home_ready(*vp),
            t.sidebar_rows.len() <= LIMIT + 2,
            t.menu_buttons.len() <= LIMIT + 2,
            t.cell matches Some(i) ==> i <= old(self)@.cell_bound(vp.columns as int),
        ensures
            final(self)@ == old(self)@.home_clicked(x as int, y as int, *t, *vp, now),
    {
        match hit_test(&t.menu_buttons, x, y) {
            Some(i) => {
                self.nav.home_focus = HomeFocus::SidebarMenu(i);
                self.open_host_menu(i);
                return ;
            },
            None => {},
        }
        match hit_test(&t.sidebar_rows, x, y) {
            Some(i) => {
                self.nav.home_focus = HomeFocus::Sidebar(i);
            },
            None => {
                match t.cell {
                    Some(idx) => {
                        if !self.is_grid_card(idx, vp.columns) {
                            return ;
                        }
                        self.nav.home_focus = HomeFocus::Grid(idx);
                    },
                    None => {
                        return ;
                    },
                }
            },
        }
        self.handle_home_event(MenuEvent::Confirm, vp, now);
    }

    fn click_settings(
        &mut self,
        x: i32,
        y: i32,
        t: &ClickTargets,
        rows: &Vec<SettingsRow>,
        choices: usize,
        current: usize,
        m: &SettingsMetrics,
        now: u64,
    )
        requires
            m.valid(),
            rows.len() <= LIMIT,
            old(self)@.prefs.settings_focused < rows.len(),
            old(self)@.prefs.dropdown matches Some(dd) ==> dd.row < rows.len() && dd.focused
                < usize::MAX,
            t.list_rows.len() <= m.in_view(old(self)@.prefs.settings, rows.len() as int)
                <= rows.len(),
        ensures
            final(self)@ == old(self)@.settings_clicked(
                x as int,
                y as int,
                *t,
                rows@,
                choices as int,
                current,
                *m,
                now,
            ),
    {
        if self.prefs.dropdown.is_none() {
            let visible: usize = settings_visible_rows(&self.prefs.settings, rows.len(), m);
            match hit_test(&t.list_rows, x, y) {
                None => {
                    return ;
                },
                Some(local) => {
                    let first: usize = self.prefs.scroll.clamped(rows.len(), visible);
                    self.prefs.settings_focused = first + local;
                },
            }
        }
        self.handle_settings_event(MenuEvent::Confirm, rows, choices, current, m, now);
    }

    fn click_menu(&mut self, x: i32, y: i32, t: &ClickTargets, now: u64)
        requires
            t.list_rows.len() <= LIMIT,
        ensures
            final(self)@ == old(self)@.menu_clicked(x as int, y as int, *t, now),
    {
        match hit_test(&t.list_rows, x, y) {
            None => {},
            Some(i) => {
                self.menu.menu_focused = i;
                let on_dots = i < t.list_dots.len() && t.list_dots[i].contains_point(x, y);
                self.menu.host_menu_dots = self.host_menu_row_has_dots() && on_dots;
                self.handle_host_menu_event(MenuEvent::Confirm, now);
            },
        }
    }

    fn click_pairing(&mut self, x: i32, y: i32, t: &ClickTargets, now: u64)
        requires
            old(self)@.in_range(),
            old(self)@.pairing.pairing_entry < old(self)@.hosts.entries.len(),
        ensures
            final(self)@ == old(self)@.pairing_clicked(x as int, y as int, *t, now),
    {
        if t.request_button.contains_point(x, y) {
            self.pairing.pairing_focus = PairingFocus::RequestAccess;
            self.handle_pairing_event(MenuEvent::Confirm, now);
        }
    }
}

impl AppView {
    /// After a click on a modal, off its close button.
    pub open spec fn modal_clicked(
        self,
        x: int,
        y: int,
        t: ClickTargets,
        range: BitrateRange,
        now: u64,
    ) -> AppView {
        match self.nav.screen {
            Screen::Pairing => self.pairing_clicked(x, y, t, now),
            Screen::Wake => self.wake_event(MenuEvent::Confirm, now),
            Screen::ForgetHost => self.forget_event(MenuEvent::Confirm, now),
            Screen::HostMenu => self.menu_clicked(x, y, t, now),
            Screen::WakeSettings => self.wake_settings_clicked(x, y, t, now),
            Screen::SpeedTest => self.speed_test_event(MenuEvent::Confirm, now, range),
            Screen::PinLimit => self.on(Screen::Home),
            _ => self,
        }
    }
}

impl App {
    fn click_modal(&mut self, x: i32, y: i32, t: &ClickTargets, range: &BitrateRange, now: u64)
        requires
            old(self)@.in_range(),
            old(self)@.row_there(),
            t.list_rows.len() <= LIMIT,
        ensures
            final(self)@ == old(self)@.modal_clicked(x as int, y as int, *t, *range, now),
    {
        match self.nav.screen {
            Screen::Pairing => {
                self.click_pairing(x, y, t, now);
            },
            Screen::Wake => {
                self.handle_wake_event(MenuEvent::Confirm, now);
            },
            Screen::ForgetHost => {
                self.handle_forget_host_event(MenuEvent::Confirm, now);
            },
            Screen::HostMenu => {
                self.click_menu(x, y, t, now);
            },
            Screen::WakeSettings => {
                if t.list_rows.len() > 0 && t.list_rows[0].contains_point(x, y) {
                    self.handle_wake_settings_event(MenuEvent::Confirm, now);
                }
            },
            Screen::SpeedTest => {
                self.handle_speed_test_event(MenuEvent::Confirm, now, range);
            },
            Screen::PinLimit => {
                self.handle_pin_limit_event(MenuEvent::Confirm);
            },
            _ => {},
        }
    }
}

/// What a click on the settings needs to know of their rows.
#[derive(Debug)]
pub struct SettingsList {
    /// The visible rows.
    pub rows: Vec<SettingsRow>,
    /// The number of choices of the row whose list is open.
    pub choices: usize,
    /// The place of the focused row's value among its choices.
    pub current: usize,
    pub metrics: SettingsMetrics,
}

impl AppView {
    /// After a click, with what `self` is after the pointer was put where the click is.
    pub open spec fn clicked(
        self,
        x: int,
        y: int,
        t: ClickTargets,
        vp: Viewport,
        list: SettingsList,
        range: BitrateRange,
        now: u64,
    ) -> AppView {
        if self.nav.hover_close {
            self.backed(range, now)
        } else if self.nav.screen == Screen::Home {
            self.home_clicked(x, y, t, vp, now)
        } else if self.nav.screen == Screen::Settings {
            self.settings_clicked(
                x,
                y,
                t,
                list.rows@,
                list.choices as int,
                list.current,
                list.metrics,
                now,
            )
        } else {
            self.modal_clicked(x, y, t, range, now)
        }
    }

    /// What a click needs on the screen that is up.
    pub open spec fn clickable(self, t: ClickTargets, vp: Viewport, list: SettingsList) -> bool {
        &&& self.in_range()
        &&& self.row_there()
        &&& t.list_rows.len() <= LIMIT
        &&& self.nav.screen == Screen::Home ==> {
            &&& self.home_ready(vp)
            &&& t.sidebar_rows.len() <= LIMIT + 2
            &&& t.menu_buttons.len() <= LIMIT + 2
            &&& t.cell matches Some(i) ==> i <= self.cell_bound(vp.columns as int)
        }
        &&& self.nav.screen == Screen::Settings ==> {
            &&& list.metrics.valid()
            &&& list.rows.len() <= LIMIT
            &&& self.prefs.settings_focused < list.rows.len()
            &&& self.prefs.dropdown matches Some(dd) ==> dd.row < list.rows.len() && dd.focused
                < usize::MAX
            &&& t.list_rows.len() <= list.metrics.in_view(
                self.prefs.settings,
                list.rows.len() as int,
            ) <= list.rows.len()
        }
        &&& self.nav.screen == Screen::Diagnostics ==> (self.prefs.dropdown matches Some(dd)
            ==> dd.focused < LOG_LEVEL_COUNT)
    }
}

impl App {
    /// Handles a click: on a close button it goes back; elsewhere it focuses what it lands on and
    /// confirms it.
    pub fn handle_mouse_click(
        &mut self,
        x: i32,
        y: i32,
        t: &ClickTargets,
        vp: &Viewport,
        list: &SettingsList,
        range: &BitrateRange,
        now: u64,
    )
        requires
            old(self)@.clickable(*t, *vp, *list),
        ensures
            final(self)@ == old(self)@.pointed(x as int, y as int, t.close).clicked(
                x as int,
                y as int,
                *t,
                *vp,
                *list,
                *range,
                now,
            ),
    {
        self.handle_mouse_motion(x, y, &t.close);
        if self.nav.hover_close {
            self.back(range, now);
            return ;
        }
        match self.nav.screen {
            Screen::Home => {
                self.click_home(x, y, t, vp, now);
            },
            Screen::Settings => {
                self.click_settings(
                    x,
                    y,
                    t,
                    &list.rows,
                    list.choices,
                    list.current,
                    &list.metrics,
                    now,
                );
            },
            _ => {
                self.click_modal(x, y, t, range, now);
            },
        }
    }
}

/// A click on Home is never taken for one on a close button left lit by a modal.
pub proof fn law_home_has_no_close(s: AppView, x: int, y: int, close: Rect)
    requires
        s.nav.screen == Screen::Home,
    ensures
        !s.pointed(x, y, close).nav.hover_close,
{
}

/// Moving the pointer never moves the focus, on any screen.
pub proof fn law_pointer_leaves_focus(s: AppView, x: int, y: int, close: Rect)
    ensures
        s.pointed(x, y, close).nav.home_focus == s.nav.home_focus,
        s.pointed(x, y, close).prefs == s.prefs,
        s.pointed(x, y, close).menu == s.menu,
        s.pointed(x, y, close).pairing == s.pairing,
        s.pointed(x, y, close).speed == s.speed,
{
}

/// Back on Home does nothing.
pub proof fn law_home_is_root(s: AppView, range: BitrateRange, now: u64)
    requires
        s.nav.screen == Screen::Home,
    ensures
        s.backed(range, now) == s,
{
}

/// Events on the pairing screen keep every focus in range.
pub proof fn law_pairing_keeps_range(s: AppView, ev: MenuEvent, now: u64)
    requires
        s.in_range(),
    ensures
        s.pairing_event(ev, now).in_range(),
{
    reveal(AppView::pairing_event);
}

/// Events on the wake prompt keep every focus in range.
pub proof fn law_wake_keeps_range(s: AppView, ev: MenuEvent, now: u64)
    requires
        s.in_range(),
    ensures
        s.wake_event(ev, now).in_range(),
{
    reveal(AppView::wake_event);
}

/// Events on the forget prompt keep every focus in range.
pub proof fn law_forget_keeps_range(s: AppView, ev: MenuEvent, now: u64)
    requires
        s.in_range(),
    ensures
        s.forget_event(ev, now).in_range(),
{
    reveal(AppView::forget_event);
}

/// Events on the menu of a host keep every focus in range.
pub proof fn law_menu_keeps_range(s: AppView, ev: MenuEvent, now: u64)
    requires
        s.in_range(),
    ensures
        s.menu_event(ev, now).in_range(),
{
    reveal(AppView::menu_event);
}

/// Events on the wake settings keep every focus in range.
pub proof fn law_wake_settings_keeps_range(s: AppView, ev: MenuEvent, now: u64)
    requires
        s.in_range(),
    ensures
        s.wake_settings_event(ev, now).in_range(),
{
    reveal(AppView::wake_settings_event);
}

/// Events on the speed test keep every focus in range.
pub proof fn law_speed_test_keeps_range(s: AppView, ev: MenuEvent, now: u64, range: BitrateRange)
    requires
        s.in_range(),
    ensures
        s.speed_test_event(ev, now, range).in_range(),
{
    reveal(AppView::speed_test_event);
}

/// Events on the experimental switches keep every focus in range.
pub proof fn law_experimental_keeps_range(s: AppView, ev: MenuEvent, rows: usize, now: u64)
    requires
        s.in_range(),
    ensures
        s.experimental_event(ev, rows as int, now).in_range(),
{
    reveal(AppView::experimental_event);
}

/// Events on the diagnostics keep every focus in range.
pub proof fn law_diagnostics_keeps_range(s: AppView, ev: MenuEvent, now: u64)
    requires
        s.in_range(),
    ensures
        s.diagnostics_event(ev, now).in_range(),
{
    reveal(AppView::diagnostics_event);
}

/// Back leads one step back on every screen: from a list of choices to its row, from the screens
/// behind the settings to the settings, from those behind a host's menu to the menu, and from
/// every other screen Home.
pub proof fn law_back_leads_one_step_back(s: AppView, range: BitrateRange, now: u64)
    ensures
        ({
            let t = s.backed(range, now);
            let from = s.nav.screen;
            let to = t.nav.screen;
            &&& from == Screen::Pairing || from == Screen::AddHost || from == Screen::EditHost || from
                == Screen::HostMenu || from == Screen::PinLimit ==> to == Screen::Home
            &&& from == Screen::Settings && s.prefs.dropdown is None ==> to == Screen::Home
                && t.outbox == s.outbox.push(CommandView::SaveSettings)
            &&& from == Screen::Settings && s.prefs.dropdown is Some ==> to == from
                && t.prefs.dropdown is None && t.outbox == s.outbox
            &&& from == Screen::About || from == Screen::Experimental ==> to == Screen::Settings
                && t.prefs.scroll == s.prefs.settings_scroll
            &&& from == Screen::Diagnostics && s.prefs.dropdown is None ==> to == Screen::Settings
            &&& from == Screen::WakeSettings ==> to == Screen::HostMenu
            &&& from == Screen::ForgetHost || from == Screen::SpeedTest ==> to == if s.menu_entry()
                is Some {
                Screen::HostMenu
            } else {
                Screen::Home
            }
            &&& from == Screen::Wake && s.wake is Some ==> to == Screen::Home
            &&& t.hosts.known_hosts == s.hosts.known_hosts && t.hosts.entries == s.hosts.entries
            &&& t.hosts.selected_host == s.hosts.selected_host
            &&& t.prefs.settings == s.prefs.settings
        }),
{
    match s.nav.screen {
        Screen::Pairing => {
            reveal(AppView::pairing_event);
        },
        Screen::Wake => {
            reveal(AppView::wake_event);
        },
        Screen::ForgetHost => {
            reveal(AppView::forget_event);
        },
        Screen::HostMenu => {
            reveal(AppView::menu_event);
        },
        Screen::WakeSettings => {
            reveal(AppView::wake_settings_event);
        },
        Screen::SpeedTest => {
            reveal(AppView::speed_test_event);
            assert(s.speed_test_event(MenuEvent::Back, now, range) == s.speed_test_closed());
            let t = s.speed_as(
                SpeedView { speed_test: None, speed_test_running: false, ..s.speed },
            ).asking(CommandView::CancelSpeedTest);
            assert(t.menu_entry() == s.menu_entry());
        },
        Screen::EditHost => {
            reveal(AppView::edit_event);
        },
        Screen::Experimental => {
            reveal(AppView::experimental_event);
        },
        Screen::Diagnostics => {
            reveal(AppView::diagnostics_event);
        },
        _ => {},
    }
}

/// The cross of a modal is lit exactly while the pointer is on it.
pub proof fn law_cross_follows_the_pointer(s: AppView, x: int, y: int, close: Rect)
    ensures
        ({
            let t = s.pointed(x, y, close);
            let on = close.x <= x < close.x + close.w && close.y <= y < close.y + close.h;
            &&& s.nav.screen == Screen::Home ==> !t.nav.hover_close
            &&& s.nav.screen != Screen::Home && (s.nav.screen != Screen::Wake || s.wake is Some)
                ==> t.nav.hover_close == on
            &&& t.nav.screen == s.nav.screen && t.hosts == s.hosts && t.outbox == s.outbox
        }),
{
}

/// A click on Home does what the remote would on the thing it lands on: a menu button opens the
/// menu of its row, a row or a card is focused and confirmed, and a click on nothing does nothing.
pub proof fn law_click_on_home_lands(
    s: AppView,
    x: int,
    y: int,
    t: ClickTargets,
    vp: Viewport,
    now: u64,
    i: int,
)
    requires
        t.menu_buttons.len() <= usize::MAX,
        0 <= i,
    ensures
        ({
            let u = s.home_clicked(x, y, t, vp, now);
            let no_button = forall|j: int|
                0 <= j < t.menu_buttons.len() ==> !(#[trigger] t.menu_buttons@[j]).holds(x, y);
            let no_row = forall|j: int|
                0 <= j < t.sidebar_rows.len() ==> !(#[trigger] t.sidebar_rows@[j]).holds(x, y);
            &&& i < t.menu_buttons.len() && t.menu_buttons@[i].holds(x, y) && (forall|j: int|
                0 <= j < i ==> !(#[trigger] t.menu_buttons@[j]).holds(x, y)) ==> u.nav.screen
                == Screen::HostMenu && u.menu.host_menu_index == Some(i as usize)
                && u.nav.home_focus == HomeFocus::SidebarMenu(i as usize)
            &&& no_button && i < t.sidebar_rows.len() && t.sidebar_rows@[i].holds(x, y) && (forall|
                j: int,
            |
                0 <= j < i ==> !(#[trigger] t.sidebar_rows@[j]).holds(x, y)) ==> u == s.focused(
                HomeFocus::Sidebar(i as usize),
            ).home_event(MenuEvent::Confirm, vp, now)
            &&& no_button && no_row && t.cell is None ==> u == s
            &&& no_button && no_row && (t.cell matches Some(c) && s.card_at(
                c as int,
                vp.columns as int,
            ) is Some) ==> u == s.focused(HomeFocus::Grid(t.cell->0)).home_event(
                MenuEvent::Confirm,
                vp,
                now,
            )
            &&& no_button && no_row && (t.cell matches Some(c) && s.card_at(
                c as int,
                vp.columns as int,
            ) is None) ==> u == s
        }),
{
    lemma_hit(t.menu_buttons@, x, y, i);
    lemma_hit(t.sidebar_rows@, x, y, i);
}

proof fn lemma_hit(rects: Seq<Rect>, x: int, y: int, i: int)
    requires
        0 <= i,
    ensures
        0 <= hit_index(rects, x, y) <= rects.len(),
        i < rects.len() && rects[i].holds(x, y) && (forall|j: int|
            0 <= j < i ==> !(#[trigger] rects[j]).holds(x, y)) ==> hit_index(rects, x, y) == i,
        (forall|j: int| 0 <= j < rects.len() ==> !(#[trigger] rects[j]).holds(x, y)) ==> hit_index(
            rects,
            x,
            y,
        ) == rects.len(),
{
    if rects.len() > 0 {
        crate::geometry::law_first_rectangle_is_hit(
            rects,
            x,
            y,
            if i < rects.len() {
                i
            } else {
                0
            },
        );
    } else {
        assert(hit_index(rects, x, y) == 0);
    }
}

/// A click on a cross goes back; elsewhere on a modal it confirms what it lands on: the button
/// that asks for access, the row of a menu or of the settings, the switch, or the focused button
/// of a question. A form and a document take no click.
pub proof fn law_click_on_a_modal_lands(
    s: AppView,
    x: int,
    y: int,
    t: ClickTargets,
    vp: Viewport,
    list: SettingsList,
    range: BitrateRange,
    now: u64,
)
    ensures
        ({
            let u = s.clicked(x, y, t, vp, list, range, now);
            let on = s.nav.screen;
            let off = !s.nav.hover_close;
            &&& s.nav.hover_close ==> u == s.backed(range, now)
            &&& off && on == Screen::Pairing && t.request_button.holds(x, y)
                && !s.pairing.pairing_busy ==> u.outbox.len() == s.outbox.len() + 1 && u.outbox.last()
                is RequestAccess
            &&& off && on == Screen::Pairing && !t.request_button.holds(x, y) ==> u == s
            &&& off && on == Screen::Wake ==> u == s.wake_event(MenuEvent::Confirm, now)
            &&& off && on == Screen::ForgetHost ==> u == s.forget_event(MenuEvent::Confirm, now)
            &&& off && on == Screen::SpeedTest ==> u == s.speed_test_event(
                MenuEvent::Confirm,
                now,
                range,
            )
            &&& off && on == Screen::PinLimit ==> u == s.on(Screen::Home)
            &&& off && (on == Screen::AddHost || on == Screen::EditHost || on == Screen::About || on
                == Screen::Experimental || on == Screen::Diagnostics) ==> u == s
        }),
{
    reveal(AppView::pairing_event);
}

/// A click on a row of the settings focuses the row that is drawn there, scrolled as the list is,
/// and confirms it; a click beside the rows does nothing.
pub proof fn law_click_on_a_setting_lands(
    s: AppView,
    x: int,
    y: int,
    t: ClickTargets,
    list: SettingsList,
    range: BitrateRange,
    vp: Viewport,
    now: u64,
    i: int,
)
    requires
        !s.nav.hover_close,
        s.nav.screen == Screen::Settings,
        s.prefs.dropdown is None,
        list.rows.len() <= 0x1000_0000,
        t.list_rows.len() <= 0x1000_0000,
        0 <= i,
    ensures
        ({
            let u = s.clicked(x, y, t, vp, list, range, now);
            let total = list.rows.len() as int;
            let first = s.prefs.scroll.kept(
                total,
                list.metrics.in_view(s.prefs.settings, total),
            );
            &&& i < t.list_rows.len() && t.list_rows@[i].holds(x, y) && (forall|j: int|
                0 <= j < i ==> !(#[trigger] t.list_rows@[j]).holds(x, y)) ==> u == (AppView {
                prefs: Prefs { settings_focused: (first + i) as usize, ..s.prefs },
                ..s
            }).settings_event(
                MenuEvent::Confirm,
                list.rows@,
                list.choices as int,
                list.current,
                list.metrics,
                now,
            )
            &&& (forall|j: int|
                0 <= j < t.list_rows.len() ==> !(#[trigger] t.list_rows@[j]).holds(x, y)) ==> u == s
        }),
{
    lemma_hit(t.list_rows@, x, y, i);
}

/// A click on a row of a host's menu confirms that row; on the row's own button it opens what the
/// button stands for.
pub proof fn law_click_on_the_menu_lands(s: AppView, x: int, y: int, t: ClickTargets, now: u64, i: int)
    requires
        0 <= i < t.list_rows.len() <= usize::MAX,
        t.list_rows@[i].holds(x, y),
        forall|j: int| 0 <= j < i ==> !(#[trigger] t.list_rows@[j]).holds(x, y),
        i < s.actions().len(),
        i < t.list_dots.len(),
    ensures
        ({
            let u = s.menu_clicked(x, y, t, now);
            let dots = s.actions()[i].dots && t.list_dots@[i].holds(x, y);
            let at = s.menu_as(
                Menu { menu_focused: i as usize, host_menu_dots: false, ..s.menu },
            );
            &&& dots ==> u.nav.screen == Screen::WakeSettings && u.menu.menu_focused == i
            &&& !dots ==> u == at.menu_confirmed(now)
        }),
{
    reveal(AppView::menu_event);
    lemma_hit(t.list_rows@, x, y, i);
    let m = s.menu_as(Menu { menu_focused: i as usize, ..s.menu });
    assert(m.actions() == s.actions());
    let at = s.menu_as(Menu { menu_focused: i as usize, host_menu_dots: false, ..s.menu });
    assert(at.actions() == s.actions());
}

} // verus!
