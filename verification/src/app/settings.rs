//! The settings: moving through the rows, stepping them, and lists of choices.
use vstd::prelude::*;

use crate::app::diagnostics::{choice_step, step_choice};
use crate::app::{
    App, AppView, Command, CommandView, DropdownState, Nav, Prefs, Screen, ScrollWindow, Settings,
    SettingsRow,
};
use crate::geometry::MAX_LENGTH;
use crate::model::event::MenuEvent;
use crate::seqs::{index_in, lemma_index_in, lemma_index_in_unique};

verus! {

broadcast use crate::seqs::group_views;

/// What the settings list measures on this screen.
#[derive(Clone, Copy, Debug)]
pub struct SettingsMetrics {
    pub screen_h: u32,
    /// From one row to the next.
    pub stride: u32,
    /// The card above the list, and below it.
    pub chrome_top: u32,
    pub chrome_bottom: u32,
    /// The card below the list where a caution is shown.
    pub warn_chrome: u32,
    /// The bitrate above which it is shown.
    pub warn_kbps: u32,
    /// Space that the card leaves at the edges of the screen.
    pub edge_margin: u32,
    /// The part of a row that is seen past either end of an overflowing list.
    pub peek: u32,
}

impl SettingsMetrics {
    /// Lengths are those of a screen, and rows have a height.
    pub open spec fn valid(self) -> bool {
        &&& self.screen_h <= MAX_LENGTH
        &&& 1 <= self.stride <= MAX_LENGTH
        &&& self.chrome_top <= MAX_LENGTH
        &&& self.chrome_bottom <= MAX_LENGTH
        &&& self.warn_chrome <= MAX_LENGTH
        &&& self.edge_margin <= MAX_LENGTH
        &&& self.peek <= MAX_LENGTH
    }

    /// The card below the list at this bitrate.
    pub open spec fn bottom(self, settings: Settings) -> int {
        if settings.bitrate_kbps > self.warn_kbps {
            self.warn_chrome as int
        } else {
            self.chrome_bottom as int
        }
    }

    /// The height left for rows.
    pub open spec fn budget(self, settings: Settings) -> int {
        let chrome = self.chrome_top + self.bottom(settings) + self.edge_margin;
        if self.screen_h >= chrome {
            self.screen_h - chrome
        } else {
            0
        }
    }

    /// How many of `total` rows are wholly in view: all of them where they fit, otherwise as many
    /// as fit between the two peeks, and at least one.
    pub open spec fn in_view(self, settings: Settings, total: int) -> int {
        let budget = self.budget(settings);
        if budget / self.stride as int >= total {
            if total > 1 {
                total
            } else {
                1
            }
        } else {
            let room = (if budget >= 2 * self.peek {
                budget - 2 * self.peek
            } else {
                0
            }) / self.stride as int;
            if room < 1 {
                1
            } else if room > total {
                total
            } else {
                room
            }
        }
    }

    /// The height of the list.
    pub open spec fn list_height(self, settings: Settings, total: int) -> int {
        self.in_view(settings, total) * self.stride + (if self.in_view(settings, total) < total {
            2 * self.peek
        } else {
            0
        })
    }
}

/// How many rows of the settings are wholly in view.
pub fn settings_visible_rows(settings: &Settings, total: usize, m: &SettingsMetrics) -> (r: usize)
    requires
        m.valid(),
    ensures
        r == m.in_view(*settings, total as int),
        r >= 1,
        r <= MAX_LENGTH || r == total,
{
    let bottom: u32 = settings_chrome_bottom(settings, m);
    let budget: u32 = m.screen_h.saturating_sub(m.chrome_top + bottom + m.edge_margin);
    let fit: u32 = budget / m.stride;
    proof {
        let b = budget as int;
        let s = m.stride as int;
        assert(0 <= b / s <= b) by (nonlinear_arith)
            requires
                b >= 0,
                s >= 1,
        ;
    }
    if fit as usize >= total {
        return if total > 1 {
            total
        } else {
            1
        };
    }
    let between: u32 = budget.saturating_sub(2 * m.peek);
    proof {
        let b = between as int;
        let s = m.stride as int;
        assert(0 <= b / s <= b) by (nonlinear_arith)
            requires
                b >= 0,
                s >= 1,
        ;
    }
    let room: usize = (between / m.stride) as usize;
    if room < 1 {
        1
    } else if room > total {
        total
    } else {
        room
    }
}

/// The height of the card below the list.
pub fn settings_chrome_bottom(settings: &Settings, m: &SettingsMetrics) -> (r: u32)
    ensures
        r == m.bottom(*settings),
{
    if settings.bitrate_kbps > m.warn_kbps {
        m.warn_chrome
    } else {
        m.chrome_bottom
    }
}

/// The height of the list.
pub fn settings_content_h(settings: &Settings, total: usize, m: &SettingsMetrics) -> (r: u32)
    requires
        m.valid(),
        total <= MAX_LENGTH,
    ensures
        r == m.list_height(*settings, total as int),
{
    let visible: usize = settings_visible_rows(settings, total, m);
    let peeks: u32 = if visible < total {
        2 * m.peek
    } else {
        0
    };
    proof {
        let v = visible as int;
        let s = m.stride as int;
        assert(0 <= v * s <= 0x4000_0000) by (nonlinear_arith)
            requires
                0 <= v <= 32768,
                1 <= s <= 32768,
        ;
    }
    visible as u32 * m.stride + peeks
}

/// An overflowing list and its peeks never take more room than there is, as long as one row fits.
pub proof fn law_settings_fit_screen(m: SettingsMetrics, settings: Settings, total: int)
    requires
        m.valid(),
        0 < total,
        m.budget(settings) >= m.stride + 2 * m.peek,
    ensures
        m.list_height(settings, total) <= m.budget(settings),
        1 <= m.in_view(settings, total) <= total,
{
    let b = m.budget(settings);
    let s = m.stride as int;
    let free = b - 2 * m.peek;
    let room = free / s;
    assert(room * s <= free && room >= 1) by (nonlinear_arith)
        requires
            free >= s,
            s >= 1,
            room == free / s,
    ;
    let fit = b / s;
    assert(fit * s <= b) by (nonlinear_arith)
        requires
            b >= 0,
            s >= 1,
            fit == b / s,
    ;
    let v = m.in_view(settings, total);
    if fit >= total {
        assert(v * s <= fit * s) by (nonlinear_arith)
            requires
                v <= fit,
                s >= 1,
        ;
    } else {
        assert(v * s <= room * s) by (nonlinear_arith)
            requires
                v <= room,
                s >= 1,
        ;
    }
}

/// Whether a row offers a list of choices.
pub open spec fn lists_choices(row: SettingsRow) -> bool {
    match row {
        SettingsRow::Resolution
        | SettingsRow::FrameRate
        | SettingsRow::VideoBackend
        | SettingsRow::Codec
        | SettingsRow::Audio
        | SettingsRow::Gamepad
        | SettingsRow::ColorRange => true,
        _ => false,
    }
}

/// Choices always number at least one.
pub open spec fn choice_count(choices: int) -> int {
    if choices > 1 {
        choices
    } else {
        1
    }
}

impl AppView {
    /// The same state with the focus on this row of the settings, scrolled into view.
    pub open spec fn settings_moved(
        self,
        to: usize,
        total: int,
        m: SettingsMetrics,
        now: u64,
    ) -> AppView {
        AppView {
            prefs: Prefs {
                settings_focused: to,
                scroll: ScrollWindow {
                    offset: self.prefs.scroll.offset_for(
                        to as int,
                        total,
                        m.in_view(self.prefs.settings, total),
                    ) as usize,
                    shown_at: Some(now),
                },
                ..self.prefs
            },
            ..self
        }.popped(now)
    }

    /// After asking for the focused setting to be stepped.
    pub open spec fn setting_stepped(self, rows: Seq<SettingsRow>, forward: bool) -> AppView {
        self.asking(
            CommandView::AdjustSetting { row: rows[self.prefs.settings_focused as int], forward },
        )
    }

    /// After confirming the focused row: a link leads to its screen, and saves what was changed
    /// so far; other rows list their choices or are stepped.
    pub open spec fn row_confirmed(
        self,
        rows: Seq<SettingsRow>,
        current: usize,
        now: u64,
    ) -> AppView {
        let row = rows[self.prefs.settings_focused as int];
        let saved = self.asking(CommandView::SaveSettings);
        match row {
            SettingsRow::About => saved.about_opened(),
            SettingsRow::Experimental => saved.experimental_opened(),
            SettingsRow::Diagnostics => saved.diagnostics_opened(),
            _ => if lists_choices(row) {
                self.dropdown_opened(self.prefs.settings_focused, current, now)
            } else {
                self.setting_stepped(rows, true)
            },
        }
    }

    /// After one event while the choices of a row are listed.
    pub open spec fn choice_event(
        self,
        dd: DropdownState,
        ev: MenuEvent,
        rows: Seq<SettingsRow>,
        choices: int,
        now: u64,
    ) -> AppView {
        match ev {
            MenuEvent::Up | MenuEvent::Down => self.dropdown_as(
                Some(
                    DropdownState {
                        focused: choice_step(dd.focused, choice_count(choices), ev),
                        ..dd
                    },
                ),
            ),
            MenuEvent::Confirm => self.dropdown_closed(dd, now).asking(
                CommandView::ApplyDropdown { row: rows[dd.row as int], choice: dd.focused },
            ),
            MenuEvent::Back => self.dropdown_closed(dd, now),
            _ => self,
        }
    }

    /// After one event on the settings, whose visible rows are `rows`.
    #[verifier::opaque]
    pub open spec fn settings_event(
        self,
        ev: MenuEvent,
        rows: Seq<SettingsRow>,
        choices: int,
        current: usize,
        m: SettingsMetrics,
        now: u64,
    ) -> AppView {
        let at = self.prefs.settings_focused;
        match self.prefs.dropdown {
            Some(dd) => self.choice_event(dd, ev, rows, choices, now),
            None => match ev {
                MenuEvent::Up => if at > 0 {
                    self.settings_moved((at - 1) as usize, rows.len() as int, m, now)
                } else {
                    self
                },
                MenuEvent::Down => if at + 1 < rows.len() {
                    self.settings_moved((at + 1) as usize, rows.len() as int, m, now)
                } else {
                    self
                },
                MenuEvent::Left => self.setting_stepped(rows, false),
                MenuEvent::Right => self.setting_stepped(rows, true),
                MenuEvent::Confirm => self.row_confirmed(rows, current, now),
                MenuEvent::Back => self.asking(CommandView::SaveSettings).on(Screen::Home),
                MenuEvent::Secondary => self,
            },
        }
    }

    /// With the focus on `row`, wherever it is listed now; where it no longer is, the focus stays
    /// in the list.
    pub open spec fn refocused_row(self, row: SettingsRow, rows: Seq<SettingsRow>) -> AppView {
        let at = index_in(rows, row);
        AppView {
            prefs: Prefs {
                settings_focused: (if at < rows.len() {
                    at
                } else if rows.len() == 0 {
                    0
                } else if self.prefs.settings_focused > rows.len() - 1 {
                    rows.len() - 1
                } else {
                    self.prefs.settings_focused as int
                }) as usize,
                ..self.prefs
            },
            ..self
        }
    }

    /// With these settings.
    pub open spec fn settings_as(self, settings: Settings) -> AppView {
        AppView { prefs: Prefs { settings, ..self.prefs }, ..self }
    }

    /// After a setting was stepped: a switch that changed slides.
    pub open spec fn step_finished(
        self,
        row: SettingsRow,
        changed: bool,
        settings: Settings,
        rows: Seq<SettingsRow>,
        now: u64,
    ) -> AppView {
        let s = if changed && row == SettingsRow::Hdr {
            AppView {
                nav: Nav { switch_anim: Some((now, self.prefs.settings.hdr_enabled)), ..self.nav },
                ..self
            }
        } else {
            self
        };
        s.settings_as(settings).refocused_row(row, rows)
    }
}

fn find_row(rows: &Vec<SettingsRow>, row: SettingsRow) -> (r: usize)
    ensures
        r == index_in(rows@, row),
        r <= rows.len(),
{
    let mut i: usize = 0;
    while i < rows.len()
        invariant
            i <= rows.len(),
            forall|j: int| 0 <= j < i ==> rows@[j] != row,
        decreases rows.len() - i,
    {
        if rows[i] == row {
            proof {
                lemma_index_in_unique(rows@, row, i as int);
            }
            return i;
        }
        i += 1;
    }
    proof {
        lemma_index_in(rows@, row);
    }
    rows.len()
}

fn offers_choices(row: SettingsRow) -> (r: bool)
    ensures
        r == lists_choices(row),
{
    match row {
        SettingsRow::Resolution
        | SettingsRow::FrameRate
        | SettingsRow::VideoBackend
        | SettingsRow::Codec
        | SettingsRow::Audio
        | SettingsRow::Gamepad
        | SettingsRow::ColorRange => true,
        _ => false,
    }
}

impl App {
    fn move_settings_focus(&mut self, to: usize, total: usize, m: &SettingsMetrics, now: u64)
        requires
            m.valid(),
            to < total,
        ensures
            final(self)@ == old(self)@.settings_moved(to, total as int, *m, now),
    {
        self.prefs.settings_focused = to;
        self.nav.modal_focus_anim = Some(now);
        let visible: usize = settings_visible_rows(&self.prefs.settings, total, m);
        self.prefs.scroll.scroll_into_view(to, total, visible, now);
    }

    /// Asks for the focused setting to be stepped; `finish_setting_adjust` takes the outcome.
    pub fn apply_setting_adjust(&mut self, rows: &Vec<SettingsRow>, forward: bool)
        requires
            old(self)@.prefs.settings_focused < rows.len(),
        ensures
            final(self)@ == old(self)@.setting_stepped(rows@, forward),
    {
        let row = rows[self.prefs.settings_focused];
        self.outbox.push(Command::AdjustSetting { row, forward });
    }

    fn confirm_row(&mut self, rows: &Vec<SettingsRow>, current: usize, now: u64)
        requires
            old(self)@.prefs.settings_focused < rows.len(),
        ensures
            final(self)@ == old(self)@.row_confirmed(rows@, current, now),
    {
        let row = rows[self.prefs.settings_focused];
        match row {
            SettingsRow::About => {
                self.outbox.push(Command::SaveSettings);
                self.open_about();
            },
            SettingsRow::Experimental => {
                self.outbox.push(Command::SaveSettings);
                self.open_experimental();
            },
            SettingsRow::Diagnostics => {
                self.outbox.push(Command::SaveSettings);
                self.open_diagnostics();
            },
            _ => {
                if offers_choices(row) {
                    self.open_dropdown(self.prefs.settings_focused, current, now);
                } else {
                    self.apply_setting_adjust(rows, true);
                }
            },
        }
    }

    fn handle_choice(
        &mut self,
        dd: DropdownState,
        ev: MenuEvent,
        rows: &Vec<SettingsRow>,
        choices: usize,
        now: u64,
    )
        requires
            dd.row < rows.len(),
            dd.focused < usize::MAX,
        ensures
            final(self)@ == old(self)@.choice_event(dd, ev, rows@, choices as int, now),
    {
        match ev {
            MenuEvent::Up | MenuEvent::Down => {
                let len: usize = if choices > 1 {
                    choices
                } else {
                    1
                };
                let focused: usize = step_choice(dd.focused, len, ev);
                self.prefs.dropdown = Some(DropdownState { row: dd.row, focused });
            },
            MenuEvent::Confirm => {
                self.close_dropdown(dd.row, dd.focused, now);
                self.outbox.push(
                    Command::ApplyDropdown { row: rows[dd.row], choice: dd.focused },
                );
            },
            MenuEvent::Back => {
                self.close_dropdown(dd.row, dd.focused, now);
            },
            _ => {},
        }
    }

    /// Handles one event on the settings. `rows` are the visible rows, `choices` the number of
    /// choices of the row whose list is open, and `current` the place of the focused row's value
    /// among its choices.
    pub fn handle_settings_event(
        &mut self,
        ev: MenuEvent,
        rows: &Vec<SettingsRow>,
        choices: usize,
        current: usize,
        m: &SettingsMetrics,
        now: u64,
    )
        requires
            m.valid(),
            old(self)@.prefs.settings_focused < rows.len(),
            old(self)@.prefs.dropdown matches Some(dd) ==> dd.row < rows.len() && dd.focused
                < usize::MAX,
        ensures
            final(self)@ == old(self)@.settings_event(
                ev,
                rows@,
                choices as int,
                current,
                *m,
                now,
            ),
    {
        proof {
            reveal(AppView::settings_event);
        }
        match self.prefs.dropdown {
            Some(dd) => {
                self.handle_choice(dd, ev, rows, choices, now);
                return ;
            },
            None => {},
        }
        let at: usize = self.prefs.settings_focused;
        match ev {
            MenuEvent::Up => {
                if at > 0 {
                    self.move_settings_focus(at - 1, rows.len(), m, now);
                }
            },
            MenuEvent::Down => {
                if at + 1 < rows.len() {
                    self.move_settings_focus(at + 1, rows.len(), m, now);
                }
            },
            MenuEvent::Left => {
                self.apply_setting_adjust(rows, false);
            },
            MenuEvent::Right => {
                self.apply_setting_adjust(rows, true);
            },
            MenuEvent::Confirm => {
                self.confirm_row(rows, current, now);
            },
            MenuEvent::Back => {
                self.outbox.push(Command::SaveSettings);
                self.nav.screen = Screen::Home;
            },
            MenuEvent::Secondary => {},
        }
    }

    /// Keeps the focus on `row` after rows may have come or gone.
    pub fn refocus_logical(&mut self, row: SettingsRow, rows: &Vec<SettingsRow>)
        ensures
            final(self)@ == old(self)@.refocused_row(row, rows@),
    {
        let at: usize = find_row(rows, row);
        if at < rows.len() {
            self.prefs.settings_focused = at;
        } else if rows.len() == 0 {
            self.prefs.settings_focused = 0;
        } else if self.prefs.settings_focused > rows.len() - 1 {
            self.prefs.settings_focused = rows.len() - 1;
        }
    }

    /// Takes the settings after one of them was stepped. `changed` tells whether it took a new
    /// value, and `rows` are the rows visible from now on.
    pub fn finish_setting_adjust(
        &mut self,
        row: SettingsRow,
        changed: bool,
        settings: Settings,
        rows: &Vec<SettingsRow>,
        now: u64,
    )
        ensures
            final(self)@ == old(self)@.step_finished(row, changed, settings, rows@, now),
    {
        if changed && row == SettingsRow::Hdr {
            self.nav.switch_anim = Some((now, self.prefs.settings.hdr_enabled));
        }
        self.prefs.settings = settings;
        self.refocus_logical(row, rows);
    }

    /// Takes the settings after one of them was given a choice out of its list.
    pub fn finish_dropdown_choice(
        &mut self,
        row: SettingsRow,
        settings: Settings,
        rows: &Vec<SettingsRow>,
    )
        ensures
            final(self)@ == old(self)@.settings_as(settings).refocused_row(row, rows@),
    {
        self.prefs.settings = settings;
        self.refocus_logical(row, rows);
    }
}

/// The focus of the settings stays on a row, and moving it keeps it in view.
pub proof fn law_settings_focus_in_list(
    s: AppView,
    ev: MenuEvent,
    rows: Seq<SettingsRow>,
    choices: int,
    current: usize,
    m: SettingsMetrics,
    now: u64,
)
    requires
        s.prefs.settings_focused < rows.len() <= usize::MAX,
    ensures
        s.settings_event(ev, rows, choices, current, m, now).prefs.settings_focused < rows.len(),
{
    reveal(AppView::settings_event);
}

/// A setting that is still listed keeps the focus, wherever it has moved.
pub proof fn law_focus_follows_row(s: AppView, row: SettingsRow, rows: Seq<SettingsRow>)
    requires
        rows.contains(row),
        rows.len() <= usize::MAX,
    ensures
        rows[s.refocused_row(row, rows).prefs.settings_focused as int] == row,
{
    lemma_index_in(rows, row);
}

/// Changes are stored when the settings are left, not before: no event but leaving them or
/// following a link saves.
pub proof fn law_saved_on_leaving(
    s: AppView,
    ev: MenuEvent,
    rows: Seq<SettingsRow>,
    choices: int,
    current: usize,
    m: SettingsMetrics,
    now: u64,
)
    requires
        s.settings_event(ev, rows, choices, current, m, now).outbox == s.outbox.push(
            CommandView::SaveSettings,
        ),
    ensures
        s.settings_event(ev, rows, choices, current, m, now).nav.screen != Screen::Settings
            || s.nav.screen != Screen::Settings,
{
    reveal(AppView::settings_event);
    let t = s.settings_event(ev, rows, choices, current, m, now);
    assert(t.outbox[s.outbox.len() as int] == CommandView::SaveSettings);
    assert(t.outbox.len() == s.outbox.len() + 1);
}

/// In the settings Up and Down go one row up and down and stop at the ends, Left and Right step
/// the focused setting back and forward, Confirm does what the row offers, and Back stores the
/// settings and leads Home.
pub proof fn law_settings_are_walked_and_stepped(
    s: AppView,
    ev: MenuEvent,
    rows: Seq<SettingsRow>,
    choices: int,
    current: usize,
    m: SettingsMetrics,
    now: u64,
)
    requires
        s.prefs.settings_focused < rows.len() <= usize::MAX,
        s.prefs.dropdown is None,
    ensures
        ({
            let t = s.settings_event(ev, rows, choices, current, m, now);
            let at = s.prefs.settings_focused as int;
            let row = rows[at];
            &&& ev == MenuEvent::Up ==> t.prefs.settings_focused == if at > 0 {
                at - 1
            } else {
                0
            }
            &&& ev == MenuEvent::Down ==> t.prefs.settings_focused == if at + 1 < rows.len() {
                at + 1
            } else {
                at
            }
            &&& ev == MenuEvent::Left ==> t == s.asking(
                CommandView::AdjustSetting { row, forward: false },
            )
            &&& ev == MenuEvent::Right ==> t == s.asking(
                CommandView::AdjustSetting { row, forward: true },
            )
            &&& ev == MenuEvent::Back ==> t.nav.screen == Screen::Home && t.outbox == s.outbox.push(
                CommandView::SaveSettings,
            )
            &&& ev == MenuEvent::Secondary ==> t == s
            &&& ev == MenuEvent::Up || ev == MenuEvent::Down ==> t.outbox == s.outbox
                && t.nav.screen == s.nav.screen && t.prefs.settings == s.prefs.settings
            &&& t.prefs.settings == s.prefs.settings
        }),
{
    reveal(AppView::settings_event);
}

/// Confirm follows the links to their screens, storing what was changed so far, lists the choices
/// of the settings that have a list, with the one in use focused, and steps every other setting
/// forward.
pub proof fn law_confirm_does_what_the_row_offers(
    s: AppView,
    rows: Seq<SettingsRow>,
    choices: int,
    current: usize,
    m: SettingsMetrics,
    now: u64,
)
    requires
        s.prefs.settings_focused < rows.len(),
        s.prefs.dropdown is None,
    ensures
        ({
            let t = s.settings_event(MenuEvent::Confirm, rows, choices, current, m, now);
            let row = rows[s.prefs.settings_focused as int];
            let saved = s.outbox.push(CommandView::SaveSettings);
            match row {
                SettingsRow::About => t.nav.screen == Screen::About && t.outbox == saved,
                SettingsRow::Experimental => t.nav.screen == Screen::Experimental && t.outbox
                    == saved,
                SettingsRow::Diagnostics => t.nav.screen == Screen::Diagnostics && t.outbox == saved,
                SettingsRow::Hdr | SettingsRow::Other(_) => t == s.asking(
                    CommandView::AdjustSetting { row, forward: true },
                ),
                _ => t.prefs.dropdown == Some(
                    DropdownState { row: s.prefs.settings_focused, focused: current },
                ) && t.outbox == s.outbox && t.nav == s.nav,
            }
        }),
{
    reveal(AppView::settings_event);
}

/// An open list of choices is walked up and down round its ends; Confirm closes it and gives the
/// setting whose list it is the focused choice, Back closes it and changes nothing.
pub proof fn law_choice_is_applied_to_its_row(
    s: AppView,
    ev: MenuEvent,
    rows: Seq<SettingsRow>,
    choices: int,
    current: usize,
    m: SettingsMetrics,
    now: u64,
    dd: DropdownState,
)
    requires
        s.prefs.dropdown == Some(dd),
        0 < choices <= usize::MAX,
        dd.focused < choices,
    ensures
        ({
            let t = s.settings_event(ev, rows, choices, current, m, now);
            &&& ev == MenuEvent::Confirm ==> t.prefs.dropdown is None && t.outbox == s.outbox.push(
                CommandView::ApplyDropdown { row: rows[dd.row as int], choice: dd.focused },
            )
            &&& ev == MenuEvent::Back ==> t.prefs.dropdown is None && t.outbox == s.outbox
            &&& ev == MenuEvent::Up ==> t.prefs.dropdown == Some(
                DropdownState {
                    row: dd.row,
                    focused: (if dd.focused == 0 {
                        choices - 1
                    } else {
                        dd.focused - 1
                    }) as usize,
                },
            )
            &&& ev == MenuEvent::Down ==> t.prefs.dropdown == Some(
                DropdownState {
                    row: dd.row,
                    focused: (if dd.focused + 1 == choices {
                        0
                    } else {
                        dd.focused + 1
                    }) as usize,
                },
            )
            &&& ev == MenuEvent::Left || ev == MenuEvent::Right || ev == MenuEvent::Secondary ==> t
                == s
            &&& ev != MenuEvent::Confirm ==> t.outbox == s.outbox
            &&& t.nav.screen == s.nav.screen && t.prefs.settings == s.prefs.settings
        }),
{
    reveal(AppView::settings_event);
    let at = dd.focused as int;
    if at + 1 < choices {
        vstd::arithmetic::div_mod::lemma_small_mod((at + 1) as nat, choices as nat);
    } else {
        vstd::arithmetic::div_mod::lemma_mod_self_0(choices);
    }
}

/// What came of stepping a setting is taken over whole; the switch of HDR slides from where it
/// was, if it changed, and no other does.
pub proof fn law_step_is_taken_over(
    s: AppView,
    row: SettingsRow,
    changed: bool,
    settings: Settings,
    rows: Seq<SettingsRow>,
    now: u64,
)
    ensures
        ({
            let t = s.step_finished(row, changed, settings, rows, now);
            &&& t.prefs.settings == settings
            &&& t.nav.switch_anim == if changed && row == SettingsRow::Hdr {
                Some((now, s.prefs.settings.hdr_enabled))
            } else {
                s.nav.switch_anim
            }
            &&& t.outbox == s.outbox && t.nav.screen == s.nav.screen
        }),
{
}

/// A caution takes the place below the list exactly above the bitrate from which it is shown, and
/// all rows are in view where they fit without it being cut.
pub proof fn law_all_rows_in_view_where_they_fit(m: SettingsMetrics, settings: Settings, total: int)
    requires
        m.valid(),
        0 < total,
    ensures
        ({
            let below = if settings.bitrate_kbps > m.warn_kbps {
                m.warn_chrome
            } else {
                m.chrome_bottom
            };
            let free = m.screen_h - m.chrome_top - below - m.edge_margin;
            &&& total * m.stride <= free ==> m.in_view(settings, total) == total
                && m.list_height(settings, total) == total * m.stride
            &&& total * m.stride > free && free >= 0 ==> m.in_view(settings, total) == 1 || m.in_view(
                settings,
                total,
            ) * m.stride + 2 * m.peek <= free
        }),
{
    let stride = m.stride as int;
    let b = m.budget(settings);
    let q = b / stride;
    assert(b == m.budget(settings) && b >= 0);
    assert(q >= total <==> total * stride <= b) by (nonlinear_arith)
        requires
            q == b / stride,
            stride >= 1,
            b >= 0,
    ;
    assert(total * stride > 0) by (nonlinear_arith)
        requires
            total > 0,
            stride >= 1,
    ;
    let room = (if b >= 2 * m.peek {
        b - 2 * m.peek
    } else {
        0
    });
    let r = room / stride;
    assert(r * stride <= room) by (nonlinear_arith)
        requires
            r == room / stride,
            stride >= 1,
    ;
    if r > total {
        assert(total * stride <= r * stride) by (nonlinear_arith)
            requires
                total <= r,
                stride >= 1,
        ;
    }
}

} // verus!
