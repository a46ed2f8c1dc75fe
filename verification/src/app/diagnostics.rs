//! The log level, for looking into problems on the device.
use vstd::prelude::*;

use crate::app::hostmenu::{list_nav, list_step, list_takes};
use crate::app::{
    App, AppView, Command, CommandView, DropdownFade, DropdownState, LogLevelOverride, Prefs,
    Screen, Settings,
};
use crate::model::event::MenuEvent;

verus! {

broadcast use crate::seqs::group_views;

/// The number of log levels to choose from.
pub const LOG_LEVEL_COUNT: usize = 4;

/// The number of rows on the screen.
pub const DIAGNOSTICS_ROW_COUNT: usize = 1;

pub const DIAGNOSTICS_SUBTITLE: &'static str = "Debug aid for on-device investigation. Applies immediately.";

/// The place of a log level in the list of choices.
pub open spec fn level_place(level: LogLevelOverride) -> int {
    match level {
        LogLevelOverride::Debug => 0,
        LogLevelOverride::Info => 1,
        LogLevelOverride::Warn => 2,
        LogLevelOverride::Error => 3,
    }
}

/// The place of a log level in the list of choices.
pub fn log_level_dropdown_current_index(level: LogLevelOverride) -> (r: usize)
    ensures
        r == level_place(level),
        r < LOG_LEVEL_COUNT,
{
    match level {
        LogLevelOverride::Debug => 0,
        LogLevelOverride::Info => 1,
        LogLevelOverride::Warn => 2,
        LogLevelOverride::Error => 3,
    }
}

/// The log level at this place of the list; past its end, the last one.
pub open spec fn level_at(place: int) -> LogLevelOverride {
    if place == 0 {
        LogLevelOverride::Debug
    } else if place == 1 {
        LogLevelOverride::Info
    } else if place == 2 {
        LogLevelOverride::Warn
    } else {
        LogLevelOverride::Error
    }
}

fn log_level_at(place: usize) -> (r: LogLevelOverride)
    ensures
        r == level_at(place as int),
{
    if place == 0 {
        LogLevelOverride::Debug
    } else if place == 1 {
        LogLevelOverride::Info
    } else if place == 2 {
        LogLevelOverride::Warn
    } else {
        LogLevelOverride::Error
    }
}

impl DropdownFade {
    /// After the list of `row` was closed with `focused` as its focused choice.
    pub open spec fn closed(self, row: usize, focused: usize, now: u64) -> DropdownFade {
        DropdownFade { closing: Some((now, row, focused)), ..self }
    }

    /// After a list was opened.
    pub open spec fn opened(now: u64) -> DropdownFade {
        DropdownFade { opened_at: Some(now), closing: None }
    }
}

/// The focused choice after one step among `len`, from either end to the other.
pub open spec fn choice_step(focused: usize, len: int, ev: MenuEvent) -> usize {
    match ev {
        MenuEvent::Up => (if focused == 0 {
            len - 1
        } else {
            focused - 1
        }) as usize,
        MenuEvent::Down => ((focused + 1) % len) as usize,
        _ => focused,
    }
}

/// The focused choice after one step among `len`.
pub fn step_choice(focused: usize, len: usize, ev: MenuEvent) -> (r: usize)
    requires
        0 < len,
        focused < usize::MAX,
    ensures
        r == choice_step(focused, len as int, ev),
{
    match ev {
        MenuEvent::Up => if focused == 0 {
            len - 1
        } else {
            focused - 1
        },
        MenuEvent::Down => (focused + 1) % len,
        _ => focused,
    }
}

impl AppView {
    /// The same state with the list of choices like this.
    pub open spec fn dropdown_as(self, dropdown: Option<DropdownState>) -> AppView {
        AppView { prefs: Prefs { dropdown, ..self.prefs }, ..self }
    }

    /// After closing the list of choices `dd`.
    pub open spec fn dropdown_closed(self, dd: DropdownState, now: u64) -> AppView {
        AppView {
            prefs: Prefs {
                dropdown: None,
                dropdown_fade: self.prefs.dropdown_fade.closed(dd.row, dd.focused, now),
                ..self.prefs
            },
            ..self
        }
    }

    /// After opening a list of choices.
    pub open spec fn dropdown_opened(self, row: usize, focused: usize, now: u64) -> AppView {
        AppView {
            prefs: Prefs {
                dropdown: Some(DropdownState { row, focused }),
                dropdown_fade: DropdownFade::opened(now),
                ..self.prefs
            },
            ..self
        }
    }

    /// After opening the screen; the settings keep their place meanwhile.
    pub open spec fn diagnostics_opened(self) -> AppView {
        AppView {
            prefs: Prefs {
                diagnostics_focused: 0,
                settings_scroll: self.prefs.scroll,
                ..self.prefs
            },
            ..self
        }.on(Screen::Diagnostics)
    }

    /// After choosing a log level, which applies at once.
    pub open spec fn level_set(self, level: LogLevelOverride) -> AppView {
        AppView {
            prefs: Prefs {
                settings: Settings { log_level_override: level, ..self.prefs.settings },
                ..self.prefs
            },
            ..self
        }.asking(CommandView::SetLogLevel(level))
    }

    /// After one event while the levels are listed.
    pub open spec fn level_choice_event(self, dd: DropdownState, ev: MenuEvent, now: u64) -> AppView {
        match ev {
            MenuEvent::Up | MenuEvent::Down => self.dropdown_as(
                Some(
                    DropdownState {
                        focused: choice_step(dd.focused, LOG_LEVEL_COUNT as int, ev),
                        ..dd
                    },
                ),
            ),
            MenuEvent::Confirm => self.dropdown_closed(DropdownState { row: 0, ..dd }, now).level_set(
                level_at(dd.focused as int),
            ),
            MenuEvent::Back => self.dropdown_closed(DropdownState { row: 0, ..dd }, now),
            _ => self,
        }
    }

    /// After one event on the screen.
    #[verifier::opaque]
    pub open spec fn diagnostics_event(self, ev: MenuEvent, now: u64) -> AppView {
        match self.prefs.dropdown {
            Some(dd) => self.level_choice_event(dd, ev, now),
            None => if list_takes(DIAGNOSTICS_ROW_COUNT as int, ev) {
                AppView {
                    prefs: Prefs {
                        diagnostics_focused: list_step(
                            self.prefs.diagnostics_focused,
                            DIAGNOSTICS_ROW_COUNT as int,
                            ev,
                        ),
                        ..self.prefs
                    },
                    ..self
                }.popped(now)
            } else {
                match ev {
                    MenuEvent::Left | MenuEvent::Right => self.level_set(
                        level_at(
                            (level_place(self.prefs.settings.log_level_override) + 1)
                                % LOG_LEVEL_COUNT as int,
                        ),
                    ),
                    MenuEvent::Confirm => self.dropdown_opened(
                        0,
                        level_place(self.prefs.settings.log_level_override) as usize,
                        now,
                    ),
                    MenuEvent::Back => self.asking(CommandView::SaveSettings).back_in_settings(),
                    _ => self,
                }
            },
        }
    }
}

impl App {
    /// Opens the screen.
    pub fn open_diagnostics(&mut self)
        ensures
            final(self)@ == old(self)@.diagnostics_opened(),
    {
        self.prefs.diagnostics_focused = 0;
        self.prefs.settings_scroll = self.prefs.scroll;
        self.nav.screen = Screen::Diagnostics;
    }

    /// The line below the title.
    pub fn diagnostics_subtitle(&self) -> (r: String)
        ensures
            r@ == DIAGNOSTICS_SUBTITLE@,
    {
        DIAGNOSTICS_SUBTITLE.to_owned()
    }

    fn set_log_level(&mut self, level: LogLevelOverride)
        ensures
            final(self)@ == old(self)@.level_set(level),
    {
        self.prefs.settings.log_level_override = level;
        self.outbox.push(Command::SetLogLevel(level));
    }

    /// Moves on to the next log level, from the last to the first.
    pub fn cycle_log_level(&mut self)
        ensures
            final(self)@ == old(self)@.level_set(
                level_at(
                    (level_place(old(self)@.prefs.settings.log_level_override) + 1)
                        % LOG_LEVEL_COUNT as int,
                ),
            ),
    {
        let at: usize = log_level_dropdown_current_index(self.prefs.settings.log_level_override);
        self.set_log_level(log_level_at((at + 1) % LOG_LEVEL_COUNT));
    }

    /// Closes the list of choices.
    pub fn close_dropdown(&mut self, row: usize, focused: usize, now: u64)
        ensures
            final(self)@ == old(self)@.dropdown_closed(DropdownState { row, focused }, now),
    {
        self.prefs.dropdown = None;
        self.prefs.dropdown_fade.closing = Some((now, row, focused));
    }

    /// Opens a list of choices.
    pub fn open_dropdown(&mut self, row: usize, focused: usize, now: u64)
        ensures
            final(self)@ == old(self)@.dropdown_opened(row, focused, now),
    {
        self.prefs.dropdown = Some(DropdownState { row, focused });
        self.prefs.dropdown_fade = DropdownFade { opened_at: Some(now), closing: None };
    }

    fn handle_level_choice(&mut self, dd: DropdownState, ev: MenuEvent, now: u64)
        requires
            dd.focused < usize::MAX,
        ensures
            final(self)@ == old(self)@.level_choice_event(dd, ev, now),
    {
        match ev {
            MenuEvent::Up | MenuEvent::Down => {
                let focused: usize = step_choice(dd.focused, LOG_LEVEL_COUNT, ev);
                self.prefs.dropdown = Some(DropdownState { row: dd.row, focused });
            },
            MenuEvent::Confirm => {
                self.close_dropdown(0, dd.focused, now);
                self.set_log_level(log_level_at(dd.focused));
            },
            MenuEvent::Back => {
                self.close_dropdown(0, dd.focused, now);
            },
            _ => {},
        }
    }

    /// Handles one event on the screen: left and right step the level, confirming lists all of
    /// them. Leaving it saves the settings.
    pub fn handle_diagnostics_event(&mut self, ev: MenuEvent, now: u64)
        requires
            old(self)@.prefs.diagnostics_focused < usize::MAX,
            old(self)@.prefs.dropdown matches Some(dd) ==> dd.focused < LOG_LEVEL_COUNT,
        ensures
            final(self)@ == old(self)@.diagnostics_event(ev, now),
    {
        proof {
            reveal(AppView::diagnostics_event);
        }
        match self.prefs.dropdown {
            Some(dd) => {
                self.handle_level_choice(dd, ev, now);
                return ;
            },
            None => {},
        }
        let mut focused: usize = self.prefs.diagnostics_focused;
        if list_nav(&mut focused, DIAGNOSTICS_ROW_COUNT, ev) {
            self.prefs.diagnostics_focused = focused;
            self.nav.modal_focus_anim = Some(now);
            return ;
        }
        match ev {
            MenuEvent::Left | MenuEvent::Right => {
                self.cycle_log_level();
            },
            MenuEvent::Confirm => {
                let at: usize = log_level_dropdown_current_index(
                    self.prefs.settings.log_level_override,
                );
                self.open_dropdown(0, at, now);
            },
            MenuEvent::Back => {
                self.outbox.push(Command::SaveSettings);
                self.return_to_settings();
            },
            _ => {},
        }
    }
}

/// Each level has its place in the list, and each place its level.
pub proof fn law_level_places(level: LogLevelOverride, place: int)
    requires
        0 <= place < LOG_LEVEL_COUNT,
    ensures
        level_at(level_place(level)) == level,
        level_place(level_at(place)) == place,
{
}

/// Looking at the diagnostics and coming back leaves the settings at the place they were left at:
/// no event there moves it, and Back restores it.
pub proof fn law_diagnostics_keep_settings_place(s: AppView, t: AppView, ev: MenuEvent, now: u64)
    requires
        t.prefs.settings_scroll == s.prefs.scroll,
    ensures
        s.diagnostics_opened().prefs.settings_scroll == s.prefs.scroll,
        t.diagnostics_event(ev, now).prefs.settings_scroll == s.prefs.scroll,
        t.prefs.dropdown is None ==> t.diagnostics_event(MenuEvent::Back, now).prefs.scroll
            == s.prefs.scroll,
{
    reveal(AppView::diagnostics_event);
}

/// The focused choice of the open list stays one of the levels.
pub proof fn law_level_choice_in_list(s: AppView, ev: MenuEvent, now: u64)
    requires
        s.prefs.dropdown matches Some(dd) ==> dd.focused < LOG_LEVEL_COUNT,
    ensures
        s.diagnostics_event(ev, now).prefs.dropdown matches Some(dd) ==> dd.focused
            < LOG_LEVEL_COUNT,
{
    reveal(AppView::diagnostics_event);
}

/// A level that is chosen is set and applies at once: by Confirm in the open list the focused one,
/// in the order Debug, Info, Warn, Error; by Left or Right the next of them, from the last to the
/// first. Back stores the settings and leads back to them. Nothing else changes the level.
pub proof fn law_chosen_level_applies(s: AppView, ev: MenuEvent, now: u64)
    requires
        s.prefs.dropdown matches Some(dd) ==> dd.focused < 4,
    ensures
        ({
            let t = s.diagnostics_event(ev, now);
            let was = s.prefs.settings.log_level_override;
            let is = t.prefs.settings.log_level_override;
            let listed = s.prefs.dropdown is Some;
            let chosen = (s.prefs.dropdown->0).focused;
            &&& listed && ev == MenuEvent::Confirm ==> {
                &&& is == if chosen == 0 {
                    LogLevelOverride::Debug
                } else if chosen == 1 {
                    LogLevelOverride::Info
                } else if chosen == 2 {
                    LogLevelOverride::Warn
                } else {
                    LogLevelOverride::Error
                }
                &&& t.outbox == s.outbox.push(CommandView::SetLogLevel(is))
                &&& t.prefs.dropdown is None
            }
            &&& !listed && (ev == MenuEvent::Left || ev == MenuEvent::Right) ==> {
                &&& is == match was {
                    LogLevelOverride::Debug => LogLevelOverride::Info,
                    LogLevelOverride::Info => LogLevelOverride::Warn,
                    LogLevelOverride::Warn => LogLevelOverride::Error,
                    LogLevelOverride::Error => LogLevelOverride::Debug,
                }
                &&& t.outbox == s.outbox.push(CommandView::SetLogLevel(is))
            }
            &&& !(listed && ev == MenuEvent::Confirm) && !(!listed && (ev == MenuEvent::Left || ev
                == MenuEvent::Right)) ==> is == was
            &&& !listed && ev == MenuEvent::Back ==> t.nav.screen == Screen::Settings && t.outbox
                == s.outbox.push(CommandView::SaveSettings)
            &&& !listed && ev == MenuEvent::Confirm ==> (t.prefs.dropdown matches Some(dd)
                && dd.focused == match was {
                LogLevelOverride::Debug => 0int,
                LogLevelOverride::Info => 1,
                LogLevelOverride::Warn => 2,
                LogLevelOverride::Error => 3,
            }) && t.outbox == s.outbox
            &&& listed && ev == MenuEvent::Back ==> t.prefs.dropdown is None && t.outbox == s.outbox
                && t.nav.screen == s.nav.screen
            &&& t.prefs.settings == (Settings { log_level_override: is, ..s.prefs.settings })
        }),
{
    reveal(AppView::diagnostics_event);
}

/// A list of choices is walked one up or down, round its ends.
pub proof fn law_choices_are_walked_round(focused: usize, len: int)
    requires
        focused < len <= usize::MAX,
    ensures
        choice_step(focused, len, MenuEvent::Up) == if focused == 0 {
            len - 1
        } else {
            focused - 1
        },
        choice_step(focused, len, MenuEvent::Down) == if focused + 1 == len {
            0
        } else {
            focused + 1
        },
{
    let at = focused as int;
    if at + 1 < len {
        vstd::arithmetic::div_mod::lemma_small_mod((at + 1) as nat, len as nat);
    } else {
        vstd::arithmetic::div_mod::lemma_mod_self_0(len);
    }
}

} // verus!
