//! The switches that are off by default.
use vstd::prelude::*;

use crate::app::hostmenu::{list_nav, list_step, list_takes};
use crate::app::{App, AppView, Command, CommandView, Nav, Prefs, Screen, Settings};
use crate::model::event::MenuEvent;

verus! {

broadcast use crate::seqs::group_views;

/// The row of the frame pacer.
pub const EXP_ROW_FRAME_PACER: usize = 0;

pub const EXPERIMENTAL_SUBTITLE: &'static str = "Unstable, off by default. Frame pacer also toggles live with the Blue button.";

impl AppView {
    /// After opening the screen; the settings keep their place meanwhile.
    pub open spec fn experimental_opened(self) -> AppView {
        AppView {
            prefs: Prefs {
                experimental_focused: 0,
                settings_scroll: self.prefs.scroll,
                ..self.prefs
            },
            ..self
        }.on(Screen::Experimental)
    }

    /// After flipping the switch of the frame pacer.
    pub open spec fn pacing_flipped(self, now: u64) -> AppView {
        let from = self.prefs.settings.video_pacing;
        AppView {
            prefs: Prefs {
                settings: Settings { video_pacing: !from, ..self.prefs.settings },
                ..self.prefs
            },
            nav: Nav { switch_anim: Some((now, from)), ..self.nav },
            ..self
        }
    }

    /// After one event on the screen with `rows` rows.
    #[verifier::opaque]
    pub open spec fn experimental_event(self, ev: MenuEvent, rows: int, now: u64) -> AppView {
        if list_takes(rows, ev) {
            AppView {
                prefs: Prefs {
                    experimental_focused: list_step(self.prefs.experimental_focused, rows, ev),
                    ..self.prefs
                },
                ..self
            }.popped(now)
        } else {
            match ev {
                MenuEvent::Left | MenuEvent::Right | MenuEvent::Confirm => if
                self.prefs.experimental_focused == EXP_ROW_FRAME_PACER {
                    self.pacing_flipped(now)
                } else {
                    self
                },
                MenuEvent::Back => self.asking(CommandView::SaveSettings).back_in_settings(),
                _ => self,
            }
        }
    }
}

impl App {
    /// Opens the screen.
    pub fn open_experimental(&mut self)
        ensures
            final(self)@ == old(self)@.experimental_opened(),
    {
        self.prefs.experimental_focused = 0;
        self.prefs.settings_scroll = self.prefs.scroll;
        self.nav.screen = Screen::Experimental;
    }

    /// The line below the title.
    pub fn experimental_subtitle(&self) -> (r: String)
        ensures
            r@ == EXPERIMENTAL_SUBTITLE@,
    {
        EXPERIMENTAL_SUBTITLE.to_owned()
    }

    /// Handles one event on the screen with `rows` rows. Leaving it saves the settings.
    pub fn handle_experimental_event(&mut self, ev: MenuEvent, rows: usize, now: u64)
        requires
            old(self)@.prefs.experimental_focused < usize::MAX,
        ensures
            final(self)@ == old(self)@.experimental_event(ev, rows as int, now),
    {
        proof {
            reveal(AppView::experimental_event);
        }
        let mut focused: usize = self.prefs.experimental_focused;
        if list_nav(&mut focused, rows, ev) {
            self.prefs.experimental_focused = focused;
            self.nav.modal_focus_anim = Some(now);
            return ;
        }
        match ev {
            MenuEvent::Left | MenuEvent::Right | MenuEvent::Confirm => {
                if self.prefs.experimental_focused == EXP_ROW_FRAME_PACER {
                    let from = self.prefs.settings.video_pacing;
                    self.prefs.settings.video_pacing = !from;
                    self.nav.switch_anim = Some((now, from));
                }
            },
            MenuEvent::Back => {
                self.outbox.push(Command::SaveSettings);
                self.return_to_settings();
            },
            _ => {},
        }
    }
}

/// Flipping a switch twice leaves it as it was.
pub proof fn law_pacing_flip_undone(s: AppView, now: u64, later: u64)
    ensures
        s.pacing_flipped(now).pacing_flipped(later).prefs == s.prefs,
{
}

/// The frame pacer is switched by Left, Right or Confirm on its row, and by nothing else; the
/// switch slides from where it was. Back stores the settings and leads back to them, at the place
/// that they were left at.
pub proof fn law_pacer_is_switched_on_its_row(s: AppView, ev: MenuEvent, rows: int, now: u64)
    requires
        rows > 0,
    ensures
        ({
            let t = s.experimental_event(ev, rows, now);
            let flips = (ev == MenuEvent::Left || ev == MenuEvent::Right || ev
                == MenuEvent::Confirm) && s.prefs.experimental_focused == 0;
            &&& t.prefs.settings == (Settings {
                video_pacing: s.prefs.settings.video_pacing != flips,
                ..s.prefs.settings
            })
            &&& flips ==> t.nav.switch_anim == Some((now, s.prefs.settings.video_pacing))
            &&& !flips ==> t.nav.switch_anim == s.nav.switch_anim
            &&& ev == MenuEvent::Back ==> t.nav.screen == Screen::Settings && t.outbox
                == s.outbox.push(CommandView::SaveSettings) && t.prefs.scroll
                == s.prefs.settings_scroll
            &&& ev != MenuEvent::Back ==> t.outbox == s.outbox && t.nav.screen == s.nav.screen
            &&& s.experimental_opened().nav.screen == Screen::Experimental
            &&& s.experimental_opened().prefs.experimental_focused == 0
            &&& s.experimental_opened().prefs.settings_scroll == s.prefs.scroll
            &&& s.experimental_opened().prefs.settings == s.prefs.settings
        }),
{
    reveal(AppView::experimental_event);
}

} // verus!
