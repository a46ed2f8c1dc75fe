//! "Forget this host?"
use vstd::prelude::*;

use crate::app::{App, AppView, Menu, Screen};
use crate::model::event::MenuEvent;

verus! {

pub const FORGET_TAIL: &'static str =
    " will be removed from this TV. You can pair with it again later.";

impl AppView {
    /// After asking whether to forget the host in row `idx`; "Cancel" has the focus.
    pub open spec fn forget_opened(self, idx: usize) -> AppView {
        self.menu_as(Menu { host_menu_index: Some(idx), host_menu_focused: 1, ..self.menu }).on(
            Screen::ForgetHost,
        )
    }

    /// Back to the host's menu, or to Home where the host is gone.
    pub open spec fn back_at_menu(self) -> AppView {
        if self.menu_entry() is Some {
            self.menu_as(Menu { menu_focused: 0, ..self.menu }).on(Screen::HostMenu)
        } else {
            self.menu_closed().on(Screen::Home)
        }
    }

    /// After one event on the question.
    #[verifier::opaque]
    pub open spec fn forget_event(self, ev: MenuEvent, now: u64) -> AppView {
        match ev {
            MenuEvent::Left | MenuEvent::Right => self.menu_as(
                Menu {
                    host_menu_focused: (1 - self.menu.host_menu_focused) as usize,
                    ..self.menu
                },
            ).popped(now),
            MenuEvent::Confirm => if self.menu.host_menu_focused == 0 {
                (match self.menu.host_menu_index {
                    Some(idx) => self.host_forgotten(idx as int),
                    None => self,
                }).menu_closed().on(Screen::Home)
            } else {
                self.back_at_menu()
            },
            MenuEvent::Back => self.back_at_menu(),
            _ => self,
        }
    }
}

/// The sentence of the question.
pub fn forget_host_subtitle(name: &str) -> (r: String)
    ensures
        r@ == name@ + FORGET_TAIL@,
{
    let mut s = name.to_owned();
    s.append(FORGET_TAIL);
    s
}

impl App {
    /// Asks whether to forget the host in row `idx`.
    pub fn open_forget_host(&mut self, idx: usize)
        ensures
            final(self)@ == old(self)@.forget_opened(idx),
    {
        self.menu.host_menu_index = Some(idx);
        self.menu.host_menu_focused = 1;
        self.nav.screen = Screen::ForgetHost;
    }

    /// Goes back to the host's menu.
    pub fn back_to_host_menu(&mut self)
        ensures
            final(self)@ == old(self)@.back_at_menu(),
    {
        if self.host_menu_entry().is_some() {
            self.menu.menu_focused = 0;
            self.nav.screen = Screen::HostMenu;
        } else {
            self.menu.host_menu_index = None;
            self.nav.screen = Screen::Home;
        }
    }

    /// Handles one event on the question.
    pub fn handle_forget_host_event(&mut self, ev: MenuEvent, now: u64)
        requires
            old(self)@.menu.host_menu_focused <= 1,
            old(self)@.menu.host_menu_index matches Some(i) ==> i < old(self)@.hosts.entries.len(),
            old(self)@.hosts.known_hosts.len() < usize::MAX - 2,
        ensures
            final(self)@ == old(self)@.forget_event(ev, now),
    {
        proof {
            reveal(AppView::forget_event);
        }
        match ev {
            MenuEvent::Left | MenuEvent::Right => {
                self.menu.host_menu_focused = 1 - self.menu.host_menu_focused;
                self.nav.modal_focus_anim = Some(now);
            },
            MenuEvent::Confirm => {
                if self.menu.host_menu_focused == 0 {
                    match self.menu.host_menu_index {
                        Some(idx) => {
                            self.forget_host(idx);
                        },
                        None => {},
                    }
                    self.menu.host_menu_index = None;
                    self.nav.screen = Screen::Home;
                } else {
                    self.back_to_host_menu();
                }
            },
            MenuEvent::Back => {
                self.back_to_host_menu();
            },
            _ => {},
        }
    }
}

/// A single confirmation right after the question came up forgets nothing.
pub proof fn law_first_confirm_is_cancel(s: AppView, idx: usize, now: u64)
    requires
        idx < s.hosts.entries.len(),
    ensures
        s.forget_opened(idx).forget_event(MenuEvent::Confirm, now).hosts == s.hosts,
{
    reveal(AppView::forget_event);
}

/// The question is answered as it is focused: Confirm on the first button forgets the host that it
/// is about and leads Home, on the second it leads back to the menu, as Back does; Left and Right
/// go to the other button. Nothing else forgets a host.
pub proof fn law_forget_is_answered(s: AppView, ev: MenuEvent, now: u64, idx: usize)
    requires
        s.menu.host_menu_index == Some(idx),
        idx < s.hosts.entries.len(),
        s.menu.host_menu_focused <= 1,
    ensures
        ({
            let t = s.forget_event(ev, now);
            let yes = ev == MenuEvent::Confirm && s.menu.host_menu_focused == 0;
            let no = ev == MenuEvent::Back || (ev == MenuEvent::Confirm && s.menu.host_menu_focused
                == 1);
            &&& yes ==> t.nav.screen == Screen::Home && t.menu.host_menu_index is None && t.hosts
                == s.host_forgotten(idx as int).hosts && t.outbox == s.host_forgotten(
                idx as int,
            ).outbox
            &&& !yes ==> t.hosts == s.hosts && t.outbox == s.outbox
            &&& no ==> t.nav.screen == Screen::HostMenu && t.menu.host_menu_index == Some(idx)
                && t.menu.menu_focused == 0
            &&& ev == MenuEvent::Left || ev == MenuEvent::Right ==> t.menu.host_menu_focused == 1
                - s.menu.host_menu_focused && t.nav.screen == s.nav.screen
            &&& s.forget_opened(idx).menu.host_menu_focused == 1
            &&& s.forget_opened(idx).nav.screen == Screen::ForgetHost
        }),
{
    reveal(AppView::forget_event);
}

} // verus!
