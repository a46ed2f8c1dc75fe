//! Whether one host is woken without asking.
use vstd::prelude::*;

use crate::app::hostmenu::{list_nav, list_step, list_takes};
use crate::app::{App, AppView, Command, CommandView, HostsView, Menu, Nav, Screen};
use crate::model::event::MenuEvent;
use crate::store::{find_host, host_at, host_index, KnownHostView};

verus! {

broadcast use crate::seqs::group_views;

pub const WAKE_SETTINGS_SUBTITLE: &'static str = "On: an unreachable host is sent a wake signal straight away, retried every minute until it answers. Off: it asks first.";

pub const WAKE_TITLE_HEAD: &'static str = "Wake · ";

impl AppView {
    /// The saved host that the screen is about.
    pub open spec fn wake_settings_for(self) -> Option<KnownHostView> {
        match self.menu_entry() {
            Some(e) => host_at(self.hosts.known_hosts, e.host(), e.port()),
            None => None,
        }
    }

    /// After flipping the switch; a host that is not saved has none.
    pub open spec fn wol_auto_toggled(self, now: u64) -> AppView {
        match (self.menu_entry(), self.wake_settings_for()) {
            (Some(e), Some(h)) => AppView {
                hosts: HostsView {
                    known_hosts: self.hosts.known_hosts.update(
                        host_index(self.hosts.known_hosts, e.host(), e.port()),
                        KnownHostView { wol_auto: !h.wol_auto, ..h },
                    ),
                    ..self.hosts
                },
                nav: Nav { switch_anim: Some((now, h.wol_auto)), ..self.nav },
                ..self
            }.asking(CommandView::SaveKnownHosts),
            _ => self,
        }
    }

    /// After one event on the screen.
    #[verifier::opaque]
    pub open spec fn wake_settings_event(self, ev: MenuEvent, now: u64) -> AppView {
        if list_takes(1, ev) {
            self.menu_as(
                Menu {
                    wake_settings_focused: list_step(self.menu.wake_settings_focused, 1, ev),
                    ..self.menu
                },
            ).popped(now)
        } else {
            match ev {
                MenuEvent::Left | MenuEvent::Right | MenuEvent::Confirm => self.wol_auto_toggled(
                    now,
                ),
                MenuEvent::Back => self.on(Screen::HostMenu),
                _ => self,
            }
        }
    }
}

impl App {
    /// Opens the screen for the host that the menu is about.
    pub fn open_wake_settings(&mut self)
        ensures
            final(self)@ == old(self)@.menu_as(
                Menu { wake_settings_focused: 0, ..old(self)@.menu },
            ).on(Screen::WakeSettings),
    {
        self.menu.wake_settings_focused = 0;
        self.nav.screen = Screen::WakeSettings;
    }

    /// Where the saved host that the screen is about stands.
    pub fn wake_settings_host(&self) -> (r: Option<usize>)
        ensures
            match r {
                Some(i) => i < self.hosts.known_hosts.len() && self@.menu_entry() is Some && i
                    == host_index(
                    self@.hosts.known_hosts,
                    self@.menu_entry()->0.host(),
                    self@.menu_entry()->0.port(),
                ) && self@.wake_settings_for() == Some(self.hosts.known_hosts@[i as int]@),
                None => self@.wake_settings_for() is None,
            },
    {
        match self.host_menu_entry() {
            None => None,
            Some(i) => {
                let host = self.hosts.entries[i].host();
                let port: u16 = self.hosts.entries[i].port();
                find_host(&self.hosts.known_hosts, host.as_str(), port)
            },
        }
    }

    /// Whether the switch is on.
    pub fn wake_settings_on(&self) -> (r: bool)
        ensures
            r == (self@.wake_settings_for() matches Some(h) && h.wol_auto),
    {
        match self.wake_settings_host() {
            Some(i) => self.hosts.known_hosts[i].wol_auto,
            None => false,
        }
    }

    /// The title of the screen.
    pub fn wake_settings_title(&self) -> (r: String)
        ensures
            r@ == WAKE_TITLE_HEAD@ + self@.menu_title(),
    {
        let mut s = WAKE_TITLE_HEAD.to_owned();
        let title = self.host_menu_title();
        s.append(title.as_str());
        s
    }

    /// Flips the switch.
    pub fn toggle_wol_auto(&mut self, now: u64)
        ensures
            final(self)@ == old(self)@.wol_auto_toggled(now),
    {
        let i: usize = match self.wake_settings_host() {
            None => {
                return ;
            },
            Some(i) => i,
        };
        let mut record = self.hosts.known_hosts[i].clone();
        let from = record.wol_auto;
        record.wol_auto = !from;
        self.hosts.known_hosts.set(i, record);
        self.outbox.push(Command::SaveKnownHosts);
        self.nav.switch_anim = Some((now, from));
    }

    /// Handles one event on the screen.
    pub fn handle_wake_settings_event(&mut self, ev: MenuEvent, now: u64)
        requires
            old(self)@.menu.wake_settings_focused < usize::MAX,
        ensures
            final(self)@ == old(self)@.wake_settings_event(ev, now),
    {
        proof {
            reveal(AppView::wake_settings_event);
        }
        let taken = list_nav(&mut self.menu.wake_settings_focused, 1, ev);
        if taken {
            self.nav.modal_focus_anim = Some(now);
            return ;
        }
        match ev {
            MenuEvent::Left | MenuEvent::Right | MenuEvent::Confirm => {
                self.toggle_wol_auto(now);
            },
            MenuEvent::Back => {
                self.nav.screen = Screen::HostMenu;
            },
            _ => {},
        }
    }
}

/// The switch is that of the host that the menu is about, and of no other: Left, Right and Confirm
/// flip it and store the hosts, Back leads back to the menu, and nothing else changes a host.
pub proof fn law_wake_switch_is_the_hosts(s: AppView, ev: MenuEvent, now: u64, i: int)
    requires
        s.wake_settings_for() is Some,
        0 <= i < s.hosts.known_hosts.len(),
    ensures
        ({
            let t = s.wake_settings_event(ev, now);
            let e = s.menu_entry()->0;
            let at = host_index(s.hosts.known_hosts, e.host(), e.port());
            let flips = ev == MenuEvent::Left || ev == MenuEvent::Right || ev == MenuEvent::Confirm;
            let was = s.hosts.known_hosts[i];
            &&& t.hosts.known_hosts.len() == s.hosts.known_hosts.len()
            &&& flips && i == at ==> t.hosts.known_hosts[i] == (KnownHostView {
                wol_auto: !was.wol_auto,
                ..was
            })
            &&& !flips || i != at ==> t.hosts.known_hosts[i] == was
            &&& flips ==> t.outbox == s.outbox.push(CommandView::SaveKnownHosts) && t.nav.screen
                == s.nav.screen && t.nav.switch_anim == Some((now, s.wake_settings_for()->0.wol_auto))
            &&& !flips ==> t.outbox == s.outbox
            &&& ev == MenuEvent::Back ==> t.nav.screen == Screen::HostMenu
        }),
        s.menu_entry() matches Some(e) ==> s.wake_settings_for() == host_at(
            s.hosts.known_hosts,
            e.host(),
            e.port(),
        ),
{
    reveal(AppView::wake_settings_event);
}

} // verus!
