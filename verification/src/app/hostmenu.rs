//! The menu of one host.
use vstd::prelude::*;

use crate::app::{App, AppView, CommandView, Menu, Screen};
use crate::model::event::MenuEvent;
use crate::store::{host_at, EntryView, HostEntry};
use crate::text::{decimal, join3, push_decimal};

verus! {

broadcast use crate::seqs::group_views;

/// What a row of the menu does.
#[derive(Clone, Copy, Debug, PartialEq, Eq, Structural)]
pub enum HostAction {
    Connect,
    Pair,
    SpeedTest,
    Wake,
    Edit,
    Forget,
}

/// One row of the menu.
#[derive(Clone, Copy, Debug, PartialEq, Eq, Structural)]
pub struct MenuRow {
    pub action: HostAction,
    /// Whether connecting pairs first, which the row says.
    pub pairs_first: bool,
    /// Whether the row has a menu button of its own.
    pub dots: bool,
    /// Whether the row is drawn as a warning.
    pub danger: bool,
}

pub const LABEL_CONNECT: &'static str = "Connect";

pub const LABEL_PAIR: &'static str = "Pair with PIN…";

pub const LABEL_SPEED_TEST: &'static str = "Test network speed…";

pub const LABEL_WAKE: &'static str = "Wake host";

pub const LABEL_EDIT: &'static str = "Edit address…";

pub const LABEL_FORGET: &'static str = "Forget host";

pub const PAIRS_FIRST: &'static str = "pairs first";

pub const WAKING_HEAD: &'static str = "Waking ";

/// The label of a row.
pub open spec fn label_text(action: HostAction) -> Seq<char> {
    match action {
        HostAction::Connect => LABEL_CONNECT@,
        HostAction::Pair => LABEL_PAIR@,
        HostAction::SpeedTest => LABEL_SPEED_TEST@,
        HostAction::Wake => LABEL_WAKE@,
        HostAction::Edit => LABEL_EDIT@,
        HostAction::Forget => LABEL_FORGET@,
    }
}

/// The label of a row.
pub fn action_label(action: HostAction) -> (r: &'static str)
    ensures
        r@ == label_text(action),
{
    match action {
        HostAction::Connect => LABEL_CONNECT,
        HostAction::Pair => LABEL_PAIR,
        HostAction::SpeedTest => LABEL_SPEED_TEST,
        HostAction::Wake => LABEL_WAKE,
        HostAction::Edit => LABEL_EDIT,
        HostAction::Forget => LABEL_FORGET,
    }
}

/// A row that only does something.
pub open spec fn plain_row(action: HostAction) -> MenuRow {
    MenuRow { action, pairs_first: false, dots: false, danger: false }
}

/// The rows for a host: waking needs an address on record, editing and forgetting a saved host.
pub open spec fn menu_rows(e: EntryView) -> Seq<MenuRow> {
    seq![
        MenuRow { pairs_first: !e.is_paired(), ..plain_row(HostAction::Connect) },
        plain_row(HostAction::Pair),
        plain_row(HostAction::SpeedTest),
    ] + (if e.mac().len() > 0 {
        seq![MenuRow { dots: true, ..plain_row(HostAction::Wake) }]
    } else {
        seq![]
    }) + (if e is Known {
        seq![
            plain_row(HostAction::Edit),
            MenuRow { danger: true, ..plain_row(HostAction::Forget) },
        ]
    } else {
        seq![]
    })
}

/// Where a list's focus goes: up and down, from either end to the other.
pub open spec fn list_step(focused: usize, len: int, ev: MenuEvent) -> usize {
    if len <= 0 {
        focused
    } else if ev == MenuEvent::Up {
        if focused == 0 {
            (len - 1) as usize
        } else {
            (focused - 1) as usize
        }
    } else if ev == MenuEvent::Down {
        ((focused + 1) % len) as usize
    } else {
        focused
    }
}

/// Whether a list takes the event for moving its focus.
pub open spec fn list_takes(len: int, ev: MenuEvent) -> bool {
    len > 0 && (ev == MenuEvent::Up || ev == MenuEvent::Down)
}

/// Moves a list's focus. Returns whether the event was one for that.
pub fn list_nav(focused: &mut usize, len: usize, ev: MenuEvent) -> (taken: bool)
    requires
        *old(focused) < usize::MAX,
    ensures
        taken == list_takes(len as int, ev),
        *final(focused) == list_step(*old(focused), len as int, ev),
{
    if len == 0 {
        return false;
    }
    match ev {
        MenuEvent::Up => {
            *focused = if *focused == 0 {
                len - 1
            } else {
                *focused - 1
            };
            true
        },
        MenuEvent::Down => {
            *focused = (*focused + 1) % len;
            true
        },
        _ => false,
    }
}

impl AppView {
    /// The row that the menu is about.
    pub open spec fn menu_entry(self) -> Option<EntryView> {
        match self.menu.host_menu_index {
            Some(i) => if i < self.hosts.entries.len() {
                Some(self.hosts.entries[i as int])
            } else {
                None
            },
            None => None,
        }
    }

    /// The rows of the menu.
    pub open spec fn actions(self) -> Seq<MenuRow> {
        match self.menu_entry() {
            Some(e) => menu_rows(e),
            None => seq![],
        }
    }

    /// The focused row of the menu.
    pub open spec fn focused_action(self) -> Option<HostAction> {
        if self.menu.menu_focused < self.actions().len() {
            Some(self.actions()[self.menu.menu_focused as int].action)
        } else {
            None
        }
    }

    /// The title of the menu.
    pub open spec fn menu_title(self) -> Seq<char> {
        match self.menu_entry() {
            Some(e) => e.name(),
            None => seq![],
        }
    }

    /// The line below the title: address, port and whether the host is paired.
    pub open spec fn menu_subtitle(self) -> Seq<char> {
        match self.menu_entry() {
            Some(e) => e.host() + ":"@ + decimal(e.port() as nat) + " · "@ + (if e.is_paired() {
                "paired"@
            } else {
                "not paired"@
            }),
            None => seq![],
        }
    }

    /// The same state with the menu like this.
    pub open spec fn menu_as(self, menu: Menu) -> AppView {
        AppView { menu, ..self }
    }

    /// The same state with no host's menu behind the screen.
    pub open spec fn menu_closed(self) -> AppView {
        self.menu_as(Menu { host_menu_index: None, ..self.menu })
    }

    /// After opening the menu of row `idx`.
    pub open spec fn menu_opened(self, idx: usize) -> AppView {
        self.menu_as(
            Menu {
                host_menu_index: Some(idx),
                menu_focused: 0,
                host_menu_dots: false,
                ..self.menu
            },
        ).on(Screen::HostMenu)
    }

    /// After confirming row `idx` of the host list: a paired host is selected, another one paired.
    pub open spec fn sidebar_confirmed(self, idx: usize) -> AppView {
        match self.hosts.entries[idx as int] {
            EntryView::Known(h) => if h.fingerprint is Some {
                self.host_selected(h.host, h.port, h.mgmt_port)
            } else {
                self.pairing_opened(idx)
            },
            EntryView::Discovered(_) => self.pairing_opened(idx),
        }
    }

    /// After confirming the focused row of the menu.
    pub open spec fn menu_confirmed(self, now: u64) -> AppView {
        match (self.focused_action(), self.menu.host_menu_index) {
            (Some(action), Some(idx)) => {
                let e = self.hosts.entries[idx as int];
                match action {
                    HostAction::Connect => self.menu_closed().on(Screen::Home).sidebar_confirmed(
                        idx,
                    ),
                    HostAction::Pair => self.menu_closed().pairing_opened(idx),
                    HostAction::SpeedTest => self.speed_test_opened(idx as int),
                    HostAction::Wake => self.menu_closed().on(Screen::Home).wake_started(
                        e.host(),
                        e.port(),
                        e.mac(),
                        WAKING_HEAD@ + e.name() + crate::app::launch::ELLIPSIS@,
                        now,
                    ),
                    HostAction::Edit => self.edit_opened(idx),
                    HostAction::Forget => self.forget_opened(idx),
                }
            },
            _ => self,
        }
    }

    /// After one event on the menu.
    #[verifier::opaque]
    pub open spec fn menu_event(self, ev: MenuEvent, now: u64) -> AppView {
        let has_dots = self.focused_action() == Some(HostAction::Wake);
        if list_takes(self.actions().len() as int, ev) {
            self.menu_as(
                Menu {
                    menu_focused: list_step(
                        self.menu.menu_focused,
                        self.actions().len() as int,
                        ev,
                    ),
                    host_menu_dots: false,
                    ..self.menu
                },
            ).popped(now)
        } else if ev == MenuEvent::Right && !self.menu.host_menu_dots && has_dots {
            self.menu_as(Menu { host_menu_dots: true, ..self.menu }).popped(now)
        } else if ev == MenuEvent::Left && self.menu.host_menu_dots {
            self.menu_as(Menu { host_menu_dots: false, ..self.menu }).popped(now)
        } else if ev == MenuEvent::Confirm {
            if self.menu.host_menu_dots {
                self.menu_as(Menu { wake_settings_focused: 0, ..self.menu }).on(
                    Screen::WakeSettings,
                )
            } else {
                self.menu_confirmed(now)
            }
        } else if ev == MenuEvent::Back {
            self.menu_closed().on(Screen::Home)
        } else {
            self
        }
    }
}

impl App {
    /// Opens the menu of row `idx`.
    pub fn open_host_menu(&mut self, idx: usize)
        ensures
            final(self)@ == old(self)@.menu_opened(idx),
    {
        self.menu.host_menu_index = Some(idx);
        self.menu.menu_focused = 0;
        self.menu.host_menu_dots = false;
        self.nav.screen = Screen::HostMenu;
    }

    /// The row that the menu is about, where it still exists.
    pub fn host_menu_entry(&self) -> (r: Option<usize>)
        ensures
            match r {
                Some(i) => i < self.hosts.entries.len() && self.menu.host_menu_index == Some(i)
                    && self@.menu_entry() == Some(self.hosts.entries@[i as int]@),
                None => self@.menu_entry() is None,
            },
    {
        match self.menu.host_menu_index {
            Some(i) => if i < self.hosts.entries.len() {
                Some(i)
            } else {
                None
            },
            None => None,
        }
    }

    /// The rows of the menu.
    pub fn host_menu_actions(&self) -> (r: Vec<MenuRow>)
        ensures
            r@ == self@.actions(),
    {
        let mut rows: Vec<MenuRow> = Vec::new();
        let i: usize = match self.host_menu_entry() {
            None => {
                return rows;
            },
            Some(i) => i,
        };
        let entry = &self.hosts.entries[i];
        let paired = entry.is_paired();
        let macs = entry.mac();
        let saved = match entry {
            HostEntry::Known(_) => true,
            HostEntry::Discovered(_) => false,
        };
        rows.push(
            MenuRow {
                action: HostAction::Connect,
                pairs_first: !paired,
                dots: false,
                danger: false,
            },
        );
        rows.push(
            MenuRow { action: HostAction::Pair, pairs_first: false, dots: false, danger: false },
        );
        rows.push(
            MenuRow {
                action: HostAction::SpeedTest,
                pairs_first: false,
                dots: false,
                danger: false,
            },
        );
        if macs.len() > 0 {
            rows.push(
                MenuRow { action: HostAction::Wake, pairs_first: false, dots: true, danger: false },
            );
        }
        if saved {
            rows.push(
                MenuRow {
                    action: HostAction::Edit,
                    pairs_first: false,
                    dots: false,
                    danger: false,
                },
            );
            rows.push(
                MenuRow {
                    action: HostAction::Forget,
                    pairs_first: false,
                    dots: false,
                    danger: true,
                },
            );
        }
        proof {
            assert(rows@ =~= menu_rows(entry@));
        }
        rows
    }

    /// What the focused row of the menu does.
    pub fn focused_menu_action(&self) -> (r: Option<HostAction>)
        ensures
            r == self@.focused_action(),
    {
        let rows = self.host_menu_actions();
        if self.menu.menu_focused < rows.len() {
            Some(rows[self.menu.menu_focused].action)
        } else {
            None
        }
    }

    /// Whether the focused row of the menu has a menu button of its own.
    pub fn host_menu_row_has_dots(&self) -> (r: bool)
        ensures
            r == (self@.focused_action() == Some(HostAction::Wake)),
    {
        match self.focused_menu_action() {
            Some(HostAction::Wake) => true,
            _ => false,
        }
    }

    /// The title of the menu.
    pub fn host_menu_title(&self) -> (r: String)
        ensures
            r@ == self@.menu_title(),
    {
        match self.host_menu_entry() {
            Some(i) => self.hosts.entries[i].name(),
            None => String::new(),
        }
    }

    /// The line below the title of the menu.
    pub fn host_menu_subtitle(&self) -> (r: String)
        ensures
            r@ == self@.menu_subtitle(),
    {
        match self.host_menu_entry() {
            None => String::new(),
            Some(i) => {
                let e = &self.hosts.entries[i];
                let mut s = e.host();
                s.append(":");
                push_decimal(&mut s, e.port() as u64);
                s.append(" · ");
                if e.is_paired() {
                    s.append("paired");
                } else {
                    s.append("not paired");
                }
                s
            },
        }
    }

    /// Confirms row `idx` of the host list.
    pub fn confirm_sidebar_host(&mut self, idx: usize)
        requires
            idx < old(self)@.hosts.entries.len(),
        ensures
            final(self)@ == old(self)@.sidebar_confirmed(idx),
    {
        let (host, port, mgmt_port) = match &self.hosts.entries[idx] {
            HostEntry::Known(h) => if h.fingerprint.is_some() {
                (h.host.clone(), h.port, h.mgmt_port)
            } else {
                self.open_pairing(idx);
                return ;
            },
            HostEntry::Discovered(_) => {
                self.open_pairing(idx);
                return ;
            },
        };
        self.select_host(host, port, mgmt_port);
    }

    /// Confirms the focused row of the menu.
    pub fn confirm_host_menu_row(&mut self, now: u64)
        ensures
            final(self)@ == old(self)@.menu_confirmed(now),
    {
        let action = match self.focused_menu_action() {
            None => {
                return ;
            },
            Some(a) => a,
        };
        let idx: usize = match self.host_menu_entry() {
            None => {
                return ;
            },
            Some(i) => i,
        };
        match action {
            HostAction::Connect => {
                self.menu.host_menu_index = None;
                self.nav.screen = Screen::Home;
                self.confirm_sidebar_host(idx);
            },
            HostAction::Pair => {
                self.menu.host_menu_index = None;
                self.open_pairing(idx);
            },
            HostAction::SpeedTest => {
                self.open_speed_test(idx);
            },
            HostAction::Wake => {
                let e = &self.hosts.entries[idx];
                let host = e.host();
                let port: u16 = e.port();
                let mac = e.mac();
                let name = e.name();
                self.menu.host_menu_index = None;
                self.nav.screen = Screen::Home;
                let reason = join3(WAKING_HEAD, name.as_str(), crate::app::launch::ELLIPSIS);
                self.start_wake(host, port, mac, reason, now);
            },
            HostAction::Edit => {
                self.open_edit_host(idx);
            },
            HostAction::Forget => {
                self.open_forget_host(idx);
            },
        }
    }

    /// Handles one event on the menu.
    pub fn handle_host_menu_event(&mut self, ev: MenuEvent, now: u64)
        requires
            old(self)@.menu.menu_focused < usize::MAX,
        ensures
            final(self)@ == old(self)@.menu_event(ev, now),
    {
        proof {
            reveal(AppView::menu_event);
        }
        let len: usize = self.host_menu_actions().len();
        let taken = list_nav(&mut self.menu.menu_focused, len, ev);
        if taken {
            self.menu.host_menu_dots = false;
            self.nav.modal_focus_anim = Some(now);
            return ;
        }
        match ev {
            MenuEvent::Right => {
                if !self.menu.host_menu_dots && self.host_menu_row_has_dots() {
                    self.menu.host_menu_dots = true;
                    self.nav.modal_focus_anim = Some(now);
                }
            },
            MenuEvent::Left => {
                if self.menu.host_menu_dots {
                    self.menu.host_menu_dots = false;
                    self.nav.modal_focus_anim = Some(now);
                }
            },
            MenuEvent::Confirm => {
                if self.menu.host_menu_dots {
                    self.open_wake_settings();
                } else {
                    self.confirm_host_menu_row(now);
                }
            },
            MenuEvent::Back => {
                self.menu.host_menu_index = None;
                self.nav.screen = Screen::Home;
            },
            _ => {},
        }
    }
}

/// A menu offers what can be done with its host: connecting first, and saying that it pairs first
/// where the host is not paired, then pairing and measuring; waking where an address is on record,
/// with a button for its settings; and, for a saved host alone, editing and, last and as a
/// warning, forgetting.
pub proof fn law_menu_offers_what_can_be_done(e: EntryView, i: int)
    ensures
        ({
            let rows = menu_rows(e);
            let wake = if e.mac().len() > 0 {
                1int
            } else {
                0int
            };
            let saved = e is Known;
            &&& rows.len() == 3 + wake + if saved {
                2int
            } else {
                0int
            }
            &&& rows[0].action == HostAction::Connect && rows[0].pairs_first == !e.is_paired()
            &&& rows[1].action == HostAction::Pair && rows[2].action == HostAction::SpeedTest
            &&& wake == 1 ==> rows[3].action == HostAction::Wake
            &&& saved ==> rows[3 + wake].action == HostAction::Edit && rows[4 + wake].action
                == HostAction::Forget
            &&& 0 <= i < rows.len() ==> rows[i].dots == (rows[i].action == HostAction::Wake)
                && rows[i].danger == (rows[i].action == HostAction::Forget) && (i > 0
                ==> !rows[i].pairs_first)
        }),
{
}

/// What a row of the menu is called says what it does.
pub proof fn law_menu_row_says_what_it_does(action: HostAction)
    ensures
        label_text(action) == match action {
            HostAction::Connect => "Connect"@,
            HostAction::Pair => "Pair with PIN…"@,
            HostAction::SpeedTest => "Test network speed…"@,
            HostAction::Wake => "Wake host"@,
            HostAction::Edit => "Edit address…"@,
            HostAction::Forget => "Forget host"@,
        },
{
}

/// Confirming a row of the menu does what the row says, to the host that the menu is about:
/// connecting selects it, or pairs with it where it is not paired; pairing opens the pairing
/// screen; measuring starts a measurement; waking sends or offers a signal to its own addresses;
/// editing opens the form filled with its address; and forgetting asks first.
pub proof fn law_menu_row_does_what_it_says(s: AppView, now: u64, idx: usize)
    requires
        s.menu.host_menu_index == Some(idx),
        idx < s.hosts.entries.len(),
        s.focused_action() is Some,
    ensures
        ({
            let e = s.hosts.entries[idx as int];
            let t = s.menu_confirmed(now);
            match s.focused_action()->0 {
                HostAction::Connect => if e.is_paired() {
                    t.hosts.selected_host == Some((e.host(), e.port())) && t.nav.screen
                        == Screen::Home && t.outbox.last() is FetchGames
                } else {
                    t.nav.screen == Screen::Pairing && t.pairing.pairing_entry == idx && t.outbox
                        == s.outbox
                },
                HostAction::Pair => t.nav.screen == Screen::Pairing && t.pairing.pairing_entry
                    == idx && t.outbox == s.outbox,
                HostAction::SpeedTest => t.nav.screen == Screen::SpeedTest && (t.outbox.last()
                    matches CommandView::StartSpeedTest { host, port, .. } && host == e.host()
                    && port == e.port()) && t.menu.host_menu_index == Some(idx),
                HostAction::Wake => (t.wake matches Some(w) && w.host == e.host() && w.port
                    == e.port() && w.mac == e.mac() && w.reason == "Waking "@ + e.name() + "…"@),
                HostAction::Edit => e is Known && t.nav.screen == Screen::EditHost
                    && t.menu.edit_host_index == Some(idx) && t.outbox == s.outbox.push(
                    CommandView::AddressReset { address: Some(e.host()) },
                ),
                HostAction::Forget => e is Known && t.nav.screen == Screen::ForgetHost
                    && t.menu.host_menu_index == Some(idx) && t.hosts == s.hosts && t.outbox
                    == s.outbox,
            }
        }),
        s.menu_confirmed(now).hosts.known_hosts == s.hosts.known_hosts,
{
    let e = s.hosts.entries[idx as int];
    assert(s.actions() == menu_rows(e));
    law_menu_offers_what_can_be_done(e, s.menu.menu_focused as int);
}

/// The menu is walked up and down round its ends; Right goes to the button of the row that has
/// one, whose Confirm opens the wake settings, and Left goes back; Back leads Home. None of that
/// asks for anything or changes a host.
pub proof fn law_menu_is_walked(s: AppView, ev: MenuEvent, now: u64)
    requires
        s.menu.menu_focused < s.actions().len() <= usize::MAX,
    ensures
        ({
            let n = s.actions().len();
            let at = s.menu.menu_focused;
            let t = s.menu_event(ev, now);
            let dots = s.menu.host_menu_dots;
            &&& ev == MenuEvent::Up ==> t.menu.menu_focused == (if at == 0 {
                n - 1
            } else {
                at - 1
            }) && !t.menu.host_menu_dots
            &&& ev == MenuEvent::Down ==> t.menu.menu_focused == (if at + 1 == n {
                0
            } else {
                at + 1
            }) && !t.menu.host_menu_dots
            &&& ev == MenuEvent::Right ==> t.menu.menu_focused == at && t.menu.host_menu_dots == (
            dots || s.actions()[at as int].action == HostAction::Wake)
            &&& ev == MenuEvent::Left ==> t.menu.menu_focused == at && !t.menu.host_menu_dots
            &&& ev == MenuEvent::Confirm && dots ==> t.nav.screen == Screen::WakeSettings
            &&& ev == MenuEvent::Confirm && !dots ==> t == s.menu_confirmed(now)
            &&& ev == MenuEvent::Back ==> t.nav.screen == Screen::Home && t.menu.host_menu_index
                is None
            &&& ev == MenuEvent::Secondary ==> t == s
            &&& ev != MenuEvent::Confirm ==> t.outbox == s.outbox && t.hosts == s.hosts
            &&& ev != MenuEvent::Confirm && ev != MenuEvent::Back ==> t.nav.screen == s.nav.screen
                && t.menu.host_menu_index == s.menu.host_menu_index
        }),
{
    reveal(AppView::menu_event);
    let n = s.actions().len() as int;
    let at = s.menu.menu_focused as int;
    if at + 1 < n {
        vstd::arithmetic::div_mod::lemma_small_mod((at + 1) as nat, n as nat);
    } else {
        vstd::arithmetic::div_mod::lemma_mod_self_0(n);
    }
}

/// The head of a menu names its host, its address and whether it is paired.
pub proof fn law_menu_names_its_host(s: AppView, idx: usize)
    requires
        s.menu.host_menu_index == Some(idx),
        idx < s.hosts.entries.len(),
    ensures
        s.menu_title() == s.hosts.entries[idx as int].name(),
        s.menu_subtitle() == s.hosts.entries[idx as int].host() + ":"@ + decimal(
            s.hosts.entries[idx as int].port() as nat,
        ) + " · "@ + (if s.hosts.entries[idx as int].is_paired() {
            "paired"@
        } else {
            "not paired"@
        }),
        s.menu_opened(idx).nav.screen == Screen::HostMenu,
        s.menu_opened(idx).menu.host_menu_index == Some(idx),
        s.menu_opened(idx).menu.menu_focused == 0,
        !s.menu_opened(idx).menu.host_menu_dots,
        s.menu_opened(idx).outbox == s.outbox,
{
}

/// Waking a host from its menu leads Home where the host is woken at once, and to the prompt where
/// the user is asked first.
pub proof fn law_waking_leads_home_or_asks(s: AppView, now: u64)
    requires
        s.focused_action() == Some(HostAction::Wake),
        s.menu.host_menu_index is Some,
    ensures
        ({
            let e = s.hosts.entries[s.menu.host_menu_index->0 as int];
            let t = s.menu_confirmed(now);
            let known = host_at(s.hosts.known_hosts, e.host(), e.port());
            let at_once = known is Some && known->0.wol_auto && e.mac().len() > 0;
            &&& at_once ==> t.nav.screen is Home
            &&& !at_once ==> t.nav.screen is Wake
            &&& t.wake matches Some(w) && w.host == e.host() && w.port == e.port() && w.mac == e.mac()
        }),
{
}

} // verus!
