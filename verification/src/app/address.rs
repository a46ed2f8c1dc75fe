//! Adding a host by its address, and changing the address of a saved one.
use vstd::prelude::*;

use crate::app::{App, AppView, Command, CommandView, HomeFocus, Menu, Screen};
use crate::model::event::MenuEvent;
use crate::model::protocol::Protocol;
use crate::seqs::views;
use crate::store::{
    entry_index, find_entry, host_at, law_removed_host_is_gone, law_saved_host_is_found,
    law_saving_leaves_others, remove_host, rows_of, upsert_known_host, upserted, without_host,
    EntryView, HostEntry, KnownHost, KnownHostView, DESKTOP_PIN_ID,
};
use crate::text::join3;

verus! {

broadcast use crate::seqs::group_views;

pub const ADD_HOST_SUBTITLE: &'static str = "Enter the host's IP address.";

pub const EDIT_HEAD: &'static str = "New IP address for ";

pub const EDIT_TAIL: &'static str = ". Its pairing is kept.";

/// The record of a host that was added by hand: named after its address, and unpaired.
pub open spec fn typed_record(host: Seq<char>, port: u16) -> KnownHostView {
    KnownHostView {
        name: host,
        host,
        port,
        protocol: Protocol::Punktfunk,
        fingerprint: None,
        mgmt_port: None,
        mac: seq![],
        wol_auto: false,
        pinned: seq![DESKTOP_PIN_ID@],
    }
}

impl AppView {
    /// The same state with the focus on the row with this address, or on the first row.
    pub open spec fn focused_on_host(self, host: Seq<char>, port: u16) -> AppView {
        let i = entry_index(self.hosts.entries, host, port);
        self.focused(
            HomeFocus::Sidebar(
                if i < self.hosts.entries.len() {
                    i as usize
                } else {
                    0
                },
            ),
        )
    }

    /// After saving a typed address.
    pub open spec fn host_added(self, host: Seq<char>, port: u16) -> AppView {
        self.with_hosts(upserted(self.hosts.known_hosts, typed_record(host, port))).asking(
            CommandView::SaveKnownHosts,
        ).focused_on_host(host, port).on(Screen::Home)
    }

    /// After one event on the form for a new address; `typed` is the address once it is complete.
    #[verifier::opaque]
    pub open spec fn add_host_event(self, ev: MenuEvent, typed: Option<(String, u16)>) -> AppView {
        match ev {
            MenuEvent::Left => self.asking(CommandView::AddressBackspace),
            MenuEvent::Right => self.asking(CommandView::AddressAdvanceOctet),
            MenuEvent::Confirm => match typed {
                Some((host, port)) => self.host_added(host@, port),
                None => self,
            },
            MenuEvent::Back => self.on(Screen::Home),
            _ => self,
        }
    }

    /// After opening the form for the address of row `idx`; a row that is not saved has none.
    pub open spec fn edit_opened(self, idx: usize) -> AppView {
        if idx < self.hosts.entries.len() {
            match self.hosts.entries[idx as int] {
                EntryView::Known(h) => self.menu_as(
                    Menu { edit_host_index: Some(idx), host_menu_index: None, ..self.menu },
                ).on(Screen::EditHost).asking(CommandView::AddressReset { address: Some(h.host) }),
                EntryView::Discovered(_) => self,
            }
        } else {
            self
        }
    }

    /// The same state with the form closed.
    pub open spec fn edit_closed(self) -> AppView {
        self.menu_as(Menu { edit_host_index: None, ..self.menu }).on(Screen::Home)
    }

    /// The saved host whose address is being changed.
    pub open spec fn edited_host(self) -> Option<KnownHostView> {
        match self.menu.edit_host_index {
            Some(idx) => if idx < self.hosts.entries.len() {
                match self.hosts.entries[idx as int] {
                    EntryView::Known(h) => Some(h),
                    EntryView::Discovered(_) => None,
                }
            } else {
                None
            },
            None => None,
        }
    }

    /// After giving the host another address: everything else of it stays, and so does the
    /// selection.
    pub open spec fn host_edited(self, host: Seq<char>, port: u16) -> AppView {
        match self.edited_host() {
            None => self,
            Some(was) => if host == was.host && port == was.port {
                self.edit_closed()
            } else {
                self.host_moved(was, host, port)
            },
        }
    }

    /// The same state with the host that was `was` saved, and selected if it was, at another
    /// address.
    pub open spec fn host_rewritten(self, was: KnownHostView, host: Seq<char>, port: u16) -> AppView {
        let s = self.with_hosts(
            upserted(
                without_host(self.hosts.known_hosts, was.host, was.port),
                KnownHostView { host, port, ..was },
            ),
        ).asking(CommandView::SaveKnownHosts);
        if self.hosts.selected_host == Some((was.host, was.port)) {
            s.selecting(host, port)
        } else {
            s
        }
    }

    /// After moving the host that was `was` to another address.
    pub open spec fn host_moved(self, was: KnownHostView, host: Seq<char>, port: u16) -> AppView {
        self.host_rewritten(was, host, port).focused_on_host(
            host,
            port,
        ).edit_closed().sidebar_stale().grid_stale()
    }

    /// After one event on the form for another address.
    #[verifier::opaque]
    pub open spec fn edit_event(self, ev: MenuEvent, typed: Option<(String, u16)>) -> AppView {
        match ev {
            MenuEvent::Left => self.asking(CommandView::AddressBackspace),
            MenuEvent::Right => self.asking(CommandView::AddressAdvanceOctet),
            MenuEvent::Confirm => match typed {
                Some((host, port)) => self.host_edited(host@, port),
                None => self,
            },
            MenuEvent::Back => self.edit_closed(),
            _ => self,
        }
    }

    /// The line below the title of the form.
    pub open spec fn address_line(self) -> Seq<char> {
        if self.nav.screen == Screen::EditHost {
            let name = match self.menu.edit_host_index {
                Some(i) => if i < self.hosts.entries.len() {
                    self.hosts.entries[i as int].name()
                } else {
                    seq![]
                },
                None => seq![],
            };
            EDIT_HEAD@ + name + EDIT_TAIL@
        } else {
            ADD_HOST_SUBTITLE@
        }
    }
}

impl App {
    fn focus_on_host(&mut self, host: &str, port: u16)
        ensures
            final(self)@ == old(self)@.focused_on_host(host@, port),
    {
        let i: usize = match find_entry(&self.hosts.entries, host, port) {
            Some(i) => i,
            None => 0,
        };
        self.nav.home_focus = HomeFocus::Sidebar(i);
    }

    /// Saves a typed address.
    pub fn confirm_add_host(&mut self, host: String, port: u16)
        ensures
            final(self)@ == old(self)@.host_added(host@, port),
    {
        let mut pinned: Vec<String> = Vec::new();
        pinned.push(DESKTOP_PIN_ID.to_owned());
        let mac: Vec<String> = Vec::new();
        proof {
            assert(views(pinned@) =~= seq![DESKTOP_PIN_ID@]);
            assert(views(mac@) =~= seq![]);
        }
        let record = KnownHost {
            name: host.clone(),
            host: host.clone(),
            port,
            protocol: Protocol::Punktfunk,
            fingerprint: None,
            mgmt_port: None,
            mac,
            wol_auto: false,
            pinned,
        };
        upsert_known_host(&mut self.hosts.known_hosts, record);
        self.outbox.push(Command::SaveKnownHosts);
        self.hosts.entries = rows_of(&self.hosts.known_hosts);
        self.focus_on_host(host.as_str(), port);
        self.nav.screen = Screen::Home;
    }

    /// Handles one event on the form for a new address; `typed` is the address once it is
    /// complete.
    pub fn handle_add_host_event(&mut self, ev: MenuEvent, typed: Option<(String, u16)>)
        ensures
            final(self)@ == old(self)@.add_host_event(ev, typed),
    {
        proof {
            reveal(AppView::add_host_event);
        }
        match ev {
            MenuEvent::Left => {
                self.outbox.push(Command::AddressBackspace);
            },
            MenuEvent::Right => {
                self.outbox.push(Command::AddressAdvanceOctet);
            },
            MenuEvent::Confirm => {
                match typed {
                    Some((host, port)) => {
                        self.confirm_add_host(host, port);
                    },
                    None => {},
                }
            },
            MenuEvent::Back => {
                self.nav.screen = Screen::Home;
            },
            _ => {},
        }
    }

    /// Types a digit of an address.
    pub fn enter_add_host_digit(&mut self, digit: u8)
        ensures
            final(self)@ == old(self)@.asking(CommandView::AddressDigit(digit)),
    {
        self.outbox.push(Command::AddressDigit(digit));
    }

    /// Types a character of an address.
    pub fn enter_host_address_char(&mut self, c: char)
        ensures
            final(self)@ == old(self)@.asking(CommandView::AddressChar(c)),
    {
        self.outbox.push(Command::AddressChar(c));
    }

    /// The line below the title of the form.
    pub fn address_subtitle(&self) -> (r: String)
        ensures
            r@ == self@.address_line(),
    {
        if self.nav.screen == Screen::EditHost {
            let name = match self.menu.edit_host_index {
                Some(i) => if i < self.hosts.entries.len() {
                    self.hosts.entries[i].name()
                } else {
                    String::new()
                },
                None => String::new(),
            };
            join3(EDIT_HEAD, name.as_str(), EDIT_TAIL)
        } else {
            ADD_HOST_SUBTITLE.to_owned()
        }
    }

    /// Opens the form for the address of the saved host in row `idx`.
    pub fn open_edit_host(&mut self, idx: usize)
        ensures
            final(self)@ == old(self)@.edit_opened(idx),
    {
        if idx >= self.hosts.entries.len() {
            return ;
        }
        let host = match &self.hosts.entries[idx] {
            HostEntry::Known(h) => h.host.clone(),
            HostEntry::Discovered(_) => {
                return ;
            },
        };
        self.outbox.push(Command::AddressReset { address: Some(host) });
        self.menu.edit_host_index = Some(idx);
        self.menu.host_menu_index = None;
        self.nav.screen = Screen::EditHost;
    }

    fn close_edit(&mut self)
        ensures
            final(self)@ == old(self)@.edit_closed(),
    {
        self.menu.edit_host_index = None;
        self.nav.screen = Screen::Home;
    }

    fn save_edited(&mut self, was: &KnownHost, host: &String, port: u16)
        ensures
            final(self)@ == old(self)@.with_hosts(
                upserted(
                    without_host(old(self)@.hosts.known_hosts, was@.host, was@.port),
                    KnownHostView { host: host@, port, ..was@ },
                ),
            ).asking(CommandView::SaveKnownHosts),
    {
        remove_host(&mut self.hosts.known_hosts, was.host.as_str(), was.port);
        let copy = was.clone();
        let record = KnownHost { host: host.clone(), port, ..copy };
        upsert_known_host(&mut self.hosts.known_hosts, record);
        self.outbox.push(Command::SaveKnownHosts);
        self.hosts.entries = rows_of(&self.hosts.known_hosts);
    }

    fn finish_edit(&mut self, host: &str, port: u16)
        ensures
            final(self)@ == old(self)@.focused_on_host(
                host@,
                port,
            ).edit_closed().sidebar_stale().grid_stale(),
    {
        self.focus_on_host(host, port);
        self.close_edit();
        self.canvas.sidebar_dirty = true;
        self.canvas.grid_dirty = true;
    }

    fn reselect(&mut self, host: &String, port: u16)
        ensures
            final(self)@ == old(self)@.selecting(host@, port),
    {
        self.hosts.selected_host = Some((host.clone(), port));
    }

    fn rewrite_host(&mut self, was: &KnownHost, host: &String, port: u16)
        ensures
            final(self)@ == old(self)@.host_rewritten(was@, host@, port),
    {
        let same = match &self.hosts.selected_host {
            Some((h, p)) => *p == was.port && *h == was.host,
            None => false,
        };
        self.save_edited(was, host, port);
        if same {
            self.reselect(host, port);
        }
    }

    fn move_host(&mut self, was: &KnownHost, host: String, port: u16)
        ensures
            final(self)@ == old(self)@.host_moved(was@, host@, port),
    {
        self.rewrite_host(was, &host, port);
        self.finish_edit(host.as_str(), port);
    }

    /// Gives the host that is being edited this address.
    pub fn confirm_edit_host(&mut self, host: String, port: u16)
        ensures
            final(self)@ == old(self)@.host_edited(host@, port),
    {
        let idx: usize = match self.menu.edit_host_index {
            Some(i) => i,
            None => {
                return ;
            },
        };
        if idx >= self.hosts.entries.len() {
            return ;
        }
        let was = match &self.hosts.entries[idx] {
            HostEntry::Known(h) => h.clone(),
            HostEntry::Discovered(_) => {
                return ;
            },
        };
        if port == was.port && host == was.host {
            self.close_edit();
            return ;
        }
        self.move_host(&was, host, port);
    }

    /// Handles one event on the form for another address; `typed` is the address once it is
    /// complete.
    pub fn handle_edit_host_event(&mut self, ev: MenuEvent, typed: Option<(String, u16)>)
        ensures
            final(self)@ == old(self)@.edit_event(ev, typed),
    {
        proof {
            reveal(AppView::edit_event);
        }
        match ev {
            MenuEvent::Left => {
                self.outbox.push(Command::AddressBackspace);
            },
            MenuEvent::Right => {
                self.outbox.push(Command::AddressAdvanceOctet);
            },
            MenuEvent::Confirm => {
                match typed {
                    Some((host, port)) => {
                        self.confirm_edit_host(host, port);
                    },
                    None => {},
                }
            },
            MenuEvent::Back => {
                self.close_edit();
            },
            _ => {},
        }
    }
}

/// Changing the address of a host keeps its pairing: at the new address is a host with the
/// same name and the same fingerprint, and at the old one there is none. Where no saved host
/// had the new address, nothing else of it changes either.
pub proof fn law_edit_keeps_pairing(s: AppView, host: Seq<char>, port: u16)
    requires
        s.edited_host() is Some,
        !(host == s.edited_host()->0.host && port == s.edited_host()->0.port),
    ensures
        ({
            let was = s.edited_host()->0;
            let after = s.host_edited(host, port).hosts.known_hosts;
            &&& host_at(after, host, port) matches Some(h) && h.fingerprint == was.fingerprint
                && h.name == was.name && h.protocol == was.protocol && h.mac == was.mac
            &&& host_at(after, was.host, was.port) is None
            &&& host_at(without_host(s.hosts.known_hosts, was.host, was.port), host, port) is None
                ==> host_at(after, host, port) == Some(KnownHostView { host, port, ..was })
        }),
{
    let was = s.edited_host()->0;
    let moved = KnownHostView { host, port, ..was };
    let rest = without_host(s.hosts.known_hosts, was.host, was.port);
    law_saved_host_is_found(rest, moved);
    law_saving_leaves_others(rest, moved, was.host, was.port);
    law_removed_host_is_gone(s.hosts.known_hosts, was.host, was.port);
}

/// A typed address is saved as a host of its own: named after the address, not paired, with its
/// desktop pinned. A host that was saved at that address keeps its pins and its wake setting. The
/// menu is at Home with the row of that host focused, and the hosts are stored.
pub proof fn law_typed_host_is_saved(s: AppView, host: Seq<char>, port: u16, i: int)
    requires
        s.host_added(host, port).hosts.entries.len() <= usize::MAX,
    ensures
        ({
            let t = s.host_added(host, port);
            &&& host_at(t.hosts.known_hosts, host, port) matches Some(h) && {
                &&& h.name == host && h.host == host && h.port == port
                &&& h.fingerprint is None && h.mgmt_port is None && h.mac.len() == 0
                &&& h.protocol == Protocol::Punktfunk
                &&& match host_at(s.hosts.known_hosts, host, port) {
                    Some(was) => h.pinned == was.pinned && h.wol_auto == was.wol_auto,
                    None => h.pinned == seq!["desktop"@] && !h.wol_auto,
                }
            }
            &&& t.outbox == s.outbox.push(CommandView::SaveKnownHosts)
            &&& t.nav.screen == Screen::Home
            &&& t.nav.home_focus matches HomeFocus::Sidebar(r) && r < t.hosts.entries.len()
                && t.hosts.entries[r as int].host() == host && t.hosts.entries[r as int].port()
                == port
            &&& t.hosts.entries.len() == t.hosts.known_hosts.len()
            &&& 0 <= i < t.hosts.entries.len() ==> t.hosts.entries[i] == EntryView::Known(
                t.hosts.known_hosts[i],
            )
            &&& t.hosts.selected_host == s.hosts.selected_host
        }),
{
    let record = typed_record(host, port);
    let hosts = upserted(s.hosts.known_hosts, record);
    crate::store::law_saved_host_is_found(s.hosts.known_hosts, record);
    crate::store::lemma_known_entries(hosts);
    let k = crate::store::host_index(hosts, host, port);
    assert(0 <= k < hosts.len());
    crate::store::law_host_is_found_by_its_address(hosts, host, port, k);
    let rows = crate::store::known_entries(hosts);
    assert(rows[k] == EntryView::Known(hosts[k]));
    crate::store::law_row_is_found_by_its_address(rows, host, port, k);
}

/// Adding a host leaves every other saved host as it is.
pub proof fn law_adding_leaves_others(
    s: AppView,
    host: Seq<char>,
    port: u16,
    other: Seq<char>,
    other_port: u16,
)
    requires
        !(other == host && other_port == port),
    ensures
        host_at(s.host_added(host, port).hosts.known_hosts, other, other_port) == host_at(
            s.hosts.known_hosts,
            other,
            other_port,
        ),
{
    crate::store::law_saving_leaves_others(
        s.hosts.known_hosts,
        typed_record(host, port),
        other,
        other_port,
    );
}

/// Both forms take an address the same way: Left deletes, Right goes on to the next part, Confirm
/// takes an address that is complete and no other, and Back closes the form without saving.
pub proof fn law_address_forms(s: AppView, ev: MenuEvent, typed: Option<(String, u16)>)
    ensures
        ({
            let a = s.add_host_event(ev, typed);
            let e = s.edit_event(ev, typed);
            &&& ev == MenuEvent::Left ==> a == s.asking(CommandView::AddressBackspace) && e == a
            &&& ev == MenuEvent::Right ==> a == s.asking(CommandView::AddressAdvanceOctet) && e == a
            &&& ev == MenuEvent::Up || ev == MenuEvent::Down || ev == MenuEvent::Secondary ==> a == s
                && e == s
            &&& ev == MenuEvent::Confirm && typed is None ==> a == s && e == s
            &&& ev == MenuEvent::Confirm && typed is Some ==> a == s.host_added(
                (typed->0).0@,
                (typed->0).1,
            ) && e == s.host_edited((typed->0).0@, (typed->0).1)
            &&& ev == MenuEvent::Back ==> a.nav.screen == Screen::Home && e.nav.screen
                == Screen::Home && e.menu.edit_host_index is None
            &&& ev != MenuEvent::Confirm ==> a.hosts == s.hosts && e.hosts == s.hosts
            &&& ev == MenuEvent::Back ==> a.outbox == s.outbox && e.outbox == s.outbox
        }),
{
    reveal(AppView::add_host_event);
    reveal(AppView::edit_event);
}

/// A host that gets another address stays selected under it, is stored, and its row is focused at
/// Home; the same address again changes nothing but the screen.
pub proof fn law_moved_host_stays_selected(s: AppView, host: Seq<char>, port: u16)
    requires
        s.edited_host() is Some,
        s.host_edited(host, port).hosts.entries.len() <= usize::MAX,
    ensures
        ({
            let was = s.edited_host()->0;
            let t = s.host_edited(host, port);
            let same = host == was.host && port == was.port;
            &&& t.nav.screen == Screen::Home && t.menu.edit_host_index is None
            &&& same ==> t.hosts == s.hosts && t.outbox == s.outbox
            &&& !same ==> t.outbox == s.outbox.push(CommandView::SaveKnownHosts)
            &&& !same ==> t.hosts.selected_host == (if s.hosts.selected_host == Some(
                (was.host, was.port),
            ) {
                Some((host, port))
            } else {
                s.hosts.selected_host
            })
            &&& !same ==> (t.nav.home_focus matches HomeFocus::Sidebar(r) && r
                < t.hosts.entries.len() && t.hosts.entries[r as int].host() == host
                && t.hosts.entries[r as int].port() == port)
            &&& !same ==> t.canvas.sidebar_dirty && t.canvas.grid_dirty
        }),
{
    let was = s.edited_host()->0;
    if !(host == was.host && port == was.port) {
        let left = without_host(s.hosts.known_hosts, was.host, was.port);
        let record = KnownHostView { host, port, ..was };
        let hosts = upserted(left, record);
        crate::store::law_saved_host_is_found(left, record);
        crate::store::lemma_known_entries(hosts);
        let k = crate::store::host_index(hosts, host, port);
        crate::store::law_host_is_found_by_its_address(hosts, host, port, k);
        let rows = crate::store::known_entries(hosts);
        assert(rows[k] == EntryView::Known(hosts[k]));
        crate::store::law_row_is_found_by_its_address(rows, host, port, k);
    }
}

/// The form for a new address opens for a saved host alone, filled with the address that it has.
pub proof fn law_edit_opens_with_the_address(s: AppView, idx: usize)
    ensures
        idx < s.hosts.entries.len() && s.hosts.entries[idx as int] is Known ==> {
            let t = s.edit_opened(idx);
            &&& t.nav.screen == Screen::EditHost && t.menu.edit_host_index == Some(idx)
            &&& t.outbox == s.outbox.push(
                CommandView::AddressReset { address: Some(s.hosts.entries[idx as int].host()) },
            )
            &&& t.hosts == s.hosts
        },
        idx >= s.hosts.entries.len() || s.hosts.entries[idx as int] is Discovered ==> s.edit_opened(
            idx,
        ) == s,
{
}

} // verus!
