//! Pairing with a host: by PIN, or by asking for access.
use vstd::prelude::*;

use crate::app::{
    App, AppView, Command, CommandView, HostsView, PairingFocus, PairingOutcome, PairingTarget,
    PairingTargetView, PairingView, Screen,
};
use crate::model::event::MenuEvent;
use crate::seqs::views;
use crate::store::{
    host_at, known_entries, law_saved_host_is_found, rows_of, upsert_known_host, upserted, EntryView,
    HostEntry, KnownHost, KnownHostView, DESKTOP_PIN_ID,
};
use crate::text::{decimal, push_decimal};

verus! {

broadcast use crate::seqs::group_views;

/// How this device names itself to a host.
pub const DEVICE_NAME: &'static str = "webOS TV";

/// Seconds that a request for access waits for an answer.
pub const ACCESS_TIMEOUT_SECS: u64 = 185;

/// Seconds that a PIN pairing may take.
pub const PAIR_TIMEOUT_SECS: u64 = 30;

pub const REQUESTING: &'static str = "Requesting access — approve this TV on the host.";

pub const PAIRING: &'static str = "Pairing — confirm the PIN on the host.";

/// The PIN as it is sent: its digits, one after the other.
pub open spec fn pin_text(digits: Seq<u8>) -> Seq<char> {
    decimal(digits[0] as nat) + decimal(digits[1] as nat) + decimal(digits[2] as nat) + decimal(
        digits[3] as nat,
    )
}

/// The host in a row, as a pairing takes it down.
pub open spec fn target_of(e: EntryView) -> PairingTargetView {
    PairingTargetView {
        protocol: e.protocol(),
        host: e.host(),
        port: e.port(),
        name: e.name(),
        mgmt_port: e.mgmt_port(),
        mac: e.mac(),
    }
}

/// The record of a host that was just paired; the desktop card of a new host is pinned.
pub open spec fn paired_record(t: PairingTargetView, fingerprint: [u8; 32]) -> KnownHostView {
    KnownHostView {
        name: t.name,
        host: t.host,
        port: t.port,
        protocol: t.protocol,
        fingerprint: Some(fingerprint),
        mgmt_port: t.mgmt_port,
        mac: t.mac,
        wol_auto: false,
        pinned: seq![DESKTOP_PIN_ID@],
    }
}

impl PairingView {
    /// The four digits, one of them selected.
    pub open spec fn wf(self) -> bool {
        self.pin_digits.len() == 4 && self.pin_digit_index < 4
    }

    /// With the selected digit stepped by `by`, from 9 back to 0.
    pub open spec fn spun(self, by: int) -> PairingView {
        PairingView {
            pin_digits: self.pin_digits.update(
                self.pin_digit_index as int,
                ((self.pin_digits[self.pin_digit_index as int] + by) % 10) as u8,
            ),
            ..self
        }
    }
}

impl AppView {
    /// The same state with this pairing.
    pub open spec fn pairing_as(self, pairing: PairingView) -> AppView {
        AppView { pairing, ..self }
    }

    /// After opening the pairing screen for row `idx`.
    pub open spec fn pairing_opened(self, idx: usize) -> AppView {
        self.pairing_as(
            PairingView {
                pairing_entry: idx,
                pin_digits: seq![0u8, 0u8, 0u8, 0u8],
                pin_digit_index: 0,
                pairing_focus: PairingFocus::RequestAccess,
                pairing_status: None,
                ..self.pairing
            },
        ).on(Screen::Pairing)
    }

    /// After asking the host for access.
    pub open spec fn access_requested(self) -> AppView {
        self.pairing_as(
            PairingView {
                pairing_busy: true,
                pairing_status: Some(REQUESTING@),
                ..self.pairing
            },
        ).asking(
            CommandView::RequestAccess {
                target: target_of(self.hosts.entries[self.pairing.pairing_entry as int]),
            },
        )
    }

    /// After submitting the PIN.
    pub open spec fn pin_submitted(self) -> AppView {
        self.pairing_as(
            PairingView { pairing_busy: true, pairing_status: Some(PAIRING@), ..self.pairing },
        ).asking(
            CommandView::Pair {
                target: target_of(self.hosts.entries[self.pairing.pairing_entry as int]),
                digits: pin_text(self.pairing.pin_digits),
            },
        )
    }

    /// After one event on the pairing screen.
    #[verifier::opaque]
    pub open spec fn pairing_event(self, ev: MenuEvent, now: u64) -> AppView {
        let p = self.pairing;
        if p.pairing_busy {
            if ev == MenuEvent::Back {
                self.pairing_as(
                    PairingView { pairing_busy: false, pairing_status: None, ..p },
                ).on(Screen::Home).asking(CommandView::CancelPairing)
            } else {
                self
            }
        } else if ev == MenuEvent::Back {
            self.on(Screen::Home)
        } else if ev == MenuEvent::Secondary {
            self.pairing_as(
                PairingView {
                    pairing_focus: match p.pairing_focus {
                        PairingFocus::Pin => PairingFocus::RequestAccess,
                        PairingFocus::RequestAccess => PairingFocus::Pin,
                    },
                    ..p
                },
            ).popped(now)
        } else {
            match p.pairing_focus {
                PairingFocus::Pin => match ev {
                    MenuEvent::Up => self.pairing_as(p.spun(1)),
                    MenuEvent::Down => self.pairing_as(p.spun(9)),
                    MenuEvent::Left => if p.pin_digit_index > 0 {
                        self.pairing_as(
                            PairingView { pin_digit_index: (p.pin_digit_index - 1) as usize, ..p },
                        ).popped(now)
                    } else {
                        self.pairing_as(
                            PairingView { pairing_focus: PairingFocus::RequestAccess, ..p },
                        ).popped(now)
                    },
                    MenuEvent::Right => if p.pin_digit_index + 1 < 4 {
                        self.pairing_as(
                            PairingView { pin_digit_index: (p.pin_digit_index + 1) as usize, ..p },
                        ).popped(now)
                    } else {
                        self
                    },
                    MenuEvent::Confirm => self.pin_submitted(),
                    _ => self,
                },
                PairingFocus::RequestAccess => match ev {
                    MenuEvent::Down | MenuEvent::Right => self.pairing_as(
                        PairingView {
                            pairing_focus: PairingFocus::Pin,
                            pin_digit_index: 0,
                            ..p
                        },
                    ).popped(now),
                    MenuEvent::Confirm => self.access_requested(),
                    _ => self,
                },
            }
        }
    }

    /// After typing a digit: it lands in the PIN whatever had the focus, and the last one submits.
    pub open spec fn digit_entered(self, digit: u8) -> AppView {
        let p = self.pairing;
        let typed = PairingView {
            pairing_focus: PairingFocus::Pin,
            pin_digits: p.pin_digits.update(p.pin_digit_index as int, digit),
            ..p
        };
        if p.pairing_busy {
            self
        } else if p.pin_digit_index + 1 < 4 {
            self.pairing_as(
                PairingView { pin_digit_index: (p.pin_digit_index + 1) as usize, ..typed },
            )
        } else {
            self.pairing_as(typed).pin_submitted()
        }
    }

    /// The same state with these saved hosts, and a row for each of them.
    pub open spec fn with_hosts(self, hosts: Seq<KnownHostView>) -> AppView {
        AppView {
            hosts: HostsView { known_hosts: hosts, entries: known_entries(hosts), ..self.hosts },
            ..self
        }
    }

    /// After a pairing has ended: a paired host is saved and selected, a failure is shown.
    pub open spec fn pairing_done(self, outcome: PairingOutcome) -> AppView {
        let s = self.pairing_as(PairingView { pairing_busy: false, ..self.pairing });
        let t = outcome.target@;
        match outcome.result {
            Ok(fingerprint) => s.with_hosts(
                upserted(self.hosts.known_hosts, paired_record(t, fingerprint)),
            ).asking(CommandView::SaveKnownHosts).sidebar_stale().on(Screen::Home).host_selected(
                t.host,
                t.port,
                t.mgmt_port,
            ),
            Err(e) => s.pairing_as(PairingView { pairing_status: Some(e@), ..s.pairing }),
        }
    }
}

/// The host in a row, as a pairing takes it down.
fn take_target(e: &HostEntry) -> (r: PairingTarget)
    ensures
        r@ == target_of(e@),
{
    PairingTarget {
        protocol: e.protocol(),
        host: e.host(),
        port: e.port(),
        name: e.name(),
        mgmt_port: e.mgmt_port(),
        mac: e.mac(),
    }
}

/// The PIN as it is sent.
fn pin_string(digits: &[u8; 4]) -> (r: String)
    ensures
        r@ == pin_text(digits@),
{
    let mut s = String::new();
    push_decimal(&mut s, digits[0] as u64);
    push_decimal(&mut s, digits[1] as u64);
    push_decimal(&mut s, digits[2] as u64);
    push_decimal(&mut s, digits[3] as u64);
    assert(s@ =~= pin_text(digits@));
    s
}

impl App {
    /// Opens the pairing screen for row `idx`, asking for access first.
    pub fn open_pairing(&mut self, idx: usize)
        ensures
            final(self)@ == old(self)@.pairing_opened(idx),
    {
        self.pairing.pairing_entry = idx;
        self.pairing.pin_digits = [0, 0, 0, 0];
        self.pairing.pin_digit_index = 0;
        self.pairing.pairing_focus = PairingFocus::RequestAccess;
        self.pairing.pairing_status = None;
        self.nav.screen = Screen::Pairing;
        proof {
            assert(self.pairing.pin_digits@ =~= seq![0u8, 0u8, 0u8, 0u8]);
        }
    }

    /// Asks the host for access.
    pub fn try_request_access(&mut self)
        requires
            old(self)@.pairing.pairing_entry < old(self)@.hosts.entries.len(),
        ensures
            final(self)@ == old(self)@.access_requested(),
    {
        let target = take_target(&self.hosts.entries[self.pairing.pairing_entry]);
        self.pairing.pairing_busy = true;
        self.pairing.pairing_status = Some(REQUESTING.to_owned());
        self.outbox.push(Command::RequestAccess { target });
    }

    /// Submits the PIN.
    pub fn try_pair(&mut self)
        requires
            old(self)@.pairing.pairing_entry < old(self)@.hosts.entries.len(),
        ensures
            final(self)@ == old(self)@.pin_submitted(),
    {
        let target = take_target(&self.hosts.entries[self.pairing.pairing_entry]);
        let digits = pin_string(&self.pairing.pin_digits);
        self.pairing.pairing_busy = true;
        self.pairing.pairing_status = Some(PAIRING.to_owned());
        self.outbox.push(Command::Pair { target, digits });
    }

    fn set_digit(&mut self, digit: u8)
        requires
            old(self)@.pairing.wf(),
        ensures
            final(self)@ == old(self)@.pairing_as(
                PairingView {
                    pin_digits: old(self)@.pairing.pin_digits.update(
                        old(self)@.pairing.pin_digit_index as int,
                        digit,
                    ),
                    ..old(self)@.pairing
                },
            ),
    {
        let i: usize = self.pairing.pin_digit_index;
        let d = self.pairing.pin_digits;
        let next = [
            if i == 0 {
                digit
            } else {
                d[0]
            },
            if i == 1 {
                digit
            } else {
                d[1]
            },
            if i == 2 {
                digit
            } else {
                d[2]
            },
            if i == 3 {
                digit
            } else {
                d[3]
            },
        ];
        proof {
            assert(next@ =~= d@.update(i as int, digit));
        }
        self.pairing.pin_digits = next;
    }

    /// Handles one event on the pairing screen.
    pub fn handle_pairing_event(&mut self, ev: MenuEvent, now: u64)
        requires
            old(self)@.pairing.wf(),
            old(self)@.pairing.pairing_entry < old(self)@.hosts.entries.len(),
            forall|i: int|
                0 <= i < 4 ==> #[trigger] old(self)@.pairing.pin_digits[i] <= 9,
        ensures
            final(self)@ == old(self)@.pairing_event(ev, now),
            final(self)@.pairing.wf(),
            forall|i: int|
                0 <= i < 4 ==> #[trigger] final(self)@.pairing.pin_digits[i] <= 9,
    {
        proof {
            reveal(AppView::pairing_event);
        }
        if self.pairing.pairing_busy {
            if ev == MenuEvent::Back {
                self.outbox.push(Command::CancelPairing);
                self.pairing.pairing_busy = false;
                self.pairing.pairing_status = None;
                self.nav.screen = Screen::Home;
            }
            return ;
        }
        match ev {
            MenuEvent::Back => {
                self.nav.screen = Screen::Home;
                return ;
            },
            MenuEvent::Secondary => {
                self.pairing.pairing_focus = match self.pairing.pairing_focus {
                    PairingFocus::Pin => PairingFocus::RequestAccess,
                    PairingFocus::RequestAccess => PairingFocus::Pin,
                };
                self.nav.modal_focus_anim = Some(now);
                return ;
            },
            _ => {},
        }
        match self.pairing.pairing_focus {
            PairingFocus::Pin => match ev {
                MenuEvent::Up => {
                    let d: u8 = self.pairing.pin_digits[self.pairing.pin_digit_index];
                    self.set_digit((d + 1) % 10);
                },
                MenuEvent::Down => {
                    let d: u8 = self.pairing.pin_digits[self.pairing.pin_digit_index];
                    self.set_digit((d + 9) % 10);
                },
                MenuEvent::Left => {
                    if self.pairing.pin_digit_index > 0 {
                        self.pairing.pin_digit_index = self.pairing.pin_digit_index - 1;
                    } else {
                        self.pairing.pairing_focus = PairingFocus::RequestAccess;
                    }
                    self.nav.modal_focus_anim = Some(now);
                },
                MenuEvent::Right => {
                    if self.pairing.pin_digit_index + 1 < 4 {
                        self.pairing.pin_digit_index = self.pairing.pin_digit_index + 1;
                        self.nav.modal_focus_anim = Some(now);
                    }
                },
                MenuEvent::Confirm => {
                    self.try_pair();
                },
                MenuEvent::Back | MenuEvent::Secondary => {},
            },
            PairingFocus::RequestAccess => match ev {
                MenuEvent::Down | MenuEvent::Right => {
                    self.pairing.pairing_focus = PairingFocus::Pin;
                    self.pairing.pin_digit_index = 0;
                    self.nav.modal_focus_anim = Some(now);
                },
                MenuEvent::Confirm => {
                    self.try_request_access();
                },
                _ => {},
            },
        }
    }

    /// Types a digit of the PIN.
    pub fn enter_pin_digit(&mut self, digit: u8)
        requires
            old(self)@.pairing.wf(),
            old(self)@.pairing.pairing_entry < old(self)@.hosts.entries.len(),
        ensures
            final(self)@ == old(self)@.digit_entered(digit),
            final(self)@.pairing.wf(),
    {
        if self.pairing.pairing_busy {
            return ;
        }
        self.pairing.pairing_focus = PairingFocus::Pin;
        self.set_digit(digit);
        if self.pairing.pin_digit_index + 1 < 4 {
            self.pairing.pin_digit_index = self.pairing.pin_digit_index + 1;
        } else {
            self.try_pair();
        }
    }

    /// Takes in the end of a pairing, where there is one. Returns whether anything changed.
    pub fn drain_pairing(&mut self, outcome: Option<PairingOutcome>) -> (changed: bool)
        ensures
            changed == (old(self)@.pairing.pairing_busy && outcome is Some),
            final(self)@ == (if changed {
                old(self)@.pairing_done(outcome->0)
            } else {
                old(self)@
            }),
    {
        if !self.pairing.pairing_busy {
            return false;
        }
        let outcome = match outcome {
            None => {
                return false;
            },
            Some(o) => o,
        };
        self.pairing.pairing_busy = false;
        match outcome.result {
            Ok(fingerprint) => {
                let t = outcome.target;
                let mut pinned: Vec<String> = Vec::new();
                pinned.push(DESKTOP_PIN_ID.to_owned());
                proof {
                    assert(views(pinned@) =~= seq![DESKTOP_PIN_ID@]);
                }
                let record = KnownHost {
                    name: t.name,
                    host: t.host.clone(),
                    port: t.port,
                    protocol: t.protocol,
                    fingerprint: Some(fingerprint),
                    mgmt_port: t.mgmt_port,
                    mac: t.mac,
                    wol_auto: false,
                    pinned,
                };
                upsert_known_host(&mut self.hosts.known_hosts, record);
                self.outbox.push(Command::SaveKnownHosts);
                self.hosts.entries = rows_of(&self.hosts.known_hosts);
                self.canvas.sidebar_dirty = true;
                self.nav.screen = Screen::Home;
                self.select_host(t.host, t.port, t.mgmt_port);
            },
            Err(e) => {
                self.pairing.pairing_status = Some(e);
            },
        }
        true
    }
}

/// Stepping a digit up and down again, or the other way round, changes nothing.
pub proof fn law_spin_undone(p: PairingView)
    requires
        p.wf(),
        p.pin_digits[p.pin_digit_index as int] <= 9,
    ensures
        p.spun(1).spun(9) == p,
        p.spun(9).spun(1) == p,
{
    assert(p.spun(1).spun(9).pin_digits =~= p.pin_digits);
    assert(p.spun(9).spun(1).pin_digits =~= p.pin_digits);
}

/// While a pairing is under way every event but Back leaves the menu as it is.
pub proof fn law_busy_ignores_all_but_back(s: AppView, ev: MenuEvent, now: u64)
    requires
        s.pairing.pairing_busy,
        ev != MenuEvent::Back,
    ensures
        s.pairing_event(ev, now) == s,
{
    reveal(AppView::pairing_event);
}

/// A pairing that succeeded is kept: the host is saved under its address with the fingerprint
/// that it was paired under, selected, and asked to be stored. One that failed changes no saved
/// host.
pub proof fn law_pairing_is_kept(s: AppView, outcome: PairingOutcome)
    ensures
        match outcome.result {
            Ok(fingerprint) => {
                let t = outcome.target@;
                let after = s.pairing_done(outcome);
                &&& host_at(after.hosts.known_hosts, t.host, t.port) matches Some(h)
                    && h.fingerprint == Some(fingerprint)
                &&& after.hosts.selected_host == Some((t.host, t.port))
                &&& after.outbox.contains(CommandView::SaveKnownHosts)
            },
            Err(_) => s.pairing_done(outcome).hosts == s.hosts,
        },
{
    if outcome.result is Ok {
        let t = outcome.target@;
        law_saved_host_is_found(s.hosts.known_hosts, paired_record(t, outcome.result->Ok_0));
        assert(s.pairing_done(outcome).outbox[s.outbox.len() as int]
            == CommandView::SaveKnownHosts);
    }
}

/// The text that is sent for a PIN shows the four digits as they stand, each by its own numeral.
pub proof fn law_pin_is_sent_as_shown(digits: Seq<u8>, i: int)
    requires
        digits.len() == 4,
        forall|k: int| 0 <= k < 4 ==> #[trigger] digits[k] <= 9,
        0 <= i < 4,
    ensures
        pin_text(digits).len() == 4,
        pin_text(digits)[i] as int == '0' as int + digits[i],
{
    assert(digits[0] <= 9 && digits[1] <= 9 && digits[2] <= 9 && digits[3] <= 9);
}

/// Confirm on the PIN submits it: what is asked for is to pair the host in the opened row, by the
/// four digits shown, and nothing else is. The pairing is then under way, and the screen says so.
pub proof fn law_confirm_submits_the_pin(s: AppView, now: u64, i: int)
    requires
        s.pairing.pin_digits.len() == 4,
        forall|k: int| 0 <= k < 4 ==> #[trigger] s.pairing.pin_digits[k] <= 9,
        s.pairing.pairing_focus is Pin,
        !s.pairing.pairing_busy,
        0 <= i < 4,
    ensures
        ({
            let t = s.pairing_event(MenuEvent::Confirm, now);
            let row = s.hosts.entries[s.pairing.pairing_entry as int];
            &&& t.outbox.len() == s.outbox.len() + 1
            &&& forall|k: int| 0 <= k < s.outbox.len() ==> t.outbox[k] == s.outbox[k]
            &&& t.outbox.last() matches CommandView::Pair { target, digits } && {
                &&& target.host == row.host() && target.port == row.port()
                &&& target.protocol == row.protocol() && target.name == row.name()
                &&& target.mgmt_port == row.mgmt_port() && target.mac == row.mac()
                &&& digits.len() == 4
                &&& digits[i] as int == '0' as int + s.pairing.pin_digits[i]
            }
            &&& t.pairing.pairing_busy
            &&& t.pairing.pairing_status == Some(PAIRING@)
            &&& t.pairing.pin_digits == s.pairing.pin_digits
            &&& t.nav.screen == s.nav.screen
            &&& t.hosts == s.hosts
        }),
{
    reveal(AppView::pairing_event);
    law_pin_is_sent_as_shown(s.pairing.pin_digits, i);
}

/// Confirm on the button asks the host in the opened row for access, and for nothing else.
pub proof fn law_confirm_requests_access(s: AppView, now: u64)
    requires
        s.pairing.pairing_focus is RequestAccess,
        !s.pairing.pairing_busy,
    ensures
        ({
            let t = s.pairing_event(MenuEvent::Confirm, now);
            let row = s.hosts.entries[s.pairing.pairing_entry as int];
            &&& t.outbox.len() == s.outbox.len() + 1
            &&& t.outbox.last() matches CommandView::RequestAccess { target } && {
                &&& target.host == row.host() && target.port == row.port()
                &&& target.protocol == row.protocol() && target.name == row.name()
                &&& target.mgmt_port == row.mgmt_port() && target.mac == row.mac()
            }
            &&& t.pairing.pairing_busy
            &&& t.pairing.pairing_status == Some(REQUESTING@)
            &&& t.nav.screen == s.nav.screen
            &&& t.hosts == s.hosts
        }),
{
    reveal(AppView::pairing_event);
}

/// The screen asks for something by three ways alone: access with the button focused, a pairing
/// with the PIN focused, each by Confirm while none is under way, and to abandon the one that is
/// under way by Back. Whatever else comes asks for nothing.
pub proof fn law_pairing_asks_only_so(s: AppView, ev: MenuEvent, now: u64)
    ensures
        ({
            let t = s.pairing_event(ev, now);
            let p = s.pairing;
            let confirmed = ev == MenuEvent::Confirm && !p.pairing_busy;
            let abandoned = ev == MenuEvent::Back && p.pairing_busy;
            &&& !confirmed && !abandoned ==> t.outbox == s.outbox
            &&& abandoned ==> t.outbox == s.outbox.push(CommandView::CancelPairing)
            &&& confirmed ==> t.outbox.len() == s.outbox.len() + 1
            &&& confirmed ==> (t.outbox.last() is Pair) == (p.pairing_focus is Pin)
            &&& confirmed ==> (t.outbox.last() is RequestAccess) == (p.pairing_focus
                is RequestAccess)
            &&& t.pairing.pairing_busy == (if confirmed {
                true
            } else if abandoned {
                false
            } else {
                p.pairing_busy
            })
            &&& (t.nav.screen == Screen::Home) == (ev == MenuEvent::Back || s.nav.screen
                == Screen::Home)
            &&& t.hosts == s.hosts
            &&& t.pairing.pairing_entry == p.pairing_entry
        }),
{
    reveal(AppView::pairing_event);
}

/// Up and Down step the selected digit by one, round from 9 to 0, and no other digit; nothing
/// else changes a digit.
pub proof fn law_digits_step(s: AppView, ev: MenuEvent, now: u64, i: int)
    requires
        s.pairing.wf(),
        s.pairing.pin_digits[s.pairing.pin_digit_index as int] <= 9,
        0 <= i < 4,
    ensures
        ({
            let t = s.pairing_event(ev, now).pairing;
            let was = s.pairing.pin_digits[i] as int;
            let stepped = !s.pairing.pairing_busy && s.pairing.pairing_focus is Pin && i
                == s.pairing.pin_digit_index;
            &&& t.pin_digits.len() == 4
            &&& stepped && ev == MenuEvent::Up ==> t.pin_digits[i] == if was == 9 {
                0
            } else {
                was + 1
            }
            &&& stepped && ev == MenuEvent::Down ==> t.pin_digits[i] == if was == 0 {
                9
            } else {
                was - 1
            }
            &&& !stepped || (ev != MenuEvent::Up && ev != MenuEvent::Down) ==> t.pin_digits[i] == was
        }),
{
    reveal(AppView::pairing_event);
}

/// The focus moves along: from the button down or right to the first digit, right from digit to
/// digit up to the last, left back and from the first digit to the button, and between the two
/// parts by the second button.
pub proof fn law_pairing_focus_moves(s: AppView, ev: MenuEvent, now: u64)
    requires
        s.pairing.wf(),
        !s.pairing.pairing_busy,
        ev != MenuEvent::Back,
        ev != MenuEvent::Confirm,
    ensures
        ({
            let p = s.pairing;
            let t = s.pairing_event(ev, now).pairing;
            let i = p.pin_digit_index;
            &&& t.pin_digit_index < 4
            &&& ev == MenuEvent::Secondary ==> t.pairing_focus != p.pairing_focus
                && t.pin_digit_index == i
            &&& p.pairing_focus is RequestAccess && (ev == MenuEvent::Down || ev
                == MenuEvent::Right) ==> t.pairing_focus is Pin && t.pin_digit_index == 0
            &&& p.pairing_focus is RequestAccess && (ev == MenuEvent::Up || ev == MenuEvent::Left)
                ==> t == p
            &&& p.pairing_focus is Pin && ev == MenuEvent::Right ==> t.pairing_focus is Pin
                && t.pin_digit_index == if i < 3 {
                i + 1
            } else {
                3
            }
            &&& p.pairing_focus is Pin && ev == MenuEvent::Left ==> if i == 0 {
                t.pairing_focus is RequestAccess
            } else {
                t.pairing_focus is Pin && t.pin_digit_index == i - 1
            }
            &&& p.pairing_focus is Pin && (ev == MenuEvent::Up || ev == MenuEvent::Down)
                ==> t.pairing_focus is Pin && t.pin_digit_index == i
        }),
{
    reveal(AppView::pairing_event);
}

/// The screen opens for the row that it was asked for, at four zeros, the first of them selected,
/// with the button focused and nothing said; the host list stays.
pub proof fn law_pairing_opens_afresh(s: AppView, idx: usize, i: int)
    requires
        0 <= i < 4,
    ensures
        ({
            let t = s.pairing_opened(idx);
            &&& t.nav.screen == Screen::Pairing
            &&& t.pairing.pairing_entry == idx
            &&& t.pairing.pin_digits.len() == 4 && t.pairing.pin_digits[i] == 0
            &&& t.pairing.pin_digit_index == 0
            &&& t.pairing.pairing_focus is RequestAccess
            &&& t.pairing.pairing_status is None
            &&& t.pairing.pairing_busy == s.pairing.pairing_busy
            &&& t.hosts == s.hosts && t.outbox == s.outbox
        }),
{
}

/// A typed digit lands where the PIN is being entered, and the next one behind it; the last
/// submits the PIN as it then stands for the host in the opened row.
pub proof fn law_typed_digits_land_in_turn(s: AppView, digit: u8, i: int)
    requires
        s.pairing.wf(),
        !s.pairing.pairing_busy,
        0 <= i < 4,
    ensures
        ({
            let t = s.digit_entered(digit);
            let at = s.pairing.pin_digit_index;
            let row = s.hosts.entries[s.pairing.pairing_entry as int];
            &&& t.pairing.pairing_focus is Pin
            &&& t.pairing.pin_digits[i] == if i == at {
                digit
            } else {
                s.pairing.pin_digits[i]
            }
            &&& at < 3 ==> t.pairing.pin_digit_index == at + 1 && t.outbox == s.outbox
                && !t.pairing.pairing_busy
            &&& at == 3 ==> t.outbox.len() == s.outbox.len() + 1 && t.pairing.pairing_busy
            &&& at == 3 ==> (t.outbox.last() matches CommandView::Pair { target, digits }
                && target.host == row.host() && target.port == row.port() && target.protocol
                == row.protocol() && target.name == row.name() && target.mac == row.mac()
                && target.mgmt_port == row.mgmt_port() && digits == pin_text(t.pairing.pin_digits))
        }),
{
}

/// Nothing is typed while a pairing is under way.
pub proof fn law_busy_takes_no_digit(s: AppView, digit: u8)
    requires
        s.pairing.pairing_busy,
    ensures
        s.digit_entered(digit) == s,
{
}

/// A host that was paired is saved with what was known of it: the name, the address, the
/// protocol, the management port and the wake addresses of the host that was asked; a host that
/// is new starts with its desktop pinned, and one that was saved keeps its pins and wake setting.
/// The menu is back at Home, with a row for every saved host. One that could not be paired is told
/// of on the screen that stays up, and leaves all as it was.
pub proof fn law_paired_host_is_as_asked(s: AppView, outcome: PairingOutcome)
    ensures
        ({
            let t = outcome.target@;
            let after = s.pairing_done(outcome);
            &&& !after.pairing.pairing_busy
            &&& outcome.result is Ok ==> {
                &&& host_at(after.hosts.known_hosts, t.host, t.port) matches Some(h) && {
                    &&& h.name == t.name && h.host == t.host && h.port == t.port
                    &&& h.protocol == t.protocol && h.mgmt_port == t.mgmt_port && h.mac == t.mac
                    &&& h.fingerprint == Some(outcome.result->Ok_0)
                    &&& match host_at(s.hosts.known_hosts, t.host, t.port) {
                        Some(was) => h.pinned == was.pinned && h.wol_auto == was.wol_auto,
                        None => h.pinned == seq!["desktop"@] && !h.wol_auto,
                    }
                }
                &&& after.nav.screen == Screen::Home
                &&& after.hosts.entries.len() == after.hosts.known_hosts.len()
                &&& forall|i: int|
                    0 <= i < after.hosts.entries.len() ==> #[trigger] after.hosts.entries[i]
                        == EntryView::Known(after.hosts.known_hosts[i])
            }
            &&& outcome.result matches Err(e) ==> {
                &&& after.pairing.pairing_status == Some(e@)
                &&& after.nav.screen == s.nav.screen
                &&& after.hosts == s.hosts && after.outbox == s.outbox
            }
        }),
{
    if outcome.result is Ok {
        let t = outcome.target@;
        let record = paired_record(t, outcome.result->Ok_0);
        law_saved_host_is_found(s.hosts.known_hosts, record);
        crate::store::lemma_known_entries(upserted(s.hosts.known_hosts, record));
    }
}

/// Pairing a host changes no other saved host.
pub proof fn law_pairing_leaves_other_hosts(
    s: AppView,
    outcome: PairingOutcome,
    host: Seq<char>,
    port: u16,
)
    requires
        !(host == outcome.target@.host && port == outcome.target@.port),
    ensures
        host_at(s.pairing_done(outcome).hosts.known_hosts, host, port) == host_at(
            s.hosts.known_hosts,
            host,
            port,
        ),
{
    if outcome.result is Ok {
        crate::store::law_saving_leaves_others(
            s.hosts.known_hosts,
            paired_record(outcome.target@, outcome.result->Ok_0),
            host,
            port,
        );
    }
}

} // verus!
