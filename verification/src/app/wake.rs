//! Waking an unreachable host: the prompt, the silent wait, the retries and the probes.
use vstd::prelude::*;

use crate::app::launch::{fingerprint_of, name_of, or_default, port_or_default};
use crate::app::{App, AppView, Command, CommandView, Screen, WakeSend, WakeState, WakeView};
use crate::model::event::MenuEvent;
use crate::seqs::{clone_strings, views};
use crate::store::{find_host, host_at};
use crate::text::{decimal, join3, push_decimal};

verus! {

broadcast use crate::seqs::group_views;

/// Milliseconds between two wake signals; also how long a silent wait stays silent.
pub const WAKE_RETRY_INTERVAL: u64 = 60000;

/// Milliseconds between two reachability probes of a host that is being woken.
pub const WAKE_PROBE_INTERVAL: u64 = 10000;

pub const CANNOT_SEND: &'static str =
    "Couldn't send the wake signal — no usable MAC address or network interface.";

pub const BACK_ONLINE: &'static str = " is back online — loading its library…";

pub const SENT_HEAD: &'static str = "Wake signal sent to ";

pub const SENT_TAIL: &'static str = " — waiting for it to come back online…";

pub const RESENT_HEAD: &'static str = "Wake signal re-sent to ";

pub const RESENT_TAIL: &'static str =
    " attempts) — still waiting for it to come back online…";

pub const NO_ADDRESS: &'static str = " isn't responding, and no Wake-on-LAN address is on record for it yet, so it can't be woken from here. It will reconnect automatically once it's back online.";

pub const SENT_MODAL_TAIL: &'static str = ". Waiting for it to come back online…";

pub const NOT_RESPONDING: &'static str =
    " isn't responding. It may be powered off or asleep.";

pub const TITLE_UNREACHABLE: &'static str = "Host unreachable";

pub const TITLE_WAKING: &'static str = "Waking host…";

pub const TITLE_ASK: &'static str = "Wake this host?";

impl WakeView {
    /// The status line while the wait goes on without a prompt.
    pub open spec fn home_text(self) -> Seq<char> {
        if self.attempts == 0 {
            self.reason
        } else if self.attempts == 1 {
            SENT_HEAD@ + self.name + SENT_TAIL@
        } else {
            RESENT_HEAD@ + self.name + " ("@ + decimal(self.attempts as nat) + RESENT_TAIL@
        }
    }

    /// The sentence on the prompt.
    pub open spec fn modal_text(self) -> Seq<char> {
        if self.mac.len() == 0 {
            self.name + NO_ADDRESS@
        } else if self.sent {
            SENT_HEAD@ + self.name + SENT_MODAL_TAIL@
        } else {
            self.name + NOT_RESPONDING@
        }
    }

    /// The title of the prompt.
    pub open spec fn title_text(self) -> Seq<char> {
        if self.mac.len() == 0 {
            TITLE_UNREACHABLE@
        } else if self.sent {
            TITLE_WAKING@
        } else {
            TITLE_ASK@
        }
    }

    /// After a signal has been tried: only one that went out counts.
    pub open spec fn after_send(self, went_out: bool, now: u64) -> WakeView {
        if went_out {
            WakeView {
                sent: true,
                attempts: (self.attempts + 1) as u32,
                since: match self.since {
                    Some(t) => Some(t),
                    None => Some(now),
                },
                last_attempt: Some(now),
                sending: None,
                ..self
            }
        } else {
            WakeView { reason: CANNOT_SEND@, last_attempt: Some(now), sending: None, ..self }
        }
    }

    /// Whether it is time to send again: only ever again, never for the first time.
    pub open spec fn retry_due(self, now: u64) -> bool {
        &&& self.mac.len() > 0
        &&& self.sent
        &&& self.sending is None
        &&& self.last_attempt matches Some(t) && now - t >= WAKE_RETRY_INTERVAL
    }

    /// Whether it is time to look again whether the host answers.
    pub open spec fn probe_due(self, now: u64) -> bool {
        &&& !self.probing
        &&& self.last_probe matches Some(t) && now - t >= WAKE_PROBE_INTERVAL
    }
}

impl AppView {
    /// After finding the host unreachable: it is woken at once where that is its setting and an
    /// address is on record, else the user is asked.
    pub open spec fn wake_started(
        self,
        host: Seq<char>,
        port: u16,
        mac: Seq<Seq<char>>,
        reason: Seq<char>,
        now: u64,
    ) -> AppView {
        let known = host_at(self.hosts.known_hosts, host, port);
        let name = name_of(self.hosts.known_hosts, host, port);
        let auto = known is Some && known->0.wol_auto && mac.len() > 0;
        let wake = WakeView {
            host,
            port,
            name,
            mac,
            reason,
            focused: 0,
            sent: false,
            attempts: 0,
            since: None,
            last_attempt: None,
            silent: auto,
            last_probe: Some(now),
            probing: false,
            sending: if auto {
                Some(WakeSend::Auto)
            } else {
                None
            },
        };
        if auto {
            self.waking(Some(wake)).asking(CommandView::SendWake { mac, host, name })
        } else {
            self.waking(Some(wake)).on(Screen::Wake)
        }
    }

    /// After the outcome of a signal that was asked for.
    pub open spec fn wake_sent(self, went_out: bool, now: u64) -> AppView {
        match self.wake {
            Some(w) if w.sending is Some => {
                let after = w.after_send(went_out, now);
                if w.sending == Some(WakeSend::Manual) {
                    self.waking(Some(after))
                } else {
                    self.waking(Some(after)).saying(after.home_text())
                }
            },
            _ => self,
        }
    }

    /// After the host has come back: its library is asked for.
    pub open spec fn wake_over(self, host: Seq<char>, port: u16, mgmt_port: Option<u16>) -> AppView {
        let s = self.waking(None).on(Screen::Home).host_selected(host, port, mgmt_port);
        match self.wake {
            Some(w) => s.saying(w.name + BACK_ONLINE@),
            None => s,
        }
    }

    /// After a tick in which no probe has found the host back.
    pub open spec fn wake_waited(self, w: WakeView, now: u64) -> AppView {
        let retry = w.retry_due(now);
        let w1 = if retry {
            WakeView { silent: false, sending: Some(WakeSend::Retry), ..w }
        } else {
            w
        };
        let s1 = if retry {
            self.asking(CommandView::SendWake { mac: w.mac, host: w.host, name: w.name })
        } else {
            self
        };
        let s2 = if retry && w.silent {
            s1.on(Screen::Wake)
        } else {
            s1
        };
        if w1.probe_due(now) {
            s2.waking(Some(WakeView { probing: true, last_probe: Some(now), ..w1 })).asking(
                CommandView::ProbeWake {
                    host: w.host,
                    port: w.port,
                    mgmt_port: port_or_default(
                        match host_at(self.hosts.known_hosts, w.host, w.port) {
                            Some(h) => h.mgmt_port,
                            None => None,
                        },
                    ),
                    fingerprint: fingerprint_of(self.hosts.known_hosts, w.host, w.port),
                },
            )
        } else {
            s2.waking(Some(w1))
        }
    }

    /// After one tick; `probe` is the answer of a probe that has just come in.
    pub open spec fn wake_ticked(self, now: u64, probe: Option<bool>) -> AppView {
        match self.wake {
            None => self,
            Some(w) => if w.probing && probe == Some(true) {
                self.wake_over(
                    w.host,
                    w.port,
                    match host_at(self.hosts.known_hosts, w.host, w.port) {
                        Some(h) => h.mgmt_port,
                        None => None,
                    },
                )
            } else if w.probing && probe == Some(false) {
                self.wake_waited(WakeView { probing: false, last_probe: Some(now), ..w }, now)
            } else {
                self.wake_waited(w, now)
            },
        }
    }

    /// After the prompt is closed: a wake that went out goes on unseen, another ends and leaves
    /// its reason behind.
    pub open spec fn wake_dismissed(self) -> AppView {
        match self.wake {
            Some(w) => if w.sent {
                self.on(Screen::Home).waking(Some(WakeView { silent: false, ..w })).saying(
                    WakeView { silent: false, ..w }.home_text(),
                )
            } else {
                self.on(Screen::Home).waking(None).saying(w.reason)
            },
            None => self.on(Screen::Home).silent(),
        }
    }

    /// After one event on the prompt.
    #[verifier::opaque]
    pub open spec fn wake_event(self, ev: MenuEvent, now: u64) -> AppView {
        match self.wake {
            None => self,
            Some(w) => if ev == MenuEvent::Back {
                self.wake_dismissed()
            } else if w.mac.len() == 0 {
                self
            } else {
                match ev {
                    MenuEvent::Up | MenuEvent::Down | MenuEvent::Left | MenuEvent::Right =>
                    self.waking(
                        Some(
                            WakeView {
                                focused: if w.focused == 0 {
                                    1
                                } else {
                                    0
                                },
                                ..w
                            },
                        ),
                    ).popped(now),
                    MenuEvent::Confirm => if w.focused == 0 {
                        self.waking(Some(WakeView { sending: Some(WakeSend::Manual), ..w })).asking(
                            CommandView::SendWake { mac: w.mac, host: w.host, name: w.name },
                        )
                    } else {
                        self.wake_dismissed()
                    },
                    _ => self,
                }
            },
        }
    }
}

/// The status line while the wait goes on without a prompt.
pub fn wake_home_status(wake: &WakeState) -> (r: String)
    ensures
        r@ == wake@.home_text(),
{
    if wake.attempts == 0 {
        wake.reason.clone()
    } else if wake.attempts == 1 {
        join3(SENT_HEAD, wake.name.as_str(), SENT_TAIL)
    } else {
        let mut s = join3(RESENT_HEAD, wake.name.as_str(), " (");
        push_decimal(&mut s, wake.attempts as u64);
        s.append(RESENT_TAIL);
        s
    }
}

/// The sentence on the prompt.
pub fn wake_status_text(wake: &WakeState) -> (r: String)
    ensures
        r@ == wake@.modal_text(),
{
    if wake.mac.len() == 0 {
        let mut s = wake.name.clone();
        s.append(NO_ADDRESS);
        s
    } else if wake.sent {
        join3(SENT_HEAD, wake.name.as_str(), SENT_MODAL_TAIL)
    } else {
        let mut s = wake.name.clone();
        s.append(NOT_RESPONDING);
        s
    }
}

/// The title of the prompt.
pub fn wake_title(wake: &WakeState) -> (r: &'static str)
    ensures
        r@ == wake@.title_text(),
{
    if wake.mac.len() == 0 {
        TITLE_UNREACHABLE
    } else if wake.sent {
        TITLE_WAKING
    } else {
        TITLE_ASK
    }
}

impl App {
    /// Enters the wake flow for a host that was found unreachable.
    pub fn start_wake(
        &mut self,
        host: String,
        port: u16,
        mac: Vec<String>,
        reason: String,
        now: u64,
    )
        ensures
            final(self)@ == old(self)@.wake_started(host@, port, views(mac@), reason@, now),
    {
        let (name, wol_auto) = match find_host(&self.hosts.known_hosts, host.as_str(), port) {
            Some(i) => (self.hosts.known_hosts[i].name.clone(), self.hosts.known_hosts[i].wol_auto),
            None => (host.clone(), false),
        };
        let auto = wol_auto && mac.len() > 0;
        if auto {
            self.outbox.push(
                Command::SendWake {
                    mac: clone_strings(&mac),
                    host: host.clone(),
                    name: name.clone(),
                },
            );
        } else {
            self.nav.screen = Screen::Wake;
        }
        self.wake = Some(
            WakeState {
                host,
                port,
                name,
                mac,
                reason,
                focused: 0,
                sent: false,
                attempts: 0,
                since: None,
                last_attempt: None,
                silent: auto,
                last_probe: Some(now),
                probing: false,
                sending: if auto {
                    Some(WakeSend::Auto)
                } else {
                    None
                },
            },
        );
    }

    /// Takes in whether a wake signal that was asked for went out.
    pub fn finish_wake_send(&mut self, went_out: bool, now: u64)
        requires
            old(self)@.wake matches Some(w) ==> w.attempts < u32::MAX,
        ensures
            final(self)@ == old(self)@.wake_sent(went_out, now),
    {
        match self.wake.take() {
            None => {},
            Some(mut wake) => {
                match wake.sending {
                    None => {},
                    Some(kind) => {
                        if went_out {
                            wake.sent = true;
                            wake.attempts = wake.attempts + 1;
                            if wake.since.is_none() {
                                wake.since = Some(now);
                            }
                        } else {
                            wake.reason = CANNOT_SEND.to_owned();
                        }
                        wake.last_attempt = Some(now);
                        wake.sending = None;
                        if kind != WakeSend::Manual {
                            self.home_status = Some(wake_home_status(&wake));
                        }
                    },
                }
                self.wake = Some(wake);
            },
        }
    }

    /// Ends a wake because the host is back.
    pub fn wake_succeeded(&mut self, host: String, port: u16, mgmt_port: Option<u16>)
        ensures
            final(self)@ == old(self)@.wake_over(host@, port, mgmt_port),
    {
        let taken = self.wake.take();
        self.nav.screen = Screen::Home;
        self.select_host(host, port, mgmt_port);
        match taken {
            Some(w) => {
                let mut s = w.name;
                s.append(BACK_ONLINE);
                self.home_status = Some(s);
            },
            None => {},
        }
    }

    /// Advances a wake that is under way, prompt or no prompt. `probe` is the answer of a probe
    /// that has just come in. Returns whether anything visible changed.
    pub fn tick_wake(&mut self, now: u64, probe: Option<bool>) -> (changed: bool)
        ensures
            final(self)@ == old(self)@.wake_ticked(now, probe),
            changed == (match old(self)@.wake {
                None => false,
                Some(w) => (w.probing && probe is Some) || w.retry_due(now),
            }),
    {
        let mut changed = false;
        let mut wake = match self.wake.take() {
            None => {
                return false;
            },
            Some(w) => w,
        };
        if wake.probing {
            match probe {
                Some(ok) => {
                    changed = true;
                    if ok {
                        let host = wake.host.clone();
                        let port: u16 = wake.port;
                        let mgmt_port = match find_host(&self.hosts.known_hosts, host.as_str(), port) {
                            Some(i) => self.hosts.known_hosts[i].mgmt_port,
                            None => None,
                        };
                        self.wake = Some(wake);
                        self.wake_succeeded(host, port, mgmt_port);
                        return true;
                    }
                    wake.probing = false;
                    wake.last_probe = Some(now);
                },
                None => {},
            }
        }
        let due = match wake.last_attempt {
            Some(t) => now.saturating_sub(t) >= WAKE_RETRY_INTERVAL && now >= t,
            None => false,
        };
        let retry = wake.mac.len() > 0 && wake.sent && wake.sending.is_none() && due;
        let reveal = retry && wake.silent;
        if retry {
            self.outbox.push(
                Command::SendWake {
                    mac: clone_strings(&wake.mac),
                    host: wake.host.clone(),
                    name: wake.name.clone(),
                },
            );
            wake.silent = false;
            wake.sending = Some(WakeSend::Retry);
            changed = true;
        }
        let probe_due = !wake.probing && (match wake.last_probe {
            Some(t) => now.saturating_sub(t) >= WAKE_PROBE_INTERVAL && now >= t,
            None => false,
        });
        if probe_due {
            let (mgmt, fingerprint) = match find_host(
                &self.hosts.known_hosts,
                wake.host.as_str(),
                wake.port,
            ) {
                Some(i) => (self.hosts.known_hosts[i].mgmt_port, self.hosts.known_hosts[i].fingerprint),
                None => (None, None),
            };
            self.outbox.push(
                Command::ProbeWake {
                    host: wake.host.clone(),
                    port: wake.port,
                    mgmt_port: or_default(mgmt),
                    fingerprint,
                },
            );
            wake.probing = true;
            wake.last_probe = Some(now);
        }
        if reveal {
            self.nav.screen = Screen::Wake;
        }
        self.wake = Some(wake);
        changed
    }

    /// Closes the prompt.
    pub fn dismiss_wake(&mut self)
        ensures
            final(self)@ == old(self)@.wake_dismissed(),
    {
        self.nav.screen = Screen::Home;
        match self.wake.take() {
            Some(mut wake) => {
                if wake.sent {
                    wake.silent = false;
                    self.home_status = Some(wake_home_status(&wake));
                    self.wake = Some(wake);
                } else {
                    self.home_status = Some(wake.reason);
                }
            },
            None => {
                self.home_status = None;
            },
        }
    }

    /// Handles one event on the prompt.
    pub fn handle_wake_event(&mut self, ev: MenuEvent, now: u64)
        ensures
            final(self)@ == old(self)@.wake_event(ev, now),
    {
        proof {
            reveal(AppView::wake_event);
        }
        if self.wake.is_none() {
            return ;
        }
        if ev == MenuEvent::Back {
            self.dismiss_wake();
            return ;
        }
        let mut wake = match self.wake.take() {
            None => {
                return ;
            },
            Some(w) => w,
        };
        if wake.mac.len() == 0 {
            self.wake = Some(wake);
            return ;
        }
        match ev {
            MenuEvent::Up | MenuEvent::Down | MenuEvent::Left | MenuEvent::Right => {
                wake.focused = if wake.focused == 0 {
                    1
                } else {
                    0
                };
                self.nav.modal_focus_anim = Some(now);
                self.wake = Some(wake);
            },
            MenuEvent::Confirm => {
                if wake.focused == 0 {
                    self.outbox.push(
                        Command::SendWake {
                            mac: clone_strings(&wake.mac),
                            host: wake.host.clone(),
                            name: wake.name.clone(),
                        },
                    );
                    wake.sending = Some(WakeSend::Manual);
                    self.wake = Some(wake);
                } else {
                    self.wake = Some(wake);
                    self.dismiss_wake();
                }
            },
            MenuEvent::Back | MenuEvent::Secondary => {
                self.wake = Some(wake);
            },
        }
    }
}

/// No tick sends a first signal: until one has gone out, ticks ask for none.
pub proof fn law_ticks_only_resend(s: AppView, now: u64, probe: Option<bool>)
    requires
        s.wake matches Some(w) && !w.sent,
        probe != Some(true),
    ensures
        forall|i: int|
            s.outbox.len() <= i < s.wake_ticked(now, probe).outbox.len() ==> !(
            #[trigger] s.wake_ticked(now, probe).outbox[i] is SendWake),
{
}

/// A silent wait is revealed at most once: after the tick that reveals it, it is no longer silent.
pub proof fn law_revealed_once(s: AppView, now: u64, probe: Option<bool>, later: u64)
    requires
        s.wake is Some,
        s.nav.screen != Screen::Wake,
        s.wake_ticked(now, probe).nav.screen == Screen::Wake,
    ensures
        s.wake_ticked(now, probe).wake matches Some(w) && !w.silent,
{
}

/// Backing out of a prompt before anything was sent shows the error that led there.
pub proof fn law_backing_out_shows_reason(s: AppView, now: u64)
    requires
        s.wake matches Some(w) && !w.sent,
    ensures
        s.wake_event(MenuEvent::Back, now).wake is None,
        s.wake_event(MenuEvent::Back, now).home_status == Some(s.wake->0.reason),
        s.wake_event(MenuEvent::Back, now).nav.screen == Screen::Home,
{
    reveal(AppView::wake_event);
}

/// Dismissing a prompt after a signal went out leaves the wake running, and no later tick brings
/// the prompt back.
pub proof fn law_dismissed_stays_down(s: AppView, now: u64, later: u64, probe: Option<bool>)
    requires
        s.wake matches Some(w) && w.sent,
    ensures
        s.wake_event(MenuEvent::Back, now).wake is Some,
        s.wake_event(MenuEvent::Back, now).wake_ticked(later, probe).nav.screen == Screen::Home,
{
    reveal(AppView::wake_event);
}

/// A host that does not answer is woken at once where it is set so and an address is on record:
/// the signal goes to those addresses and no screen opens. Else the user is asked, and nothing is
/// sent before they answer.
pub proof fn law_wake_begins_as_set(
    s: AppView,
    host: Seq<char>,
    port: u16,
    mac: Seq<Seq<char>>,
    reason: Seq<char>,
    now: u64,
)
    ensures
        ({
            let t = s.wake_started(host, port, mac, reason, now);
            let known = host_at(s.hosts.known_hosts, host, port);
            let auto = known is Some && known->0.wol_auto && mac.len() > 0;
            let name = match known {
                Some(k) => k.name,
                None => host,
            };
            &&& t.wake matches Some(w) && {
                &&& w.host == host && w.port == port && w.mac == mac && w.reason == reason
                &&& w.name == name && w.focused == 0
                &&& !w.sent && w.attempts == 0 && !w.probing && w.silent == auto
                &&& w.last_probe == Some(now) && w.last_attempt is None && w.since is None
                &&& w.sending == if auto {
                    Some(WakeSend::Auto)
                } else {
                    None
                }
            }
            &&& auto ==> t.nav == s.nav && t.outbox == s.outbox.push(
                CommandView::SendWake { mac, host, name },
            )
            &&& !auto ==> t.nav.screen == Screen::Wake && t.outbox == s.outbox
            &&& t.hosts == s.hosts && t.shelf == s.shelf
        }),
{
}

/// Confirm on the prompt sends a signal to the host's own addresses where the first button is
/// focused, and closes the prompt where the second is; a direction goes to the other button.
/// Nothing can be sent to a host without an address.
pub proof fn law_wake_prompt_answers(s: AppView, ev: MenuEvent, now: u64)
    requires
        s.wake is Some,
    ensures
        ({
            let w = s.wake->0;
            let t = s.wake_event(ev, now);
            let direction = ev == MenuEvent::Up || ev == MenuEvent::Down || ev == MenuEvent::Left
                || ev == MenuEvent::Right;
            &&& w.mac.len() == 0 && ev != MenuEvent::Back ==> t == s
            &&& w.mac.len() > 0 && ev == MenuEvent::Confirm && w.focused == 0 ==> t.outbox
                == s.outbox.push(
                CommandView::SendWake { mac: w.mac, host: w.host, name: w.name },
            ) && t.nav == s.nav && (t.wake matches Some(x) && x.sending == Some(WakeSend::Manual)
                && x.host == w.host && x.mac == w.mac)
            &&& w.mac.len() > 0 && ev == MenuEvent::Confirm && w.focused != 0 ==> t
                == s.wake_event(MenuEvent::Back, now)
            &&& w.mac.len() > 0 && direction ==> (t.wake matches Some(x) && x.focused == if w.focused
                == 0 {
                1int
            } else {
                0int
            }) && t.outbox == s.outbox && t.nav.screen == s.nav.screen
            &&& !(ev == MenuEvent::Confirm && w.focused == 0) ==> t.outbox == s.outbox
        }),
{
    reveal(AppView::wake_event);
}

/// A signal that went out is counted and timed; one that did not is told of and counts for
/// nothing. Either way none is on its way any more, and without one on its way nothing is noted.
pub proof fn law_sent_signal_counts(s: AppView, went_out: bool, now: u64)
    ensures
        s.wake is None ==> s.wake_sent(went_out, now) == s,
        s.wake matches Some(w) ==> (w.sending is None ==> s.wake_sent(went_out, now) == s) && (
        w.sending is Some && w.attempts < u32::MAX ==> (s.wake_sent(went_out, now).wake matches Some(
            x,
        ) && {
            &&& x.sending is None && x.last_attempt == Some(now)
            &&& x.host == w.host && x.port == w.port && x.mac == w.mac && x.name == w.name
            &&& x.silent == w.silent && x.probing == w.probing && x.last_probe == w.last_probe
            &&& went_out ==> x.sent && x.attempts == w.attempts + 1 && x.reason == w.reason
                && x.since == (if w.since is Some {
                w.since
            } else {
                Some(now)
            })
            &&& !went_out ==> x.sent == w.sent && x.attempts == w.attempts && x.since == w.since
                && x.reason == CANNOT_SEND@
        })),
        s.wake_sent(went_out, now).outbox == s.outbox,
        s.wake_sent(went_out, now).nav == s.nav,
{
}

/// A tick sends the signal again a minute after the last one, to the host's own addresses, and
/// looks whether the host is back ten seconds after the last look; a wait that was silent until
/// then is shown. Otherwise it asks for nothing.
pub proof fn law_ticks_resend_and_probe(s: AppView, now: u64)
    requires
        s.wake is Some,
    ensures
        ({
            let w = s.wake->0;
            let t = s.wake_ticked(now, None);
            let resend = w.mac.len() > 0 && w.sent && w.sending is None && (w.last_attempt matches Some(
                at,
            ) && now >= at + 60_000);
            let look = !w.probing && (w.last_probe matches Some(at) && now >= at + 10_000);
            let known = host_at(s.hosts.known_hosts, w.host, w.port);
            let n = s.outbox.len() as int;
            let m = n + if resend {
                1int
            } else {
                0int
            };
            &&& t.outbox.len() == m + if look {
                1int
            } else {
                0int
            }
            &&& resend ==> t.outbox[n] == CommandView::SendWake {
                mac: w.mac,
                host: w.host,
                name: w.name,
            }
            &&& look ==> (t.outbox[m] matches CommandView::ProbeWake {
                host,
                port,
                mgmt_port,
                fingerprint,
            } && host == w.host && port == w.port && mgmt_port == (match known {
                Some(k) => match k.mgmt_port {
                    Some(p) => p,
                    None => 47990,
                },
                None => 47990,
            }) && fingerprint == (match known {
                Some(k) => k.fingerprint,
                None => None,
            }))
            &&& t.wake matches Some(x) && {
                &&& x.probing == (w.probing || look)
                &&& look ==> x.last_probe == Some(now)
                &&& resend ==> x.sending == Some(WakeSend::Retry) && !x.silent
                &&& x.host == w.host && x.port == w.port && x.mac == w.mac && x.sent == w.sent
                &&& x.attempts == w.attempts
            }
            &&& (t.nav.screen == Screen::Wake) == (s.nav.screen == Screen::Wake || (resend
                && w.silent))
        }),
{
}

/// A probe that finds the host back ends the wake: the host is selected, its library is asked for,
/// the menu is at Home, and says so. One that does not lets the wait go on.
pub proof fn law_answer_ends_the_wake(s: AppView, now: u64)
    requires
        s.wake matches Some(w) && w.probing,
    ensures
        ({
            let w = s.wake->0;
            let t = s.wake_ticked(now, Some(true));
            let u = s.wake_ticked(now, Some(false));
            &&& t.wake is None
            &&& t.nav.screen == Screen::Home
            &&& t.hosts.selected_host == Some((w.host, w.port))
            &&& t.outbox.len() == s.outbox.len() + 3 && t.outbox.last() is FetchGames
            &&& t.outbox.last()->FetchGames_host == w.host && t.outbox.last()->FetchGames_port
                == w.port
            &&& t.home_status == Some(w.name + " is back online — loading its library…"@)
            &&& u.wake matches Some(x) && !x.probing && x.last_probe == Some(now)
            &&& u.hosts == s.hosts
        }),
{
}

/// What the prompt says follows from whether an address is on record and a signal went out; the
/// status line, from how many did.
pub proof fn law_wake_says_how_it_stands(w: WakeView)
    ensures
        (w.title_text() == "Host unreachable"@ && w.modal_text() == w.name + NO_ADDRESS@) || w.mac.len()
            > 0,
        w.mac.len() > 0 && w.sent ==> w.title_text() == "Waking host…"@ && w.modal_text()
            == "Wake signal sent to "@ + w.name + ". Waiting for it to come back online…"@,
        w.mac.len() > 0 && !w.sent ==> w.title_text() == "Wake this host?"@ && w.modal_text()
            == w.name + " isn't responding. It may be powered off or asleep."@,
        w.attempts == 0 ==> w.home_text() == w.reason,
        w.attempts == 1 ==> w.home_text() == "Wake signal sent to "@ + w.name
            + " — waiting for it to come back online…"@,
        w.attempts > 1 ==> w.home_text() == "Wake signal re-sent to "@ + w.name + " ("@ + decimal(
            w.attempts as nat,
        ) + " attempts) — still waiting for it to come back online…"@,
{
}

/// A signal that was sent by itself is told on Home, as the wake then stands; one that was asked
/// for in the prompt is told there alone.
pub proof fn law_own_signal_is_told_on_home(s: AppView, went_out: bool, now: u64)
    requires
        s.wake is Some,
        s.wake->0.sending is Some,
    ensures
        ({
            let t = s.wake_sent(went_out, now);
            &&& t.wake is Some
            &&& s.wake->0.sending->0 is Manual ==> t.home_status == s.home_status
            &&& !(s.wake->0.sending->0 is Manual) ==> t.home_status == Some(t.wake->0.home_text())
        }),
{
}

/// Closing the prompt leads Home. A wake whose signal went out goes on and is told there; another
/// ends, and what it was for is told.
pub proof fn law_closed_prompt_leaves_the_wake_told(s: AppView)
    ensures
        ({
            let t = s.wake_dismissed();
            &&& t.nav.screen is Home
            &&& t.outbox == s.outbox
            &&& s.wake is None ==> t.wake is None && t.home_status is None
            &&& s.wake matches Some(w) ==> (w.sent ==> (t.wake matches Some(x) && x
                == (WakeView { silent: false, ..w }) && t.home_status == Some(x.home_text()))) && (
            !w.sent ==> t.wake is None && t.home_status == Some(w.reason))
        }),
{
}

} // verus!
