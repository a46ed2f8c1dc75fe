//! Measuring the bandwidth to one host.
use vstd::prelude::*;

use crate::app::launch::{fingerprint_of, host_fingerprint};
use crate::app::{
    App, AppView, Command, CommandView, Prefs, ProbeOutcome, Screen, Settings, SpeedTestState,
    SpeedTestView, SpeedView,
};
use crate::model::event::MenuEvent;
use crate::text::{decimal, join3, push_decimal};

verus! {

broadcast use crate::seqs::group_views;

/// Below this, too little got through to recommend anything.
pub const MIN_USEFUL_KBPS: u32 = 2000;

/// Seconds that a measurement may take.
pub const SPEED_TEST_TIMEOUT_SECS: u64 = 20;

/// The range of the bitrate setting.
#[derive(Clone, Copy, Debug)]
pub struct BitrateRange {
    pub min_kbps: u32,
    pub max_kbps: u32,
}

/// The bitrate recommended for a measurement: seven tenths of it, in whole megabits, within the
/// range of the setting; none where too little got through.
pub open spec fn recommended(outcome: ProbeOutcome, range: BitrateRange) -> Option<u32> {
    if outcome.throughput_kbps < MIN_USEFUL_KBPS {
        None
    } else {
        let raw = outcome.throughput_kbps as int / 10 * 7;
        let whole = (if raw / 1000 < 1 {
            1
        } else {
            raw / 1000
        }) * 1000;
        Some(
            (if whole < range.min_kbps {
                range.min_kbps as int
            } else if whole > range.max_kbps {
                range.max_kbps as int
            } else {
                whole
            }) as u32,
        )
    }
}

/// The bitrate recommended for a measurement.
pub fn recommended_kbps(outcome: &ProbeOutcome, range: &BitrateRange) -> (r: Option<u32>)
    ensures
        r == recommended(*outcome, *range),
{
    if outcome.throughput_kbps < MIN_USEFUL_KBPS {
        return None;
    }
    let raw: u32 = outcome.throughput_kbps / 10 * 7;
    let mbps: u32 = raw / 1000;
    let whole: u32 = if mbps < 1 {
        1000
    } else {
        mbps * 1000
    };
    if whole < range.min_kbps {
        Some(range.min_kbps)
    } else if whole > range.max_kbps {
        Some(range.max_kbps)
    } else {
        Some(whole)
    }
}

/// What is recommended can be set, and never asks for more than was measured unless the setting
/// starts above that.
pub proof fn law_recommended_in_range(outcome: ProbeOutcome, range: BitrateRange)
    requires
        range.min_kbps <= range.max_kbps,
        recommended(outcome, range) is Some,
    ensures
        range.min_kbps <= recommended(outcome, range)->0 <= range.max_kbps,
        recommended(outcome, range)->0 <= outcome.throughput_kbps || recommended(outcome, range)->0
            == range.min_kbps,
{
}

pub const RETRY: &'static str = "Retry";

pub const USE_HEAD: &'static str = "Use ";

pub const USE_TAIL: &'static str = " Mbps";

/// The label of the first button.
pub open spec fn apply_text(recommended: Option<u32>) -> Seq<char> {
    match recommended {
        None => RETRY@,
        Some(kbps) => USE_HEAD@ + decimal((kbps / 1000) as nat) + USE_TAIL@,
    }
}

/// The label of the first button.
pub fn speed_test_apply_label(recommended: Option<u32>) -> (r: String)
    ensures
        r@ == apply_text(recommended),
{
    match recommended {
        None => RETRY.to_owned(),
        Some(kbps) => {
            let mut s = USE_HEAD.to_owned();
            push_decimal(&mut s, (kbps / 1000) as u64);
            s.append(USE_TAIL);
            s
        },
    }
}

/// News of a measurement.
#[derive(Debug)]
pub enum SpeedTestMsg {
    Progress(ProbeOutcome),
    Done { outcome: ProbeOutcome, confirmed: bool },
    Failed(String),
}

impl SpeedView {
    /// Whether the measurement has ended, well or badly.
    pub open spec fn ended(self) -> bool {
        self.speed_test matches Some(t) && (t is Done || t is Failed)
    }

    /// What is recommended, once there is something to go by.
    pub open spec fn advice(self, range: BitrateRange) -> Option<u32> {
        match self.speed_test {
            Some(SpeedTestView::Done { outcome, .. }) => recommended(outcome, range),
            _ => None,
        }
    }

    /// After one piece of news.
    pub open spec fn told(self, msg: SpeedTestMsg) -> SpeedView {
        match msg {
            SpeedTestMsg::Progress(p) => SpeedView {
                speed_test: Some(SpeedTestView::Measuring { partial: Some(p) }),
                ..self
            },
            SpeedTestMsg::Done { outcome, confirmed } => SpeedView {
                speed_test: Some(SpeedTestView::Done { outcome, confirmed }),
                speed_test_focused: 0,
                speed_test_running: false,
                ..self
            },
            SpeedTestMsg::Failed(e) => SpeedView {
                speed_test: Some(SpeedTestView::Failed(e@)),
                speed_test_running: false,
                ..self
            },
        }
    }

    /// After the news of one tick: what follows the end of a measurement is not heard.
    pub open spec fn told_all(self, msgs: Seq<SpeedTestMsg>) -> SpeedView
        decreases msgs.len(),
    {
        if msgs.len() == 0 || !self.speed_test_running {
            self
        } else {
            self.told(msgs[0]).told_all(msgs.drop_first())
        }
    }
}

impl AppView {
    /// The same state with the measurement like this.
    pub open spec fn speed_as(self, speed: SpeedView) -> AppView {
        AppView { speed, ..self }
    }

    /// After starting a measurement to the host in row `idx`.
    pub open spec fn speed_test_opened(self, idx: int) -> AppView {
        if 0 <= idx < self.hosts.entries.len() {
            let e = self.hosts.entries[idx];
            self.speed_as(
                SpeedView {
                    speed_test: Some(SpeedTestView::Connecting),
                    speed_test_running: true,
                    speed_test_focused: 0,
                    speed_test_name: e.name(),
                },
            ).on(Screen::SpeedTest).asking(
                CommandView::StartSpeedTest {
                    host: e.host(),
                    port: e.port(),
                    fingerprint: fingerprint_of(self.hosts.known_hosts, e.host(), e.port()),
                },
            )
        } else {
            self
        }
    }

    /// After leaving the screen; a measurement that is under way is abandoned.
    pub open spec fn speed_test_closed(self) -> AppView {
        self.speed_as(
            SpeedView { speed_test: None, speed_test_running: false, ..self.speed },
        ).asking(CommandView::CancelSpeedTest).back_at_menu()
    }

    /// After one event on the screen.
    #[verifier::opaque]
    pub open spec fn speed_test_event(self, ev: MenuEvent, now: u64, range: BitrateRange) -> AppView {
        if ev == MenuEvent::Back {
            self.speed_test_closed()
        } else if !self.speed.ended() {
            self
        } else {
            match ev {
                MenuEvent::Left | MenuEvent::Right => self.speed_as(
                    SpeedView {
                        speed_test_focused: (1 - self.speed.speed_test_focused) as usize,
                        ..self.speed
                    },
                ).popped(now),
                MenuEvent::Confirm => if self.speed.speed_test_focused != 0 {
                    self.speed_test_closed()
                } else {
                    match self.speed.advice(range) {
                        Some(kbps) => AppView {
                            prefs: Prefs {
                                settings: Settings { bitrate_kbps: kbps, ..self.prefs.settings },
                                ..self.prefs
                            },
                            ..self
                        }.asking(CommandView::SaveSettings).speed_test_closed(),
                        None => match self.menu.host_menu_index {
                            Some(idx) => self.speed_test_opened(idx as int),
                            None => self.speed_test_closed(),
                        },
                    }
                },
                _ => self,
            }
        }
    }
}

impl App {
    /// Opens the screen for row `idx` and starts measuring.
    pub fn open_speed_test(&mut self, idx: usize)
        ensures
            final(self)@ == old(self)@.speed_test_opened(idx as int),
    {
        if idx >= self.hosts.entries.len() {
            return ;
        }
        let host = self.hosts.entries[idx].host();
        let port: u16 = self.hosts.entries[idx].port();
        let name = self.hosts.entries[idx].name();
        let fingerprint = host_fingerprint(&self.hosts.known_hosts, host.as_str(), port);
        self.speed.speed_test_name = name;
        self.speed.speed_test = Some(SpeedTestState::Connecting);
        self.speed.speed_test_focused = 0;
        self.speed.speed_test_running = true;
        self.nav.screen = Screen::SpeedTest;
        self.outbox.push(Command::StartSpeedTest { host, port, fingerprint });
    }

    /// Takes in the news of one tick. Returns whether there was any.
    pub fn drain_speed_test(&mut self, msgs: Vec<SpeedTestMsg>) -> (changed: bool)
        ensures
            changed == (old(self)@.speed.speed_test_running && msgs@.len() > 0),
            final(self)@ == old(self)@.speed_as(old(self)@.speed.told_all(msgs@)),
    {
        let ghost all = msgs@;
        let mut msgs = msgs;
        let changed = self.speed.speed_test_running && msgs.len() > 0;
        while self.speed.speed_test_running && msgs.len() > 0
            invariant
                self@ == old(self)@.speed_as(self@.speed),
                self@.speed.told_all(msgs@) == old(self)@.speed.told_all(all),
            decreases msgs.len(),
        {
            let ghost before = msgs@;
            let msg = msgs.remove(0);
            proof {
                assert(msgs@ =~= before.drop_first());
            }
            match msg {
                SpeedTestMsg::Progress(p) => {
                    self.speed.speed_test = Some(SpeedTestState::Measuring { partial: Some(p) });
                },
                SpeedTestMsg::Done { outcome, confirmed } => {
                    self.speed.speed_test = Some(SpeedTestState::Done { outcome, confirmed });
                    self.speed.speed_test_focused = 0;
                    self.speed.speed_test_running = false;
                },
                SpeedTestMsg::Failed(e) => {
                    self.speed.speed_test = Some(SpeedTestState::Failed(e));
                    self.speed.speed_test_running = false;
                },
            }
        }
        changed
    }

    /// Whether the measurement has ended.
    pub fn speed_test_ended(&self) -> (r: bool)
        ensures
            r == self@.speed.ended(),
    {
        match &self.speed.speed_test {
            Some(SpeedTestState::Done { .. }) => true,
            Some(SpeedTestState::Failed(_)) => true,
            _ => false,
        }
    }

    /// What is recommended.
    pub fn speed_test_advice(&self, range: &BitrateRange) -> (r: Option<u32>)
        ensures
            r == self@.speed.advice(*range),
    {
        match &self.speed.speed_test {
            Some(SpeedTestState::Done { outcome, .. }) => recommended_kbps(outcome, range),
            _ => None,
        }
    }

    /// Leaves the screen.
    pub fn close_speed_test(&mut self)
        ensures
            final(self)@ == old(self)@.speed_test_closed(),
    {
        self.speed.speed_test = None;
        self.speed.speed_test_running = false;
        self.outbox.push(Command::CancelSpeedTest);
        self.back_to_host_menu();
    }

    /// Measures again.
    pub fn retry_speed_test(&mut self)
        ensures
            final(self)@ == (match old(self)@.menu.host_menu_index {
                Some(idx) => old(self)@.speed_test_opened(idx as int),
                None => old(self)@.speed_test_closed(),
            }),
    {
        match self.menu.host_menu_index {
            Some(idx) => {
                self.open_speed_test(idx);
            },
            None => {
                self.close_speed_test();
            },
        }
    }

    /// Handles one event on the screen.
    pub fn handle_speed_test_event(&mut self, ev: MenuEvent, now: u64, range: &BitrateRange)
        requires
            old(self)@.speed.speed_test_focused <= 1,
        ensures
            final(self)@ == old(self)@.speed_test_event(ev, now, *range),
    {
        proof {
            reveal(AppView::speed_test_event);
        }
        if ev == MenuEvent::Back {
            self.close_speed_test();
            return ;
        }
        if !self.speed_test_ended() {
            return ;
        }
        match ev {
            MenuEvent::Left | MenuEvent::Right => {
                self.speed.speed_test_focused = 1 - self.speed.speed_test_focused;
                self.nav.modal_focus_anim = Some(now);
            },
            MenuEvent::Confirm => {
                if self.speed.speed_test_focused != 0 {
                    self.close_speed_test();
                    return ;
                }
                match self.speed_test_advice(range) {
                    Some(kbps) => {
                        self.prefs.settings.bitrate_kbps = kbps;
                        self.outbox.push(Command::SaveSettings);
                        self.close_speed_test();
                    },
                    None => {
                        self.retry_speed_test();
                    },
                }
            },
            _ => {},
        }
    }
}

pub const CONNECTING_HEAD: &'static str = "Connecting to ";

pub const CONNECTING_TAIL: &'static str = "…";

pub const MEASURING_HEAD: &'static str = "Measuring";

pub const MEASURING_TAIL: &'static str = " over the real data plane…";

pub const SO_FAR_HEAD: &'static str = " — ";

pub const SO_FAR_TAIL: &'static str = " MB in";

pub const UNFIT_HEAD: &'static str = "(";

pub const UNFIT_TAIL: &'static str = "% of the deliberately over-capacity test burst didn't fit — that's how the ceiling is found)";

pub const UNCONFIRMED: &'static str = "(the host's own report didn't make it back, so this is measured from what arrived here — treat it as a floor)";

pub const DELIVERED: &'static str = " Mbps delivered · ";

pub const RECEIVED: &'static str = " MB in ";

pub const TOOK: &'static str = " ms\n";

pub const ADVICE_HEAD: &'static str = "\n\nRecommended bitrate ";

pub const ADVICE_TAIL: &'static str = " Mbps (~70% of measured, leaving headroom for FEC and loss). This measures what this TV can actually receive and decrypt, not raw link speed.";

pub const NO_ADVICE: &'static str = "\n\nToo little got through to recommend a bitrate. If the host reported bytes sent but none arrived, the path is dropping them; if it sent none at all, it may not support the probe. The app log has both figures.";

pub const UNMEASURED: &'static str = "Couldn't measure: ";

/// Whole mebibytes.
pub open spec fn mebibytes(bytes: u64) -> nat {
    (bytes / 1048576) as nat
}

/// What is said of a burst: how much of it did not fit, or that the host never reported.
pub open spec fn burst_text(outcome: ProbeOutcome, confirmed: bool) -> Seq<char> {
    if confirmed {
        UNFIT_HEAD@ + decimal(outcome.loss_pct as nat) + UNFIT_TAIL@
    } else {
        UNCONFIRMED@
    }
}

/// What was measured, in figures.
pub open spec fn figures_text(outcome: ProbeOutcome) -> Seq<char> {
    decimal((outcome.throughput_kbps / 1000) as nat) + DELIVERED@ + decimal(
        mebibytes(outcome.recv_bytes),
    ) + RECEIVED@ + decimal(outcome.elapsed_ms as nat) + TOOK@
}

/// What to do with a measurement.
pub open spec fn advice_text(advice: Option<u32>) -> Seq<char> {
    match advice {
        Some(kbps) => ADVICE_HEAD@ + decimal((kbps / 1000) as nat) + ADVICE_TAIL@,
        None => NO_ADVICE@,
    }
}

/// How much has come in so far; nothing is said while that is nothing.
pub open spec fn so_far_text(partial: Option<ProbeOutcome>) -> Seq<char> {
    match partial {
        Some(p) => if p.recv_bytes > 0 {
            SO_FAR_HEAD@ + decimal(mebibytes(p.recv_bytes)) + SO_FAR_TAIL@
        } else {
            seq![]
        },
        None => seq![],
    }
}

/// The text of a measurement that has ended.
pub open spec fn done_text(outcome: ProbeOutcome, confirmed: bool, range: BitrateRange) -> Seq<
    char,
> {
    figures_text(outcome) + burst_text(outcome, confirmed) + advice_text(
        recommended(outcome, range),
    )
}

impl SpeedView {
    /// The sentence for the phase that the measurement is in.
    pub open spec fn status_text(self, range: BitrateRange) -> Seq<char> {
        match self.speed_test {
            None | Some(SpeedTestView::Connecting) => CONNECTING_HEAD@ + self.speed_test_name
                + CONNECTING_TAIL@,
            Some(SpeedTestView::Measuring { partial }) => MEASURING_HEAD@ + so_far_text(partial)
                + MEASURING_TAIL@,
            Some(SpeedTestView::Done { outcome, confirmed }) => done_text(
                outcome,
                confirmed,
                range,
            ),
            Some(SpeedTestView::Failed(e)) => UNMEASURED@ + e,
        }
    }
}

fn push_figures(out: &mut String, outcome: &ProbeOutcome)
    ensures
        final(out)@ == old(out)@ + figures_text(*outcome),
{
    push_decimal(out, (outcome.throughput_kbps / 1000) as u64);
    out.append(DELIVERED);
    push_decimal(out, outcome.recv_bytes / 1048576);
    out.append(RECEIVED);
    push_decimal(out, outcome.elapsed_ms as u64);
    out.append(TOOK);
    assert(out@ =~= old(out)@ + figures_text(*outcome));
}

fn push_burst(out: &mut String, outcome: &ProbeOutcome, confirmed: bool)
    ensures
        final(out)@ == old(out)@ + burst_text(*outcome, confirmed),
{
    if confirmed {
        out.append(UNFIT_HEAD);
        push_decimal(out, outcome.loss_pct as u64);
        out.append(UNFIT_TAIL);
        assert(out@ =~= old(out)@ + burst_text(*outcome, confirmed));
    } else {
        out.append(UNCONFIRMED);
    }
}

fn push_advice(out: &mut String, advice: Option<u32>)
    ensures
        final(out)@ == old(out)@ + advice_text(advice),
{
    match advice {
        Some(kbps) => {
            out.append(ADVICE_HEAD);
            push_decimal(out, (kbps / 1000) as u64);
            out.append(ADVICE_TAIL);
            assert(out@ =~= old(out)@ + advice_text(advice));
        },
        None => {
            out.append(NO_ADVICE);
        },
    }
}

fn push_so_far(out: &mut String, partial: &Option<ProbeOutcome>)
    ensures
        final(out)@ == old(out)@ + so_far_text(*partial),
{
    match partial {
        Some(p) => if p.recv_bytes > 0 {
            out.append(SO_FAR_HEAD);
            push_decimal(out, p.recv_bytes / 1048576);
            out.append(SO_FAR_TAIL);
            assert(out@ =~= old(out)@ + so_far_text(*partial));
        },
        None => {},
    }
    assert(out@ =~= old(out)@ + so_far_text(*partial));
}

impl App {
    /// The sentence for the phase that the measurement is in.
    pub fn speed_test_status(&self, range: &BitrateRange) -> (r: String)
        ensures
            r@ == self@.speed.status_text(*range),
    {
        match &self.speed.speed_test {
            None | Some(SpeedTestState::Connecting) => join3(
                CONNECTING_HEAD,
                self.speed.speed_test_name.as_str(),
                CONNECTING_TAIL,
            ),
            Some(SpeedTestState::Measuring { partial }) => {
                let mut s = MEASURING_HEAD.to_owned();
                push_so_far(&mut s, partial);
                s.append(MEASURING_TAIL);
                s
            },
            Some(SpeedTestState::Done { outcome, confirmed }) => {
                let mut s = String::new();
                push_figures(&mut s, outcome);
                push_burst(&mut s, outcome, *confirmed);
                push_advice(&mut s, recommended_kbps(outcome, range));
                assert(s@ =~= done_text(*outcome, *confirmed, *range));
                s
            },
            Some(SpeedTestState::Failed(e)) => {
                let mut s = UNMEASURED.to_owned();
                s.append(e.as_str());
                s
            },
        }
    }
}

/// The bitrate recommended is seven tenths of what was measured, rounded down to whole megabits
/// and brought into the range of the setting; below two megabits nothing is recommended.
pub proof fn law_seven_tenths_are_recommended(outcome: ProbeOutcome, range: BitrateRange)
    requires
        range.min_kbps <= range.max_kbps,
    ensures
        (recommended(outcome, range) is None) == (outcome.throughput_kbps < 2000),
        recommended(outcome, range) matches Some(kbps) ==> {
            let measured = outcome.throughput_kbps as int;
            &&& range.min_kbps < kbps < range.max_kbps ==> kbps % 1000 == 0 && 10 * kbps <= 7
                * measured < 10 * kbps + 10_070
            &&& kbps == range.min_kbps && kbps < range.max_kbps ==> 7 * measured < 10 * kbps + 10_070
            &&& kbps == range.max_kbps && kbps > range.min_kbps ==> 7 * measured >= 10 * kbps
        },
{
}

/// A measurement is started to the host of the row that it was asked for, by the fingerprint on
/// record.
pub proof fn law_measurement_goes_to_its_row(s: AppView, idx: int)
    ensures
        0 <= idx < s.hosts.entries.len() ==> {
            let e = s.hosts.entries[idx];
            let t = s.speed_test_opened(idx);
            &&& t.nav.screen == Screen::SpeedTest
            &&& t.speed.speed_test == Some(SpeedTestView::Connecting) && t.speed.speed_test_running
            &&& t.speed.speed_test_name == e.name() && t.speed.speed_test_focused == 0
            &&& t.outbox.len() == s.outbox.len() + 1
            &&& t.outbox.last() matches CommandView::StartSpeedTest { host, port, fingerprint }
                && host == e.host() && port == e.port() && fingerprint == (match crate::store::host_at(
                s.hosts.known_hosts,
                e.host(),
                e.port(),
            ) {
                Some(k) => k.fingerprint,
                None => None,
            })
            &&& t.prefs == s.prefs && t.hosts == s.hosts
        },
        !(0 <= idx < s.hosts.entries.len()) ==> s.speed_test_opened(idx) == s,
{
}

/// What is said of a measurement is what it told last: how far it is, its result, or why it
/// failed. It runs until one of the latter two.
pub proof fn law_last_news_stand(v: SpeedView, msg: SpeedTestMsg)
    ensures
        ({
            let t = v.told(msg);
            &&& match msg {
                SpeedTestMsg::Progress(p) => t.speed_test == Some(
                    SpeedTestView::Measuring { partial: Some(p) },
                ) && t.speed_test_running == v.speed_test_running && t.speed_test_focused
                    == v.speed_test_focused,
                SpeedTestMsg::Done { outcome, confirmed } => t.speed_test == Some(
                    SpeedTestView::Done { outcome, confirmed },
                ) && !t.speed_test_running && t.speed_test_focused == 0,
                SpeedTestMsg::Failed(e) => t.speed_test == Some(SpeedTestView::Failed(e@))
                    && !t.speed_test_running,
            }
            &&& t.speed_test_name == v.speed_test_name
            &&& t.ended() == (msg is Done || msg is Failed)
        }),
{
}

/// News are heard one after the other while the measurement runs, and no more once it has ended.
pub proof fn law_news_are_heard_in_turn(v: SpeedView, msgs: Seq<SpeedTestMsg>)
    ensures
        !v.speed_test_running ==> v.told_all(msgs) == v,
        msgs.len() == 0 ==> v.told_all(msgs) == v,
        v.speed_test_running && msgs.len() > 0 ==> v.told_all(msgs) == v.told(msgs[0]).told_all(
            msgs.drop_first(),
        ),
{
}

/// Once a measurement has ended, Confirm on the first button takes over the recommended bitrate
/// and stores it, or measures again where there is none; on the second it closes the screen, as
/// Back does at any time. Nothing else changes the bitrate, and the other settings stay.
pub proof fn law_advice_is_taken_by_confirm(
    s: AppView,
    ev: MenuEvent,
    now: u64,
    range: BitrateRange,
)
    requires
        s.speed.speed_test_focused <= 1,
    ensures
        ({
            let t = s.speed_test_event(ev, now, range);
            let advice = match s.speed.speed_test {
                Some(SpeedTestView::Done { outcome, .. }) => recommended(outcome, range),
                _ => None,
            };
            let ended = s.speed.speed_test matches Some(x) && (x is Done || x is Failed);
            let takes = ev == MenuEvent::Confirm && ended && s.speed.speed_test_focused == 0;
            let closes = ev == MenuEvent::Back || (ev == MenuEvent::Confirm && ended
                && s.speed.speed_test_focused == 1);
            &&& takes && advice is Some ==> t.prefs.settings == (Settings {
                bitrate_kbps: advice->0,
                ..s.prefs.settings
            }) && t.outbox == s.outbox.push(CommandView::SaveSettings).push(
                CommandView::CancelSpeedTest,
            ) && t.speed.speed_test is None
            &&& !(takes && advice is Some) ==> t.prefs.settings == s.prefs.settings
            &&& takes && advice is None && s.menu.host_menu_index is Some ==> t
                == s.speed_test_opened((s.menu.host_menu_index->0) as int)
            &&& closes ==> t.speed.speed_test is None && !t.speed.speed_test_running && t.outbox
                == s.outbox.push(CommandView::CancelSpeedTest) && (t.nav.screen == Screen::HostMenu
                || t.nav.screen == Screen::Home)
            &&& !takes && !closes ==> t.outbox == s.outbox && t.nav.screen == s.nav.screen
            &&& ended && (ev == MenuEvent::Left || ev == MenuEvent::Right)
                ==> t.speed.speed_test_focused == 1 - s.speed.speed_test_focused
            &&& !ended && ev != MenuEvent::Back ==> t == s
        }),
{
    reveal(AppView::speed_test_event);
}

/// The screen tells the figures that were measured: whole megabits a second, whole mebibytes and
/// milliseconds, what share of the burst did not fit if the host confirmed it, and the bitrate
/// recommended.
pub proof fn law_figures_are_told(v: SpeedView, range: BitrateRange)
    ensures
        match v.speed_test {
            Some(SpeedTestView::Done { outcome, confirmed }) => v.status_text(range) == decimal(
                (outcome.throughput_kbps / 1000) as nat,
            ) + " Mbps delivered · "@ + decimal((outcome.recv_bytes / 1048576) as nat) + " MB in "@
                + decimal(outcome.elapsed_ms as nat) + " ms\n"@ + (if confirmed {
                "("@ + decimal(outcome.loss_pct as nat) + UNFIT_TAIL@
            } else {
                UNCONFIRMED@
            }) + (match recommended(outcome, range) {
                Some(kbps) => "\n\nRecommended bitrate "@ + decimal((kbps / 1000) as nat)
                    + ADVICE_TAIL@,
                None => NO_ADVICE@,
            }),
            Some(SpeedTestView::Failed(e)) => v.status_text(range) == "Couldn't measure: "@ + e,
            Some(SpeedTestView::Measuring { partial }) => v.status_text(range) == "Measuring"@ + (
            if partial is Some && partial->0.recv_bytes > 0 {
                " — "@ + decimal((partial->0.recv_bytes / 1048576) as nat) + " MB in"@
            } else {
                seq![]
            }) + " over the real data plane…"@,
            _ => v.status_text(range) == "Connecting to "@ + v.speed_test_name + "…"@,
        },
        apply_text(None) == "Retry"@,
        forall|kbps: u32|
            #[trigger] apply_text(Some(kbps)) == "Use "@ + decimal((kbps / 1000) as nat) + " Mbps"@,
{
}

} // verus!
