//! Which tiles are rasterized, and from what.
use vstd::prelude::*;

use crate::app::{Screen, Settings};
use crate::seqs::opt_view;

verus! {

/// The card in a cell is rasterized: by which number its texture goes, and since when it zooms in,
/// once it is on screen.
#[derive(Clone, Copy, Debug)]
pub struct CardTile {
    pub slot: usize,
    pub pop_since: Option<u64>,
}

/// What a modal without its focused widget was rasterized from.
#[derive(Debug)]
pub enum ModalShellKey {
    Settings { settings: Settings, open_dropdown_row: Option<usize>, hover_close: bool },
    Wake { name: String, mac_empty: bool, sent: bool, hover_close: bool },
    Pairing { digits: [u8; 4], status: Option<String>, busy: bool, hover_close: bool },
    ForgetHost { host: Option<String>, hover_close: bool },
    HostMenu { name: String, subtitle: String, rows: usize, hover_close: bool },
    WakeSettings { title: String, auto: bool, hover_close: bool },
    About { hover_close: bool },
    SpeedTest { report: String, hover_close: bool },
}

/// A `ModalShellKey` as values.
pub enum ShellView {
    Settings { settings: Settings, open_dropdown_row: Option<usize>, hover_close: bool },
    Wake { name: Seq<char>, mac_empty: bool, sent: bool, hover_close: bool },
    Pairing { digits: Seq<u8>, status: Option<Seq<char>>, busy: bool, hover_close: bool },
    ForgetHost { host: Option<Seq<char>>, hover_close: bool },
    HostMenu { name: Seq<char>, subtitle: Seq<char>, rows: usize, hover_close: bool },
    WakeSettings { title: Seq<char>, auto: bool, hover_close: bool },
    About { hover_close: bool },
    SpeedTest { report: Seq<char>, hover_close: bool },
}

impl View for ModalShellKey {
    type V = ShellView;

    open spec fn view(&self) -> ShellView {
        match *self {
            ModalShellKey::Settings { settings, open_dropdown_row, hover_close } =>
            ShellView::Settings { settings, open_dropdown_row, hover_close },
            ModalShellKey::Wake { name, mac_empty, sent, hover_close } => ShellView::Wake {
                name: name@,
                mac_empty,
                sent,
                hover_close,
            },
            ModalShellKey::Pairing { digits, status, busy, hover_close } => ShellView::Pairing {
                digits: digits@,
                status: opt_view(status),
                busy,
                hover_close,
            },
            ModalShellKey::ForgetHost { host, hover_close } => ShellView::ForgetHost {
                host: opt_view(host),
                hover_close,
            },
            ModalShellKey::HostMenu { name, subtitle, rows, hover_close } => ShellView::HostMenu {
                name: name@,
                subtitle: subtitle@,
                rows,
                hover_close,
            },
            ModalShellKey::WakeSettings { title, auto, hover_close } => ShellView::WakeSettings {
                title: title@,
                auto,
                hover_close,
            },
            ModalShellKey::About { hover_close } => ShellView::About { hover_close },
            ModalShellKey::SpeedTest { report, hover_close } => ShellView::SpeedTest {
                report: report@,
                hover_close,
            },
        }
    }
}

/// The focused widget of a modal, with everything its look depends on.
#[derive(Debug)]
pub enum ModalFocusKey {
    SettingsRow(usize, Settings),
    ExperimentalRow(usize, Settings),
    DiagnosticsRow(usize, Settings),
    WakeToggle(bool),
    WakeButton(usize),
    PairingDigit(usize, u8),
    PairingButton,
    ForgetButton(usize),
    SpeedTestButton { index: usize, label: String },
    MenuRow { index: usize, label: String, dots: bool },
}

/// A `ModalFocusKey` as values.
pub enum FocusView {
    SettingsRow(usize, Settings),
    ExperimentalRow(usize, Settings),
    DiagnosticsRow(usize, Settings),
    WakeToggle(bool),
    WakeButton(usize),
    PairingDigit(usize, u8),
    PairingButton,
    ForgetButton(usize),
    SpeedTestButton { index: usize, label: Seq<char> },
    MenuRow { index: usize, label: Seq<char>, dots: bool },
}

impl View for ModalFocusKey {
    type V = FocusView;

    open spec fn view(&self) -> FocusView {
        match *self {
            ModalFocusKey::SettingsRow(i, s) => FocusView::SettingsRow(i, s),
            ModalFocusKey::ExperimentalRow(i, s) => FocusView::ExperimentalRow(i, s),
            ModalFocusKey::DiagnosticsRow(i, s) => FocusView::DiagnosticsRow(i, s),
            ModalFocusKey::WakeToggle(on) => FocusView::WakeToggle(on),
            ModalFocusKey::WakeButton(i) => FocusView::WakeButton(i),
            ModalFocusKey::PairingDigit(i, d) => FocusView::PairingDigit(i, d),
            ModalFocusKey::PairingButton => FocusView::PairingButton,
            ModalFocusKey::ForgetButton(i) => FocusView::ForgetButton(i),
            ModalFocusKey::SpeedTestButton { index, label } => FocusView::SpeedTestButton {
                index,
                label: label@,
            },
            ModalFocusKey::MenuRow { index, label, dots } => FocusView::MenuRow {
                index,
                label: label@,
                dots,
            },
        }
    }
}

/// What the scrolling content of a modal was rasterized from.
#[derive(Clone, Copy, Debug, PartialEq, Eq, Structural)]
pub enum ScrollContentKey {
    /// The rows, and the one whose list of choices is open.
    Settings(Settings, Option<usize>),
    /// The first line of the rasterized window.
    About(usize),
}

/// Whether two optional texts are the same.
pub fn same_opt_text(a: &Option<String>, b: &Option<String>) -> (r: bool)
    ensures
        r == (opt_view(*a) == opt_view(*b)),
{
    match (a, b) {
        (Some(x), Some(y)) => *x == *y,
        (None, None) => true,
        _ => false,
    }
}

fn same_digits(a: &[u8; 4], b: &[u8; 4]) -> (r: bool)
    ensures
        r == (a@ == b@),
{
    let r = a[0] == b[0] && a[1] == b[1] && a[2] == b[2] && a[3] == b[3];
    proof {
        if r {
            assert(a@ =~= b@);
        }
    }
    r
}

fn same_opt_row(a: Option<usize>, b: Option<usize>) -> (r: bool)
    ensures
        r == (a == b),
{
    match (a, b) {
        (Some(x), Some(y)) => x == y,
        (None, None) => true,
        _ => false,
    }
}

/// Whether two modals look the same.
pub fn same_shell(a: &ModalShellKey, b: &ModalShellKey) -> (r: bool)
    ensures
        r == (a@ == b@),
{
    match (a, b) {
        (
            ModalShellKey::Settings { settings: s, open_dropdown_row: d, hover_close: h },
            ModalShellKey::Settings { settings: s2, open_dropdown_row: d2, hover_close: h2 },
        ) => *s == *s2 && same_opt_row(*d, *d2) && *h == *h2,
        (
            ModalShellKey::Wake { name: n, mac_empty: m, sent: s, hover_close: h },
            ModalShellKey::Wake { name: n2, mac_empty: m2, sent: s2, hover_close: h2 },
        ) => *n == *n2 && *m == *m2 && *s == *s2 && *h == *h2,
        (
            ModalShellKey::Pairing { digits: d, status: s, busy: b1, hover_close: h },
            ModalShellKey::Pairing { digits: d2, status: s2, busy: b2, hover_close: h2 },
        ) => same_digits(d, d2) && same_opt_text(s, s2) && *b1 == *b2 && *h == *h2,
        (
            ModalShellKey::ForgetHost { host: n, hover_close: h },
            ModalShellKey::ForgetHost { host: n2, hover_close: h2 },
        ) => same_opt_text(n, n2) && *h == *h2,
        (
            ModalShellKey::HostMenu { name: n, subtitle: s, rows: r, hover_close: h },
            ModalShellKey::HostMenu { name: n2, subtitle: s2, rows: r2, hover_close: h2 },
        ) => *n == *n2 && *s == *s2 && *r == *r2 && *h == *h2,
        (
            ModalShellKey::WakeSettings { title: t, auto: a1, hover_close: h },
            ModalShellKey::WakeSettings { title: t2, auto: a2, hover_close: h2 },
        ) => *t == *t2 && *a1 == *a2 && *h == *h2,
        (
            ModalShellKey::About { hover_close: h },
            ModalShellKey::About { hover_close: h2 },
        ) => *h == *h2,
        (
            ModalShellKey::SpeedTest { report: s, hover_close: h },
            ModalShellKey::SpeedTest { report: s2, hover_close: h2 },
        ) => *s == *s2 && *h == *h2,
        _ => false,
    }
}

/// Whether two focused widgets look the same.
pub fn same_focus(a: &ModalFocusKey, b: &ModalFocusKey) -> (r: bool)
    ensures
        r == (a@ == b@),
{
    match (a, b) {
        (ModalFocusKey::SettingsRow(i, s), ModalFocusKey::SettingsRow(i2, s2)) => *i == *i2 && *s
            == *s2,
        (ModalFocusKey::ExperimentalRow(i, s), ModalFocusKey::ExperimentalRow(i2, s2)) => *i == *i2
            && *s == *s2,
        (ModalFocusKey::DiagnosticsRow(i, s), ModalFocusKey::DiagnosticsRow(i2, s2)) => *i == *i2
            && *s == *s2,
        (ModalFocusKey::WakeToggle(x), ModalFocusKey::WakeToggle(y)) => *x == *y,
        (ModalFocusKey::WakeButton(x), ModalFocusKey::WakeButton(y)) => *x == *y,
        (ModalFocusKey::PairingDigit(i, d), ModalFocusKey::PairingDigit(i2, d2)) => *i == *i2 && *d
            == *d2,
        (ModalFocusKey::PairingButton, ModalFocusKey::PairingButton) => true,
        (ModalFocusKey::ForgetButton(x), ModalFocusKey::ForgetButton(y)) => *x == *y,
        (
            ModalFocusKey::SpeedTestButton { index: i, label: l },
            ModalFocusKey::SpeedTestButton { index: i2, label: l2 },
        ) => *i == *i2 && *l == *l2,
        (
            ModalFocusKey::MenuRow { index: i, label: l, dots: d },
            ModalFocusKey::MenuRow { index: i2, label: l2, dots: d2 },
        ) => *i == *i2 && *l == *l2 && *d == *d2,
        _ => false,
    }
}

/// The rasterized tiles: for each, whether it is there and what it was made from.
#[derive(Debug)]
pub struct TileCache {
    pub sidebar_layer: bool,
    /// One for each cell of the grid.
    pub card_tiles: Vec<Option<CardTile>>,
    /// The width of the ring tile.
    pub ring_tile: Option<u32>,
    pub pin_badge_tile: bool,
    pub pin_move_tile: bool,
    /// The row, and whether its menu button is the focused part.
    pub focused_row_tile: Option<(usize, bool)>,
    pub modal_tile: bool,
    pub modal_shell_key: Option<ModalShellKey>,
    pub modal_focus_tile: Option<ModalFocusKey>,
    pub dropdown_overlay_tile: Option<usize>,
    pub dropdown_focus_tile: Option<(usize, usize)>,
    /// Units in all, units visible, scroll offset.
    pub scroll_indicator_tile: Option<(usize, usize, usize)>,
    pub scroll_content_tile: Option<(Screen, ScrollContentKey)>,
    pub status_tile: Option<String>,
    pub nohost_tile: bool,
}

/// A `TileCache` as values.
pub struct TilesView {
    pub sidebar_layer: bool,
    pub card_tiles: Seq<Option<CardTile>>,
    pub ring_tile: Option<u32>,
    pub pin_badge_tile: bool,
    pub pin_move_tile: bool,
    pub focused_row_tile: Option<(usize, bool)>,
    pub modal_tile: bool,
    pub modal_shell_key: Option<ShellView>,
    pub modal_focus_tile: Option<FocusView>,
    pub dropdown_overlay_tile: Option<usize>,
    pub dropdown_focus_tile: Option<(usize, usize)>,
    pub scroll_indicator_tile: Option<(usize, usize, usize)>,
    pub scroll_content_tile: Option<(Screen, ScrollContentKey)>,
    pub status_tile: Option<Seq<char>>,
    pub nohost_tile: bool,
}

impl View for TileCache {
    type V = TilesView;

    open spec fn view(&self) -> TilesView {
        TilesView {
            sidebar_layer: self.sidebar_layer,
            card_tiles: self.card_tiles@,
            ring_tile: self.ring_tile,
            pin_badge_tile: self.pin_badge_tile,
            pin_move_tile: self.pin_move_tile,
            focused_row_tile: self.focused_row_tile,
            modal_tile: self.modal_tile,
            modal_shell_key: opt_view(self.modal_shell_key),
            modal_focus_tile: opt_view(self.modal_focus_tile),
            dropdown_overlay_tile: self.dropdown_overlay_tile,
            dropdown_focus_tile: self.dropdown_focus_tile,
            scroll_indicator_tile: self.scroll_indicator_tile,
            scroll_content_tile: self.scroll_content_tile,
            status_tile: opt_view(self.status_tile),
            nohost_tile: self.nohost_tile,
        }
    }
}

/// Nothing rasterized.
pub open spec fn no_tiles() -> TilesView {
    TilesView {
        sidebar_layer: false,
        card_tiles: seq![],
        ring_tile: None,
        pin_badge_tile: false,
        pin_move_tile: false,
        focused_row_tile: None,
        modal_tile: false,
        modal_shell_key: None,
        modal_focus_tile: None,
        dropdown_overlay_tile: None,
        dropdown_focus_tile: None,
        scroll_indicator_tile: None,
        scroll_content_tile: None,
        status_tile: None,
        nohost_tile: false,
    }
}

impl TileCache {
    /// A cache with nothing rasterized.
    pub fn new() -> (r: Self)
        ensures
            r@ == no_tiles(),
    {
        TileCache {
            sidebar_layer: false,
            card_tiles: Vec::new(),
            ring_tile: None,
            pin_badge_tile: false,
            pin_move_tile: false,
            focused_row_tile: None,
            modal_tile: false,
            modal_shell_key: None,
            modal_focus_tile: None,
            dropdown_overlay_tile: None,
            dropdown_focus_tile: None,
            scroll_indicator_tile: None,
            scroll_content_tile: None,
            status_tile: None,
            nohost_tile: false,
        }
    }
}

} // verus!
