//! The tiles of an open modal: its shell, its focused widget, its list of choices and its
//! scrolling content.
use vstd::prelude::*;

use crate::app::hostmenu::{action_label, label_text};
use crate::app::prepare::{push_if, tile_if, Scene, ScrollGeometry};
use crate::app::scroll::last_offset;
use crate::app::speedtest::{apply_text, recommended_kbps, speed_test_apply_label, BitrateRange};
use crate::app::tiles::{
    same_focus, same_shell, FocusView, ModalFocusKey, ModalShellKey, ScrollContentKey, ShellView,
    TilesView,
};
use crate::app::wakesettings::WAKE_TITLE_HEAD;
use crate::app::{
    App, AppView, ContentWindow, DropdownState, PairingFocus, Prefs, Screen, SpeedTestState,
};
use crate::compositor::Tile;
use crate::library::clone_opt;
use crate::seqs::opt_view;

verus! {

broadcast use crate::seqs::group_views;

/// Lines of a long document that are rasterized at once.
pub const ABOUT_WINDOW_BUDGET: usize = 80;

/// Lines left beyond the view when the rasterized part is centred anew.
pub const ABOUT_WINDOW_MARGIN: usize = 16;

/// The row of an open list of choices.
pub open spec fn open_row(dropdown: Option<DropdownState>) -> Option<usize> {
    match dropdown {
        Some(dd) => Some(dd.row),
        None => None,
    }
}

fn row_of(dropdown: Option<DropdownState>) -> (r: Option<usize>)
    ensures
        r == open_row(dropdown),
{
    match dropdown {
        Some(dd) => Some(dd.row),
        None => None,
    }
}

impl AppView {
    /// What the open modal looks like apart from its focus; none for a modal that is rasterized
    /// on every change.
    #[verifier::opaque]
    pub open spec fn shell_key(self, range: BitrateRange) -> Option<ShellView> {
        let hover_close = self.nav.hover_close;
        match self.nav.screen {
            Screen::Settings => Some(
                ShellView::Settings {
                    settings: self.prefs.settings,
                    open_dropdown_row: open_row(self.prefs.dropdown),
                    hover_close,
                },
            ),
            Screen::Wake => match self.wake {
                Some(w) => Some(
                    ShellView::Wake {
                        name: w.name,
                        mac_empty: w.mac.len() == 0,
                        sent: w.sent,
                        hover_close,
                    },
                ),
                None => None,
            },
            Screen::Pairing => Some(
                ShellView::Pairing {
                    digits: self.pairing.pin_digits,
                    status: self.pairing.pairing_status,
                    busy: self.pairing.pairing_busy,
                    hover_close,
                },
            ),
            Screen::ForgetHost => Some(
                ShellView::ForgetHost {
                    host: match self.menu_entry() {
                        Some(e) => Some(e.name()),
                        None => None,
                    },
                    hover_close,
                },
            ),
            Screen::HostMenu => Some(
                ShellView::HostMenu {
                    name: self.menu_title(),
                    subtitle: self.menu_subtitle(),
                    rows: self.actions().len() as usize,
                    hover_close,
                },
            ),
            Screen::WakeSettings => Some(
                ShellView::WakeSettings {
                    title: WAKE_TITLE_HEAD@ + self.menu_title(),
                    auto: self.wake_settings_for() matches Some(h) && h.wol_auto,
                    hover_close,
                },
            ),
            Screen::About => Some(ShellView::About { hover_close }),
            Screen::SpeedTest => Some(
                ShellView::SpeedTest { report: self.speed.status_text(range), hover_close },
            ),
            Screen::Home
            | Screen::AddHost
            | Screen::EditHost
            | Screen::PinLimit
            | Screen::Experimental
            | Screen::Diagnostics => None,
        }
    }

    /// Whether the modal's shell has to be rasterized.
    pub open spec fn shell_due(self, range: BitrateRange, changed: bool, content_dirty: bool) -> bool {
        self.nav.screen != Screen::Home && (changed || !self.tiles.modal_tile || (
        if self.shell_key(range) is Some {
            self.tiles.modal_shell_key != self.shell_key(range)
        } else {
            content_dirty
        }))
    }

    /// After rasterizing the modal's shell where that is due.
    pub open spec fn shell_drawn(self, range: BitrateRange, changed: bool, content_dirty: bool) -> AppView {
        AppView {
            tiles: TilesView {
                modal_shell_key: self.shell_key(range),
                modal_tile: self.tiles.modal_tile || self.shell_due(range, changed, content_dirty),
                ..self.tiles
            },
            ..self
        }
    }

    /// The focused widget of the open modal, if it has one.
    #[verifier::opaque]
    pub open spec fn focus_key(self, range: BitrateRange) -> Option<FocusView> {
        match self.nav.screen {
            Screen::Settings => Some(
                FocusView::SettingsRow(self.prefs.settings_focused, self.prefs.settings),
            ),
            Screen::Experimental => Some(
                FocusView::ExperimentalRow(self.prefs.experimental_focused, self.prefs.settings),
            ),
            Screen::Diagnostics => Some(
                FocusView::DiagnosticsRow(self.prefs.diagnostics_focused, self.prefs.settings),
            ),
            Screen::Wake => match self.wake {
                Some(w) => if w.mac.len() > 0 {
                    Some(FocusView::WakeButton(w.focused))
                } else {
                    None
                },
                None => None,
            },
            Screen::Pairing => Some(
                match self.pairing.pairing_focus {
                    PairingFocus::Pin => FocusView::PairingDigit(
                        self.pairing.pin_digit_index,
                        self.pairing.pin_digits[self.pairing.pin_digit_index as int],
                    ),
                    PairingFocus::RequestAccess => FocusView::PairingButton,
                },
            ),
            Screen::ForgetHost => Some(FocusView::ForgetButton(self.menu.host_menu_focused)),
            Screen::HostMenu => match self.focused_action() {
                Some(action) => Some(
                    FocusView::MenuRow {
                        index: self.menu.menu_focused,
                        label: label_text(action),
                        dots: self.menu.host_menu_dots,
                    },
                ),
                None => None,
            },
            Screen::WakeSettings => Some(
                FocusView::WakeToggle(self.wake_settings_for() matches Some(h) && h.wol_auto),
            ),
            Screen::SpeedTest => if self.speed.ended() {
                Some(
                    FocusView::SpeedTestButton {
                        index: self.speed.speed_test_focused,
                        label: apply_text(self.speed.advice(range)),
                    },
                )
            } else {
                None
            },
            Screen::Home
            | Screen::AddHost
            | Screen::EditHost
            | Screen::About
            | Screen::PinLimit => None,
        }
    }

    /// Whether the focused widget has to be rasterized: also on every frame of a switch that is
    /// sliding.
    pub open spec fn focus_due(self, range: BitrateRange) -> bool {
        self.focus_key(range) is Some && (self.nav.switch_anim is Some
            || self.tiles.modal_focus_tile != self.focus_key(range))
    }

    /// After rasterizing the focused widget where that is due.
    pub open spec fn focus_drawn(self, range: BitrateRange) -> AppView {
        AppView {
            tiles: TilesView { modal_focus_tile: self.focus_key(range), ..self.tiles },
            ..self
        }
    }

    /// After rasterizing the open list of choices where that is due.
    #[verifier::opaque]
    pub open spec fn dropdown_drawn(self) -> AppView {
        AppView {
            tiles: TilesView {
                dropdown_overlay_tile: open_row(self.prefs.dropdown),
                dropdown_focus_tile: match self.prefs.dropdown {
                    Some(dd) => Some((dd.row, dd.focused)),
                    None => None,
                },
                ..self.tiles
            },
            ..self
        }
    }

    /// The tiles rasterized for that.
    #[verifier::opaque]
    pub open spec fn dropdown_tiles(self) -> Seq<Tile> {
        match self.prefs.dropdown {
            Some(dd) => tile_if(
                self.tiles.dropdown_overlay_tile != Some(dd.row),
                Tile::DropdownOverlay,
            ) + tile_if(
                self.tiles.dropdown_focus_tile != Some((dd.row, dd.focused)),
                Tile::DropdownFocusOption,
            ),
            None => seq![],
        }
    }
}

impl Scene {
    /// The list that scrolls on this screen.
    pub open spec fn scroll_on(self, screen: Screen) -> Option<ScrollGeometry> {
        match screen {
            Screen::Settings => Some(self.settings),
            Screen::About => Some(self.about),
            _ => None,
        }
    }

    /// The list that scrolls on this screen, if its content can overflow.
    pub fn scroll_geometry_for(&self, screen: Screen) -> (r: Option<ScrollGeometry>)
        ensures
            r == self.scroll_on(screen),
    {
        match screen {
            Screen::Settings => Some(self.settings),
            Screen::About => Some(self.about),
            _ => None,
        }
    }

    /// Pixels from one unit of the list on this screen to the next.
    pub fn scroll_stride_for(&self, screen: Screen) -> (r: i32)
        ensures
            r == (match self.scroll_on(screen) {
                Some(g) => g.stride,
                None => 1,
            }),
    {
        match screen {
            Screen::Settings => self.settings.stride,
            Screen::About => self.about.stride,
            _ => 1,
        }
    }
}

/// The part of a document of `total` lines that is rasterized from line `start` on.
pub open spec fn about_window(start: int, total: int) -> ContentWindow {
    let left = last_offset(total, start);
    ContentWindow {
        start: start as usize,
        len: (if left < ABOUT_WINDOW_BUDGET {
            left
        } else {
            ABOUT_WINDOW_BUDGET as int
        }) as usize,
    }
}

impl AppView {
    /// What the scroll indicator shows.
    pub open spec fn indicator_key(self, g: ScrollGeometry) -> (usize, usize, usize) {
        (
            g.total,
            g.visible,
            self.prefs.scroll.kept(g.total as int, g.visible as int) as usize,
        )
    }

    /// The rows of the settings as they have to be rasterized.
    pub open spec fn rows_key(self) -> (Screen, ScrollContentKey) {
        (
            Screen::Settings,
            ScrollContentKey::Settings(self.prefs.settings, open_row(self.prefs.dropdown)),
        )
    }

    /// Whether the rasterized part of the document has to move.
    pub open spec fn document_due(self, g: ScrollGeometry) -> bool {
        !self.prefs.content_window.covers(
            self.prefs.scroll.kept(g.total as int, g.visible as int),
            g.visible as int,
            g.total as int,
            ABOUT_WINDOW_MARGIN as int,
        )
    }

    /// Where it has to move.
    pub open spec fn document_start(self, g: ScrollGeometry) -> int {
        ContentWindow::centred(
            self.prefs.scroll.kept(g.total as int, g.visible as int),
            g.visible as int,
            g.total as int,
            ABOUT_WINDOW_BUDGET as int,
        )
    }

    /// Whether the content of the open list has to be rasterized.
    pub open spec fn content_due(self, g: ScrollGeometry) -> bool {
        match self.nav.screen {
            Screen::Settings => self.tiles.scroll_content_tile != Some(self.rows_key()),
            Screen::About => self.document_due(g),
            _ => false,
        }
    }

    /// After rasterizing the content of the open list where that is due.
    pub open spec fn content_drawn(self, g: ScrollGeometry) -> AppView {
        if !self.content_due(g) {
            self
        } else if self.nav.screen == Screen::Settings {
            AppView {
                prefs: Prefs {
                    content_window: ContentWindow { start: 0, len: g.total },
                    ..self.prefs
                },
                tiles: TilesView { scroll_content_tile: Some(self.rows_key()), ..self.tiles },
                ..self
            }
        } else {
            AppView {
                prefs: Prefs {
                    content_window: about_window(self.document_start(g), g.total as int),
                    ..self.prefs
                },
                tiles: TilesView {
                    scroll_content_tile: Some(
                        (
                            Screen::About,
                            ScrollContentKey::About(self.document_start(g) as usize),
                        ),
                    ),
                    ..self.tiles
                },
                ..self
            }
        }
    }

    /// After rasterizing what the open list shows where that is due.
    #[verifier::opaque]
    pub open spec fn scroll_drawn(self, scene: Scene) -> AppView {
        match scene.scroll_on(self.nav.screen) {
            None => self,
            Some(g) => AppView {
                tiles: TilesView {
                    scroll_indicator_tile: Some(self.indicator_key(g)),
                    ..self.tiles
                },
                ..self
            }.content_drawn(g),
        }
    }

    /// The tiles rasterized for that.
    #[verifier::opaque]
    pub open spec fn scroll_tiles(self, scene: Scene) -> Seq<Tile> {
        match scene.scroll_on(self.nav.screen) {
            None => seq![],
            Some(g) => tile_if(
                self.tiles.scroll_indicator_tile != Some(self.indicator_key(g)),
                Tile::ScrollIndicator(self.nav.screen),
            ) + tile_if(self.content_due(g), Tile::ScrollContent(self.nav.screen)),
        }
    }
}

impl App {
    fn shell_now(&self, range: &BitrateRange) -> (r: Option<ModalShellKey>)
        ensures
            opt_view(r) == self@.shell_key(*range),
    {
        proof {
            reveal(AppView::shell_key);
        }
        let hover_close = self.nav.hover_close;
        match self.nav.screen {
            Screen::Settings => Some(
                ModalShellKey::Settings {
                    settings: self.prefs.settings,
                    open_dropdown_row: row_of(self.prefs.dropdown),
                    hover_close,
                },
            ),
            Screen::Wake => match &self.wake {
                Some(w) => Some(
                    ModalShellKey::Wake {
                        name: w.name.clone(),
                        mac_empty: w.mac.len() == 0,
                        sent: w.sent,
                        hover_close,
                    },
                ),
                None => None,
            },
            Screen::Pairing => Some(
                ModalShellKey::Pairing {
                    digits: self.pairing.pin_digits,
                    status: clone_opt(&self.pairing.pairing_status),
                    busy: self.pairing.pairing_busy,
                    hover_close,
                },
            ),
            Screen::ForgetHost => Some(
                ModalShellKey::ForgetHost {
                    host: match self.host_menu_entry() {
                        Some(i) => Some(self.hosts.entries[i].name()),
                        None => None,
                    },
                    hover_close,
                },
            ),
            Screen::HostMenu => Some(
                ModalShellKey::HostMenu {
                    name: self.host_menu_title(),
                    subtitle: self.host_menu_subtitle(),
                    rows: self.host_menu_actions().len(),
                    hover_close,
                },
            ),
            Screen::WakeSettings => Some(
                ModalShellKey::WakeSettings {
                    title: self.wake_settings_title(),
                    auto: self.wake_settings_on(),
                    hover_close,
                },
            ),
            Screen::About => Some(ModalShellKey::About { hover_close }),
            Screen::SpeedTest => Some(
                ModalShellKey::SpeedTest { report: self.speed_test_status(range), hover_close },
            ),
            Screen::Home
            | Screen::AddHost
            | Screen::EditHost
            | Screen::PinLimit
            | Screen::Experimental
            | Screen::Diagnostics => None,
        }
    }

    pub(crate) fn draw_shell(
        &mut self,
        range: &BitrateRange,
        changed: bool,
        content_dirty: bool,
        updated: &mut Vec<Tile>,
    )
        ensures
            final(self)@ == old(self)@.shell_drawn(*range, changed, content_dirty),
            final(updated)@ == old(updated)@ + tile_if(
                old(self)@.shell_due(*range, changed, content_dirty),
                Tile::Modal,
            ),
    {
        let key = self.shell_now(range);
        let content_stale = match (&key, &self.tiles.modal_shell_key) {
            (Some(k), Some(have)) => !same_shell(k, have),
            (Some(_), None) => true,
            (None, _) => content_dirty,
        };
        let due = self.nav.screen != Screen::Home && (changed || !self.tiles.modal_tile
            || content_stale);
        self.tiles.modal_shell_key = key;
        if due {
            self.tiles.modal_tile = true;
        }
        push_if(updated, due, Tile::Modal);
    }

    fn focus_now(&self, range: &BitrateRange) -> (r: Option<ModalFocusKey>)
        requires
            self@.pairing.wf(),
        ensures
            opt_view(r) == self@.focus_key(*range),
    {
        proof {
            reveal(AppView::focus_key);
        }
        match self.nav.screen {
            Screen::Settings => Some(
                ModalFocusKey::SettingsRow(self.prefs.settings_focused, self.prefs.settings),
            ),
            Screen::Experimental => Some(
                ModalFocusKey::ExperimentalRow(
                    self.prefs.experimental_focused,
                    self.prefs.settings,
                ),
            ),
            Screen::Diagnostics => Some(
                ModalFocusKey::DiagnosticsRow(self.prefs.diagnostics_focused, self.prefs.settings),
            ),
            Screen::Wake => match &self.wake {
                Some(w) => if w.mac.len() > 0 {
                    Some(ModalFocusKey::WakeButton(w.focused))
                } else {
                    None
                },
                None => None,
            },
            Screen::Pairing => Some(
                match self.pairing.pairing_focus {
                    PairingFocus::Pin => ModalFocusKey::PairingDigit(
                        self.pairing.pin_digit_index,
                        self.pairing.pin_digits[self.pairing.pin_digit_index],
                    ),
                    PairingFocus::RequestAccess => ModalFocusKey::PairingButton,
                },
            ),
            Screen::ForgetHost => Some(ModalFocusKey::ForgetButton(self.menu.host_menu_focused)),
            Screen::HostMenu => match self.focused_menu_action() {
                Some(action) => Some(
                    ModalFocusKey::MenuRow {
                        index: self.menu.menu_focused,
                        label: action_label(action).to_owned(),
                        dots: self.menu.host_menu_dots,
                    },
                ),
                None => None,
            },
            Screen::WakeSettings => Some(ModalFocusKey::WakeToggle(self.wake_settings_on())),
            Screen::SpeedTest => self.speed_test_focus(range),
            Screen::Home
            | Screen::AddHost
            | Screen::EditHost
            | Screen::About
            | Screen::PinLimit => None,
        }
    }

    fn speed_test_focus(&self, range: &BitrateRange) -> (r: Option<ModalFocusKey>)
        ensures
            opt_view(r) == (if self@.speed.ended() {
                Some(
                    FocusView::SpeedTestButton {
                        index: self@.speed.speed_test_focused,
                        label: apply_text(self@.speed.advice(*range)),
                    },
                )
            } else {
                None
            }),
    {
        let advice = match &self.speed.speed_test {
            Some(SpeedTestState::Done { outcome, .. }) => recommended_kbps(outcome, range),
            Some(SpeedTestState::Failed(_)) => None,
            _ => {
                return None;
            },
        };
        Some(
            ModalFocusKey::SpeedTestButton {
                index: self.speed.speed_test_focused,
                label: speed_test_apply_label(advice),
            },
        )
    }

    pub(crate) fn draw_focus(&mut self, range: &BitrateRange, updated: &mut Vec<Tile>)
        requires
            old(self)@.pairing.wf(),
        ensures
            final(self)@ == old(self)@.focus_drawn(*range),
            final(updated)@ == old(updated)@ + tile_if(
                old(self)@.focus_due(*range),
                Tile::ModalFocusElement,
            ),
    {
        let key = self.focus_now(range);
        let due = match (&key, &self.tiles.modal_focus_tile) {
            (Some(k), Some(have)) => self.nav.switch_anim.is_some() || !same_focus(k, have),
            (Some(_), None) => true,
            (None, _) => false,
        };
        self.tiles.modal_focus_tile = key;
        push_if(updated, due, Tile::ModalFocusElement);
    }

    pub(crate) fn draw_dropdown(&mut self, updated: &mut Vec<Tile>)
        ensures
            final(self)@ == old(self)@.dropdown_drawn(),
            final(self)@.prefs == old(self)@.prefs,
            final(updated)@ == old(updated)@ + old(self)@.dropdown_tiles(),
    {
        proof {
            reveal(AppView::dropdown_drawn);
            reveal(AppView::dropdown_tiles);
        }
        match self.prefs.dropdown {
            Some(dd) => {
                let overlay_fresh = match self.tiles.dropdown_overlay_tile {
                    Some(row) => row == dd.row,
                    None => false,
                };
                let option_fresh = match self.tiles.dropdown_focus_tile {
                    Some((row, focused)) => row == dd.row && focused == dd.focused,
                    None => false,
                };
                self.tiles.dropdown_overlay_tile = Some(dd.row);
                self.tiles.dropdown_focus_tile = Some((dd.row, dd.focused));
                push_if(updated, !overlay_fresh, Tile::DropdownOverlay);
                push_if(updated, !option_fresh, Tile::DropdownFocusOption);
            },
            None => {
                self.tiles.dropdown_overlay_tile = None;
                self.tiles.dropdown_focus_tile = None;
            },
        }
        assert(updated@ =~= old(updated)@ + old(self)@.dropdown_tiles());
    }

    fn draw_rows(&mut self, total: usize) -> (due: bool)
        requires
            old(self)@.nav.screen == Screen::Settings,
        ensures
            due == (old(self)@.tiles.scroll_content_tile != Some(old(self)@.rows_key())),
            final(self)@ == (if due {
                AppView {
                    prefs: Prefs {
                        content_window: ContentWindow { start: 0, len: total },
                        ..old(self)@.prefs
                    },
                    tiles: TilesView {
                        scroll_content_tile: Some(old(self)@.rows_key()),
                        ..old(self)@.tiles
                    },
                    ..old(self)@
                }
            } else {
                old(self)@
            }),
    {
        let key = ScrollContentKey::Settings(self.prefs.settings, row_of(self.prefs.dropdown));
        let fresh = match self.tiles.scroll_content_tile {
            Some((screen, have)) => screen == Screen::Settings && have == key,
            None => false,
        };
        if !fresh {
            self.tiles.scroll_content_tile = Some((Screen::Settings, key));
            self.prefs.content_window = ContentWindow { start: 0, len: total };
        }
        !fresh
    }

    fn draw_document(&mut self, g: &ScrollGeometry) -> (due: bool)
        requires
            g.valid(),
            old(self)@.prefs.content_window.start + old(self)@.prefs.content_window.len
                <= 0x4000_0000,
        ensures
            due == old(self)@.document_due(*g),
            final(self)@ == (if due {
                AppView {
                    prefs: Prefs {
                        content_window: about_window(
                            old(self)@.document_start(*g),
                            g.total as int,
                        ),
                        ..old(self)@.prefs
                    },
                    tiles: TilesView {
                        scroll_content_tile: Some(
                            (
                                Screen::About,
                                ScrollContentKey::About(old(self)@.document_start(*g) as usize),
                            ),
                        ),
                        ..old(self)@.tiles
                    },
                    ..old(self)@
                }
            } else {
                old(self)@
            }),
    {
        let scroll: usize = self.prefs.scroll.clamped(g.total, g.visible);
        let next = self.prefs.content_window.recenter_if_needed(
            scroll,
            g.visible,
            g.total,
            ABOUT_WINDOW_BUDGET,
            ABOUT_WINDOW_MARGIN,
        );
        match next {
            None => false,
            Some(start) => {
                let left: usize = if g.total > start {
                    g.total - start
                } else {
                    0
                };
                let len: usize = if left < ABOUT_WINDOW_BUDGET {
                    left
                } else {
                    ABOUT_WINDOW_BUDGET
                };
                self.prefs.content_window = ContentWindow { start, len };
                self.tiles.scroll_content_tile = Some(
                    (Screen::About, ScrollContentKey::About(start)),
                );
                true
            },
        }
    }

    pub(crate) fn draw_scroll(&mut self, scene: &Scene, updated: &mut Vec<Tile>)
        requires
            scene.valid(),
            old(self)@.prefs.content_window.start + old(self)@.prefs.content_window.len
                <= 0x4000_0000,
        ensures
            final(self)@ == old(self)@.scroll_drawn(*scene),
            final(updated)@ == old(updated)@ + old(self)@.scroll_tiles(*scene),
    {
        proof {
            reveal(AppView::scroll_drawn);
            reveal(AppView::scroll_tiles);
        }
        let screen = self.nav.screen;
        match scene.scroll_geometry_for(screen) {
            None => {},
            Some(g) => {
                let scroll: usize = self.prefs.scroll.clamped(g.total, g.visible);
                let fresh = match self.tiles.scroll_indicator_tile {
                    Some((total, visible, at)) => total == g.total && visible == g.visible && at
                        == scroll,
                    None => false,
                };
                self.tiles.scroll_indicator_tile = Some((g.total, g.visible, scroll));
                push_if(updated, !fresh, Tile::ScrollIndicator(screen));
                let due = match screen {
                    Screen::Settings => self.draw_rows(g.total),
                    _ => self.draw_document(&g),
                };
                push_if(updated, due, Tile::ScrollContent(screen));
            },
        }
        assert(updated@ =~= old(updated)@ + old(self)@.scroll_tiles(*scene));
    }
}

/// A modal is taken for unchanged only where it looks the same: by the settings and the open list
/// of choices, by the host, its address on record and whether a signal went out, by the digits,
/// the status and whether a pairing is under way, by the host in question, by the text of the
/// measurement, and on every screen by whether the pointer is on its cross.
pub proof fn law_same_shell_looks_the_same(s: AppView, t: AppView, range: BitrateRange)
    requires
        s.nav.screen == t.nav.screen,
        s.shell_key(range) is Some,
        s.shell_key(range) == t.shell_key(range),
    ensures
        s.nav.hover_close == t.nav.hover_close,
        s.nav.screen == Screen::Settings ==> s.prefs.settings == t.prefs.settings && (
        s.prefs.dropdown is Some) == (t.prefs.dropdown is Some) && (s.prefs.dropdown is Some
            ==> s.prefs.dropdown->0.row == t.prefs.dropdown->0.row),
        s.nav.screen == Screen::Wake ==> s.wake is Some && t.wake is Some && s.wake->0.name
            == t.wake->0.name && (s.wake->0.mac.len() == 0) == (t.wake->0.mac.len() == 0)
            && s.wake->0.sent == t.wake->0.sent,
        s.nav.screen == Screen::Pairing ==> s.pairing.pin_digits == t.pairing.pin_digits
            && s.pairing.pairing_status == t.pairing.pairing_status && s.pairing.pairing_busy
            == t.pairing.pairing_busy,
        s.nav.screen == Screen::ForgetHost ==> (s.menu_entry() is Some) == (t.menu_entry() is Some)
            && (s.menu_entry() is Some ==> s.menu_entry()->0.name() == t.menu_entry()->0.name()),
        s.nav.screen == Screen::HostMenu ==> s.menu_title() == t.menu_title() && s.menu_subtitle()
            == t.menu_subtitle(),
        s.nav.screen == Screen::WakeSettings ==> (s.wake_settings_for() matches Some(h)
            && h.wol_auto) == (t.wake_settings_for() matches Some(h) && h.wol_auto),
        s.nav.screen == Screen::SpeedTest ==> s.speed.status_text(range) == t.speed.status_text(
            range,
        ),
{
    reveal(AppView::shell_key);
}

/// A focused widget is taken for unchanged only where the same one is focused and says the same.
pub proof fn law_same_focus_looks_the_same(s: AppView, t: AppView, range: BitrateRange)
    requires
        s.nav.screen == t.nav.screen,
        s.focus_key(range) is Some,
        s.focus_key(range) == t.focus_key(range),
    ensures
        s.nav.screen == Screen::Settings ==> s.prefs.settings_focused == t.prefs.settings_focused
            && s.prefs.settings == t.prefs.settings,
        s.nav.screen == Screen::Experimental ==> s.prefs.experimental_focused
            == t.prefs.experimental_focused && s.prefs.settings == t.prefs.settings,
        s.nav.screen == Screen::Diagnostics ==> s.prefs.diagnostics_focused
            == t.prefs.diagnostics_focused && s.prefs.settings == t.prefs.settings,
        s.nav.screen == Screen::Wake ==> s.wake is Some && t.wake is Some && s.wake->0.focused
            == t.wake->0.focused,
        s.nav.screen == Screen::Pairing ==> s.pairing.pairing_focus == t.pairing.pairing_focus && (
        s.pairing.pairing_focus is Pin ==> s.pairing.pin_digit_index == t.pairing.pin_digit_index
            && s.pairing.pin_digits[s.pairing.pin_digit_index as int]
            == t.pairing.pin_digits[t.pairing.pin_digit_index as int]),
        s.nav.screen == Screen::ForgetHost ==> s.menu.host_menu_focused == t.menu.host_menu_focused,
        s.nav.screen == Screen::HostMenu ==> s.menu.menu_focused == t.menu.menu_focused
            && s.menu.host_menu_dots == t.menu.host_menu_dots,
        s.nav.screen == Screen::WakeSettings ==> (s.wake_settings_for() matches Some(h)
            && h.wol_auto) == (t.wake_settings_for() matches Some(h) && h.wol_auto),
        s.nav.screen == Screen::SpeedTest ==> s.speed.speed_test_focused
            == t.speed.speed_test_focused,
{
    reveal(AppView::focus_key);
}

/// A modal has a focused widget on the settings, the switches, the diagnostics, the pairing, the
/// questions and the menus, on the wake prompt where there is something to send, and on the
/// measurement once it has ended.
pub proof fn law_widget_is_focused_where_there_is_one(s: AppView, range: BitrateRange)
    ensures
        ({
            let on = s.nav.screen;
            (s.focus_key(range) is Some) == (on == Screen::Settings || on == Screen::Experimental
                || on == Screen::Diagnostics || on == Screen::Pairing || on == Screen::ForgetHost
                || on == Screen::WakeSettings || (on == Screen::HostMenu && s.menu.menu_focused
                < s.actions().len()) || (on == Screen::Wake && s.wake is Some
                && s.wake->0.mac.len() > 0) || (on == Screen::SpeedTest && (
            s.speed.speed_test matches Some(x) && (x is Done || x is Failed))))
        }),
{
    reveal(AppView::focus_key);
}

/// An open list of choices is rasterized for the row that it belongs to, and its focused choice
/// for the choice that is focused, whenever that is another than before.
pub proof fn law_open_list_is_rasterized(s: AppView, dd: DropdownState)
    requires
        s.prefs.dropdown == Some(dd),
    ensures
        s.tiles.dropdown_overlay_tile != Some(dd.row) ==> s.dropdown_tiles().contains(
            Tile::DropdownOverlay,
        ),
        s.tiles.dropdown_focus_tile != Some((dd.row, dd.focused)) ==> s.dropdown_tiles().contains(
            Tile::DropdownFocusOption,
        ),
        s.dropdown_drawn().tiles.dropdown_overlay_tile == Some(dd.row),
        s.dropdown_drawn().tiles.dropdown_focus_tile == Some((dd.row, dd.focused)),
{
    reveal(AppView::dropdown_tiles);
    reveal(AppView::dropdown_drawn);
    let a = tile_if(s.tiles.dropdown_overlay_tile != Some(dd.row), Tile::DropdownOverlay);
    let b = tile_if(
        s.tiles.dropdown_focus_tile != Some((dd.row, dd.focused)),
        Tile::DropdownFocusOption,
    );
    let all = s.dropdown_tiles();
    if a.len() > 0 {
        assert(all[0] == Tile::DropdownOverlay);
    }
    if b.len() > 0 {
        assert(all[a.len() as int] == Tile::DropdownFocusOption);
    }
}

/// The wake prompt is rasterized by the name of the host, whether an address is known to wake it
/// by, and whether a signal went out.
pub proof fn law_wake_prompt_goes_by_its_wake(s: AppView, range: BitrateRange)
    requires
        s.nav.screen is Wake,
        s.wake is Some,
    ensures
        s.shell_key(range) matches Some(ShellView::Wake { name, mac_empty, sent, hover_close }) && name
            == s.wake->0.name && (mac_empty <==> s.wake->0.mac.len() == 0) && (sent
            <==> s.wake->0.sent) && (hover_close <==> s.nav.hover_close),
{
    reveal(AppView::shell_key);
}

} // verus!
