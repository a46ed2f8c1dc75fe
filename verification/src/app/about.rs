//! The document about the app: scrolling through it.
use vstd::prelude::*;

use crate::app::prepare::ScrollGeometry;
use crate::app::{App, AppView, ContentWindow, Prefs, Screen, ScrollWindow};
use crate::model::event::MenuEvent;

verus! {

broadcast use crate::seqs::group_views;

/// How far one page goes: two lines stay in view.
pub open spec fn page_step(visible: int) -> int {
    if visible > 3 {
        visible - 2
    } else {
        1
    }
}

impl AppView {
    /// The same state with the open list scrolled like this.
    pub open spec fn scroll_as(self, scroll: ScrollWindow) -> AppView {
        AppView { prefs: Prefs { scroll, ..self.prefs }, ..self }
    }

    /// After opening the document at its top; the settings keep their place meanwhile.
    pub open spec fn about_opened(self) -> AppView {
        AppView {
            prefs: Prefs {
                settings_scroll: self.prefs.scroll,
                scroll: ScrollWindow::top(),
                content_window: ContentWindow::empty(),
                ..self.prefs
            },
            ..self
        }.on(Screen::About)
    }

    /// After returning to the settings, at the place they were left at.
    pub open spec fn back_in_settings(self) -> AppView {
        self.scroll_as(self.prefs.settings_scroll).on(Screen::Settings)
    }

    /// After one event on the document.
    pub open spec fn about_event(self, ev: MenuEvent, g: ScrollGeometry, now: u64) -> AppView {
        let total = g.total as int;
        let visible = g.visible as int;
        match ev {
            MenuEvent::Up => self.scroll_as(self.prefs.scroll.scrolled(-1, total, visible, now)),
            MenuEvent::Down => self.scroll_as(self.prefs.scroll.scrolled(1, total, visible, now)),
            MenuEvent::Left => self.scroll_as(
                self.prefs.scroll.scrolled(-page_step(visible), total, visible, now),
            ),
            MenuEvent::Right => self.scroll_as(
                self.prefs.scroll.scrolled(page_step(visible), total, visible, now),
            ),
            MenuEvent::Back | MenuEvent::Confirm => self.back_in_settings(),
            MenuEvent::Secondary => self,
        }
    }

    /// After scrolling the document by the whole lines in `dy` pixels.
    pub open spec fn about_scrolled(self, dy: int, g: ScrollGeometry, now: u64) -> AppView {
        if AppView::lines_of(dy, g) == 0 {
            self
        } else {
            self.scroll_as(
                self.prefs.scroll.scrolled(
                    AppView::lines_of(dy, g),
                    g.total as int,
                    g.visible as int,
                    now,
                ),
            )
        }
    }

    /// Whole lines that `dy` pixels come to.
    pub open spec fn lines_of(dy: int, g: ScrollGeometry) -> int {
        let stride = if g.stride > 1 {
            g.stride as int
        } else {
            1
        };
        if dy >= 0 {
            dy / stride
        } else {
            -((-dy) / stride)
        }
    }
}

impl App {
    /// Opens the document at its top.
    pub fn open_about(&mut self)
        ensures
            final(self)@ == old(self)@.about_opened(),
    {
        self.prefs.settings_scroll = self.prefs.scroll;
        self.prefs.scroll = ScrollWindow::new();
        self.prefs.content_window = ContentWindow::new();
        self.nav.screen = Screen::About;
    }

    /// Returns to the settings, at the place they were left at.
    pub fn return_to_settings(&mut self)
        ensures
            final(self)@ == old(self)@.back_in_settings(),
    {
        self.nav.screen = Screen::Settings;
        self.prefs.scroll = self.prefs.settings_scroll;
    }

    /// Handles one event on the document: up and down by a line, left and right by a page.
    pub fn handle_about_event(&mut self, ev: MenuEvent, g: &ScrollGeometry, now: u64)
        requires
            g.valid(),
        ensures
            final(self)@ == old(self)@.about_event(ev, *g, now),
    {
        let step: usize = if g.visible > 3 {
            g.visible - 2
        } else {
            1
        };
        match ev {
            MenuEvent::Up => {
                self.prefs.scroll.scroll_by(-1, g.total, g.visible, now);
            },
            MenuEvent::Down => {
                self.prefs.scroll.scroll_by(1, g.total, g.visible, now);
            },
            MenuEvent::Left => {
                self.prefs.scroll.page(step, false, g.total, g.visible, now);
            },
            MenuEvent::Right => {
                self.prefs.scroll.page(step, true, g.total, g.visible, now);
            },
            MenuEvent::Back | MenuEvent::Confirm => {
                self.return_to_settings();
            },
            MenuEvent::Secondary => {},
        }
    }

    /// Scrolls the document by the whole lines in `dy_px` pixels; whether anything moved.
    pub fn scroll_about_by(&mut self, dy_px: i32, g: &ScrollGeometry, now: u64) -> (moved: bool)
        requires
            g.valid(),
            dy_px > i32::MIN,
        ensures
            final(self)@ == old(self)@.about_scrolled(dy_px as int, *g, now),
            moved == (final(self)@.prefs.scroll != old(self)@.prefs.scroll),
    {
        let stride: i32 = if g.stride > 1 {
            g.stride
        } else {
            1
        };
        let lines: i32 = crate::app::draw::div_toward_zero(dy_px, stride);
        if lines == 0 {
            return false;
        }
        self.prefs.scroll.scroll_by(lines as i64, g.total, g.visible, now)
    }
}

/// What can be done while the document is looked at, and when: an event, or scrolling by so many
/// pixels.
pub enum AboutStep {
    Event(MenuEvent, u64),
    Scroll(int, u64),
}

impl AppView {
    /// After the first `n` of these steps.
    pub open spec fn looked_through(self, steps: Seq<AboutStep>, g: ScrollGeometry, n: int) -> AppView
        decreases n,
    {
        if n <= 0 {
            self
        } else {
            let before = self.looked_through(steps, g, n - 1);
            match steps[n - 1] {
                AboutStep::Event(ev, now) => before.about_event(ev, g, now),
                AboutStep::Scroll(dy, now) => before.about_scrolled(dy, g, now),
            }
        }
    }
}

/// Looking at the document and coming back leaves the settings at the place they were left at,
/// whatever was done in between.
pub proof fn law_settings_keep_their_place(
    s: AppView,
    steps: Seq<AboutStep>,
    g: ScrollGeometry,
    n: int,
)
    requires
        0 <= n <= steps.len(),
    ensures
        s.about_opened().looked_through(steps, g, n).back_in_settings().prefs.scroll
            == s.prefs.scroll,
        s.about_opened().looked_through(steps, g, n).prefs.settings_scroll == s.prefs.scroll,
    decreases n,
{
    if n > 0 {
        law_settings_keep_their_place(s, steps, g, n - 1);
    }
}

/// A page forward and a page back end where they began, unless an end of the document was in the
/// way.
pub proof fn law_page_undone(w: ScrollWindow, step: int, total: int, visible: int, now: u64)
    requires
        0 < step,
        0 <= w.offset,
        w.offset + step <= crate::app::scroll::last_offset(total, visible) <= usize::MAX,
    ensures
        w.scrolled(step, total, visible, now).scrolled(-step, total, visible, now).offset
            == w.offset,
{
}

/// The document is scrolled by a line up and down and by a page, less the two lines that stay in
/// view, left and right, and stops at its ends. Confirm and Back lead back to the settings.
pub proof fn law_document_is_scrolled(s: AppView, ev: MenuEvent, g: ScrollGeometry, now: u64)
    requires
        s.prefs.scroll.offset + g.visible <= g.total,
        g.valid(),
    ensures
        ({
            let t = s.about_event(ev, g, now);
            let at = s.prefs.scroll.offset as int;
            let last = g.total - g.visible;
            let page = if g.visible > 3 {
                g.visible - 2
            } else {
                1
            };
            let to = t.prefs.scroll.offset as int;
            &&& ev == MenuEvent::Up ==> to == if at > 0 {
                at - 1
            } else {
                0
            }
            &&& ev == MenuEvent::Down ==> to == if at < last {
                at + 1
            } else {
                last
            }
            &&& ev == MenuEvent::Left ==> to == if at > page {
                at - page
            } else {
                0
            }
            &&& ev == MenuEvent::Right ==> to == if at + page < last {
                at + page
            } else {
                last
            }
            &&& ev == MenuEvent::Back || ev == MenuEvent::Confirm ==> t.nav.screen
                == Screen::Settings && t.prefs.scroll == s.prefs.settings_scroll
            &&& ev != MenuEvent::Back && ev != MenuEvent::Confirm ==> t.nav.screen == s.nav.screen
            &&& t.outbox == s.outbox && t.prefs.settings == s.prefs.settings
        }),
{
}

/// The wheel scrolls the document by the whole lines that it turned, down for a positive turn.
pub proof fn law_wheel_scrolls_whole_lines(dy: int, g: ScrollGeometry)
    requires
        g.stride > 1,
    ensures
        dy >= 0 ==> AppView::lines_of(dy, g) * g.stride <= dy < (AppView::lines_of(dy, g) + 1)
            * g.stride,
        AppView::lines_of(-dy, g) == -AppView::lines_of(dy, g),
{
    let stride = g.stride as int;
    if dy >= 0 {
        vstd::arithmetic::div_mod::lemma_fundamental_div_mod(dy, stride);
        vstd::arithmetic::div_mod::lemma_mod_bound(dy, stride);
        let q = dy / stride;
        assert(stride * q == q * stride) by (nonlinear_arith);
        assert((q + 1) * stride == q * stride + stride) by (nonlinear_arith);
    }
}

} // verus!
