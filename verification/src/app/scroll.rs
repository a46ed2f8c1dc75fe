//! Scrolling lists, windows into long documents, and the fades of modals.
use vstd::prelude::*;

use crate::app::{ContentWindow, ModalFade, Screen, ScrollWindow};

verus! {

/// Milliseconds that a modal takes to fade in or out.
pub const MODAL_FADE: u64 = 200;

/// Milliseconds that a scroll indicator stays before it fades.
pub const SCROLL_INDICATOR_HOLD: u64 = 700;

/// Milliseconds that a scroll indicator takes to fade.
pub const SCROLL_INDICATOR_FADE: u64 = 350;

/// How long a scroll indicator is seen.
pub const SCROLL_INDICATOR_LIFETIME: u64 = 1050;

/// The time since `then`; a clock never runs backwards.
pub open spec fn elapsed(now: u64, then: u64) -> int {
    if now >= then {
        now - then
    } else {
        0
    }
}

/// The time since `then`.
pub fn since(now: u64, then: u64) -> (r: u64)
    ensures
        r == elapsed(now, then),
{
    if now >= then {
        now - then
    } else {
        0
    }
}

/// The furthest offset that still fills the view.
pub open spec fn last_offset(total: int, visible: int) -> int {
    if total > visible {
        total - visible
    } else {
        0
    }
}

impl ScrollWindow {
    /// At the top, and never moved.
    pub open spec fn top() -> ScrollWindow {
        ScrollWindow { offset: 0, shown_at: None }
    }

    /// A list at its top.
    pub fn new() -> (r: Self)
        ensures
            r == ScrollWindow::top(),
    {
        ScrollWindow { offset: 0, shown_at: None }
    }

    /// The offset, brought into range.
    pub open spec fn kept(self, total: int, visible: int) -> int {
        if self.offset > last_offset(total, visible) {
            last_offset(total, visible)
        } else {
            self.offset as int
        }
    }

    /// The offset, brought into range.
    pub fn clamped(&self, total: usize, visible: usize) -> (r: usize)
        ensures
            r == self.kept(total as int, visible as int),
    {
        let last: usize = if total > visible {
            total - visible
        } else {
            0
        };
        if self.offset > last {
            last
        } else {
            self.offset
        }
    }

    /// The offset after a move by `delta`.
    pub open spec fn moved(self, delta: int, total: int, visible: int) -> int {
        let to = self.kept(total, visible) + delta;
        if to < 0 {
            0
        } else if to > last_offset(total, visible) {
            last_offset(total, visible)
        } else {
            to
        }
    }

    /// After a move by `delta`: the indicator shows where the offset changed.
    pub open spec fn scrolled(self, delta: int, total: int, visible: int, now: u64) -> ScrollWindow {
        if self.moved(delta, total, visible) == self.offset {
            self
        } else {
            ScrollWindow {
                offset: self.moved(delta, total, visible) as usize,
                shown_at: Some(now),
            }
        }
    }

    /// Scrolls by `delta` units; whether anything moved.
    pub fn scroll_by(&mut self, delta: i64, total: usize, visible: usize, now: u64) -> (moved: bool)
        ensures
            *final(self) == old(self).scrolled(delta as int, total as int, visible as int, now),
            moved == (*final(self) != *old(self)),
    {
        let last: usize = if total > visible {
            total - visible
        } else {
            0
        };
        let from: usize = self.clamped(total, visible);
        let to: usize = if delta < 0 {
            let back: u64 = if delta == i64::MIN {
                0x8000_0000_0000_0000
            } else {
                (-delta) as u64
            };
            if from as u64 <= back {
                0
            } else {
                (from as u64 - back) as usize
            }
        } else if delta as u64 >= (last - from) as u64 {
            last
        } else {
            from + delta as usize
        };
        if to == self.offset {
            return false;
        }
        self.offset = to;
        self.shown_at = Some(now);
        true
    }

    /// Scrolls by one page.
    pub fn page(&mut self, step: usize, forward: bool, total: usize, visible: usize, now: u64)
        requires
            step <= i64::MAX,
        ensures
            *final(self) == old(self).scrolled(
                if forward {
                    step as int
                } else {
                    -(step as int)
                },
                total as int,
                visible as int,
                now,
            ),
    {
        let delta: i64 = if forward {
            step as i64
        } else {
            -(step as i64)
        };
        self.scroll_by(delta, total, visible, now);
    }

    /// The offset closest to the present one with row `idx` in view.
    pub open spec fn offset_for(self, idx: int, total: int, visible: int) -> int {
        let at = self.kept(total, visible);
        if idx < at {
            idx
        } else if idx >= at + visible {
            idx + 1 - visible
        } else {
            at
        }
    }

    /// Brings row `idx` into view; the indicator shows.
    pub fn scroll_into_view(&mut self, idx: usize, total: usize, visible: usize, now: u64)
        requires
            idx < total,
            1 <= visible,
        ensures
            final(self).offset == old(self).offset_for(idx as int, total as int, visible as int),
            final(self).shown_at == Some(now),
    {
        let at: usize = self.clamped(total, visible);
        if idx < at {
            self.offset = idx;
        } else if idx - at >= visible {
            self.offset = idx - (visible - 1);
        } else {
            self.offset = at;
        }
        self.shown_at = Some(now);
    }

    /// Whether the indicator is still seen.
    pub open spec fn indicated(self, now: u64) -> bool {
        self.shown_at matches Some(t) && elapsed(now, t) < SCROLL_INDICATOR_LIFETIME
    }

    /// Whether the indicator is still seen.
    pub fn shows_indicator(&self, now: u64) -> (r: bool)
        ensures
            r == self.indicated(now),
    {
        match self.shown_at {
            Some(t) => since(now, t) < SCROLL_INDICATOR_LIFETIME,
            None => false,
        }
    }
}

/// A row brought into view is in view, and the list does not end early.
pub proof fn law_row_in_view(w: ScrollWindow, idx: int, total: int, visible: int)
    requires
        0 <= idx < total,
        1 <= visible,
    ensures
        w.offset_for(idx, total, visible) <= idx < w.offset_for(idx, total, visible) + visible,
        0 <= w.offset_for(idx, total, visible) <= last_offset(total, visible),
{
}

/// However far a list is scrolled, its offset stays in range.
pub proof fn law_scroll_stays_in_range(w: ScrollWindow, delta: int, total: int, visible: int)
    ensures
        0 <= w.moved(delta, total, visible) <= last_offset(total, visible),
{
}

impl ContentWindow {
    /// Nothing rasterized.
    pub open spec fn empty() -> ContentWindow {
        ContentWindow { start: 0, len: 0 }
    }

    /// A window with nothing in it.
    pub fn new() -> (r: Self)
        ensures
            r == ContentWindow::empty(),
    {
        ContentWindow { start: 0, len: 0 }
    }

    /// Whether the lines in view, with `margin` more on both sides, are in the window, as far as
    /// the document has them.
    pub open spec fn covers(self, scroll: int, visible: int, total: int, margin: int) -> bool {
        &&& self.len > 0
        &&& self.start == 0 || self.start + margin <= scroll
        &&& self.start + self.len >= total || scroll + visible + margin <= self.start + self.len
    }

    /// Where a window of `budget` lines has to start for the lines in view to be in its middle.
    pub open spec fn centred(scroll: int, visible: int, total: int, budget: int) -> int {
        let lead = if budget > visible {
            (budget - visible) / 2
        } else {
            0
        };
        let start = if scroll > lead {
            scroll - lead
        } else {
            0
        };
        if start > last_offset(total, budget) && last_offset(total, budget) <= scroll {
            last_offset(total, budget)
        } else {
            start
        }
    }

    /// Where the window has to start, where it no longer covers what is in view.
    pub fn recenter_if_needed(
        &self,
        scroll: usize,
        visible: usize,
        total: usize,
        budget: usize,
        margin: usize,
    ) -> (r: Option<usize>)
        requires
            self.start + self.len <= 0x4000_0000,
            scroll + visible <= 0x4000_0000,
            margin <= 0x1000_0000,
        ensures
            r == (if self.covers(scroll as int, visible as int, total as int, margin as int) {
                None::<usize>
            } else {
                Some(
                    ContentWindow::centred(
                        scroll as int,
                        visible as int,
                        total as int,
                        budget as int,
                    ) as usize,
                )
            }),
    {
        let covered = self.len > 0 && (self.start == 0 || self.start + margin <= scroll) && (
        self.start + self.len >= total || scroll + visible + margin <= self.start + self.len);
        if covered {
            return None;
        }
        let lead: usize = if budget > visible {
            (budget - visible) / 2
        } else {
            0
        };
        let start: usize = if scroll > lead {
            scroll - lead
        } else {
            0
        };
        let last: usize = if total > budget {
            total - budget
        } else {
            0
        };
        if start > last && last <= scroll {
            Some(last)
        } else {
            Some(start)
        }
    }
}

/// A recentred window starts at or before the lines in view.
pub proof fn law_window_before_view(scroll: int, visible: int, total: int, budget: int)
    requires
        0 <= scroll,
        0 <= visible,
    ensures
        0 <= ContentWindow::centred(scroll, visible, total, budget) <= scroll,
{
}

/// A recentred window that has room for what is in view holds all of it.
pub proof fn law_window_holds_view(scroll: int, visible: int, total: int, budget: int)
    requires
        0 <= scroll,
        0 <= visible <= budget,
        scroll + visible <= total,
    ensures
        scroll + visible <= ContentWindow::centred(scroll, visible, total, budget) + budget,
{
}

/// A recentred window covers what is in view with its margins, so that it stays where it is until
/// the view moves, as long as it has room for the view and both margins.
pub proof fn law_recentred_window_stays(
    scroll: int,
    visible: int,
    total: int,
    budget: int,
    margin: int,
)
    requires
        0 <= scroll <= last_offset(total, visible),
        0 <= visible,
        0 <= margin,
        visible + 2 * margin <= budget,
        0 < budget,
        0 < total <= usize::MAX,
    ensures
        ({
            let start = ContentWindow::centred(scroll, visible, total, budget);
            let left = total - start;
            ContentWindow {
                start: start as usize,
                len: (if left < budget {
                    left
                } else {
                    budget
                }) as usize,
            }.covers(scroll, visible, total, margin)
        }),
{
}

impl ModalFade {
    /// Nothing fades.
    pub open spec fn still() -> ModalFade {
        ModalFade { opened_at: None, closing: None }
    }

    /// Nothing fades.
    pub fn new() -> (r: Self)
        ensures
            r == ModalFade::still(),
    {
        ModalFade { opened_at: None, closing: None }
    }

    /// The screen that is still fading out.
    pub open spec fn leaving(self, now: u64) -> Option<Screen> {
        match self.closing {
            Some((t, screen)) => if elapsed(now, t) < MODAL_FADE {
                Some(screen)
            } else {
                None
            },
            None => None,
        }
    }

    /// The screen that is still fading out.
    pub fn closing_frame(&self, now: u64) -> (r: Option<Screen>)
        ensures
            r == self.leaving(now),
    {
        match self.closing {
            Some((t, screen)) => if since(now, t) < MODAL_FADE {
                Some(screen)
            } else {
                None
            },
            None => None,
        }
    }

    /// After a move from one screen to another: only the way back to Home fades out, and coming
    /// back to a screen ends its own fading out.
    pub open spec fn moved(self, from: Screen, to: Screen, now: u64) -> ModalFade {
        if to == Screen::Home {
            ModalFade {
                closing: if from != Screen::Home {
                    Some((now, from))
                } else {
                    self.closing
                },
                ..self
            }
        } else {
            ModalFade {
                opened_at: Some(now),
                closing: match self.closing {
                    Some((t, screen)) => if screen == to {
                        None
                    } else {
                        Some((t, screen))
                    },
                    None => None,
                },
            }
        }
    }

    /// Fades for a move from one screen to another.
    pub fn switch(&mut self, from: Screen, to: Screen, now: u64)
        ensures
            *final(self) == old(self).moved(from, to, now),
    {
        if to == Screen::Home {
            if from != Screen::Home {
                self.closing = Some((now, from));
            }
        } else {
            self.opened_at = Some(now);
            let same = match self.closing {
                Some((_, screen)) => screen == to,
                None => false,
            };
            if same {
                self.closing = None;
            }
        }
    }

    /// Whether the open screen is still fading in.
    pub open spec fn entering(self, now: u64) -> bool {
        self.opened_at matches Some(t) && elapsed(now, t) < MODAL_FADE
    }

    /// After a tick: fades that have ended are dropped.
    pub open spec fn ticked(self, now: u64) -> ModalFade {
        ModalFade {
            opened_at: if self.entering(now) {
                self.opened_at
            } else {
                None
            },
            closing: if self.leaving(now) is Some {
                self.closing
            } else {
                None
            },
        }
    }

    /// Drops fades that have ended; whether any still runs or just ended.
    pub fn tick(&mut self, now: u64) -> (busy: bool)
        ensures
            *final(self) == old(self).ticked(now),
            busy == (old(self).opened_at is Some || old(self).closing is Some),
    {
        let busy = self.opened_at.is_some() || self.closing.is_some();
        match self.opened_at {
            Some(t) => if since(now, t) >= MODAL_FADE {
                self.opened_at = None;
            },
            None => {},
        }
        match self.closing_frame(now) {
            Some(_) => {},
            None => {
                self.closing = None;
            },
        }
        busy
    }
}

/// A list moves by as much as it is scrolled, and stops at its ends: at its top, and where its
/// last row is the last in view. The indicator shows from every move on, and from nothing else.
pub proof fn law_list_moves_by_the_scroll(
    w: ScrollWindow,
    delta: int,
    total: int,
    visible: int,
    now: u64,
)
    requires
        0 <= visible,
        0 <= total <= usize::MAX,
        w.offset + visible <= total || w.offset == 0,
    ensures
        ({
            let last = if total > visible {
                total - visible
            } else {
                0
            };
            let t = w.scrolled(delta, total, visible, now);
            let asked = w.offset + delta;
            &&& 0 <= asked <= last ==> t.offset == asked
            &&& asked < 0 ==> t.offset == 0
            &&& asked > last && asked >= 0 ==> t.offset == last
            &&& t.offset != w.offset ==> t.shown_at == Some(now)
            &&& t.offset == w.offset ==> t == w
        }),
{
}

/// A row already in view does not make the list move; one above becomes the first in view, one
/// below the last.
pub proof fn law_row_comes_just_into_view(w: ScrollWindow, idx: int, total: int, visible: int)
    requires
        0 <= idx < total,
        1 <= visible,
        w.offset + visible <= total || w.offset == 0,
    ensures
        ({
            let to = w.offset_for(idx, total, visible);
            &&& w.offset <= idx < w.offset + visible ==> to == w.offset
            &&& idx < w.offset ==> to == idx
            &&& idx >= w.offset + visible ==> to + visible == idx + 1
        }),
{
}

/// A modal that is opened fades in from then; one that is left for Home fades out from then, and
/// still shows meanwhile. Moving from one modal to another fades none out, and coming back to one
/// ends its own fading out.
pub proof fn law_modals_fade(f: ModalFade, from: Screen, to: Screen, now: u64)
    ensures
        ({
            let t = f.moved(from, to, now);
            &&& to != Screen::Home ==> t.opened_at == Some(now)
            &&& to == Screen::Home ==> t.opened_at == f.opened_at
            &&& to == Screen::Home && from != Screen::Home ==> t.closing == Some((now, from))
                && t.leaving(now) == Some(from)
            &&& to == Screen::Home && from == Screen::Home ==> t == f
            &&& to != Screen::Home ==> (t.closing matches Some((at, screen)) ==> screen != to
                && f.closing == Some((at, screen)))
            &&& to != Screen::Home ==> (f.closing matches Some((at, screen)) ==> (screen != to
                ==> t.closing == f.closing))
        }),
{
}

/// A screen that is fading out shows for 200 ms and no longer, the indicator of a list for 1050.
pub proof fn law_fades_last(f: ModalFade, w: ScrollWindow, now: u64)
    ensures
        f.leaving(now) matches Some(screen) ==> (f.closing matches Some((t, s)) && s == screen && now
            < t + 200),
        f.closing matches Some((t, screen)) ==> (now < t + 200 ==> f.leaving(now) == Some(screen)),
        w.indicated(now) == (w.shown_at is Some && now < w.shown_at->0 + 1050),
{
}

/// A new list is at its top, with nothing to show that it was scrolled.
pub proof fn law_new_list_is_at_its_top(now: u64)
    ensures
        ScrollWindow::top().offset == 0,
        !ScrollWindow::top().indicated(now),
{
}

} // verus!
