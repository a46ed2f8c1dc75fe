//! Animations: what moves on from one frame to the next, and when it ends.
use vstd::prelude::*;

use crate::app::scroll::{elapsed, since, SCROLL_INDICATOR_LIFETIME};
use crate::app::tiles::TilesView;
use crate::app::{App, AppView, CanvasView, Nav, Prefs, ScrollWindow};

verus! {

broadcast use crate::seqs::group_views;

/// Milliseconds that a card takes to another cell.
pub const PIN_MOVE_ANIM: u64 = 300;

/// Milliseconds that a card takes to zoom in.
pub const CARD_POP: u64 = 300;

/// How long the animations of the widgets take, in milliseconds.
#[derive(Clone, Copy, Debug)]
pub struct Tempo {
    /// The pop of a widget that takes the focus.
    pub focus_pop: u64,
    /// The darkening when a launch begins.
    pub launch_fade: u64,
}

/// Whether an animation that began at `at` still runs.
pub open spec fn running(at: Option<u64>, length: u64, now: u64) -> bool {
    at matches Some(t) && elapsed(now, t) < length
}

/// Whether an animation that began at `at` still runs.
fn still_running(at: Option<u64>, length: u64, now: u64) -> (r: bool)
    ensures
        r == running(at, length, now),
{
    match at {
        Some(t) => since(now, t) < length,
        None => false,
    }
}

/// The clock of an animation, dropped once it has ended.
pub open spec fn ticking(at: Option<u64>, length: u64, now: u64) -> Option<u64> {
    if running(at, length, now) {
        at
    } else {
        None
    }
}

fn tick_clock(at: Option<u64>, length: u64, now: u64) -> (r: Option<u64>)
    ensures
        r == ticking(at, length, now),
{
    if still_running(at, length, now) {
        at
    } else {
        None
    }
}

/// How far an eased scroll goes with `d` pixels left, of which `eased` are about a third: all of
/// it at the end, and never nothing.
pub open spec fn scroll_step(d: int, eased: int) -> int {
    if -3 <= d <= 3 {
        d
    } else if eased == 0 {
        if d > 0 {
            1
        } else {
            -1
        }
    } else {
        eased
    }
}

/// A step that does not go beyond the target.
pub open spec fn eased_right(d: int, eased: int) -> bool {
    if d >= 0 {
        0 <= eased <= d
    } else {
        d <= eased <= 0
    }
}

impl AppView {
    /// The pixels that the grid has yet to scroll.
    pub open spec fn scroll_left(self) -> int {
        self.canvas.grid_scroll_target - self.canvas.grid_scroll
    }

    /// Whether a card still zooms in.
    pub open spec fn cards_popping(self, now: u64) -> bool {
        exists|i: int|
            0 <= i < self.tiles.card_tiles.len() && (#[trigger] self.tiles.card_tiles[i] matches Some(
                c,
            ) && running(c.pop_since, CARD_POP, now))
    }

    /// Whether the next frame differs from this one: an animation that has just ended is drawn
    /// once more.
    pub open spec fn animated(self, tempo: Tempo, now: u64) -> bool {
        ||| self.scroll_left() != 0
        ||| self.nav.focus_anim is Some
        ||| self.nav.modal_fade.opened_at is Some
        ||| self.nav.modal_fade.closing is Some
        ||| running(self.shelf.launch_anim, tempo.launch_fade, now)
        ||| self.nav.modal_focus_anim is Some
        ||| self.nav.switch_anim is Some
        ||| self.prefs.scroll.shown_at is Some
        ||| self.canvas.pin_move_anim is Some
        ||| self.cards_popping(now)
    }

    /// Whether the flight of a card still runs.
    pub open spec fn flying(self, now: u64) -> bool {
        self.canvas.pin_move_anim matches Some((t, _, _)) && elapsed(now, t) < PIN_MOVE_ANIM
    }

    /// After one tick.
    pub open spec fn ticked(self, eased: int, tempo: Tempo, now: u64) -> AppView {
        AppView {
            nav: Nav {
                focus_anim: ticking(self.nav.focus_anim, tempo.focus_pop, now),
                modal_fade: self.nav.modal_fade.ticked(now),
                modal_focus_anim: ticking(self.nav.modal_focus_anim, tempo.focus_pop, now),
                switch_anim: match self.nav.switch_anim {
                    Some((t, from)) => if elapsed(now, t) < tempo.focus_pop {
                        Some((t, from))
                    } else {
                        None
                    },
                    None => None,
                },
                ..self.nav
            },
            prefs: Prefs {
                scroll: ScrollWindow {
                    shown_at: ticking(self.prefs.scroll.shown_at, SCROLL_INDICATOR_LIFETIME, now),
                    ..self.prefs.scroll
                },
                ..self.prefs
            },
            canvas: CanvasView {
                grid_scroll: (self.canvas.grid_scroll + scroll_step(
                    self.scroll_left(),
                    eased,
                )) as i32,
                pin_move_anim: if self.flying(now) {
                    self.canvas.pin_move_anim
                } else {
                    None
                },
                ..self.canvas
            },
            tiles: TilesView {
                pin_move_tile: self.tiles.pin_move_tile && (self.canvas.pin_move_anim is None
                    || self.flying(now)),
                ..self.tiles
            },
            ..self
        }
    }
}

impl App {
    fn any_card_pops(&self, now: u64) -> (r: bool)
        ensures
            r == self@.cards_popping(now),
    {
        let mut i: usize = 0;
        while i < self.tiles.card_tiles.len()
            invariant
                i <= self.tiles.card_tiles.len(),
                forall|j: int|
                    0 <= j < i ==> !(#[trigger] self@.tiles.card_tiles[j] matches Some(c)
                        && running(c.pop_since, CARD_POP, now)),
            decreases self.tiles.card_tiles.len() - i,
        {
            match self.tiles.card_tiles[i] {
                Some(c) => {
                    if still_running(c.pop_since, CARD_POP, now) {
                        assert(self@.tiles.card_tiles[i as int] matches Some(c) && running(
                            c.pop_since,
                            CARD_POP,
                            now,
                        ));
                        return true;
                    }
                },
                None => {},
            }
            i += 1;
        }
        false
    }

    fn tick_scroll(&mut self, eased: i32) -> (moving: bool)
        requires
            0 <= old(self)@.canvas.grid_scroll <= 0x4000_0000,
            0 <= old(self)@.canvas.grid_scroll_target <= 0x4000_0000,
            eased_right(old(self)@.scroll_left(), eased as int),
        ensures
            final(self)@ == (AppView {
                canvas: CanvasView {
                    grid_scroll: (old(self)@.canvas.grid_scroll + scroll_step(
                        old(self)@.scroll_left(),
                        eased as int,
                    )) as i32,
                    ..old(self)@.canvas
                },
                ..old(self)@
            }),
            moving == (old(self)@.scroll_left() != 0),
    {
        let d: i32 = self.canvas.grid_scroll_target - self.canvas.grid_scroll;
        let step: i32 = if -3 <= d && d <= 3 {
            d
        } else if eased == 0 {
            if d > 0 {
                1
            } else {
                -1
            }
        } else {
            eased
        };
        self.canvas.grid_scroll = self.canvas.grid_scroll + step;
        d != 0
    }

    fn tick_flight(&mut self, now: u64) -> (moving: bool)
        ensures
            final(self)@ == (AppView {
                canvas: CanvasView {
                    pin_move_anim: if old(self)@.flying(now) {
                        old(self)@.canvas.pin_move_anim
                    } else {
                        None
                    },
                    ..old(self)@.canvas
                },
                tiles: TilesView {
                    pin_move_tile: old(self)@.tiles.pin_move_tile && (old(
                        self,
                    )@.canvas.pin_move_anim is None || old(self)@.flying(now)),
                    ..old(self)@.tiles
                },
                ..old(self)@
            }),
            moving == (old(self)@.canvas.pin_move_anim is Some),
    {
        match self.canvas.pin_move_anim {
            Some((t, _, _)) => {
                if since(now, t) >= PIN_MOVE_ANIM {
                    self.canvas.pin_move_anim = None;
                    self.tiles.pin_move_tile = false;
                }
                true
            },
            None => false,
        }
    }

    fn tick_clocks(&mut self, tempo: &Tempo, now: u64) -> (moving: bool)
        ensures
            final(self)@ == (AppView {
                nav: old(self)@.ticked(0, *tempo, now).nav,
                prefs: old(self)@.ticked(0, *tempo, now).prefs,
                ..old(self)@
            }),
            moving == (old(self)@.nav.focus_anim is Some || old(self)@.nav.modal_fade.opened_at
                is Some || old(self)@.nav.modal_fade.closing is Some || old(
                self,
            )@.nav.modal_focus_anim is Some || old(self)@.nav.switch_anim is Some || old(
                self,
            )@.prefs.scroll.shown_at is Some),
    {
        let mut moving = self.nav.focus_anim.is_some() || self.nav.modal_focus_anim.is_some()
            || self.prefs.scroll.shown_at.is_some();
        self.nav.focus_anim = tick_clock(self.nav.focus_anim, tempo.focus_pop, now);
        self.nav.modal_focus_anim = tick_clock(self.nav.modal_focus_anim, tempo.focus_pop, now);
        self.prefs.scroll.shown_at = tick_clock(
            self.prefs.scroll.shown_at,
            SCROLL_INDICATOR_LIFETIME,
            now,
        );
        if self.nav.modal_fade.tick(now) {
            moving = true;
        }
        match self.nav.switch_anim {
            Some((t, _)) => {
                if since(now, t) >= tempo.focus_pop {
                    self.nav.switch_anim = None;
                }
                moving = true;
            },
            None => {},
        }
        moving
    }

    /// Moves every animation on by one tick. `eased` is about a third of what the grid has yet to
    /// scroll. Returns whether the next frame differs from this one.
    pub fn tick_animations(&mut self, eased: i32, tempo: &Tempo, now: u64) -> (moving: bool)
        requires
            0 <= old(self)@.canvas.grid_scroll <= 0x4000_0000,
            0 <= old(self)@.canvas.grid_scroll_target <= 0x4000_0000,
            eased_right(old(self)@.scroll_left(), eased as int),
        ensures
            final(self)@ == old(self)@.ticked(eased as int, *tempo, now),
            moving == old(self)@.animated(*tempo, now),
    {
        let scrolls = self.tick_scroll(eased);
        let clocks = self.tick_clocks(tempo, now);
        let flies = self.tick_flight(now);
        let launches = still_running(self.shelf.launch_anim, tempo.launch_fade, now);
        let pops = self.any_card_pops(now);
        scrolls || clocks || flies || launches || pops
    }
}

/// An eased scroll gets closer to its target with every tick, never goes beyond it, and so ends.
pub proof fn law_scroll_settles(d: int, eased: int)
    requires
        d != 0,
        eased_right(d, eased),
    ensures
        ({
            let left = d - scroll_step(d, eased);
            if d > 0 {
                0 <= left < d
            } else {
                d < left <= 0
            }
        }),
{
}

/// Once every animation has ended, a tick changes nothing and asks for no frame.
pub proof fn law_rest_is_still(s: AppView, tempo: Tempo, now: u64)
    requires
        !s.animated(tempo, now),
    ensures
        s.ticked(0, tempo, now) == s,
{
}

/// A tick drops the clocks that have run out and no other: the pops of a focused widget after
/// their length, the slide of a switch likewise, the fade of a modal after 200 ms, the flight of a
/// card after 300 ms and the scroll indicator after 1050 ms. It moves the focus, the screen and
/// the target of the scroll nowhere.
pub proof fn law_clocks_run_out(s: AppView, eased: int, tempo: Tempo, now: u64)
    ensures
        ({
            let t = s.ticked(eased, tempo, now);
            &&& t.nav.focus_anim == (if s.nav.focus_anim is Some && now < s.nav.focus_anim->0
                + tempo.focus_pop && tempo.focus_pop > 0 {
                s.nav.focus_anim
            } else {
                None
            })
            &&& t.nav.modal_focus_anim == (if s.nav.modal_focus_anim is Some && now
                < s.nav.modal_focus_anim->0 + tempo.focus_pop && tempo.focus_pop > 0 {
                s.nav.modal_focus_anim
            } else {
                None
            })
            &&& t.nav.switch_anim == (if s.nav.switch_anim is Some && now < (s.nav.switch_anim->0).0
                + tempo.focus_pop && tempo.focus_pop > 0 {
                s.nav.switch_anim
            } else {
                None
            })
            &&& t.nav.modal_fade.opened_at == (if s.nav.modal_fade.opened_at is Some && now
                < s.nav.modal_fade.opened_at->0 + 200 {
                s.nav.modal_fade.opened_at
            } else {
                None
            })
            &&& t.nav.modal_fade.closing == (if s.nav.modal_fade.closing is Some && now < (
            s.nav.modal_fade.closing->0).0 + 200 {
                s.nav.modal_fade.closing
            } else {
                None
            })
            &&& t.prefs.scroll.shown_at == (if s.prefs.scroll.shown_at is Some && now
                < s.prefs.scroll.shown_at->0 + 1050 {
                s.prefs.scroll.shown_at
            } else {
                None
            })
            &&& t.canvas.pin_move_anim == (if s.canvas.pin_move_anim is Some && now < (
            s.canvas.pin_move_anim->0).0 + 300 {
                s.canvas.pin_move_anim
            } else {
                None
            })
            &&& t.nav.screen == s.nav.screen && t.nav.home_focus == s.nav.home_focus
            &&& t.canvas.grid_scroll_target == s.canvas.grid_scroll_target
            &&& t.prefs.scroll.offset == s.prefs.scroll.offset
            &&& t.shelf == s.shelf && t.hosts == s.hosts && t.outbox == s.outbox
        }),
{
}

/// Within three pixels the grid jumps to its target; farther off it goes as far as it is eased,
/// and at least one pixel.
pub proof fn law_scroll_reaches_its_target(s: AppView, eased: int, tempo: Tempo, now: u64)
    requires
        0 <= s.canvas.grid_scroll <= 0x4000_0000,
        0 <= s.canvas.grid_scroll_target <= 0x4000_0000,
        eased_right(s.scroll_left(), eased),
    ensures
        ({
            let from = s.canvas.grid_scroll as int;
            let target = s.canvas.grid_scroll_target as int;
            let to = s.ticked(eased, tempo, now).canvas.grid_scroll as int;
            &&& -3 <= target - from <= 3 ==> to == target
            &&& target - from > 3 && eased > 0 ==> to == from + eased
            &&& target - from < -3 && eased < 0 ==> to == from + eased
            &&& target - from > 3 && eased == 0 ==> to == from + 1
            &&& target - from < -3 && eased == 0 ==> to == from - 1
            &&& from <= target ==> from <= to <= target
            &&& from >= target ==> target <= to <= from
        }),
{
}

/// Another frame is asked for while anything moves: the scroll on its way, the focus or a switch
/// popping, a modal fading, a launch darkening, a card flying or zooming in, or the indicator being
/// seen.
pub proof fn law_frames_are_asked_for_while_moving(s: AppView, tempo: Tempo, now: u64, i: int)
    ensures
        0 <= i < s.tiles.card_tiles.len() && (s.tiles.card_tiles[i] matches Some(c) && (c.pop_since
            matches Some(t) && t <= now < t + 300)) ==> s.animated(tempo, now),
        s.canvas.grid_scroll != s.canvas.grid_scroll_target ==> s.animated(tempo, now),
        s.nav.focus_anim is Some || s.nav.modal_focus_anim is Some || s.nav.switch_anim is Some
            || s.nav.modal_fade.opened_at is Some || s.nav.modal_fade.closing is Some
            || s.prefs.scroll.shown_at is Some || s.canvas.pin_move_anim is Some ==> s.animated(
            tempo,
            now,
        ),
        s.shelf.launch_anim matches Some(t) ==> (t <= now < t + tempo.launch_fade ==> s.animated(
            tempo,
            now,
        )),
{
}

} // verus!
