//! Pinning cards.
use vstd::prelude::*;

use crate::app::cards::{card_names, without_cards};
use crate::app::grid::{
    game_ids, ids_distinct, ids_of, law_cell_of_pin_id, lemma_cells, GridLayout,
};
use crate::app::home::lemma_layout_wf;
use crate::app::launch::pins_of;
use crate::app::order::{by_title, law_by_title_sorts, law_pinning_keeps_games};
use crate::app::tiles::{CardTile, TilesView};
use crate::app::{App, AppView, CanvasView, Command, CommandView, HomeFocus, HostsView, Screen};
use crate::compositor::Tile;
use crate::geometry::{Rect, Viewport};
use crate::library::{GameView, GamesLoaded};
use crate::model::event::MenuEvent;
use crate::seqs::views;
use crate::store::{host_index, pins_toggled, KnownHostView, DESKTOP_PIN_ID};

verus! {

broadcast use crate::seqs::group_views;

impl AppView {
    /// The pin id of the focused card.
    pub open spec fn focused_pin(self, columns: int) -> Option<Seq<char>> {
        match self.nav.home_focus {
            HomeFocus::Grid(i) => self.pin_id_at(i as int, columns),
            _ => None,
        }
    }

    /// With the pin `id` of the selected host switched, and the library in its new order.
    pub open spec fn pin_switched(self, id: Seq<char>, columns: int) -> AppView {
        self.cards_moved(self.pin_saved(id), columns)
    }

    /// With that done but for the cards that are rasterized.
    pub open spec fn pin_saved(self, id: Seq<char>) -> AppView {
        let known = self.selected_known()->0;
        let (h, p) = self.hosts.selected_host->0;
        let s = AppView {
            hosts: HostsView {
                known_hosts: self.hosts.known_hosts.update(
                    host_index(self.hosts.known_hosts, h, p),
                    KnownHostView { pinned: pins_toggled(known.pinned, id), ..known },
                ),
                ..self.hosts
            },
            ..self
        }.asking(CommandView::SaveKnownHosts);
        s.shelved(s.shelf.games)
    }

    /// The card in cell `i` of `to`, where it is rasterized and up to date.
    pub open spec fn card_for(self, to: AppView, columns: int, i: int) -> Option<CardTile> {
        let kept = without_cards(self.tiles.card_tiles, self.canvas.grid_cards_dirty);
        match to.pin_id_at(i, columns) {
            None => None,
            Some(id) => match self.layout(columns).cell_of(self.shelf.games, id) {
                Some(j) => if j < kept.len() {
                    kept[j]
                } else {
                    None
                },
                None => None,
            },
        }
    }

    /// The desktop's card, where it is rasterized and no longer shown in `to`.
    pub open spec fn left_behind(self, to: AppView, columns: int) -> Seq<Tile> {
        let cards = self.tiles.card_tiles;
        match self.layout(columns).cell_of(self.shelf.games, DESKTOP_PIN_ID@) {
            Some(j) => if j < cards.len() && cards[j] is Some && to.layout(columns).cell_of(
                to.shelf.games,
                DESKTOP_PIN_ID@,
            ) is None {
                seq![Tile::Card((cards[j]->0).slot)]
            } else {
                seq![]
            },
            None => seq![],
        }
    }

    /// `to`, with each card of `self` that is rasterized in the cell that it has there. Cards of a
    /// grid that is stale anyway are dropped.
    pub open spec fn cards_moved(self, to: AppView, columns: int) -> AppView {
        if self.cards_stale(self.grid_len(columns)) {
            AppView {
                canvas: CanvasView {
                    evicted_tiles: to.canvas.evicted_tiles + card_names(self.tiles.card_tiles),
                    grid_cards_dirty: seq![],
                    ..to.canvas
                },
                ..to.cards_as(seq![])
            }
        } else {
            AppView {
                canvas: CanvasView {
                    evicted_tiles: to.canvas.evicted_tiles + self.left_behind(to, columns),
                    grid_cards_dirty: seq![],
                    ..to.canvas
                },
                ..to.cards_as(
                    Seq::new(
                        to.grid_len(columns) as nat,
                        |i: int| self.card_for(to, columns, i),
                    ),
                )
            }
        }
    }

    /// With the focus, and a picture of the card on its way, in the cell that `id` has now.
    pub open spec fn followed(
        self,
        id: Seq<char>,
        from: Rect,
        vp: Viewport,
        snapshot: bool,
        now: u64,
    ) -> AppView {
        match self.layout(vp.columns as int).cell_of(self.shelf.games, id) {
            None => self,
            Some(to) => {
                let s = self.at_cell(to, vp, now);
                if snapshot {
                    AppView {
                        tiles: TilesView { pin_move_tile: true, ..s.tiles },
                        canvas: CanvasView {
                            pin_move_anim: Some((now, from, s.unscrolled(vp, to))),
                            ..s.canvas
                        },
                        ..s
                    }
                } else {
                    s
                }
            },
        }
    }

    /// After switching the pin of the focused card; there is an alert where there are too many.
    pub open spec fn pin_toggled(
        self,
        vp: Viewport,
        max_pins: usize,
        snapshot: bool,
        now: u64,
    ) -> AppView {
        match (self.focused_pin(vp.columns as int), self.selected_known()) {
            (Some(id), Some(known)) => if known.pinned.contains(id) || known.pinned.len()
                < max_pins {
                self.pin_switched(id, vp.columns as int).followed(
                    id,
                    self.unscrolled(vp, (self.nav.home_focus->Grid_0) as int),
                    vp,
                    snapshot,
                    now,
                )
            } else {
                self.on(Screen::PinLimit)
            },
            _ => self,
        }
    }
}

/// Switching a pin keeps the library, so that its grid still fits.
pub(crate) proof fn lemma_switched_fits(s: AppView, id: Seq<char>, vp: Viewport)
    requires
        s.fits(vp),
        s.selected_known() is Some,
        vp.grid_fits(4 * s.shelf.games.len() + vp.columns + 2),
    ensures
        s.pin_switched(id, vp.columns as int).fits(vp),
        s.pin_saved(id).fits(vp),
        s.pin_saved(id).shelf.games.len() == s.shelf.games.len(),
{
    let known = s.selected_known()->0;
    let (h, p) = s.hosts.selected_host->0;
    let t = AppView {
        hosts: HostsView {
            known_hosts: s.hosts.known_hosts.update(
                host_index(s.hosts.known_hosts, h, p),
                KnownHostView { pinned: pins_toggled(known.pinned, id), ..known },
            ),
            ..s.hosts
        },
        ..s
    }.asking(CommandView::SaveKnownHosts);
    law_pinning_keeps_games(t.shelf.games, pins_of(t.selected_known()));
    let after = s.pin_switched(id, vp.columns as int);
    let b = after.cell_bound(vp.columns as int);
    assert forall|i: int| 0 <= i <= b implies #[trigger] vp.cell_fits(i) by {}
}

impl App {
    /// The pin id of the focused card.
    pub fn focused_pin_id(&self, columns: usize) -> (r: Option<String>)
        requires
            self@.sized(columns as int),
        ensures
            match r {
                Some(id) => self@.focused_pin(columns as int) == Some(id@),
                None => self@.focused_pin(columns as int) is None,
            },
    {
        match self.nav.home_focus {
            HomeFocus::Grid(i) => self.pin_id_at_grid_idx(i, columns),
            _ => None,
        }
    }

    fn drop_all_cards(&mut self)
        ensures
            final(self)@ == (AppView {
                canvas: CanvasView {
                    evicted_tiles: old(self)@.canvas.evicted_tiles + card_names(
                        old(self)@.tiles.card_tiles,
                    ),
                    grid_cards_dirty: seq![],
                    ..old(self)@.canvas
                },
                ..old(self)@.cards_as(seq![])
            }),
    {
        self.forget_textures();
        self.tiles.card_tiles = Vec::new();
        self.canvas.grid_cards_dirty = Vec::new();
        assert(self@.tiles.card_tiles =~= seq![]);
        assert(self@.canvas.grid_cards_dirty =~= seq![]);
    }

    fn leave_desktop(
        &mut self,
        Ghost(was): Ghost<AppView>,
        before: &GridLayout,
        ids: &Vec<String>,
        columns: usize,
    )
        requires
            old(self)@.sized(columns as int),
            was.sized(columns as int),
            old(self)@.tiles == was.tiles,
            *before == was.layout(columns as int),
            views(ids@) == game_ids(was.shelf.games),
        ensures
            final(self)@ == (AppView {
                canvas: CanvasView {
                    evicted_tiles: old(self)@.canvas.evicted_tiles + was.left_behind(
                        old(self)@,
                        columns as int,
                    ),
                    ..old(self)@.canvas
                },
                ..old(self)@
            }),
    {
        let ghost c = columns as int;
        let ghost to = self@;
        proof {
            lemma_layout_wf(was, c);
            lemma_layout_wf(to, c);
            assert(views(ids@).len() == game_ids(was.shelf.games).len());
            assert(before.wf(ids.len() as int, c));
        }
        let after = self.grid_layout(columns);
        let gone = after.idx_for_pin_id(&self.shelf.games, DESKTOP_PIN_ID).is_none();
        if let Some(j) = before.idx_among(ids, DESKTOP_PIN_ID) {
            if gone && j < self.tiles.card_tiles.len() {
                if let Some(card) = self.tiles.card_tiles[j] {
                    self.canvas.evicted_tiles.push(Tile::Card(card.slot));
                }
            }
        }
        assert(self@.canvas.evicted_tiles =~= to.canvas.evicted_tiles + was.left_behind(to, c));
    }

    fn placed_cards(
        &self,
        Ghost(was): Ghost<AppView>,
        before: &GridLayout,
        ids: &Vec<String>,
        columns: usize,
    ) -> (cards: Vec<Option<CardTile>>)
        requires
            self@.sized(columns as int),
            was.sized(columns as int),
            self@.tiles.card_tiles == without_cards(
                was.tiles.card_tiles,
                was.canvas.grid_cards_dirty,
            ),
            *before == was.layout(columns as int),
            views(ids@) == game_ids(was.shelf.games),
        ensures
            cards@ == Seq::new(
                self@.grid_len(columns as int) as nat,
                |i: int| was.card_for(self@, columns as int, i),
            ),
    {
        let ghost c = columns as int;
        proof {
            lemma_layout_wf(was, c);
            assert(views(ids@).len() == game_ids(was.shelf.games).len());
        }
        let count: usize = self.grid_len(columns);
        let mut cards: Vec<Option<CardTile>> = Vec::new();
        let mut i: usize = 0;
        while i < count
            invariant
                i <= count,
                count == self@.grid_len(c),
                c == columns as int,
                self@.sized(c),
                self@.tiles.card_tiles == without_cards(
                    was.tiles.card_tiles,
                    was.canvas.grid_cards_dirty,
                ),
                *before == was.layout(c),
                before.wf(ids.len() as int, c),
                views(ids@) == game_ids(was.shelf.games),
                cards.len() == i,
                forall|k: int| 0 <= k < i ==> #[trigger] cards@[k] == was.card_for(self@, c, k),
            decreases count - i,
        {
            let card: Option<CardTile> = match self.pin_id_at_grid_idx(i, columns) {
                None => None,
                Some(id) => match before.idx_among(ids, id.as_str()) {
                    Some(j) => if j < self.tiles.card_tiles.len() {
                        self.tiles.card_tiles[j]
                    } else {
                        None
                    },
                    None => None,
                },
            };
            cards.push(card);
            i += 1;
        }
        assert(cards@ =~= Seq::new(self@.grid_len(c) as nat, |i: int| was.card_for(self@, c, i)));
        cards
    }

    fn move_cards(
        &mut self,
        Ghost(was): Ghost<AppView>,
        before: &GridLayout,
        ids: &Vec<String>,
        columns: usize,
    )
        requires
            old(self)@.sized(columns as int),
            was.sized(columns as int),
            old(self)@.tiles == was.tiles,
            old(self)@.canvas == was.canvas,
            *before == was.layout(columns as int),
            views(ids@) == game_ids(was.shelf.games),
            !was.cards_stale(was.grid_len(columns as int)),
        ensures
            final(self)@ == was.cards_moved(old(self)@, columns as int),
    {
        let ghost c = columns as int;
        let ghost to = self@;
        self.leave_desktop(Ghost(was), before, ids, columns);
        self.freshen_cards();
        let ghost fresh = self@;
        assert(fresh.layout(c) == to.layout(c));
        let cards = self.placed_cards(Ghost(was), before, ids, columns);
        self.tiles.card_tiles = cards;
        proof {
            assert forall|i: int| was.card_for(fresh, c, i) == was.card_for(to, c, i) by {
                assert(fresh.pin_id_at(i, c) == to.pin_id_at(i, c));
            }
            assert(self@.tiles.card_tiles =~= was.cards_moved(to, c).tiles.card_tiles);
        }
        assert(self@ == was.cards_moved(to, c));
    }

    fn switch_pin(&mut self, at: usize, id: &String, columns: usize)
        requires
            old(self)@.sized(columns as int),
            old(self)@.selected_known() is Some,
            at < old(self).hosts.known_hosts.len(),
            at == host_index(
                old(self)@.hosts.known_hosts,
                (old(self)@.hosts.selected_host->0).0,
                (old(self)@.hosts.selected_host->0).1,
            ),
        ensures
            final(self)@ == old(self)@.pin_switched(id@, columns as int),
    {
        let before = self.grid_layout(columns);
        let ids = ids_of(&self.shelf.games);
        let stale = self.canvas.grid_dirty || self.tiles.card_tiles.len() != self.grid_len(columns);
        let ghost was = self@;
        let mut record = self.hosts.known_hosts[at].clone();
        record.toggle_pin(id.as_str());
        self.hosts.known_hosts.set(at, record);
        self.outbox.push(Command::SaveKnownHosts);
        self.reorder_games_by_pin();
        assert(self@ == was.pin_saved(id@));
        if stale {
            self.drop_all_cards();
        } else {
            proof {
                law_pinning_keeps_games(was.shelf.games, pins_of(was.pin_saved(id@).selected_known()));
            }
            self.move_cards(Ghost(was), &before, &ids, columns);
        }
    }

    fn follow_pin(&mut self, id: &String, from: Rect, vp: &Viewport, snapshot: bool, now: u64)
        requires
            old(self)@.fits(*vp),
        ensures
            final(self)@ == old(self)@.followed(id@, from, *vp, snapshot, now),
    {
        match self.grid_idx_for_pin_id(id.as_str(), vp.columns) {
            None => {},
            Some(to) => {
                proof {
                    lemma_layout_wf(self@, vp.columns as int);
                    crate::seqs::lemma_index_in(
                        crate::app::grid::game_ids(self@.shelf.games),
                        id@,
                    );
                }
                self.nav.home_focus = HomeFocus::Grid(to);
                self.ensure_grid_visible(vp, to, now);
                if snapshot {
                    let rect = self.unscrolled_card_rect(vp, to);
                    self.tiles.pin_move_tile = true;
                    self.canvas.pin_move_anim = Some((now, from, rect));
                }
            },
        }
    }

    /// Switches the pin of the focused card. `snapshot` tells whether a picture of the card could
    /// be taken, which then moves to the card's new place.
    pub fn toggle_focused_pin(&mut self, vp: &Viewport, max_pins: usize, snapshot: bool, now: u64)
        requires
            old(self)@.home_ready(*vp),
            vp.grid_fits(4 * old(self)@.shelf.games.len() + vp.columns + 2),
        ensures
            final(self)@ == old(self)@.pin_toggled(*vp, max_pins, snapshot, now),
    {
        let at_cell: usize = match self.nav.home_focus {
            HomeFocus::Grid(i) => i,
            _ => {
                return ;
            },
        };
        let id = match self.pin_id_at_grid_idx(at_cell, vp.columns) {
            None => {
                return ;
            },
            Some(id) => id,
        };
        let at: usize = match self.selected_known_host() {
            None => {
                return ;
            },
            Some(i) => i,
        };
        if !self.hosts.known_hosts[at].can_toggle_pin(id.as_str(), max_pins) {
            self.open_pin_limit();
            return ;
        }
        let from = self.unscrolled_card_rect(vp, at_cell);
        proof {
            lemma_switched_fits(self@, id@, *vp);
        }
        self.switch_pin(at, &id, vp.columns);
        self.follow_pin(&id, from, vp, snapshot, now);
    }

    /// Tells the user that no more cards can be pinned.
    pub fn open_pin_limit(&mut self)
        ensures
            final(self)@ == old(self)@.on(Screen::PinLimit),
    {
        self.nav.screen = Screen::PinLimit;
    }

    /// Handles one event on the alert: both ways out lead back to Home.
    pub fn handle_pin_limit_event(&mut self, ev: MenuEvent)
        ensures
            final(self)@ == (if ev == MenuEvent::Confirm || ev == MenuEvent::Back {
                old(self)@.on(Screen::Home)
            } else {
                old(self)@
            }),
    {
        if ev == MenuEvent::Confirm || ev == MenuEvent::Back {
            self.nav.screen = Screen::Home;
        }
    }
}

/// Switching a pin twice gives back the pins, in their order, of a card that was not pinned.
pub proof fn law_pin_switch_undone(pinned: Seq<Seq<char>>, id: Seq<char>)
    requires
        !pinned.contains(id),
    ensures
        pins_toggled(pins_toggled(pinned, id), id) == pinned,
{
    crate::seqs::lemma_index_in(pinned, id);
    let once = pins_toggled(pinned, id);
    assert forall|i: int| 0 <= i < pinned.len() implies once[i] != id by {
        assert(pinned.contains(pinned[i]));
    }
    crate::seqs::lemma_index_in_unique(once, id, pinned.len() as int);
    assert(once.remove(pinned.len() as int) =~= pinned);
}

/// Titles in another order have the same ids, still distinct.
proof fn lemma_moved_ids(games: Seq<GameView>, moved: Seq<GameView>)
    requires
        ids_distinct(games),
        moved.to_multiset() == games.to_multiset(),
    ensures
        ids_distinct(moved),
        forall|g: int| 0 <= g < moved.len() ==> games.contains(#[trigger] moved[g]),
{
    broadcast use vstd::seq_lib::group_to_multiset_ensures;

    assert forall|g: int| 0 <= g < moved.len() implies games.contains(#[trigger] moved[g]) by {
        assert(moved.contains(moved[g]));
        assert(moved.to_multiset().count(moved[g]) > 0);
    }
    assert(games.no_duplicates());
    games.lemma_multiset_has_no_duplicates();
    moved.lemma_multiset_has_no_duplicates_conv();
    assert forall|i: int, j: int| 0 <= i < j < moved.len() implies #[trigger] moved[i].id
        != #[trigger] moved[j].id by {
        assert(games.contains(moved[i]) && games.contains(moved[j]));
        let a = choose|a: int| 0 <= a < games.len() && games[a] == moved[i];
        let b = choose|b: int| 0 <= b < games.len() && games[b] == moved[j];
        assert(moved[i] != moved[j]);
        assert(a != b);
        if a < b {
            assert(games[a].id != games[b].id);
        } else {
            assert(games[b].id != games[a].id);
        }
    }
}

/// A library whose titles have ids of their own gives each card a number of its own.
pub proof fn law_library_numbers_cards(s: AppView, loaded: GamesLoaded, now: u64)
    requires
        loaded.result matches Ok(games) && ids_distinct(views(games@)) && games.len() < usize::MAX
            - 1,
    ensures
        s.games_taken(loaded, now).cards_numbered(),
{
    let games = views((loaded.result->Ok_0)@);
    let sorted = by_title(games);
    let t = s.games_taken(loaded, now);
    law_by_title_sorts(games);
    lemma_moved_ids(games, sorted);
    law_pinning_keeps_games(sorted, pins_of(s.selected_known()));
    lemma_moved_ids(sorted, t.shelf.games);
    assert forall|g: int| 0 <= g < t.shelf.games.len() implies t.shelf.card_ids.contains(
        (#[trigger] t.shelf.games[g]).id,
    ) by {
        assert(sorted.contains(t.shelf.games[g]));
        let k = choose|k: int| 0 <= k < sorted.len() && sorted[k] == t.shelf.games[g];
        assert(game_ids(sorted)[k] == t.shelf.games[g].id);
    }
}

/// Switching a pin leaves every card its number.
pub proof fn law_pinning_keeps_numbers(s: AppView, id: Seq<char>, columns: int)
    requires
        s.cards_numbered(),
    ensures
        s.pin_switched(id, columns).cards_numbered(),
{
    let saved = s.pin_saved(id);
    law_pinning_keeps_games(s.shelf.games, pins_of(saved.selected_known()));
    lemma_moved_ids(s.shelf.games, saved.shelf.games);
    let t = s.pin_switched(id, columns);
    assert(t.shelf == saved.shelf);
    assert forall|g: int| 0 <= g < t.shelf.games.len() implies t.shelf.card_ids.contains(
        (#[trigger] t.shelf.games[g]).id,
    ) by {
        assert(s.shelf.games.contains(saved.shelf.games[g]));
        let k = choose|k: int|
            0 <= k < s.shelf.games.len() && s.shelf.games[k] == saved.shelf.games[g];
        assert(s.shelf.card_ids.contains(s.shelf.games[k].id));
    }
}

/// Pinning only moves cards: a card that is rasterized and up to date stays so under the same
/// number, in the cell that it has afterwards, so that it is not rasterized or uploaded again. No
/// texture of a card that is still shown is released.
pub proof fn law_pinning_keeps_textures(
    s: AppView,
    vp: Viewport,
    id: Seq<char>,
    from: int,
    to: int,
)
    requires
        s.fits(vp),
        s.selected_known() is Some,
        s.cards_numbered(),
        !s.cards_stale(s.grid_len(vp.columns as int)),
        s.card_at(from, vp.columns as int) is Some,
        s.tiles.card_tiles[from] is Some,
        !s.canvas.grid_cards_dirty.contains(from as usize),
        s.pin_switched(id, vp.columns as int).pin_id_at(to, vp.columns as int) == s.pin_id_at(
            from,
            vp.columns as int,
        ),
    ensures
        ({
            let t = s.pin_switched(id, vp.columns as int);
            &&& t.tiles.card_tiles[to] == s.tiles.card_tiles[from]
            &&& t.card_slot(to, vp.columns as int) == s.card_slot(from, vp.columns as int)
            &&& !t.cards_stale(t.grid_len(vp.columns as int))
            &&& t.canvas.grid_cards_dirty == Seq::<usize>::empty()
            &&& !t.missing(vp, to)
        }),
        s.pin_saved(id).layout(vp.columns as int).cell_of(
            s.pin_saved(id).shelf.games,
            DESKTOP_PIN_ID@,
        ) is Some ==> s.pin_switched(id, vp.columns as int).canvas.evicted_tiles
            == s.canvas.evicted_tiles,
{
    let c = vp.columns as int;
    let saved = s.pin_saved(id);
    let t = s.pin_switched(id, c);
    let n = s.shelf.games.len() as int;
    lemma_layout_wf(s, c);
    law_cell_of_pin_id(s.layout(c), s.shelf.games, c, from);
    law_pinning_keeps_games(s.shelf.games, pins_of(saved.selected_known()));
    assert(saved.shelf.games.len() == n);
    lemma_moved_ids(s.shelf.games, saved.shelf.games);
    assert(t.layout(c) == saved.layout(c));
    lemma_layout_wf(saved, c);
    lemma_cells(s.layout(c), n, c);
    lemma_cells(saved.layout(c), n, c);
    assert(0 <= from < s.grid_len(c));
    assert(t.card_at(to, c) == saved.card_at(to, c));
    assert(saved.pin_id_at(to, c) == s.pin_id_at(from, c));
    assert(0 <= to < saved.grid_len(c));
    let kept = without_cards(s.tiles.card_tiles, s.canvas.grid_cards_dirty);
    assert(kept[from] == s.tiles.card_tiles[from]);
    assert(s.card_for(saved, c, to) == kept[from]);
    assert(s.left_behind(saved, c) == Seq::<Tile>::empty() || saved.layout(c).cell_of(
        saved.shelf.games,
        DESKTOP_PIN_ID@,
    ) is None);
    assert(s.canvas.evicted_tiles + Seq::<Tile>::empty() =~= s.canvas.evicted_tiles);
}

/// Switching a pin never goes over the limit.
pub proof fn law_pins_within_limit(s: AppView, vp: Viewport, max_pins: usize, snapshot: bool, now: u64)
    requires
        s.fits(vp),
        s.selected_known() matches Some(k) && k.pinned.len() <= max_pins,
    ensures
        s.pin_toggled(vp, max_pins, snapshot, now).selected_known() matches Some(k)
            && k.pinned.len() <= max_pins,
{
    let (h, p) = s.hosts.selected_host->0;
    let hosts = s.hosts.known_hosts;
    let i = host_index(hosts, h, p);
    if let Some(id) = s.focused_pin(vp.columns as int) {
        let known = hosts[i];
        crate::seqs::lemma_index_in(known.pinned, id);
        let after = KnownHostView { pinned: pins_toggled(known.pinned, id), ..known };
        let hosts2 = hosts.update(i, after);
        reveal(crate::store::host_index);
        assert(crate::store::host_keys(hosts2) =~= crate::store::host_keys(hosts));
    }
}

/// Pinning the focused card changes the pins of the selected host, by that card alone, and stores
/// them; every other saved host stays as it is. Where there is no room for another pin, the user
/// is told and nothing changes; without a focused card or a saved host nothing happens.
pub proof fn law_pin_is_saved_for_the_host(
    s: AppView,
    vp: Viewport,
    max_pins: usize,
    snapshot: bool,
    now: u64,
    id: Seq<char>,
    i: int,
)
    requires
        s.selected_known() is Some,
        s.nav.home_focus is Grid,
        s.pin_id_at((s.nav.home_focus->Grid_0) as int, vp.columns as int) == Some(id),
        0 <= i < s.hosts.known_hosts.len(),
    ensures
        ({
            let t = s.pin_toggled(vp, max_pins, snapshot, now);
            let (h, p) = s.hosts.selected_host->0;
            let at = host_index(s.hosts.known_hosts, h, p);
            let was = s.selected_known()->0;
            let room = was.pinned.contains(id) || was.pinned.len() < max_pins;
            &&& !room ==> t == s.on(Screen::PinLimit)
            &&& room ==> {
                &&& t.outbox == s.outbox.push(CommandView::SaveKnownHosts)
                &&& t.hosts.known_hosts.len() == s.hosts.known_hosts.len()
                &&& i != at ==> t.hosts.known_hosts[i] == s.hosts.known_hosts[i]
                &&& i == at ==> t.hosts.known_hosts[i] == (KnownHostView {
                    pinned: t.hosts.known_hosts[i].pinned,
                    ..was
                })
                &&& i == at && !was.pinned.contains(id) ==> t.hosts.known_hosts[i].pinned
                    == was.pinned.push(id)
                &&& i == at && was.pinned.contains(id) ==> t.hosts.known_hosts[i].pinned.len()
                    == was.pinned.len() - 1 && t.hosts.known_hosts[i].pinned == was.pinned.remove(
                    crate::seqs::index_in(was.pinned, id),
                )
                &&& t.shelf.games.to_multiset() == s.shelf.games.to_multiset()
                &&& t.nav.screen == s.nav.screen
                &&& t.hosts.entries == s.hosts.entries && t.hosts.selected_host
                    == s.hosts.selected_host
            }
        }),
{
    let (h, p) = s.hosts.selected_host->0;
    let known = s.selected_known()->0;
    crate::seqs::lemma_index_in(known.pinned, id);
    let saved = AppView {
        hosts: HostsView {
            known_hosts: s.hosts.known_hosts.update(
                host_index(s.hosts.known_hosts, h, p),
                KnownHostView { pinned: pins_toggled(known.pinned, id), ..known },
            ),
            ..s.hosts
        },
        ..s
    };
    crate::app::order::law_pinning_keeps_games(
        s.shelf.games,
        crate::app::launch::pins_of(saved.selected_known()),
    );
}

/// The focus stays on the card that was pinned or unpinned, in the cell that it has then, and a
/// picture of it flies there from the cell that it had.
pub proof fn law_focus_follows_the_pinned_card(
    s: AppView,
    vp: Viewport,
    id: Seq<char>,
    from: Rect,
    snapshot: bool,
    now: u64,
)
    requires
        s.fits(vp),
        s.layout(vp.columns as int).cell_of(s.shelf.games, id) is Some,
    ensures
        ({
            let t = s.followed(id, from, vp, snapshot, now);
            &&& t.nav.home_focus matches HomeFocus::Grid(j) && {
                &&& s.pin_id_at(j as int, vp.columns as int) == Some(id)
                &&& snapshot ==> (t.canvas.pin_move_anim matches Some((at, a, b)) && at == now && a
                    == from && b == t.unscrolled(vp, j as int)) && t.tiles.pin_move_tile
            }
            &&& !snapshot ==> t.canvas.pin_move_anim == s.canvas.pin_move_anim
            &&& t.hosts == s.hosts && t.shelf == s.shelf && t.outbox == s.outbox
        }),
{
    let c = vp.columns as int;
    crate::app::home::lemma_layout_wf(s, c);
    crate::app::grid::law_cell_holds_pin_id(s.layout(c), s.shelf.games, c, id);
    crate::app::grid::lemma_cells(s.layout(c), s.shelf.games.len() as int, c);
}

/// A texture is given up exactly where the desktop's card had one and is not shown any more.
pub proof fn law_left_card_gives_up_its_texture(s: AppView, to: AppView, columns: int)
    ensures
        ({
            let was = s.layout(columns).cell_of(s.shelf.games, DESKTOP_PIN_ID@);
            let now = to.layout(columns).cell_of(to.shelf.games, DESKTOP_PIN_ID@);
            let given_up = s.left_behind(to, columns);
            &&& was is None || now is Some ==> given_up.len() == 0
            &&& was matches Some(j) ==> (j < s.tiles.card_tiles.len() && s.tiles.card_tiles[j] is None
                ==> given_up.len() == 0)
            &&& was matches Some(j) ==> (now is None && j < s.tiles.card_tiles.len()
                && s.tiles.card_tiles[j] is Some ==> given_up.len() == 1 && given_up[0]
                == Tile::Card((s.tiles.card_tiles[j]->0).slot))
        }),
{
}

} // verus!
