//! The shape of the card grid: pinned cards first, in rows of their own, then the rest.
use vstd::prelude::*;

use crate::library::{GameEntry, GameView};
use crate::seqs::{index_in, lemma_index_in, lemma_index_in_unique, views};
use crate::store::{find_text, DESKTOP_PIN_ID};
use crate::text::same_text;

verus! {

broadcast use crate::seqs::group_views;

/// One card of the grid: the whole desktop, or the game at this place of the library.
#[derive(Clone, Copy, Debug, PartialEq, Eq, Structural)]
pub enum GridCard {
    Desktop,
    Game(usize),
}

/// Where the pinned block ends and the rest begins.
#[derive(Clone, Copy, Debug)]
pub struct GridLayout {
    /// How many games lead the library because they are pinned.
    pub pinned_count: usize,
    pub desktop_pinned: bool,
    pub desktop_in_rest: bool,
    /// Pinned cards, the desktop among them.
    pub front_count: usize,
    /// Whole rows that the pinned cards take.
    pub pinned_rows: usize,
    /// The cell at which the rest begins.
    pub unpinned_start: usize,
}

/// The games from place `from` up to `to`.
pub open spec fn games_between(from: int, to: int) -> Seq<Option<GridCard>> {
    Seq::new(
        (if from <= to {
            to - from
        } else {
            0
        }) as nat,
        |i: int| Some(GridCard::Game((from + i) as usize)),
    )
}

/// The first `count` places of a library of `games` titles; a place past its end is empty.
pub open spec fn front_games(count: int, games: int) -> Seq<Option<GridCard>> {
    Seq::new(
        count as nat,
        |i: int|
            if i < games {
                Some(GridCard::Game(i as usize))
            } else {
                None
            },
    )
}

/// The desktop card where `shown`.
pub open spec fn desktop_if(shown: bool) -> Seq<Option<GridCard>> {
    if shown {
        seq![Some(GridCard::Desktop)]
    } else {
        seq![]
    }
}

impl GridLayout {
    /// The layout fits a library of `games` titles shown in `columns` columns.
    pub open spec fn wf(self, games: int, columns: int) -> bool {
        &&& 0 <= games
        &&& !(self.desktop_pinned && self.desktop_in_rest)
        &&& self.front_count == self.pinned_count + (if self.desktop_pinned { 1int } else { 0int })
        &&& self.front_count <= self.unpinned_start < self.front_count + columns
        &&& self.unpinned_start == self.pinned_rows * columns
        &&& self.unpinned_start + self.pinned_count + 1 + games <= usize::MAX
    }

    /// The cells of the grid in order: the pinned cards, empty cells to the end of their last
    /// row, then the others.
    #[verifier::opaque]
    pub open spec fn cells(self, games: int) -> Seq<Option<GridCard>> {
        desktop_if(self.desktop_pinned) + front_games(self.pinned_count as int, games) + Seq::new(
            (self.unpinned_start - self.front_count) as nat,
            |i: int| None::<GridCard>,
        ) + desktop_if(self.desktop_in_rest) + games_between(self.pinned_count as int, games)
    }

    /// The card in cell `idx`: none for an empty cell or past the end.
    pub open spec fn card(self, games: int, idx: int) -> Option<GridCard> {
        if 0 <= idx < self.cells(games).len() {
            self.cells(games)[idx]
        } else {
            None
        }
    }

    /// The cell that holds the card with this pin id. The desktop's is the first of the pinned
    /// cards or of the others, and there is none while the grid does not show the desktop.
    pub open spec fn cell_of(self, games: Seq<GameView>, id: Seq<char>) -> Option<int> {
        self.cell_among(game_ids(games), id)
    }

    /// The cell that the card with this pin id has in a library with these ids.
    pub open spec fn cell_among(self, ids: Seq<Seq<char>>, id: Seq<char>) -> Option<int> {
        if id == DESKTOP_PIN_ID@ {
            if self.desktop_pinned {
                Some(0)
            } else if self.desktop_in_rest {
                Some(self.unpinned_start as int)
            } else {
                None
            }
        } else {
            let pos = index_in(ids, id);
            if pos >= ids.len() {
                None
            } else if pos < self.pinned_count {
                Some((if self.desktop_pinned { 1int } else { 0int }) + pos)
            } else {
                Some(
                    self.unpinned_start + (if self.desktop_in_rest { 1int } else { 0int }) + (pos
                        - self.pinned_count),
                )
            }
        }
    }

    /// The number of cells.
    pub fn len(&self, games: usize) -> (r: usize)
        requires
            exists|columns: int| self.wf(games as int, columns),
        ensures
            r == self.cells(games as int).len(),
    {
        proof {
            reveal(GridLayout::cells);
        }
        let extra: usize = if self.desktop_in_rest {
            1
        } else {
            0
        };
        self.unpinned_start + extra + games.saturating_sub(self.pinned_count)
    }

    /// The card in cell `idx` of a grid of `games` titles.
    pub fn card_at(&self, games: usize, idx: usize) -> (r: Option<GridCard>)
        requires
            exists|columns: int| self.wf(games as int, columns),
        ensures
            r == self.card(games as int, idx as int),
            r matches Some(GridCard::Game(g)) ==> g < games,
    {
        proof {
            reveal(GridLayout::cells);
        }
        if idx < self.front_count {
            if self.desktop_pinned {
                if idx == 0 {
                    return Some(GridCard::Desktop);
                }
                return if idx - 1 < games {
                    Some(GridCard::Game(idx - 1))
                } else {
                    None
                };
            }
            return if idx < games {
                Some(GridCard::Game(idx))
            } else {
                None
            };
        }
        if idx < self.unpinned_start {
            return None;
        }
        let rest_pos: usize = idx - self.unpinned_start;
        if self.desktop_in_rest {
            if rest_pos == 0 {
                return Some(GridCard::Desktop);
            }
            if rest_pos - 1 < games.saturating_sub(self.pinned_count) {
                return Some(GridCard::Game(self.pinned_count + (rest_pos - 1)));
            }
            return None;
        }
        if rest_pos < games.saturating_sub(self.pinned_count) {
            return Some(GridCard::Game(self.pinned_count + rest_pos));
        }
        None
    }

    /// The place in the library of the game in cell `idx`, if a game is there.
    pub fn game_at(&self, games: usize, idx: usize) -> (r: Option<usize>)
        requires
            exists|columns: int| self.wf(games as int, columns),
        ensures
            r == (match self.card(games as int, idx as int) {
                Some(GridCard::Game(g)) => Some(g),
                _ => None,
            }),
            r matches Some(g) ==> g < games,
    {
        match self.card_at(games, idx) {
            Some(GridCard::Game(g)) => Some(g),
            _ => None,
        }
    }

    /// The cell that holds the card with this pin id.
    pub fn idx_for_pin_id(&self, games: &Vec<GameEntry>, id: &str) -> (r: Option<usize>)
        requires
            exists|columns: int| self.wf(games.len() as int, columns),
        ensures
            match r {
                Some(i) => self.cell_of(views(games@), id@) == Some(i as int),
                None => self.cell_of(views(games@), id@) is None,
            },
    {
        let ids = ids_of(games);
        assert(views(ids@).len() == game_ids(views(games@)).len());
        self.idx_among(&ids, id)
    }

    /// The cell that the card with this pin id has in a library with these ids.
    pub fn idx_among(&self, ids: &Vec<String>, id: &str) -> (r: Option<usize>)
        requires
            exists|columns: int| self.wf(ids.len() as int, columns),
        ensures
            match r {
                Some(i) => self.cell_among(views(ids@), id@) == Some(i as int),
                None => self.cell_among(views(ids@), id@) is None,
            },
    {
        proof {
            lemma_index_in(views(ids@), id@);
        }
        if same_text(id, DESKTOP_PIN_ID) {
            return if self.desktop_pinned {
                Some(0)
            } else if self.desktop_in_rest {
                Some(self.unpinned_start)
            } else {
                None
            };
        }
        match find_text(ids, id) {
            None => None,
            Some(pos) => {
                if pos < self.pinned_count {
                    let first: usize = if self.desktop_pinned {
                        1
                    } else {
                        0
                    };
                    Some(first + pos)
                } else {
                    let extra: usize = if self.desktop_in_rest {
                        1
                    } else {
                        0
                    };
                    Some(self.unpinned_start + extra + (pos - self.pinned_count))
                }
            },
        }
    }
}

/// The ids of the titles, in order.
pub open spec fn game_ids(games: Seq<GameView>) -> Seq<Seq<char>> {
    Seq::new(games.len(), |i: int| games[i].id)
}

/// The ids of `games`, in order.
pub fn ids_of(games: &Vec<GameEntry>) -> (r: Vec<String>)
    ensures
        views(r@) == game_ids(views(games@)),
{
    let mut out: Vec<String> = Vec::new();
    let mut i: usize = 0;
    while i < games.len()
        invariant
            i <= games.len(),
            views(out@) == game_ids(views(games@)).take(i as int),
        decreases games.len() - i,
    {
        out.push(games[i].id.clone());
        i += 1;
        assert(views(out@) =~= game_ids(views(games@)).take(i as int));
    }
    assert(views(out@) =~= game_ids(views(games@)));
    out
}

/// Where the first game with this id stands.
pub fn find_game(games: &Vec<GameEntry>, id: &str) -> (r: Option<usize>)
    ensures
        match r {
            Some(i) => i < games.len() && i == index_in(game_ids(views(games@)), id@),
            None => index_in(game_ids(views(games@)), id@) == games.len(),
        },
{
    let ghost ids = game_ids(views(games@));
    let mut i: usize = 0;
    while i < games.len()
        invariant
            i <= games.len(),
            ids == game_ids(views(games@)),
            forall|j: int| 0 <= j < i ==> ids[j] != id@,
        decreases games.len() - i,
    {
        if same_text(games[i].id.as_str(), id) {
            proof {
                lemma_index_in_unique(ids, id@, i as int);
            }
            return Some(i);
        }
        i += 1;
    }
    proof {
        lemma_index_in_unique(ids, id@, games.len() as int);
    }
    None
}

/// The pin id of a card.
pub open spec fn pin_id_of(games: Seq<GameView>, card: GridCard) -> Seq<char> {
    match card {
        GridCard::Desktop => DESKTOP_PIN_ID@,
        GridCard::Game(g) => games[g as int].id,
    }
}

/// No two titles share an id, and none has the desktop's.
pub open spec fn ids_distinct(games: Seq<GameView>) -> bool {
    &&& forall|i: int, j: int|
        0 <= i < j < games.len() ==> #[trigger] games[i].id != #[trigger] games[j].id
    &&& forall|i: int| 0 <= i < games.len() ==> (#[trigger] games[i]).id != DESKTOP_PIN_ID@
}

/// The number of cells, and which of them hold games.
pub proof fn lemma_cells(layout: GridLayout, games: int, columns: int)
    requires
        layout.wf(games, columns),
    ensures
        layout.cells(games).len() == layout.unpinned_start + (if layout.desktop_in_rest {
            1int
        } else {
            0int
        }) + (if layout.pinned_count <= games {
            games - layout.pinned_count
        } else {
            0
        }),
        forall|idx: int|
            (#[trigger] layout.card(games, idx)) matches Some(GridCard::Game(g)) ==> 0 <= g
                < games,
{
    reveal(GridLayout::cells);
}

/// The cell of a card is found again from the card's pin id.
pub proof fn law_cell_of_pin_id(layout: GridLayout, games: Seq<GameView>, columns: int, idx: int)
    requires
        layout.wf(games.len() as int, columns),
        ids_distinct(games),
        layout.card(games.len() as int, idx) is Some,
    ensures
        layout.cell_of(games, pin_id_of(games, layout.card(games.len() as int, idx)->0)) == Some(
            idx,
        ),
{
    reveal(GridLayout::cells);
    let card = layout.card(games.len() as int, idx)->0;
    if let GridCard::Game(g) = card {
        let id = games[g as int].id;
        assert(game_ids(games)[g as int] == id);
        assert forall|i: int| 0 <= i < g implies game_ids(games)[i] != id by {
            assert(games[i].id != games[g as int].id);
        }
        lemma_index_in_unique(game_ids(games), id, g as int);
    }
}

/// The cell found for a pin id holds the card with that pin id: nothing is found for a card that
/// the grid does not show, the desktop's among them.
pub proof fn law_cell_holds_pin_id(
    layout: GridLayout,
    games: Seq<GameView>,
    columns: int,
    id: Seq<char>,
)
    requires
        layout.wf(games.len() as int, columns),
    ensures
        layout.cell_of(games, id) matches Some(idx) ==> ({
            &&& layout.card(games.len() as int, idx) is Some
            &&& pin_id_of(games, layout.card(games.len() as int, idx)->0) == id
        }),
        layout.cell_of(games, DESKTOP_PIN_ID@) is Some <==> exists|idx: int|
            layout.card(games.len() as int, idx) == Some(GridCard::Desktop),
{
    reveal(GridLayout::cells);
    let n = games.len() as int;
    lemma_cells(layout, n, columns);
    lemma_index_in(game_ids(games), id);
    if id != DESKTOP_PIN_ID@ {
        let pos = index_in(game_ids(games), id);
        if pos < games.len() {
            let idx = layout.cell_of(games, id)->0;
            assert(game_ids(games)[pos] == id);
            assert(layout.card(n, idx) == Some(GridCard::Game(pos as usize)));
        }
    }
    if layout.desktop_pinned {
        assert(layout.card(n, 0) == Some(GridCard::Desktop));
    } else if layout.desktop_in_rest {
        assert(layout.card(n, layout.unpinned_start as int) == Some(GridCard::Desktop));
    } else {
        assert forall|idx: int| layout.card(n, idx) != Some(GridCard::Desktop) by {}
    }
}

/// The cell found for the pin id of a title holds that title.
pub proof fn law_card_in_cell_of(layout: GridLayout, games: Seq<GameView>, columns: int, g: int)
    requires
        layout.wf(games.len() as int, columns),
        ids_distinct(games),
        0 <= g < games.len(),
    ensures
        layout.cell_of(games, games[g].id) is Some,
        layout.card(games.len() as int, layout.cell_of(games, games[g].id)->0) == Some(
            GridCard::Game(g as usize),
        ),
{
    reveal(GridLayout::cells);
    let id = games[g].id;
    assert(game_ids(games)[g] == id);
    assert forall|i: int| 0 <= i < g implies game_ids(games)[i] != id by {
        assert(games[i].id != games[g].id);
    }
    lemma_index_in_unique(game_ids(games), id, g);
}

/// Every title has exactly one cell: two cells with the same card are the same cell.
pub proof fn law_cards_distinct(layout: GridLayout, games: int, columns: int, a: int, b: int)
    requires
        layout.wf(games, columns),
        layout.card(games, a) is Some,
        layout.card(games, a) == layout.card(games, b),
    ensures
        a == b,
{
    reveal(GridLayout::cells);
}

/// The grid holds the cards in order: the desktop first where it is pinned, the pinned games after
/// it in the order of the library, nothing up to the end of their last row, then the desktop where
/// it is not pinned, and the other games after it in the order of the library.
pub proof fn law_cards_stand_in_order(layout: GridLayout, games: int, columns: int, i: int)
    requires
        layout.wf(games, columns),
        layout.pinned_count <= games,
    ensures
        ({
            let first = if layout.desktop_pinned {
                1int
            } else {
                0int
            };
            let rest = layout.unpinned_start + if layout.desktop_in_rest {
                1int
            } else {
                0int
            };
            &&& layout.desktop_pinned ==> layout.card(games, 0) == Some(GridCard::Desktop)
            &&& 0 <= i < layout.pinned_count ==> layout.card(games, first + i) == Some(
                GridCard::Game(i as usize),
            )
            &&& first + layout.pinned_count <= i < layout.unpinned_start ==> layout.card(games, i)
                is None
            &&& layout.desktop_in_rest ==> layout.card(games, layout.unpinned_start as int) == Some(
                GridCard::Desktop,
            )
            &&& layout.pinned_count <= i < games ==> layout.card(
                games,
                rest + (i - layout.pinned_count),
            ) == Some(GridCard::Game(i as usize))
            &&& i < 0 || i >= rest + (games - layout.pinned_count) ==> layout.card(games, i) is None
        }),
{
    reveal(GridLayout::cells);
}

} // verus!
