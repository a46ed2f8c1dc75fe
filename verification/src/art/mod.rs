//! Cover art: which covers are asked for, how they are cached, and how their pixels are stored.
use vstd::prelude::*;

use crate::library::{GameEntry, GameView};
use crate::seqs::{index_in, lemma_index_in, views};
use crate::store::find_text;

pub mod cache;
pub mod decode;
pub mod worker;

verus! {

broadcast use crate::seqs::group_views;

/// A cover to fetch.
#[derive(Debug)]
pub struct ArtRequest {
    pub game_id: String,
    /// The host-relative path of the cover.
    pub path: String,
}

/// An `ArtRequest` as values.
pub struct ArtRequestView {
    pub game_id: Seq<char>,
    pub path: Seq<char>,
}

impl View for ArtRequest {
    type V = ArtRequestView;

    open spec fn view(&self) -> ArtRequestView {
        ArtRequestView { game_id: self.game_id@, path: self.path@ }
    }
}

/// The covers asked for so far, and those the fetcher has yet to take.
#[derive(Debug)]
pub struct ArtLoader {
    /// Ids that have been asked for, each once.
    pub requested: Vec<String>,
    /// Requests for the fetcher, oldest first.
    pub queue: Vec<ArtRequest>,
}

/// An `ArtLoader` as values.
pub struct ArtLoaderView {
    pub requested: Seq<Seq<char>>,
    pub queue: Seq<ArtRequestView>,
}

impl View for ArtLoader {
    type V = ArtLoaderView;

    open spec fn view(&self) -> ArtLoaderView {
        ArtLoaderView { requested: views(self.requested@), queue: views(self.queue@) }
    }
}

/// The path of a title's cover: the portrait, or else the header.
pub open spec fn cover_path(game: GameView) -> Option<Seq<char>> {
    match game.art.portrait {
        Some(p) => Some(p),
        None => game.art.header,
    }
}

impl ArtLoaderView {
    /// Nothing asked for yet.
    pub open spec fn fresh() -> ArtLoaderView {
        ArtLoaderView { requested: seq![], queue: seq![] }
    }

    /// After asking for the cover of `game`: at most one request per title, none where it has no
    /// cover.
    pub open spec fn after_request(self, game: GameView) -> ArtLoaderView {
        if self.requested.contains(game.id) {
            self
        } else {
            ArtLoaderView {
                requested: self.requested.push(game.id),
                queue: match cover_path(game) {
                    Some(path) => self.queue.push(ArtRequestView { game_id: game.id, path }),
                    None => self.queue,
                },
            }
        }
    }

    /// After forgetting that `id` was asked for.
    pub open spec fn after_forget(self, id: Seq<char>) -> ArtLoaderView {
        let i = index_in(self.requested, id);
        if 0 <= i < self.requested.len() {
            ArtLoaderView { requested: self.requested.remove(i), ..self }
        } else {
            self
        }
    }
}

impl ArtLoader {
    /// A loader for a library that was just fetched.
    pub fn spawn() -> (r: Self)
        ensures
            r@ == ArtLoaderView::fresh(),
    {
        let r = ArtLoader { requested: Vec::new(), queue: Vec::new() };
        proof {
            assert(r@.requested =~= seq![]);
            assert(r@.queue =~= seq![]);
        }
        r
    }

    /// Asks for the cover of `game`, unless it has been asked for.
    pub fn request(&mut self, game: &GameEntry)
        ensures
            final(self)@ == old(self)@.after_request(game@),
    {
        proof {
            lemma_index_in(self@.requested, game.id@);
        }
        if find_text(&self.requested, game.id.as_str()).is_some() {
            return ;
        }
        self.requested.push(game.id.clone());
        match &game.art.portrait {
            Some(p) => {
                self.queue.push(ArtRequest { game_id: game.id.clone(), path: p.clone() });
            },
            None => {
                match &game.art.header {
                    Some(p) => {
                        self.queue.push(ArtRequest { game_id: game.id.clone(), path: p.clone() });
                    },
                    None => {},
                }
            },
        }
    }

    /// Forgets that the cover of `game_id` was asked for, so that it can be asked for again.
    pub fn forget(&mut self, game_id: &str)
        ensures
            final(self)@ == old(self)@.after_forget(game_id@),
    {
        match find_text(&self.requested, game_id) {
            Some(i) => {
                let _ = self.requested.remove(i);
            },
            None => {},
        }
    }

    /// Hands the waiting requests to the fetcher.
    pub fn drain(&mut self) -> (r: Vec<ArtRequest>)
        ensures
            views(r@) == old(self)@.queue,
            final(self)@ == (ArtLoaderView { queue: seq![], ..old(self)@ }),
    {
        let mut out: Vec<ArtRequest> = Vec::new();
        std::mem::swap(&mut out, &mut self.queue);
        proof {
            assert(self@.queue =~= seq![]);
        }
        out
    }
}

/// A title that was asked for is not asked for again until it is forgotten.
pub proof fn law_requested_once(loader: ArtLoaderView, game: GameView)
    ensures
        loader.after_request(game).after_request(game) == loader.after_request(game),
{
    let once = loader.after_request(game);
    if !loader.requested.contains(game.id) {
        assert(once.requested[loader.requested.len() as int] == game.id);
    }
}

/// A title that has not been asked for is asked for once, last of all, by its portrait or else by
/// its header; those before it are left as they are.
pub proof fn law_cover_is_asked_for_in_turn(loader: ArtLoaderView, game: GameView)
    requires
        !loader.requested.contains(game.id),
    ensures
        ({
            let after = loader.after_request(game);
            &&& after.requested == loader.requested.push(game.id)
            &&& game.art.portrait matches Some(p) ==> after.queue == loader.queue.push(
                ArtRequestView { game_id: game.id, path: p },
            )
            &&& game.art.portrait is None ==> (game.art.header matches Some(h) ==> after.queue
                == loader.queue.push(ArtRequestView { game_id: game.id, path: h }))
            &&& game.art.portrait is None && game.art.header is None ==> after.queue == loader.queue
        }),
{
}

/// A title that was forgotten can be asked for again, and the others stay as they were.
pub proof fn law_forgotten_is_asked_for_again(loader: ArtLoaderView, game: GameView, other: Seq<char>)
    requires
        loader.requested.no_duplicates(),
    ensures
        !loader.after_forget(game.id).requested.contains(game.id),
        other != game.id ==> (loader.after_forget(game.id).requested.contains(other)
            <==> loader.requested.contains(other)),
        loader.after_forget(game.id).queue == loader.queue,
        loader.after_forget(game.id).after_request(game).requested.last() == game.id,
{
    let ids = loader.requested;
    let i = index_in(ids, game.id);
    lemma_index_in(ids, game.id);
    let left = loader.after_forget(game.id).requested;
    if 0 <= i < ids.len() {
        assert(left == ids.remove(i));
        assert(ids[i] == game.id);
        if left.contains(game.id) {
            let j = choose|j: int| 0 <= j < left.len() && left[j] == game.id;
            let k = if j < i {
                j
            } else {
                j + 1
            };
            assert(ids[k] == game.id && k != i);
        }
        if ids.contains(other) && other != game.id {
            let j = choose|j: int| 0 <= j < ids.len() && ids[j] == other;
            let k = if j < i {
                j
            } else {
                j - 1
            };
            assert(left[k] == other);
        }
        if left.contains(other) {
            let j = choose|j: int| 0 <= j < left.len() && left[j] == other;
            let k = if j < i {
                j
            } else {
                j + 1
            };
            assert(ids[k] == other);
        }
    }
    assert(!left.contains(game.id));
}

} // verus!
