//! The order of the library: by title, and pinned games first.
use vstd::prelude::*;

use crate::app::grid::{find_game, game_ids};
use crate::library::{GameEntry, GameView};
use crate::seqs::{index_in, lemma_index_in, views};
use crate::text::{chars_of, lowercase, lowercase_of};

verus! {

broadcast use crate::seqs::group_views;

/// Whether `a` stands no later than `b` in the order of their characters.
pub open spec fn text_le(a: Seq<char>, b: Seq<char>) -> bool
    decreases a.len(),
{
    if a.len() == 0 {
        true
    } else if b.len() == 0 {
        false
    } else if a[0] != b[0] {
        a[0] < b[0]
    } else {
        text_le(a.drop_first(), b.drop_first())
    }
}

/// Of two texts, one stands no later than the other.
pub proof fn lemma_text_le_total(a: Seq<char>, b: Seq<char>)
    ensures
        text_le(a, b) || text_le(b, a),
    decreases a.len(),
{
    if a.len() > 0 && b.len() > 0 && a[0] == b[0] {
        lemma_text_le_total(a.drop_first(), b.drop_first());
    }
}

/// The order carries on from one text to the next.
pub proof fn lemma_text_le_transitive(a: Seq<char>, b: Seq<char>, c: Seq<char>)
    requires
        text_le(a, b),
        text_le(b, c),
    ensures
        text_le(a, c),
    decreases a.len(),
{
    if a.len() > 0 && b.len() > 0 && c.len() > 0 && a[0] == b[0] && b[0] == c[0] {
        lemma_text_le_transitive(a.drop_first(), b.drop_first(), c.drop_first());
    }
}

/// Texts that stand no later than each other are the same.
pub proof fn lemma_text_le_antisymmetric(a: Seq<char>, b: Seq<char>)
    requires
        text_le(a, b),
        text_le(b, a),
    ensures
        a == b,
    decreases a.len(),
{
    if a.len() > 0 && b.len() > 0 {
        lemma_text_le_antisymmetric(a.drop_first(), b.drop_first());
        assert(a =~= seq![a[0]] + a.drop_first());
        assert(b =~= seq![b[0]] + b.drop_first());
    } else {
        assert(a =~= b);
    }
}

fn char_list_le(a: &Vec<char>, b: &Vec<char>) -> (r: bool)
    ensures
        r == text_le(a@, b@),
{
    let mut i: usize = 0;
    assert(a@.skip(0) =~= a@);
    assert(b@.skip(0) =~= b@);
    while i < a.len() && i < b.len() && a[i] == b[i]
        invariant
            i <= a.len(),
            i <= b.len(),
            text_le(a@, b@) == text_le(a@.skip(i as int), b@.skip(i as int)),
        decreases a.len() - i,
    {
        proof {
            assert(a@.skip(i as int).drop_first() =~= a@.skip(i + 1));
            assert(b@.skip(i as int).drop_first() =~= b@.skip(i + 1));
        }
        i += 1;
    }
    if i >= a.len() {
        true
    } else if i >= b.len() {
        false
    } else {
        a[i] < b[i]
    }
}

/// What a title is ordered by: its characters, without regard to case.
pub open spec fn title_key(g: GameView) -> Seq<char> {
    lowercase_of(g.title)
}

/// Where `g` goes in an ordered library: behind all that stand no later.
pub open spec fn insert_at(s: Seq<GameView>, g: GameView) -> int
    decreases s.len(),
{
    if s.len() == 0 || !text_le(title_key(s[0]), title_key(g)) {
        0
    } else {
        1 + insert_at(s.drop_first(), g)
    }
}

/// The library ordered by title, titles that read the same kept in their order.
pub open spec fn by_title(s: Seq<GameView>) -> Seq<GameView>
    decreases s.len(),
{
    if s.len() == 0 {
        s
    } else {
        let rest = by_title(s.drop_last());
        rest.insert(insert_at(rest, s.last()), s.last())
    }
}

proof fn lemma_insert_at(s: Seq<GameView>, g: GameView)
    ensures
        0 <= insert_at(s, g) <= s.len(),
        forall|i: int|
            0 <= i < insert_at(s, g) ==> text_le(title_key(#[trigger] s[i]), title_key(g)),
        insert_at(s, g) < s.len() ==> !text_le(title_key(s[insert_at(s, g)]), title_key(g)),
    decreases s.len(),
{
    if s.len() > 0 && text_le(title_key(s[0]), title_key(g)) {
        let rest = s.drop_first();
        lemma_insert_at(rest, g);
        assert forall|i: int| 0 <= i < insert_at(s, g) implies text_le(
            title_key(#[trigger] s[i]),
            title_key(g),
        ) by {
            if i > 0 {
                assert(s[i] == rest[i - 1]);
            }
        }
    }
}

proof fn lemma_insert_at_unique(s: Seq<GameView>, g: GameView, k: int)
    requires
        0 <= k <= s.len(),
        forall|i: int| 0 <= i < k ==> text_le(title_key(#[trigger] s[i]), title_key(g)),
        k < s.len() ==> !text_le(title_key(s[k]), title_key(g)),
    ensures
        insert_at(s, g) == k,
{
    lemma_insert_at(s, g);
    let m = insert_at(s, g);
    if m < k {
        assert(text_le(title_key(s[m]), title_key(g)));
    } else if k < m {
        assert(text_le(title_key(s[k]), title_key(g)));
    }
}

/// Orders a library by title, without regard to case.
pub fn sort_by_title(games: Vec<GameEntry>) -> (r: Vec<GameEntry>)
    ensures
        views(r@) == by_title(views(games@)),
{
    let mut out: Vec<GameEntry> = Vec::new();
    let mut keys: Vec<Vec<char>> = Vec::new();
    let mut i: usize = 0;
    let ghost all = views(games@);
    assert(all.take(0) =~= seq![]);
    while i < games.len()
        invariant
            i <= games.len(),
            all == views(games@),
            views(out@) == by_title(all.take(i as int)),
            keys.len() == out.len(),
            forall|j: int|
                0 <= j < keys.len() ==> (#[trigger] keys@[j])@ == title_key(out@[j]@),
        decreases games.len() - i,
    {
        let game = games[i].clone();
        let lower = lowercase(game.title.as_str());
        let key = chars_of(lower.as_str());
        let mut k: usize = 0;
        while k < out.len() && char_list_le(&keys[k], &key)
            invariant
                k <= out.len(),
                keys.len() == out.len(),
                key@ == title_key(game@),
                forall|j: int|
                    0 <= j < keys.len() ==> (#[trigger] keys@[j])@ == title_key(out@[j]@),
                forall|j: int|
                    0 <= j < k ==> text_le(
                        title_key(#[trigger] views(out@)[j]),
                        title_key(game@),
                    ),
            decreases out.len() - k,
        {
            assert(keys@[k as int]@ == title_key(out@[k as int]@));
            k += 1;
        }
        proof {
            if k < out.len() {
                assert(keys@[k as int]@ == title_key(out@[k as int]@));
            }
            lemma_insert_at_unique(views(out@), game@, k as int);
            assert(all.take(i + 1).drop_last() =~= all.take(i as int));
            assert(all.take(i + 1).last() == game@);
        }
        let ghost before = out@;
        let ghost keys_before = keys@;
        out.insert(k, game);
        keys.insert(k, key);
        proof {
            assert forall|j: int| 0 <= j < keys.len() implies (#[trigger] keys@[j])@ == title_key(
                out@[j]@,
            ) by {
                if j < k {
                    assert(keys@[j] == keys_before[j]);
                } else if j > k {
                    assert(keys@[j] == keys_before[j - 1]);
                    assert(out@[j] == before[j - 1]);
                }
            }
        }
        i += 1;
    }
    assert(all.take(all.len() as int) =~= all);
    out
}

/// Every title stands no later than those behind it.
pub open spec fn ordered(s: Seq<GameView>) -> bool {
    forall|i: int, j: int|
        0 <= i < j < s.len() ==> text_le(title_key(#[trigger] s[i]), title_key(#[trigger] s[j]))
}

/// Ordering by title puts every title no later than those behind it, and keeps each title as
/// often as it was there.
pub proof fn law_by_title_sorts(s: Seq<GameView>)
    ensures
        ordered(by_title(s)),
        by_title(s).to_multiset() == s.to_multiset(),
        by_title(s).len() == s.len(),
    decreases s.len(),
{
    broadcast use vstd::seq_lib::group_to_multiset_ensures;

    if s.len() > 0 {
        let front = s.drop_last();
        let g = s.last();
        law_by_title_sorts(front);
        let rest = by_title(front);
        lemma_insert_at(rest, g);
        let k = insert_at(rest, g);
        let out = rest.insert(k, g);
        assert forall|i: int, j: int| 0 <= i < j < out.len() implies text_le(
            title_key(#[trigger] out[i]),
            title_key(#[trigger] out[j]),
        ) by {
            if j == k {
                assert(out[i] == rest[i]);
            } else if i == k {
                assert(out[j] == rest[j - 1]);
                lemma_text_le_total(title_key(rest[k]), title_key(g));
                if k < j - 1 {
                    assert(text_le(title_key(rest[k]), title_key(rest[j - 1])));
                    lemma_text_le_transitive(
                        title_key(g),
                        title_key(rest[k]),
                        title_key(rest[j - 1]),
                    );
                }
            } else {
                let a = if i < k {
                    i
                } else {
                    i - 1
                };
                let b = if j < k {
                    j
                } else {
                    j - 1
                };
                assert(out[i] == rest[a] && out[j] == rest[b]);
            }
        }
        assert(s =~= front.push(g));
        lemma_insert_multiset(rest, k, g);
    }
}

proof fn lemma_insert_multiset<T>(s: Seq<T>, k: int, x: T)
    requires
        0 <= k <= s.len(),
    ensures
        s.insert(k, x).to_multiset() == s.to_multiset().insert(x),
{
    broadcast use vstd::seq_lib::group_to_multiset_ensures;

    let out = s.insert(k, x);
    assert(out.remove(k) =~= s);
    vstd::seq_lib::to_multiset_remove(out, k);
    assert(out.to_multiset().remove(out[k]).insert(x) =~= out.to_multiset());
}

/// The pinned games, in pin order, and the others, as they stood.
pub open spec fn pulled(games: Seq<GameView>, pins: Seq<Seq<char>>) -> (
    Seq<GameView>,
    Seq<GameView>,
)
    decreases pins.len(),
{
    if pins.len() == 0 {
        (seq![], games)
    } else {
        let (front, rest) = pulled(games, pins.drop_last());
        let pos = index_in(game_ids(rest), pins.last());
        if 0 <= pos < rest.len() {
            (front.push(rest[pos]), rest.remove(pos))
        } else {
            (front, rest)
        }
    }
}

/// Moves the pinned games to the front, in pin order. Returns how many there are.
pub fn reorder_by_pins(games: &mut Vec<GameEntry>, pins: &Vec<String>) -> (pinned: usize)
    ensures
        ({
            let (front, rest) = pulled(views(old(games)@), views(pins@));
            &&& views(final(games)@) == front + rest
            &&& pinned == front.len()
        }),
{
    let ghost all = views(games@);
    let ghost ids = views(pins@);
    let mut front: Vec<GameEntry> = Vec::new();
    let mut i: usize = 0;
    assert(ids.take(0) =~= seq![]);
    while i < pins.len()
        invariant
            i <= pins.len(),
            ids == views(pins@),
            pulled(all, ids.take(i as int)) == (views(front@), views(games@)),
        decreases pins.len() - i,
    {
        proof {
            assert(ids.take(i + 1).drop_last() =~= ids.take(i as int));
            assert(ids.take(i + 1).last() == pins@[i as int]@);
            lemma_index_in(game_ids(views(games@)), pins@[i as int]@);
        }
        match find_game(games, pins[i].as_str()) {
            Some(pos) => {
                let g = games.remove(pos);
                front.push(g);
            },
            None => {},
        }
        i += 1;
    }
    assert(ids.take(ids.len() as int) =~= ids);
    let pinned: usize = front.len();
    front.append(games);
    std::mem::swap(games, &mut front);
    pinned
}

/// Moving the pinned games to the front keeps each game as often as it was there.
pub proof fn law_pinning_keeps_games(games: Seq<GameView>, pins: Seq<Seq<char>>)
    ensures
        (pulled(games, pins).0 + pulled(games, pins).1).to_multiset() == games.to_multiset(),
        pulled(games, pins).0.len() <= pins.len(),
        pulled(games, pins).0.len() + pulled(games, pins).1.len() == games.len(),
    decreases pins.len(),
{
    broadcast use vstd::seq_lib::group_to_multiset_ensures;

    let (front, rest) = pulled(games, pins);
    if pins.len() == 0 {
        assert(front + rest =~= games);
    } else {
        law_pinning_keeps_games(games, pins.drop_last());
        let (f0, r0) = pulled(games, pins.drop_last());
        let pos = index_in(game_ids(r0), pins.last());
        if 0 <= pos < r0.len() {
            vstd::seq_lib::lemma_multiset_commutative(f0, r0);
            vstd::seq_lib::lemma_multiset_commutative(front, rest);
            vstd::seq_lib::to_multiset_remove(r0, pos);
            assert(f0.push(r0[pos]).to_multiset() =~= f0.to_multiset().insert(r0[pos]));
            assert(front.to_multiset().add(rest.to_multiset()) =~= f0.to_multiset().add(
                r0.to_multiset(),
            ));
        }
    }
}

proof fn lemma_filter_twice<T>(s: Seq<T>, p: spec_fn(T) -> bool, q: spec_fn(T) -> bool)
    ensures
        s.filter(p).filter(q) == s.filter(|x: T| p(x) && q(x)),
    decreases s.len(),
{
    reveal(Seq::filter);
    if s.len() > 0 {
        lemma_filter_twice(s.drop_last(), p, q);
        let kept = s.drop_last().filter(p);
        if p(s.last()) {
            assert(kept.push(s.last()).drop_last() =~= kept);
        }
    }
}

proof fn lemma_filter_same<T>(s: Seq<T>, p: spec_fn(T) -> bool, q: spec_fn(T) -> bool)
    requires
        forall|i: int| 0 <= i < s.len() ==> p(#[trigger] s[i]) == q(s[i]),
    ensures
        s.filter(p) == s.filter(q),
    decreases s.len(),
{
    reveal(Seq::filter);
    if s.len() > 0 {
        let front = s.drop_last();
        assert forall|i: int| 0 <= i < front.len() implies p(#[trigger] front[i]) == q(
            front[i],
        ) by {
            assert(front[i] == s[i]);
        }
        lemma_filter_same(front, p, q);
        assert(p(s[s.len() - 1]) == q(s[s.len() - 1]));
    }
}

proof fn lemma_filter_all<T>(s: Seq<T>, p: spec_fn(T) -> bool)
    requires
        forall|i: int| 0 <= i < s.len() ==> p(#[trigger] s[i]),
    ensures
        s.filter(p) == s,
    decreases s.len(),
{
    reveal(Seq::filter);
    if s.len() > 0 {
        let front = s.drop_last();
        assert forall|i: int| 0 <= i < front.len() implies p(#[trigger] front[i]) by {
            assert(front[i] == s[i]);
        }
        lemma_filter_all(front, p);
        assert(p(s[s.len() - 1]));
        assert(front.push(s.last()) =~= s);
    }
}

proof fn lemma_filter_all_but<T>(s: Seq<T>, p: spec_fn(T) -> bool, k: int)
    requires
        0 <= k < s.len(),
        !p(s[k]),
        forall|i: int| 0 <= i < s.len() && i != k ==> p(#[trigger] s[i]),
    ensures
        s.filter(p) == s.remove(k),
    decreases s.len(),
{
    reveal(Seq::filter);
    let front = s.drop_last();
    if k == s.len() - 1 {
        assert forall|i: int| 0 <= i < front.len() implies p(#[trigger] front[i]) by {
            assert(front[i] == s[i]);
        }
        lemma_filter_all(front, p);
        assert(s.remove(k) =~= front);
    } else {
        assert forall|i: int| 0 <= i < front.len() && i != k implies p(#[trigger] front[i]) by {
            assert(front[i] == s[i]);
        }
        lemma_filter_all_but(front, p, k);
        assert(p(s[s.len() - 1]));
        assert(front.remove(k).push(s.last()) =~= s.remove(k));
    }
}

/// A member of a filtered sequence is a member of the sequence that meets the condition.
pub proof fn lemma_filter_members<T>(s: Seq<T>, p: spec_fn(T) -> bool)
    ensures
        forall|i: int|
            0 <= i < s.filter(p).len() ==> p(#[trigger] s.filter(p)[i]) && s.contains(
                s.filter(p)[i],
            ),
        forall|i: int| 0 <= i < s.len() && p(#[trigger] s[i]) ==> s.filter(p).contains(s[i]),
    decreases s.len(),
{
    reveal(Seq::filter);
    if s.len() > 0 {
        let front = s.drop_last();
        let kept = front.filter(p);
        lemma_filter_members(front, p);
        assert forall|i: int| 0 <= i < s.filter(p).len() implies p(#[trigger] s.filter(p)[i])
            && s.contains(s.filter(p)[i]) by {
            if i < kept.len() {
                assert(s.filter(p)[i] == kept[i]);
                let m = choose|m: int| 0 <= m < front.len() && front[m] == kept[i];
                assert(s[m] == kept[i]);
            } else {
                assert(s[s.len() - 1] == s.filter(p)[i]);
            }
        }
        assert forall|i: int| 0 <= i < s.len() && p(#[trigger] s[i]) implies s.filter(p).contains(
            s[i],
        ) by {
            if i < front.len() {
                assert(front[i] == s[i]);
                let m = choose|m: int| 0 <= m < kept.len() && kept[m] == s[i];
                assert(s.filter(p)[m] == s[i]);
            } else {
                assert(s.filter(p)[kept.len() as int] == s[i]);
            }
        }
    }
}

/// No two games share an id.
pub open spec fn ids_unique(games: Seq<GameView>) -> bool {
    forall|i: int, j: int|
        0 <= i < games.len() && 0 <= j < games.len() && #[trigger] games[i].id
            == #[trigger] games[j].id ==> i == j
}

proof fn lemma_filter_keeps_unique(games: Seq<GameView>, p: spec_fn(GameView) -> bool)
    requires
        ids_unique(games),
    ensures
        ids_unique(games.filter(p)),
    decreases games.len(),
{
    reveal(Seq::filter);
    if games.len() > 0 {
        let front = games.drop_last();
        assert forall|i: int, j: int|
            0 <= i < front.len() && 0 <= j < front.len() && #[trigger] front[i].id
                == #[trigger] front[j].id implies i == j by {
            assert(games[i].id == games[j].id);
        }
        lemma_filter_keeps_unique(front, p);
        lemma_filter_members(front, p);
        let kept = front.filter(p);
        if p(games.last()) {
            let out = kept.push(games.last());
            assert forall|i: int, j: int|
                0 <= i < out.len() && 0 <= j < out.len() && #[trigger] out[i].id
                    == #[trigger] out[j].id implies i == j by {
                if i < kept.len() && j < kept.len() {
                    assert(kept[i].id == kept[j].id);
                } else if i < kept.len() && j == kept.len() {
                    assert(front.contains(kept[i]));
                    let m = choose|m: int| 0 <= m < front.len() && front[m] == kept[i];
                    assert(games[m].id == games[games.len() - 1].id);
                } else if j < kept.len() && i == kept.len() {
                    assert(front.contains(kept[j]));
                    let m = choose|m: int| 0 <= m < front.len() && front[m] == kept[j];
                    assert(games[m].id == games[games.len() - 1].id);
                }
            }
        }
    }
}

/// The pinned games lead in the order of the pins, pins without a game are passed over, and the
/// other games keep their order.
pub proof fn law_pinned_lead_in_pin_order(games: Seq<GameView>, pins: Seq<Seq<char>>)
    requires
        ids_unique(games),
        pins.no_duplicates(),
    ensures
        game_ids(pulled(games, pins).0) == pins.filter(
            |id: Seq<char>| game_ids(games).contains(id),
        ),
        pulled(games, pins).1 == games.filter(|g: GameView| !pins.contains(g.id)),
    decreases pins.len(),
{
    let has = |id: Seq<char>| game_ids(games).contains(id);
    let (front, rest) = pulled(games, pins);
    if pins.len() == 0 {
        reveal(Seq::filter);
        lemma_filter_all(games, |g: GameView| !pins.contains(g.id));
        assert(game_ids(front) =~= pins.filter(has));
    } else {
        let p0 = pins.drop_last();
        let p = pins.last();
        assert(!p0.contains(p)) by {
            if p0.contains(p) {
                let k = choose|k: int| 0 <= k < p0.len() && p0[k] == p;
                assert(pins[k] == pins[pins.len() - 1]);
            }
        }
        law_pinned_lead_in_pin_order(games, p0);
        let (f0, r0) = pulled(games, p0);
        let a = |g: GameView| !p0.contains(g.id);
        let b = |g: GameView| g.id != p;
        let both = |g: GameView| a(g) && b(g);
        let want = |g: GameView| !pins.contains(g.id);
        lemma_filter_members(games, a);
        lemma_filter_keeps_unique(games, a);
        lemma_index_in(game_ids(r0), p);
        let pos = index_in(game_ids(r0), p);
        lemma_filter_twice(games, a, b);
        assert forall|i: int| 0 <= i < games.len() implies both(#[trigger] games[i]) == want(
            games[i],
        ) by {
            let id = games[i].id;
            if pins.contains(id) && id != p {
                let k = choose|k: int| 0 <= k < pins.len() && pins[k] == id;
                assert(p0[k] == id);
            }
            if p0.contains(id) {
                let k = choose|k: int| 0 <= k < p0.len() && p0[k] == id;
                assert(pins[k] == id);
            }
            if id == p {
                assert(pins[pins.len() - 1] == id);
            }
        }
        lemma_filter_same(games, both, want);
        reveal(Seq::filter);
        if pos < r0.len() {
            assert(game_ids(r0)[pos] == p);
            assert forall|i: int| 0 <= i < r0.len() && i != pos implies b(#[trigger] r0[i]) by {
                if r0[i].id == p {
                    assert(r0[i].id == r0[pos].id);
                }
            }
            lemma_filter_all_but(r0, b, pos);
            assert(games.contains(r0[pos]));
            let m = choose|m: int| 0 <= m < games.len() && games[m] == r0[pos];
            assert(game_ids(games)[m] == p);
            assert(has(p));
            assert(game_ids(front) =~= game_ids(f0).push(p));
        } else {
            assert forall|i: int| 0 <= i < r0.len() implies b(#[trigger] r0[i]) by {
                assert(game_ids(r0)[i] != p);
            }
            lemma_filter_all(r0, b);
            if has(p) {
                let m = choose|m: int| 0 <= m < games.len() && game_ids(games)[m] == p;
                assert(a(games[m]));
                assert(r0.contains(games[m]));
                let k = choose|k: int| 0 <= k < r0.len() && r0[k] == games[m];
                assert(game_ids(r0)[k] == p);
            }
        }
    }
}

proof fn lemma_filter_insert_out<T>(s: Seq<T>, k: int, x: T, p: spec_fn(T) -> bool)
    requires
        0 <= k <= s.len(),
        !p(x),
    ensures
        s.insert(k, x).filter(p) == s.filter(p),
    decreases s.len() - k,
{
    reveal(Seq::filter);
    let out = s.insert(k, x);
    if k == s.len() {
        assert(out.drop_last() =~= s);
    } else {
        lemma_filter_insert_out(s.drop_last(), k, x, p);
        assert(out.drop_last() =~= s.drop_last().insert(k, x));
        assert(out.last() == s.last());
    }
}

proof fn lemma_filter_insert_in<T>(s: Seq<T>, k: int, x: T, p: spec_fn(T) -> bool)
    requires
        0 <= k <= s.len(),
        p(x),
        forall|i: int| k <= i < s.len() ==> !p(#[trigger] s[i]),
    ensures
        s.insert(k, x).filter(p) == s.filter(p).push(x),
    decreases s.len() - k,
{
    reveal(Seq::filter);
    let out = s.insert(k, x);
    if k == s.len() {
        assert(out.drop_last() =~= s);
    } else {
        let front = s.drop_last();
        assert forall|i: int| k <= i < front.len() implies !p(#[trigger] front[i]) by {
            assert(front[i] == s[i]);
        }
        lemma_filter_insert_in(front, k, x, p);
        assert(out.drop_last() =~= front.insert(k, x));
        assert(out.last() == s[s.len() - 1]);
    }
}

/// Titles that read the same but for case keep the order in which the host listed them.
pub proof fn law_by_title_stable(s: Seq<GameView>, key: Seq<char>)
    ensures
        by_title(s).filter(|g: GameView| title_key(g) == key) == s.filter(
            |g: GameView| title_key(g) == key,
        ),
    decreases s.len(),
{
    reveal(Seq::filter);
    if s.len() > 0 {
        let p = |g: GameView| title_key(g) == key;
        let front = s.drop_last();
        let g = s.last();
        let rest = by_title(front);
        law_by_title_stable(front, key);
        law_by_title_sorts(front);
        lemma_insert_at(rest, g);
        let k = insert_at(rest, g);
        if p(g) {
            assert forall|i: int| k <= i < rest.len() implies !p(#[trigger] rest[i]) by {
                if p(rest[i]) {
                    if i > k {
                        assert(text_le(title_key(rest[k]), title_key(rest[i])));
                    }
                    lemma_text_le_total(title_key(g), title_key(g));
                }
            }
            lemma_filter_insert_in(rest, k, g, p);
        } else {
            lemma_filter_insert_out(rest, k, g, p);
        }
    }
}

/// Texts stand in the order of the first character in which they differ; one that another begins
/// with stands before it.
pub proof fn law_first_difference_decides(a: Seq<char>, b: Seq<char>, k: int)
    requires
        0 <= k <= a.len(),
        k <= b.len(),
        forall|i: int| 0 <= i < k ==> a[i] == b[i],
    ensures
        k < a.len() && k < b.len() && (a[k] as int) < b[k] as int ==> text_le(a, b) && !text_le(b, a),
        k == a.len() ==> text_le(a, b),
        k == a.len() && k < b.len() ==> !text_le(b, a),
    decreases a.len(),
{
    if k > 0 {
        let x = a.drop_first();
        let y = b.drop_first();
        assert forall|i: int| 0 <= i < k - 1 implies x[i] == y[i] by {
            assert(a[i + 1] == b[i + 1]);
        }
        assert(a[0] == b[0]);
        law_first_difference_decides(x, y, k - 1);
    }
}

/// A library in order stands in the order of its titles, without regard to case, and keeps every
/// game as often as it was there.
pub proof fn law_library_stands_by_title(s: Seq<GameView>, i: int, j: int)
    requires
        0 <= i < j < s.len(),
    ensures
        by_title(s).len() == s.len(),
        text_le(lowercase_of(by_title(s)[i].title), lowercase_of(by_title(s)[j].title)),
        by_title(s).to_multiset() == s.to_multiset(),
{
    law_by_title_sorts(s);
    assert(text_le(title_key(by_title(s)[i]), title_key(by_title(s)[j])));
}

/// What is left of an ordered library after leaving games out is in order.
pub proof fn lemma_filter_keeps_order(
    s: Seq<GameView>,
    p: spec_fn(GameView) -> bool,
    i: int,
    j: int,
)
    requires
        ordered(s),
        0 <= i < j < s.filter(p).len(),
    ensures
        text_le(title_key(s.filter(p)[i]), title_key(s.filter(p)[j])),
    decreases s.len(),
{
    reveal(Seq::filter);
    let head = s.drop_last();
    assert forall|a: int, b: int| 0 <= a < b < head.len() implies text_le(
        title_key(#[trigger] head[a]),
        title_key(#[trigger] head[b]),
    ) by {
        assert(head[a] == s[a] && head[b] == s[b]);
    }
    if p(s.last()) && j == head.filter(p).len() {
        let x = s.filter(p)[i];
        assert(x == head.filter(p)[i]);
        lemma_filter_members(head, p);
        assert(head.contains(x));
        let k = choose|k: int| 0 <= k < head.len() && head[k] == x;
        assert(text_le(title_key(s[k]), title_key(s[s.len() - 1])));
    } else {
        lemma_filter_keeps_order(head, p, i, j);
    }
}

} // verus!
