//! Sequences of values seen through their views, and looking things up in vectors.
use vstd::prelude::*;

use crate::text::same_text;

verus! {

/// The views of the elements of `s`, in order.
#[verifier::opaque]
pub open spec fn views<T: View>(s: Seq<T>) -> Seq<T::V> {
    Seq::new(s.len(), |i: int| s[i]@)
}

/// The view of an optional value.
pub open spec fn opt_view<T: View>(o: Option<T>) -> Option<T::V> {
    match o {
        Some(x) => Some(x@),
        None => None,
    }
}

pub broadcast proof fn lemma_views_len<T: View>(s: Seq<T>)
    ensures
        #[trigger] views(s).len() == s.len(),
{
    reveal(views);
}

pub broadcast proof fn lemma_views_index<T: View>(s: Seq<T>, i: int)
    requires
        0 <= i < s.len(),
    ensures
        #[trigger] views(s)[i] == s[i]@,
{
    reveal(views);
}

pub broadcast proof fn lemma_views_push<T: View>(s: Seq<T>, x: T)
    ensures
        #[trigger] views(s.push(x)) == views(s).push(x@),
{
    reveal(views);
    assert(views(s.push(x)) =~= views(s).push(x@));
}

pub broadcast proof fn lemma_views_remove<T: View>(s: Seq<T>, i: int)
    requires
        0 <= i < s.len(),
    ensures
        #[trigger] views(s.remove(i)) == views(s).remove(i),
{
    reveal(views);
    assert(views(s.remove(i)) =~= views(s).remove(i));
}

pub broadcast proof fn lemma_views_update<T: View>(s: Seq<T>, i: int, x: T)
    requires
        0 <= i < s.len(),
    ensures
        #[trigger] views(s.update(i, x)) == views(s).update(i, x@),
{
    reveal(views);
    assert(views(s.update(i, x)) =~= views(s).update(i, x@));
}

pub broadcast proof fn lemma_views_add<T: View>(a: Seq<T>, b: Seq<T>)
    ensures
        #[trigger] views(a + b) == views(a) + views(b),
{
    reveal(views);
    assert(views(a + b) =~= views(a) + views(b));
}

pub broadcast proof fn lemma_views_insert<T: View>(s: Seq<T>, i: int, x: T)
    requires
        0 <= i <= s.len(),
    ensures
        #[trigger] views(s.insert(i, x)) == views(s).insert(i, x@),
{
    reveal(views);
    assert(views(s.insert(i, x)) =~= views(s).insert(i, x@));
}

pub broadcast proof fn lemma_views_empty<T: View>(s: Seq<T>)
    requires
        s.len() == 0,
    ensures
        #[trigger] views(s) == Seq::<T::V>::empty(),
{
    reveal(views);
    assert(views(s) =~= Seq::<T::V>::empty());
}

pub broadcast group group_views {
    lemma_views_len,
    lemma_views_index,
    lemma_views_push,
    lemma_views_remove,
    lemma_views_update,
    lemma_views_add,
    lemma_views_insert,
    lemma_views_empty,
}

/// A copy of a vector of strings.
pub fn clone_strings(v: &Vec<String>) -> (r: Vec<String>)
    ensures
        r@ == v@,
{
    let mut out: Vec<String> = Vec::new();
    let mut i: usize = 0;
    while i < v.len()
        invariant
            i <= v.len(),
            out@ == v@.take(i as int),
        decreases v.len() - i,
    {
        proof {
            assert(v@.take(i + 1) =~= v@.take(i as int).push(v@[i as int]));
        }
        out.push(v[i].clone());
        i += 1;
    }
    assert(v@.take(v@.len() as int) =~= v@);
    out
}

/// Whether two vectors hold the same texts in the same order.
pub fn same_strings(a: &Vec<String>, b: &Vec<String>) -> (r: bool)
    ensures
        r == (views(a@) == views(b@)),
{
    broadcast use group_views;

    if a.len() != b.len() {
        proof {
            assert(views(a@).len() != views(b@).len());
        }
        return false;
    }
    let mut i: usize = 0;
    while i < a.len()
        invariant
            i <= a.len(),
            a.len() == b.len(),
            forall|j: int| 0 <= j < i ==> a@[j]@ == b@[j]@,
        decreases a.len() - i,
    {
        broadcast use group_views;

        if a[i] != b[i] {
            proof {
                assert(views(a@)[i as int] != views(b@)[i as int]);
            }
            return false;
        }
        i += 1;
    }
    assert(views(a@) =~= views(b@));
    true
}

/// Where `x` first occurs in `s`, or the length of `s`.
pub open spec fn index_in<T>(s: Seq<T>, x: T) -> int
    decreases s.len(),
{
    if s.len() == 0 {
        0
    } else if s[0] == x {
        0
    } else {
        1 + index_in(s.drop_first(), x)
    }
}

/// The first occurrence is in range exactly when there is one, and nothing before it matches.
pub proof fn lemma_index_in<T>(s: Seq<T>, x: T)
    ensures
        0 <= index_in(s, x) <= s.len(),
        index_in(s, x) < s.len() ==> s[index_in(s, x)] == x,
        forall|i: int| 0 <= i < index_in(s, x) ==> s[i] != x,
        (index_in(s, x) < s.len()) == s.contains(x),
    decreases s.len(),
{
    if s.len() > 0 {
        let rest = s.drop_first();
        if s[0] == x {
            assert(s.contains(x));
        } else {
            lemma_index_in(rest, x);
            let k = index_in(rest, x);
            assert forall|i: int| 0 <= i < 1 + k implies s[i] != x by {
                if i > 0 {
                    assert(rest[i - 1] == s[i]);
                }
            }
            if k < rest.len() {
                assert(s[k + 1] == rest[k]);
                assert(s.contains(x));
            } else {
                assert forall|i: int| 0 <= i < s.len() implies s[i] != x by {
                    if i > 0 {
                        assert(rest[i - 1] == s[i]);
                    }
                }
            }
        }
    }
}

/// An index at which `x` stands, with nothing equal before it, is the first occurrence.
pub proof fn lemma_index_in_unique<T>(s: Seq<T>, x: T, k: int)
    requires
        0 <= k <= s.len(),
        forall|i: int| 0 <= i < k ==> s[i] != x,
        k < s.len() ==> s[k] == x,
    ensures
        index_in(s, x) == k,
{
    lemma_index_in(s, x);
    let m = index_in(s, x);
    if m < k {
        assert(s[m] == x);
    } else if m > k {
        assert(s[k] != x);
    }
}


/// The texts other than `x`.
pub open spec fn texts_without(s: Seq<Seq<char>>, x: Seq<char>) -> Seq<Seq<char>> {
    s.filter(|t: Seq<char>| t != x)
}

/// Removes every text equal to `x`.
pub fn remove_text(v: &mut Vec<String>, x: &str)
    ensures
        views(final(v)@) == texts_without(views(old(v)@), x@),
{
    broadcast use group_views;

    let mut out: Vec<String> = Vec::new();
    let mut i: usize = 0;
    proof {
        assert(views(v@).take(0) =~= seq![]);
        reveal(Seq::filter);
        assert(views(out@) =~= texts_without(views(v@).take(0), x@));
    }
    while i < v.len()
        invariant
            i <= v.len(),
            v@ == old(v)@,
            views(out@) == texts_without(views(v@).take(i as int), x@),
        decreases v.len() - i,
    {
        broadcast use group_views;

        let t = v[i].clone();
        proof {
            let now = views(v@).take(i + 1);
            assert(now.drop_last() =~= views(v@).take(i as int));
            assert(now.last() == t@);
            reveal(Seq::filter);
        }
        if !same_text(t.as_str(), x) {
            out.push(t);
        }
        i += 1;
    }
    proof {
        assert(views(v@).take(v.len() as int) =~= views(v@));
    }
    *v = out;
}

/// Removing a text removes it, and no other.
pub proof fn law_texts_without(s: Seq<Seq<char>>, x: Seq<char>, y: Seq<char>)
    ensures
        texts_without(s, x).contains(y) == (s.contains(y) && y != x),
    decreases s.len(),
{
    reveal(Seq::filter);
    if s.len() > 0 {
        let init = s.drop_last();
        law_texts_without(init, x, y);
        let all = texts_without(s, x);
        let some = texts_without(init, x);
        assert forall|i: int| 0 <= i < init.len() implies s.contains(#[trigger] init[i]) by {
            assert(s[i] == init[i]);
        }
        if s.contains(y) && y != x {
            let k = choose|k: int| 0 <= k < s.len() && s[k] == y;
            if k < init.len() {
                assert(init[k] == y);
                let j = choose|j: int| 0 <= j < some.len() && some[j] == y;
                assert(all[j] == y);
            } else {
                assert(all[all.len() - 1] == y);
            }
        }
        if all.contains(y) {
            let j = choose|j: int| 0 <= j < all.len() && all[j] == y;
            if j < some.len() {
                assert(some[j] == y);
                let k = choose|k: int| 0 <= k < init.len() && init[k] == y;
                assert(s[k] == y);
            } else {
                assert(s[s.len() - 1] == y);
            }
        }
    }
}

} // verus!
