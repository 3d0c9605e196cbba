//! Keyed entry vectors: the storage discipline behind the item indexes.
//!
//! An index bucket is a vector of entries with pairwise-distinct
//! identifiers.  Its mathematical content is the map from identifier to
//! entry given by [`map_of`]; insertion keeps the invariant and gives
//! the bucket last-wins semantics.

use vstd::prelude::*;

verus! {

/// An entry that is identified by a textual key.
pub trait Keyed: Sized {
    /// The identifier that the entry is indexed under.
    spec fn key(&self) -> Seq<char>;

    /// The identifier, as the stored string.
    fn ident(&self) -> (r: &String)
        ensures
            r@ == self.key(),
    ;

    /// An equal copy of the entry.
    fn duplicate(&self) -> (r: Self)
        ensures
            r == *self,
    ;
}

/// All entries of `s` have pairwise-distinct keys.
pub open spec fn unique_keys<T: Keyed>(s: Seq<T>) -> bool {
    forall|i: int, j: int| 0 <= i < j < s.len() ==> s[i].key() != s[j].key()
}

/// The map from key to entry described by `s`; on a duplicated key the
/// later entry wins.
pub open spec fn map_of<T: Keyed>(s: Seq<T>) -> Map<Seq<char>, T>
    decreases s.len(),
{
    if s.len() == 0 {
        Map::empty()
    } else {
        map_of(s.drop_last()).insert(s.last().key(), s.last())
    }
}

/// The index of the first entry of `s` whose key lies outside `dom`.
pub open spec fn first_missing<T: Keyed>(s: Seq<T>, dom: Set<Seq<char>>) -> Option<int>
    decreases s.len(),
{
    if s.len() == 0 {
        None
    } else if !dom.contains(s.first().key()) {
        Some(0int)
    } else {
        match first_missing(s.drop_first(), dom) {
            None => None,
            Some(i) => Some(i + 1),
        }
    }
}

pub proof fn lemma_map_of_contains<T: Keyed>(s: Seq<T>, k: Seq<char>)
    ensures
        map_of(s).contains_key(k) <==> exists|i: int| 0 <= i < s.len() && s[i].key() == k,
    decreases s.len(),
{
    if s.len() == 0 {
    } else {
        lemma_map_of_contains(s.drop_last(), k);
        if s.last().key() == k {
            assert(s[s.len() - 1].key() == k);
        } else {
            if map_of(s).contains_key(k) {
                let i = choose|i: int| 0 <= i < s.drop_last().len() && s.drop_last()[i].key() == k;
                assert(s[i].key() == k);
            }
            if exists|i: int| 0 <= i < s.len() && s[i].key() == k {
                let i = choose|i: int| 0 <= i < s.len() && s[i].key() == k;
                assert(i < s.len() - 1);
                assert(s.drop_last()[i].key() == k);
            }
        }
    }
}

pub proof fn lemma_unique_drop_last<T: Keyed>(s: Seq<T>)
    requires
        unique_keys(s),
        s.len() > 0,
    ensures
        unique_keys(s.drop_last()),
{
    assert forall|i: int, j: int| 0 <= i < j < s.drop_last().len() implies s.drop_last()[i].key()
        != s.drop_last()[j].key() by {
        assert(s.drop_last()[i] == s[i]);
        assert(s.drop_last()[j] == s[j]);
    }
}

pub proof fn lemma_map_of_index<T: Keyed>(s: Seq<T>, j: int)
    requires
        unique_keys(s),
        0 <= j < s.len(),
    ensures
        map_of(s).contains_key(s[j].key()),
        map_of(s)[s[j].key()] == s[j],
    decreases s.len(),
{
    if j == s.len() - 1 {
    } else {
        lemma_unique_drop_last(s);
        lemma_map_of_index(s.drop_last(), j);
        assert(s.drop_last()[j] == s[j]);
        assert(s[j].key() != s.last().key());
    }
}

pub proof fn lemma_map_of_card<T: Keyed>(s: Seq<T>)
    requires
        unique_keys(s),
    ensures
        map_of(s).dom().finite(),
        map_of(s).dom().len() == s.len(),
    decreases s.len(),
{
    if s.len() == 0 {
        assert(map_of(s).dom() =~= Set::<Seq<char>>::empty());
    } else {
        lemma_unique_drop_last(s);
        lemma_map_of_card(s.drop_last());
        lemma_map_of_contains(s.drop_last(), s.last().key());
        assert(forall|i: int|
            0 <= i < s.drop_last().len() ==> s.drop_last()[i] == s[i]);
        assert(!map_of(s.drop_last()).contains_key(s.last().key()));
        assert(map_of(s).dom() =~= map_of(s.drop_last()).dom().insert(s.last().key()));
    }
}

pub proof fn lemma_first_missing_none<T: Keyed>(s: Seq<T>, dom: Set<Seq<char>>)
    ensures
        first_missing(s, dom) is None <==> forall|i: int|
            0 <= i < s.len() ==> dom.contains(s[i].key()),
    decreases s.len(),
{
    if s.len() == 0 {
    } else {
        lemma_first_missing_none(s.drop_first(), dom);
        assert(forall|i: int| 0 <= i < s.drop_first().len() ==> s.drop_first()[i] == s[i + 1]);
        if dom.contains(s.first().key()) {
            if first_missing(s, dom) is None {
                assert forall|i: int| 0 <= i < s.len() implies dom.contains(s[i].key()) by {
                    if i == 0 {
                    } else {
                        assert(s.drop_first()[i - 1] == s[i]);
                    }
                }
            }
        }
    }
}

pub proof fn lemma_first_missing_some<T: Keyed>(s: Seq<T>, dom: Set<Seq<char>>, j: int)
    requires
        0 <= j < s.len(),
        forall|i: int| 0 <= i < j ==> dom.contains(s[i].key()),
        !dom.contains(s[j].key()),
    ensures
        first_missing(s, dom) == Some(j),
    decreases s.len(),
{
    if j == 0 {
    } else {
        assert(dom.contains(s.first().key()));
        assert(forall|i: int| 0 <= i < s.drop_first().len() ==> s.drop_first()[i] == s[i + 1]);
        lemma_first_missing_some(s.drop_first(), dom, j - 1);
    }
}

pub proof fn lemma_first_missing_inv<T: Keyed>(s: Seq<T>, dom: Set<Seq<char>>, j: int)
    requires
        first_missing(s, dom) == Some(j),
    ensures
        0 <= j < s.len(),
        !dom.contains(s[j].key()),
        forall|i: int| 0 <= i < j ==> dom.contains(s[i].key()),
    decreases s.len(),
{
    if s.len() == 0 {
    } else if !dom.contains(s.first().key()) {
    } else {
        let inner = first_missing(s.drop_first(), dom);
        assert(inner == Some(j - 1));
        lemma_first_missing_inv(s.drop_first(), dom, j - 1);
        assert(forall|i: int| 0 <= i < s.drop_first().len() ==> s.drop_first()[i] == s[i + 1]);
        assert forall|i: int| 0 <= i < j implies dom.contains(s[i].key()) by {
            if i > 0 {
                assert(s.drop_first()[i - 1] == s[i]);
            }
        }
    }
}

/// When no entry of `s` is missing from `dom`, every key indexed by
/// `s` lies in `dom`.
pub proof fn lemma_map_of_dom_subset<T: Keyed>(s: Seq<T>, dom: Set<Seq<char>>)
    requires
        first_missing(s, dom) is None,
    ensures
        map_of(s).dom().subset_of(dom),
{
    lemma_first_missing_none(s, dom);
    assert forall|k: Seq<char>| map_of(s).dom().contains(k) implies dom.contains(k) by {
        lemma_map_of_contains(s, k);
        let i = choose|i: int| 0 <= i < s.len() && s[i].key() == k;
        assert(dom.contains(s[i].key()));
    }
}

/// Finds the position of the entry stored under `ident`, if any.
pub(crate) fn vec_find<T: Keyed>(v: &Vec<T>, ident: &String) -> (r: Option<usize>)
    ensures
        match r {
            Some(j) => j < v@.len() && v@[j as int].key() == ident@,
            None => forall|i: int| 0 <= i < v@.len() ==> v@[i].key() != ident@,
        },
{
    let mut i: usize = 0;
    while i < v.len()
        invariant
            i <= v@.len(),
            forall|k: int| 0 <= k < i ==> v@[k].key() != ident@,
        decreases v@.len() - i,
    {
        if *v[i].ident() == *ident {
            return Some(i);
        }
        i += 1;
    }
    None
}

/// Whether the bucket holds an entry under `ident`.
pub(crate) fn vec_contains<T: Keyed>(v: &Vec<T>, ident: &String) -> (r: bool)
    ensures
        r == map_of(v@).contains_key(ident@),
{
    let found = vec_find(v, ident);
    proof {
        lemma_map_of_contains(v@, ident@);
    }
    match found {
        Some(j) => {
            proof {
                assert(0 <= j < v@.len() && v@[j as int].key() == ident@);
            }
            true
        },
        None => false,
    }
}

/// Stores `item` under its key; an entry already stored under the same
/// key is replaced, so that the later entry wins.
pub(crate) fn vec_insert<T: Keyed>(v: &mut Vec<T>, item: T)
    requires
        unique_keys(old(v)@),
    ensures
        unique_keys(final(v)@),
        map_of(final(v)@) == map_of(old(v)@).insert(item.key(), item),
{
    let found = vec_find(v, item.ident());
    match found {
        Some(j) => {
            let ghost prev = v@;
            v.set(j, item);
            proof {
                lemma_map_of_update(prev, j as int, item);
                assert forall|a: int, b: int| 0 <= a < b < v@.len() implies v@[a].key()
                    != v@[b].key() by {
                    assert(prev[a].key() != prev[b].key());
                }
            }
        },
        None => {
            let ghost prev = v@;
            v.push(item);
            proof {
                assert(v@.drop_last() =~= prev);
                assert(v@.last() == item);
                assert forall|a: int, b: int| 0 <= a < b < v@.len() implies v@[a].key()
                    != v@[b].key() by {
                    if b < prev.len() {
                        assert(prev[a].key() != prev[b].key());
                    } else {
                        assert(prev[a].key() != item.key());
                    }
                }
            }
        },
    }
}

pub proof fn lemma_map_of_update<T: Keyed>(s: Seq<T>, j: int, x: T)
    requires
        unique_keys(s),
        0 <= j < s.len(),
        s[j].key() == x.key(),
    ensures
        map_of(s.update(j, x)) == map_of(s).insert(x.key(), x),
    decreases s.len(),
{
    if j == s.len() - 1 {
        assert(s.update(j, x).drop_last() =~= s.drop_last());
        assert(s.update(j, x).last() == x);
        assert(map_of(s.update(j, x)) =~= map_of(s).insert(x.key(), x));
    } else {
        lemma_unique_drop_last(s);
        assert(s.drop_last()[j] == s[j]);
        lemma_map_of_update(s.drop_last(), j, x);
        assert(s.update(j, x).drop_last() =~= s.drop_last().update(j, x));
        assert(s.update(j, x).last() == s.last());
        assert(s[j].key() != s.last().key());
        assert(map_of(s.update(j, x)) =~= map_of(s).insert(x.key(), x));
    }
}

/// A copy of `v` without the entries whose key is indexed in `other`.
pub(crate) fn vec_filter_out<T: Keyed, U: Keyed>(v: &Vec<T>, other: &Vec<U>) -> (r: Vec<T>)
    requires
        unique_keys(v@),
    ensures
        unique_keys(r@),
        map_of(r@) == map_of(v@).remove_keys(map_of(other@).dom()),
{
    let mut r: Vec<T> = Vec::new();
    let mut i: usize = 0;
    proof {
        assert(v@.take(0) =~= Seq::<T>::empty());
        assert(map_of(r@) =~= map_of(v@.take(0)).remove_keys(map_of(other@).dom()));
    }
    while i < v.len()
        invariant
            i <= v@.len(),
            unique_keys(v@),
            unique_keys(r@),
            map_of(r@) == map_of(v@.take(i as int)).remove_keys(map_of(other@).dom()),
            forall|a: int|
                0 <= a < r@.len() ==> exists|b: int|
                    0 <= b < i && #[trigger] r@[a].key() == #[trigger] v@[b].key(),
        decreases v@.len() - i,
    {
        let ghost ks = map_of(other@).dom();
        proof {
            assert(v@.take(i + 1).drop_last() =~= v@.take(i as int));
            assert(v@.take(i + 1).last() == v@[i as int]);
        }
        let keep = !vec_contains(other, v[i].ident());
        if keep {
            let ghost prev = r@;
            r.push(v[i].duplicate());
            proof {
                assert(r@.drop_last() =~= prev);
                assert(r@.last() == v@[i as int]);
                assert(map_of(r@) =~= map_of(v@.take(i + 1)).remove_keys(ks));
                assert forall|a: int, b: int| 0 <= a < b < r@.len() implies r@[a].key()
                    != r@[b].key() by {
                    if b < prev.len() {
                        assert(prev[a].key() != prev[b].key());
                    } else {
                        let w = choose|w: int| 0 <= w < i && prev[a].key() == v@[w].key();
                        assert(v@[w].key() != v@[i as int].key());
                    }
                }
                assert forall|a: int| 0 <= a < r@.len() implies exists|b: int|
                    0 <= b < i + 1 && #[trigger] r@[a].key() == #[trigger] v@[b].key() by {
                    if a < prev.len() {
                        let w = choose|w: int| 0 <= w < i && prev[a].key() == v@[w].key();
                        assert(0 <= w < i + 1 && r@[a].key() == v@[w].key());
                    } else {
                        assert(r@[a].key() == v@[i as int].key());
                    }
                }
            }
        } else {
            proof {
                assert(map_of(r@) =~= map_of(v@.take(i + 1)).remove_keys(ks));
            }
        }
        i += 1;
    }
    proof {
        assert(v@.take(v@.len() as int) =~= v@);
    }
    r
}

} // verus!
