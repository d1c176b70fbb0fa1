use vstd::prelude::*;

verus! {

/// An association list keyed by strings: the model of every in-memory store.
/// No key appears twice.
pub open spec fn keys_unique<V>(s: Seq<(Seq<char>, V)>) -> bool {
    forall|i: int, j: int| 0 <= i < j < s.len() ==> s[i].0 != s[j].0
}

/// The map that an association list denotes.
pub open spec fn map_of<V>(s: Seq<(Seq<char>, V)>) -> Map<Seq<char>, V>
    decreases s.len(),
{
    if s.len() == 0 {
        Map::empty()
    } else {
        map_of(s.drop_last()).insert(s.last().0, s.last().1)
    }
}

pub proof fn lemma_map_of_absent<V>(s: Seq<(Seq<char>, V)>, k: Seq<char>)
    requires
        forall|i: int| 0 <= i < s.len() ==> s[i].0 != k,
    ensures
        !map_of(s).contains_key(k),
    decreases s.len(),
{
    if s.len() > 0 {
        lemma_map_of_absent(s.drop_last(), k);
    }
}

pub proof fn lemma_map_of_index<V>(s: Seq<(Seq<char>, V)>, i: int)
    requires
        keys_unique(s),
        0 <= i < s.len(),
    ensures
        map_of(s).contains_key(s[i].0),
        map_of(s)[s[i].0] == s[i].1,
    decreases s.len(),
{
    if i < s.len() - 1 {
        lemma_map_of_index(s.drop_last(), i);
    }
}

pub proof fn lemma_map_of_push<V>(s: Seq<(Seq<char>, V)>, x: (Seq<char>, V))
    ensures
        map_of(s.push(x)) == map_of(s).insert(x.0, x.1),
{
    assert(s.push(x).drop_last() =~= s);
}

pub proof fn lemma_map_of_update<V>(s: Seq<(Seq<char>, V)>, i: int, x: (Seq<char>, V))
    requires
        keys_unique(s),
        0 <= i < s.len(),
        x.0 == s[i].0,
    ensures
        keys_unique(s.update(i, x)),
        map_of(s.update(i, x)) == map_of(s).insert(x.0, x.1),
    decreases s.len(),
{
    if i == s.len() - 1 {
        assert(s.update(i, x).drop_last() =~= s.drop_last());
        assert(map_of(s.drop_last()).insert(x.0, x.1) =~= map_of(s).insert(x.0, x.1));
    } else {
        lemma_map_of_update(s.drop_last(), i, x);
        assert(s.update(i, x).drop_last() =~= s.drop_last().update(i, x));
        assert(s.last().0 != x.0);
        assert(map_of(s.update(i, x)) =~= map_of(s).insert(x.0, x.1));
    }
}

pub proof fn lemma_map_of_remove<V>(s: Seq<(Seq<char>, V)>, i: int)
    requires
        keys_unique(s),
        0 <= i < s.len(),
    ensures
        keys_unique(s.remove(i)),
        map_of(s.remove(i)) == map_of(s).remove(s[i].0),
    decreases s.len(),
{
    let k = s[i].0;
    if i == s.len() - 1 {
        assert(s.remove(i) =~= s.drop_last());
        assert forall|j: int| 0 <= j < s.drop_last().len() implies s.drop_last()[j].0 != k by {}
        lemma_map_of_absent(s.drop_last(), k);
        assert(map_of(s.drop_last()) =~= map_of(s).remove(k));
    } else {
        lemma_map_of_remove(s.drop_last(), i);
        assert(s.remove(i).drop_last() =~= s.drop_last().remove(i));
        assert(s.remove(i).last() == s.last());
        assert(s.last().0 != k);
        assert(map_of(s.remove(i)) =~= map_of(s).remove(k));
    }
}

pub proof fn lemma_push_keeps_unique<V>(s: Seq<(Seq<char>, V)>, x: (Seq<char>, V))
    requires
        keys_unique(s),
        forall|i: int| 0 <= i < s.len() ==> s[i].0 != x.0,
    ensures
        keys_unique(s.push(x)),
{
}

pub proof fn lemma_map_of_len<V>(s: Seq<(Seq<char>, V)>)
    requires
        keys_unique(s),
    ensures
        map_of(s).dom().finite(),
        map_of(s).dom().len() == s.len(),
    decreases s.len(),
{
    if s.len() > 0 {
        let t = s.drop_last();
        lemma_map_of_len(t);
        assert forall|i: int| 0 <= i < t.len() implies t[i].0 != s.last().0 by {
            assert(s[i].0 != s[s.len() - 1].0);
        }
        lemma_map_of_absent(t, s.last().0);
    }
}

} // verus!
