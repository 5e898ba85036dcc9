//! Lists of name/value pairs read as maps: a later pair replaces an earlier
//! one of the same name.

use vstd::prelude::*;

verus! {

/// The map that `pairs` describe, a later pair winning over an earlier one of
/// the same name.
pub open spec fn pairs_map(pairs: Seq<(Seq<char>, Seq<char>)>) -> Map<Seq<char>, Seq<char>>
    decreases pairs.len(),
{
    if pairs.len() == 0 {
        Map::empty()
    } else {
        pairs_map(pairs.drop_last()).insert(pairs.last().0, pairs.last().1)
    }
}

/// No name occurs twice in `pairs`.
pub open spec fn names_distinct(pairs: Seq<(Seq<char>, Seq<char>)>) -> bool {
    forall|i: int, j: int| 0 <= i < j < pairs.len() ==> pairs[i].0 != pairs[j].0
}

/// A name in the map comes from a pair that carries its value.
pub proof fn lemma_pairs_map_witness(pairs: Seq<(Seq<char>, Seq<char>)>, name: Seq<char>)
    requires
        pairs_map(pairs).contains_key(name),
    ensures
        exists|i: int|
            0 <= i < pairs.len() && #[trigger] pairs[i] == (name, pairs_map(pairs)[name]),
    decreases pairs.len(),
{
    let last = pairs.len() - 1;
    if pairs[last].0 == name {
        assert(pairs[last] == (name, pairs_map(pairs)[name]));
    } else {
        let t = pairs.drop_last();
        lemma_pairs_map_witness(t, name);
        let i = choose|i: int| 0 <= i < t.len() && #[trigger] t[i] == (name, pairs_map(t)[name]);
        assert(pairs[i] == t[i]);
    }
}

/// Where no name occurs twice, each pair holds the current value of its name.
pub proof fn lemma_pairs_map_values(pairs: Seq<(Seq<char>, Seq<char>)>)
    requires
        names_distinct(pairs),
    ensures
        forall|i: int|
            0 <= i < pairs.len() ==> pairs_map(pairs).contains_key(#[trigger] pairs[i].0)
                && pairs_map(pairs)[pairs[i].0] == pairs[i].1,
    decreases pairs.len(),
{
    if pairs.len() > 0 {
        let t = pairs.drop_last();
        assert(names_distinct(t));
        lemma_pairs_map_values(t);
        assert forall|i: int| 0 <= i < pairs.len() implies pairs_map(pairs).contains_key(
            #[trigger] pairs[i].0,
        ) && pairs_map(pairs)[pairs[i].0] == pairs[i].1 by {
            if i < pairs.len() - 1 {
                assert(pairs[i] == t[i]);
                assert(pairs[i].0 != pairs.last().0);
            }
        }
    }
}

/// Changing the value of a pair changes the value of its name and nothing
/// else.
pub proof fn lemma_pairs_map_update(s: Seq<(Seq<char>, Seq<char>)>, i: int, v: Seq<char>)
    requires
        names_distinct(s),
        0 <= i < s.len(),
    ensures
        pairs_map(s.update(i, (s[i].0, v))) == pairs_map(s).insert(s[i].0, v),
        names_distinct(s.update(i, (s[i].0, v))),
    decreases s.len(),
{
    let u = s.update(i, (s[i].0, v));
    let k = s[i].0;
    if i == s.len() - 1 {
        assert(u.drop_last() =~= s.drop_last());
        assert(pairs_map(u) =~= pairs_map(s).insert(k, v));
    } else {
        let t = s.drop_last();
        assert(names_distinct(t));
        lemma_pairs_map_update(t, i, v);
        assert(u.drop_last() =~= t.update(i, (t[i].0, v)));
        assert(s.last().0 != k);
        assert(pairs_map(u) =~= pairs_map(s).insert(k, v));
    }
}

/// Sets `name` to `value` among `pairs`, in place where the name is already
/// there, else at the end.
pub fn set_pair(pairs: &mut Vec<(String, String)>, name: String, value: String)
    requires
        names_distinct(old(pairs).deep_view()),
    ensures
        names_distinct(final(pairs).deep_view()),
        pairs_map(final(pairs).deep_view()) == pairs_map(old(pairs).deep_view()).insert(
            name@,
            value@,
        ),
{
    let ghost before = pairs.deep_view();
    let mut i: usize = 0;
    while i < pairs.len()
        invariant
            pairs.deep_view() == before,
            before == old(pairs).deep_view(),
            names_distinct(before),
            i <= before.len(),
            forall|k: int| 0 <= k < i ==> before[k].0 != name@,
        decreases before.len() - i,
    {
        if pairs[i].0 == name {
            proof {
                lemma_pairs_map_update(before, i as int, value@);
            }
            let ghost key = name@;
            let ghost val = value@;
            assert(before[i as int].0 == key);
            pairs.set(i, (name, value));
            assert(pairs.deep_view() =~= before.update(i as int, (before[i as int].0, val)));
            return;
        }
        i += 1;
    }
    let ghost pair = (name@, value@);
    pairs.push((name, value));
    assert(pairs.deep_view() =~= before.push(pair));
    assert(pairs.deep_view().drop_last() =~= before);
    assert(names_distinct(before.push(pair)));
}

} // verus!
