//! String-keyed association lists and their mathematical map view.
//!
//! JSON objects give later duplicate keys precedence, so the map view is
//! built by inserting pairs left to right, and lookup returns the value of
//! the last pair with the key.

use vstd::prelude::*;
use crate::text::str_eq;

verus! {

/// The map a pair sequence denotes: later pairs win.
pub open spec fn pairs_map<V>(s: Seq<(Seq<char>, V)>) -> Map<Seq<char>, V>
    decreases s.len(),
{
    if s.len() == 0 {
        Map::empty()
    } else {
        pairs_map(s.drop_last()).insert(s.last().0, s.last().1)
    }
}

/// The view of an executable pair vector: each key and value viewed.
pub open spec fn pairs_view<E: View>(s: Seq<(String, E)>) -> Seq<(Seq<char>, E::V)> {
    s.map_values(|p: (String, E)| (p.0@, p.1@))
}

pub proof fn lemma_pairs_map_hit<V>(s: Seq<(Seq<char>, V)>, i: int, k: Seq<char>)
    requires
        0 <= i < s.len(),
        s[i].0 == k,
        forall|j: int| i < j < s.len() ==> s[j].0 != k,
    ensures
        pairs_map(s).dom().contains(k),
        pairs_map(s)[k] == s[i].1,
    decreases s.len(),
{
    if i < s.len() - 1 {
        lemma_pairs_map_hit(s.drop_last(), i, k);
    }
}

pub proof fn lemma_pairs_map_miss<V>(s: Seq<(Seq<char>, V)>, k: Seq<char>)
    requires
        forall|j: int| 0 <= j < s.len() ==> s[j].0 != k,
    ensures
        !pairs_map(s).dom().contains(k),
    decreases s.len(),
{
    if s.len() > 0 {
        lemma_pairs_map_miss(s.drop_last(), k);
    }
}

/// The domain of the denoted map is exactly the set of keys in the pairs.
pub proof fn lemma_pairs_map_dom<V>(s: Seq<(Seq<char>, V)>, k: Seq<char>)
    ensures
        pairs_map(s).dom().contains(k) <==> exists|j: int| 0 <= j < s.len() && s[j].0 == k,
    decreases s.len(),
{
    if s.len() > 0 {
        let d = s.drop_last();
        lemma_pairs_map_dom(d, k);
        if s.last().0 == k {
            assert(s[s.len() - 1].0 == k);
        } else {
            if pairs_map(s).dom().contains(k) {
                let j = choose|j: int| 0 <= j < d.len() && d[j].0 == k;
                assert(s[j].0 == k);
            }
            if exists|j: int| 0 <= j < s.len() && s[j].0 == k {
                let j = choose|j: int| 0 <= j < s.len() && s[j].0 == k;
                assert(d[j].0 == k);
            }
        }
    }
}

/// Looks `key` up in `pairs`, later pairs winning, as the map view says.
pub fn pairs_get<'a, E: View>(pairs: &'a Vec<(String, E)>, key: &str) -> (r: Option<&'a E>)
    ensures
        match r {
            Some(e) => pairs_map(pairs_view(pairs@)).dom().contains(key@) && e@ == pairs_map(
                pairs_view(pairs@),
            )[key@],
            None => !pairs_map(pairs_view(pairs@)).dom().contains(key@),
        },
{
    let ghost pv = pairs_view(pairs@);
    let mut i = pairs.len();
    while i > 0
        invariant
            i <= pairs@.len(),
            pv == pairs_view(pairs@),
            forall|j: int| i <= j < pv.len() ==> pv[j].0 != key@,
        decreases i,
    {
        i -= 1;
        let p = &pairs[i];
        if str_eq(p.0.as_str(), key) {
            proof {
                assert(pv[i as int].0 == key@);
                lemma_pairs_map_hit(pv, i as int, key@);
            }
            return Some(&p.1);
        }
    }
    proof {
        lemma_pairs_map_miss(pv, key@);
    }
    None
}

} // verus!
