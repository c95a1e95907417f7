use vstd::prelude::*;

verus! {

/// The value that a list of `(key, value)` pairs holds for `key`: the last
/// pair with that key wins, as when the list is collected into a map.
pub open spec fn lookup(s: Seq<(String, String)>, key: Seq<char>) -> Option<Seq<char>>
    decreases s.len(),
{
    if s.len() == 0 {
        None
    } else if s.last().0@ == key {
        Some(s.last().1@)
    } else {
        lookup(s.drop_last(), key)
    }
}

/// The view of a list of pairs as text.
pub open spec fn pairs_view(s: Seq<(String, String)>) -> Seq<(Seq<char>, Seq<char>)> {
    s.map_values(|p: (String, String)| (p.0@, p.1@))
}

/// Finds the value that `pairs` holds for `key` (the last one, if repeated).
pub fn find_value(pairs: &Vec<(String, String)>, key: &str) -> (r: Option<String>)
    ensures
        r matches Some(v) ==> lookup(pairs@, key@) == Some(v@),
        r is None ==> lookup(pairs@, key@) is None,
{
    let k = String::from_str(key);
    let mut i: usize = pairs.len();
    assert(pairs@.subrange(0, i as int) =~= pairs@);
    while i > 0
        invariant
            i <= pairs.len(),
            k@ == key@,
            lookup(pairs@, key@) == lookup(pairs@.subrange(0, i as int), key@),
        decreases i,
    {
        assert(pairs@.subrange(0, i as int).drop_last() =~= pairs@.subrange(0, i - 1));
        if pairs[i - 1].0 == k {
            return Some(pairs[i - 1].1.clone());
        }
        i = i - 1;
    }
    None
}

} // verus!
