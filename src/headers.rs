//! Header names are compared after lowercasing: every map here is keyed by
//! the lowercased name, and a later entry replaces an earlier one.
use vstd::prelude::*;
use vstd::string::*;

use crate::outside::{lower_of, to_lower};

verus! {

/// A text made only of ASCII characters other than capitals, which
/// lowercasing leaves as it is.
pub open spec fn plain_lower(s: Seq<char>) -> bool {
    forall|i: int| 0 <= i < s.len() ==> (#[trigger] s[i] as u32) < 128 && !('A' <= s[i] && s[i] <= 'Z')
}

/// The lowercased form of a header name or method: a text that is already
/// lowercase ASCII is kept, any other is lowercased by `str::to_lowercase`.
pub open spec fn lower_name(s: Seq<char>) -> Seq<char> {
    if plain_lower(s) {
        s
    } else {
        lower_of(s)
    }
}

/// Lowercase a header name or a method (see `lower_name`).
pub fn lowercase_name(s: &str) -> (r: String)
    ensures
        r@ == lower_name(s@),
{
    let n = s.unicode_len();
    let mut i: usize = 0;
    while i < n
        invariant
            n == s@.len(),
            0 <= i <= n,
            forall|j: int| 0 <= j < i ==> (#[trigger] s@[j] as u32) < 128 && !('A' <= s@[j] && s@[j] <= 'Z'),
        decreases n - i,
    {
        let c = s.get_char(i);
        if (c as u32) >= 128 || ('A' <= c && c <= 'Z') {
            return to_lower(s);
        }
        i = i + 1;
    }
    s.to_owned()
}

/// The map that a list of header pairs denotes: names lowercased, the last
/// pair for a name wins.
pub open spec fn lowered_map(hs: Seq<(String, String)>) -> Map<Seq<char>, Seq<char>>
    decreases hs.len(),
{
    if hs.len() == 0 {
        Map::empty()
    } else {
        lowered_map(hs.drop_last()).insert(lower_name(hs.last().0@), hs.last().1@)
    }
}

/// The map that a list of header pairs denotes with names taken as they are.
pub open spec fn pairs_map(hs: Seq<(String, String)>) -> Map<Seq<char>, Seq<char>>
    decreases hs.len(),
{
    if hs.len() == 0 {
        Map::empty()
    } else {
        pairs_map(hs.drop_last()).insert(hs.last().0@, hs.last().1@)
    }
}

/// A list of header pairs whose names are pairwise distinct.
pub open spec fn normalized(hs: Seq<(String, String)>) -> bool {
    forall|i: int, j: int| 0 <= i < j < hs.len() ==> #[trigger] hs[i].0@ != #[trigger] hs[j].0@
}

proof fn lemma_lookup_normalized(hs: Seq<(String, String)>, j: int)
    requires
        normalized(hs),
        0 <= j < hs.len(),
    ensures
        pairs_map(hs).contains_key(hs[j].0@),
        pairs_map(hs)[hs[j].0@] == hs[j].1@,
    decreases hs.len(),
{
    let n = hs.len() - 1;
    if j < n {
        lemma_lookup_normalized(hs.drop_last(), j);
        assert(hs[j].0@ != hs[n].0@);
    }
}

proof fn lemma_absent_normalized(hs: Seq<(String, String)>, k: Seq<char>)
    requires
        normalized(hs),
        forall|i: int| 0 <= i < hs.len() ==> #[trigger] hs[i].0@ != k,
    ensures
        !pairs_map(hs).contains_key(k),
    decreases hs.len(),
{
    if hs.len() > 0 {
        lemma_absent_normalized(hs.drop_last(), k);
        assert(hs[hs.len() - 1].0@ != k);
    }
}

proof fn lemma_update_normalized(hs: Seq<(String, String)>, j: int, e: (String, String))
    requires
        normalized(hs),
        0 <= j < hs.len(),
        e.0@ == hs[j].0@,
    ensures
        normalized(hs.update(j, e)),
        pairs_map(hs.update(j, e)) == pairs_map(hs).insert(e.0@, e.1@),
    decreases hs.len(),
{
    let n = hs.len() - 1;
    let u = hs.update(j, e);
    assert(forall|i: int| 0 <= i < u.len() ==> #[trigger] u[i].0@ == hs[i].0@);
    if j == n {
        assert(u.drop_last() =~= hs.drop_last());
        assert(pairs_map(u) =~= pairs_map(hs).insert(e.0@, e.1@));
    } else {
        assert(u.drop_last() =~= hs.drop_last().update(j, e));
        lemma_update_normalized(hs.drop_last(), j, e);
        assert(hs[j].0@ != hs[n].0@);
        assert(pairs_map(u) =~= pairs_map(hs).insert(e.0@, e.1@));
    }
}

proof fn lemma_push_normalized(hs: Seq<(String, String)>, e: (String, String))
    requires
        normalized(hs),
        forall|i: int| 0 <= i < hs.len() ==> #[trigger] hs[i].0@ != e.0@,
    ensures
        normalized(hs.push(e)),
        pairs_map(hs.push(e)) == pairs_map(hs).insert(e.0@, e.1@),
{
    assert(hs.push(e).drop_last() =~= hs);
}

/// A header map keyed by lowercased names. Each name occurs once, so the
/// entries can be sent as they are.
pub struct HeaderMap {
    entries: Vec<(String, String)>,
}

impl View for HeaderMap {
    type V = Map<Seq<char>, Seq<char>>;

    closed spec fn view(&self) -> Map<Seq<char>, Seq<char>> {
        pairs_map(self.entries@)
    }
}

impl HeaderMap {
    #[verifier::type_invariant]
    spec fn inv(&self) -> bool {
        normalized(self.entries@)
    }

    /// An empty map.
    pub fn new() -> (r: HeaderMap)
        ensures
            r@ == Map::<Seq<char>, Seq<char>>::empty(),
    {
        HeaderMap { entries: Vec::new() }
    }

    /// Set the value of a header; the name is lowercased first, and an earlier
    /// value under the same lowercased name is replaced.
    pub fn insert(&mut self, name: &str, value: String)
        ensures
            final(self)@ == old(self)@.insert(lower_name(name@), value@),
    {
        proof {
            use_type_invariant(&*self);
        }
        let key = lowercase_name(name);
        let mut entries: Vec<(String, String)> = Vec::new();
        std::mem::swap(&mut entries, &mut self.entries);
        let ghost before = entries@;
        let mut i: usize = 0;
        while i < entries.len()
            invariant
                entries@ == before,
                before == old(self).entries@,
                normalized(before),
                key@ == lower_name(name@),
                0 <= i <= entries@.len(),
                forall|j: int| 0 <= j < i ==> #[trigger] entries@[j].0@ != key@,
            decreases entries@.len() - i,
        {
            if entries[i].0 == key {
                let e = (key, value);
                proof {
                    lemma_update_normalized(before, i as int, e);
                }
                entries[i] = e;
                self.entries = entries;
                return;
            }
            i = i + 1;
        }
        let e = (key, value);
        proof {
            lemma_push_normalized(before, e);
        }
        entries.push(e);
        self.entries = entries;
    }

    /// The value of a header, looked up by its lowercased name.
    pub fn get(&self, name: &str) -> (r: Option<&String>)
        ensures
            r is Some <==> self@.contains_key(lower_name(name@)),
            r matches Some(v) ==> v@ == self@[lower_name(name@)],
    {
        proof {
            use_type_invariant(self);
        }
        let key = lowercase_name(name);
        let mut i: usize = 0;
        while i < self.entries.len()
            invariant
                normalized(self.entries@),
                key@ == lower_name(name@),
                0 <= i <= self.entries@.len(),
                forall|j: int| 0 <= j < i ==> #[trigger] self.entries@[j].0@ != key@,
            decreases self.entries@.len() - i,
        {
            if self.entries[i].0 == key {
                proof {
                    lemma_lookup_normalized(self.entries@, i as int);
                }
                return Some(&self.entries[i].1);
            }
            i = i + 1;
        }
        proof {
            lemma_absent_normalized(self.entries@, key@);
        }
        None
    }

    /// The entries, each name lowercased and present once, in the order in
    /// which the names were first set.
    pub fn into_entries(self) -> (r: Vec<(String, String)>)
        ensures
            normalized(r@),
            pairs_map(r@) == self@,
    {
        proof {
            use_type_invariant(&self);
        }
        let m = self;
        m.entries
    }
}

/// Build a header map from header pairs, lowercasing every name; where two
/// names agree once lowercased, the later pair wins.
pub fn lc_object_key(src: &Vec<(String, String)>) -> (r: HeaderMap)
    ensures
        r@ == lowered_map(src@),
{
    let mut m = HeaderMap::new();
    let mut i: usize = 0;
    while i < src.len()
        invariant
            0 <= i <= src@.len(),
            m@ == lowered_map(src@.take(i as int)),
        decreases src@.len() - i,
    {
        assert(src@.take(i + 1).drop_last() =~= src@.take(i as int));
        m.insert(src[i].0.as_str(), src[i].1.clone());
        i = i + 1;
    }
    assert(src@.take(src@.len() as int) =~= src@);
    m
}

/// Merge header pairs over a header map: each name is lowercased, and on a
/// name that both hold the added value wins.
pub fn object_assign_with_lc_key(base: HeaderMap, additional: Vec<(String, String)>) -> (r:
    HeaderMap)
    ensures
        r@ == base@.union_prefer_right(lowered_map(additional@)),
{
    let mut m = base;
    let mut i: usize = 0;
    while i < additional.len()
        invariant
            0 <= i <= additional@.len(),
            m@ == base@.union_prefer_right(lowered_map(additional@.take(i as int))),
        decreases additional@.len() - i,
    {
        assert(additional@.take(i + 1).drop_last() =~= additional@.take(i as int));
        m.insert(additional[i].0.as_str(), additional[i].1.clone());
        assert(m@ =~= base@.union_prefer_right(lowered_map(additional@.take(i + 1))));
        i = i + 1;
    }
    assert(additional@.take(additional@.len() as int) =~= additional@);
    m
}

} // verus!
