//! The per-operation parameter mapping: field names and values carried into
//! a single HTTP call, either as query parameters or as a JSON object body.

use vstd::prelude::*;

verus! {

/// The key/value views of a sequence of owned string pairs.
pub open spec fn view_pairs(s: Seq<(String, String)>) -> Seq<(Seq<char>, Seq<char>)> {
    Seq::new(s.len(), |i: int| (s[i].0@, s[i].1@))
}

/// The mapping that a sequence of key/value entries stands for. A later
/// entry with the same key overwrites an earlier one.
pub open spec fn map_of(s: Seq<(Seq<char>, Seq<char>)>) -> Map<Seq<char>, Seq<char>>
    decreases s.len(),
{
    if s.len() == 0 {
        Map::empty()
    } else {
        map_of(s.drop_last()).insert(s.last().0, s.last().1)
    }
}

/// A key stands in the mapping exactly when some entry carries it.
pub proof fn lemma_map_of_contains(s: Seq<(Seq<char>, Seq<char>)>, k: Seq<char>)
    ensures
        map_of(s).contains_key(k) <==> exists|i: int| 0 <= i < s.len() && s[i].0 == k,
    decreases s.len(),
{
    if s.len() > 0 {
        let t = s.drop_last();
        lemma_map_of_contains(t, k);
        if s.last().0 == k {
            assert(s[s.len() - 1].0 == k);
        } else {
            if map_of(s).contains_key(k) {
                let i = choose|i: int| 0 <= i < t.len() && t[i].0 == k;
                assert(s[i].0 == k);
            }
            if exists|i: int| 0 <= i < s.len() && s[i].0 == k {
                let i = choose|i: int| 0 <= i < s.len() && s[i].0 == k;
                assert(i < s.len() - 1);
                assert(t[i].0 == k);
            }
        }
    }
}

/// An order-irrelevant mapping from field name to field value, built once
/// per operation. Entries are kept in insertion order, but the server must
/// treat them as an unordered set; `map_of` gives that reading.
pub struct ParameterMap {
    entries: Vec<(String, String)>,
}

impl View for ParameterMap {
    type V = Seq<(Seq<char>, Seq<char>)>;

    closed spec fn view(&self) -> Seq<(Seq<char>, Seq<char>)> {
        view_pairs(self.entries@)
    }
}

impl ParameterMap {
    /// Some entry carries this key.
    pub open spec fn spec_has_key(self, k: Seq<char>) -> bool {
        exists|i: int| 0 <= i < self@.len() && self@[i].0 == k
    }

    /// Every key occurs at most once among the entries.
    pub open spec fn wf(self) -> bool {
        forall|i: int, j: int| 0 <= i < j < self@.len() ==> self@[i].0 != self@[j].0
    }

    pub fn new() -> (r: Self)
        ensures
            r@ == Seq::<(Seq<char>, Seq<char>)>::empty(),
            r.wf(),
    {
        let r = ParameterMap { entries: Vec::new() };
        proof {
            assert(r@ =~= Seq::<(Seq<char>, Seq<char>)>::empty());
        }
        r
    }

    pub fn insert(&mut self, key: &str, value: &str)
        requires
            !old(self).spec_has_key(key@),
        ensures
            final(self)@ == old(self)@.push((key@, value@)),
            old(self).wf() ==> final(self).wf(),
    {
        self.entries.push((key.to_owned(), value.to_owned()));
        proof {
            assert(self@ =~= old(self)@.push((key@, value@)));
        }
    }

    pub fn len(&self) -> (n: usize)
        ensures
            n == self@.len(),
    {
        self.entries.len()
    }

    pub fn is_empty(&self) -> (b: bool)
        ensures
            b == (self@.len() == 0),
    {
        self.entries.len() == 0
    }

    pub fn key_at(&self, i: usize) -> (k: &String)
        requires
            i < self@.len(),
        ensures
            k@ == self@[i as int].0,
    {
        &self.entries[i].0
    }

    pub fn value_at(&self, i: usize) -> (v: &String)
        requires
            i < self@.len(),
        ensures
            v@ == self@[i as int].1,
    {
        &self.entries[i].1
    }

    /// The backing entries, for handing to an encoder.
    pub(crate) fn entries(&self) -> (r: &Vec<(String, String)>)
        ensures
            view_pairs(r@) == self@,
    {
        &self.entries
    }
}

} // verus!
