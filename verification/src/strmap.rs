use vstd::prelude::*;

use crate::chars::chars_eq_str;

verus! {

/// A value that can be copied field for field, the copy provably equal to
/// the original.
pub trait DeepClone: Sized {
    fn deep_clone(&self) -> (r: Self)
        ensures
            r == *self,
    ;
}

impl DeepClone for String {
    fn deep_clone(&self) -> (r: Self) {
        self.clone()
    }
}

impl<T: DeepClone> DeepClone for Option<T> {
    fn deep_clone(&self) -> (r: Self) {
        match self {
            Option::Some(v) => Option::Some(v.deep_clone()),
            Option::None => Option::None,
        }
    }
}

/// The mapping denoted by a sequence of insertions: a later entry for a
/// key shadows an earlier one.
pub open spec fn assoc_map<V>(s: Seq<(String, V)>) -> Map<Seq<char>, V>
    decreases s.len(),
{
    if s.len() == 0 {
        Map::empty()
    } else {
        assoc_map(s.drop_last()).insert(s.last().0@, s.last().1)
    }
}

/// A string-keyed mapping, stored as the sequence of its insertions.
/// Its view is the [`Map`] those insertions denote.
#[derive(Debug, PartialEq)]
pub struct StrMap<V> {
    entries: Vec<(String, V)>,
}

impl<V> View for StrMap<V> {
    type V = Map<Seq<char>, V>;

    open spec fn view(&self) -> Map<Seq<char>, V> {
        assoc_map(self.entry_seq())
    }
}

impl<V> StrMap<V> {
    /// The insertions this map was built from, oldest first.
    pub closed spec fn entry_seq(&self) -> Seq<(String, V)> {
        self.entries@
    }

    /// The empty mapping.
    pub fn new() -> (r: Self)
        ensures
            r@ == Map::<Seq<char>, V>::empty(),
            r.entry_seq() == Seq::<(String, V)>::empty(),
    {
        let r = StrMap { entries: Vec::new() };
        proof {
            assert(r.entry_seq() =~= Seq::<(String, V)>::empty());
        }
        r
    }

    /// Bind `key` to `value`, shadowing any earlier binding.
    pub fn insert(&mut self, key: String, value: V)
        ensures
            final(self)@ == old(self)@.insert(key@, value),
            final(self).entry_seq() == old(self).entry_seq().push((key, value)),
    {
        self.entries.push((key, value));
        proof {
            assert(self.entries@.drop_last() =~= old(self).entries@);
        }
    }

    /// The number of insertions made (not the number of distinct keys).
    pub fn entry_count(&self) -> (r: usize)
        ensures
            r == self.entry_seq().len(),
    {
        self.entries.len()
    }

    /// Whether nothing was ever inserted; then the map denotes nothing.
    pub fn is_empty(&self) -> (r: bool)
        ensures
            r == (self.entry_seq().len() == 0),
            r ==> self@ == Map::<Seq<char>, V>::empty(),
    {
        self.entries.len() == 0
    }

    /// The stored entries, moved out of the map.
    pub fn into_entries(self) -> (r: Vec<(String, V)>)
        ensures
            r@ == self.entry_seq(),
    {
        self.entries
    }

    /// The stored entries, for a caller that walks the whole map.
    pub fn entries(&self) -> (r: &Vec<(String, V)>)
        ensures
            r@ == self.entry_seq(),
    {
        &self.entries
    }

    /// Look up `key`, borrowing the bound value.
    pub fn get_ref(&self, key: &str) -> (r: Option<&V>)
        ensures
            r matches Some(v) ==> self@.contains_key(key@) && *v == self@[key@],
            r is None ==> !self@.contains_key(key@),
    {
        let kc = crate::chars::chars_of(key);
        self.get_ref_chars(&kc)
    }

    /// Look up a key given as its characters, borrowing the bound value.
    pub fn get_ref_chars(&self, key: &Vec<char>) -> (r: Option<&V>)
        ensures
            r matches Some(v) ==> self@.contains_key(key@) && *v == self@[key@],
            r is None ==> !self@.contains_key(key@),
    {
        let ghost s = self.entry_seq();
        let n = self.entries.len();
        let mut i: usize = n;
        proof {
            assert(s.take(n as int) =~= s);
        }
        while i > 0
            invariant
                0 <= i <= n,
                n == s.len(),
                s == self.entry_seq(),
                assoc_map(s).contains_key(key@) == assoc_map(s.take(i as int)).contains_key(key@),
                assoc_map(s).contains_key(key@) ==> assoc_map(s.take(i as int))[key@] == assoc_map(
                    s,
                )[key@],
            decreases i,
        {
            proof {
                assert(s.take(i as int).drop_last() =~= s.take(i - 1));
                assert(s.take(i as int).last() == s[i - 1]);
            }
            let e = &self.entries[i - 1];
            if chars_eq_str(key, e.0.as_str()) {
                return Some(&e.1);
            }
            i = i - 1;
        }
        proof {
            assert(s.take(0) =~= Seq::<(String, V)>::empty());
        }
        None
    }
}

impl<V: DeepClone> StrMap<V> {
    /// Look up `key`, copying the bound value out.
    pub fn get(&self, key: &str) -> (r: Option<V>)
        ensures
            r matches Some(v) ==> self@.contains_key(key@) && v == self@[key@],
            r is None ==> !self@.contains_key(key@),
    {
        match self.get_ref(key) {
            Some(v) => Some(v.deep_clone()),
            None => None,
        }
    }

    /// A copy of the whole map, denoting the same mapping.
    pub fn dup(&self) -> (r: Self)
        ensures
            r@ == self@,
            r.entry_seq() == self.entry_seq(),
    {
        let ghost s = self.entry_seq();
        let n = self.entries.len();
        let mut out: Vec<(String, V)> = Vec::new();
        let mut i: usize = 0;
        while i < n
            invariant
                0 <= i <= n,
                n == s.len(),
                s == self.entry_seq(),
                out@.len() == i,
                forall|j: int| 0 <= j < i ==> out@[j] == s[j],
            decreases n - i,
        {
            let e = &self.entries[i];
            out.push((e.0.deep_clone(), e.1.deep_clone()));
            i = i + 1;
        }
        let r = StrMap { entries: out };
        proof {
            assert(r.entry_seq() =~= s);
        }
        r
    }
}

} // verus!
