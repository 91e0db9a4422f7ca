//! An ordered set of names.
//!
//! The names are kept in a vector in strictly increasing order, so that a set
//! is walked in the order of its names and holds no name twice.

use crate::text::{
    increasing, lemma_str_less_irreflexive, lemma_str_less_total, lemma_str_less_transitive, str_eq,
    str_less, str_lt,
};
use vstd::prelude::*;

verus! {

/// The strings that a sequence of `String` values stands for.
pub open spec fn texts(v: Seq<String>) -> Seq<Seq<char>> {
    v.map_values(|s: String| s@)
}

/// Putting `x` at `i` into an increasing sequence, between a smaller and a
/// greater neighbour, keeps the sequence increasing and adds `x` to its set.
pub proof fn lemma_insert_increasing(s: Seq<Seq<char>>, i: int, x: Seq<char>)
    requires
        increasing(s),
        0 <= i <= s.len(),
        forall|j: int| 0 <= j < i ==> str_less(s[j], x),
        i < s.len() ==> str_less(x, s[i]),
    ensures
        increasing(s.insert(i, x)),
        s.insert(i, x).to_set() == s.to_set().insert(x),
{
    let t = s.insert(i, x);
    assert forall|p: int, q: int| 0 <= p < q < t.len() implies str_less(t[p], t[q]) by {
        if q == i {
            assert(t[p] == s[p]);
        } else if p == i {
            assert(t[q] == s[q - 1]);
            if q - 1 > i {
                lemma_str_less_transitive(x, s[i], s[q - 1]);
            }
        } else if p < i && q > i {
            assert(t[p] == s[p]);
            assert(t[q] == s[q - 1]);
        } else if p < i {
            assert(t[p] == s[p]);
            assert(t[q] == s[q]);
        } else {
            assert(t[p] == s[p - 1]);
            assert(t[q] == s[q - 1]);
        }
    }
    assert forall|y: Seq<char>| t.to_set().contains(y) <==> s.to_set().insert(x).contains(y) by {
        if t.to_set().contains(y) {
            let k = choose|k: int| 0 <= k < t.len() && t[k] == y;
            if k < i {
                assert(s[k] == y);
            } else if k > i {
                assert(s[k - 1] == y);
            }
        }
        if s.to_set().insert(x).contains(y) {
            if y == x {
                assert(t[i] == y);
            } else {
                let k = choose|k: int| 0 <= k < s.len() && s[k] == y;
                if k < i {
                    assert(t[k] == y);
                } else {
                    assert(t[k + 1] == y);
                }
            }
        }
    }
    assert(t.to_set() =~= s.to_set().insert(x));
}

/// In an increasing sequence, a name that lies strictly between the
/// neighbours at `i - 1` and `i` does not occur.
pub proof fn lemma_absent_between(s: Seq<Seq<char>>, i: int, x: Seq<char>)
    requires
        increasing(s),
        0 <= i <= s.len(),
        forall|j: int| 0 <= j < i ==> str_less(s[j], x),
        i < s.len() ==> str_less(x, s[i]),
    ensures
        !s.to_set().contains(x),
{
    if s.to_set().contains(x) {
        let k = choose|k: int| 0 <= k < s.len() && s[k] == x;
        if k < i {
            lemma_str_less_irreflexive(x);
        } else {
            if k > i {
                lemma_str_less_transitive(x, s[i], s[k]);
            }
            lemma_str_less_irreflexive(x);
        }
    }
}

/// A set of names, walked in increasing order.
#[derive(Debug, PartialEq)]
pub struct StringSet {
    items: Vec<String>,
}

impl View for StringSet {
    type V = Set<Seq<char>>;

    open spec fn view(&self) -> Set<Seq<char>> {
        self.elements().to_set()
    }
}

impl Clone for StringSet {
    fn clone(&self) -> (r: Self)
        ensures
            r.elements() == self.elements(),
    {
        proof {
            use_type_invariant(self);
        }
        let mut items: Vec<String> = Vec::new();
        let mut i: usize = 0;
        while i < self.items.len()
            invariant
                i <= self.items.len(),
                texts(items@) == texts(self.items@).take(i as int),
            decreases self.items.len() - i,
        {
            let ghost before = items@;
            let name = self.items[i].clone();
            items.push(name);
            i += 1;
            assert(texts(items@) =~= texts(before).push(name@));
            assert(texts(items@) =~= texts(self.items@).take(i as int));
        }
        assert(texts(items@) =~= texts(self.items@));
        StringSet { items }
    }
}

impl StringSet {
    #[verifier::type_invariant]
    spec fn ordered(self) -> bool {
        increasing(texts(self.items@))
    }

    /// The names of the set, in increasing order.
    pub closed spec fn elements(&self) -> Seq<Seq<char>> {
        texts(self.items@)
    }

    /// The empty set.
    pub fn new() -> (s: Self)
        ensures
            s.elements() == Seq::<Seq<char>>::empty(),
            s@ == Set::<Seq<char>>::empty(),
    {
        let s = StringSet { items: Vec::new() };
        assert(s.elements() =~= Seq::<Seq<char>>::empty());
        assert(s@ =~= Set::<Seq<char>>::empty());
        s
    }

    /// The number of names.
    pub fn len(&self) -> (n: usize)
        ensures
            n == self.elements().len(),
            n == self@.len(),
    {
        proof {
            use_type_invariant(self);
            self.lemma_elements();
            self.elements().unique_seq_to_set();
        }
        self.items.len()
    }

    /// Whether the set holds no name.
    pub fn is_empty(&self) -> (r: bool)
        ensures
            r == (self.elements().len() == 0),
            r == (self@ == Set::<Seq<char>>::empty()),
    {
        proof {
            if self.elements().len() == 0 {
                assert(self@ =~= Set::<Seq<char>>::empty());
            } else {
                assert(self@.contains(self.elements()[0]));
            }
        }
        self.items.len() == 0
    }

    /// The names in increasing order.
    pub fn names(&self) -> (r: &Vec<String>)
        ensures
            texts(r@) == self.elements(),
            increasing(self.elements()),
            self.elements().no_duplicates(),
    {
        proof {
            use_type_invariant(self);
            self.lemma_elements();
        }
        &self.items
    }

    /// What the order of the names gives: no name occurs twice.
    proof fn lemma_elements(&self)
        requires
            increasing(self.elements()),
        ensures
            self.elements().no_duplicates(),
    {
        let s = self.elements();
        assert forall|i: int, j: int| 0 <= i < s.len() && 0 <= j < s.len() && i != j implies s[i]
            != s[j] by {
            if i < j {
                lemma_str_less_irreflexive(s[i]);
            } else {
                lemma_str_less_irreflexive(s[j]);
            }
        }
    }

    /// The first position whose name is not below `name`.
    fn position(&self, name: &str) -> (i: usize)
        ensures
            i <= self.elements().len(),
            forall|j: int| 0 <= j < i ==> str_less(#[trigger] self.elements()[j], name@),
            i < self.elements().len() ==> !str_less(self.elements()[i as int], name@),
    {
        let mut i: usize = 0;
        while i < self.items.len()
            invariant
                i <= self.items.len(),
                forall|j: int| 0 <= j < i ==> str_less(#[trigger] texts(self.items@)[j], name@),
            decreases self.items.len() - i,
        {
            if !str_lt(self.items[i].as_str(), name) {
                return i;
            }
            i += 1;
        }
        i
    }

    /// Whether `name` is in the set.
    pub fn contains(&self, name: &str) -> (r: bool)
        ensures
            r == self@.contains(name@),
    {
        proof {
            use_type_invariant(self);
        }
        let i = self.position(name);
        if i < self.items.len() && str_eq(self.items[i].as_str(), name) {
            assert(self.elements()[i as int] == name@);
            true
        } else {
            proof {
                if i < self.elements().len() {
                    lemma_str_less_total(name@, self.elements()[i as int]);
                }
                lemma_absent_between(self.elements(), i as int, name@);
            }
            false
        }
    }

    /// Adds `name`; returns whether it was new.
    pub fn insert(&mut self, name: String) -> (added: bool)
        ensures
            final(self)@ == old(self)@.insert(name@),
            added == !old(self)@.contains(name@),
            !added ==> final(self).elements() == old(self).elements(),
    {
        proof {
            use_type_invariant(&*self);
        }
        let i = self.position(name.as_str());
        if i < self.items.len() && str_eq(self.items[i].as_str(), name.as_str()) {
            assert(self.elements()[i as int] == name@);
            assert(self@ =~= self@.insert(name@));
            false
        } else {
            proof {
                if i < self.elements().len() {
                    lemma_str_less_total(name@, self.elements()[i as int]);
                }
                lemma_absent_between(self.elements(), i as int, name@);
                lemma_insert_increasing(self.elements(), i as int, name@);
            }
            let ghost before = self.items@;
            let mut items: Vec<String> = Vec::new();
            std::mem::swap(&mut items, &mut self.items);
            items.insert(i, name);
            assert(texts(items@) =~= texts(before).insert(i as int, name@));
            self.items = items;
            true
        }
    }

    /// Adds every name of `other`.
    pub fn extend(&mut self, other: &StringSet)
        ensures
            final(self)@ == old(self)@.union(other@),
    {
        let names = other.names();
        let mut i: usize = 0;
        while i < names.len()
            invariant
                i <= names.len(),
                texts(names@) == other.elements(),
                self@ == old(self)@.union(other.elements().take(i as int).to_set()),
            decreases names.len() - i,
        {
            let ghost done = other.elements().take(i as int);
            self.insert(names[i].clone());
            i += 1;
            proof {
                let next = other.elements().take(i as int);
                assert(next =~= done.push(other.elements()[i - 1]));
                assert(next.to_set() =~= done.to_set().insert(other.elements()[i - 1])) by {
                    assert forall|y: Seq<char>| next.to_set().contains(y) <==> done.to_set().insert(
                        other.elements()[i - 1],
                    ).contains(y) by {
                        if next.to_set().contains(y) {
                            let k = choose|k: int| 0 <= k < next.len() && next[k] == y;
                            if k < done.len() {
                                assert(done[k] == y);
                            }
                        }
                        if done.to_set().contains(y) {
                            let k = choose|k: int| 0 <= k < done.len() && done[k] == y;
                            assert(next[k] == y);
                        }
                        if y == other.elements()[i - 1] {
                            assert(next[i - 1] == y);
                        }
                    }
                }
                assert(self@ =~= old(self)@.union(next.to_set()));
            }
        }
        assert(other.elements().take(i as int) =~= other.elements());
        assert(old(self)@.union(Seq::<Seq<char>>::empty().to_set()) =~= old(self)@);
    }
}

} // verus!
