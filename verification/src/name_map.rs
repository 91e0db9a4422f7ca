//! An ordered map from names to values.
//!
//! The entries are kept in a vector in strictly increasing order of their
//! names, so that a map is walked in the order of its names and holds one
//! value for a name.

use crate::string_set::StringSet;
use crate::text::{
    increasing, lemma_str_less_irreflexive, lemma_str_less_total, lemma_str_less_transitive, str_eq,
    str_less, str_lt,
};
use vstd::prelude::*;

verus! {

/// The names of a sequence of entries.
pub open spec fn entry_names<V>(s: Seq<(Seq<char>, V)>) -> Seq<Seq<char>> {
    s.map_values(|e: (Seq<char>, V)| e.0)
}

/// The entries that a sequence of named values stands for.
pub open spec fn entries_of<V>(v: Seq<(String, V)>) -> Seq<(Seq<char>, V)> {
    v.map_values(|e: (String, V)| (e.0@, e.1))
}

/// Whether some entry of `s` has the name `k`.
pub open spec fn has_name<V>(s: Seq<(Seq<char>, V)>, k: Seq<char>) -> bool {
    exists|i: int| 0 <= i < s.len() && (#[trigger] s[i]).0 == k
}

/// A position at which `s` has the name `k`, where there is one.
pub open spec fn position_of<V>(s: Seq<(Seq<char>, V)>, k: Seq<char>) -> int {
    choose|i: int| 0 <= i < s.len() && (#[trigger] s[i]).0 == k
}

/// The map that a sequence of entries stands for.
pub open spec fn entries_map<V>(s: Seq<(Seq<char>, V)>) -> Map<Seq<char>, V> {
    Map::new(|k: Seq<char>| has_name(s, k), |k: Seq<char>| s[position_of(s, k)].1)
}

/// With increasing names, the entry at `i` is what the map holds for its name.
pub proof fn lemma_entry_at<V>(s: Seq<(Seq<char>, V)>, i: int)
    requires
        increasing(entry_names(s)),
        0 <= i < s.len(),
    ensures
        entries_map(s).contains_key(s[i].0),
        entries_map(s)[s[i].0] == s[i].1,
{
    let k = s[i].0;
    assert(has_name(s, k));
    let j = position_of(s, k);
    if j != i {
        assert(entry_names(s)[i] == k);
        assert(entry_names(s)[j] == k);
        lemma_str_less_irreflexive(k);
    }
}

/// A name that lies strictly between the neighbours at `i - 1` and `i` has no
/// entry.
pub proof fn lemma_no_entry_between<V>(s: Seq<(Seq<char>, V)>, i: int, k: Seq<char>)
    requires
        increasing(entry_names(s)),
        0 <= i <= s.len(),
        forall|j: int| 0 <= j < i ==> str_less(#[trigger] s[j].0, k),
        i < s.len() ==> str_less(k, s[i].0),
    ensures
        !has_name(s, k),
{
    if has_name(s, k) {
        let j = position_of(s, k);
        if j > i {
            assert(entry_names(s)[i] == s[i].0);
            assert(entry_names(s)[j] == s[j].0);
            lemma_str_less_transitive(k, s[i].0, s[j].0);
        }
        lemma_str_less_irreflexive(k);
    }
}

/// Putting a new name at its place keeps the names increasing and adds the
/// entry to the map.
pub proof fn lemma_insert_entry<V>(s: Seq<(Seq<char>, V)>, i: int, k: Seq<char>, v: V)
    requires
        increasing(entry_names(s)),
        0 <= i <= s.len(),
        forall|j: int| 0 <= j < i ==> str_less(#[trigger] s[j].0, k),
        i < s.len() ==> str_less(k, s[i].0),
    ensures
        increasing(entry_names(s.insert(i, (k, v)))),
        entries_map(s.insert(i, (k, v))) == entries_map(s).insert(k, v),
{
    let t = s.insert(i, (k, v));
    let n = entry_names(s);
    let m = entry_names(t);
    assert forall|p: int, q: int| 0 <= p < q < m.len() implies str_less(m[p], m[q]) by {
        if q == i {
            assert(t[p] == s[p]);
        } else if p == i {
            assert(t[q] == s[q - 1]);
            if q - 1 > i {
                assert(n[i] == s[i].0 && n[q - 1] == s[q - 1].0);
                lemma_str_less_transitive(k, s[i].0, s[q - 1].0);
            }
        } else if p < i && q > i {
            assert(t[p] == s[p] && t[q] == s[q - 1]);
            assert(n[p] == s[p].0 && n[q - 1] == s[q - 1].0);
        } else if p < i {
            assert(t[p] == s[p] && t[q] == s[q]);
            assert(n[p] == s[p].0 && n[q] == s[q].0);
        } else {
            assert(t[p] == s[p - 1] && t[q] == s[q - 1]);
            assert(n[p - 1] == s[p - 1].0 && n[q - 1] == s[q - 1].0);
        }
    }
    lemma_no_entry_between(s, i, k);
    let a = entries_map(t);
    let b = entries_map(s).insert(k, v);
    assert forall|y: Seq<char>| a.contains_key(y) <==> b.contains_key(y) by {
        if has_name(t, y) {
            let j = position_of(t, y);
            if j < i {
                assert(s[j].0 == y);
            } else if j > i {
                assert(s[j - 1].0 == y);
            }
        }
        if y == k {
            assert(t[i].0 == y);
        } else if has_name(s, y) {
            let j = position_of(s, y);
            if j < i {
                assert(t[j].0 == y);
            } else {
                assert(t[j + 1].0 == y);
            }
        }
    }
    assert forall|y: Seq<char>| a.contains_key(y) implies a[y] == b[y] by {
        let j = position_of(t, y);
        lemma_entry_at(t, j);
        if j < i {
            assert(t[j] == s[j]);
            lemma_entry_at(s, j);
        } else if j > i {
            assert(t[j] == s[j - 1]);
            lemma_entry_at(s, j - 1);
        }
    }
    assert(a =~= b);
}

/// Replacing the value at `i` keeps the names and sets the map's value.
pub proof fn lemma_update_entry<V>(s: Seq<(Seq<char>, V)>, i: int, v: V)
    requires
        increasing(entry_names(s)),
        0 <= i < s.len(),
    ensures
        entry_names(s.update(i, (s[i].0, v))) == entry_names(s),
        entries_map(s.update(i, (s[i].0, v))) == entries_map(s).insert(s[i].0, v),
{
    let k = s[i].0;
    let t = s.update(i, (k, v));
    assert(entry_names(t) =~= entry_names(s));
    let a = entries_map(t);
    let b = entries_map(s).insert(k, v);
    assert forall|y: Seq<char>| a.contains_key(y) <==> b.contains_key(y) by {
        if has_name(t, y) {
            let j = position_of(t, y);
            assert(s[j].0 == y);
        }
        if y == k {
            assert(t[i].0 == y);
        } else if has_name(s, y) {
            let j = position_of(s, y);
            assert(t[j].0 == y);
        }
    }
    assert forall|y: Seq<char>| a.contains_key(y) implies a[y] == b[y] by {
        let j = position_of(t, y);
        lemma_entry_at(t, j);
        if j != i {
            assert(t[j] == s[j]);
            lemma_entry_at(s, j);
            if y == k {
                assert(entry_names(s)[i] == k && entry_names(s)[j] == k);
                lemma_str_less_irreflexive(k);
            }
        }
    }
    assert(a =~= b);
}

/// Taking the entry at `i` out keeps the names increasing and removes its
/// name from the map.
pub proof fn lemma_remove_entry<V>(s: Seq<(Seq<char>, V)>, i: int)
    requires
        increasing(entry_names(s)),
        0 <= i < s.len(),
    ensures
        increasing(entry_names(s.remove(i))),
        entries_map(s.remove(i)) == entries_map(s).remove(s[i].0),
{
    let k = s[i].0;
    let t = s.remove(i);
    let n = entry_names(s);
    let m = entry_names(t);
    assert forall|p: int, q: int| 0 <= p < q < m.len() implies str_less(m[p], m[q]) by {
        let p0 = if p < i { p } else { p + 1 };
        let q0 = if q < i { q } else { q + 1 };
        assert(t[p] == s[p0] && t[q] == s[q0]);
        assert(n[p0] == s[p0].0 && n[q0] == s[q0].0);
    }
    let a = entries_map(t);
    let b = entries_map(s).remove(k);
    assert forall|y: Seq<char>| a.contains_key(y) <==> b.contains_key(y) by {
        if has_name(t, y) {
            let j = position_of(t, y);
            let j0 = if j < i { j } else { j + 1 };
            assert(s[j0].0 == y);
            if y == k {
                assert(n[i] == k && n[j0] == k);
                lemma_str_less_irreflexive(k);
            }
        }
        if y != k && has_name(s, y) {
            let j = position_of(s, y);
            if j < i {
                assert(t[j].0 == y);
            } else {
                assert(t[j - 1].0 == y);
            }
        }
    }
    assert forall|y: Seq<char>| a.contains_key(y) implies a[y] == b[y] by {
        let j = position_of(t, y);
        lemma_entry_at(t, j);
        let j0 = if j < i { j } else { j + 1 };
        assert(t[j] == s[j0]);
        lemma_entry_at(s, j0);
    }
    assert(a =~= b);
}

/// Entries with the same names, whose values are copies of each other, stand
/// for the same map of what the values stand for, where copies stand for the
/// same.
pub proof fn lemma_cloned_map<V: Clone, W>(
    a: Seq<(Seq<char>, V)>,
    b: Seq<(Seq<char>, V)>,
    f: spec_fn(V) -> W,
)
    requires
        increasing(entry_names(a)),
        a.len() == b.len(),
        forall|i: int| 0 <= i < a.len() ==> (#[trigger] b[i]).0 == a[i].0 && cloned(a[i].1, b[i].1),
        forall|x: V, y: V| cloned(x, y) ==> f(x) == f(y),
    ensures
        entries_map(b).map_values(f) == entries_map(a).map_values(f),
{
    assert(entry_names(b) =~= entry_names(a));
    let x = entries_map(b).map_values(f);
    let y = entries_map(a).map_values(f);
    assert forall|k: Seq<char>| x.contains_key(k) <==> y.contains_key(k) by {
        if entries_map(b).contains_key(k) {
            let i = position_of(b, k);
            assert(a[i].0 == k);
        }
        if entries_map(a).contains_key(k) {
            let i = position_of(a, k);
            assert(b[i].0 == k);
        }
    }
    assert forall|k: Seq<char>| x.contains_key(k) implies x[k] == y[k] by {
        let i = position_of(a, k);
        assert(b[i].0 == k);
        lemma_entry_at(a, i);
        lemma_entry_at(b, i);
    }
    assert(x =~= y);
}

/// A map from names to values, walked in increasing order of the names.
#[derive(Debug, PartialEq)]
pub struct NameMap<V> {
    items: Vec<(String, V)>,
}

impl<V> View for NameMap<V> {
    type V = Map<Seq<char>, V>;

    open spec fn view(&self) -> Map<Seq<char>, V> {
        entries_map(self.entries())
    }
}

impl<V: Clone> Clone for NameMap<V> {
    /// A map with the same names, in the same increasing order, each with a
    /// copy of its value.
    fn clone(&self) -> (r: Self)
        ensures
            increasing(entry_names(self.entries())),
            entry_names(r.entries()) == entry_names(self.entries()),
            r.entries().len() == self.entries().len(),
            forall|i: int|
                0 <= i < self.entries().len() ==> (#[trigger] r.entries()[i]).0
                    == self.entries()[i].0 && cloned(self.entries()[i].1, r.entries()[i].1),
    {
        proof {
            use_type_invariant(self);
        }
        let mut items: Vec<(String, V)> = Vec::new();
        let mut i: usize = 0;
        while i < self.items.len()
            invariant
                i <= self.items.len(),
                items.len() == i,
                forall|j: int|
                    0 <= j < i ==> (#[trigger] items@[j]).0@ == self.items@[j].0@ && cloned(
                        self.items@[j].1,
                        items@[j].1,
                    ),
            decreases self.items.len() - i,
        {
            let name = self.items[i].0.clone();
            let value = self.items[i].1.clone();
            items.push((name, value));
            i += 1;
        }
        proof {
            let a = entry_names(entries_of(items@));
            let b = entry_names(entries_of(self.items@));
            assert(a =~= b) by {
                assert forall|j: int| 0 <= j < a.len() implies a[j] == b[j] by {
                    assert(items@[j].0@ == self.items@[j].0@);
                }
            }
        }
        let r = NameMap { items };
        proof {
            assert(entry_names(r.entries()) =~= entry_names(self.entries()));
            assert forall|j: int| 0 <= j < self.entries().len() implies (#[trigger] r.entries()[j]).0
                == self.entries()[j].0 && cloned(self.entries()[j].1, r.entries()[j].1) by {
                assert(items@[j].0@ == self.items@[j].0@);
            }
        }
        r
    }
}

impl<V> NameMap<V> {
    #[verifier::type_invariant]
    spec fn ordered(self) -> bool {
        increasing(entry_names(entries_of(self.items@)))
    }

    /// The entries of the map, in increasing order of their names.
    pub closed spec fn entries(&self) -> Seq<(Seq<char>, V)> {
        entries_of(self.items@)
    }

    /// The empty map.
    pub fn new() -> (m: Self)
        ensures
            m.entries() == Seq::<(Seq<char>, V)>::empty(),
            m@ == Map::<Seq<char>, V>::empty(),
    {
        let m = NameMap { items: Vec::new() };
        assert(m.entries() =~= Seq::<(Seq<char>, V)>::empty());
        assert(m@ =~= Map::<Seq<char>, V>::empty());
        m
    }

    /// The number of entries.
    pub fn len(&self) -> (n: usize)
        ensures
            n == self.entries().len(),
    {
        self.items.len()
    }

    /// The entries in increasing order of their names.
    pub fn items(&self) -> (r: &Vec<(String, V)>)
        ensures
            entries_of(r@) == self.entries(),
            increasing(entry_names(self.entries())),
    {
        proof {
            use_type_invariant(self);
        }
        &self.items
    }

    /// The first position whose name is not below `name`.
    fn position(&self, name: &str) -> (i: usize)
        ensures
            i <= self.entries().len(),
            forall|j: int| 0 <= j < i ==> str_less((#[trigger] self.entries()[j]).0, name@),
            i < self.entries().len() ==> !str_less(self.entries()[i as int].0, name@),
    {
        let mut i: usize = 0;
        while i < self.items.len()
            invariant
                i <= self.items.len(),
                forall|j: int|
                    0 <= j < i ==> str_less((#[trigger] entries_of(self.items@)[j]).0, name@),
            decreases self.items.len() - i,
        {
            if !str_lt(self.items[i].0.as_str(), name) {
                return i;
            }
            i += 1;
        }
        i
    }

    /// The value held for `name`, if there is one.
    pub fn get(&self, name: &str) -> (r: Option<&V>)
        ensures
            r is Some == self@.contains_key(name@),
            r matches Some(v) ==> *v == self@[name@],
    {
        proof {
            use_type_invariant(self);
        }
        let i = self.position(name);
        if i < self.items.len() && str_eq(self.items[i].0.as_str(), name) {
            proof {
                lemma_entry_at(self.entries(), i as int);
            }
            Some(&self.items[i].1)
        } else {
            proof {
                if i < self.entries().len() {
                    lemma_str_less_total(name@, self.entries()[i as int].0);
                }
                lemma_no_entry_between(self.entries(), i as int, name@);
            }
            None
        }
    }

    /// Whether a value is held for `name`.
    pub fn contains_key(&self, name: &str) -> (r: bool)
        ensures
            r == self@.contains_key(name@),
    {
        self.get(name).is_some()
    }

    /// Sets the value for `name`, replacing the one held before.
    pub fn insert(&mut self, name: String, value: V)
        ensures
            final(self)@ == old(self)@.insert(name@, value),
    {
        proof {
            use_type_invariant(&*self);
        }
        let i = self.position(name.as_str());
        let found = i < self.items.len() && str_eq(self.items[i].0.as_str(), name.as_str());
        let ghost before = self.items@;
        let ghost s = self.entries();
        let mut items: Vec<(String, V)> = Vec::new();
        std::mem::swap(&mut items, &mut self.items);
        if found {
            proof {
                lemma_update_entry(s, i as int, value);
            }
            items.set(i, (name, value));
            assert(entries_of(items@) =~= s.update(i as int, (name@, value)));
        } else {
            proof {
                if i < s.len() {
                    lemma_str_less_total(name@, s[i as int].0);
                }
                lemma_insert_entry(s, i as int, name@, value);
            }
            items.insert(i, (name, value));
            assert(entries_of(items@) =~= s.insert(i as int, (name@, value)));
        }
        self.items = items;
    }

    /// Takes the value for `name` out of the map, if there is one.
    pub fn remove(&mut self, name: &str) -> (r: Option<V>)
        ensures
            final(self)@ == old(self)@.remove(name@),
            r is Some == old(self)@.contains_key(name@),
            r matches Some(v) ==> v == old(self)@[name@],
    {
        proof {
            use_type_invariant(&*self);
        }
        let i = self.position(name);
        let ghost s = self.entries();
        if i < self.items.len() && str_eq(self.items[i].0.as_str(), name) {
            proof {
                lemma_entry_at(s, i as int);
                lemma_remove_entry(s, i as int);
            }
            let mut items: Vec<(String, V)> = Vec::new();
            std::mem::swap(&mut items, &mut self.items);
            let gone = items.remove(i);
            assert(entries_of(items@) =~= s.remove(i as int));
            self.items = items;
            Some(gone.1)
        } else {
            proof {
                if i < s.len() {
                    lemma_str_less_total(name@, s[i as int].0);
                }
                lemma_no_entry_between(s, i as int, name@);
                assert(self@ =~= self@.remove(name@));
            }
            None
        }
    }

    /// Drops every entry whose name is not in `keep`.
    pub fn retain_names(&mut self, keep: &StringSet)
        ensures
            final(self)@ == old(self)@.restrict(keep@),
    {
        proof {
            use_type_invariant(&*self);
        }
        let ghost start = self@;
        let mut items: Vec<(String, V)> = Vec::new();
        std::mem::swap(&mut items, &mut self.items);
        let ghost mut dropped: Set<Seq<char>> = Set::empty();
        let mut i: usize = 0;
        while i < items.len()
            invariant
                i <= items.len(),
                increasing(entry_names(entries_of(items@))),
                entries_map(entries_of(items@)) == start.remove_keys(dropped),
                dropped.disjoint(keep@),
                forall|j: int| 0 <= j < i ==> keep@.contains((#[trigger] entries_of(items@)[j]).0),
            decreases items.len() - i,
        {
            let ghost s = entries_of(items@);
            if keep.contains(items[i].0.as_str()) {
                i += 1;
            } else {
                proof {
                    lemma_remove_entry(s, i as int);
                }
                let gone = items.remove(i);
                proof {
                    assert(entries_of(items@) =~= s.remove(i as int));
                    assert(start.remove_keys(dropped).remove(s[i as int].0) =~= start.remove_keys(
                        dropped.insert(s[i as int].0),
                    ));
                    dropped = dropped.insert(s[i as int].0);
                }
            }
        }
        proof {
            let s = entries_of(items@);
            let a = entries_map(s);
            let b = start.restrict(keep@);
            assert forall|y: Seq<char>| a.contains_key(y) <==> b.contains_key(y) by {
                if has_name(s, y) {
                    let j = position_of(s, y);
                    assert(keep@.contains(s[j].0));
                }
            }
            assert(a =~= b);
        }
        self.items = items;
    }
}

} // verus!
