//! A map from names to values that keeps each name once, in insertion order.
use vstd::prelude::*;

use crate::text::str_equal;

verus! {

/// The map that a list of named entries stands for: a later entry for a name wins.
pub open spec fn map_of<V>(e: Seq<(String, V)>) -> Map<Seq<char>, V>
    decreases e.len(),
{
    if e.len() == 0 {
        Map::empty()
    } else {
        map_of(e.drop_last()).insert(e.last().0@, e.last().1)
    }
}

/// No name occurs twice among the entries.
pub open spec fn names_distinct<V>(e: Seq<(String, V)>) -> bool {
    forall|i: int, j: int| 0 <= i < e.len() && 0 <= j < e.len() && i != j ==> e[i].0@ != e[j].0@
}

/// A name is in the map exactly when some entry carries it.
pub proof fn lemma_map_of_domain<V>(e: Seq<(String, V)>, k: Seq<char>)
    ensures
        map_of(e).contains_key(k) <==> exists|i: int| 0 <= i < e.len() && e[i].0@ == k,
    decreases e.len(),
{
    if e.len() > 0 {
        lemma_map_of_domain(e.drop_last(), k);
        if map_of(e).contains_key(k) && e.last().0@ != k {
            let i = choose|i: int| 0 <= i < e.len() - 1 && e.drop_last()[i].0@ == k;
            assert(e[i].0@ == k);
        }
        if exists|i: int| 0 <= i < e.len() && e[i].0@ == k {
            let i = choose|i: int| 0 <= i < e.len() && e[i].0@ == k;
            if i < e.len() - 1 {
                assert(e.drop_last()[i].0@ == k);
            }
        }
    }
}

/// With distinct names, each entry's value is what the map holds for its name.
pub proof fn lemma_map_of_lookup<V>(e: Seq<(String, V)>, i: int)
    requires
        names_distinct(e),
        0 <= i < e.len(),
    ensures
        map_of(e).contains_key(e[i].0@),
        map_of(e)[e[i].0@] == e[i].1,
    decreases e.len(),
{
    if i < e.len() - 1 {
        lemma_map_of_lookup(e.drop_last(), i);
        assert(e.drop_last()[i] == e[i]);
    }
}

/// With distinct names, a name in the map is carried by an entry whose value the map holds.
pub proof fn lemma_map_of_value<V>(e: Seq<(String, V)>, k: Seq<char>) -> (i: int)
    requires
        names_distinct(e),
        map_of(e).contains_key(k),
    ensures
        0 <= i < e.len(),
        e[i].0@ == k,
        map_of(e)[k] == e[i].1,
{
    lemma_map_of_domain(e, k);
    let i = choose|i: int| 0 <= i < e.len() && e[i].0@ == k;
    lemma_map_of_lookup(e, i);
    i
}

/// With distinct names, the map has one key per entry.
pub proof fn lemma_map_of_len<V>(e: Seq<(String, V)>)
    requires
        names_distinct(e),
    ensures
        map_of(e).dom().finite(),
        map_of(e).dom().len() == e.len(),
    decreases e.len(),
{
    if e.len() > 0 {
        let p = e.drop_last();
        assert(names_distinct(p));
        lemma_map_of_len(p);
        lemma_map_of_domain(p, e.last().0@);
        if map_of(p).contains_key(e.last().0@) {
            let i = choose|i: int| 0 <= i < p.len() && p[i].0@ == e.last().0@;
            assert(e[i].0@ == e[e.len() - 1].0@);
        }
    }
}

/// With distinct names, replacing the value of entry `i` (under an equal name) is an insert.
pub proof fn lemma_map_of_update<V>(e: Seq<(String, V)>, i: int, name: String, v: V)
    requires
        names_distinct(e),
        0 <= i < e.len(),
        name@ == e[i].0@,
    ensures
        map_of(e.update(i, (name, v))) == map_of(e).insert(name@, v),
    decreases e.len(),
{
    let u = e.update(i, (name, v));
    if i == e.len() - 1 {
        assert(u.drop_last() =~= e.drop_last());
        lemma_map_of_domain(e.drop_last(), name@);
        assert(map_of(u) =~= map_of(e).insert(name@, v));
    } else {
        let p = e.drop_last();
        assert(names_distinct(p));
        lemma_map_of_update(p, i, name, v);
        assert(u.drop_last() =~= p.update(i, (name, v)));
        assert(e.last().0@ != name@);
        assert(map_of(u) =~= map_of(e).insert(name@, v));
    }
}

/// With distinct names, dropping entry `i` removes its name from the map.
pub proof fn lemma_map_of_remove<V>(e: Seq<(String, V)>, i: int)
    requires
        names_distinct(e),
        0 <= i < e.len(),
    ensures
        map_of(e.remove(i)) == map_of(e).remove(e[i].0@),
        names_distinct(e.remove(i)),
    decreases e.len(),
{
    let r = e.remove(i);
    let k = e[i].0@;
    assert forall|a: int, b: int|
        0 <= a < r.len() && 0 <= b < r.len() && a != b implies r[a].0@ != r[b].0@ by {
        let a2 = if a < i {
            a
        } else {
            a + 1
        };
        let b2 = if b < i {
            b
        } else {
            b + 1
        };
        assert(r[a] == e[a2]);
        assert(r[b] == e[b2]);
    }
    if i == e.len() - 1 {
        assert(r =~= e.drop_last());
        lemma_map_of_domain(e.drop_last(), k);
        if map_of(e.drop_last()).contains_key(k) {
            let j = choose|j: int| 0 <= j < e.len() - 1 && e.drop_last()[j].0@ == k;
            assert(e[j].0@ == e[i].0@);
        }
        assert(map_of(r) =~= map_of(e).remove(k));
    } else {
        let p = e.drop_last();
        assert(names_distinct(p));
        lemma_map_of_remove(p, i);
        assert(r.drop_last() =~= p.remove(i));
        assert(r.last() == e.last());
        assert(e.last().0@ != k);
        assert(map_of(r) =~= map_of(e).remove(k));
    }
}

/// Named values, each name at most once, kept in the order they were first added.
pub struct NamedMap<V> {
    entries: Vec<(String, V)>,
}

impl<V> NamedMap<V> {
    /// The entries, in order.
    pub closed spec fn entries(&self) -> Seq<(String, V)> {
        self.entries@
    }

    /// The names, in order.
    pub open spec fn names(&self) -> Seq<Seq<char>> {
        self.entries().map_values(|e: (String, V)| e.0@)
    }

    /// No name occurs twice.
    pub open spec fn wf(&self) -> bool {
        names_distinct(self.entries())
    }

    /// The map from names to values.
    pub open spec fn view(&self) -> Map<Seq<char>, V> {
        map_of(self.entries())
    }

    /// An empty map.
    pub fn new() -> (r: Self)
        ensures
            r.wf(),
            r@ == Map::<Seq<char>, V>::empty(),
            r.entries().len() == 0,
    {
        NamedMap { entries: Vec::new() }
    }

    /// The entries, in order, taken out of the map.
    pub fn into_entries(self) -> (r: Vec<(String, V)>)
        ensures
            r@ == self.entries(),
    {
        self.entries
    }

    /// The number of names.
    pub fn len(&self) -> (r: usize)
        requires
            self.wf(),
        ensures
            r == self@.len(),
            r == self.entries().len(),
    {
        proof {
            lemma_map_of_len(self.entries());
        }
        self.entries.len()
    }

    /// Whether the map holds no name.
    pub fn is_empty(&self) -> (r: bool)
        requires
            self.wf(),
        ensures
            r == (self@.len() == 0),
            r == (self.entries().len() == 0),
    {
        proof {
            lemma_map_of_len(self.entries());
        }
        self.entries.len() == 0
    }

    /// The position of `name` among the entries.
    fn index_of(&self, name: &str) -> (r: Option<usize>)
        ensures
            match r {
                Some(i) => i < self.entries().len() && self.entries()[i as int].0@ == name@,
                None => forall|i: int|
                    0 <= i < self.entries().len() ==> self.entries()[i].0@ != name@,
            },
    {
        let n = self.entries.len();
        let mut i: usize = 0;
        while i < n
            invariant
                n == self.entries@.len(),
                i <= n,
                forall|j: int| 0 <= j < i ==> self.entries@[j].0@ != name@,
            decreases n - i,
        {
            if str_equal(self.entries[i].0.as_str(), name) {
                return Some(i);
            }
            i = i + 1;
        }
        None
    }

    /// Whether `name` is in the map.
    pub fn contains_key(&self, name: &str) -> (r: bool)
        ensures
            r == self@.contains_key(name@),
    {
        proof {
            lemma_map_of_domain(self.entries(), name@);
        }
        self.index_of(name).is_some()
    }

    /// The value held for `name`.
    pub fn get(&self, name: &str) -> (r: Option<&V>)
        requires
            self.wf(),
        ensures
            match r {
                Some(v) => self@.contains_key(name@) && *v == self@[name@],
                None => !self@.contains_key(name@),
            },
    {
        proof {
            lemma_map_of_domain(self.entries(), name@);
        }
        match self.index_of(name) {
            Some(i) => {
                proof {
                    lemma_map_of_lookup(self.entries(), i as int);
                }
                Some(&self.entries[i].1)
            },
            None => None,
        }
    }

    /// The names, in order.
    pub fn keys(&self) -> (r: Vec<String>)
        ensures
            r@.map_values(|x: String| x@) == self.names(),
            self.wf() ==> self.names().no_duplicates(),
            self.names().to_set() == self@.dom(),
    {
        proof {
            assert forall|k: Seq<char>| #[trigger] self.names().to_set().contains(k) == self@.dom().contains(k) by {
                lemma_map_of_domain(self.entries(), k);
                if self@.dom().contains(k) {
                    let i = choose|i: int| 0 <= i < self.entries().len() && self.entries()[i].0@ == k;
                    assert(self.names()[i] == k);
                }
            }
            assert(self.names().to_set() =~= self@.dom());
        }
        let mut r: Vec<String> = Vec::new();
        let mut i: usize = 0;
        while i < self.entries.len()
            invariant
                i <= self.entries@.len(),
                r@.map_values(|x: String| x@) == self.names().take(i as int),
            decreases self.entries@.len() - i,
        {
            let name = self.entries[i].0.clone();
            let ghost before = r@;
            r.push(name);
            assert(self.names()[i as int] == self.entries()[i as int].0@);
            assert(r@.map_values(|x: String| x@) =~= before.map_values(|x: String| x@).push(
                name@,
            ));
            assert(self.names().take(i + 1) =~= self.names().take(i as int).push(
                self.names()[i as int],
            ));
            i = i + 1;
        }
        assert(self.names().take(i as int) =~= self.names());
        r
    }

    /// The name and value of entry `i`.
    pub fn entry(&self, i: usize) -> (r: (&String, &V))
        requires
            self.wf(),
            i < self.entries().len(),
        ensures
            *r.0 == self.entries()[i as int].0,
            *r.1 == self.entries()[i as int].1,
            self@.contains_key(r.0@),
            self@[r.0@] == *r.1,
    {
        proof {
            lemma_map_of_lookup(self.entries(), i as int);
        }
        (&self.entries[i].0, &self.entries[i].1)
    }

    /// Sets the value for `name`, returning the value it replaced.
    pub fn insert(&mut self, name: String, value: V) -> (r: Option<V>)
        requires
            old(self).wf(),
        ensures
            final(self).wf(),
            final(self)@ == old(self)@.insert(name@, value),
            match r {
                Some(v) => old(self)@.contains_key(name@) && v == old(self)@[name@],
                None => !old(self)@.contains_key(name@),
            },
            old(self)@.contains_key(name@) ==> final(self).names() == old(self).names(),
            !old(self)@.contains_key(name@) ==> final(self).names() == old(self).names().push(
                name@,
            ),
    {
        proof {
            lemma_map_of_domain(self.entries(), name@);
        }
        match self.index_of(name.as_str()) {
            Some(i) => {
                proof {
                    lemma_map_of_lookup(self.entries(), i as int);
                    lemma_map_of_update(self.entries(), i as int, name, value);
                }
                let ghost before = self.entries();
                let (_, old_value) = self.entries.remove(i);
                self.entries.insert(i, (name, value));
                assert(self.entries() =~= before.update(i as int, (name, value)));
                assert(self.names() =~= old(self).names());
                Some(old_value)
            },
            None => {
                let ghost before = self.entries();
                self.entries.push((name, value));
                assert(self.entries() =~= before.push((name, value)));
                assert(self.entries().drop_last() =~= before);
                assert(self.names() =~= old(self).names().push(name@));
                None
            },
        }
    }

    /// Removes `name`, returning its value.
    pub fn remove(&mut self, name: &str) -> (r: Option<V>)
        requires
            old(self).wf(),
        ensures
            final(self).wf(),
            final(self)@ == old(self)@.remove(name@),
            match r {
                Some(v) => old(self)@.contains_key(name@) && v == old(self)@[name@],
                None => !old(self)@.contains_key(name@),
            },
    {
        proof {
            lemma_map_of_domain(self.entries(), name@);
        }
        match self.index_of(name) {
            Some(i) => {
                proof {
                    lemma_map_of_lookup(self.entries(), i as int);
                    lemma_map_of_remove(self.entries(), i as int);
                }
                let (_, v) = self.entries.remove(i);
                Some(v)
            },
            None => {
                assert(old(self)@.remove(name@) =~= old(self)@);
                None
            },
        }
    }
}

impl NamedMap<String> {
    /// A copy with the same entries in the same order.
    pub fn copy(&self) -> (r: Self)
        ensures
            r.entries() == self.entries(),
    {
        let n = self.entries.len();
        let mut out: Vec<(String, String)> = Vec::new();
        let mut i: usize = 0;
        while i < n
            invariant
                n == self.entries@.len(),
                i <= n,
                out@ == self.entries@.take(i as int),
            decreases n - i,
        {
            let k = self.entries[i].0.clone();
            let v = self.entries[i].1.clone();
            out.push((k, v));
            i = i + 1;
            assert(out@ =~= self.entries@.take(i as int));
        }
        assert(self.entries@.take(n as int) =~= self.entries@);
        NamedMap { entries: out }
    }
}

} // verus!
