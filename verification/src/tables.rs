//! Name-keyed tables used for environments, function tables and name sets.
//!
//! A table is an association vector read from the newest entry backwards,
//! so a later entry for a name shadows an earlier one; its view is the
//! finite map this realizes. Writing never scans: it appends, which keeps
//! the view's `insert` exact.

use vstd::prelude::*;

verus! {

/// The map realized by an association sequence, newest entry winning.
pub open spec fn assoc_view<V>(s: Seq<(String, V)>) -> Map<Seq<char>, V>
    decreases s.len(),
{
    if s.len() == 0 {
        Map::empty()
    } else {
        assoc_view(s.drop_last()).insert(s.last().0@, s.last().1)
    }
}

/// The set realized by a sequence of names.
pub open spec fn names_view(s: Seq<String>) -> Set<Seq<char>>
    decreases s.len(),
{
    if s.len() == 0 {
        Set::empty()
    } else {
        names_view(s.drop_last()).insert(s.last()@)
    }
}

proof fn lemma_assoc_found<V>(s: Seq<(String, V)>, i: int, k: Seq<char>)
    requires
        0 <= i < s.len(),
        s[i].0@ == k,
        forall|j: int| i < j < s.len() ==> s[j].0@ != k,
    ensures
        assoc_view(s).contains_key(k),
        assoc_view(s)[k] == s[i].1,
    decreases s.len(),
{
    if i == s.len() - 1 {
    } else {
        lemma_assoc_found(s.drop_last(), i, k);
    }
}

proof fn lemma_assoc_absent<V>(s: Seq<(String, V)>, k: Seq<char>)
    requires
        forall|j: int| 0 <= j < s.len() ==> s[j].0@ != k,
    ensures
        !assoc_view(s).contains_key(k),
    decreases s.len(),
{
    if s.len() > 0 {
        lemma_assoc_absent(s.drop_last(), k);
    }
}

proof fn lemma_names_found(s: Seq<String>, i: int)
    requires
        0 <= i < s.len(),
    ensures
        names_view(s).contains(s[i]@),
    decreases s.len(),
{
    if i < s.len() - 1 {
        lemma_names_found(s.drop_last(), i);
    }
}

proof fn lemma_names_absent(s: Seq<String>, k: Seq<char>)
    requires
        forall|j: int| 0 <= j < s.len() ==> s[j]@ != k,
    ensures
        !names_view(s).contains(k),
    decreases s.len(),
{
    if s.len() > 0 {
        lemma_names_absent(s.drop_last(), k);
    }
}

/// Two name sequences with equal views realize the same set.
proof fn lemma_names_congruent(a: Seq<String>, b: Seq<String>)
    requires
        a.len() == b.len(),
        forall|j: int| 0 <= j < a.len() ==> a[j]@ == b[j]@,
    ensures
        names_view(a) == names_view(b),
    decreases a.len(),
{
    if a.len() > 0 {
        lemma_names_congruent(a.drop_last(), b.drop_last());
        assert(names_view(a) =~= names_view(b));
    }
}

/// A name-to-`V` table; its view is a finite map.
pub struct Table<V> {
    pub entries: Vec<(String, V)>,
}

impl<V> View for Table<V> {
    type V = Map<Seq<char>, V>;

    open spec fn view(&self) -> Map<Seq<char>, V> {
        assoc_view(self.entries@)
    }
}

impl<V> Table<V> {
    pub fn new() -> (r: Self)
        ensures
            r@ == Map::<Seq<char>, V>::empty(),
    {
        Table { entries: Vec::new() }
    }

    pub fn get(&self, name: &String) -> (r: Option<&V>)
        ensures
            match r {
                Some(v) => self@.contains_key(name@) && *v == self@[name@],
                None => !self@.contains_key(name@),
            },
    {
        let n = self.entries.len();
        let mut i = n;
        loop
            invariant
                i <= n,
                n == self.entries@.len(),
                forall|j: int| i <= j < n ==> self.entries@[j].0@ != name@,
            decreases i,
        {
            if i == 0 {
                proof {
                    lemma_assoc_absent(self.entries@, name@);
                }
                return None;
            }
            i = i - 1;
            if self.entries[i].0 == *name {
                proof {
                    lemma_assoc_found(self.entries@, i as int, name@);
                }
                return Some(&self.entries[i].1);
            }
        }
    }

    pub fn contains(&self, name: &String) -> (r: bool)
        ensures
            r == self@.contains_key(name@),
    {
        self.get(name).is_some()
    }

    pub fn put(&mut self, name: String, value: V)
        ensures
            final(self)@ == old(self)@.insert(name@, value),
    {
        let ghost before = self.entries@;
        self.entries.push((name, value));
        proof {
            assert(self.entries@.drop_last() =~= before);
        }
    }
}

/// A set of names.
pub struct NameSet {
    pub items: Vec<String>,
}

impl View for NameSet {
    type V = Set<Seq<char>>;

    open spec fn view(&self) -> Set<Seq<char>> {
        names_view(self.items@)
    }
}

impl NameSet {
    pub fn new() -> (r: Self)
        ensures
            r@ == Set::<Seq<char>>::empty(),
    {
        NameSet { items: Vec::new() }
    }

    pub fn contains(&self, name: &String) -> (r: bool)
        ensures
            r == self@.contains(name@),
    {
        let n = self.items.len();
        let mut i = n;
        loop
            invariant
                i <= n,
                n == self.items@.len(),
                forall|j: int| i <= j < n ==> self.items@[j]@ != name@,
            decreases i,
        {
            if i == 0 {
                proof {
                    lemma_names_absent(self.items@, name@);
                }
                return false;
            }
            i = i - 1;
            if self.items[i] == *name {
                proof {
                    lemma_names_found(self.items@, i as int);
                }
                return true;
            }
        }
    }

    pub fn insert(&mut self, name: String)
        ensures
            final(self)@ == old(self)@.insert(name@),
    {
        let ghost before = self.items@;
        self.items.push(name);
        proof {
            assert(self.items@.drop_last() =~= before);
        }
    }

    /// An independent copy realizing the same set.
    pub fn duplicate(&self) -> (r: Self)
        ensures
            r@ == self@,
    {
        let n = self.items.len();
        let mut out: Vec<String> = Vec::new();
        let mut i: usize = 0;
        while i < n
            invariant
                i <= n,
                n == self.items@.len(),
                out@.len() == i,
                forall|j: int| 0 <= j < i ==> out@[j]@ == self.items@[j]@,
            decreases n - i,
        {
            out.push(self.items[i].clone());
            i = i + 1;
        }
        proof {
            lemma_names_congruent(out@, self.items@);
        }
        NameSet { items: out }
    }
}

} // verus!
