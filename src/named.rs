//! A table of per-entity counters keyed by entity name (a block device, a
//! network interface). Inserting a name that is present replaces its entry;
//! the entries otherwise keep the order in which their names first came.
use vstd::prelude::*;

verus! {

/// Position of the entry named `name`, or `es.len()` when there is none.
pub open spec fn index_of_name<V>(es: Seq<(Seq<char>, V)>, name: Seq<char>) -> int
    decreases es.len(),
{
    if es.len() == 0 {
        0
    } else if es[0].0 == name {
        0
    } else {
        1 + index_of_name(es.drop_first(), name)
    }
}

/// The entries after `name` is given the value `v`.
pub open spec fn insert_named<V>(es: Seq<(Seq<char>, V)>, name: Seq<char>, v: V) -> Seq<(Seq<char>, V)> {
    let i = index_of_name(es, name);
    if i < es.len() {
        es.update(i, (name, v))
    } else {
        es.push((name, v))
    }
}

/// The value of `name`, if it has an entry.
pub open spec fn lookup_named<V>(es: Seq<(Seq<char>, V)>, name: Seq<char>) -> Option<V> {
    let i = index_of_name(es, name);
    if i < es.len() {
        Some(es[i].1)
    } else {
        None
    }
}

/// No two entries have the same name.
pub open spec fn names_distinct<V>(es: Seq<(Seq<char>, V)>) -> bool {
    forall|i: int, j: int| 0 <= i < j < es.len() ==> es[i].0 != es[j].0
}

pub proof fn lemma_index_of_name<V>(es: Seq<(Seq<char>, V)>, name: Seq<char>)
    ensures
        0 <= index_of_name(es, name) <= es.len(),
        index_of_name(es, name) < es.len() ==> es[index_of_name(es, name)].0 == name,
        forall|k: int| 0 <= k < index_of_name(es, name) ==> es[k].0 != name,
    decreases es.len(),
{
    if es.len() > 0 && es[0].0 != name {
        lemma_index_of_name(es.drop_first(), name);
        assert forall|k: int| 0 <= k < index_of_name(es, name) implies es[k].0 != name by {
            if k > 0 {
                assert(es[k] == es.drop_first()[k - 1]);
            }
        }
    }
}

/// `index_of_name` is the first position that holds the name.
pub proof fn lemma_index_of_name_at<V>(es: Seq<(Seq<char>, V)>, name: Seq<char>, i: int)
    requires
        0 <= i <= es.len(),
        i < es.len() ==> es[i].0 == name,
        forall|k: int| 0 <= k < i ==> es[k].0 != name,
    ensures
        index_of_name(es, name) == i,
    decreases es.len(),
{
    if es.len() > 0 && i > 0 {
        assert forall|k: int| 0 <= k < i - 1 implies es.drop_first()[k].0 != name by {
            assert(es.drop_first()[k] == es[k + 1]);
        }
        lemma_index_of_name_at(es.drop_first(), name, i - 1);
    }
}

/// Inserting adds at most one entry.
pub proof fn lemma_insert_named_len<V>(es: Seq<(Seq<char>, V)>, name: Seq<char>, v: V)
    ensures
        es.len() <= insert_named(es, name, v).len() <= es.len() + 1,
{
    lemma_index_of_name(es, name);
}

/// Some entry of `es` is named `name`.
pub open spec fn has_name<V>(es: Seq<(Seq<char>, V)>, name: Seq<char>) -> bool {
    exists|j: int| 0 <= j < es.len() && es[j].0 == name
}

/// Every name after an insertion is the inserted one or was there before.
pub proof fn lemma_insert_named_keys<V>(es: Seq<(Seq<char>, V)>, name: Seq<char>, v: V)
    ensures
        forall|k: int|
            0 <= k < insert_named(es, name, v).len() ==> #[trigger] insert_named(es, name, v)[k].0
                == name || (k < es.len() && es[k].0 == insert_named(es, name, v)[k].0),
{
    lemma_index_of_name(es, name);
}

/// A table from names to values of type `V`.
pub struct NamedMap<V> {
    entries: Vec<(String, V)>,
}

impl<V> View for NamedMap<V> {
    type V = Seq<(Seq<char>, V)>;

    closed spec fn view(&self) -> Seq<(Seq<char>, V)> {
        self.entries@.map_values(|e: (String, V)| (e.0@, e.1))
    }
}

impl<V: Copy> NamedMap<V> {
    /// An empty table.
    pub fn new() -> (r: Self)
        ensures
            r@ == Seq::<(Seq<char>, V)>::empty(),
    {
        NamedMap { entries: Vec::new() }
    }

    /// Number of entries.
    pub fn len(&self) -> (r: usize)
        ensures
            r == self@.len(),
    {
        self.entries.len()
    }

    /// The name and value of entry `i`.
    pub fn entry(&self, i: usize) -> (r: (&String, V))
        requires
            i < self@.len(),
        ensures
            r.0@ == self@[i as int].0,
            r.1 == self@[i as int].1,
    {
        (&self.entries[i].0, self.entries[i].1)
    }

    fn position(&self, name: &String) -> (r: usize)
        ensures
            r == index_of_name(self@, name@),
    {
        proof {
            lemma_index_of_name(self@, name@);
        }
        let mut i: usize = 0;
        while i < self.entries.len()
            invariant
                i <= self@.len(),
                self@.len() == self.entries@.len(),
                forall|k: int| 0 <= k < i ==> self@[k].0 != name@,
                0 <= index_of_name(self@, name@) <= self@.len(),
                index_of_name(self@, name@) < self@.len() ==> self@[index_of_name(self@, name@)].0
                    == name@,
                forall|k: int| 0 <= k < index_of_name(self@, name@) ==> self@[k].0 != name@,
            decreases self@.len() - i,
        {
            if self.entries[i].0 == *name {
                assert(self@[i as int].0 == name@);
                return i;
            }
            i += 1;
        }
        i
    }

    /// Gives `name` the value `v`, replacing the entry of that name if any.
    pub fn insert(&mut self, name: String, v: V)
        ensures
            final(self)@ == insert_named(old(self)@, name@, v),
            names_distinct(old(self)@) ==> names_distinct(final(self)@),
    {
        proof {
            if names_distinct(self@) {
                lemma_insert_named(self@, name@, v);
            }
        }
        let i = self.position(&name);
        if i < self.entries.len() {
            let ghost nm = name@;
            self.entries.set(i, (name, v));
            assert(self@ =~= insert_named(old(self)@, nm, v));
        } else {
            let ghost nm = name@;
            self.entries.push((name, v));
            assert(self@ =~= insert_named(old(self)@, nm, v));
        }
    }

    /// A copy of the table.
    pub fn duplicate(&self) -> (r: Self)
        ensures
            r@ == self@,
    {
        let mut entries: Vec<(String, V)> = Vec::new();
        let mut i: usize = 0;
        while i < self.entries.len()
            invariant
                i <= self.entries@.len(),
                entries@.len() == i,
                forall|k: int| 0 <= k < i ==> #[trigger] entries@[k] == self.entries@[k],
            decreases self.entries@.len() - i,
        {
            let e = &self.entries[i];
            entries.push((e.0.clone(), e.1));
            i += 1;
        }
        let r = NamedMap { entries };
        assert(r@ =~= self@);
        r
    }

    /// The value of `name`, if it has an entry.
    pub fn get(&self, name: &str) -> (r: Option<V>)
        ensures
            r == lookup_named(self@, name@),
    {
        let key = name.to_string();
        let i = self.position(&key);
        if i < self.entries.len() {
            Some(self.entries[i].1)
        } else {
            None
        }
    }
}

/// Inserting into a table whose names are distinct keeps them distinct, and
/// the inserted value is then what the name looks up.
pub proof fn lemma_insert_named<V>(es: Seq<(Seq<char>, V)>, name: Seq<char>, v: V)
    requires
        names_distinct(es),
    ensures
        names_distinct(insert_named(es, name, v)),
        lookup_named(insert_named(es, name, v), name) == Some(v),
{
    lemma_index_of_name(es, name);
    let i = index_of_name(es, name);
    let r = insert_named(es, name, v);
    assert forall|k: int| 0 <= k < i implies r[k].0 != name by {
        assert(r[k] == es[k]);
    }
    lemma_index_of_name_at(r, name, i);
}

} // verus!
