use vstd::prelude::*;

verus! {

/// A structured value.
#[derive(Debug, PartialEq)]
pub enum Value {
    Null,
    Bool(bool),
    I64(i64),
    U64(u64),
    String(String),
    Array(Vec<Value>),
    Object(Object),
}

/// A map from string keys to values, each key present at most once.
/// Entries keep the order in which their keys were first inserted.
#[derive(Debug, PartialEq)]
pub struct Object {
    entries: Vec<(String, Value)>,
}

/// The position of key `k` in `entries`, if it is there.
pub open spec fn key_position(entries: Seq<(Seq<char>, Value)>, k: Seq<char>) -> Option<int> {
    if exists|i: int| 0 <= i < entries.len() && entries[i].0 == k {
        Some(choose|i: int| 0 <= i < entries.len() && entries[i].0 == k)
    } else {
        None
    }
}

/// The entries after inserting `v` under `k`: the value of a present key is
/// replaced in place, an absent key is appended.
pub open spec fn entries_insert(entries: Seq<(Seq<char>, Value)>, k: Seq<char>, v: Value) -> Seq<
    (Seq<char>, Value),
> {
    match key_position(entries, k) {
        Some(i) => entries.update(i, (k, v)),
        None => entries.push((k, v)),
    }
}

pub open spec fn keys_unique(entries: Seq<(Seq<char>, Value)>) -> bool {
    forall|i: int, j: int|
        0 <= i < entries.len() && 0 <= j < entries.len() && i != j ==> entries[i].0 != entries[j].0
}

impl Object {
    /// The entries, with each key given by its characters.
    pub closed spec fn entries(&self) -> Seq<(Seq<char>, Value)> {
        self.entries@.map_values(|e: (String, Value)| (e.0@, e.1))
    }

    pub open spec fn wf(&self) -> bool {
        keys_unique(self.entries())
    }

    pub fn new() -> (r: Self)
        ensures
            r.wf(),
            r.entries() == Seq::<(Seq<char>, Value)>::empty(),
    {
        let r = Object { entries: Vec::new() };
        assert(r.entries() =~= Seq::<(Seq<char>, Value)>::empty());
        r
    }

    pub fn len(&self) -> (r: usize)
        ensures
            r == self.entries().len(),
    {
        self.entries.len()
    }

    /// The key and value of the `i`-th entry.
    pub fn entry_at(&self, i: usize) -> (r: (&str, &Value))
        requires
            i < self.entries().len(),
        ensures
            r.0@ == self.entries()[i as int].0,
            *r.1 == self.entries()[i as int].1,
    {
        let e = &self.entries[i];
        (e.0.as_str(), &e.1)
    }

    /// The value stored under `k`, if any.
    pub fn get(&self, k: &str) -> (r: Option<&Value>)
        requires
            self.wf(),
        ensures
            match key_position(self.entries(), k@) {
                Some(i) => r == Some(&self.entries()[i].1),
                None => r is None,
            },
    {
        let key = k.to_owned();
        let n = self.entries.len();
        let mut i: usize = 0;
        while i < n
            invariant
                n == self.entries@.len(),
                key@ == k@,
                keys_unique(self.entries()),
                0 <= i <= n,
                forall|j: int| 0 <= j < i ==> self.entries()[j].0 != k@,
            decreases n - i,
        {
            if self.entries[i].0 == key {
                proof {
                    let p = key_position(self.entries(), k@);
                    assert(self.entries()[i as int].0 == k@);
                    assert(p is Some);
                    assert(p->Some_0 == i);
                }
                return Some(&self.entries[i].1);
            }
            i = i + 1;
        }
        None
    }

    /// Inserts `v` under `k`, replacing the value that `k` had.
    pub fn insert(&mut self, k: String, v: Value)
        requires
            old(self).wf(),
        ensures
            final(self).wf(),
            final(self).entries() == entries_insert(old(self).entries(), k@, v),
    {
        let ghost old_entries = self.entries();
        let ghost kv = k@;
        let ghost gv = v;
        let n = self.entries.len();
        let mut i: usize = 0;
        while i < n
            invariant
                n == self.entries@.len(),
                old_entries == self.entries(),
                old_entries == old(self).entries(),
                keys_unique(old_entries),
                kv == k@,
                gv == v,
                0 <= i <= n,
                forall|j: int| 0 <= j < i ==> old_entries[j].0 != kv,
            decreases n - i,
        {
            if self.entries[i].0 == k {
                proof {
                    assert(old_entries[i as int].0 == kv);
                    let p = key_position(old_entries, kv);
                    assert(p is Some);
                    let c = p->Some_0;
                    assert(c == i);
                }
                self.entries[i] = (k, v);
                proof {
                    assert(self.entries() =~= old_entries.update(i as int, (kv, gv)));
                    assert(self.entries() == entries_insert(old_entries, kv, gv));
                }
                return;
            }
            i = i + 1;
        }
        proof {
            assert(key_position(old_entries, kv) is None);
        }
        self.entries.push((k, v));
        proof {
            assert(self.entries() =~= old_entries.push((kv, gv)));
        }
    }
}

} // verus!
