use vstd::prelude::*;
use vstd::string::StringExecFns;
use crate::value::{WeakType, Object};

verus! {

/// The value stored under `key`: the last entry that carries the name.
pub open spec fn lookup(entries: Seq<(String, WeakType)>, key: Seq<char>) -> Option<WeakType>
    decreases entries.len(),
{
    if entries.len() == 0 {
        None
    } else if entries.last().0@ == key {
        Some(entries.last().1)
    } else {
        lookup(entries.drop_last(), key)
    }
}

/// No two entries carry the same name.
pub open spec fn names_unique(entries: Seq<(String, WeakType)>) -> bool {
    forall|i: int, j: int|
        0 <= i < j < entries.len() ==> (#[trigger] entries[i]).0@ != (#[trigger] entries[j]).0@
}

proof fn lemma_lookup_update(s: Seq<(String, WeakType)>, i: int, e: (String, WeakType), k: Seq<char>)
    requires
        names_unique(s),
        0 <= i < s.len(),
        e.0@ == s[i].0@,
    ensures
        lookup(s.update(i, e), k) == (if k == e.0@ { Some(e.1) } else { lookup(s, k) }),
    decreases s.len(),
{
    let t = s.update(i, e);
    if i < s.len() - 1 {
        assert(t.drop_last() =~= s.drop_last().update(i, e));
        if s.last().0@ != k {
            lemma_lookup_update(s.drop_last(), i, e, k);
        } else {
            assert(s[s.len() - 1] == s.last());
        }
    } else {
        assert(t.drop_last() =~= s.drop_last());
    }
}

proof fn lemma_lookup_push(s: Seq<(String, WeakType)>, e: (String, WeakType), k: Seq<char>)
    ensures
        lookup(s.push(e), k) == (if k == e.0@ { Some(e.1) } else { lookup(s, k) }),
{
    assert(s.push(e).drop_last() =~= s);
}

proof fn lemma_lookup_absent(s: Seq<(String, WeakType)>, k: Seq<char>)
    requires
        forall|j: int| 0 <= j < s.len() ==> (#[trigger] s[j]).0@ != k,
    ensures
        lookup(s, k) is None,
    decreases s.len(),
{
    if s.len() > 0 {
        assert(s[s.len() - 1] == s.last());
        lemma_lookup_absent(s.drop_last(), k);
    }
}

impl Object {
    /// The object's entries name each key once.
    pub open spec fn wf(&self) -> bool {
        names_unique(self.0@)
    }

    /// What the object stores under `key`.
    pub open spec fn get(&self, key: Seq<char>) -> Option<WeakType> {
        lookup(self.0@, key)
    }

    /// The position of the entry named `key`, searching from the end.
    fn position(&self, key: &String) -> (r: Option<usize>)
        ensures
            match r {
                Some(i) => i < self.0@.len() && self.0@[i as int].0@ == key@
                    && lookup(self.0@, key@) == Some(self.0@[i as int].1),
                None => forall|j: int| 0 <= j < self.0@.len() ==> (#[trigger] self.0@[j]).0@ != key@,
            },
    {
        let mut i: usize = self.0.len();
        assert(self.0@.subrange(0, i as int) =~= self.0@);
        while i > 0
            invariant
                i <= self.0@.len(),
                lookup(self.0@, key@) == lookup(self.0@.subrange(0, i as int), key@),
                forall|j: int| i <= j < self.0@.len() ==> (#[trigger] self.0@[j]).0@ != key@,
            decreases i,
        {
            let ghost prefix = self.0@.subrange(0, i as int);
            assert(prefix.last() == self.0@[i - 1]);
            if self.0[i - 1].0 == *key {
                return Some(i - 1);
            }
            assert(prefix.drop_last() =~= self.0@.subrange(0, i - 1));
            i -= 1;
        }
        None
    }

    /// An object with no entries.
    pub fn new() -> (r: Object)
        ensures
            r.wf(),
            forall|k: Seq<char>| r.get(k) is None,
    {
        Object(Vec::new())
    }

    /// Stores `value` under `key`, in place of any value stored there.
    pub fn insert(&mut self, key: String, value: WeakType)
        requires
            old(self).wf(),
        ensures
            final(self).wf(),
            forall|k: Seq<char>|
                final(self).get(k) == (if k == key@ { Some(value) } else { old(self).get(k) }),
    {
        let ghost k0 = key@;
        let ghost v0 = value;
        match self.position(&key) {
            Some(i) => {
                let ghost before = self.0@;
                self.0.set(i, (key, value));
                proof {
                    assert forall|k: Seq<char>|
                        self.get(k) == (if k == k0 { Some(v0) } else { lookup(before, k) }) by {
                        lemma_lookup_update(before, i as int, (self.0@[i as int].0, v0), k);
                        assert(self.0@ == before.update(i as int, self.0@[i as int]));
                    }
                    assert(names_unique(self.0@)) by {
                        assert forall|a: int, b: int| 0 <= a < b < self.0@.len() implies
                            (#[trigger] self.0@[a]).0@ != (#[trigger] self.0@[b]).0@ by {
                            assert(before[a].0@ != before[b].0@);
                        }
                    }
                }
            },
            None => {
                let ghost before = self.0@;
                self.0.push((key, value));
                proof {
                    assert forall|k: Seq<char>|
                        self.get(k) == (if k == k0 { Some(v0) } else { lookup(before, k) }) by {
                        lemma_lookup_push(before, self.0@.last(), k);
                        assert(self.0@ == before.push(self.0@.last()));
                    }
                    assert(names_unique(self.0@)) by {
                        assert forall|a: int, b: int| 0 <= a < b < self.0@.len() implies
                            (#[trigger] self.0@[a]).0@ != (#[trigger] self.0@[b]).0@ by {
                            if b < before.len() {
                                assert(before[a].0@ != before[b].0@);
                            } else {
                                assert(before[a].0@ != k0);
                            }
                        }
                    }
                }
            },
        }
    }

    /// An object holding `entries`; where a name repeats, its last value
    /// stays.
    pub fn from_entries(entries: Vec<(String, WeakType)>) -> (r: Object)
        ensures
            r.wf(),
            forall|k: Seq<char>| r.get(k) == lookup(entries@, k),
    {
        let mut out = Object::new();
        let mut rest = entries;
        let ghost all = rest@;
        let mut n: usize = 0;
        let total: usize = rest.len();
        while rest.len() > 0
            invariant
                n + rest@.len() == all.len(),
                all.len() == total,
                rest@ == all.subrange(n as int, all.len() as int),
                out.wf(),
                forall|k: Seq<char>| out.get(k) == lookup(all.subrange(0, n as int), k),
            decreases rest@.len(),
        {
            let (key, value) = rest.remove(0);
            let ghost e = all[n as int];
            proof {
                assert(e == (key, value));
                assert forall|k: Seq<char>| lookup(all.subrange(0, n + 1), k)
                    == (if k == key@ { Some(value) } else { lookup(all.subrange(0, n as int), k) }) by {
                    assert(all.subrange(0, n + 1) =~= all.subrange(0, n as int).push(e));
                    lemma_lookup_push(all.subrange(0, n as int), e, k);
                }
            }
            out.insert(key, value);
            n += 1;
            assert(rest@ =~= all.subrange(n as int, all.len() as int));
        }
        assert(all.subrange(0, n as int) =~= all);
        out
    }
}

impl WeakType {
    /// The property `key` of the value: for an object, what it stores under
    /// `key`; the absent value in every other case.
    pub fn index(&self, key: &str) -> (r: &WeakType)
        ensures
            match *self {
                WeakType::Object(o) => match o.get(key@) {
                    Some(v) => *r == v,
                    None => *r is Undefined,
                },
                _ => *r is Undefined,
            },
    {
        match self {
            WeakType::Object(o) => {
                let k = String::from_str(key);
                match o.position(&k) {
                    Some(i) => &o.0[i].1,
                    None => {
                        proof {
                            lemma_lookup_absent(o.0@, key@);
                        }
                        &UNDEFINED
                    },
                }
            },
            _ => &UNDEFINED,
        }
    }
}

/// The absent value, lent out where a lookup finds nothing.
pub const UNDEFINED: WeakType = WeakType::Undefined;

} // verus!
