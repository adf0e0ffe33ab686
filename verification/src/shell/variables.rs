//! Named string values, as the shell keeps its variables and aliases.

use vstd::prelude::*;
use crate::textutil::str_eq;

verus! {

/// Each key is present once.
pub open spec fn unique_keys(es: Seq<(String, String)>) -> bool {
    forall|i: int, j: int| 0 <= i < j < es.len() ==> (#[trigger] es[i]).0@ != (#[trigger] es[j]).0@
}

/// Some entry has key `k`.
pub open spec fn has_key(es: Seq<(String, String)>, k: Seq<char>) -> bool {
    exists|i: int| 0 <= i < es.len() && (#[trigger] es[i]).0@ == k
}

/// The position of the entry with key `k`.
pub open spec fn key_index(es: Seq<(String, String)>, k: Seq<char>) -> int {
    choose|i: int| 0 <= i < es.len() && (#[trigger] es[i]).0@ == k
}

/// The values by key.
pub open spec fn entry_map(es: Seq<(String, String)>) -> Map<Seq<char>, Seq<char>> {
    Map::new(|k: Seq<char>| has_key(es, k), |k: Seq<char>| es[key_index(es, k)].1@)
}

/// With unique keys, position `i` holds the value its key maps to.
pub proof fn lemma_entry_at(es: Seq<(String, String)>, i: int)
    requires
        unique_keys(es),
        0 <= i < es.len(),
    ensures
        has_key(es, es[i].0@),
        key_index(es, es[i].0@) == i,
        entry_map(es).contains_key(es[i].0@),
        entry_map(es)[es[i].0@] == es[i].1@,
{
    let k = es[i].0@;
    assert(has_key(es, k));
    let j = key_index(es, k);
    if j < i {
        assert(es[j].0@ != es[i].0@);
    } else if j > i {
        assert(es[i].0@ != es[j].0@);
    }
}

/// A map from names to strings.
pub struct Variables {
    entries: Vec<(String, String)>,
}

impl View for Variables {
    type V = Map<Seq<char>, Seq<char>>;

    closed spec fn view(&self) -> Map<Seq<char>, Seq<char>> {
        entry_map(self.entries@)
    }
}

impl Variables {
    /// Each name is present once.
    pub closed spec fn wf(&self) -> bool {
        unique_keys(self.entries@)
    }

    /// No names.
    pub fn new() -> (ret: Self)
        ensures
            ret.wf(),
            ret@ == Map::<Seq<char>, Seq<char>>::empty(),
    {
        let ret = Variables { entries: Vec::new() };
        assert(ret@ =~= Map::<Seq<char>, Seq<char>>::empty());
        ret
    }

    /// The position of `name`, if present.
    fn find(&self, name: &str) -> (ret: Option<usize>)
        requires
            self.wf(),
        ensures
            ret matches Some(i) ==> i < self.entries@.len() && self.entries@[i as int].0@ == name@,
            ret is None ==> !has_key(self.entries@, name@),
    {
        let mut i: usize = 0;
        while i < self.entries.len()
            invariant
                i <= self.entries@.len(),
                forall|j: int| 0 <= j < i ==> (#[trigger] self.entries@[j]).0@ != name@,
            decreases self.entries@.len() - i,
        {
            if str_eq(self.entries[i].0.as_str(), name) {
                return Some(i);
            }
            i = i + 1;
        }
        None
    }

    /// The value of `name`, if set.
    pub fn get(&self, name: &str) -> (ret: Option<String>)
        requires
            self.wf(),
        ensures
            ret is Some <==> self@.contains_key(name@),
            ret matches Some(v) ==> v@ == self@[name@],
    {
        match self.find(name) {
            Some(i) => {
                proof {
                    lemma_entry_at(self.entries@, i as int);
                }
                Some(self.entries[i].1.clone())
            },
            None => None,
        }
    }

    /// Gives `name` the value `value`.
    pub fn set(&mut self, name: String, value: String)
        requires
            old(self).wf(),
        ensures
            final(self).wf(),
            final(self)@ == old(self)@.insert(name@, value@),
    {
        let ghost es = self.entries@;
        let ghost k = name@;
        let ghost v = value@;
        match self.find(name.as_str()) {
            Some(i) => {
                self.entries.set(i, (name, value));
                proof {
                    let fs = self.entries@;
                    assert(unique_keys(fs)) by {
                        assert forall|a: int, b: int| 0 <= a < b < fs.len() implies (#[trigger] fs[a]).0@
                            != (#[trigger] fs[b]).0@ by {
                            assert(es[a].0@ != es[b].0@);
                        }
                    }
                    assert forall|q: Seq<char>| has_key(fs, q) <==> (has_key(es, q) || q == k) by {
                        if has_key(fs, q) {
                            let j = choose|j: int| 0 <= j < fs.len() && (#[trigger] fs[j]).0@ == q;
                            assert(es[j].0@ == q);
                        }
                        if has_key(es, q) {
                            let j = choose|j: int| 0 <= j < es.len() && (#[trigger] es[j]).0@ == q;
                            assert(fs[j].0@ == q);
                        }
                        if q == k {
                            assert(fs[i as int].0@ == q);
                        }
                    }
                    assert forall|q: Seq<char>| #[trigger] entry_map(fs).contains_key(q) implies entry_map(
                        fs,
                    )[q] == entry_map(es).insert(k, v)[q] by {
                        let j = choose|j: int| 0 <= j < fs.len() && (#[trigger] fs[j]).0@ == q;
                        lemma_entry_at(fs, j);
                        lemma_entry_at(es, j);
                    }
                    assert(entry_map(fs) =~= entry_map(es).insert(k, v));
                }
            },
            None => {
                self.entries.push((name, value));
                proof {
                    let fs = self.entries@;
                    assert(unique_keys(fs)) by {
                        assert forall|a: int, b: int| 0 <= a < b < fs.len() implies (#[trigger] fs[a]).0@
                            != (#[trigger] fs[b]).0@ by {
                            if b == es.len() {
                                assert(es[a].0@ != k);
                            }
                        }
                    }
                    assert forall|q: Seq<char>| has_key(fs, q) <==> (has_key(es, q) || q == k) by {
                        if has_key(fs, q) {
                            let j = choose|j: int| 0 <= j < fs.len() && (#[trigger] fs[j]).0@ == q;
                            if j < es.len() {
                                assert(es[j].0@ == q);
                            }
                        }
                        if has_key(es, q) {
                            let j = choose|j: int| 0 <= j < es.len() && (#[trigger] es[j]).0@ == q;
                            assert(fs[j].0@ == q);
                        }
                        if q == k {
                            assert(fs[es.len() as int].0@ == q);
                        }
                    }
                    assert forall|q: Seq<char>| #[trigger] entry_map(fs).contains_key(q) implies entry_map(
                        fs,
                    )[q] == entry_map(es).insert(k, v)[q] by {
                        let j = choose|j: int| 0 <= j < fs.len() && (#[trigger] fs[j]).0@ == q;
                        lemma_entry_at(fs, j);
                        if j < es.len() {
                            lemma_entry_at(es, j);
                        }
                    }
                    assert(entry_map(fs) =~= entry_map(es).insert(k, v));
                }
            },
        }
    }
}

/// Reading a name after setting it gives the value set, and setting one
/// name leaves the others alone.
pub proof fn lemma_get_after_set(m: Map<Seq<char>, Seq<char>>, k: Seq<char>, v: Seq<char>, other: Seq<char>)
    ensures
        m.insert(k, v).contains_key(k) && m.insert(k, v)[k] == v,
        other != k ==> (m.insert(k, v).contains_key(other) == m.contains_key(other)),
        other != k && m.contains_key(other) ==> m.insert(k, v)[other] == m[other],
{
}

} // verus!
