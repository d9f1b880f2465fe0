// A map keyed by strings, used for the configuration tables (model system prompts,
// policy roles, SSH hosts) and for the TUI key bindings.
use vstd::prelude::*;
use crate::text::str_eq;

verus! {

/// Entries keyed by strings; no key occurs twice.
#[derive(Debug)]
pub struct StringMap<V> {
    entries: Vec<(String, V)>,
}

/// The map that a list of entries with distinct keys denotes.
pub open spec fn entries_view<V>(es: Seq<(String, V)>) -> Map<Seq<char>, V>
    decreases es.len(),
{
    if es.len() == 0 {
        Map::empty()
    } else {
        entries_view(es.drop_last()).insert(es.last().0@, es.last().1)
    }
}

/// No two entries share a key.
pub open spec fn keys_distinct<V>(es: Seq<(String, V)>) -> bool {
    forall|i: int, j: int| 0 <= i < j < es.len() ==> es[i].0@ != es[j].0@
}

proof fn lemma_entries_view_contains<V>(es: Seq<(String, V)>, k: Seq<char>)
    requires
        keys_distinct(es),
    ensures
        entries_view(es).contains_key(k) <==> exists|i: int| 0 <= i < es.len() && es[i].0@ == k,
        forall|i: int| 0 <= i < es.len() && es[i].0@ == k ==> entries_view(es)[k] == es[i].1,
    decreases es.len(),
{
    if es.len() > 0 {
        let p = es.drop_last();
        assert(keys_distinct(p)) by {
            assert forall|i: int, j: int| 0 <= i < j < p.len() implies p[i].0@ != p[j].0@ by {
                assert(p[i] == es[i] && p[j] == es[j]);
            }
        }
        lemma_entries_view_contains(p, k);
        assert forall|i: int| 0 <= i < es.len() && es[i].0@ == k implies entries_view(es)[k]
            == es[i].1 by {
            if i < es.len() - 1 {
                assert(p[i] == es[i]);
                assert(es[i].0@ != es[es.len() - 1].0@);
            }
        }
        if exists|i: int| 0 <= i < es.len() && es[i].0@ == k {
            let i = choose|i: int| 0 <= i < es.len() && es[i].0@ == k;
            if i < es.len() - 1 {
                assert(p[i] == es[i]);
            }
        }
        if exists|i: int| 0 <= i < p.len() && p[i].0@ == k {
            let i = choose|i: int| 0 <= i < p.len() && p[i].0@ == k;
            assert(p[i] == es[i]);
        }
    }
}

proof fn lemma_entries_view_update<V>(es: Seq<(String, V)>, i: int, e: (String, V))
    requires
        keys_distinct(es),
        0 <= i < es.len(),
        e.0@ == es[i].0@,
    ensures
        keys_distinct(es.update(i, e)),
        entries_view(es.update(i, e)) == entries_view(es).insert(e.0@, e.1),
{
    let u = es.update(i, e);
    assert(keys_distinct(u)) by {
        assert forall|a: int, b: int| 0 <= a < b < u.len() implies u[a].0@ != u[b].0@ by {
            assert(u[a].0@ == es[a].0@ && u[b].0@ == es[b].0@);
        }
    }
    lemma_entries_view_contains(es, e.0@);
    lemma_entries_view_contains(u, e.0@);
    assert(u[i] == e);
    assert(u[i].0@ == e.0@);
    assert(entries_view(u).contains_key(e.0@));
    assert(entries_view(u)[e.0@] == e.1);
    assert forall|k: Seq<char>| k != e.0@ implies (entries_view(u).contains_key(k)
        == entries_view(es).contains_key(k)) && (entries_view(es).contains_key(k)
        ==> entries_view(u)[k] == entries_view(es)[k]) by {
        lemma_entries_view_contains(es, k);
        lemma_entries_view_contains(u, k);
        if entries_view(es).contains_key(k) {
            let j = choose|j: int| 0 <= j < es.len() && es[j].0@ == k;
            assert(j != i);
            assert(u[j] == es[j]);
            assert(u[j].0@ == k);
            assert(entries_view(u).contains_key(k));
            assert(entries_view(u)[k] == u[j].1);
            assert(entries_view(es)[k] == es[j].1);
        }
        if entries_view(u).contains_key(k) {
            let j = choose|j: int| 0 <= j < u.len() && u[j].0@ == k;
            assert(j != i);
            assert(u[j] == es[j]);
            assert(es[j].0@ == k);
        }
    }
    let m2 = entries_view(es).insert(e.0@, e.1);
    assert forall|k: Seq<char>| #[trigger] entries_view(u).contains_key(k) <==> m2.contains_key(k) by {
        if k != e.0@ {
            lemma_entries_view_contains(es, k);
            lemma_entries_view_contains(u, k);
        }
    }
    assert forall|k: Seq<char>| #[trigger] entries_view(u).contains_key(k) implies entries_view(u)[k] == m2[k] by {
        if k != e.0@ {
            lemma_entries_view_contains(es, k);
            lemma_entries_view_contains(u, k);
        }
    }
    assert(entries_view(u) =~= m2);
}

impl<V> View for StringMap<V> {
    type V = Map<Seq<char>, V>;

    closed spec fn view(&self) -> Map<Seq<char>, V> {
        entries_view(self.entries@)
    }
}

impl<V> StringMap<V> {
    #[verifier::type_invariant]
    spec fn wf(self) -> bool {
        keys_distinct(self.entries@)
    }

    /// The entries in the order their keys were first inserted.
    pub closed spec fn entry_seq(&self) -> Seq<(String, V)> {
        self.entries@
    }

    /// The map with no entries.
    pub fn new() -> (m: Self)
        ensures
            m@ == Map::<Seq<char>, V>::empty(),
            m.entry_seq().len() == 0,
    {
        StringMap { entries: Vec::new() }
    }

    fn find(&self, k: &str) -> (r: Option<usize>)
        ensures
            match r {
                Some(i) => i < self.entries@.len() && self.entries@[i as int].0@ == k@,
                None => forall|i: int| 0 <= i < self.entries@.len() ==> self.entries@[i].0@ != k@,
            },
    {
        let mut i: usize = 0;
        while i < self.entries.len()
            invariant
                i <= self.entries@.len(),
                forall|j: int| 0 <= j < i ==> self.entries@[j].0@ != k@,
            decreases self.entries@.len() - i,
        {
            if str_eq(self.entries[i].0.as_str(), k) {
                return Some(i);
            }
            i = i + 1;
        }
        None
    }

    /// Whether the map has an entry for the key.
    pub fn contains_key(&self, k: &str) -> (r: bool)
        ensures
            r == self@.contains_key(k@),
    {
        proof {
            use_type_invariant(self);
            lemma_entries_view_contains(self.entries@, k@);
        }
        self.find(k).is_some()
    }

    /// The value stored for the key, if any.
    pub fn get(&self, k: &str) -> (r: Option<&V>)
        ensures
            match r {
                Some(v) => self@.contains_key(k@) && *v == self@[k@],
                None => !self@.contains_key(k@),
            },
    {
        proof {
            use_type_invariant(self);
            lemma_entries_view_contains(self.entries@, k@);
        }
        match self.find(k) {
            Some(i) => Some(&self.entries[i].1),
            None => None,
        }
    }

    /// Stores `v` under `k`, replacing any earlier value for `k`.
    pub fn insert(&mut self, k: String, v: V)
        ensures
            final(self)@ == old(self)@.insert(k@, v),
    {
        proof {
            use_type_invariant(&*self);
        }
        let found = self.find(k.as_str());
        let mut es: Vec<(String, V)> = Vec::new();
        std::mem::swap(&mut es, &mut self.entries);
        let ghost old_es = es@;
        match found {
            Some(i) => {
                proof {
                    lemma_entries_view_update(old_es, i as int, (k, v));
                }
                es.set(i, (k, v));
            },
            None => {
                es.push((k, v));
                proof {
                    let n = es@;
                    assert(n.drop_last() =~= old_es);
                    assert forall|a: int, b: int| 0 <= a < b < n.len() implies n[a].0@
                        != n[b].0@ by {
                        if b == n.len() - 1 {
                            assert(n[a] == old_es[a]);
                        } else {
                            assert(n[a] == old_es[a] && n[b] == old_es[b]);
                        }
                    }
                }
            },
        }
        self.entries = es;
    }

    /// The number of entries.
    pub fn len(&self) -> (r: usize)
        ensures
            r == self.entry_seq().len(),
    {
        self.entries.len()
    }

    /// The key of the entry at position `i`.
    pub fn key_at(&self, i: usize) -> (r: &String)
        requires
            i < self.entry_seq().len(),
        ensures
            *r == self.entry_seq()[i as int].0,
            self@.contains_key(r@),
    {
        proof {
            use_type_invariant(self);
            lemma_entries_view_contains(self.entries@, self.entries@[i as int].0@);
        }
        &self.entries[i].0
    }

    /// The value of the entry at position `i`.
    pub fn value_at(&self, i: usize) -> (r: &V)
        requires
            i < self.entry_seq().len(),
        ensures
            *r == self.entry_seq()[i as int].1,
            *r == self@[self.entry_seq()[i as int].0@],
    {
        proof {
            use_type_invariant(self);
            lemma_entries_view_contains(self.entries@, self.entries@[i as int].0@);
        }
        &self.entries[i].1
    }
}

impl StringMap<String> {
    /// A copy of a map of texts.
    pub fn duplicate(&self) -> (r: Self)
        ensures
            r@ == self@,
    {
        let mut out: StringMap<String> = StringMap::new();
        let mut i: usize = 0;
        proof {
            use_type_invariant(self);
        }
        while i < self.len()
            invariant
                i <= self.entry_seq().len(),
                keys_distinct(self.entry_seq()),
                out@ == entries_view(self.entry_seq().subrange(0, i as int)),
            decreases self.entry_seq().len() - i,
        {
            let k = self.key_at(i).clone();
            let v = self.value_at(i).clone();
            out.insert(k, v);
            proof {
                let es = self.entry_seq();
                assert(es.subrange(0, i + 1).drop_last() =~= es.subrange(0, i as int));
            }
            i = i + 1;
        }
        proof {
            assert(self.entry_seq().subrange(0, i as int) =~= self.entry_seq());
        }
        out
    }
}

} // verus!
