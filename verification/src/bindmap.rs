//! A small mapping from `Bind` keys to copyable values, kept as an
//! association list with unique keys. It replaces a hash map so that every
//! lookup and mutation carries an exact contract over a `Map` view.

use vstd::prelude::*;
use crate::binds::Bind;

verus! {

/// The mathematical map described by an association list: later entries win,
/// though under `unique_keys` no key occurs twice.
pub open spec fn al_map<V>(s: Seq<(Bind, V)>) -> Map<Bind, V>
    decreases s.len(),
{
    if s.len() == 0 {
        Map::empty()
    } else {
        al_map(s.drop_last()).insert(s.last().0, s.last().1)
    }
}

/// No two entries share a key.
pub open spec fn unique_keys<V>(s: Seq<(Bind, V)>) -> bool {
    forall|i: int, j: int| 0 <= i < j < s.len() ==> s[i].0 != s[j].0
}

/// A key is in the map exactly when some entry holds it.
pub proof fn lemma_al_map_dom<V>(s: Seq<(Bind, V)>, k: Bind)
    ensures
        al_map(s).contains_key(k) <==> exists|i: int| 0 <= i < s.len() && s[i].0 == k,
    decreases s.len(),
{
    if s.len() > 0 {
        lemma_al_map_dom(s.drop_last(), k);
        if s.last().0 == k {
            assert(s[s.len() - 1].0 == k);
        } else if al_map(s).contains_key(k) {
            let i = choose|i: int| 0 <= i < s.drop_last().len() && s.drop_last()[i].0 == k;
            assert(s[i].0 == k);
        } else if exists|i: int| 0 <= i < s.len() && s[i].0 == k {
            let i = choose|i: int| 0 <= i < s.len() && s[i].0 == k;
            assert(s.drop_last()[i].0 == k);
        }
    }
}

/// Under unique keys, the map sends each entry's key to that entry's value.
pub proof fn lemma_al_map_index<V>(s: Seq<(Bind, V)>, i: int)
    requires
        unique_keys(s),
        0 <= i < s.len(),
    ensures
        al_map(s).contains_key(s[i].0),
        al_map(s)[s[i].0] == s[i].1,
    decreases s.len(),
{
    if i < s.len() - 1 {
        lemma_al_map_index(s.drop_last(), i);
        assert(s.drop_last()[i] == s[i]);
        assert(s.last().0 != s[i].0);
    }
}

/// Under unique keys, the map has exactly one element per entry.
pub proof fn lemma_al_map_len<V>(s: Seq<(Bind, V)>)
    requires
        unique_keys(s),
    ensures
        al_map(s).dom().finite(),
        al_map(s).dom().len() == s.len(),
    decreases s.len(),
{
    if s.len() > 0 {
        lemma_al_map_len(s.drop_last());
        lemma_al_map_dom(s.drop_last(), s.last().0);
        assert(forall|i: int|
            0 <= i < s.drop_last().len() ==> s.drop_last()[i] == s[i]);
        assert(!al_map(s.drop_last()).contains_key(s.last().0));
    }
}

/// Removing entry `i` removes exactly its key from the map.
pub proof fn lemma_al_map_remove<V>(s: Seq<(Bind, V)>, i: int)
    requires
        unique_keys(s),
        0 <= i < s.len(),
    ensures
        al_map(s.remove(i)) == al_map(s).remove(s[i].0),
    decreases s.len(),
{
    lemma_al_map_dom(s.drop_last(), s[i].0);
    if i == s.len() - 1 {
        assert(s.remove(i) =~= s.drop_last());
        assert(!al_map(s.drop_last()).contains_key(s[i].0));
        assert(al_map(s.drop_last()) =~= al_map(s).remove(s[i].0));
    } else {
        assert(s.remove(i).drop_last() =~= s.drop_last().remove(i));
        assert(s.remove(i).last() == s.last());
        lemma_al_map_remove(s.drop_last(), i);
        assert(s.drop_last()[i] == s[i]);
        assert(s.last().0 != s[i].0);
        assert(al_map(s.remove(i)) == al_map(s.drop_last().remove(i)).insert(
            s.last().0,
            s.last().1,
        ));
        assert(al_map(s.drop_last()).remove(s[i].0).insert(s.last().0, s.last().1) =~= al_map(
            s.drop_last(),
        ).insert(s.last().0, s.last().1).remove(s[i].0));
    }
}

/// A mapping from binds to values, with unique keys.
pub struct BindMap<V> {
    pub entries: Vec<(Bind, V)>,
}

impl<V> View for BindMap<V> {
    type V = Seq<(Bind, V)>;

    open spec fn view(&self) -> Seq<(Bind, V)> {
        self.entries@
    }
}

impl<V: Copy> BindMap<V> {
    /// The mathematical map this association list holds.
    pub open spec fn as_map(&self) -> Map<Bind, V> {
        al_map(self@)
    }

    /// Well-formed: no key occurs twice.
    pub open spec fn wf(&self) -> bool {
        unique_keys(self@)
    }

    /// An empty map.
    pub fn new() -> (r: Self)
        ensures
            r.wf(),
            r@ == Seq::<(Bind, V)>::empty(),
            r.as_map() == Map::<Bind, V>::empty(),
    {
        BindMap { entries: Vec::new() }
    }

    /// Number of entries; under `wf` also the size of the map.
    pub fn len(&self) -> (r: usize)
        ensures
            r == self@.len(),
    {
        self.entries.len()
    }

    /// Position of the entry holding `k`, if any.
    fn index_of(&self, k: Bind) -> (r: Option<usize>)
        ensures
            match r {
                Some(i) => i < self@.len() && self@[i as int].0 == k,
                None => forall|i: int| 0 <= i < self@.len() ==> self@[i].0 != k,
            },
    {
        let mut i: usize = 0;
        while i < self.entries.len()
            invariant
                i <= self@.len(),
                forall|j: int| 0 <= j < i ==> self@[j].0 != k,
            decreases self@.len() - i,
        {
            if self.entries[i].0 == k {
                return Some(i);
            }
            i = i + 1;
        }
        None
    }

    /// Whether the map holds `k`.
    pub fn contains_key(&self, k: Bind) -> (r: bool)
        ensures
            r == self.as_map().contains_key(k),
    {
        proof {
            lemma_al_map_dom(self@, k);
        }
        self.index_of(k).is_some()
    }

    /// Pure lookup: the value bound to `k`, if any. Absent keys are not an
    /// error.
    pub fn get(&self, k: Bind) -> (r: Option<V>)
        requires
            self.wf(),
        ensures
            r == (if self.as_map().contains_key(k) {
                Some(self.as_map()[k])
            } else {
                None::<V>
            }),
    {
        proof {
            lemma_al_map_dom(self@, k);
        }
        match self.index_of(k) {
            Some(i) => {
                proof {
                    lemma_al_map_index(self@, i as int);
                }
                Some(self.entries[i].1)
            },
            None => None,
        }
    }

    /// Upsert: bind `k` to `v`, replacing any earlier binding. Every entry
    /// afterwards is either the new pair or one already present.
    pub fn insert(&mut self, k: Bind, v: V)
        requires
            old(self).wf(),
        ensures
            final(self).wf(),
            final(self).as_map() == old(self).as_map().insert(k, v),
            final(self)@.len() <= old(self)@.len() + 1,
            forall|i: int|
                0 <= i < final(self)@.len() ==> (final(self)@[i] == (k, v) || old(
                    self,
                )@.contains(final(self)@[i])),
    {
        proof {
            lemma_al_map_dom(self@, k);
        }
        let ghost s0 = self@;
        match self.index_of(k) {
            Some(i) => {
                proof {
                    lemma_al_map_remove(s0, i as int);
                }
                self.entries.remove(i);
                self.entries.push((k, v));
                proof {
                    assert(self@.drop_last() =~= s0.remove(i as int));
                    assert(self.as_map() =~= al_map(s0).insert(k, v));
                    lemma_al_map_dom(s0.remove(i as int), k);
                    assert forall|n: int|
                        0 <= n < self@.len() implies (self@[n] == (k, v) || s0.contains(
                        self@[n],
                    )) by {
                        if n < self@.len() - 1 {
                            let m = if n < i as int {
                                n
                            } else {
                                n + 1
                            };
                            assert(self@[n] == s0[m]);
                        }
                    }
                }
            },
            None => {
                self.entries.push((k, v));
                proof {
                    assert(self@.drop_last() =~= s0);
                    assert forall|n: int|
                        0 <= n < self@.len() implies (self@[n] == (k, v) || s0.contains(
                        self@[n],
                    )) by {
                        if n < self@.len() - 1 {
                            assert(self@[n] == s0[n]);
                        }
                    }
                }
            },
        }
    }

    /// Remove the binding of `k` if one exists; otherwise leave the map
    /// unchanged.
    pub fn remove(&mut self, k: Bind)
        requires
            old(self).wf(),
        ensures
            final(self).wf(),
            final(self).as_map() == old(self).as_map().remove(k),
            final(self)@.len() <= old(self)@.len(),
            forall|i: int| 0 <= i < final(self)@.len() ==> old(self)@.contains(final(self)@[i]),
    {
        proof {
            lemma_al_map_dom(self@, k);
        }
        let ghost s0 = self@;
        match self.index_of(k) {
            Some(i) => {
                proof {
                    lemma_al_map_remove(s0, i as int);
                }
                self.entries.remove(i);
                proof {
                    assert forall|n: int| 0 <= n < self@.len() implies s0.contains(self@[n]) by {
                        let m = if n < i as int {
                            n
                        } else {
                            n + 1
                        };
                        assert(self@[n] == s0[m]);
                    }
                }
            },
            None => {
                proof {
                    assert(!al_map(s0).contains_key(k));
                    assert(self.as_map() =~= al_map(s0).remove(k));
                    assert forall|n: int| 0 <= n < self@.len() implies s0.contains(self@[n]) by {
                        assert(self@[n] == s0[n]);
                    }
                }
            },
        }
    }
}

} // verus!
