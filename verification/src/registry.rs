//! A store of named objects: the model of one kind of cluster resource.
//!
//! The cluster API keeps at most one object of a kind under a given name,
//! so the view of a [`Registry`] is a map from the object's name to the
//! object's mathematical view.  Create-or-update ("server-side apply")
//! becomes map insertion, which is what makes re-applying the same spec
//! idempotent.

use vstd::prelude::*;

verus! {

/// Named objects of one kind, each name held at most once.
pub struct Registry<V> {
    entries: Vec<(String, V)>,
}

spec fn map_of<V: View>(s: Seq<(String, V)>) -> Map<Seq<char>, V::V>
    decreases s.len(),
{
    if s.len() == 0 {
        Map::empty()
    } else {
        map_of(s.drop_last()).insert(s.last().0@, s.last().1@)
    }
}

spec fn distinct_keys<V>(s: Seq<(String, V)>) -> bool {
    forall|i: int, j: int| 0 <= i < j < s.len() ==> s[i].0@ != s[j].0@
}

impl<V: View> View for Registry<V> {
    type V = Map<Seq<char>, V::V>;

    closed spec fn view(&self) -> Map<Seq<char>, V::V> {
        map_of(self.entries@)
    }
}

proof fn lemma_distinct_drop_last<V>(s: Seq<(String, V)>)
    requires
        distinct_keys(s),
        s.len() > 0,
    ensures
        distinct_keys(s.drop_last()),
{
    assert forall|i: int, j: int|
        0 <= i < j < s.drop_last().len() implies s.drop_last()[i].0@ != s.drop_last()[j].0@ by {
        assert(s[i].0@ != s[j].0@);
    }
}

proof fn lemma_map_of_domain<V: View>(s: Seq<(String, V)>, k: Seq<char>)
    ensures
        map_of(s).contains_key(k) <==> (exists|i: int| 0 <= i < s.len() && s[i].0@ == k),
    decreases s.len(),
{
    if s.len() == 0 {
    } else {
        lemma_map_of_domain(s.drop_last(), k);
        if s.last().0@ == k {
            assert(s[s.len() - 1].0@ == k);
        } else {
            if map_of(s).contains_key(k) {
                let i = choose|i: int| 0 <= i < s.drop_last().len() && s.drop_last()[i].0@ == k;
                assert(s[i].0@ == k);
            }
            if exists|i: int| 0 <= i < s.len() && s[i].0@ == k {
                let i = choose|i: int| 0 <= i < s.len() && s[i].0@ == k;
                assert(i < s.len() - 1);
                assert(s.drop_last()[i].0@ == k);
            }
        }
    }
}

proof fn lemma_map_of_index<V: View>(s: Seq<(String, V)>, i: int)
    requires
        distinct_keys(s),
        0 <= i < s.len(),
    ensures
        map_of(s).contains_key(s[i].0@),
        map_of(s)[s[i].0@] == s[i].1@,
    decreases s.len(),
{
    if i == s.len() - 1 {
    } else {
        lemma_distinct_drop_last(s);
        lemma_map_of_index(s.drop_last(), i);
        assert(s.last().0@ != s[i].0@);
    }
}

proof fn lemma_map_of_update<V: View>(s: Seq<(String, V)>, i: int, name: String, v: V)
    requires
        distinct_keys(s),
        0 <= i < s.len(),
        s[i].0@ == name@,
    ensures
        map_of(s.update(i, (name, v))) == map_of(s).insert(name@, v@),
    decreases s.len(),
{
    let t = s.update(i, (name, v));
    if i == s.len() - 1 {
        assert(t.drop_last() =~= s.drop_last());
        assert(t.last() == (name, v));
        assert(map_of(s.drop_last()).insert(s.last().0@, s.last().1@).insert(name@, v@)
            =~= map_of(s.drop_last()).insert(name@, v@));
    } else {
        lemma_distinct_drop_last(s);
        assert(t.drop_last() =~= s.drop_last().update(i, (name, v)));
        lemma_map_of_update(s.drop_last(), i, name, v);
        assert(t.last() == s.last());
        assert(s.last().0@ != name@);
        assert(map_of(s.drop_last()).insert(name@, v@).insert(s.last().0@, s.last().1@)
            =~= map_of(s.drop_last()).insert(s.last().0@, s.last().1@).insert(name@, v@));
    }
}

proof fn lemma_map_of_len<V: View>(s: Seq<(String, V)>)
    requires
        distinct_keys(s),
    ensures
        map_of(s).dom().finite(),
        map_of(s).len() == s.len(),
    decreases s.len(),
{
    if s.len() == 0 {
    } else {
        lemma_distinct_drop_last(s);
        lemma_map_of_len(s.drop_last());
        lemma_map_of_domain(s.drop_last(), s.last().0@);
    }
}

impl<V: View> Registry<V> {
    /// Names are unique, as the cluster API guarantees for live objects.
    pub closed spec fn wf(&self) -> bool {
        distinct_keys(self.entries@)
    }

    /// An empty store.
    pub fn new() -> (r: Registry<V>)
        ensures
            r@ == Map::<Seq<char>, V::V>::empty(),
            r.wf(),
    {
        Registry { entries: Vec::new() }
    }

    fn index_of(&self, name: &String) -> (r: Option<usize>)
        ensures
            match r {
                Some(i) => i < self.entries@.len() && self.entries@[i as int].0@ == name@
                    && self@.contains_key(name@),
                None => !self@.contains_key(name@),
            },
    {
        let mut i: usize = 0;
        while i < self.entries.len()
            invariant
                i <= self.entries.len(),
                forall|j: int| 0 <= j < i ==> self.entries@[j].0@ != name@,
            decreases self.entries.len() - i,
        {
            if self.entries[i].0 == *name {
                proof {
                    lemma_map_of_domain(self.entries@, name@);
                }
                return Some(i);
            }
            i += 1;
        }
        proof {
            lemma_map_of_domain(self.entries@, name@);
        }
        None
    }

    /// Whether an object of this name exists.
    pub fn contains(&self, name: &String) -> (r: bool)
        ensures
            r == self@.contains_key(name@),
    {
        match self.index_of(name) {
            Some(_) => true,
            None => false,
        }
    }

    /// The object of this name, if it exists.
    pub fn get(&self, name: &String) -> (r: Option<&V>)
        requires
            self.wf(),
        ensures
            match r {
                Some(v) => self@.contains_key(name@) && v@ == self@[name@],
                None => !self@.contains_key(name@),
            },
    {
        match self.index_of(name) {
            Some(i) => {
                proof {
                    lemma_map_of_index(self.entries@, i as int);
                }
                Some(&self.entries[i].1)
            },
            None => None,
        }
    }

    /// Create the object or replace the one of the same name.
    pub fn upsert(&mut self, name: String, v: V)
        requires
            old(self).wf(),
        ensures
            final(self).wf(),
            final(self)@ == old(self)@.insert(name@, v@),
    {
        let idx = self.index_of(&name);
        match idx {
            Some(i) => {
                proof {
                    lemma_map_of_update(self.entries@, i as int, name, v);
                }
                self.entries[i] = (name, v);
                proof {
                    assert forall|a: int, b: int|
                        0 <= a < b < self.entries@.len()
                            implies self.entries@[a].0@ != self.entries@[b].0@ by {
                        assert(old(self).entries@[a].0@ != old(self).entries@[b].0@);
                    }
                }
            },
            None => {
                proof {
                    lemma_map_of_domain(self.entries@, name@);
                }
                self.entries.push((name, v));
                proof {
                    assert(self.entries@.drop_last() =~= old(self).entries@);
                    assert(self.entries@.last() == (name, v));
                    assert forall|a: int, b: int|
                        0 <= a < b < self.entries@.len()
                            implies self.entries@[a].0@ != self.entries@[b].0@ by {
                        if b < self.entries@.len() - 1 {
                            assert(old(self).entries@[a].0@ != old(self).entries@[b].0@);
                        } else {
                            assert(!(exists|j: int|
                                0 <= j < old(self).entries@.len()
                                    && old(self).entries@[j].0@ == name@));
                        }
                    }
                }
            },
        }
    }

    /// How many objects of this kind exist.
    pub fn len(&self) -> (r: usize)
        requires
            self.wf(),
        ensures
            r == self@.len(),
    {
        proof {
            lemma_map_of_len(self.entries@);
        }
        self.entries.len()
    }
}

} // verus!
