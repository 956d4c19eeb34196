use vstd::prelude::*;

use crate::text::same_text;

verus! {

/// The mapping that inserting each pair of `es` in turn produces: a later pair with
/// a name already present replaces the earlier value.
pub open spec fn map_of(es: Seq<(Seq<char>, Seq<char>)>) -> Map<Seq<char>, Seq<char>>
    decreases es.len(),
{
    if es.len() == 0 {
        Map::empty()
    } else {
        map_of(es.drop_last()).insert(es.last().0, es.last().1)
    }
}

/// No two pairs of `es` have the same name.
pub open spec fn names_unique(es: Seq<(Seq<char>, Seq<char>)>) -> bool {
    forall|i: int, j: int| 0 <= i < es.len() && 0 <= j < es.len() && i != j ==> es[i].0 != es[j].0
}

/// A name is mapped exactly when some pair carries it; with unique names, it is
/// mapped to that pair's value, and the mapping has one name per pair.
pub proof fn lemma_map_of(es: Seq<(Seq<char>, Seq<char>)>)
    ensures
        forall|k: Seq<char>| #[trigger]
            map_of(es).contains_key(k) <==> exists|i: int| 0 <= i < es.len() && es[i].0 == k,
        names_unique(es) ==> forall|i: int| 0 <= i < es.len() ==> #[trigger] map_of(es)[es[i].0] == es[i].1,
        map_of(es).dom().finite(),
        names_unique(es) ==> map_of(es).dom().len() == es.len(),
    decreases es.len(),
{
    if es.len() > 0 {
        let init = es.drop_last();
        lemma_map_of(init);
        assert forall|k: Seq<char>| #[trigger]
            map_of(es).contains_key(k) <==> exists|i: int| 0 <= i < es.len() && es[i].0 == k by {
            if map_of(es).contains_key(k) && k != es.last().0 {
                let i = choose|i: int| 0 <= i < init.len() && init[i].0 == k;
                assert(es[i].0 == k);
            }
            if exists|i: int| 0 <= i < es.len() && es[i].0 == k {
                let i = choose|i: int| 0 <= i < es.len() && es[i].0 == k;
                if i < init.len() {
                    assert(init[i].0 == k);
                }
            }
        }
        if names_unique(es) {
            assert(names_unique(init));
            assert forall|i: int| 0 <= i < es.len() implies #[trigger] map_of(es)[es[i].0] == es[i].1 by {
                if i < init.len() {
                    assert(init[i].0 == es[i].0);
                }
            }
            assert(!map_of(init).contains_key(es.last().0)) by {
                if map_of(init).contains_key(es.last().0) {
                    let i = choose|i: int| 0 <= i < init.len() && init[i].0 == es.last().0;
                    assert(es[i].0 == es[es.len() - 1].0);
                }
            }
        }
    }
}

/// Replacing the value of a pair whose name is unique changes the mapping at that name only.
pub proof fn lemma_map_of_update(es: Seq<(Seq<char>, Seq<char>)>, i: int, v: Seq<char>)
    requires
        names_unique(es),
        0 <= i < es.len(),
    ensures
        map_of(es.update(i, (es[i].0, v))) == map_of(es).insert(es[i].0, v),
    decreases es.len(),
{
    let k = es[i].0;
    let us = es.update(i, (k, v));
    let init = es.drop_last();
    if i == es.len() - 1 {
        assert(us.drop_last() =~= init);
        assert(map_of(us) =~= map_of(es).insert(k, v));
    } else {
        assert(us.drop_last() =~= init.update(i, (k, v)));
        assert(init[i].0 == k);
        lemma_map_of_update(init, i, v);
        assert(es.last().0 != k);
        assert(map_of(us) =~= map_of(es).insert(k, v));
    }
}

/// A mapping from header names to header values. Names are compared exactly, case
/// included; each name occurs once, and the pairs keep the order of first insertion.
#[derive(Debug, Clone)]
pub struct HeaderMap {
    entries: Vec<(String, String)>,
}

impl View for HeaderMap {
    type V = Map<Seq<char>, Seq<char>>;

    open spec fn view(&self) -> Map<Seq<char>, Seq<char>> {
        map_of(self.entries())
    }
}

impl HeaderMap {
    /// The name and value of each pair, in order.
    pub closed spec fn entries(&self) -> Seq<(Seq<char>, Seq<char>)> {
        self.entries@.map_values(|e: (String, String)| (e.0@, e.1@))
    }

    /// Each name occurs in one pair only.
    pub open spec fn wf(&self) -> bool {
        names_unique(self.entries())
    }

    /// An empty mapping.
    pub fn new() -> (r: HeaderMap)
        ensures
            r.wf(),
            r.entries().len() == 0,
            r@ == Map::<Seq<char>, Seq<char>>::empty(),
    {
        let r = HeaderMap { entries: Vec::new() };
        assert(r.entries() =~= Seq::empty());
        r
    }

    /// The number of names mapped.
    pub fn len(&self) -> (r: usize)
        requires
            self.wf(),
        ensures
            r == self.entries().len(),
            r == self@.len(),
    {
        proof {
            lemma_map_of(self.entries());
        }
        self.entries.len()
    }

    /// Maps `name` to `value`, replacing any value it had.
    pub fn insert(&mut self, name: String, value: String)
        requires
            old(self).wf(),
        ensures
            final(self).wf(),
            final(self)@ == old(self)@.insert(name@, value@),
            !old(self)@.contains_key(name@) ==> final(self).entries() == old(self).entries().push(
                (name@, value@),
            ),
            forall|i: int|
                0 <= i < old(self).entries().len() && #[trigger] old(self).entries()[i].0 == name@
                    ==> final(self).entries() == old(self).entries().update(i, (name@, value@)),
    {
        let ghost es = self.entries();
        let mut i: usize = 0;
        while i < self.entries.len()
            invariant
                self.entries() == es,
                old(self).entries() == es,
                names_unique(es),
                es.len() == self.entries@.len(),
                i <= es.len(),
                forall|j: int| 0 <= j < i ==> es[j].0 != name@,
            decreases es.len() - i,
        {
            let found = same_text(self.entries[i].0.as_str(), name.as_str());
            if found {
                let ghost k = es[i as int].0;
                assert(k == name@);
                self.entries.set(i, (name, value));
                proof {
                    assert(self.entries() =~= es.update(i as int, (k, value@)));
                    lemma_map_of_update(es, i as int, value@);
                    lemma_map_of(es);
                }
                return;
            }
            i += 1;
        }
        self.entries.push((name, value));
        proof {
            let ns = self.entries();
            assert(ns =~= es.push((name@, value@)));
            assert(ns.drop_last() =~= es);
        }
    }

    /// The value mapped to `name`, if any.
    pub fn get(&self, name: &str) -> (r: Option<&String>)
        requires
            self.wf(),
        ensures
            r is Some <==> self@.contains_key(name@),
            r matches Some(v) ==> v@ == self@[name@],
    {
        let ghost es = self.entries();
        let mut i: usize = 0;
        while i < self.entries.len()
            invariant
                self.entries() == es,
                names_unique(es),
                es.len() == self.entries@.len(),
                i <= es.len(),
                forall|j: int| 0 <= j < i ==> es[j].0 != name@,
            decreases es.len() - i,
        {
            if same_text(self.entries[i].0.as_str(), name) {
                assert(es[i as int].0 == name@);
                proof {
                    lemma_map_of(es);
                }
                return Some(&self.entries[i].1);
            }
            i += 1;
        }
        proof {
            lemma_map_of(es);
        }
        None
    }

    /// The number of pairs.
    pub fn pair_count(&self) -> (r: usize)
        ensures
            r == self.entries().len(),
    {
        self.entries.len()
    }

    /// The name of the pair at `i`.
    pub fn name_at(&self, i: usize) -> (r: &String)
        requires
            i < self.entries().len(),
        ensures
            r@ == self.entries()[i as int].0,
    {
        &self.entries[i].0
    }

    /// The value of the pair at `i`.
    pub fn value_at(&self, i: usize) -> (r: &String)
        requires
            i < self.entries().len(),
        ensures
            r@ == self.entries()[i as int].1,
    {
        &self.entries[i].1
    }
}

} // verus!
