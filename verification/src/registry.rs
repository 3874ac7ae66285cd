//! The registry of GPU resources: each set of resources is registered once,
//! under an identifier that the application chooses, and found again by it.

use vstd::prelude::*;

verus! {

/// Resources of type `R` by identifier. No identifier is registered twice.
pub struct Registry<R> {
    ids: Vec<String>,
    resources: Vec<R>,
}

impl<R> Registry<R> {
    /// The registry is in order: it holds a set of resources for each
    /// identifier, and no identifier twice.
    pub closed spec fn wf(&self) -> bool {
        &&& self.ids@.len() == self.resources@.len()
        &&& forall|i: int, j: int|
            0 <= i < j < self.ids@.len() ==> (#[trigger] self.ids@[i])@ != (
            #[trigger] self.ids@[j])@
    }

    /// `id` is registered at place `i`.
    spec fn is_at(&self, id: Seq<char>, i: int) -> bool {
        0 <= i < self.ids@.len() && self.ids@[i]@ == id
    }

    /// What is registered, by identifier.
    pub closed spec fn view(&self) -> Map<Seq<char>, R> {
        Map::new(
            |id: Seq<char>| exists|i: int| self.is_at(id, i),
            |id: Seq<char>| self.resources@[choose|i: int| self.is_at(id, i)],
        )
    }

    /// The registry with nothing in it.
    pub fn new() -> (registry: Registry<R>)
        ensures
            registry.wf(),
            registry@ == Map::<Seq<char>, R>::empty(),
    {
        let registry = Registry { ids: Vec::new(), resources: Vec::new() };
        assert(registry@ =~= Map::<Seq<char>, R>::empty());
        registry
    }

    /// The place at which `id` is registered, if it is.
    fn position(&self, id: &String) -> (place: Option<usize>)
        ensures
            match place {
                Some(i) => self.is_at(id@, i as int),
                None => forall|i: int| !self.is_at(id@, i),
            },
    {
        let n: usize = self.ids.len();
        let mut i: usize = 0;
        while i < n
            invariant
                n == self.ids@.len(),
                i <= n,
                forall|k: int| 0 <= k < i ==> !self.is_at(id@, k),
            decreases n - i,
        {
            if self.ids[i] == *id {
                return Some(i);
            }
            i += 1;
        }
        None
    }

    /// Tells whether something is registered under `id`.
    pub fn contains(&self, id: &str) -> (found: bool)
        requires
            self.wf(),
        ensures
            found == self@.dom().contains(id@),
    {
        let key = String::from_str(id);
        self.position(&key).is_some()
    }

    /// What is registered under `id`, if anything.
    pub fn get(&self, id: &str) -> (found: Option<&R>)
        requires
            self.wf(),
        ensures
            found is Some <==> self@.dom().contains(id@),
            found matches Some(r) ==> *r == self@[id@],
    {
        let key = String::from_str(id);
        match self.position(&key) {
            Some(i) => {
                proof {
                    let k = choose|k: int| self.is_at(id@, k);
                    assert(k == i);
                }
                Some(&self.resources[i])
            },
            None => None,
        }
    }

    /// Registers `resources` under `id`, unless something is registered
    /// under it already: then nothing changes and `resources` come back.
    pub fn register(&mut self, id: &str, resources: R) -> (result: Result<(), R>)
        requires
            old(self).wf(),
        ensures
            final(self).wf(),
            result is Ok <==> !old(self)@.dom().contains(id@),
            result is Ok ==> final(self)@ == old(self)@.insert(id@, resources),
            result matches Err(r) ==> r == resources && final(self)@ == old(self)@,
    {
        let key = String::from_str(id);
        if self.position(&key).is_some() {
            return Err(resources);
        }
        let ghost before = *self;
        self.ids.push(key);
        self.resources.push(resources);
        proof {
            let n = before.ids@.len() as int;
            assert(self.ids@[n]@ == id@);
            assert forall|i: int, j: int| 0 <= i < j < self.ids@.len() implies (
            #[trigger] self.ids@[i])@ != (#[trigger] self.ids@[j])@ by {
                if j == n {
                    assert(!before.is_at(id@, i));
                } else {
                    assert(before.ids@[i]@ != before.ids@[j]@);
                }
            }
            assert(self.wf());
            assert(self.is_at(id@, n));
            assert forall|other: Seq<char>| #[trigger]
                self@.dom().contains(other) == before@.insert(id@, resources).dom().contains(
                    other,
                ) by {
                if exists|i: int| self.is_at(other, i) {
                    let i = choose|i: int| self.is_at(other, i);
                    if i < n {
                        assert(before.is_at(other, i));
                    }
                }
                if exists|i: int| before.is_at(other, i) {
                    let i = choose|i: int| before.is_at(other, i);
                    assert(self.is_at(other, i));
                }
            }
            assert forall|other: Seq<char>| #[trigger]
                self@.dom().contains(other) implies self@[other] == before@.insert(
                id@,
                resources,
            )[other] by {
                let i = choose|i: int| self.is_at(other, i);
                if other == id@ {
                    if i < n {
                        assert(before.is_at(id@, i));
                    }
                    assert(i == n);
                } else {
                    assert(i < n);
                    assert(before.is_at(other, i));
                    let j = choose|j: int| before.is_at(other, j);
                    assert(i == j);
                }
            }
            assert(self@ =~= before@.insert(id@, resources));
        }
        Ok(())
    }

    /// Puts `resources` in the place of what is registered under `id` and
    /// hands out what was there. Where nothing is registered under `id`,
    /// nothing changes and `resources` come back.
    pub fn swap(&mut self, id: &str, resources: R) -> (result: Result<R, R>)
        requires
            old(self).wf(),
        ensures
            final(self).wf(),
            result is Ok <==> old(self)@.dom().contains(id@),
            result matches Ok(replaced) ==> replaced == old(self)@[id@] && final(self)@ == old(
                self,
            )@.insert(id@, resources),
            result matches Err(r) ==> r == resources && final(self)@ == old(self)@,
    {
        let key = String::from_str(id);
        let i: usize = match self.position(&key) {
            Some(i) => i,
            None => {
                return Err(resources);
            },
        };
        let ghost before = *self;
        self.resources.push(resources);
        let replaced = self.resources.swap_remove(i);
        proof {
            let k = choose|k: int| before.is_at(id@, k);
            assert(k == i);
            assert(self.resources@ =~= before.resources@.update(i as int, resources));
            assert forall|other: Seq<char>| #[trigger]
                self@.dom().contains(other) == before@.insert(id@, resources).dom().contains(
                    other,
                ) by {
                if exists|j: int| self.is_at(other, j) {
                    let j = choose|j: int| self.is_at(other, j);
                    assert(before.is_at(other, j));
                }
                if exists|j: int| before.is_at(other, j) {
                    let j = choose|j: int| before.is_at(other, j);
                    assert(self.is_at(other, j));
                }
                if other == id@ {
                    assert(self.is_at(other, i as int));
                }
            }
            assert forall|other: Seq<char>| #[trigger]
                self@.dom().contains(other) implies self@[other] == before@.insert(
                id@,
                resources,
            )[other] by {
                let j = choose|j: int| self.is_at(other, j);
                assert(before.is_at(other, j));
                if other == id@ {
                    assert(j == i);
                } else {
                    let j2 = choose|j2: int| before.is_at(other, j2);
                    assert(j == j2);
                }
            }
            assert(self@ =~= before@.insert(id@, resources));
        }
        Ok(replaced)
    }

    /// The number of registered identifiers.
    pub fn len(&self) -> (n: usize)
        requires
            self.wf(),
        ensures
            n == self@.dom().len(),
            self@.dom().finite(),
    {
        proof {
            self.lemma_dom_len();
        }
        self.ids.len()
    }

    /// The registry holds as many identifiers as places.
    proof fn lemma_dom_len(&self)
        requires
            self.wf(),
        ensures
            self@.dom().finite(),
            self@.dom().len() == self.ids@.len(),
    {
        let keys = self.ids@.map_values(|s: String| s@);
        assert(keys.no_duplicates());
        keys.unique_seq_to_set();
        assert(self@.dom() =~= keys.to_set()) by {
            assert forall|id: Seq<char>| self@.dom().contains(id) == keys.to_set().contains(
                id,
            ) by {
                if self@.dom().contains(id) {
                    let i = choose|i: int| self.is_at(id, i);
                    assert(keys[i] == id);
                }
                if keys.to_set().contains(id) {
                    let i = choose|i: int| 0 <= i < keys.len() && keys[i] == id;
                    assert(self.is_at(id, i));
                }
            }
        }
    }
}

} // verus!
