use vstd::prelude::*;
use crate::model::LockContention;

verus! {

/// Exclusive access to one resource. It is handed out by
/// `ResourceLockTable::acquire` and given back to `ResourceLockTable::release`.
#[derive(Debug)]
pub struct ScopedGuard {
    key: String,
}

impl ScopedGuard {
    /// The resource the guard gives access to.
    pub closed spec fn resource(self) -> Seq<char> {
        self.key@
    }

    /// The key of the resource the guard gives access to.
    pub fn key(&self) -> (r: &String)
        ensures
            r@ == self.resource(),
    {
        &self.key
    }
}

/// The resources that are held exclusively at the moment. A resource has
/// an entry while it is held and none otherwise.
#[derive(Debug)]
pub struct ResourceLockTable {
    held: Vec<String>,
}

impl View for ResourceLockTable {
    type V = Set<Seq<char>>;

    /// The keys of the resources that are held.
    closed spec fn view(&self) -> Set<Seq<char>> {
        Set::new(|key: Seq<char>| self.lists(key))
    }
}

impl ResourceLockTable {
    /// Whether the table has an entry for `key`.
    pub closed spec fn lists(self, key: Seq<char>) -> bool {
        exists|i: int| 0 <= i < self.held@.len() && (#[trigger] self.held@[i])@ == key
    }

    /// No resource has two entries.
    #[verifier::type_invariant]
    spec fn wf(self) -> bool {
        forall|i: int, j: int|
            0 <= i < j < self.held@.len() ==> (#[trigger] self.held@[i])@ != (
            #[trigger] self.held@[j])@
    }

    /// A table in which nothing is held.
    pub fn new() -> (r: ResourceLockTable)
        ensures
            r@ == Set::<Seq<char>>::empty(),
    {
        let r = ResourceLockTable { held: Vec::new() };
        assert(r@ =~= Set::<Seq<char>>::empty());
        r
    }

    fn position(&self, key: &String) -> (r: Option<usize>)
        ensures
            r.is_some() <==> self@.contains(key@),
            r.is_some() ==> r.unwrap() < self.held@.len() && self.held@[r.unwrap() as int]@
                == key@,
    {
        let mut i: usize = 0;
        while i < self.held.len()
            invariant
                i <= self.held@.len(),
                forall|j: int| 0 <= j < i ==> (#[trigger] self.held@[j])@ != key@,
            decreases self.held@.len() - i,
        {
            if self.held[i] == *key {
                return Some(i);
            }
            i += 1;
        }
        None
    }

    /// Whether the resource `key` is held.
    pub fn is_held(&self, key: &String) -> (r: bool)
        ensures
            r == self@.contains(key@),
    {
        self.position(key).is_some()
    }

    /// Whether nothing is held.
    pub fn is_empty(&self) -> (r: bool)
        ensures
            r == (self@ == Set::<Seq<char>>::empty()),
    {
        let r = self.held.len() == 0;
        proof {
            if r {
                assert(self@ =~= Set::<Seq<char>>::empty());
            } else {
                assert(self.lists(self.held@[0]@));
                assert(self@.contains(self.held@[0]@));
            }
        }
        r
    }

    /// Takes exclusive access to `key` if nobody holds it, and reports
    /// contention, changing nothing, if somebody does. Other keys are never
    /// in the way.
    pub fn acquire(&mut self, key: &String) -> (r: Result<ScopedGuard, LockContention>)
        ensures
            r.is_err() <==> old(self)@.contains(key@),
            r.is_err() ==> final(self)@ == old(self)@,
            r.is_ok() ==> r.unwrap().resource() == key@ && final(self)@ == old(self)@.insert(
                key@,
            ),
    {
        proof {
            use_type_invariant(&*self);
        }
        match self.position(key) {
            Some(_) => Err(LockContention),
            None => {
                let ghost before = self.held@;
                let mut held = Vec::new();
                std::mem::swap(&mut held, &mut self.held);
                held.push(key.clone());
                self.held = held;
                proof {
                    let after = self.held@;
                    assert forall|k: Seq<char>|
                        final(self)@.contains(k) == old(self)@.insert(key@).contains(k) by {
                        if old(self).lists(k) {
                            let i = choose|i: int| 0 <= i < before.len() && (#[trigger] before[i])@ == k;
                            assert(after[i]@ == k);
                        }
                        if k == key@ {
                            assert(after[before.len() as int]@ == k);
                        }
                    }
                    assert(final(self)@ =~= old(self)@.insert(key@));
                }
                Ok(ScopedGuard { key: key.clone() })
            },
        }
    }

    /// Gives back the access that `guard` stands for. Afterwards its
    /// resource is free; every other resource is as it was.
    pub fn release(&mut self, guard: ScopedGuard)
        ensures
            final(self)@ == old(self)@.remove(guard.resource()),
    {
        proof {
            use_type_invariant(&*self);
        }
        match self.position(&guard.key) {
            None => {
                assert(final(self)@ =~= old(self)@.remove(guard.resource()));
            },
            Some(at) => {
                let ghost before = self.held@;
                let mut held = Vec::new();
                std::mem::swap(&mut held, &mut self.held);
                held.remove(at);
                self.held = held;
                proof {
                    let after = self.held@;
                    assert forall|k: Seq<char>|
                        final(self)@.contains(k) == old(self)@.remove(guard.resource()).contains(
                            k,
                        ) by {
                        if final(self).lists(k) {
                            let i = choose|i: int| 0 <= i < after.len() && (#[trigger] after[i])@ == k;
                            if i < at {
                                assert(before[i]@ == k);
                            } else {
                                assert(before[i + 1]@ == k);
                            }
                        }
                        if old(self).lists(k) && k != guard.resource() {
                            let i = choose|i: int| 0 <= i < before.len() && (#[trigger] before[i])@ == k;
                            if i < at {
                                assert(after[i]@ == k);
                            } else {
                                assert(after[i - 1]@ == k);
                            }
                        }
                    }
                    assert(final(self)@ =~= old(self)@.remove(guard.resource()));
                }
            },
        }
    }
}

} // verus!
