use vstd::prelude::*;

use crate::errors::DelegationError;
use crate::retention::seq_contains;
use crate::text::strs;

verus! {

/// The exact set of accumulated scalars, each in its serialized form. A
/// positive accumulator admits each element once: adding a present element
/// and removing an absent one are errors.
pub struct InMemoryState {
    elems: Vec<String>,
}

impl View for InMemoryState {
    type V = Seq<Seq<char>>;

    closed spec fn view(&self) -> Seq<Seq<char>> {
        strs(self.elems@)
    }
}

impl InMemoryState {
    /// No element occurs twice.
    pub open spec fn wf(&self) -> bool {
        forall|i: int, j: int| 0 <= i < j < self@.len() ==> self@[i] != self@[j]
    }

    pub fn new() -> (r: InMemoryState)
        ensures
            r@ == Seq::<Seq<char>>::empty(),
            r.wf(),
    {
        let r = InMemoryState { elems: Vec::new() };
        proof {
            assert(r@ =~= Seq::<Seq<char>>::empty());
        }
        r
    }

    /// Whether an element is present.
    pub fn has(&self, element: &String) -> (r: bool)
        ensures
            r == seq_contains(self@, element@),
    {
        crate::retention::contains_string(&self.elems, element)
    }

    /// Add an element; fails if it is already present, changing nothing.
    pub fn add(&mut self, element: String) -> (r: Result<(), DelegationError>)
        requires
            old(self).wf(),
        ensures
            final(self).wf(),
            match r {
                Ok(()) => !seq_contains(old(self)@, element@) && final(self)@ == old(self)@.push(
                    element@,
                ),
                Err(e) => e == DelegationError::AlreadyPresent && seq_contains(
                    old(self)@,
                    element@,
                ) && final(self)@ == old(self)@,
            },
    {
        if crate::retention::contains_string(&self.elems, &element) {
            return Err(DelegationError::AlreadyPresent);
        }
        let ghost before = self@;
        self.elems.push(element);
        proof {
            assert(self@ =~= before.push(element@));
        }
        Ok(())
    }

    /// Remove an element; fails if it is absent, changing nothing.
    pub fn remove(&mut self, element: &String) -> (r: Result<(), DelegationError>)
        requires
            old(self).wf(),
        ensures
            final(self).wf(),
            match r {
                Ok(()) => seq_contains(old(self)@, element@) && (exists|i: int|
                    0 <= i < old(self)@.len() && old(self)@[i] == element@ && final(self)@ == old(
                        self,
                    )@.remove(i)) && !seq_contains(final(self)@, element@),
                Err(e) => e == DelegationError::Absent && !seq_contains(old(self)@, element@)
                    && final(self)@ == old(self)@,
            },
    {
        let ghost before = self@;
        let mut i: usize = 0;
        while i < self.elems.len()
            invariant
                0 <= i <= self.elems@.len(),
                self@ == before,
                before == old(self)@,
                old(self).wf(),
                self.elems@.len() == before.len(),
                forall|k: int| 0 <= k < i ==> before[k] != element@,
            decreases self.elems@.len() - i,
        {
            if self.elems[i] == *element {
                proof {
                    assert(before[i as int] == element@);
                }
                self.elems.remove(i);
                proof {
                    assert(self@ =~= before.remove(i as int));
                    assert(self@.len() == before.len() - 1);
                    assert forall|k: int| 0 <= k < i implies self@[k] == before[k] by {
                        assert(before.remove(i as int)[k] == before[k]);
                    }
                    assert forall|k: int| i <= k < self@.len() implies self@[k] == before[k
                        + 1] by {
                        assert(before.remove(i as int)[k] == before[k + 1]);
                    }
                    assert forall|a: int, b: int|
                        0 <= a < b < self@.len() implies self@[a] != self@[b] by {
                        if b < i {
                            assert(self@[a] == before[a] && self@[b] == before[b]);
                        } else if a < i {
                            assert(self@[a] == before[a] && self@[b] == before[b + 1]);
                        } else {
                            assert(self@[a] == before[a + 1] && self@[b] == before[b + 1]);
                        }
                    }
                    assert forall|k: int| 0 <= k < self@.len() implies self@[k] != element@ by {
                        if k < i {
                            assert(self@[k] == before[k]);
                        } else {
                            assert(self@[k] == before[k + 1]);
                            assert(i < k + 1 < before.len());
                            assert(before[i as int] != before[k + 1]);
                        }
                    }
                }
                return Ok(());
            }
            i = i + 1;
        }
        Err(DelegationError::Absent)
    }
}

} // verus!
