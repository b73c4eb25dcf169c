use vstd::prelude::*;

use crate::accumulator_state::InMemoryState;
use crate::accumulator_utils::{
    acc_after_add, acc_after_remove, acc_canonical, acc_decodes, acc_init_of,
    acc_membership_check, acc_pk_of, acc_removable, acc_witness_of, accumulator_add,
    accumulator_init, accumulator_remove, accumulator_witness, check_removable, check_scalar,
    check_secret_key, check_setup_params, params_decodes, scalar_decodes, sk_decodes,
};
use crate::errors::DelegationError;
use crate::retention::seq_contains;
use crate::text::strs;

verus! {

/// The mathematical content of an accumulator manager.
pub struct AccumulatorManagerRep {
    pub secret_key: Seq<char>,
    pub params: Seq<char>,
    pub value: Seq<char>,
    pub elems: Seq<Seq<char>>,
}

/// The accumulator value after a list of elements is accumulated in order.
pub open spec fn acc_after_add_seq(value: Seq<char>, elems: Seq<Seq<char>>, sk: Seq<char>) -> Seq<
    char,
>
    decreases elems.len(),
{
    if elems.len() == 0 {
        value
    } else {
        acc_after_add_seq(acc_after_add(value, elems[0], sk), elems.drop_first(), sk)
    }
}

/// The accumulator value after a list of elements is removed in order.
pub open spec fn acc_after_remove_seq(
    value: Seq<char>,
    elems: Seq<Seq<char>>,
    sk: Seq<char>,
) -> Seq<char>
    decreases elems.len(),
{
    if elems.len() == 0 {
        value
    } else {
        acc_after_remove_seq(acc_after_remove(value, elems[0], sk), elems.drop_first(), sk)
    }
}

/// The first position of `x` in `s`; `s.len()` when absent.
pub open spec fn first_index_of(s: Seq<Seq<char>>, x: Seq<char>) -> int
    decreases s.len(),
{
    if s.len() == 0 {
        0
    } else if s[0] == x {
        0
    } else {
        1 + first_index_of(s.drop_first(), x)
    }
}

/// `s` with the first occurrence of `x` dropped.
pub open spec fn remove_first(s: Seq<Seq<char>>, x: Seq<char>) -> Seq<Seq<char>> {
    s.remove(first_index_of(s, x))
}

/// The state after a list of elements is removed in order, each taking out
/// its first occurrence.
pub open spec fn remove_seq(s: Seq<Seq<char>>, elems: Seq<Seq<char>>) -> Seq<Seq<char>>
    decreases elems.len(),
{
    if elems.len() == 0 {
        s
    } else {
        remove_seq(remove_first(s, elems[0]), elems.drop_first())
    }
}

/// The first problem a batch addition runs into, scanning in order: an
/// element that is no scalar, or one already present in the state or
/// earlier in the batch.
pub open spec fn batch_add_error(
    state: Seq<Seq<char>>,
    elems: Seq<Seq<char>>,
    i: int,
) -> Option<DelegationError>
    decreases elems.len() - i,
    when 0 <= i <= elems.len()
{
    if i >= elems.len() {
        None
    } else if !scalar_decodes(elems[i]) {
        Some(DelegationError::Deserialize)
    } else if seq_contains(state, elems[i]) || seq_contains(elems.take(i), elems[i]) {
        Some(DelegationError::AlreadyPresent)
    } else {
        batch_add_error(state, elems, i + 1)
    }
}

/// The first problem a batch removal runs into, scanning in order: an
/// element that is no scalar, one absent from the state once the earlier
/// batch elements are taken out, or the degenerate element that cannot be
/// removed.
pub open spec fn batch_remove_error(
    state: Seq<Seq<char>>,
    elems: Seq<Seq<char>>,
    sk: Seq<char>,
    i: int,
) -> Option<DelegationError>
    decreases elems.len() - i,
    when 0 <= i <= elems.len()
{
    if i >= elems.len() {
        None
    } else if !scalar_decodes(elems[i]) {
        Some(DelegationError::Deserialize)
    } else if !seq_contains(state, elems[i]) || seq_contains(elems.take(i), elems[i]) {
        Some(DelegationError::Absent)
    } else if !acc_removable(elems[i], sk) {
        Some(DelegationError::DegenerateScalar)
    } else {
        batch_remove_error(state, elems, sk, i + 1)
    }
}

/// The first problem computing a batch of witnesses runs into, scanning in
/// order: an element that is no scalar, or the degenerate element that has
/// no witness.
pub open spec fn witness_batch_error(
    elems: Seq<Seq<char>>,
    sk: Seq<char>,
    i: int,
) -> Option<DelegationError>
    decreases elems.len() - i,
    when 0 <= i <= elems.len()
{
    if i >= elems.len() {
        None
    } else if !scalar_decodes(elems[i]) {
        Some(DelegationError::Deserialize)
    } else if !acc_removable(elems[i], sk) {
        Some(DelegationError::DegenerateScalar)
    } else {
        witness_batch_error(elems, sk, i + 1)
    }
}

/// The manager of one delegator's positive accumulator: it owns the secret
/// key, the current value, and the exact state of accumulated scalars.
/// All scalars pass through their serialized base64url form.
pub struct AccumulatorManager {
    secret_key: String,
    params: String,
    value: String,
    state: InMemoryState,
}

impl View for AccumulatorManager {
    type V = AccumulatorManagerRep;

    closed spec fn view(&self) -> AccumulatorManagerRep {
        AccumulatorManagerRep {
            secret_key: self.secret_key@,
            params: self.params@,
            value: self.value@,
            elems: self.state@,
        }
    }
}

impl AccumulatorManager {
    /// The stored key material decodes, the value is canonically encoded,
    /// every accumulated element decodes as a scalar, and the state holds
    /// no duplicates.
    pub closed spec fn wf(&self) -> bool {
        &&& sk_decodes(self@.secret_key)
        &&& params_decodes(self@.params)
        &&& acc_decodes(self@.value)
        &&& acc_canonical(self@.value)
        &&& (forall|k: int| 0 <= k < self@.elems.len() ==> scalar_decodes(#[trigger] self@.elems[k]))
        &&& self.state.wf()
    }

    /// Start a fresh accumulator at the identity value derived from the
    /// setup parameters.
    pub fn new(secret_key: String, params: String) -> (r: Result<
        AccumulatorManager,
        DelegationError,
    >)
        ensures
            match r {
                Ok(m) => {
                    &&& sk_decodes(secret_key@) && params_decodes(params@)
                    &&& m.wf()
                    &&& m@ == (AccumulatorManagerRep {
                        secret_key: secret_key@,
                        params: params@,
                        value: acc_init_of(params@),
                        elems: Seq::<Seq<char>>::empty(),
                    })
                },
                Err(e) => e == DelegationError::Deserialize && (!sk_decodes(secret_key@)
                    || !params_decodes(params@)),
            },
    {
        if !check_secret_key(&secret_key) {
            return Err(DelegationError::Deserialize);
        }
        if !check_setup_params(&params) {
            return Err(DelegationError::Deserialize);
        }
        let value = accumulator_init(&params);
        Ok(AccumulatorManager { secret_key, params, value, state: InMemoryState::new() })
    }

    /// The serialized current accumulator value, canonically encoded.
    pub fn clone_accumulator(&self) -> (r: Result<String, DelegationError>)
        requires
            self.wf(),
        ensures
            r matches Ok(v) && v@ == self@.value && acc_decodes(self@.value) && acc_canonical(
                self@.value,
            ),
    {
        Ok(self.value.clone())
    }

    /// Accumulate one element; fails `AlreadyPresent` on a duplicate and
    /// `Deserialize` on a string that is no scalar, changing nothing. For a
    /// removable element, removing it again restores the value: the last
    /// clause of the success case carries the inverse law.
    pub fn add_element(&mut self, element: String) -> (r: Result<(), DelegationError>)
        requires
            old(self).wf(),
        ensures
            final(self).wf(),
            final(self)@.secret_key == old(self)@.secret_key,
            final(self)@.params == old(self)@.params,
            match r {
                Ok(()) => {
                    &&& !seq_contains(old(self)@.elems, element@) && scalar_decodes(element@)
                    &&& final(self)@.value == acc_after_add(
                        old(self)@.value,
                        element@,
                        old(self)@.secret_key,
                    )
                    &&& final(self)@.elems == old(self)@.elems.push(element@)
                    &&& (acc_removable(element@, old(self)@.secret_key) ==> acc_after_remove(
                        final(self)@.value,
                        element@,
                        old(self)@.secret_key,
                    ) == old(self)@.value)
                },
                Err(e) => {
                    &&& final(self)@ == old(self)@
                    &&& (e == DelegationError::AlreadyPresent || e == DelegationError::Deserialize)
                    &&& (e == DelegationError::AlreadyPresent <==> seq_contains(
                        old(self)@.elems,
                        element@,
                    ))
                    &&& (e == DelegationError::Deserialize <==> !seq_contains(
                        old(self)@.elems,
                        element@,
                    ) && !scalar_decodes(element@))
                },
            },
    {
        if self.state.has(&element) {
            return Err(DelegationError::AlreadyPresent);
        }
        if !check_scalar(&element) {
            return Err(DelegationError::Deserialize);
        }
        let new_value = accumulator_add(&self.value, &element, &self.secret_key);
        self.value = new_value;
        let ghost before = self.state@;
        match self.state.add(element) {
            Ok(()) => {
                proof {
                    assert forall|k: int|
                        0 <= k < self@.elems.len() implies scalar_decodes(
                        #[trigger] self@.elems[k],
                    ) by {
                        assert(before == old(self)@.elems);
                        if k < before.len() {
                            assert(self@.elems[k] == before[k]);
                            assert(scalar_decodes(old(self)@.elems[k]));
                        } else {
                            assert(self@.elems[k] == before.push(element@)[k]);
                            assert(self@.elems[k] == element@);
                        }
                    }
                }
                Ok(())
            },
            Err(_) => vstd::pervasive::unreached(),
        }
    }

    /// Accumulate a batch atomically: if any element is no scalar, is
    /// already present, or repeats inside the batch, nothing is added.
    #[verifier::loop_isolation(false)]
    pub fn add_elements(&mut self, elements: &Vec<String>) -> (r: Result<(), DelegationError>)
        requires
            old(self).wf(),
        ensures
            final(self).wf(),
            final(self)@.secret_key == old(self)@.secret_key,
            final(self)@.params == old(self)@.params,
            match r {
                Ok(()) => {
                    &&& batch_add_error(old(self)@.elems, strs(elements@), 0) is None
                    &&& final(self)@.value == acc_after_add_seq(
                        old(self)@.value,
                        strs(elements@),
                        old(self)@.secret_key,
                    )
                    &&& final(self)@.elems == old(self)@.elems + strs(elements@)
                },
                Err(e) => final(self)@ == old(self)@ && batch_add_error(
                    old(self)@.elems,
                    strs(elements@),
                    0,
                ) == Some(e),
            },
    {
        let ghost es = strs(elements@);
        let mut i: usize = 0;
        while i < elements.len()
            invariant
                0 <= i <= elements@.len(),
                batch_add_error(self@.elems, es, 0) == batch_add_error(self@.elems, es, i as int),
                forall|k: int|
                    0 <= k < i ==> scalar_decodes(#[trigger] es[k]) && !seq_contains(
                        self@.elems,
                        es[k],
                    ) && !seq_contains(es.take(k), es[k]),
            decreases elements@.len() - i,
        {
            if !check_scalar(&elements[i]) {
                return Err(DelegationError::Deserialize);
            }
            if self.state.has(&elements[i]) {
                return Err(DelegationError::AlreadyPresent);
            }
            let mut j: usize = 0;
            while j < i
                invariant
                    0 <= j <= i < elements@.len(),
                    forall|k: int| 0 <= k < j ==> es[k] != es[i as int],
                decreases i - j,
            {
                if elements[j] == elements[i] {
                    proof {
                        assert(es.take(i as int)[j as int] == es[i as int]);
                    }
                    return Err(DelegationError::AlreadyPresent);
                }
                j = j + 1;
            }
            proof {
                assert(!seq_contains(es.take(i as int), es[i as int])) by {
                    assert(forall|k: int|
                        0 <= k < i ==> #[trigger] es.take(i as int)[k] == es[k]);
                }
                assert(batch_add_error(self@.elems, es, i as int) == batch_add_error(
                    self@.elems,
                    es,
                    i + 1,
                ));
            }
            i = i + 1;
        }
        let ghost start = self@;
        proof {
            assert(es.take(0) =~= Seq::<Seq<char>>::empty());
        }
        let mut k: usize = 0;
        while k < elements.len()
            invariant
                0 <= k <= elements@.len(),
                self@.secret_key == start.secret_key,
                self@.params == start.params,
                self.wf(),
                self@.value == acc_after_add_seq(start.value, es.take(k as int), start.secret_key),
                self@.elems == start.elems + es.take(k as int),
                forall|t: int|
                    0 <= t < elements@.len() ==> scalar_decodes(#[trigger] es[t]) && !seq_contains(
                        start.elems,
                        es[t],
                    ) && !seq_contains(es.take(t), es[t]),
            decreases elements@.len() - k,
        {
            let ghost before = self@;
            proof {
                assert(scalar_decodes(es[k as int]));
                assert(!seq_contains(start.elems, es[k as int]));
                assert(!seq_contains(es.take(k as int), es[k as int]));
                assert(!seq_contains(self@.elems, es[k as int])) by {
                    if seq_contains(self@.elems, es[k as int]) {
                        let idx = choose|idx: int|
                            0 <= idx < self@.elems.len() && self@.elems[idx] == es[k as int];
                        if idx < start.elems.len() {
                            assert(start.elems[idx] == es[k as int]);
                        } else {
                            assert(es.take(k as int)[idx - start.elems.len()] == es[k as int]);
                        }
                    }
                }
            }
            let new_value = accumulator_add(&self.value, &elements[k], &self.secret_key);
            self.value = new_value;
            match self.state.add(elements[k].clone()) {
                Ok(()) => {},
                Err(_) => { return vstd::pervasive::unreached(); },
            }
            proof {
                lemma_add_seq_snoc(start.value, es, start.secret_key, k as int);
                assert(self@.elems =~= start.elems + es.take(k + 1));
            }
            k = k + 1;
        }
        proof {
            assert(es.take(es.len() as int) =~= es);
        }
        Ok(())
    }

    /// Remove one element; fails `Absent` when it was never accumulated,
    /// `Deserialize` on a string that is no scalar, and `DegenerateScalar`
    /// on the element that cannot be removed, changing nothing.
    pub fn remove_element(&mut self, element: &String) -> (r: Result<(), DelegationError>)
        requires
            old(self).wf(),
        ensures
            final(self).wf(),
            final(self)@.secret_key == old(self)@.secret_key,
            final(self)@.params == old(self)@.params,
            match r {
                Ok(()) => {
                    &&& seq_contains(old(self)@.elems, element@) && scalar_decodes(element@)
                    &&& acc_removable(element@, old(self)@.secret_key)
                    &&& final(self)@.value == acc_after_remove(
                        old(self)@.value,
                        element@,
                        old(self)@.secret_key,
                    )
                    &&& final(self)@.elems == remove_first(old(self)@.elems, element@)
                },
                Err(e) => {
                    &&& final(self)@ == old(self)@
                    &&& (e == DelegationError::Absent || e == DelegationError::Deserialize || e
                        == DelegationError::DegenerateScalar)
                    &&& (e == DelegationError::Absent <==> !seq_contains(
                        old(self)@.elems,
                        element@,
                    ))
                    &&& (e == DelegationError::Deserialize <==> seq_contains(
                        old(self)@.elems,
                        element@,
                    ) && !scalar_decodes(element@))
                    &&& (e == DelegationError::DegenerateScalar <==> seq_contains(
                        old(self)@.elems,
                        element@,
                    ) && scalar_decodes(element@) && !acc_removable(
                        element@,
                        old(self)@.secret_key,
                    ))
                },
            },
    {
        if !self.state.has(element) {
            return Err(DelegationError::Absent);
        }
        if !check_scalar(element) {
            return Err(DelegationError::Deserialize);
        }
        if !check_removable(element, &self.secret_key) {
            return Err(DelegationError::DegenerateScalar);
        }
        let new_value = accumulator_remove(&self.value, element, &self.secret_key);
        self.value = new_value;
        let ghost before = self.state@;
        match self.state.remove(element) {
            Ok(()) => {
                proof {
                    let i = choose|i: int|
                        0 <= i < before.len() && before[i] == element@ && self.state@
                            == before.remove(i);
                    lemma_first_index_unique(before, element@, i);
                }
                Ok(())
            },
            Err(_) => vstd::pervasive::unreached(),
        }
    }

    /// Remove a batch atomically: if any element is no scalar, is absent,
    /// repeats inside the batch, or is the degenerate element, nothing is
    /// removed.
    #[verifier::loop_isolation(false)]
    pub fn remove_elements(&mut self, elements: &Vec<String>) -> (r: Result<(), DelegationError>)
        requires
            old(self).wf(),
        ensures
            final(self).wf(),
            final(self)@.secret_key == old(self)@.secret_key,
            final(self)@.params == old(self)@.params,
            match r {
                Ok(()) => {
                    &&& batch_remove_error(
                        old(self)@.elems,
                        strs(elements@),
                        old(self)@.secret_key,
                        0,
                    ) is None
                    &&& final(self)@.value == acc_after_remove_seq(
                        old(self)@.value,
                        strs(elements@),
                        old(self)@.secret_key,
                    )
                    &&& final(self)@.elems == remove_seq(old(self)@.elems, strs(elements@))
                },
                Err(e) => final(self)@ == old(self)@ && batch_remove_error(
                    old(self)@.elems,
                    strs(elements@),
                    old(self)@.secret_key,
                    0,
                ) == Some(e),
            },
    {
        let ghost es = strs(elements@);
        let mut i: usize = 0;
        while i < elements.len()
            invariant
                0 <= i <= elements@.len(),
                batch_remove_error(self@.elems, es, self@.secret_key, 0) == batch_remove_error(
                    self@.elems,
                    es,
                    self@.secret_key,
                    i as int,
                ),
                forall|k: int|
                    0 <= k < i ==> scalar_decodes(#[trigger] es[k]) && seq_contains(
                        self@.elems,
                        es[k],
                    ) && !seq_contains(es.take(k), es[k]) && acc_removable(
                        es[k],
                        self@.secret_key,
                    ),
            decreases elements@.len() - i,
        {
            if !check_scalar(&elements[i]) {
                return Err(DelegationError::Deserialize);
            }
            if !self.state.has(&elements[i]) {
                return Err(DelegationError::Absent);
            }
            let mut j: usize = 0;
            while j < i
                invariant
                    0 <= j <= i < elements@.len(),
                    forall|k: int| 0 <= k < j ==> es[k] != es[i as int],
                decreases i - j,
            {
                if elements[j] == elements[i] {
                    proof {
                        assert(es.take(i as int)[j as int] == es[i as int]);
                    }
                    return Err(DelegationError::Absent);
                }
                j = j + 1;
            }
            proof {
                assert(!seq_contains(es.take(i as int), es[i as int])) by {
                    assert(forall|k: int|
                        0 <= k < i ==> #[trigger] es.take(i as int)[k] == es[k]);
                }
            }
            if !check_removable(&elements[i], &self.secret_key) {
                return Err(DelegationError::DegenerateScalar);
            }
            proof {
                assert(batch_remove_error(self@.elems, es, self@.secret_key, i as int)
                    == batch_remove_error(self@.elems, es, self@.secret_key, i + 1));
            }
            i = i + 1;
        }
        let ghost start = self@;
        proof {
            assert(es.take(0) =~= Seq::<Seq<char>>::empty());
        }
        let mut k: usize = 0;
        while k < elements.len()
            invariant
                0 <= k <= elements@.len(),
                self@.secret_key == start.secret_key,
                self@.params == start.params,
                self.wf(),
                self@.value == acc_after_remove_seq(
                    start.value,
                    es.take(k as int),
                    start.secret_key,
                ),
                self@.elems == remove_seq(start.elems, es.take(k as int)),
                forall|t: int|
                    0 <= t < elements@.len() ==> scalar_decodes(#[trigger] es[t]) && seq_contains(
                        start.elems,
                        es[t],
                    ) && !seq_contains(es.take(t), es[t]) && acc_removable(
                        es[t],
                        start.secret_key,
                    ),
                forall|t: int|
                    k <= t < elements@.len() ==> seq_contains(self@.elems, #[trigger] es[t]),
            decreases elements@.len() - k,
        {
            let ghost before = self@;
            proof {
                assert(scalar_decodes(es[k as int]));
                assert(seq_contains(self@.elems, es[k as int]));
                assert(acc_removable(es[k as int], start.secret_key));
            }
            if !self.state.has(&elements[k]) {
                return vstd::pervasive::unreached();
            }
            let new_value = accumulator_remove(&self.value, &elements[k], &self.secret_key);
            self.value = new_value;
            match self.state.remove(&elements[k]) {
                Ok(()) => {},
                Err(_) => { return vstd::pervasive::unreached(); },
            }
            proof {
                let i0 = choose|i0: int|
                    0 <= i0 < before.elems.len() && before.elems[i0] == es[k as int] && self@.elems
                        == before.elems.remove(i0);
                lemma_first_index_unique(before.elems, es[k as int], i0);
                lemma_remove_seq_snoc(start.elems, es, k as int);
                lemma_remove_add_seq_snoc(start.value, es, start.secret_key, k as int);
                assert forall|t: int|
                    k + 1 <= t < elements@.len() implies seq_contains(
                    self@.elems,
                    #[trigger] es[t],
                ) by {
                    assert(seq_contains(before.elems, es[t]));
                    let w = choose|w: int|
                        0 <= w < before.elems.len() && before.elems[w] == es[t];
                    assert(before.elems[first_index_of(before.elems, es[k as int])]
                        == es[k as int]);
                    assert(es[t] != es[k as int]) by {
                        if es[t] == es[k as int] {
                            assert(es.take(t)[k as int] == es[t]);
                        }
                    }
                    let fi = first_index_of(before.elems, es[k as int]);
                    if w < fi {
                        assert(self@.elems[w] == before.elems[w]);
                        assert(seq_contains(self@.elems, es[t]));
                    } else {
                        assert(w != fi);
                        assert(self@.elems[w - 1] == before.elems[w]);
                        assert(seq_contains(self@.elems, es[t]));
                    }
                }
            }
            k = k + 1;
        }
        proof {
            assert(es.take(es.len() as int) =~= es);
        }
        Ok(())
    }

    /// Compute the membership witness for an element under the current
    /// value; fails `Deserialize` on a string that is no scalar and
    /// `DegenerateScalar` on the element that has no witness.
    pub fn compute_witness(&self, element: &String) -> (r: Result<String, DelegationError>)
        requires
            self.wf(),
        ensures
            match r {
                Ok(w) => {
                    &&& scalar_decodes(element@)
                    &&& acc_removable(element@, self@.secret_key)
                    &&& w@ == acc_witness_of(self@.value, element@, self@.secret_key)
                    &&& acc_membership_check(
                        self@.value,
                        element@,
                        w@,
                        acc_pk_of(self@.secret_key, self@.params),
                        self@.params,
                    ) == Some(true)
                },
                Err(e) => {
                    &&& (e == DelegationError::Deserialize <==> !scalar_decodes(element@))
                    &&& (e == DelegationError::DegenerateScalar <==> scalar_decodes(element@)
                        && !acc_removable(element@, self@.secret_key))
                    &&& (e == DelegationError::Deserialize || e
                        == DelegationError::DegenerateScalar)
                },
            },
    {
        if !check_scalar(element) {
            return Err(DelegationError::Deserialize);
        }
        if !check_removable(element, &self.secret_key) {
            return Err(DelegationError::DegenerateScalar);
        }
        Ok(accumulator_witness(&self.value, element, &self.secret_key, &self.params))
    }

    /// Compute the membership witnesses for a batch, in input order; the
    /// first element that is no scalar or has no witness aborts the batch.
    #[verifier::loop_isolation(false)]
    pub fn compute_witnesses(&self, elements: &Vec<String>) -> (r: Result<
        Vec<String>,
        DelegationError,
    >)
        requires
            self.wf(),
        ensures
            match r {
                Ok(ws) => {
                    &&& witness_batch_error(strs(elements@), self@.secret_key, 0) is None
                    &&& strs(ws@).len() == elements@.len()
                    &&& (forall|k: int|
                        0 <= k < elements@.len() ==> strs(ws@)[k] == acc_witness_of(
                            self@.value,
                            #[trigger] strs(elements@)[k],
                            self@.secret_key,
                        ))
                    &&& (forall|k: int|
                        0 <= k < elements@.len() ==> acc_membership_check(
                            self@.value,
                            #[trigger] strs(elements@)[k],
                            strs(ws@)[k],
                            acc_pk_of(self@.secret_key, self@.params),
                            self@.params,
                        ) == Some(true))
                },
                Err(e) => witness_batch_error(strs(elements@), self@.secret_key, 0) == Some(e),
            },
    {
        let ghost es = strs(elements@);
        let mut ws: Vec<String> = Vec::new();
        let mut i: usize = 0;
        while i < elements.len()
            invariant
                0 <= i <= elements@.len(),
                ws@.len() == i,
                witness_batch_error(es, self@.secret_key, 0) == witness_batch_error(
                    es,
                    self@.secret_key,
                    i as int,
                ),
                forall|k: int|
                    0 <= k < i ==> strs(ws@)[k] == acc_witness_of(
                        self@.value,
                        #[trigger] es[k],
                        self@.secret_key,
                    ),
                forall|k: int|
                    0 <= k < i ==> acc_membership_check(
                        self@.value,
                        #[trigger] es[k],
                        strs(ws@)[k],
                        acc_pk_of(self@.secret_key, self@.params),
                        self@.params,
                    ) == Some(true),
            decreases elements@.len() - i,
        {
            proof {
                assert(es[i as int] == elements@[i as int]@);
            }
            match self.compute_witness(&elements[i]) {
                Ok(w) => {
                    ws.push(w);
                    proof {
                        assert(witness_batch_error(es, self@.secret_key, i as int)
                            == witness_batch_error(es, self@.secret_key, i + 1));
                    }
                },
                Err(e) => {
                    proof {
                        assert(witness_batch_error(es, self@.secret_key, i as int) == Some(e));
                    }
                    return Err(e);
                },
            }
            i = i + 1;
        }
        Ok(ws)
    }
}

/// Folding one more element into the accumulated value.
proof fn lemma_add_seq_snoc(value: Seq<char>, es: Seq<Seq<char>>, sk: Seq<char>, k: int)
    requires
        0 <= k < es.len(),
    ensures
        acc_after_add_seq(value, es.take(k + 1), sk) == acc_after_add(
            acc_after_add_seq(value, es.take(k), sk),
            es[k],
            sk,
        ),
    decreases k,
{
    if k == 0 {
        assert(es.take(1)[0] == es[0]);
        assert(es.take(1).drop_first() =~= Seq::<Seq<char>>::empty());
        assert(es.take(0) =~= Seq::<Seq<char>>::empty());
        assert(acc_after_add_seq(value, Seq::<Seq<char>>::empty(), sk) == value);
        assert(acc_after_add_seq(acc_after_add(value, es[0], sk), Seq::<Seq<char>>::empty(), sk)
            == acc_after_add(value, es[0], sk));
    } else {
        lemma_add_seq_snoc(acc_after_add(value, es[0], sk), es.drop_first(), sk, k - 1);
        assert(es.take(k + 1)[0] == es[0]);
        assert(es.take(k)[0] == es[0]);
        assert(es.take(k + 1).drop_first() =~= es.drop_first().take(k));
        assert(es.take(k).drop_first() =~= es.drop_first().take(k - 1));
        assert(es.drop_first()[k - 1] == es[k]);
    }
}

/// Folding one more element out of the accumulated value.
proof fn lemma_remove_add_seq_snoc(value: Seq<char>, es: Seq<Seq<char>>, sk: Seq<char>, k: int)
    requires
        0 <= k < es.len(),
    ensures
        acc_after_remove_seq(value, es.take(k + 1), sk) == acc_after_remove(
            acc_after_remove_seq(value, es.take(k), sk),
            es[k],
            sk,
        ),
    decreases k,
{
    if k == 0 {
        assert(es.take(1)[0] == es[0]);
        assert(es.take(1).drop_first() =~= Seq::<Seq<char>>::empty());
        assert(es.take(0) =~= Seq::<Seq<char>>::empty());
        assert(acc_after_remove_seq(value, Seq::<Seq<char>>::empty(), sk) == value);
        assert(acc_after_remove_seq(
            acc_after_remove(value, es[0], sk),
            Seq::<Seq<char>>::empty(),
            sk,
        ) == acc_after_remove(value, es[0], sk));
    } else {
        lemma_remove_add_seq_snoc(acc_after_remove(value, es[0], sk), es.drop_first(), sk, k - 1);
        assert(es.take(k + 1)[0] == es[0]);
        assert(es.take(k)[0] == es[0]);
        assert(es.take(k + 1).drop_first() =~= es.drop_first().take(k));
        assert(es.take(k).drop_first() =~= es.drop_first().take(k - 1));
        assert(es.drop_first()[k - 1] == es[k]);
    }
}

/// Removing one more element from the state.
proof fn lemma_remove_seq_snoc(s: Seq<Seq<char>>, es: Seq<Seq<char>>, k: int)
    requires
        0 <= k < es.len(),
    ensures
        remove_seq(s, es.take(k + 1)) == remove_first(remove_seq(s, es.take(k)), es[k]),
    decreases k,
{
    if k == 0 {
        assert(es.take(1)[0] == es[0]);
        assert(es.take(1).drop_first() =~= Seq::<Seq<char>>::empty());
        assert(es.take(0) =~= Seq::<Seq<char>>::empty());
        assert(remove_seq(s, Seq::<Seq<char>>::empty()) == s);
        assert(remove_seq(remove_first(s, es[0]), Seq::<Seq<char>>::empty()) == remove_first(
            s,
            es[0],
        ));
    } else {
        lemma_remove_seq_snoc(remove_first(s, es[0]), es.drop_first(), k - 1);
        assert(es.take(k + 1)[0] == es[0]);
        assert(es.take(k)[0] == es[0]);
        assert(es.take(k + 1).drop_first() =~= es.drop_first().take(k));
        assert(es.take(k).drop_first() =~= es.drop_first().take(k - 1));
        assert(es.drop_first()[k - 1] == es[k]);
    }
}

/// Removing an element that was just added restores the state: at the
/// exact-state level, `remove` is the inverse of `add`.
pub proof fn lemma_remove_undoes_add(s: Seq<Seq<char>>, x: Seq<char>)
    requires
        !seq_contains(s, x),
    ensures
        remove_first(s.push(x), x) == s,
    decreases s.len(),
{
    lemma_first_index_of_absent_push(s, x);
    assert(s.push(x).remove(s.len() as int) =~= s);
}

/// An element absent from `s` first occurs in `s.push(x)` at the end.
proof fn lemma_first_index_of_absent_push(s: Seq<Seq<char>>, x: Seq<char>)
    requires
        !seq_contains(s, x),
    ensures
        first_index_of(s.push(x), x) == s.len(),
    decreases s.len(),
{
    if s.len() == 0 {
        assert(s.push(x)[0] == x);
    } else {
        assert(s.push(x)[0] == s[0]);
        assert(s[0] != x);
        assert(s.push(x).drop_first() =~= s.drop_first().push(x));
        assert(!seq_contains(s.drop_first(), x)) by {
            if seq_contains(s.drop_first(), x) {
                let i = choose|i: int|
                    0 <= i < s.drop_first().len() && s.drop_first()[i] == x;
                assert(s[i + 1] == x);
            }
        }
        lemma_first_index_of_absent_push(s.drop_first(), x);
    }
}

/// In a duplicate-free state, the position of an element is unique, so any
/// occurrence is the first one.
proof fn lemma_first_index_unique(s: Seq<Seq<char>>, x: Seq<char>, i: int)
    requires
        0 <= i < s.len(),
        s[i] == x,
        forall|a: int, b: int| 0 <= a < b < s.len() ==> s[a] != s[b],
    ensures
        first_index_of(s, x) == i,
    decreases i,
{
    if i == 0 {
    } else {
        assert(s[0] != s[i]);
        assert(s.drop_first()[i - 1] == s[i]);
        assert(forall|a: int, b: int|
            0 <= a < b < s.drop_first().len() ==> #[trigger] s.drop_first()[a]
                != #[trigger] s.drop_first()[b]);
        lemma_first_index_unique(s.drop_first(), x, i - 1);
    }
}

} // verus!
