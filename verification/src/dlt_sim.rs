use vstd::prelude::*;

verus! {

/// The entry a scheme-A delegator publishes: its accumulator public key and
/// the setup parameters its accumulator was created under, both serialized.
pub struct DLTSimAccEntry {
    pub public_key: String,
    pub setup_params: String,
}

impl DLTSimAccEntry {
    pub fn new(public_key: String, setup_params: String) -> (r: DLTSimAccEntry)
        ensures
            r.public_key@ == public_key@,
            r.setup_params@ == setup_params@,
    {
        DLTSimAccEntry { public_key, setup_params }
    }
}

impl Clone for DLTSimAccEntry {
    /// Cloning preserves both fields.
    fn clone(&self) -> (r: Self)
        ensures
            r.public_key@ == self.public_key@,
            r.setup_params@ == self.setup_params@,
    {
        DLTSimAccEntry {
            public_key: self.public_key.clone(),
            setup_params: self.setup_params.clone(),
        }
    }
}

/// The published value under an id, the latest insertion winning.
pub open spec fn spec_lookup<T>(entries: Seq<(String, T)>, id: Seq<char>) -> Option<T>
    decreases entries.len(),
{
    if entries.len() == 0 {
        None
    } else if entries.last().0@ == id {
        Some(entries.last().1)
    } else {
        spec_lookup(entries.drop_last(), id)
    }
}

/// A process-local key directory standing in for a ledger: a list of
/// (id, published value) pairs. Writers insert during setup; readers look
/// ids up during issuance and verification.
pub struct DltSim<T> {
    entries: Vec<(String, T)>,
}

impl<T> View for DltSim<T> {
    type V = Seq<(String, T)>;

    closed spec fn view(&self) -> Seq<(String, T)> {
        self.entries@
    }
}

/// A fresh, empty directory.
pub fn new_dlt_sim<T>() -> (r: DltSim<T>)
    ensures
        r@ == Seq::<(String, T)>::empty(),
{
    let r = DltSim { entries: Vec::new() };
    proof {
        assert(r@ =~= Seq::<(String, T)>::empty());
    }
    r
}

impl<T> DltSim<T> {
    /// Publish a value under an id; a later insertion shadows an earlier one.
    pub fn insert(&mut self, id: String, value: T)
        ensures
            final(self)@ == old(self)@.push((id, value)),
    {
        self.entries.push((id, value));
    }

    /// Look an id up, the latest insertion winning.
    pub fn get(&self, id: &String) -> (r: Option<&T>)
        ensures
            match r {
                Some(v) => spec_lookup(self@, id@) == Some(*v),
                None => spec_lookup(self@, id@) is None,
            },
    {
        let ghost whole = self@;
        proof {
            assert(self@.take(self@.len() as int) =~= self@);
        }
        let mut i: usize = self.entries.len();
        while i > 0
            invariant
                0 <= i <= self@.len(),
                spec_lookup(self@, id@) == spec_lookup(self@.take(i as int), id@),
            decreases i,
        {
            i = i - 1;
            proof {
                assert(self@.take(i + 1).last() == self@[i as int]);
                assert(self@.take(i + 1).drop_last() =~= self@.take(i as int));
            }
            if self.entries[i].0 == *id {
                return Some(&self.entries[i].1);
            }
        }
        proof {
            assert(self@.take(0) =~= Seq::<(String, T)>::empty());
        }
        None
    }
}

impl<T: Clone> Clone for DltSim<T> {
    /// Cloning keeps the entries; what is known of each cloned value is what
    /// the element type's clone provides.
    fn clone(&self) -> (r: Self)
        ensures
            r@.len() == self@.len(),
            forall|i: int|
                0 <= i < self@.len() ==> (#[trigger] r@[i]).0@ == self@[i].0@ && cloned::<T>(
                    self@[i].1,
                    r@[i].1,
                ),
    {
        let mut entries: Vec<(String, T)> = Vec::new();
        let mut i: usize = 0;
        #[verifier::loop_isolation(false)]
        while i < self.entries.len()
            invariant
                0 <= i <= self@.len(),
                entries@.len() == i,
                forall|k: int|
                    0 <= k < i ==> (#[trigger] entries@[k]).0@ == self@[k].0@ && cloned::<T>(
                        self@[k].1,
                        entries@[k].1,
                    ),
            decreases self@.len() - i,
        {
            entries.push((self.entries[i].0.clone(), self.entries[i].1.clone()));
            i = i + 1;
        }
        DltSim { entries }
    }
}

} // verus!
