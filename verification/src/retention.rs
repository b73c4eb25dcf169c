use vstd::prelude::*;

use crate::text::strs;

verus! {

/// Whether the string `x` occurs in `a`.
pub open spec fn seq_contains(a: Seq<Seq<char>>, x: Seq<char>) -> bool {
    exists|i: int| 0 <= i < a.len() && a[i] == x
}

/// The values whose permission at the same index is allowed, in order.
/// Selective disclosure drops a permission together with everything that
/// stands at its index: this is the common core of both schemes' pruning.
pub open spec fn kept<T>(values: Seq<T>, perms: Seq<Seq<char>>, allowed: Seq<Seq<char>>) -> Seq<T>
    decreases perms.len(),
{
    if perms.len() == 0 {
        Seq::<T>::empty()
    } else {
        let rest = kept(values.drop_first(), perms.drop_first(), allowed);
        if seq_contains(allowed, perms[0]) {
            seq![values[0]] + rest
        } else {
            rest
        }
    }
}

/// The indices below `i` whose permission is not allowed, in ascending order.
pub open spec fn removed_upto(perms: Seq<Seq<char>>, allowed: Seq<Seq<char>>, i: int) -> Seq<int>
    decreases i,
    when 0 <= i <= perms.len()
{
    if i <= 0 {
        Seq::<int>::empty()
    } else {
        removed_upto(perms, allowed, i - 1) + if seq_contains(allowed, perms[i - 1]) {
            Seq::<int>::empty()
        } else {
            seq![i - 1]
        }
    }
}

/// How many permissions survive pruning.
pub open spec fn count_kept(perms: Seq<Seq<char>>, allowed: Seq<Seq<char>>) -> nat
    decreases perms.len(),
{
    if perms.len() == 0 {
        0nat
    } else {
        (if seq_contains(allowed, perms[0]) {
            1nat
        } else {
            0nat
        }) + count_kept(perms.drop_first(), allowed)
    }
}

/// Pruning any value list in lock-step with the permissions keeps as many
/// values as permissions survive.
pub proof fn lemma_kept_len<T>(values: Seq<T>, perms: Seq<Seq<char>>, allowed: Seq<Seq<char>>)
    requires
        values.len() == perms.len(),
    ensures
        kept(values, perms, allowed).len() == count_kept(perms, allowed),
    decreases perms.len(),
{
    if perms.len() > 0 {
        lemma_kept_len(values.drop_first(), perms.drop_first(), allowed);
    }
}

/// Pruning extends one step at a time.
pub proof fn lemma_kept_snoc<T>(
    values: Seq<T>,
    perms: Seq<Seq<char>>,
    allowed: Seq<Seq<char>>,
    i: int,
)
    requires
        values.len() == perms.len(),
        0 <= i < perms.len(),
    ensures
        kept(values.take(i + 1), perms.take(i + 1), allowed) == kept(
            values.take(i),
            perms.take(i),
            allowed,
        ) + (if seq_contains(allowed, perms[i]) {
            seq![values[i]]
        } else {
            Seq::<T>::empty()
        }),
    decreases i,
{
    if i == 0 {
        assert(values.take(1).drop_first() =~= Seq::<T>::empty());
        assert(perms.take(1).drop_first() =~= Seq::<Seq<char>>::empty());
        assert(values.take(0) =~= Seq::<T>::empty());
        assert(perms.take(0) =~= Seq::<Seq<char>>::empty());
        assert(perms.take(1)[0] == perms[0]);
        assert(values.take(1)[0] == values[0]);
        assert(kept(Seq::<T>::empty(), Seq::<Seq<char>>::empty(), allowed) == Seq::<T>::empty());
        assert(seq![values[0]] + Seq::<T>::empty() =~= seq![values[0]]);
        if seq_contains(allowed, perms[0]) {
            assert(kept(values.take(1), perms.take(1), allowed) =~= seq![values[0]]);
            assert(kept(values.take(0), perms.take(0), allowed) + seq![values[0]]
                =~= seq![values[0]]);
        } else {
            assert(kept(values.take(1), perms.take(1), allowed) =~= Seq::<T>::empty());
            assert(kept(values.take(0), perms.take(0), allowed) + Seq::<T>::empty() =~= Seq::<
                T,
            >::empty());
        }
    } else {
        lemma_kept_snoc(values.drop_first(), perms.drop_first(), allowed, i - 1);
        assert(values.take(i + 1).drop_first() =~= values.drop_first().take(i));
        assert(perms.take(i + 1).drop_first() =~= perms.drop_first().take(i));
        assert(values.take(i).drop_first() =~= values.drop_first().take(i - 1));
        assert(perms.take(i).drop_first() =~= perms.drop_first().take(i - 1));
        assert(values.take(i + 1)[0] == values[0]);
        assert(perms.take(i + 1)[0] == perms[0]);
        assert(values.take(i)[0] == values[0]);
        assert(perms.take(i)[0] == perms[0]);
        assert(values.drop_first()[i - 1] == values[i]);
        assert(perms.drop_first()[i - 1] == perms[i]);
        let tail_i = kept(values.drop_first().take(i - 1), perms.drop_first().take(i - 1), allowed);
        let ext = if seq_contains(allowed, perms[i]) {
            seq![values[i]]
        } else {
            Seq::<T>::empty()
        };
        if seq_contains(allowed, perms[0]) {
            assert((seq![values[0]] + tail_i) + ext =~= seq![values[0]] + (tail_i + ext));
        }
    }
}

/// Whether a string occurs in a list of strings.
pub fn contains_string(v: &Vec<String>, x: &String) -> (r: bool)
    ensures
        r == seq_contains(strs(v@), x@),
{
    let mut i: usize = 0;
    while i < v.len()
        invariant
            0 <= i <= v@.len(),
            forall|k: int| 0 <= k < i ==> strs(v@)[k] != x@,
        decreases v@.len() - i,
    {
        if v[i] == *x {
            assert(strs(v@)[i as int] == x@);
            return true;
        }
        i = i + 1;
    }
    false
}

/// Keep the values whose permission at the same index is allowed.
#[verifier::loop_isolation(false)]
pub fn filter_kept(values: &Vec<String>, perms: &Vec<String>, allowed: &Vec<String>) -> (r: Vec<
    String,
>)
    requires
        values@.len() == perms@.len(),
    ensures
        strs(r@) == kept(strs(values@), strs(perms@), strs(allowed@)),
{
    let mut r: Vec<String> = Vec::new();
    let mut i: usize = 0;
    while i < perms.len()
        invariant
            0 <= i <= perms@.len(),
            strs(r@) == kept(strs(values@).take(i as int), strs(perms@).take(i as int), strs(
                allowed@,
            )),
        decreases perms@.len() - i,
    {
        let ghost before = strs(r@);
        if contains_string(allowed, &perms[i]) {
            r.push(values[i].clone());
            proof {
                assert(strs(r@) =~= before.push(strs(values@)[i as int]));
            }
        }
        proof {
            lemma_kept_snoc(strs(values@), strs(perms@), strs(allowed@), i as int);
            assert(strs(values@).take(i as int) =~= strs(values@.take(i as int)));
            if seq_contains(strs(allowed@), strs(perms@)[i as int]) {
                assert(strs(r@) =~= kept(
                    strs(values@).take(i as int),
                    strs(perms@).take(i as int),
                    strs(allowed@),
                ) + seq![strs(values@)[i as int]]);
            } else {
                assert(strs(r@) =~= kept(
                    strs(values@).take(i as int),
                    strs(perms@).take(i as int),
                    strs(allowed@),
                ));
            }
        }
        i = i + 1;
    }
    proof {
        assert(strs(values@).take(values@.len() as int) =~= strs(values@));
        assert(strs(perms@).take(perms@.len() as int) =~= strs(perms@));
    }
    r
}

/// The indices of the permissions that pruning removes, in ascending order.
#[verifier::loop_isolation(false)]
pub fn removed_indices(perms: &Vec<String>, allowed: &Vec<String>) -> (r: Vec<usize>)
    ensures
        r@.map_values(|u: usize| u as int) == removed_upto(
            strs(perms@),
            strs(allowed@),
            perms@.len() as int,
        ),
{
    let mut r: Vec<usize> = Vec::new();
    let mut i: usize = 0;
    while i < perms.len()
        invariant
            0 <= i <= perms@.len(),
            r@.map_values(|u: usize| u as int) == removed_upto(strs(perms@), strs(allowed@),
                i as int),
        decreases perms@.len() - i,
    {
        let ghost before = r@.map_values(|u: usize| u as int);
        if !contains_string(allowed, &perms[i]) {
            r.push(i);
            proof {
                assert(r@.map_values(|u: usize| u as int) =~= before.push(i as int));
                assert(before.push(i as int) =~= before + seq![i as int]);
            }
        } else {
            proof {
                assert(before + Seq::<int>::empty() =~= before);
            }
        }
        i = i + 1;
    }
    r
}

} // verus!
