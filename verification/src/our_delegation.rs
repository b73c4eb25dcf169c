use vstd::prelude::*;

use crate::text::strs;

verus! {

/// What scheme-A delegation records have in common: the outer credential and
/// each hierarchy entry carry a subject, an accumulator value, the two
/// timestamps, and the witnesses the verifier checks.
pub trait OurDelegation {
    spec fn s_delegatee_id(&self) -> Seq<char>;

    spec fn s_accumulator_value(&self) -> Seq<char>;

    spec fn s_iat(&self) -> Seq<char>;

    spec fn s_exp(&self) -> Seq<char>;

    spec fn s_metadata_witnesses(&self) -> Seq<Seq<char>>;

    spec fn s_permission_witnesses(&self) -> Seq<Seq<char>>;

    fn delegatee_id(&self) -> (r: &String)
        ensures
            r@ == self.s_delegatee_id(),
    ;

    fn accumulator_value(&self) -> (r: &String)
        ensures
            r@ == self.s_accumulator_value(),
    ;

    fn iat(&self) -> (r: &String)
        ensures
            r@ == self.s_iat(),
    ;

    fn exp(&self) -> (r: &String)
        ensures
            r@ == self.s_exp(),
    ;

    fn metadata_witnesses(&self) -> (r: &Vec<String>)
        ensures
            strs(r@) == self.s_metadata_witnesses(),
    ;

    fn permission_witnesses(&self) -> (r: &Vec<String>)
        ensures
            strs(r@) == self.s_permission_witnesses(),
    ;
}

} // verus!
