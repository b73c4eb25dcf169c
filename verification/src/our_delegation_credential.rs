use vstd::prelude::*;

use crate::errors::DelegationError;
use crate::json::{
    encode_json, get_string_array_member, get_string_member, lemma_rep_of_members,
    lemma_rep_of_seq, lemma_strings_of_str_reps, obj_get, parse_json, rep_of_members, rep_of_seq,
    spec_obj_get, spec_str_array_member, spec_str_member, str_reps, strings_to_json, JsonRep,
    JsonValue,
};
use crate::our_delegation::OurDelegation;
use crate::our_delegator::{
    lemma_delegator_map_round_trip, spec_delegator_from_map, spec_delegator_members, OurDelegator,
    OurDelegatorRep,
};
use crate::retention::{
    filter_kept, kept, lemma_kept_len, removed_indices, removed_upto, seq_contains,
};
use crate::text::strs;

verus! {

broadcast use vstd::string::group_string_axioms;

/// The views of a list of hierarchy entries.
pub open spec fn dreps(v: Seq<OurDelegator>) -> Seq<OurDelegatorRep> {
    v.map_values(|d: OurDelegator| d@)
}

/// The mathematical content of a scheme-A delegation credential.
pub struct OurDelegationCredentialRep {
    pub delegatee_id: Seq<char>,
    pub accumulator_value: Seq<char>,
    pub iat: Seq<char>,
    pub exp: Seq<char>,
    pub permissions: Seq<Seq<char>>,
    pub metadata_witnesses: Seq<Seq<char>>,
    pub permission_witnesses: Seq<Seq<char>>,
    pub hierarchy: Seq<OurDelegatorRep>,
}

impl OurDelegationCredentialRep {
    /// Every witness list matches the permission list in length: the shape
    /// that issuance establishes and pruning restores.
    pub open spec fn wf_cardinality(&self) -> bool {
        &&& self.permission_witnesses.len() == self.permissions.len()
        &&& forall|k: int|
            0 <= k < self.hierarchy.len() ==> (#[trigger] self.hierarchy[k]).permission_witnesses.len()
                == self.permissions.len()
    }
}

/// A scheme-A delegation credential: the accumulator value, the witnesses
/// for the metadata and each granted permission, and the hierarchy of the
/// past delegation steps, root first.
pub struct OurDelegationCredential {
    delegatee_id: String,
    accumulator_value: String,
    iat: String,
    exp: String,
    permissions: Vec<String>,
    metadata_witnesses: Vec<String>,
    permission_witnesses: Vec<String>,
    hierarchy: Vec<OurDelegator>,
}

impl View for OurDelegationCredential {
    type V = OurDelegationCredentialRep;

    closed spec fn view(&self) -> OurDelegationCredentialRep {
        OurDelegationCredentialRep {
            delegatee_id: self.delegatee_id@,
            accumulator_value: self.accumulator_value@,
            iat: self.iat@,
            exp: self.exp@,
            permissions: strs(self.permissions@),
            metadata_witnesses: strs(self.metadata_witnesses@),
            permission_witnesses: strs(self.permission_witnesses@),
            hierarchy: dreps(self.hierarchy@),
        }
    }
}

/// The hierarchy entries as JSON object nodes.
pub open spec fn delegator_json_reps(h: Seq<OurDelegatorRep>) -> Seq<JsonRep> {
    h.map_values(|d: OurDelegatorRep| JsonRep::Obj(spec_delegator_members(d)))
}

/// The hierarchy entries of a JSON array, if every item is an object that
/// reads back as a hierarchy entry.
pub open spec fn delegators_of(a: Seq<JsonRep>) -> Option<Seq<OurDelegatorRep>>
    decreases a.len(),
{
    if a.len() == 0 {
        Some(Seq::<OurDelegatorRep>::empty())
    } else {
        match a[0] {
            JsonRep::Obj(m) => match spec_delegator_from_map(m) {
                Some(d) => match delegators_of(a.drop_first()) {
                    Some(r) => Some(seq![d] + r),
                    None => None,
                },
                None => None,
            },
            _ => None,
        }
    }
}

/// Reading back the hierarchy's JSON array yields the hierarchy.
pub proof fn lemma_delegators_round_trip(h: Seq<OurDelegatorRep>)
    ensures
        delegators_of(delegator_json_reps(h)) == Some(h),
    decreases h.len(),
{
    if h.len() == 0 {
        assert(delegator_json_reps(h).len() == 0);
        assert(h =~= Seq::<OurDelegatorRep>::empty());
    } else {
        lemma_delegators_round_trip(h.drop_first());
        lemma_delegator_map_round_trip(h[0]);
        assert(delegator_json_reps(h)[0] == JsonRep::Obj(spec_delegator_members(h[0])));
        assert(delegator_json_reps(h).drop_first() =~= delegator_json_reps(h.drop_first()));
        assert(seq![h[0]] + h.drop_first() =~= h);
    }
}

/// Extending a parsed hierarchy prefix by one object node extends the result.
proof fn lemma_delegators_of_snoc(a: Seq<JsonRep>, i: int)
    requires
        0 <= i < a.len(),
        a[i] is Obj,
        spec_delegator_from_map(a[i]->Obj_0) is Some,
        delegators_of(a.take(i)) is Some,
    ensures
        delegators_of(a.take(i + 1)) == Some(
            delegators_of(a.take(i))->Some_0.push(spec_delegator_from_map(a[i]->Obj_0)->Some_0),
        ),
    decreases i,
{
    let d = spec_delegator_from_map(a[i]->Obj_0)->Some_0;
    if i == 0 {
        assert(a.take(1)[0] == a[0]);
        assert(a.take(1).drop_first() =~= Seq::<JsonRep>::empty());
        assert(delegators_of(Seq::<JsonRep>::empty()) == Some(Seq::<OurDelegatorRep>::empty()));
        assert(delegators_of(a.take(1)) == Some(seq![d] + Seq::<OurDelegatorRep>::empty()));
        assert(seq![d] + Seq::<OurDelegatorRep>::empty() =~= Seq::<
            OurDelegatorRep,
        >::empty().push(d));
        assert(delegators_of(a.take(0)) == Some(Seq::<OurDelegatorRep>::empty()));
    } else {
        assert(a.take(i + 1)[0] == a[0]);
        assert(a.take(i)[0] == a[0]);
        assert(a.take(i + 1).drop_first() =~= a.drop_first().take(i));
        assert(a.take(i).drop_first() =~= a.drop_first().take(i - 1));
        assert(a.drop_first()[i - 1] == a[i]);
        if a[0] is Obj && spec_delegator_from_map(a[0]->Obj_0) is Some {
            lemma_delegators_of_snoc(a.drop_first(), i - 1);
            let d0 = spec_delegator_from_map(a[0]->Obj_0)->Some_0;
            let pre = delegators_of(a.drop_first().take(i - 1))->Some_0;
            assert(delegators_of(a.take(i)) == Some(seq![d0] + pre));
            assert(delegators_of(a.take(i + 1)) == Some(seq![d0] + pre.push(d)));
            assert(seq![d0] + pre.push(d) =~= (seq![d0] + pre).push(d));
        }
    }
}

/// A bad item anywhere in the array makes the whole read fail.
proof fn lemma_delegators_of_fail(a: Seq<JsonRep>, i: int)
    requires
        0 <= i < a.len(),
        !(a[i] is Obj) || spec_delegator_from_map(a[i]->Obj_0) is None,
    ensures
        delegators_of(a) is None,
    decreases i,
{
    if i == 0 {
    } else {
        lemma_delegators_of_fail(a.drop_first(), i - 1);
        assert(a.drop_first()[i - 1] == a[i]);
    }
}

/// The JSON object members of a scheme-A credential, in canonical order.
pub open spec fn spec_odc_members(dc: OurDelegationCredentialRep) -> Seq<(Seq<char>, JsonRep)> {
    seq![
        ("sub"@, JsonRep::Str(dc.delegatee_id)),
        ("av"@, JsonRep::Str(dc.accumulator_value)),
        ("iat"@, JsonRep::Str(dc.iat)),
        ("exp"@, JsonRep::Str(dc.exp)),
        ("per"@, JsonRep::Arr(str_reps(dc.permissions))),
        ("mw"@, JsonRep::Arr(str_reps(dc.metadata_witnesses))),
        ("pw"@, JsonRep::Arr(str_reps(dc.permission_witnesses))),
        ("hierarchy"@, JsonRep::Arr(delegator_json_reps(dc.hierarchy))),
    ]
}

/// What reading a scheme-A credential out of a JSON object yields.
pub open spec fn spec_odc_from_map(m: Seq<(Seq<char>, JsonRep)>) -> Option<
    OurDelegationCredentialRep,
> {
    if spec_str_member(m, "sub"@) is Some && spec_str_member(m, "av"@) is Some && spec_str_member(
        m,
        "iat"@,
    ) is Some && spec_str_member(m, "exp"@) is Some && spec_str_array_member(m, "per"@) is Some
        && spec_str_array_member(m, "mw"@) is Some && spec_str_array_member(m, "pw"@) is Some && (
    spec_obj_get(m, "hierarchy"@) matches Some(JsonRep::Arr(a)) && delegators_of(a) is Some) {
        Some(
            OurDelegationCredentialRep {
                delegatee_id: spec_str_member(m, "sub"@)->Some_0,
                accumulator_value: spec_str_member(m, "av"@)->Some_0,
                iat: spec_str_member(m, "iat"@)->Some_0,
                exp: spec_str_member(m, "exp"@)->Some_0,
                permissions: spec_str_array_member(m, "per"@)->Some_0,
                metadata_witnesses: spec_str_array_member(m, "mw"@)->Some_0,
                permission_witnesses: spec_str_array_member(m, "pw"@)->Some_0,
                hierarchy: delegators_of(spec_obj_get(m, "hierarchy"@)->Some_0->Arr_0)->Some_0,
            },
        )
    } else {
        None
    }
}

/// A credential after pruning to the allowed permissions: the permissions,
/// their witnesses, and every hierarchy entry's witnesses are filtered in
/// index lock-step; everything else is unchanged.
pub open spec fn spec_retained(
    dc: OurDelegationCredentialRep,
    allowed: Seq<Seq<char>>,
) -> OurDelegationCredentialRep {
    OurDelegationCredentialRep {
        delegatee_id: dc.delegatee_id,
        accumulator_value: dc.accumulator_value,
        iat: dc.iat,
        exp: dc.exp,
        permissions: kept(dc.permissions, dc.permissions, allowed),
        metadata_witnesses: dc.metadata_witnesses,
        permission_witnesses: kept(dc.permission_witnesses, dc.permissions, allowed),
        hierarchy: dc.hierarchy.map_values(
            |h: OurDelegatorRep|
                OurDelegatorRep {
                    id: h.id,
                    delegatee_id: h.delegatee_id,
                    iat: h.iat,
                    exp: h.exp,
                    accumulator_value: h.accumulator_value,
                    metadata_witnesses: h.metadata_witnesses,
                    permission_witnesses: kept(h.permission_witnesses, dc.permissions, allowed),
                },
        ),
    }
}

impl OurDelegationCredential {
    pub fn new(
        delegatee_id: String,
        accumulator_value: String,
        iat: String,
        exp: String,
        permissions: Vec<String>,
        metadata_witnesses: Vec<String>,
        permission_witnesses: Vec<String>,
        hierarchy: Vec<OurDelegator>,
    ) -> (r: Result<OurDelegationCredential, DelegationError>)
        ensures
            r matches Ok(dc) && dc@ == (OurDelegationCredentialRep {
                delegatee_id: delegatee_id@,
                accumulator_value: accumulator_value@,
                iat: iat@,
                exp: exp@,
                permissions: strs(permissions@),
                metadata_witnesses: strs(metadata_witnesses@),
                permission_witnesses: strs(permission_witnesses@),
                hierarchy: dreps(hierarchy@),
            }),
    {
        Ok(
            OurDelegationCredential {
                delegatee_id,
                accumulator_value,
                iat,
                exp,
                permissions,
                metadata_witnesses,
                permission_witnesses,
                hierarchy,
            },
        )
    }

    pub fn permissions(&self) -> (r: &Vec<String>)
        ensures
            strs(r@) == self@.permissions,
    {
        &self.permissions
    }

    pub fn hierarchy(&self) -> (r: &Vec<OurDelegator>)
        ensures
            dreps(r@) == self@.hierarchy,
    {
        &self.hierarchy
    }

    /// The stable type tag of this credential shape.
    pub fn credential_type(&self) -> (r: &'static str)
        ensures
            r@ == "OurDelegationCredential"@,
    {
        "OurDelegationCredential"
    }

    /// A credential is empty when nothing disclosable is left in it.
    pub fn is_empty(&self) -> (r: bool)
        ensures
            r == (self@.permissions.len() == 0 || self@.permission_witnesses.len() == 0),
    {
        self.permissions.len() == 0 || self.permission_witnesses.len() == 0
    }

    /// The JSON object members of this credential, in canonical order.
    pub fn to_map(&self) -> (r: Vec<(String, JsonValue)>)
        ensures
            rep_of_members(r@) == spec_odc_members(self@),
    {
        let mut m: Vec<(String, JsonValue)> = Vec::new();
        m.push((String::from_str("sub"), JsonValue::JString(self.delegatee_id.clone())));
        m.push((String::from_str("av"), JsonValue::JString(self.accumulator_value.clone())));
        m.push((String::from_str("iat"), JsonValue::JString(self.iat.clone())));
        m.push((String::from_str("exp"), JsonValue::JString(self.exp.clone())));
        m.push((String::from_str("per"), strings_to_json(&self.permissions)));
        m.push((String::from_str("mw"), strings_to_json(&self.metadata_witnesses)));
        m.push((String::from_str("pw"), strings_to_json(&self.permission_witnesses)));
        m.push((String::from_str("hierarchy"), self.hierarchy_to_json()));
        proof {
            lemma_rep_of_members(m@);
            assert(rep_of_members(m@) =~= spec_odc_members(self@));
        }
        m
    }

    /// The hierarchy as a JSON array node.
    #[verifier::loop_isolation(false)]
    fn hierarchy_to_json(&self) -> (r: JsonValue)
        ensures
            r@ == JsonRep::Arr(delegator_json_reps(self@.hierarchy)),
    {
        let mut items: Vec<JsonValue> = Vec::new();
        let mut i: usize = 0;
        while i < self.hierarchy.len()
            invariant
                0 <= i <= self.hierarchy@.len(),
                rep_of_seq(items@) == delegator_json_reps(dreps(self.hierarchy@.take(i as int))),
            decreases self.hierarchy@.len() - i,
        {
            let ghost before = items@;
            let entry_json = JsonValue::JObject(self.hierarchy[i].to_map());
            proof {
                assert(entry_json@ == JsonRep::Obj(
                    spec_delegator_members(self.hierarchy@[i as int]@),
                ));
            }
            items.push(entry_json);
            proof {
                assert(items@.drop_last() =~= before);
                assert(rep_of_seq(items@) == rep_of_seq(before).push(items@.last()@));
                assert(delegator_json_reps(dreps(self.hierarchy@.take(i + 1)))
                    =~= delegator_json_reps(dreps(self.hierarchy@.take(i as int))).push(
                    JsonRep::Obj(spec_delegator_members(self.hierarchy@[i as int]@)),
                ));
            }
            i = i + 1;
        }
        proof {
            assert(self.hierarchy@.take(self.hierarchy@.len() as int) =~= self.hierarchy@);
        }
        JsonValue::JArray(items)
    }

    /// Read a scheme-A credential out of a JSON object.
    pub fn from_map(map: &Vec<(String, JsonValue)>) -> (r: Result<
        OurDelegationCredential,
        DelegationError,
    >)
        ensures
            match r {
                Ok(dc) => spec_odc_from_map(rep_of_members(map@)) == Some(dc@),
                Err(e) => e == DelegationError::Deserialize && spec_odc_from_map(
                    rep_of_members(map@),
                ) is None,
            },
    {
        let delegatee_id = match get_string_member(map, &String::from_str("sub")) {
            Ok(v) => v,
            Err(e) => {
                return Err(e);
            },
        };
        let accumulator_value = match get_string_member(map, &String::from_str("av")) {
            Ok(v) => v,
            Err(e) => {
                return Err(e);
            },
        };
        let iat = match get_string_member(map, &String::from_str("iat")) {
            Ok(v) => v,
            Err(e) => {
                return Err(e);
            },
        };
        let exp = match get_string_member(map, &String::from_str("exp")) {
            Ok(v) => v,
            Err(e) => {
                return Err(e);
            },
        };
        let permissions = match get_string_array_member(map, &String::from_str("per")) {
            Ok(v) => v,
            Err(e) => {
                return Err(e);
            },
        };
        let metadata_witnesses = match get_string_array_member(map, &String::from_str("mw")) {
            Ok(v) => v,
            Err(e) => {
                return Err(e);
            },
        };
        let permission_witnesses = match get_string_array_member(map, &String::from_str("pw")) {
            Ok(v) => v,
            Err(e) => {
                return Err(e);
            },
        };
        let hierarchy = match Self::hierarchy_from_json(map) {
            Ok(v) => v,
            Err(e) => {
                return Err(e);
            },
        };
        Ok(
            OurDelegationCredential {
                delegatee_id,
                accumulator_value,
                iat,
                exp,
                permissions,
                metadata_witnesses,
                permission_witnesses,
                hierarchy,
            },
        )
    }

    /// Read the hierarchy member as a list of hierarchy entries.
    #[verifier::loop_isolation(false)]
    fn hierarchy_from_json(map: &Vec<(String, JsonValue)>) -> (r: Result<
        Vec<OurDelegator>,
        DelegationError,
    >)
        ensures
            match r {
                Ok(v) => spec_obj_get(rep_of_members(map@), "hierarchy"@) matches Some(
                    JsonRep::Arr(a),
                ) && delegators_of(a) == Some(dreps(v@)),
                Err(e) => e == DelegationError::Deserialize && !(spec_obj_get(
                    rep_of_members(map@),
                    "hierarchy"@,
                ) matches Some(JsonRep::Arr(a)) && delegators_of(a) is Some),
            },
    {
        let arr = match obj_get(map, &String::from_str("hierarchy")) {
            Some(v) => match v {
                JsonValue::JArray(a) => a,
                _ => {
                    return Err(DelegationError::Deserialize);
                },
            },
            None => {
                return Err(DelegationError::Deserialize);
            },
        };
        let ghost arep = rep_of_seq(arr@);
        proof {
            lemma_rep_of_seq(arr@);
        }
        let mut out: Vec<OurDelegator> = Vec::new();
        let mut i: usize = 0;
        while i < arr.len()
            invariant
                0 <= i <= arr@.len(),
                delegators_of(arep.take(i as int)) == Some(dreps(out@)),
            decreases arr@.len() - i,
        {
            match &arr[i] {
                JsonValue::JObject(members) => {
                    match OurDelegator::from_map(members) {
                        Ok(d) => {
                            let ghost old_out = out@;
                            out.push(d);
                            proof {
                                lemma_delegators_of_snoc(arep, i as int);
                                assert(dreps(out@) =~= dreps(old_out).push(d@));
                            }
                        },
                        Err(e) => {
                            proof {
                                lemma_delegators_of_fail(arep, i as int);
                            }
                            return Err(DelegationError::Deserialize);
                        },
                    }
                },
                _ => {
                    proof {
                        lemma_delegators_of_fail(arep, i as int);
                    }
                    return Err(DelegationError::Deserialize);
                },
            }
            i = i + 1;
        }
        proof {
            assert(arep.take(arep.len() as int) =~= arep);
        }
        Ok(out)
    }

    /// Render this credential as its canonical JSON text.
    pub fn to_string(&self) -> (r: Result<String, DelegationError>)
        ensures
            r matches Ok(s) && s@ == crate::json::spec_encode(
                JsonRep::Obj(spec_odc_members(self@)),
            ),
    {
        Ok(encode_json(&JsonValue::JObject(self.to_map())))
    }

    /// Parse a credential from JSON text; whitespace and member order are
    /// free, the member shapes are not.
    pub fn from_string(text: &String) -> (r: Result<OurDelegationCredential, DelegationError>)
        ensures
            r matches Ok(dc) ==> (exists|m: Seq<(Seq<char>, JsonRep)>|
                spec_odc_from_map(m) == Some(dc@)),
    {
        let parsed = match parse_json(text) {
            Ok(v) => v,
            Err(e) => {
                return Err(e);
            },
        };
        let members = match parsed {
            JsonValue::JObject(members) => members,
            _ => {
                return Err(DelegationError::Deserialize);
            },
        };
        match Self::from_map(&members) {
            Ok(dc) => {
                proof {
                    assert(spec_odc_from_map(rep_of_members(members@)) == Some(dc@));
                }
                Ok(dc)
            },
            Err(e) => Err(e),
        }
    }

    /// Keep only the permissions in `allowed`, dropping everything that
    /// stands at a dropped permission's index: the outer witness and every
    /// hierarchy entry's witness. Returns the removed indices, ascending.
    #[verifier::loop_isolation(false)]
    pub fn retain_only(&mut self, allowed: Vec<String>) -> (r: Result<Vec<usize>, DelegationError>)
        requires
            old(self)@.wf_cardinality(),
        ensures
            final(self)@ == spec_retained(old(self)@, strs(allowed@)),
            r matches Ok(idx) && idx@.map_values(|u: usize| u as int) == removed_upto(
                old(self)@.permissions,
                strs(allowed@),
                old(self)@.permissions.len() as int,
            ),
    {
        let removed = removed_indices(&self.permissions, &allowed);
        let new_witnesses = filter_kept(&self.permission_witnesses, &self.permissions, &allowed);
        let ghost old_view = self@;
        let mut new_hierarchy: Vec<OurDelegator> = Vec::new();
        let mut k: usize = 0;
        while k < self.hierarchy.len()
            invariant
                0 <= k <= self.hierarchy@.len(),
                dreps(new_hierarchy@) =~= spec_retained(old_view, strs(allowed@)).hierarchy.take(
                    k as int,
                ),
            decreases self.hierarchy@.len() - k,
        {
            let ghost before = new_hierarchy@;
            let entry = &self.hierarchy[k];
            proof {
                assert(entry@ == old(self)@.hierarchy[k as int]);
                assert(entry@.permission_witnesses.len() == old(self)@.permissions.len());
            }
            let pruned = filter_kept(entry.permission_witnesses(), &self.permissions, &allowed);
            new_hierarchy.push(entry.with_permission_witnesses(pruned));
            proof {
                assert(dreps(new_hierarchy@) =~= dreps(before).push(new_hierarchy@.last()@));
            }
            k = k + 1;
        }
        let new_permissions = filter_kept(&self.permissions, &self.permissions, &allowed);
        self.permissions = new_permissions;
        self.permission_witnesses = new_witnesses;
        self.hierarchy = new_hierarchy;
        proof {
            assert(spec_retained(old_view, strs(allowed@)).hierarchy.take(
                old_view.hierarchy.len() as int,
            ) =~= spec_retained(old_view, strs(allowed@)).hierarchy);
            assert(self@ =~~= spec_retained(old_view, strs(allowed@)));
        }
        Ok(removed)
    }
}

impl Clone for OurDelegationCredential {
    /// Cloning preserves the mathematical content.
    #[verifier::loop_isolation(false)]
    fn clone(&self) -> (r: Self)
        ensures
            r@ == self@,
    {
        let mut hierarchy: Vec<OurDelegator> = Vec::new();
        let mut i: usize = 0;
        while i < self.hierarchy.len()
            invariant
                0 <= i <= self.hierarchy@.len(),
                dreps(hierarchy@) =~= dreps(self.hierarchy@.take(i as int)),
            decreases self.hierarchy@.len() - i,
        {
            let ghost before = hierarchy@;
            hierarchy.push(self.hierarchy[i].clone());
            proof {
                assert(dreps(hierarchy@) =~= dreps(before).push(hierarchy@.last()@));
            }
            i = i + 1;
        }
        let r = OurDelegationCredential {
            delegatee_id: self.delegatee_id.clone(),
            accumulator_value: self.accumulator_value.clone(),
            iat: self.iat.clone(),
            exp: self.exp.clone(),
            permissions: self.permissions.clone(),
            metadata_witnesses: self.metadata_witnesses.clone(),
            permission_witnesses: self.permission_witnesses.clone(),
            hierarchy,
        };
        proof {
            assert(self.hierarchy@.take(self.hierarchy@.len() as int) =~= self.hierarchy@);
            assert(strs(r.permissions@) =~= strs(self.permissions@));
            assert(strs(r.metadata_witnesses@) =~= strs(self.metadata_witnesses@));
            assert(strs(r.permission_witnesses@) =~= strs(self.permission_witnesses@));
        }
        r
    }
}

impl OurDelegation for OurDelegationCredential {
    open spec fn s_delegatee_id(&self) -> Seq<char> {
        self@.delegatee_id
    }

    open spec fn s_accumulator_value(&self) -> Seq<char> {
        self@.accumulator_value
    }

    open spec fn s_iat(&self) -> Seq<char> {
        self@.iat
    }

    open spec fn s_exp(&self) -> Seq<char> {
        self@.exp
    }

    open spec fn s_metadata_witnesses(&self) -> Seq<Seq<char>> {
        self@.metadata_witnesses
    }

    open spec fn s_permission_witnesses(&self) -> Seq<Seq<char>> {
        self@.permission_witnesses
    }

    fn delegatee_id(&self) -> (r: &String) {
        &self.delegatee_id
    }

    fn accumulator_value(&self) -> (r: &String) {
        &self.accumulator_value
    }

    fn iat(&self) -> (r: &String) {
        &self.iat
    }

    fn exp(&self) -> (r: &String) {
        &self.exp
    }

    fn metadata_witnesses(&self) -> (r: &Vec<String>) {
        &self.metadata_witnesses
    }

    fn permission_witnesses(&self) -> (r: &Vec<String>) {
        &self.permission_witnesses
    }
}

/// Reading back the canonical JSON object of a scheme-A credential yields
/// the credential itself: the map half of the round-trip law.
pub proof fn lemma_our_credential_map_round_trip(dc: OurDelegationCredentialRep)
    ensures
        spec_odc_from_map(spec_odc_members(dc)) == Some(dc),
{
    reveal_strlit("sub");
    reveal_strlit("av");
    reveal_strlit("iat");
    reveal_strlit("exp");
    reveal_strlit("per");
    reveal_strlit("mw");
    reveal_strlit("pw");
    reveal_strlit("hierarchy");
    assert("sub"@.len() == 3 && "iat"@.len() == 3 && "exp"@.len() == 3 && "per"@.len() == 3);
    assert("av"@.len() == 2 && "mw"@.len() == 2 && "pw"@.len() == 2 && "hierarchy"@.len() == 9);
    assert("sub"@[0] == 's' && "iat"@[0] == 'i' && "exp"@[0] == 'e' && "per"@[0] == 'p');
    assert("av"@[0] == 'a' && "mw"@[0] == 'm' && "pw"@[0] == 'p' && "pw"@[1] == 'w');
    assert("mw"@[1] == 'w' && "av"@[1] == 'v');
    let m = spec_odc_members(dc);
    let m1 = m.drop_first();
    let m2 = m1.drop_first();
    let m3 = m2.drop_first();
    let m4 = m3.drop_first();
    let m5 = m4.drop_first();
    let m6 = m5.drop_first();
    let m7 = m6.drop_first();
    assert(m1[0] == m[1] && m2[0] == m[2] && m3[0] == m[3] && m4[0] == m[4] && m5[0] == m[5]
        && m6[0] == m[6] && m7[0] == m[7]);
    assert(spec_obj_get(m, "sub"@) == Some(JsonRep::Str(dc.delegatee_id)));
    assert(spec_obj_get(m, "av"@) == spec_obj_get(m1, "av"@));
    assert(spec_obj_get(m1, "av"@) == Some(JsonRep::Str(dc.accumulator_value)));
    assert(spec_obj_get(m, "iat"@) == spec_obj_get(m1, "iat"@));
    assert(spec_obj_get(m1, "iat"@) == spec_obj_get(m2, "iat"@));
    assert(spec_obj_get(m2, "iat"@) == Some(JsonRep::Str(dc.iat)));
    assert(spec_obj_get(m, "exp"@) == spec_obj_get(m1, "exp"@));
    assert(spec_obj_get(m1, "exp"@) == spec_obj_get(m2, "exp"@));
    assert(spec_obj_get(m2, "exp"@) == spec_obj_get(m3, "exp"@));
    assert(spec_obj_get(m3, "exp"@) == Some(JsonRep::Str(dc.exp)));
    assert(spec_obj_get(m, "per"@) == spec_obj_get(m1, "per"@));
    assert(spec_obj_get(m1, "per"@) == spec_obj_get(m2, "per"@));
    assert(spec_obj_get(m2, "per"@) == spec_obj_get(m3, "per"@));
    assert(spec_obj_get(m3, "per"@) == spec_obj_get(m4, "per"@));
    assert(spec_obj_get(m4, "per"@) == Some(JsonRep::Arr(str_reps(dc.permissions))));
    assert(spec_obj_get(m, "mw"@) == spec_obj_get(m1, "mw"@));
    assert(spec_obj_get(m1, "mw"@) == spec_obj_get(m2, "mw"@));
    assert(spec_obj_get(m2, "mw"@) == spec_obj_get(m3, "mw"@));
    assert(spec_obj_get(m3, "mw"@) == spec_obj_get(m4, "mw"@));
    assert(spec_obj_get(m4, "mw"@) == spec_obj_get(m5, "mw"@));
    assert(spec_obj_get(m5, "mw"@) == Some(JsonRep::Arr(str_reps(dc.metadata_witnesses))));
    assert(spec_obj_get(m, "pw"@) == spec_obj_get(m1, "pw"@));
    assert(spec_obj_get(m1, "pw"@) == spec_obj_get(m2, "pw"@));
    assert(spec_obj_get(m2, "pw"@) == spec_obj_get(m3, "pw"@));
    assert(spec_obj_get(m3, "pw"@) == spec_obj_get(m4, "pw"@));
    assert(spec_obj_get(m4, "pw"@) == spec_obj_get(m5, "pw"@));
    assert(spec_obj_get(m5, "pw"@) == spec_obj_get(m6, "pw"@));
    assert(spec_obj_get(m6, "pw"@) == Some(JsonRep::Arr(str_reps(dc.permission_witnesses))));
    assert(spec_obj_get(m, "hierarchy"@) == spec_obj_get(m1, "hierarchy"@));
    assert(spec_obj_get(m1, "hierarchy"@) == spec_obj_get(m2, "hierarchy"@));
    assert(spec_obj_get(m2, "hierarchy"@) == spec_obj_get(m3, "hierarchy"@));
    assert(spec_obj_get(m3, "hierarchy"@) == spec_obj_get(m4, "hierarchy"@));
    assert(spec_obj_get(m4, "hierarchy"@) == spec_obj_get(m5, "hierarchy"@));
    assert(spec_obj_get(m5, "hierarchy"@) == spec_obj_get(m6, "hierarchy"@));
    assert(spec_obj_get(m6, "hierarchy"@) == spec_obj_get(m7, "hierarchy"@));
    assert(spec_obj_get(m7, "hierarchy"@) == Some(
        JsonRep::Arr(delegator_json_reps(dc.hierarchy)),
    ));
    lemma_strings_of_str_reps(dc.permissions);
    lemma_strings_of_str_reps(dc.metadata_witnesses);
    lemma_strings_of_str_reps(dc.permission_witnesses);
    lemma_delegators_round_trip(dc.hierarchy);
}

/// Pruning a well-formed credential to any allowed set leaves every witness
/// list exactly as long as the permission list: retention keeps the
/// credential's cardinality invariant.
pub proof fn lemma_retention_monotonic(dc: OurDelegationCredentialRep, allowed: Seq<Seq<char>>)
    requires
        dc.wf_cardinality(),
        forall|i: int| 0 <= i < allowed.len() ==> seq_contains(dc.permissions, #[trigger] allowed[i]),
    ensures
        spec_retained(dc, allowed).wf_cardinality(),
        spec_retained(dc, allowed).permissions.len() <= dc.permissions.len(),
{
    let r = spec_retained(dc, allowed);
    lemma_kept_len(dc.permissions, dc.permissions, allowed);
    lemma_kept_len(dc.permission_witnesses, dc.permissions, allowed);
    assert forall|k: int| 0 <= k < r.hierarchy.len() implies (
    #[trigger] r.hierarchy[k]).permission_witnesses.len() == r.permissions.len() by {
        lemma_kept_len(dc.hierarchy[k].permission_witnesses, dc.permissions, allowed);
    }
    lemma_count_kept_le(dc.permissions, allowed);
}

/// Pruning never grows the permission list.
proof fn lemma_count_kept_le(perms: Seq<Seq<char>>, allowed: Seq<Seq<char>>)
    ensures
        crate::retention::count_kept(perms, allowed) <= perms.len(),
    decreases perms.len(),
{
    if perms.len() > 0 {
        lemma_count_kept_le(perms.drop_first(), allowed);
    }
}

} // verus!
