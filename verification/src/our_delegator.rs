use vstd::prelude::*;

use crate::errors::DelegationError;
use crate::json::{
    get_string_array_member, get_string_member, lemma_rep_of_members,
    lemma_strings_of_str_reps, rep_of_members, spec_obj_get, spec_str_array_member,
    spec_str_member, str_reps, strings_to_json, JsonRep, JsonValue,
};
use crate::our_delegation::OurDelegation;
use crate::text::strs;

verus! {

broadcast use vstd::string::group_string_axioms;

/// The mathematical content of a hierarchy entry.
pub struct OurDelegatorRep {
    pub id: Seq<char>,
    pub delegatee_id: Seq<char>,
    pub iat: Seq<char>,
    pub exp: Seq<char>,
    pub accumulator_value: Seq<char>,
    pub metadata_witnesses: Seq<Seq<char>>,
    pub permission_witnesses: Seq<Seq<char>>,
}

/// One entry of a scheme-A credential's hierarchy: the record of one past
/// delegation step, `id` being the issuer at that level and `delegatee_id`
/// its subject.
pub struct OurDelegator {
    id: String,
    delegatee_id: String,
    iat: String,
    exp: String,
    accumulator_value: String,
    metadata_witnesses: Vec<String>,
    permission_witnesses: Vec<String>,
}

impl View for OurDelegator {
    type V = OurDelegatorRep;

    closed spec fn view(&self) -> OurDelegatorRep {
        OurDelegatorRep {
            id: self.id@,
            delegatee_id: self.delegatee_id@,
            iat: self.iat@,
            exp: self.exp@,
            accumulator_value: self.accumulator_value@,
            metadata_witnesses: strs(self.metadata_witnesses@),
            permission_witnesses: strs(self.permission_witnesses@),
        }
    }
}

/// The JSON object members of a hierarchy entry, in canonical order.
pub open spec fn spec_delegator_members(d: OurDelegatorRep) -> Seq<(Seq<char>, JsonRep)> {
    seq![
        ("id"@, JsonRep::Str(d.id)),
        ("sub"@, JsonRep::Str(d.delegatee_id)),
        ("iat"@, JsonRep::Str(d.iat)),
        ("exp"@, JsonRep::Str(d.exp)),
        ("av"@, JsonRep::Str(d.accumulator_value)),
        ("mw"@, JsonRep::Arr(str_reps(d.metadata_witnesses))),
        ("pw"@, JsonRep::Arr(str_reps(d.permission_witnesses))),
    ]
}

/// What reading a hierarchy entry out of a JSON object yields.
pub open spec fn spec_delegator_from_map(m: Seq<(Seq<char>, JsonRep)>) -> Option<OurDelegatorRep> {
    if spec_str_member(m, "id"@) is Some && spec_str_member(m, "sub"@) is Some && spec_str_member(
        m,
        "iat"@,
    ) is Some && spec_str_member(m, "exp"@) is Some && spec_str_member(m, "av"@) is Some
        && spec_str_array_member(m, "mw"@) is Some && spec_str_array_member(m, "pw"@) is Some {
        Some(
            OurDelegatorRep {
                id: spec_str_member(m, "id"@)->Some_0,
                delegatee_id: spec_str_member(m, "sub"@)->Some_0,
                iat: spec_str_member(m, "iat"@)->Some_0,
                exp: spec_str_member(m, "exp"@)->Some_0,
                accumulator_value: spec_str_member(m, "av"@)->Some_0,
                metadata_witnesses: spec_str_array_member(m, "mw"@)->Some_0,
                permission_witnesses: spec_str_array_member(m, "pw"@)->Some_0,
            },
        )
    } else {
        None
    }
}

impl OurDelegator {
    pub fn new(
        id: String,
        delegatee_id: String,
        iat: String,
        exp: String,
        accumulator_value: String,
        metadata_witnesses: Vec<String>,
        permission_witnesses: Vec<String>,
    ) -> (r: OurDelegator)
        ensures
            r@ == (OurDelegatorRep {
                id: id@,
                delegatee_id: delegatee_id@,
                iat: iat@,
                exp: exp@,
                accumulator_value: accumulator_value@,
                metadata_witnesses: strs(metadata_witnesses@),
                permission_witnesses: strs(permission_witnesses@),
            }),
    {
        OurDelegator {
            id,
            delegatee_id,
            iat,
            exp,
            accumulator_value,
            metadata_witnesses,
            permission_witnesses,
        }
    }

    /// A copy of this entry with its permission witnesses replaced.
    pub fn with_permission_witnesses(&self, permission_witnesses: Vec<String>) -> (r: OurDelegator)
        ensures
            r@ == (OurDelegatorRep { permission_witnesses: strs(permission_witnesses@), ..self@ }),
    {
        let r = OurDelegator {
            id: self.id.clone(),
            delegatee_id: self.delegatee_id.clone(),
            iat: self.iat.clone(),
            exp: self.exp.clone(),
            accumulator_value: self.accumulator_value.clone(),
            metadata_witnesses: self.metadata_witnesses.clone(),
            permission_witnesses,
        };
        proof {
            assert(strs(r.metadata_witnesses@) =~= strs(self.metadata_witnesses@));
        }
        r
    }

    pub fn id(&self) -> (r: &String)
        ensures
            r@ == self@.id,
    {
        &self.id
    }

    /// The JSON object members of this entry, in canonical order.
    pub fn to_map(&self) -> (r: Vec<(String, JsonValue)>)
        ensures
            rep_of_members(r@) == spec_delegator_members(self@),
    {
        let mut m: Vec<(String, JsonValue)> = Vec::new();
        m.push((String::from_str("id"), JsonValue::JString(self.id.clone())));
        m.push((String::from_str("sub"), JsonValue::JString(self.delegatee_id.clone())));
        m.push((String::from_str("iat"), JsonValue::JString(self.iat.clone())));
        m.push((String::from_str("exp"), JsonValue::JString(self.exp.clone())));
        m.push((String::from_str("av"), JsonValue::JString(self.accumulator_value.clone())));
        m.push((String::from_str("mw"), strings_to_json(&self.metadata_witnesses)));
        m.push((String::from_str("pw"), strings_to_json(&self.permission_witnesses)));
        proof {
            lemma_rep_of_members(m@);
            assert(rep_of_members(m@) =~= spec_delegator_members(self@));
        }
        m
    }

    /// Read a hierarchy entry out of a JSON object.
    pub fn from_map(map: &Vec<(String, JsonValue)>) -> (r: Result<OurDelegator, DelegationError>)
        ensures
            match r {
                Ok(d) => spec_delegator_from_map(rep_of_members(map@)) == Some(d@),
                Err(e) => e == DelegationError::Deserialize && spec_delegator_from_map(
                    rep_of_members(map@),
                ) is None,
            },
    {
        let id = match get_string_member(map, &String::from_str("id")) {
            Ok(v) => v,
            Err(e) => {
                return Err(e);
            },
        };
        let delegatee_id = match get_string_member(map, &String::from_str("sub")) {
            Ok(v) => v,
            Err(e) => {
                return Err(e);
            },
        };
        let iat = match get_string_member(map, &String::from_str("iat")) {
            Ok(v) => v,
            Err(e) => {
                return Err(e);
            },
        };
        let exp = match get_string_member(map, &String::from_str("exp")) {
            Ok(v) => v,
            Err(e) => {
                return Err(e);
            },
        };
        let accumulator_value = match get_string_member(map, &String::from_str("av")) {
            Ok(v) => v,
            Err(e) => {
                return Err(e);
            },
        };
        let metadata_witnesses = match get_string_array_member(map, &String::from_str("mw")) {
            Ok(v) => v,
            Err(e) => {
                return Err(e);
            },
        };
        let permission_witnesses = match get_string_array_member(map, &String::from_str("pw")) {
            Ok(v) => v,
            Err(e) => {
                return Err(e);
            },
        };
        Ok(
            OurDelegator {
                id,
                delegatee_id,
                iat,
                exp,
                accumulator_value,
                metadata_witnesses,
                permission_witnesses,
            },
        )
    }
}

impl Clone for OurDelegator {
    /// Cloning preserves the mathematical content.
    fn clone(&self) -> (r: Self)
        ensures
            r@ == self@,
    {
        let r = OurDelegator {
            id: self.id.clone(),
            delegatee_id: self.delegatee_id.clone(),
            iat: self.iat.clone(),
            exp: self.exp.clone(),
            accumulator_value: self.accumulator_value.clone(),
            metadata_witnesses: self.metadata_witnesses.clone(),
            permission_witnesses: self.permission_witnesses.clone(),
        };
        proof {
            assert(strs(r.metadata_witnesses@) =~= strs(self.metadata_witnesses@));
            assert(strs(r.permission_witnesses@) =~= strs(self.permission_witnesses@));
        }
        r
    }
}

impl OurDelegation for OurDelegator {
    open spec fn s_delegatee_id(&self) -> Seq<char> {
        self@.delegatee_id
    }

    open spec fn s_accumulator_value(&self) -> Seq<char> {
        self@.accumulator_value
    }

    open spec fn s_iat(&self) -> Seq<char> {
        self@.iat
    }

    open spec fn s_exp(&self) -> Seq<char> {
        self@.exp
    }

    open spec fn s_metadata_witnesses(&self) -> Seq<Seq<char>> {
        self@.metadata_witnesses
    }

    open spec fn s_permission_witnesses(&self) -> Seq<Seq<char>> {
        self@.permission_witnesses
    }

    fn delegatee_id(&self) -> (r: &String) {
        &self.delegatee_id
    }

    fn accumulator_value(&self) -> (r: &String) {
        &self.accumulator_value
    }

    fn iat(&self) -> (r: &String) {
        &self.iat
    }

    fn exp(&self) -> (r: &String) {
        &self.exp
    }

    fn metadata_witnesses(&self) -> (r: &Vec<String>) {
        &self.metadata_witnesses
    }

    fn permission_witnesses(&self) -> (r: &Vec<String>) {
        &self.permission_witnesses
    }
}

/// Reading back the canonical JSON object of a hierarchy entry yields the
/// entry itself: the map half of the round-trip law for hierarchy entries.
pub proof fn lemma_delegator_map_round_trip(d: OurDelegatorRep)
    ensures
        spec_delegator_from_map(spec_delegator_members(d)) == Some(d),
{
    reveal_strlit("id");
    reveal_strlit("sub");
    reveal_strlit("iat");
    reveal_strlit("exp");
    reveal_strlit("av");
    reveal_strlit("mw");
    reveal_strlit("pw");
    let m = spec_delegator_members(d);
    lemma_delegator_keys_distinct();
    let m1 = m.drop_first();
    let m2 = m1.drop_first();
    let m3 = m2.drop_first();
    let m4 = m3.drop_first();
    let m5 = m4.drop_first();
    let m6 = m5.drop_first();
    assert(m1[0] == m[1] && m2[0] == m[2] && m3[0] == m[3] && m4[0] == m[4] && m5[0] == m[5]
        && m6[0] == m[6]);
    assert(spec_obj_get(m, "id"@) == Some(JsonRep::Str(d.id)));
    assert(spec_obj_get(m, "sub"@) == spec_obj_get(m1, "sub"@));
    assert(spec_obj_get(m1, "sub"@) == Some(JsonRep::Str(d.delegatee_id)));
    assert(spec_obj_get(m, "iat"@) == spec_obj_get(m1, "iat"@));
    assert(spec_obj_get(m1, "iat"@) == spec_obj_get(m2, "iat"@));
    assert(spec_obj_get(m2, "iat"@) == Some(JsonRep::Str(d.iat)));
    assert(spec_obj_get(m, "exp"@) == spec_obj_get(m1, "exp"@));
    assert(spec_obj_get(m1, "exp"@) == spec_obj_get(m2, "exp"@));
    assert(spec_obj_get(m2, "exp"@) == spec_obj_get(m3, "exp"@));
    assert(spec_obj_get(m3, "exp"@) == Some(JsonRep::Str(d.exp)));
    assert(spec_obj_get(m, "av"@) == spec_obj_get(m1, "av"@));
    assert(spec_obj_get(m1, "av"@) == spec_obj_get(m2, "av"@));
    assert(spec_obj_get(m2, "av"@) == spec_obj_get(m3, "av"@));
    assert(spec_obj_get(m3, "av"@) == spec_obj_get(m4, "av"@));
    assert(spec_obj_get(m4, "av"@) == Some(JsonRep::Str(d.accumulator_value)));
    assert(spec_obj_get(m, "mw"@) == spec_obj_get(m1, "mw"@));
    assert(spec_obj_get(m1, "mw"@) == spec_obj_get(m2, "mw"@));
    assert(spec_obj_get(m2, "mw"@) == spec_obj_get(m3, "mw"@));
    assert(spec_obj_get(m3, "mw"@) == spec_obj_get(m4, "mw"@));
    assert(spec_obj_get(m4, "mw"@) == spec_obj_get(m5, "mw"@));
    assert(spec_obj_get(m5, "mw"@) == Some(JsonRep::Arr(str_reps(d.metadata_witnesses))));
    assert(spec_obj_get(m, "pw"@) == spec_obj_get(m1, "pw"@));
    assert(spec_obj_get(m1, "pw"@) == spec_obj_get(m2, "pw"@));
    assert(spec_obj_get(m2, "pw"@) == spec_obj_get(m3, "pw"@));
    assert(spec_obj_get(m3, "pw"@) == spec_obj_get(m4, "pw"@));
    assert(spec_obj_get(m4, "pw"@) == spec_obj_get(m5, "pw"@));
    assert(spec_obj_get(m5, "pw"@) == spec_obj_get(m6, "pw"@));
    assert(spec_obj_get(m6, "pw"@) == Some(JsonRep::Arr(str_reps(d.permission_witnesses))));
    lemma_strings_of_str_reps(d.metadata_witnesses);
    lemma_strings_of_str_reps(d.permission_witnesses);
}

/// The canonical member keys of a hierarchy entry are pairwise distinct.
proof fn lemma_delegator_keys_distinct()
    ensures
        "id"@ != "sub"@ && "id"@ != "iat"@ && "id"@ != "exp"@ && "id"@ != "av"@ && "id"@ != "mw"@
            && "id"@ != "pw"@,
        "sub"@ != "iat"@ && "sub"@ != "exp"@ && "sub"@ != "av"@ && "sub"@ != "mw"@ && "sub"@
            != "pw"@,
        "iat"@ != "exp"@ && "iat"@ != "av"@ && "iat"@ != "mw"@ && "iat"@ != "pw"@,
        "exp"@ != "av"@ && "exp"@ != "mw"@ && "exp"@ != "pw"@,
        "av"@ != "mw"@ && "av"@ != "pw"@,
        "mw"@ != "pw"@,
{
    reveal_strlit("id");
    reveal_strlit("sub");
    reveal_strlit("iat");
    reveal_strlit("exp");
    reveal_strlit("av");
    reveal_strlit("mw");
    reveal_strlit("pw");
    assert("id"@.len() == 2 && "av"@.len() == 2 && "mw"@.len() == 2 && "pw"@.len() == 2);
    assert("sub"@.len() == 3 && "iat"@.len() == 3 && "exp"@.len() == 3);
    assert("id"@[0] == 'i' && "av"@[0] == 'a' && "mw"@[0] == 'm' && "pw"@[0] == 'p');
    assert("sub"@[0] == 's' && "iat"@[0] == 'i' && "exp"@[0] == 'e');
    assert("iat"@[1] == 'a' && "sub"@[1] == 'u' && "exp"@[1] == 'x');
}

} // verus!
