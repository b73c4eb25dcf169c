use vstd::prelude::*;

use crate::errors::DelegationError;
use crate::json::{
    encode_json, get_string_array_member, get_string_member, lemma_rep_of_members,
    lemma_strings_of_str_reps, rep_of_members, spec_encode, spec_obj_get, spec_str_array_member,
    spec_str_member, str_reps, strings_to_json, JsonRep, JsonValue,
};
use crate::text::strs;

verus! {

broadcast use vstd::string::group_string_axioms;

/// The mathematical content of a scheme-B claim set.
pub struct PJVDelegatorRep {
    pub owner: Seq<char>,
    pub iss: Seq<char>,
    pub sub: Seq<char>,
    pub iat: Seq<char>,
    pub exp: Seq<char>,
    pub resource_uri: Seq<char>,
    pub operations: Seq<Seq<char>>,
    pub hierarchy: Seq<char>,
}

/// The claim set of a scheme-B credential. `hierarchy` is empty for a root
/// credential, and otherwise holds the compact JWE of the parent credential
/// encrypted for the resource owner.
pub struct PJVDelegator {
    owner: String,
    iss: String,
    sub: String,
    iat: String,
    exp: String,
    resource_uri: String,
    operations: Vec<String>,
    hierarchy: String,
}

impl View for PJVDelegator {
    type V = PJVDelegatorRep;

    closed spec fn view(&self) -> PJVDelegatorRep {
        PJVDelegatorRep {
            owner: self.owner@,
            iss: self.iss@,
            sub: self.sub@,
            iat: self.iat@,
            exp: self.exp@,
            resource_uri: self.resource_uri@,
            operations: strs(self.operations@),
            hierarchy: self.hierarchy@,
        }
    }
}

/// The JSON object members of a claim set, in canonical order.
pub open spec fn spec_pjv_delegator_members(d: PJVDelegatorRep) -> Seq<(Seq<char>, JsonRep)> {
    seq![
        ("owner"@, JsonRep::Str(d.owner)),
        ("iss"@, JsonRep::Str(d.iss)),
        ("sub"@, JsonRep::Str(d.sub)),
        ("iat"@, JsonRep::Str(d.iat)),
        ("exp"@, JsonRep::Str(d.exp)),
        ("uri"@, JsonRep::Str(d.resource_uri)),
        ("ops"@, JsonRep::Arr(str_reps(d.operations))),
        ("hierarchy"@, JsonRep::Str(d.hierarchy)),
    ]
}

/// The canonical JSON text of a claim set: what gets signed.
pub open spec fn spec_pjv_delegator_json(d: PJVDelegatorRep) -> Seq<char> {
    spec_encode(JsonRep::Obj(spec_pjv_delegator_members(d)))
}

/// What reading a claim set out of a JSON object yields.
pub open spec fn spec_pjv_delegator_from_map(m: Seq<(Seq<char>, JsonRep)>) -> Option<
    PJVDelegatorRep,
> {
    if spec_str_member(m, "owner"@) is Some && spec_str_member(m, "iss"@) is Some
        && spec_str_member(m, "sub"@) is Some && spec_str_member(m, "iat"@) is Some
        && spec_str_member(m, "exp"@) is Some && spec_str_member(m, "uri"@) is Some
        && spec_str_array_member(m, "ops"@) is Some && spec_str_member(m, "hierarchy"@) is Some {
        Some(
            PJVDelegatorRep {
                owner: spec_str_member(m, "owner"@)->Some_0,
                iss: spec_str_member(m, "iss"@)->Some_0,
                sub: spec_str_member(m, "sub"@)->Some_0,
                iat: spec_str_member(m, "iat"@)->Some_0,
                exp: spec_str_member(m, "exp"@)->Some_0,
                resource_uri: spec_str_member(m, "uri"@)->Some_0,
                operations: spec_str_array_member(m, "ops"@)->Some_0,
                hierarchy: spec_str_member(m, "hierarchy"@)->Some_0,
            },
        )
    } else {
        None
    }
}

impl PJVDelegator {
    pub fn new(
        owner: String,
        iss: String,
        sub: String,
        iat: String,
        exp: String,
        resource_uri: String,
        operations: Vec<String>,
        hierarchy: String,
    ) -> (r: PJVDelegator)
        ensures
            r@ == (PJVDelegatorRep {
                owner: owner@,
                iss: iss@,
                sub: sub@,
                iat: iat@,
                exp: exp@,
                resource_uri: resource_uri@,
                operations: strs(operations@),
                hierarchy: hierarchy@,
            }),
    {
        PJVDelegator { owner, iss, sub, iat, exp, resource_uri, operations, hierarchy }
    }

    pub fn owner(&self) -> (r: &String)
        ensures
            r@ == self@.owner,
    {
        &self.owner
    }

    pub fn iss(&self) -> (r: &String)
        ensures
            r@ == self@.iss,
    {
        &self.iss
    }

    pub fn sub(&self) -> (r: &String)
        ensures
            r@ == self@.sub,
    {
        &self.sub
    }

    pub fn iat(&self) -> (r: &String)
        ensures
            r@ == self@.iat,
    {
        &self.iat
    }

    pub fn exp(&self) -> (r: &String)
        ensures
            r@ == self@.exp,
    {
        &self.exp
    }

    pub fn resource_uri(&self) -> (r: &String)
        ensures
            r@ == self@.resource_uri,
    {
        &self.resource_uri
    }

    pub fn operations(&self) -> (r: &Vec<String>)
        ensures
            strs(r@) == self@.operations,
    {
        &self.operations
    }

    pub fn hierarchy(&self) -> (r: &String)
        ensures
            r@ == self@.hierarchy,
    {
        &self.hierarchy
    }

    /// A copy of this claim set with its operations replaced.
    pub fn with_operations(&self, operations: Vec<String>) -> (r: PJVDelegator)
        ensures
            r@ == (PJVDelegatorRep { operations: strs(operations@), ..self@ }),
    {
        PJVDelegator {
            owner: self.owner.clone(),
            iss: self.iss.clone(),
            sub: self.sub.clone(),
            iat: self.iat.clone(),
            exp: self.exp.clone(),
            resource_uri: self.resource_uri.clone(),
            operations,
            hierarchy: self.hierarchy.clone(),
        }
    }

    /// The JSON object members of this claim set, in canonical order.
    pub fn to_map(&self) -> (r: Vec<(String, JsonValue)>)
        ensures
            rep_of_members(r@) == spec_pjv_delegator_members(self@),
    {
        let mut m: Vec<(String, JsonValue)> = Vec::new();
        m.push((String::from_str("owner"), JsonValue::JString(self.owner.clone())));
        m.push((String::from_str("iss"), JsonValue::JString(self.iss.clone())));
        m.push((String::from_str("sub"), JsonValue::JString(self.sub.clone())));
        m.push((String::from_str("iat"), JsonValue::JString(self.iat.clone())));
        m.push((String::from_str("exp"), JsonValue::JString(self.exp.clone())));
        m.push((String::from_str("uri"), JsonValue::JString(self.resource_uri.clone())));
        m.push((String::from_str("ops"), strings_to_json(&self.operations)));
        m.push((String::from_str("hierarchy"), JsonValue::JString(self.hierarchy.clone())));
        proof {
            lemma_rep_of_members(m@);
            assert(rep_of_members(m@) =~= spec_pjv_delegator_members(self@));
        }
        m
    }

    /// The canonical JSON text of this claim set: the bytes that are signed
    /// and, for a parent credential, encrypted.
    pub fn to_string(&self) -> (r: Result<String, DelegationError>)
        ensures
            r matches Ok(s) && s@ == spec_pjv_delegator_json(self@),
    {
        Ok(encode_json(&JsonValue::JObject(self.to_map())))
    }

    /// Read a claim set out of a JSON object.
    pub fn from_map(map: &Vec<(String, JsonValue)>) -> (r: Result<PJVDelegator, DelegationError>)
        ensures
            match r {
                Ok(d) => spec_pjv_delegator_from_map(rep_of_members(map@)) == Some(d@),
                Err(e) => e == DelegationError::Deserialize && spec_pjv_delegator_from_map(
                    rep_of_members(map@),
                ) is None,
            },
    {
        let owner = match get_string_member(map, &String::from_str("owner")) {
            Ok(v) => v,
            Err(e) => {
                return Err(e);
            },
        };
        let iss = match get_string_member(map, &String::from_str("iss")) {
            Ok(v) => v,
            Err(e) => {
                return Err(e);
            },
        };
        let sub = match get_string_member(map, &String::from_str("sub")) {
            Ok(v) => v,
            Err(e) => {
                return Err(e);
            },
        };
        let iat = match get_string_member(map, &String::from_str("iat")) {
            Ok(v) => v,
            Err(e) => {
                return Err(e);
            },
        };
        let exp = match get_string_member(map, &String::from_str("exp")) {
            Ok(v) => v,
            Err(e) => {
                return Err(e);
            },
        };
        let resource_uri = match get_string_member(map, &String::from_str("uri")) {
            Ok(v) => v,
            Err(e) => {
                return Err(e);
            },
        };
        let operations = match get_string_array_member(map, &String::from_str("ops")) {
            Ok(v) => v,
            Err(e) => {
                return Err(e);
            },
        };
        let hierarchy = match get_string_member(map, &String::from_str("hierarchy")) {
            Ok(v) => v,
            Err(e) => {
                return Err(e);
            },
        };
        Ok(PJVDelegator { owner, iss, sub, iat, exp, resource_uri, operations, hierarchy })
    }
}

impl Clone for PJVDelegator {
    /// Cloning preserves the mathematical content.
    fn clone(&self) -> (r: Self)
        ensures
            r@ == self@,
    {
        let r = PJVDelegator {
            owner: self.owner.clone(),
            iss: self.iss.clone(),
            sub: self.sub.clone(),
            iat: self.iat.clone(),
            exp: self.exp.clone(),
            resource_uri: self.resource_uri.clone(),
            operations: self.operations.clone(),
            hierarchy: self.hierarchy.clone(),
        };
        proof {
            assert(strs(r.operations@) =~= strs(self.operations@));
        }
        r
    }
}

/// Reading back the canonical JSON object of a claim set yields the claim
/// set itself.
pub proof fn lemma_pjv_delegator_map_round_trip(d: PJVDelegatorRep)
    ensures
        spec_pjv_delegator_from_map(spec_pjv_delegator_members(d)) == Some(d),
{
    reveal_strlit("owner");
    reveal_strlit("iss");
    reveal_strlit("sub");
    reveal_strlit("iat");
    reveal_strlit("exp");
    reveal_strlit("uri");
    reveal_strlit("ops");
    reveal_strlit("hierarchy");
    assert("owner"@.len() == 5 && "hierarchy"@.len() == 9);
    assert("iss"@.len() == 3 && "sub"@.len() == 3 && "iat"@.len() == 3 && "exp"@.len() == 3
        && "uri"@.len() == 3 && "ops"@.len() == 3);
    assert("iss"@[0] == 'i' && "sub"@[0] == 's' && "iat"@[0] == 'i' && "exp"@[0] == 'e'
        && "uri"@[0] == 'u' && "ops"@[0] == 'o');
    assert("iss"@[1] == 's' && "iat"@[1] == 'a');
    let m = spec_pjv_delegator_members(d);
    let m1 = m.drop_first();
    let m2 = m1.drop_first();
    let m3 = m2.drop_first();
    let m4 = m3.drop_first();
    let m5 = m4.drop_first();
    let m6 = m5.drop_first();
    let m7 = m6.drop_first();
    assert(m1[0] == m[1] && m2[0] == m[2] && m3[0] == m[3] && m4[0] == m[4] && m5[0] == m[5]
        && m6[0] == m[6] && m7[0] == m[7]);
    assert(spec_obj_get(m, "owner"@) == Some(JsonRep::Str(d.owner)));
    assert(spec_obj_get(m, "iss"@) == spec_obj_get(m1, "iss"@));
    assert(spec_obj_get(m1, "iss"@) == Some(JsonRep::Str(d.iss)));
    assert(spec_obj_get(m, "sub"@) == spec_obj_get(m1, "sub"@));
    assert(spec_obj_get(m1, "sub"@) == spec_obj_get(m2, "sub"@));
    assert(spec_obj_get(m2, "sub"@) == Some(JsonRep::Str(d.sub)));
    assert(spec_obj_get(m, "iat"@) == spec_obj_get(m1, "iat"@));
    assert(spec_obj_get(m1, "iat"@) == spec_obj_get(m2, "iat"@));
    assert(spec_obj_get(m2, "iat"@) == spec_obj_get(m3, "iat"@));
    assert(spec_obj_get(m3, "iat"@) == Some(JsonRep::Str(d.iat)));
    assert(spec_obj_get(m, "exp"@) == spec_obj_get(m1, "exp"@));
    assert(spec_obj_get(m1, "exp"@) == spec_obj_get(m2, "exp"@));
    assert(spec_obj_get(m2, "exp"@) == spec_obj_get(m3, "exp"@));
    assert(spec_obj_get(m3, "exp"@) == spec_obj_get(m4, "exp"@));
    assert(spec_obj_get(m4, "exp"@) == Some(JsonRep::Str(d.exp)));
    assert(spec_obj_get(m, "uri"@) == spec_obj_get(m1, "uri"@));
    assert(spec_obj_get(m1, "uri"@) == spec_obj_get(m2, "uri"@));
    assert(spec_obj_get(m2, "uri"@) == spec_obj_get(m3, "uri"@));
    assert(spec_obj_get(m3, "uri"@) == spec_obj_get(m4, "uri"@));
    assert(spec_obj_get(m4, "uri"@) == spec_obj_get(m5, "uri"@));
    assert(spec_obj_get(m5, "uri"@) == Some(JsonRep::Str(d.resource_uri)));
    assert(spec_obj_get(m, "ops"@) == spec_obj_get(m1, "ops"@));
    assert(spec_obj_get(m1, "ops"@) == spec_obj_get(m2, "ops"@));
    assert(spec_obj_get(m2, "ops"@) == spec_obj_get(m3, "ops"@));
    assert(spec_obj_get(m3, "ops"@) == spec_obj_get(m4, "ops"@));
    assert(spec_obj_get(m4, "ops"@) == spec_obj_get(m5, "ops"@));
    assert(spec_obj_get(m5, "ops"@) == spec_obj_get(m6, "ops"@));
    assert(spec_obj_get(m6, "ops"@) == Some(JsonRep::Arr(str_reps(d.operations))));
    assert(spec_obj_get(m, "hierarchy"@) == spec_obj_get(m1, "hierarchy"@));
    assert(spec_obj_get(m1, "hierarchy"@) == spec_obj_get(m2, "hierarchy"@));
    assert(spec_obj_get(m2, "hierarchy"@) == spec_obj_get(m3, "hierarchy"@));
    assert(spec_obj_get(m3, "hierarchy"@) == spec_obj_get(m4, "hierarchy"@));
    assert(spec_obj_get(m4, "hierarchy"@) == spec_obj_get(m5, "hierarchy"@));
    assert(spec_obj_get(m5, "hierarchy"@) == spec_obj_get(m6, "hierarchy"@));
    assert(spec_obj_get(m6, "hierarchy"@) == spec_obj_get(m7, "hierarchy"@));
    assert(spec_obj_get(m7, "hierarchy"@) == Some(JsonRep::Str(d.hierarchy)));
    lemma_strings_of_str_reps(d.operations);
}

} // verus!
