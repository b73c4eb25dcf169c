use vstd::prelude::*;

use crate::errors::DelegationError;
use crate::json::{
    get_string_member, lemma_rep_of_members, rep_of_members, spec_obj_get, spec_str_member,
    JsonRep, JsonValue,
};

verus! {

broadcast use vstd::string::group_string_axioms;

/// The signature attached to a scheme-B credential: the base64url text of
/// the raw Ed25519 signature over the canonical JSON of the claims.
pub struct PJVSignature {
    signature: String,
}

impl View for PJVSignature {
    type V = Seq<char>;

    closed spec fn view(&self) -> Seq<char> {
        self.signature@
    }
}

/// The JSON object members of a signature, in canonical order.
pub open spec fn spec_signature_members(sig: Seq<char>) -> Seq<(Seq<char>, JsonRep)> {
    seq![("ED25519Signature"@, JsonRep::Str(sig))]
}

/// What reading a signature out of a JSON object yields.
pub open spec fn spec_signature_from_map(m: Seq<(Seq<char>, JsonRep)>) -> Option<Seq<char>> {
    spec_str_member(m, "ED25519Signature"@)
}

impl PJVSignature {
    pub fn new(signature: String) -> (r: PJVSignature)
        ensures
            r@ == signature@,
    {
        PJVSignature { signature }
    }

    pub fn signature(&self) -> (r: &String)
        ensures
            r@ == self@,
    {
        &self.signature
    }

    /// The JSON object members of this signature.
    pub fn to_map(&self) -> (r: Vec<(String, JsonValue)>)
        ensures
            rep_of_members(r@) == spec_signature_members(self@),
    {
        let mut m: Vec<(String, JsonValue)> = Vec::new();
        m.push((String::from_str("ED25519Signature"), JsonValue::JString(self.signature.clone())));
        proof {
            lemma_rep_of_members(m@);
            assert(rep_of_members(m@) =~= spec_signature_members(self@));
        }
        m
    }

    /// Read a signature out of a JSON object.
    pub fn from_map(map: &Vec<(String, JsonValue)>) -> (r: Result<PJVSignature, DelegationError>)
        ensures
            match r {
                Ok(s) => spec_signature_from_map(rep_of_members(map@)) == Some(s@),
                Err(e) => e == DelegationError::Deserialize && spec_signature_from_map(
                    rep_of_members(map@),
                ) is None,
            },
    {
        let signature = match get_string_member(map, &String::from_str("ED25519Signature")) {
            Ok(v) => v,
            Err(e) => {
                return Err(e);
            },
        };
        Ok(PJVSignature { signature })
    }
}

impl Clone for PJVSignature {
    /// Cloning preserves the mathematical content.
    fn clone(&self) -> (r: Self)
        ensures
            r@ == self@,
    {
        PJVSignature { signature: self.signature.clone() }
    }
}

/// Reading back the canonical JSON object of a signature yields it again.
pub proof fn lemma_signature_map_round_trip(sig: Seq<char>)
    ensures
        spec_signature_from_map(spec_signature_members(sig)) == Some(sig),
{
    let m = spec_signature_members(sig);
    assert(spec_obj_get(m, "ED25519Signature"@) == Some(JsonRep::Str(sig)));
}

} // verus!
