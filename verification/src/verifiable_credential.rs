use vstd::prelude::*;

use crate::errors::DelegationError;
use crate::json::{
    encode_json, get_string_array_member, get_string_member, lemma_rep_of_members, obj_get,
    parse_json, rep_of_members, spec_encode, spec_obj_get, spec_str_array_member, spec_str_member,
    str_reps, strings_to_json, JsonRep, JsonValue,
};
use crate::our_delegation_credential::{spec_odc_from_map, spec_odc_members, OurDelegationCredential};
use crate::pjv_delegation_credential::{
    spec_pjv_dc_from_map, spec_pjv_dc_members, PJVDelegationCredential,
};
use crate::text::strs;

verus! {

/// The mathematical content of a credential or presentation envelope.
pub struct EnvelopeRep<CV> {
    pub context: Seq<Seq<char>>,
    pub credential_type: Seq<Seq<char>>,
    pub id: Seq<char>,
    pub issuer: Seq<char>,
    pub valid_from: Seq<char>,
    pub credential: CV,
}

/// The W3C-style envelope members, in canonical order; the subject node is
/// supplied by the concrete credential shape.
pub open spec fn spec_envelope_members(
    context: Seq<Seq<char>>,
    credential_type: Seq<Seq<char>>,
    id: Seq<char>,
    issuer: Seq<char>,
    valid_from: Seq<char>,
    subject: JsonRep,
) -> Seq<(Seq<char>, JsonRep)> {
    seq![
        ("@context"@, JsonRep::Arr(str_reps(context))),
        ("type"@, JsonRep::Arr(str_reps(credential_type))),
        ("id"@, JsonRep::Str(id)),
        ("issuer"@, JsonRep::Str(issuer)),
        ("validFrom"@, JsonRep::Str(valid_from)),
        ("credentialSubject"@, subject),
    ]
}

/// What reading the envelope fields out of a JSON object yields; the
/// subject node is handed back raw.
pub open spec fn spec_envelope_from_map(m: Seq<(Seq<char>, JsonRep)>) -> Option<
    EnvelopeRep<JsonRep>,
> {
    if spec_str_array_member(m, "@context"@) is Some && spec_str_array_member(m, "type"@) is Some
        && spec_str_member(m, "id"@) is Some && spec_str_member(m, "issuer"@) is Some
        && spec_str_member(m, "validFrom"@) is Some && spec_obj_get(
        m,
        "credentialSubject"@,
    ) is Some {
        Some(
            EnvelopeRep {
                context: spec_str_array_member(m, "@context"@)->Some_0,
                credential_type: spec_str_array_member(m, "type"@)->Some_0,
                id: spec_str_member(m, "id"@)->Some_0,
                issuer: spec_str_member(m, "issuer"@)->Some_0,
                valid_from: spec_str_member(m, "validFrom"@)->Some_0,
                credential: spec_obj_get(m, "credentialSubject"@)->Some_0,
            },
        )
    } else {
        None
    }
}

/// An issuer-signed W3C-style container around a delegation credential.
pub struct VerifiableCredential<C> {
    context: Vec<String>,
    credential_type: Vec<String>,
    id: String,
    issuer: String,
    valid_from: String,
    credential: C,
}

impl<C: View> View for VerifiableCredential<C> {
    type V = EnvelopeRep<C::V>;

    closed spec fn view(&self) -> EnvelopeRep<C::V> {
        EnvelopeRep {
            context: strs(self.context@),
            credential_type: strs(self.credential_type@),
            id: self.id@,
            issuer: self.issuer@,
            valid_from: self.valid_from@,
            credential: self.credential@,
        }
    }
}

impl<C: View> VerifiableCredential<C> {
    pub fn context(&self) -> (r: &Vec<String>)
        ensures
            strs(r@) == self@.context,
    {
        &self.context
    }

    pub fn credential_type(&self) -> (r: &Vec<String>)
        ensures
            strs(r@) == self@.credential_type,
    {
        &self.credential_type
    }

    pub fn id(&self) -> (r: &String)
        ensures
            r@ == self@.id,
    {
        &self.id
    }

    pub fn issuer(&self) -> (r: &String)
        ensures
            r@ == self@.issuer,
    {
        &self.issuer
    }

    pub fn valid_from(&self) -> (r: &String)
        ensures
            r@ == self@.valid_from,
    {
        &self.valid_from
    }

    pub fn credential(&self) -> (r: &C)
        ensures
            r@ == self@.credential,
    {
        &self.credential
    }
}

/// Read the envelope fields out of a JSON object, handing the subject node
/// back for the concrete credential shape to parse.
pub fn envelope_from_map<'a>(map: &'a Vec<(String, JsonValue)>) -> (r: Result<
    (Vec<String>, Vec<String>, String, String, String, &'a JsonValue),
    DelegationError,
>)
    ensures
        match r {
            Ok(t) => spec_envelope_from_map(rep_of_members(map@)) == Some(
                EnvelopeRep {
                    context: strs(t.0@),
                    credential_type: strs(t.1@),
                    id: t.2@,
                    issuer: t.3@,
                    valid_from: t.4@,
                    credential: t.5@,
                },
            ),
            Err(e) => e == DelegationError::Deserialize && spec_envelope_from_map(
                rep_of_members(map@),
            ) is None,
        },
{
    let context = match get_string_array_member(map, &String::from_str("@context")) {
        Ok(v) => v,
        Err(e) => {
            return Err(e);
        },
    };
    let credential_type = match get_string_array_member(map, &String::from_str("type")) {
        Ok(v) => v,
        Err(e) => {
            return Err(e);
        },
    };
    let id = match get_string_member(map, &String::from_str("id")) {
        Ok(v) => v,
        Err(e) => {
            return Err(e);
        },
    };
    let issuer = match get_string_member(map, &String::from_str("issuer")) {
        Ok(v) => v,
        Err(e) => {
            return Err(e);
        },
    };
    let valid_from = match get_string_member(map, &String::from_str("validFrom")) {
        Ok(v) => v,
        Err(e) => {
            return Err(e);
        },
    };
    let subject = match obj_get(map, &String::from_str("credentialSubject")) {
        Some(v) => v,
        None => {
            return Err(DelegationError::Deserialize);
        },
    };
    Ok((context, credential_type, id, issuer, valid_from, subject))
}

impl VerifiableCredential<OurDelegationCredential> {
    /// Wrap a scheme-A credential; the type tag names the credential shape.
    pub fn new(
        context: Vec<String>,
        id: String,
        issuer: String,
        valid_from: String,
        credential: OurDelegationCredential,
    ) -> (r: VerifiableCredential<OurDelegationCredential>)
        ensures
            r@ == (EnvelopeRep {
                context: strs(context@),
                credential_type: seq!["OurDelegationCredential"@],
                id: id@,
                issuer: issuer@,
                valid_from: valid_from@,
                credential: credential@,
            }),
    {
        let tag = String::from_str(credential.credential_type());
        let mut credential_type: Vec<String> = Vec::new();
        credential_type.push(tag);
        let r = VerifiableCredential { context, credential_type, id, issuer, valid_from, credential };
        proof {
            assert(strs(r.credential_type@) =~= seq!["OurDelegationCredential"@]);
        }
        r
    }

    /// The JSON object members of this credential, in canonical order.
    pub fn to_map(&self) -> (r: Vec<(String, JsonValue)>)
        ensures
            rep_of_members(r@) == spec_envelope_members(
                self@.context,
                self@.credential_type,
                self@.id,
                self@.issuer,
                self@.valid_from,
                JsonRep::Obj(spec_odc_members(self@.credential)),
            ),
    {
        let mut m: Vec<(String, JsonValue)> = Vec::new();
        m.push((String::from_str("@context"), strings_to_json(&self.context)));
        m.push((String::from_str("type"), strings_to_json(&self.credential_type)));
        m.push((String::from_str("id"), JsonValue::JString(self.id.clone())));
        m.push((String::from_str("issuer"), JsonValue::JString(self.issuer.clone())));
        m.push((String::from_str("validFrom"), JsonValue::JString(self.valid_from.clone())));
        m.push((String::from_str("credentialSubject"), JsonValue::JObject(self.credential.to_map())));
        proof {
            lemma_rep_of_members(m@);
            assert(rep_of_members(m@) =~= spec_envelope_members(
                self@.context,
                self@.credential_type,
                self@.id,
                self@.issuer,
                self@.valid_from,
                JsonRep::Obj(spec_odc_members(self@.credential)),
            ));
        }
        m
    }

    /// Render this credential as its canonical JSON text.
    pub fn to_string(&self) -> (r: Result<String, DelegationError>)
        ensures
            r matches Ok(s) && s@ == spec_encode(
                JsonRep::Obj(
                    spec_envelope_members(
                        self@.context,
                        self@.credential_type,
                        self@.id,
                        self@.issuer,
                        self@.valid_from,
                        JsonRep::Obj(spec_odc_members(self@.credential)),
                    ),
                ),
            ),
    {
        Ok(encode_json(&JsonValue::JObject(self.to_map())))
    }

    /// Read a scheme-A credential envelope out of a JSON object.
    pub fn from_map(map: &Vec<(String, JsonValue)>) -> (r: Result<
        VerifiableCredential<OurDelegationCredential>,
        DelegationError,
    >)
        ensures
            r matches Ok(vc) ==> (spec_envelope_from_map(rep_of_members(map@)) matches Some(env)
                && env.credential matches JsonRep::Obj(sm) && spec_odc_from_map(sm) == Some(
                vc@.credential,
            ) && vc@.context == env.context && vc@.credential_type == env.credential_type
                && vc@.id == env.id && vc@.issuer == env.issuer && vc@.valid_from
                == env.valid_from),
    {
        let (context, credential_type, id, issuer, valid_from, subject) = match envelope_from_map(
            map,
        ) {
            Ok(t) => t,
            Err(e) => {
                return Err(e);
            },
        };
        let members = match subject {
            JsonValue::JObject(members) => members,
            _ => {
                return Err(DelegationError::Deserialize);
            },
        };
        let credential = match OurDelegationCredential::from_map(members) {
            Ok(c) => c,
            Err(e) => {
                return Err(e);
            },
        };
        Ok(VerifiableCredential { context, credential_type, id, issuer, valid_from, credential })
    }

    /// Parse a credential envelope from JSON text.
    pub fn from_string(text: &String) -> (r: Result<
        VerifiableCredential<OurDelegationCredential>,
        DelegationError,
    >) {
        let parsed = match parse_json(text) {
            Ok(v) => v,
            Err(e) => {
                return Err(e);
            },
        };
        let members = match parsed {
            JsonValue::JObject(members) => members,
            _ => {
                return Err(DelegationError::Deserialize);
            },
        };
        Self::from_map(&members)
    }
}

impl Clone for VerifiableCredential<OurDelegationCredential> {
    /// Cloning preserves the mathematical content.
    fn clone(&self) -> (r: Self)
        ensures
            r@ == self@,
    {
        let r = VerifiableCredential {
            context: self.context.clone(),
            credential_type: self.credential_type.clone(),
            id: self.id.clone(),
            issuer: self.issuer.clone(),
            valid_from: self.valid_from.clone(),
            credential: self.credential.clone(),
        };
        proof {
            assert(strs(r.context@) =~= strs(self.context@));
            assert(strs(r.credential_type@) =~= strs(self.credential_type@));
        }
        r
    }
}

impl VerifiableCredential<PJVDelegationCredential> {
    /// Wrap a scheme-B credential; the type tag names the credential shape.
    pub fn new(
        context: Vec<String>,
        id: String,
        issuer: String,
        valid_from: String,
        credential: PJVDelegationCredential,
    ) -> (r: VerifiableCredential<PJVDelegationCredential>)
        ensures
            r@ == (EnvelopeRep {
                context: strs(context@),
                credential_type: seq!["PJVDelegationCredential"@],
                id: id@,
                issuer: issuer@,
                valid_from: valid_from@,
                credential: credential@,
            }),
    {
        let tag = String::from_str(credential.credential_type());
        let mut credential_type: Vec<String> = Vec::new();
        credential_type.push(tag);
        let r = VerifiableCredential { context, credential_type, id, issuer, valid_from, credential };
        proof {
            assert(strs(r.credential_type@) =~= seq!["PJVDelegationCredential"@]);
        }
        r
    }

    /// The JSON object members of this credential, in canonical order.
    pub fn to_map(&self) -> (r: Vec<(String, JsonValue)>)
        ensures
            rep_of_members(r@) == spec_envelope_members(
                self@.context,
                self@.credential_type,
                self@.id,
                self@.issuer,
                self@.valid_from,
                JsonRep::Obj(spec_pjv_dc_members(self@.credential)),
            ),
    {
        let mut m: Vec<(String, JsonValue)> = Vec::new();
        m.push((String::from_str("@context"), strings_to_json(&self.context)));
        m.push((String::from_str("type"), strings_to_json(&self.credential_type)));
        m.push((String::from_str("id"), JsonValue::JString(self.id.clone())));
        m.push((String::from_str("issuer"), JsonValue::JString(self.issuer.clone())));
        m.push((String::from_str("validFrom"), JsonValue::JString(self.valid_from.clone())));
        m.push((String::from_str("credentialSubject"), JsonValue::JObject(self.credential.to_map())));
        proof {
            lemma_rep_of_members(m@);
            assert(rep_of_members(m@) =~= spec_envelope_members(
                self@.context,
                self@.credential_type,
                self@.id,
                self@.issuer,
                self@.valid_from,
                JsonRep::Obj(spec_pjv_dc_members(self@.credential)),
            ));
        }
        m
    }

    /// Render this credential as its canonical JSON text.
    pub fn to_string(&self) -> (r: Result<String, DelegationError>)
        ensures
            r matches Ok(s) && s@ == spec_encode(
                JsonRep::Obj(
                    spec_envelope_members(
                        self@.context,
                        self@.credential_type,
                        self@.id,
                        self@.issuer,
                        self@.valid_from,
                        JsonRep::Obj(spec_pjv_dc_members(self@.credential)),
                    ),
                ),
            ),
    {
        Ok(encode_json(&JsonValue::JObject(self.to_map())))
    }

    /// Read a scheme-B credential envelope out of a JSON object.
    pub fn from_map(map: &Vec<(String, JsonValue)>) -> (r: Result<
        VerifiableCredential<PJVDelegationCredential>,
        DelegationError,
    >)
        ensures
            r matches Ok(vc) ==> (spec_envelope_from_map(rep_of_members(map@)) matches Some(env)
                && env.credential matches JsonRep::Obj(sm) && spec_pjv_dc_from_map(sm) == Some(
                vc@.credential,
            ) && vc@.context == env.context && vc@.credential_type == env.credential_type
                && vc@.id == env.id && vc@.issuer == env.issuer && vc@.valid_from
                == env.valid_from),
    {
        let (context, credential_type, id, issuer, valid_from, subject) = match envelope_from_map(
            map,
        ) {
            Ok(t) => t,
            Err(e) => {
                return Err(e);
            },
        };
        let members = match subject {
            JsonValue::JObject(members) => members,
            _ => {
                return Err(DelegationError::Deserialize);
            },
        };
        let credential = match PJVDelegationCredential::from_map(members) {
            Ok(c) => c,
            Err(e) => {
                return Err(e);
            },
        };
        Ok(VerifiableCredential { context, credential_type, id, issuer, valid_from, credential })
    }

    /// Parse a credential envelope from JSON text.
    pub fn from_string(text: &String) -> (r: Result<
        VerifiableCredential<PJVDelegationCredential>,
        DelegationError,
    >) {
        let parsed = match parse_json(text) {
            Ok(v) => v,
            Err(e) => {
                return Err(e);
            },
        };
        let members = match parsed {
            JsonValue::JObject(members) => members,
            _ => {
                return Err(DelegationError::Deserialize);
            },
        };
        Self::from_map(&members)
    }
}

impl Clone for VerifiableCredential<PJVDelegationCredential> {
    /// Cloning preserves the mathematical content.
    fn clone(&self) -> (r: Self)
        ensures
            r@ == self@,
    {
        let r = VerifiableCredential {
            context: self.context.clone(),
            credential_type: self.credential_type.clone(),
            id: self.id.clone(),
            issuer: self.issuer.clone(),
            valid_from: self.valid_from.clone(),
            credential: self.credential.clone(),
        };
        proof {
            assert(strs(r.context@) =~= strs(self.context@));
            assert(strs(r.credential_type@) =~= strs(self.credential_type@));
        }
        r
    }
}

} // verus!
