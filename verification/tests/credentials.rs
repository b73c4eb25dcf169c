use delegation::json::{encode_json, parse_json, JsonValue};
use delegation::our_delegation_credential::OurDelegationCredential;
use delegation::our_delegator::OurDelegator;
use delegation::pjv_delegator::PJVDelegator;
use delegation::verifiable_credential::VerifiableCredential;

pub const DC_D1: &str = r#"{
    "sub": "https://vc.example/delegators/d1",
    "av": "accumulator_value_d1",
    "iat": "0000000001",
    "exp": "1000000000",
    "per": [ "https://vc.example/resources/r1:p0", "https://vc.example/resources/r1:p1", "https://vc.example/resources/r1:p2" ],
    "mw": [ "w_delegatee_id_d1", "w_iat_d1", "w_exp_d1" ],
    "pw": [ "w0d1", "w1d1", "w2d1" ],
    "hierarchy": []
}"#;

pub const DC_D2: &str = r#"{
    "sub": "https://vc.example/delegators/d2",
    "av": "accumulator_value_d2",
    "iat": "0000000002",
    "exp": "1000000000",
    "per": [ "https://vc.example/resources/r1:p0", "https://vc.example/resources/r1:p1" ],
    "mw": [ "w_delegatee_id_d2", "w_iat_d2", "w_exp_d2" ],
    "pw": [ "w0d2", "w1d2" ],
    "hierarchy": [
        {
            "id": "https://vc.example/delegators/d0",
            "sub": "https://vc.example/delegators/d1",
            "iat": "0000000001",
            "exp": "1000000000",
            "av": "accumulator_value_d1",
            "mw": [ "w_delegatee_id_d1", "w_iat_d1", "w_exp_d1" ],
            "pw": [ "w0d1", "w1d1" ]
        }
    ]
}"#;

pub const DC_D3: &str = r#"{
    "sub": "https://vc.example/delegators/d3",
    "av": "accumulator_value_d3",
    "iat": "0000000003",
    "exp": "1000000000",
    "per": [ "https://vc.example/resources/r1:p0", "https://vc.example/resources/r1:p1" ],
    "mw": [ "w_delegatee_id_d3", "w_iat_d3", "w_exp_d3" ],
    "pw": [ "w0d3", "w1d3" ],
    "hierarchy": [
        {
            "id": "https://vc.example/delegators/d0",
            "sub": "https://vc.example/delegators/d1",
            "iat": "0000000001",
            "exp": "1000000000",
            "av": "accumulator_value_d1",
            "mw": [ "w_delegatee_id_d1", "w_iat_d1", "w_exp_d1" ],
            "pw": [ "w0d1", "w1d1" ]
        },
        {
            "id": "https://vc.example/delegators/d1",
            "sub": "https://vc.example/delegators/d2",
            "iat": "0000000002",
            "exp": "1000000000",
            "av": "accumulator_value_d2",
            "mw": [ "w_delegatee_id_d2", "w_iat_d2", "w_exp_d2" ],
            "pw": [ "w0d2", "w1d2" ]
        }
    ]
}"#;

pub const DC_D4: &str = r#"{
    "sub": "https://vc.example/delegators/d4",
    "av": "accumulator_value_d4",
    "iat": "0000000004",
    "exp": "1000000000",
    "per": [ "https://vc.example/resources/r1:p0" ],
    "mw": [ "w_delegatee_id_d4", "w_iat_d4", "w_exp_d4" ],
    "pw": [ "w0d4" ],
    "hierarchy": [
        {
            "id": "https://vc.example/delegators/d0",
            "sub": "https://vc.example/delegators/d1",
            "iat": "0000000001",
            "exp": "1000000000",
            "av": "accumulator_value_d1",
            "mw": [ "w_delegatee_id_d1", "w_iat_d1", "w_exp_d1" ],
            "pw": [ "w0d1" ]
        },
        {
            "id": "https://vc.example/delegators/d1",
            "sub": "https://vc.example/delegators/d2",
            "iat": "0000000002",
            "exp": "1000000000",
            "av": "accumulator_value_d2",
            "mw": [ "w_delegatee_id_d2", "w_iat_d2", "w_exp_d2" ],
            "pw": [ "w0d2" ]
        },
        {
            "id": "https://vc.example/delegators/d2",
            "sub": "https://vc.example/delegators/d3",
            "iat": "0000000003",
            "exp": "1000000000",
            "av": "accumulator_value_d3",
            "mw": [ "w_delegatee_id_d3", "w_iat_d3", "w_exp_d3" ],
            "pw": [ "w0d3" ]
        }
    ]
}"#;

#[test]
fn our_delegation_credential_parse_dc() -> Result<(), String> {
    let dcs: Vec<&str> = vec![DC_D1, DC_D2, DC_D3, DC_D4];
    let names: Vec<&str> = vec!["D1", "D2", "D3", "D4"];

    for (name, dc) in names.iter().zip(dcs.iter()) {
        let dc: OurDelegationCredential =
            match OurDelegationCredential::from_string(&dc.to_string()) {
                Ok(dc) => dc,
                Err(err) => {
                    return Err(format!("Failed to deserialize DelegationCredential [{err:?}]"))
                }
            };

        let dc_map = dc.to_map();
        let dc = OurDelegationCredential::from_map(&dc_map)
            .map_err(|e| format!("from_map failed [{e:?}]"))?;

        let rendered = dc.to_string().map_err(|e| format!("to_string failed [{e:?}]"))?;
        println!("[{name}]\nDelegationCredential object: [{rendered}]");
    }

    Ok(())
}

const DELEGATOR_OBJECT: &str = r#"{
        "id": "https://vc.example/delegators/d0",
        "sub": "https://vc.example/delegators/d1",
        "iat": "0000000001",
        "exp": "1000000000",
        "av": "accumulator_value_d1",
        "mw": [ "w_delegatee_id_d1", "w_iat_d1", "w_exp_d1" ],
        "pw": [ "w0d1", "w1d1" ]
}"#;

#[test]
fn our_delegator_display_delegator() -> Result<(), String> {
    let delegator_value = match parse_json(&DELEGATOR_OBJECT.to_string()) {
        Ok(delegator_value) => delegator_value,
        Err(e) => return Err(format!("Failed to parse delegator object: [{e:?}]")),
    };
    let delegator_map = match delegator_value {
        JsonValue::JObject(delegator_map) => delegator_map,
        _ => return Err("Parsed delegator is not an object.".to_string()),
    };

    let delegator = match OurDelegator::from_map(&delegator_map) {
        Ok(delegator) => delegator,
        Err(err) => return Err(format!("Failed to parse delegator object: [{err:?}]")),
    };

    let rendered = encode_json(&JsonValue::JObject(delegator.to_map()));
    println!("{rendered}");

    Ok(())
}

const PJV_DELEGATOR_OBJECT: &str = r#"{
        "owner": "https://vc.example/delegators/d0",
        "iss": "https://vc.example/delegators/d0",
        "sub": "https://vc.example/delegators/d1",
        "iat": "0000000001",
        "exp": "1000000000",
        "uri": "https://api.example.edu/main-door",
        "ops": ["GET"],
        "hierarchy": ""
}"#;

#[test]
fn pjv_delegator_display_delegator() -> Result<(), String> {
    let delegator_value = match parse_json(&PJV_DELEGATOR_OBJECT.to_string()) {
        Ok(delegator_value) => delegator_value,
        Err(e) => return Err(format!("Failed to parse delegator object: [{e:?}]")),
    };
    let delegator_map = match delegator_value {
        JsonValue::JObject(delegator_map) => delegator_map,
        _ => return Err("Parsed delegator is not an object.".to_string()),
    };

    let delegator = match PJVDelegator::from_map(&delegator_map) {
        Ok(delegator) => delegator,
        Err(err) => return Err(format!("Failed to parse delegator object: [{err:?}]")),
    };

    let rendered = delegator.to_string().map_err(|e| format!("to_string failed [{e:?}]"))?;
    println!("{rendered}");

    Ok(())
}

fn vc_json(id: &str, issuer: &str, subject: &str) -> String {
    format!(
        r#"{{
    "@context": [ "https://www.w3.org/ns/credentials/v2" ],
    "type": [ "DelegationCredential" ],
    "id": "{id}",
    "issuer": "{issuer}",
    "validFrom": "2010-01-01T00:00:00Z",

    "credentialSubject": {subject}
}}"#
    )
}

#[test]
fn verifiable_credential_parse_dc() -> Result<(), String> {
    let raw_vcs: Vec<String> = vec![
        vc_json("http://delegation.example/credentials/1337", "https://vc.example/delegators/d0", DC_D1),
        vc_json("http://delegation.example/credentials/1338", "https://vc.example/delegators/d1", DC_D2),
        vc_json("http://delegation.example/credentials/1339", "https://vc.example/delegators/d2", DC_D3),
        vc_json("http://delegation.example/credentials/1340", "https://vc.example/delegators/d3", DC_D4),
    ];
    let names: Vec<&str> = vec!["D1", "D2", "D3", "D4"];

    for (name, raw) in names.iter().zip(raw_vcs.iter()) {
        let vc = match VerifiableCredential::<OurDelegationCredential>::from_string(raw) {
            Ok(vc) => vc,
            Err(err) => {
                return Err(format!(
                    "Failed to parse [{name}] Raw Verifiable Credential from string. [{err:?}]"
                ));
            }
        };

        let rendered = vc.to_string().map_err(|err| format!("Error in serialization of vc: [{err:?}]"))?;
        println!("Parsed VC [{name}]: {rendered}");
    }

    Ok(())
}

#[test]
fn round_trip_our_credential_text() -> Result<(), String> {
    let dc = OurDelegationCredential::from_string(&DC_D2.to_string())
        .map_err(|e| format!("parse failed [{e:?}]"))?;
    let text = dc.to_string().map_err(|e| format!("to_string failed [{e:?}]"))?;
    let back = OurDelegationCredential::from_string(&text)
        .map_err(|e| format!("reparse failed [{e:?}]"))?;
    let text2 = back.to_string().map_err(|e| format!("to_string failed [{e:?}]"))?;
    assert_eq!(text, text2);
    assert_eq!(back.permissions(), dc.permissions());
    assert_eq!(back.hierarchy().len(), dc.hierarchy().len());
    Ok(())
}

#[test]
fn json_escapes_round_trip() {
    let original = JsonValue::JString("a \"quoted\" \\ line\nwith\ttabs".to_string());
    let text = encode_json(&original);
    let parsed = parse_json(&text).expect("escaped text parses");
    match parsed {
        JsonValue::JString(s) => assert_eq!(s, "a \"quoted\" \\ line\nwith\ttabs"),
        _ => panic!("parsed to a different shape"),
    }
}

#[test]
fn unicode_escapes_parse() {
    let accented = parse_json(&String::from("\"\\u00e9\"")).expect("an escaped code point parses");
    match accented {
        JsonValue::JString(s) => assert_eq!(s, "\u{e9}"),
        _ => panic!("parsed to a different shape"),
    }
    let paired = parse_json(&String::from("\"\\uD83D\\uDE00\"")).expect("a surrogate pair parses");
    match paired {
        JsonValue::JString(s) => assert_eq!(s, "\u{1F600}"),
        _ => panic!("parsed to a different shape"),
    }
    assert!(parse_json(&String::from("\"\\uD83D\"")).is_err());
}
