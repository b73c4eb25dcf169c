use delegation::errors::DelegationError;
use delegation::json::JsonValue;
use delegation::utils::{from_value_array, to_value_array};
use delegation::numbers::parse_dec;
use delegation::text::{chars_to_string, string_to_chars};
use delegation::timing::verify_timings;
use delegation::utils::serialize_array;

#[test]
fn test_serialize_array() {
    let vec = vec!["w_delegatee_id_c", "w_iat_c", "w_exp_c"];
    let vec_string = vec.iter().map(|x| x.to_string()).collect::<Vec<String>>();
    println!("{}", serialize_array(&vec_string))
}

#[test]
fn serialize_array_renders_quoted_items() {
    let items = vec![String::from("a"), String::from("b")];
    assert_eq!(serialize_array(&items), "[ \"a\", \"b\" ]");
    assert_eq!(serialize_array(&Vec::new()), "[  ]");
    assert_eq!(serialize_array(&vec![String::from("only")]), "[ \"only\" ]");
}

#[test]
fn decimal_parsing_round_trips() {
    for n in [0u128, 1, 9, 10, 3_600_000_000_000, u128::MAX] {
        let text = format!("{n}");
        let chars = string_to_chars(&text);
        assert_eq!(parse_dec(&chars), Some(n));
    }
    assert_eq!(parse_dec(&string_to_chars("")), None);
    assert_eq!(parse_dec(&string_to_chars("12a")), None);
    assert_eq!(parse_dec(&string_to_chars("+12")), None);
    // One past the largest representable value overflows.
    assert_eq!(parse_dec(&string_to_chars("340282366920938463463374607431768211456")), None);
}

#[test]
fn char_conversions_round_trip() {
    let text = "grüße 漢字 and ascii";
    let chars = string_to_chars(text);
    assert_eq!(chars_to_string(&chars), text);
}

#[test]
fn timing_checks_report_each_error() {
    assert_eq!(verify_timings(50, &"10".to_string(), &"100".to_string()), Ok(()));
    assert_eq!(
        verify_timings(5, &"10".to_string(), &"100".to_string()),
        Err(DelegationError::NotYetValid)
    );
    assert_eq!(
        verify_timings(500, &"10".to_string(), &"100".to_string()),
        Err(DelegationError::Expired)
    );
    assert_eq!(
        verify_timings(0, &"0".to_string(), &"0".to_string()),
        Ok(())
    );
    assert_eq!(
        verify_timings(7, &"xyz".to_string(), &"100".to_string()),
        Err(DelegationError::ParseError)
    );
    assert_eq!(
        verify_timings(7, &"10".to_string(), &"".to_string()),
        Err(DelegationError::ParseError)
    );
    // A credential whose expiry is the epoch is expired at any later time.
    assert_eq!(
        verify_timings(1, &"0".to_string(), &"0".to_string()),
        Err(DelegationError::Expired)
    );
}

#[test]
fn value_arrays_round_trip() {
    let items = vec![String::from("w0"), String::from("w1")];
    let values = to_value_array(&items);
    assert_eq!(values.len(), 2);
    let back = from_value_array(&values).expect("string nodes read back");
    assert_eq!(back, items);
    let mixed = vec![JsonValue::JString(String::from("w0")), JsonValue::JArray(Vec::new())];
    assert!(from_value_array(&mixed).is_err());
}
