use learn_helper::errors::Error;
use learn_helper::json::{decode_nullable_string_list, unwrap_envelope, JsonValue};

fn payload() -> Vec<JsonValue> {
    vec![JsonValue::Str("a".to_string()), JsonValue::Int(2), JsonValue::Null]
}

fn assert_same_payload(items: Vec<JsonValue>) {
    assert_eq!(items.len(), 3);
    match &items[0] {
        JsonValue::Str(s) => assert_eq!(s, "a"),
        _ => panic!("first entry should be text"),
    }
    match &items[1] {
        JsonValue::Int(i) => assert_eq!(*i, 2),
        _ => panic!("second entry should be a number"),
    }
    assert!(matches!(items[2], JsonValue::Null));
}

#[test]
fn result_list_shape_round_trips() {
    let wrapped = JsonValue::Obj(vec![("resultList".to_string(), JsonValue::Arr(payload()))]);
    assert_same_payload(unwrap_envelope(wrapped).unwrap());
}

#[test]
fn object_array_shape_round_trips() {
    let wrapped = JsonValue::Obj(vec![("object".to_string(), JsonValue::Arr(payload()))]);
    assert_same_payload(unwrap_envelope(wrapped).unwrap());
}

#[test]
fn object_aa_data_shape_round_trips() {
    let inner = JsonValue::Obj(vec![("aaData".to_string(), JsonValue::Arr(payload()))]);
    let wrapped = JsonValue::Obj(vec![("object".to_string(), inner)]);
    assert_same_payload(unwrap_envelope(wrapped).unwrap());
}

#[test]
fn object_results_list_shape_round_trips() {
    let inner = JsonValue::Obj(vec![("resultsList".to_string(), JsonValue::Arr(payload()))]);
    let wrapped = JsonValue::Obj(vec![("object".to_string(), inner)]);
    assert_same_payload(unwrap_envelope(wrapped).unwrap());
}

#[test]
fn unknown_envelope_is_a_decode_failure() {
    let wrapped = JsonValue::Obj(vec![("elsewhere".to_string(), JsonValue::Arr(payload()))]);
    match unwrap_envelope(wrapped) {
        Err(Error::Decode { field, raw }) => {
            assert_eq!(field, "envelope");
            assert_eq!(raw, "<object>");
        },
        _ => panic!("an unknown envelope must fail decoding"),
    }
}

#[test]
fn nullable_list_drops_nulls_and_keeps_order() {
    let v = JsonValue::Arr(vec![
        JsonValue::Str("2023-2024-1".to_string()),
        JsonValue::Null,
        JsonValue::Str("2023-2024-2".to_string()),
        JsonValue::Null,
    ]);
    let ids = decode_nullable_string_list(v).unwrap();
    assert_eq!(ids, vec!["2023-2024-1".to_string(), "2023-2024-2".to_string()]);
}

#[test]
fn nullable_list_rejects_non_text_entries() {
    let v = JsonValue::Arr(vec![JsonValue::Str("x".to_string()), JsonValue::Int(4)]);
    match decode_nullable_string_list(v) {
        Err(Error::Decode { field, raw }) => {
            assert_eq!(field, "semester list");
            assert_eq!(raw, "4");
        },
        _ => panic!("a numeric entry must fail the semester list"),
    }
}
