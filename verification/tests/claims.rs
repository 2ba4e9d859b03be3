use jwt_session::claims::Claims;

fn object(members: Vec<(&str, serde_json::Value)>) -> serde_json::Value {
    let mut map = serde_json::Map::new();
    for (name, value) in members {
        map.insert(name.to_string(), value);
    }
    serde_json::Value::Object(map)
}

#[test]
fn payload_holds_subject_and_expiry() {
    let claims = Claims { exp: 1234, uid: "42".to_string(), data: None };
    let expected = object(vec![
        ("uid", serde_json::Value::from("42")),
        ("exp", serde_json::Value::from(1234u64)),
    ]);
    assert_eq!(claims.to_payload(), expected);
}

#[test]
fn payload_holds_data_where_there_is_any() {
    let data = object(vec![("color", serde_json::Value::from("blue"))]);
    let claims = Claims { exp: 1234, uid: "42".to_string(), data: Some(data.clone()) };
    let expected = object(vec![
        ("uid", serde_json::Value::from("42")),
        ("exp", serde_json::Value::from(1234u64)),
        ("data", data),
    ]);
    assert_eq!(claims.to_payload(), expected);
}

#[test]
fn payload_reads_back() {
    let data = object(vec![("color", serde_json::Value::from("blue"))]);
    let claims = Claims { exp: u64::MAX, uid: "zoë".to_string(), data: Some(data.clone()) };
    let back = Claims::from_payload(&claims.to_payload()).unwrap();
    assert_eq!(back.exp, u64::MAX);
    assert_eq!(back.uid, "zoë");
    assert_eq!(back.data, Some(data));
}

#[test]
fn members_that_are_not_claims_are_passed_over() {
    let payload = object(vec![
        ("uid", serde_json::Value::from("42")),
        ("exp", serde_json::Value::from(5u64)),
        ("iat", serde_json::Value::from(1u64)),
    ]);
    let claims = Claims::from_payload(&payload).unwrap();
    assert_eq!(claims.uid, "42");
    assert_eq!(claims.exp, 5);
    assert_eq!(claims.data, None);
}

#[test]
fn null_data_is_no_data() {
    let payload = object(vec![
        ("uid", serde_json::Value::from("42")),
        ("exp", serde_json::Value::from(5u64)),
        ("data", serde_json::Value::Null),
    ]);
    assert_eq!(Claims::from_payload(&payload).unwrap().data, None);
}

#[test]
fn payload_without_subject_is_refused() {
    let payload = object(vec![("exp", serde_json::Value::from(5u64))]);
    assert!(Claims::from_payload(&payload).is_none());
}

#[test]
fn payload_with_empty_subject_is_refused() {
    let payload = object(vec![
        ("uid", serde_json::Value::from("")),
        ("exp", serde_json::Value::from(5u64)),
    ]);
    assert!(Claims::from_payload(&payload).is_none());
}

#[test]
fn payload_with_subject_that_is_no_text_is_refused() {
    let payload = object(vec![
        ("uid", serde_json::Value::from(42u64)),
        ("exp", serde_json::Value::from(5u64)),
    ]);
    assert!(Claims::from_payload(&payload).is_none());
}

#[test]
fn payload_without_expiry_is_refused() {
    let payload = object(vec![("uid", serde_json::Value::from("42"))]);
    assert!(Claims::from_payload(&payload).is_none());
}

#[test]
fn payload_with_expiry_that_is_no_unsigned_integer_is_refused() {
    let negative = object(vec![
        ("uid", serde_json::Value::from("42")),
        ("exp", serde_json::Value::from(-5i64)),
    ]);
    assert!(Claims::from_payload(&negative).is_none());
    let text = object(vec![
        ("uid", serde_json::Value::from("42")),
        ("exp", serde_json::Value::from("5")),
    ]);
    assert!(Claims::from_payload(&text).is_none());
    let fraction = object(vec![
        ("uid", serde_json::Value::from("42")),
        ("exp", serde_json::Value::from(5.5f64)),
    ]);
    assert!(Claims::from_payload(&fraction).is_none());
}

#[test]
fn payload_that_is_no_object_is_refused() {
    assert!(Claims::from_payload(&serde_json::Value::Null).is_none());
    assert!(Claims::from_payload(&serde_json::Value::from("uid")).is_none());
    assert!(Claims::from_payload(&serde_json::Value::Array(Vec::new())).is_none());
}

#[test]
fn clone_keeps_every_field() {
    let data = object(vec![("color", serde_json::Value::from("blue"))]);
    let claims = Claims { exp: 9, uid: "42".to_string(), data: Some(data.clone()) };
    let copy = claims.clone();
    assert_eq!(copy.exp, 9);
    assert_eq!(copy.uid, "42");
    assert_eq!(copy.data, Some(data));
}
