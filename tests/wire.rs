use rjship::{DecodeError, Field, ResultFields, RjShip, Status, WireValue};

type Env = RjShip<u32, i64, String, Vec<u8>>;
type Value = WireValue<u32, i64, String, Vec<u8>>;

fn keys(e: Env) -> Vec<&'static str> {
    e.encode().iter().map(|(f, _)| f.name()).collect()
}

fn received(e: Env) -> Vec<(String, Value)> {
    e.encode().into_iter().map(|(f, v)| (f.name().to_string(), v)).collect()
}

fn text(s: &str) -> Value {
    WireValue::Text(s.to_string())
}

fn pair(k: &str, v: Value) -> (String, Value) {
    (k.to_string(), v)
}

#[test]
fn round_trip_success() {
    let e: Env = RjShip::new(42);
    assert_eq!(RjShip::decode(received(e.clone()), true), Ok(e.clone()));
    assert_eq!(RjShip::decode(received(e.clone()), false), Ok(e));
}

#[test]
fn round_trip_fail_and_error() {
    let cases: Vec<Env> = vec![
        RjShip::new_fail("bad input".to_string()),
        RjShip::from_fail_fields(ResultFields { message: "x".to_string(), code: Some(400), data: None }),
        RjShip::from_fail_fields(ResultFields { message: "x".to_string(), code: None, data: Some("field".to_string()) }),
        RjShip::from_fail_fields(ResultFields { message: "x".to_string(), code: Some(-1), data: Some("f".to_string()) }),
        RjShip::new_error("disk full".to_string()),
        RjShip::from_error_fields(ResultFields { message: "e".to_string(), code: Some(500), data: Some(vec![1, 2]) }),
        RjShip::from_error_fields(ResultFields { message: "".to_string(), code: None, data: Some(vec![]) }),
    ];
    for e in cases {
        assert_eq!(RjShip::decode(received(e.clone()), true), Ok(e.clone()));
        assert_eq!(RjShip::decode(received(e.clone()), false), Ok(e));
    }
}

#[test]
fn absent_fields_are_omitted() {
    let e: Env = RjShip::new_fail("bad input".to_string());
    assert_eq!(keys(e), vec!["status", "message"]);
    let e: Env = RjShip::new_error("disk full".to_string());
    assert_eq!(keys(e), vec!["status", "message"]);
}

#[test]
fn present_code_is_written() {
    let e: Env = RjShip::from_error(
        "bad", Some(400), None);
    assert_eq!(keys(e), vec!["status", "message", "code"]);
    let e: Env = RjShip::from_fail("bad", Some(400), Some("d".to_string()));
    assert_eq!(keys(e), vec!["status", "message", "code", "data"]);
    let e: Env = RjShip::from_fail("bad", None, Some("d".to_string()));
    assert_eq!(keys(e), vec!["status", "message", "data"]);
}

#[test]
fn encode_writes_status_text_and_values() {
    let e: Env = RjShip::from_fail("bad input", Some(400), Some("x".to_string()));
    let out = e.encode();
    assert_eq!(
        out,
        vec![
            (Field::Status, text("fail")),
            (Field::Message, text("bad input")),
            (Field::Code, WireValue::Code(400)),
            (Field::Data, WireValue::FailData("x".to_string())),
        ]
    );
    let e: Env = RjShip::new(42);
    assert_eq!(e.encode(), vec![(Field::Status, text("success")), (Field::Data, WireValue::SuccessData(42))]);
}

#[test]
fn field_count_matches_written_fields() {
    let cases: Vec<Env> = vec![
        RjShip::new(1),
        RjShip::new_fail("f".to_string()),
        RjShip::from_fail("f", Some(1), None),
        RjShip::from_error("e", Some(1), Some(vec![3])),
    ];
    let expected = [2usize, 2, 3, 4];
    for (e, n) in cases.into_iter().zip(expected) {
        assert_eq!(e.field_count(), n);
        assert_eq!(e.encode().len(), n);
    }
}

#[test]
fn decode_success_with_data() {
    let got: Result<Env, DecodeError> = RjShip::decode(vec![pair("status", text("success")), pair("data", WireValue::SuccessData(5))], false);
    assert_eq!(got, Ok(RjShip::Success { data: 5 }));
}

#[test]
fn decode_ignores_field_order() {
    let got: Result<Env, DecodeError> = RjShip::decode(
        vec![pair("code", WireValue::Code(7)), pair("message", text("m")), pair("status", text("error"))],
        true,
    );
    assert_eq!(got, Ok(RjShip::Error { message: "m".to_string(), code: Some(7), data: None }));
}

#[test]
fn decode_unknown_status() {
    let got: Result<Env, DecodeError> = RjShip::decode(vec![pair("status", text("bogus"))], false);
    assert_eq!(got, Err(DecodeError::UnknownStatus));
}

#[test]
fn decode_fail_without_message() {
    let got: Result<Env, DecodeError> = RjShip::decode(vec![pair("status", text("fail"))], false);
    assert_eq!(got, Err(DecodeError::MissingField(Field::Message)));
}

#[test]
fn decode_missing_status() {
    let got: Result<Env, DecodeError> = RjShip::decode(vec![pair("data", WireValue::SuccessData(5))], false);
    assert_eq!(got, Err(DecodeError::MissingField(Field::Status)));
}

#[test]
fn decode_success_without_data() {
    let got: Result<Env, DecodeError> = RjShip::decode(vec![pair("status", text("success"))], false);
    assert_eq!(got, Err(DecodeError::MissingField(Field::Data)));
}

#[test]
fn decode_wrong_shapes() {
    let got: Result<Env, DecodeError> = RjShip::decode(vec![pair("status", WireValue::Code(1))], false);
    assert_eq!(got, Err(DecodeError::WrongType(Field::Status)));
    let got: Result<Env, DecodeError> = RjShip::decode(vec![pair("status", text("fail")), pair("message", WireValue::Code(1))], false);
    assert_eq!(got, Err(DecodeError::WrongType(Field::Message)));
    let got: Result<Env, DecodeError> =
        RjShip::decode(vec![pair("status", text("fail")), pair("message", text("m")), pair("code", text("400"))], false);
    assert_eq!(got, Err(DecodeError::WrongType(Field::Code)));
    let got: Result<Env, DecodeError> = RjShip::decode(
        vec![pair("status", text("error")), pair("message", text("m")), pair("data", WireValue::FailData("x".to_string()))],
        false,
    );
    assert_eq!(got, Err(DecodeError::WrongType(Field::Data)));
    let got: Result<Env, DecodeError> =
        RjShip::decode(vec![pair("status", text("success")), pair("data", WireValue::ErrorData(vec![1]))], false);
    assert_eq!(got, Err(DecodeError::WrongType(Field::Data)));
}

#[test]
fn decode_unknown_fields_by_configuration() {
    let fields = vec![pair("status", text("fail")), pair("message", text("m")), pair("extra", text("x"))];
    let lenient: Result<Env, DecodeError> = RjShip::decode(fields.clone(), false);
    assert_eq!(lenient, Ok(RjShip::Fail { message: "m".to_string(), code: None, data: None }));
    let strict: Result<Env, DecodeError> = RjShip::decode(fields, true);
    assert_eq!(strict, Err(DecodeError::UnknownField));
}

#[test]
fn decode_first_of_repeated_keys_counts() {
    let got: Result<Env, DecodeError> = RjShip::decode(
        vec![pair("status", text("success")), pair("data", WireValue::SuccessData(1)), pair("data", WireValue::SuccessData(2))],
        true,
    );
    assert_eq!(got, Ok(RjShip::Success { data: 1 }));
}

#[test]
fn status_and_field_names() {
    assert_eq!(Status::Success.as_str(), "success");
    assert_eq!(Status::Fail.as_str(), "fail");
    assert_eq!(Status::Error.as_str(), "error");
    assert_eq!(Status::parse("fail"), Some(Status::Fail));
    assert_eq!(Status::parse("Fail"), None);
    assert_eq!(Status::parse("errors"), None);
    assert_eq!(Field::parse("code"), Some(Field::Code));
    assert_eq!(Field::parse("dat"), None);
    assert_eq!(Field::Message.name(), "message");
    let e: Env = RjShip::new_error("e".to_string());
    assert_eq!(e.status(), Status::Error);
}
