use rjship::{ResultFields, RjShip};

type Env = RjShip<u32, i64, String, String>;

fn fields(message: &str, code: Option<i64>, data: Option<String>) -> ResultFields<String, i64, String> {
    ResultFields { message: message.to_string(), code, data }
}

#[test]
fn new_makes_success() {
    let e: Env = RjShip::new(42);
    assert_eq!(e, RjShip::Success { data: 42 });
    assert!(e.is_success());
    assert!(!e.is_fail());
    assert!(!e.is_error());
}

#[test]
fn new_error_has_no_code_or_data() {
    let e: Env = RjShip::new_error("disk full".to_string());
    assert_eq!(e, RjShip::Error { message: "disk full".to_string(), code: None, data: None });
    assert!(e.is_error());
}

#[test]
fn new_fail_has_no_code_or_data() {
    let e: Env = RjShip::new_fail("bad input".to_string());
    assert_eq!(e, RjShip::Fail { message: "bad input".to_string(), code: None, data: None });
    assert!(e.is_fail());
}

#[test]
fn from_error_uses_text_form_of_message() {
    let e: Env = RjShip::from_error(404, Some(7), Some("x".to_string()));
    assert_eq!(e, RjShip::Error { message: "404".to_string(), code: Some(7), data: Some("x".to_string()) });
}

#[test]
fn from_fail_uses_text_form_of_message() {
    let e: Env = RjShip::from_fail("bad input", None, Some("field".to_string()));
    assert_eq!(e, RjShip::Fail { message: "bad input".to_string(), code: None, data: Some("field".to_string()) });
}

#[test]
fn success_extracts_only_success() {
    let e: Env = RjShip::new(5);
    assert_eq!(e.success(), Some(5));
    let e: Env = RjShip::new_fail("f".to_string());
    assert_eq!(e.success(), None);
}

#[test]
fn fail_extracts_fields() {
    let e: Env = RjShip::from_fail_fields(fields("f", Some(400), None));
    assert_eq!(e.fail(), Some(fields("f", Some(400), None)));
    let e: Env = RjShip::new_error("e".to_string());
    assert_eq!(e.fail(), None);
}

#[test]
fn error_extracts_fields() {
    let e: Env = RjShip::from_error_fields(fields("e", None, Some("d".to_string())));
    assert_eq!(e.error(), Some(fields("e", None, Some("d".to_string()))));
    let e: Env = RjShip::new(1);
    assert_eq!(e.error(), None);
}

#[test]
fn error_fields_round_trip() {
    let f = fields("boom", Some(500), Some("trace".to_string()));
    let e: Env = RjShip::from_error_fields(f.clone());
    assert_eq!(e.unwrap_error(), f);
    let g = fields("nope", None, None);
    let e: Env = RjShip::from_fail_fields(g.clone());
    assert_eq!(e.unwrap_fail(), g);
}

#[test]
fn message_only_fields_convert_to_new_error() {
    let e: Env = fields("m", None, None).into();
    assert_eq!(e, RjShip::new_error("m".to_string()));
}

#[test]
fn is_success_and_applies_predicate() {
    let e: Env = RjShip::new(10);
    assert!(e.clone().is_success_and(|d| d == 10));
    assert!(!e.is_success_and(|d| d == 11));
    let e: Env = RjShip::new_error("e".to_string());
    assert!(!e.is_success_and(|_| panic!("predicate called on an error")));
}

#[test]
fn is_fail_and_skips_predicate_on_success() {
    let e: Env = RjShip::new(1);
    assert!(!e.is_fail_and(|_| panic!("predicate called on a success")));
}

#[test]
fn is_fail_and_applies_predicate() {
    let e: Env = RjShip::from_fail_fields(fields("f", Some(3), None));
    assert!(e.clone().is_fail_and(|f| f.code == Some(3)));
    assert!(!e.is_fail_and(|f| f.message == "g"));
}

#[test]
fn is_error_and_applies_predicate() {
    let e: Env = RjShip::new_error("e".to_string());
    assert!(e.clone().is_error_and(|f| f.message == "e"));
    assert!(!e.is_error_and(|f| f.code.is_some()));
    let e: Env = RjShip::new_fail("f".to_string());
    assert!(!e.is_error_and(|_| panic!("predicate called on a failure")));
}

#[test]
fn unwrap_gives_success_data() {
    let e: Env = RjShip::new(9);
    assert_eq!(e.unwrap(), 9);
}

#[test]
fn unwrap_or_substitutes_default() {
    let e: Env = RjShip::new(9);
    assert_eq!(e.unwrap_or(1), 9);
    let e: Env = RjShip::new_fail("f".to_string());
    assert_eq!(e.unwrap_or(1), 1);
}

#[test]
fn unwrap_or_else_is_lazy_on_success() {
    let e: Env = RjShip::new(9);
    assert_eq!(e.unwrap_or_else(|| panic!("fallback called on a success")), 9);
}

#[test]
fn unwrap_or_else_calls_fallback_otherwise() {
    let e: Env = RjShip::new_error("e".to_string());
    assert_eq!(e.unwrap_or_else(|| 77), 77);
}

#[test]
fn unwrap_or_default_gives_default() {
    let e: Env = RjShip::new_error("e".to_string());
    assert_eq!(e.unwrap_or_default(), 0);
    let e: Env = RjShip::new(4);
    assert_eq!(e.unwrap_or_default(), 4);
}

#[test]
fn as_ref_borrows_payloads() {
    let e: Env = RjShip::from_fail_fields(fields("f", Some(2), Some("d".to_string())));
    let r = e.as_ref();
    let d = "d".to_string();
    assert_eq!(r, RjShip::Fail { message: "f".to_string(), code: Some(&2), data: Some(&d) });
}
