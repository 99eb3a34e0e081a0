use async_stripe::json::{
    member_from_value, nesting_of, parse, FromValueOpt, JsonNumber, JsonValue, RawObject, MAX_NESTING,
    MAX_TEXT_BYTES,
};
use async_stripe::status::{remembered_status, status_is_client_error, status_is_success};

fn text(s: &str) -> JsonValue {
    JsonValue::String(s.to_string())
}

#[test]
fn parse_reads_every_kind_of_value() {
    assert!(matches!(parse("null"), Some(JsonValue::Null)));
    assert!(matches!(parse(" true "), Some(JsonValue::Bool(true))));
    assert!(matches!(parse("17"), Some(JsonValue::Number(JsonNumber::U64(17)))));
    assert!(matches!(parse("-17"), Some(JsonValue::Number(JsonNumber::I64(-17)))));
    assert!(matches!(parse("1.5"), Some(JsonValue::Number(JsonNumber::F64(bits))) if bits == 1.5_f64.to_bits()));
    match parse("\"a\\u00e9\\n\"") {
        Some(JsonValue::String(s)) => assert_eq!(s, "a\u{e9}\n"),
        other => panic!("expected a string, got {:?}", other),
    }
    match parse("[1, [], \"x\"]") {
        Some(JsonValue::Array(items)) => {
            assert_eq!(items.len(), 3);
            assert!(matches!(items[0], JsonValue::Number(JsonNumber::U64(1))));
            assert!(matches!(&items[1], JsonValue::Array(inner) if inner.is_empty()));
            assert!(matches!(&items[2], JsonValue::String(s) if s == "x"));
        },
        other => panic!("expected an array, got {:?}", other),
    }
}

#[test]
fn parse_rejects_what_is_no_json() {
    for bad in ["", "{", "[1,]", "nul", "{\"a\" 1}", "1 2", "'a'", "{\"a\":1,}"] {
        assert!(parse(bad).is_none(), "{:?} should not parse", bad);
    }
}

#[test]
fn parse_orders_members_by_key_and_keeps_the_last_duplicate() {
    match parse("{\"b\": 1, \"a\": 2, \"b\": 3}") {
        Some(JsonValue::Object(members)) => {
            assert_eq!(members.len(), 2);
            assert_eq!(members[0].0, "a");
            assert!(matches!(members[0].1, JsonValue::Number(JsonNumber::U64(2))));
            assert_eq!(members[1].0, "b");
            assert!(matches!(members[1].1, JsonValue::Number(JsonNumber::U64(3))));
        },
        other => panic!("expected an object, got {:?}", other),
    }
}

#[test]
fn get_finds_the_last_member_with_the_key() {
    let object = JsonValue::Object(vec![
        ("a".to_string(), text("first")),
        ("b".to_string(), JsonValue::Null),
        ("a".to_string(), text("second")),
    ]);
    assert!(matches!(object.get("a"), Some(JsonValue::String(s)) if s == "second"));
    assert!(matches!(object.get("b"), Some(JsonValue::Null)));
    assert!(object.get("c").is_none());
    assert!(object.get("").is_none());
    assert!(text("a").get("a").is_none());
    assert!(JsonValue::Array(vec![text("a")]).get("a").is_none());
    assert!(JsonValue::Object(Vec::new()).get("a").is_none());
}

#[test]
fn primitives_decode_as_miniserde_reads_them() {
    assert_eq!(String::from_value(&text("x")), Some("x".to_string()));
    assert_eq!(String::from_value(&JsonValue::Null), None);
    assert_eq!(bool::from_value(&JsonValue::Bool(false)), Some(false));
    assert_eq!(bool::from_value(&text("false")), None);
    assert_eq!(i64::from_value(&JsonValue::Number(JsonNumber::I64(-5))), Some(-5));
    assert_eq!(i64::from_value(&JsonValue::Number(JsonNumber::U64(5))), Some(5));
    assert_eq!(i64::from_value(&JsonValue::Number(JsonNumber::U64(i64::MAX as u64))), Some(i64::MAX));
    assert_eq!(i64::from_value(&JsonValue::Number(JsonNumber::U64(i64::MAX as u64 + 1))), None);
    assert_eq!(i64::from_value(&JsonValue::Number(JsonNumber::F64(0))), None);
    assert_eq!(<()>::from_value(&JsonValue::Null), Some(()));
    assert_eq!(<()>::from_value(&JsonValue::Bool(true)), None);
}

#[test]
fn options_and_vectors_decode_member_by_member() {
    assert_eq!(Option::<String>::from_value(&JsonValue::Null), Some(None));
    assert_eq!(Option::<String>::from_value(&text("x")), Some(Some("x".to_string())));
    assert_eq!(Option::<String>::from_value(&JsonValue::Bool(true)), None);
    let list = JsonValue::Array(vec![text("a"), text("b")]);
    assert_eq!(Vec::<String>::from_value(&list), Some(vec!["a".to_string(), "b".to_string()]));
    let mixed = JsonValue::Array(vec![text("a"), JsonValue::Null]);
    assert_eq!(Vec::<String>::from_value(&mixed), None);
    assert_eq!(Vec::<Option<String>>::from_value(&mixed), Some(vec![Some("a".to_string()), None]));
    assert_eq!(Vec::<String>::from_value(&JsonValue::Array(Vec::new())), Some(Vec::new()));
    assert_eq!(Vec::<String>::from_value(&text("a")), None);
}

#[test]
fn member_from_value_uses_the_stand_in_for_a_missing_member() {
    let object = JsonValue::Object(vec![("n".to_string(), JsonValue::Number(JsonNumber::U64(3)))]);
    assert_eq!(member_from_value::<i64>(&object, "n", None), Some(3));
    assert_eq!(member_from_value::<i64>(&object, "m", None), None);
    assert_eq!(member_from_value::<i64>(&object, "m", Some(9)), Some(9));
    assert_eq!(member_from_value::<String>(&object, "n", Some("x".to_string())), None);
}

#[test]
fn duplicate_copies_the_whole_value() {
    let source = "{\"a\": [1, -2, 2.5, null, true, \"s\"], \"b\": {\"c\": {\"d\": []}}}";
    let value = parse(source).unwrap();
    let copy = value.duplicate();
    assert_eq!(format!("{:?}", copy), format!("{:?}", value));
    let cloned = value.clone();
    assert_eq!(format!("{:?}", cloned), format!("{:?}", value));
}

#[test]
fn raw_object_keeps_objects_only() {
    let object = parse("{\"a\": 1}").unwrap();
    let raw = RawObject::from_value(&object).unwrap();
    assert_eq!(format!("{:?}", raw.value), format!("{:?}", object));
    assert!(RawObject::from_value(&JsonValue::Null).is_none());
    assert!(RawObject::from_value(&JsonValue::Array(Vec::new())).is_none());
}

#[test]
fn status_classes() {
    assert!(!status_is_success(199));
    assert!(status_is_success(200));
    assert!(status_is_success(299));
    assert!(!status_is_success(300));
    assert!(!status_is_client_error(399));
    assert!(status_is_client_error(400));
    assert!(status_is_client_error(499));
    assert!(!status_is_client_error(500));
}

#[test]
fn remembered_status_keeps_registered_codes() {
    let registered: Vec<u16> = [100, 101, 103, 226, 431, 451, 510, 511]
        .into_iter()
        .chain(200..=207)
        .chain(300..=304)
        .chain(307..=308)
        .chain(400..=418)
        .chain(421..=426)
        .chain(428..=429)
        .chain(500..=508)
        .collect();
    for code in 0..=1000_u16 {
        let expected = if registered.contains(&code) { code } else { 500 };
        assert_eq!(remembered_status(code), expected, "status {}", code);
    }
    assert_eq!(remembered_status(u16::MAX), 500);
}

#[test]
fn nesting_counts_open_arrays_and_objects() {
    assert_eq!(nesting_of(""), 0);
    assert_eq!(nesting_of("17"), 0);
    assert_eq!(nesting_of("[]"), 1);
    assert_eq!(nesting_of("[[], {}, [[]]]"), 3);
    assert_eq!(nesting_of("{\"a\": {\"b\": [1, 2]}, \"c\": []}"), 3);
    assert_eq!(nesting_of("\"[[[[\""), 0);
    assert_eq!(nesting_of("[\"a\\\"[[\", [\"]\"]]"), 2);
    assert_eq!(nesting_of("[\"\\\\\", [[]]]"), 3);
    assert_eq!(nesting_of("]]][["), 2);
}

#[test]
fn parse_stops_at_the_nesting_limit() {
    let nested = |depth: usize| format!("{}{}", "[".repeat(depth), "]".repeat(depth));
    assert_eq!(MAX_NESTING, 128);
    assert_eq!(MAX_TEXT_BYTES, i32::MAX as usize);
    assert!(parse(&nested(1)).is_some());
    assert!(parse(&nested(MAX_NESTING)).is_some());
    assert!(parse(&nested(MAX_NESTING + 1)).is_none());
    assert!(parse(&nested(200_000)).is_none());
    let objects = format!("{}1{}", "{\"a\":".repeat(MAX_NESTING + 1), "}".repeat(MAX_NESTING + 1));
    assert!(parse(&objects).is_none());
    let in_string = format!("[\"{}\"]", "[".repeat(1000));
    assert!(parse(&in_string).is_some());
}
