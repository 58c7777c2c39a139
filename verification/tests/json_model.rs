use ruos_mcp::json::{as_i, as_s, Json, JsonNumber};

fn obj(members: Vec<(&str, Json)>) -> Json {
    Json::Object(members.into_iter().map(|(k, v)| (k.to_string(), v)).collect())
}

#[test]
fn get_finds_a_member_of_an_object() {
    let v = obj(vec![("a", Json::Bool(true)), ("b", Json::Null)]);
    assert!(matches!(v.get("a"), Some(Json::Bool(true))));
    assert!(matches!(v.get("b"), Some(Json::Null)));
    assert!(v.get("c").is_none());
    assert!(Json::Array(vec![]).get("a").is_none());
}

#[test]
fn as_i_reads_integers_in_range_only() {
    let v = obj(vec![
        ("pos", Json::Number(JsonNumber::PosInt(5))),
        ("neg", Json::Number(JsonNumber::NegInt(-5))),
        ("big", Json::Number(JsonNumber::PosInt(u64::MAX))),
        ("float", Json::Number(JsonNumber::Float(1.5f64.to_bits()))),
        ("text", Json::Str("5".to_string())),
    ]);
    assert_eq!(as_i(&v, "pos"), Some(5));
    assert_eq!(as_i(&v, "neg"), Some(-5));
    assert_eq!(as_i(&v, "big"), None);
    assert_eq!(as_i(&v, "float"), None);
    assert_eq!(as_i(&v, "text"), None);
    assert_eq!(as_i(&v, "missing"), None);
}

#[test]
fn as_s_reads_strings_or_gives_empty_text() {
    let v = obj(vec![("t", Json::Str("hi".to_string())), ("n", Json::Number(JsonNumber::PosInt(1)))]);
    assert_eq!(as_s(&v, "t"), "hi");
    assert_eq!(as_s(&v, "n"), "");
    assert_eq!(as_s(&v, "missing"), "");
}

#[test]
fn deep_clone_copies_every_member() {
    let v = obj(vec![("a", Json::Array(vec![Json::Str("x".to_string()), Json::Number(JsonNumber::NegInt(-1))]))]);
    let c = v.deep_clone();
    assert_eq!(format!("{:?}", c), format!("{:?}", v));
}
