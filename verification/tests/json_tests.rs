use zed_flutter::json::{Json, JsonNumber};

fn s(t: &str) -> String {
    t.to_string()
}

#[test]
fn get_finds_first_member() {
    let j = Json::Object(vec![
        (s("a"), Json::Bool(true)),
        (s("b"), Json::Str(s("x"))),
        (s("a"), Json::Bool(false)),
    ]);
    assert_eq!(j.get("a"), Some(&Json::Bool(true)));
    assert_eq!(j.get("b").and_then(|v| v.as_str()).map(|v| v.as_str()), Some("x"));
    assert_eq!(j.get("c"), None);
    assert_eq!(Json::Array(vec![]).get("a"), None);
}

#[test]
fn accessors_match_variants() {
    assert_eq!(Json::Bool(true).as_bool(), Some(true));
    assert_eq!(Json::Null.as_bool(), None);
    assert_eq!(Json::Number(JsonNumber::PosInt(7)).as_u64(), Some(7));
    assert_eq!(Json::Number(JsonNumber::NegInt(-7)).as_u64(), None);
    assert_eq!(Json::Number(JsonNumber::Float(s("1.5"))).as_u64(), None);
    assert_eq!(Json::Str(s("x")).as_str().map(|v| v.as_str()), Some("x"));
    assert!(Json::Null.as_str().is_none());
    assert_eq!(Json::Array(vec![Json::Null]).as_array().map(|v| v.len()), Some(1));
    assert!(Json::Null.as_array().is_none());
}

#[test]
fn members_by_type() {
    let j = Json::Object(vec![(s("flag"), Json::Bool(true)), (s("name"), Json::Str(s("n")))]);
    assert_eq!(j.bool_member("flag"), Some(true));
    assert_eq!(j.bool_member("name"), None);
    assert_eq!(j.str_member("name").as_deref(), Some("n"));
    assert_eq!(j.str_member("flag"), None);
}

#[test]
fn duplicate_is_deep_copy() {
    let j = Json::Object(vec![
        (s("list"), Json::Array(vec![Json::Number(JsonNumber::NegInt(-1)), Json::Null])),
        (s("inner"), Json::Object(vec![(s("f"), Json::Number(JsonNumber::Float(s("2.5"))))])),
    ]);
    assert_eq!(j.duplicate(), j);
}
