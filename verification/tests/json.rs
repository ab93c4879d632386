use cloudfree_mcp::json::{Json, ObjectBuilder};

fn text(s: &str) -> Json {
    Json::String(s.to_string())
}

fn object(members: Vec<(&str, Json)>) -> Json {
    Json::Object(members.into_iter().map(|(k, v)| (k.to_string(), v)).collect())
}

#[test]
fn get_finds_a_member_by_key() {
    let doc = object(vec![("a", text("x")), ("b", Json::Bool(true))]);
    assert_eq!(doc.get("a"), Some(&text("x")));
    assert_eq!(doc.get("b"), Some(&Json::Bool(true)));
    assert_eq!(doc.get("c"), None);
    assert_eq!(doc.get(""), None);
}

#[test]
fn get_takes_the_later_of_two_members_with_one_key() {
    let doc = object(vec![("a", text("first")), ("b", Json::Null), ("a", text("second"))]);
    assert_eq!(doc.get("a"), Some(&text("second")));
}

#[test]
fn get_finds_a_null_member() {
    let doc = object(vec![("a", Json::Null)]);
    assert_eq!(doc.get("a"), Some(&Json::Null));
}

#[test]
fn get_gives_nothing_outside_objects() {
    assert_eq!(text("a").get("a"), None);
    assert_eq!(Json::Array(vec![text("a")]).get("a"), None);
    assert_eq!(Json::Null.get("a"), None);
}

#[test]
fn into_field_takes_what_get_finds() {
    let doc = object(vec![("a", text("first")), ("b", Json::Null), ("a", text("second"))]);
    assert_eq!(doc.into_field("a"), Some(text("second")));
    let doc = object(vec![("a", text("first"))]);
    assert_eq!(doc.into_field("b"), None);
    assert_eq!(Json::Bool(false).into_field("b"), None);
}

#[test]
fn as_str_reads_strings_only() {
    assert_eq!(text("hi").as_str(), Some("hi"));
    assert_eq!(Json::Null.as_str(), None);
    assert_eq!(Json::unsigned(1).as_str(), None);
    assert_eq!(Json::Array(vec![text("hi")]).as_str(), None);
}

#[test]
fn as_u64_reads_non_negative_integers_only() {
    assert_eq!(Json::unsigned(0).as_u64(), Some(0));
    assert_eq!(Json::unsigned(u64::MAX).as_u64(), Some(u64::MAX));
    assert_eq!(Json::signed(7).as_u64(), Some(7));
    assert_eq!(Json::signed(-7).as_u64(), None);
    assert_eq!(Json::Number(serde_json::Number::from_f64(1.5).unwrap()).as_u64(), None);
    assert_eq!(Json::Number(serde_json::Number::from_f64(2.0).unwrap()).as_u64(), None);
    assert_eq!(text("7").as_u64(), None);
}

#[test]
fn is_null_and_is_object_tell_kinds() {
    assert!(Json::Null.is_null());
    assert!(!Json::Bool(false).is_null());
    assert!(Json::empty_object().is_object());
    assert!(!Json::Array(vec![]).is_object());
}

#[test]
fn into_array_gives_the_items() {
    assert_eq!(Json::Array(vec![Json::Null, text("a")]).into_array(), Some(vec![Json::Null, text("a")]));
    assert_eq!(Json::array(vec![]).into_array(), Some(vec![]));
    assert_eq!(Json::empty_object().into_array(), None);
}

#[test]
fn builders_make_the_documents_they_name() {
    assert_eq!(Json::string("hi"), text("hi"));
    assert_eq!(Json::unsigned(5), Json::Number(serde_json::Number::from(5u64)));
    assert_eq!(Json::signed(-5), Json::Number(serde_json::Number::from(-5i64)));
    assert_eq!(Json::array(vec![Json::Null]), Json::Array(vec![Json::Null]));
    assert_eq!(Json::empty_object(), Json::Object(vec![]));
}

#[test]
fn object_builder_keeps_the_order_written() {
    let mut b = ObjectBuilder::new();
    b.put("b", Json::unsigned(1));
    b.put_str("a", "x");
    assert_eq!(b.finish(), object(vec![("b", Json::unsigned(1)), ("a", text("x"))]));
    assert_eq!(ObjectBuilder::new().finish(), Json::Object(vec![]));
}

#[test]
fn pretty_text_is_indented_with_keys_in_order() {
    let doc = object(vec![
        ("b", Json::unsigned(1)),
        ("a", text("x")),
        ("c", Json::Array(vec![Json::Bool(true), Json::Null])),
    ]);
    assert_eq!(
        doc.to_pretty_string(),
        "{\n  \"a\": \"x\",\n  \"b\": 1,\n  \"c\": [\n    true,\n    null\n  ]\n}"
    );
}

#[test]
fn pretty_text_of_scalars_and_empty_documents() {
    assert_eq!(Json::Null.to_pretty_string(), "null");
    assert_eq!(text("a\"b\n").to_pretty_string(), "\"a\\\"b\\n\"");
    assert_eq!(Json::signed(-3).to_pretty_string(), "-3");
    assert_eq!(Json::Number(serde_json::Number::from_f64(1.5).unwrap()).to_pretty_string(), "1.5");
    assert_eq!(Json::empty_object().to_pretty_string(), "{}");
    assert_eq!(Json::Array(vec![]).to_pretty_string(), "[]");
}

#[test]
fn pretty_text_takes_the_later_of_two_members_with_one_key() {
    let doc = object(vec![("a", text("first")), ("a", text("second"))]);
    assert_eq!(doc.to_pretty_string(), "{\n  \"a\": \"second\"\n}");
}

#[test]
fn pretty_text_reads_back_as_the_same_document() {
    let doc = object(vec![
        ("name", text("x")),
        ("nested", object(vec![("n", Json::unsigned(256)), ("list", Json::Array(vec![text("p")]))])),
    ]);
    let parsed: serde_json::Value = serde_json::from_str(&doc.to_pretty_string()).unwrap();
    assert_eq!(parsed["name"], serde_json::Value::from("x"));
    assert_eq!(parsed["nested"]["n"], serde_json::Value::from(256u64));
    assert_eq!(parsed["nested"]["list"][0], serde_json::Value::from("p"));
}

#[test]
fn duplicate_gives_an_equal_tree() {
    let doc = object(vec![
        ("a", Json::Array(vec![Json::Null, Json::Bool(true), Json::signed(-2), text("x")])),
        ("b", object(vec![("c", Json::Number(serde_json::Number::from_f64(0.5).unwrap()))])),
        ("a", Json::unsigned(1)),
    ]);
    assert_eq!(doc.duplicate(), doc);
    assert_eq!(doc.clone(), doc);
    assert_eq!(Json::Null.duplicate(), Json::Null);
}

#[test]
fn compact_text_is_on_one_line_with_keys_in_order() {
    let doc = object(vec![
        ("b", Json::unsigned(1)),
        ("a", text("x")),
        ("c", Json::Array(vec![Json::Bool(true), Json::Null])),
    ]);
    assert_eq!(doc.to_compact_string(), "{\"a\":\"x\",\"b\":1,\"c\":[true,null]}");
    assert_eq!(Json::empty_object().to_compact_string(), "{}");
    assert_eq!(text("a b").to_compact_string(), "\"a b\"");
}
