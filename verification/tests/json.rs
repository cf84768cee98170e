use qnserver::json::{Json, Payload};
use serde_json::{Number, Value};

#[test]
fn reads_documents() {
    let text = r#" {"n":null,"b":true,"u":18446744073709551615,"i":-3,"f":2.5,
        "t":"中","a":[1,"x"],"o":{"k":0}} "#;
    let document = Json::parse(text.as_bytes()).unwrap();
    assert!(matches!(document.get("n"), Some(Json::Null)));
    assert!(matches!(document.get("b"), Some(Json::Bool(true))));
    assert_eq!(document.get("u").unwrap().as_u64(), Some(u64::MAX));
    assert_eq!(document.get("i").unwrap().as_u64(), None);
    assert!(matches!(document.get("i"), Some(Json::Int(-3))));
    match document.get("f") {
        Some(Json::Float(text)) => assert_eq!(text, "2.5"),
        other => panic!("{other:?}"),
    }
    assert_eq!(document.get("f").unwrap().as_u64(), None);
    assert_eq!(document.get("t").unwrap().as_str(), Some("中"));
    assert_eq!(document.get("u").unwrap().as_str(), None);
    match document.get("a") {
        Some(Json::Array(items)) => {
            assert_eq!(items.len(), 2);
            assert_eq!(items[0].as_u64(), Some(1));
            assert_eq!(items[1].as_str(), Some("x"));
        }
        other => panic!("{other:?}"),
    }
    assert_eq!(document.get("o").unwrap().get("k").unwrap().as_u64(), Some(0));
    assert!(document.get("missing").is_none());
    assert!(document.get("t").unwrap().get("k").is_none());
    assert!(Json::parse(b"{").is_none());
    assert!(Json::parse(b"{} x").is_none());
    assert!(Json::parse(b"\xff").is_none());
}

#[test]
fn of_two_entries_with_one_name_the_later_is_found() {
    let document = Json::Object(vec![
        ("k".to_owned(), Json::UInt(1)),
        ("k".to_owned(), Json::UInt(2)),
    ]);
    assert_eq!(document.get("k").unwrap().as_u64(), Some(2));
    assert_eq!(Json::Int(7).as_u64(), Some(7));
}

#[test]
fn writes_documents() {
    let payload = Payload::Object(vec![
        ("z".to_owned(), Payload::Null),
        ("a".to_owned(), Payload::Bool(false)),
        ("u".to_owned(), Payload::UInt(u64::MAX)),
        ("i".to_owned(), Payload::Int(-1)),
        ("t".to_owned(), Payload::Text("\"\\\u{1}中".to_owned())),
        ("l".to_owned(), Payload::Array(vec![Payload::UInt(0), Payload::Object(vec![])])),
        ("a".to_owned(), Payload::Int(5)),
    ]);
    assert_eq!(
        payload.to_text(),
        "{\"a\":5,\"i\":-1,\"l\":[0,{}],\"t\":\"\\\"\\\\\\u0001中\",\"u\":18446744073709551615,\"z\":null}"
    );
    let mut inner = serde_json::Map::new();
    inner.insert("content".to_owned(), Value::String("x".to_owned()));
    let payload =
        Payload::Object(vec![("content".to_owned(), Payload::Text("x".to_owned()))]);
    assert_eq!(payload.to_value(), Value::Object(inner));
    assert_eq!(Payload::Int(5).to_value(), Value::Number(Number::from(5_u64)));
}

#[test]
fn takes_over_values() {
    let value: Value = serde_json::from_str(r#"{"a":[null,{"b":"c"}]}"#).unwrap();
    match Json::from_value(&value).get("a") {
        Some(Json::Array(items)) => {
            assert!(matches!(items[0], Json::Null));
            assert_eq!(items[1].get("b").unwrap().as_str(), Some("c"));
        }
        other => panic!("{other:?}"),
    }
}
