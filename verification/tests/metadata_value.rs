use firecrawl::document::option_metadata_value;
use firecrawl::document::{MetadataValue, MetadataValueError};
use firecrawl::json::{JsonItem, JsonValue};

fn strings(values: &[&str]) -> Vec<String> {
    values.iter().map(|s| s.to_string()).collect()
}

#[test]
fn test_metadata_value_from_string() {
    let v = MetadataValue::deserialize(JsonValue::from_serde(serde_json::Value::String("hello".to_string()))).unwrap();
    assert_eq!(v, MetadataValue::Single("hello".to_string()));
    assert_eq!(v.as_str_lossy(), "hello");
    assert_eq!(v.first(), "hello");
    assert_eq!(v.to_vec(), vec!["hello".to_string()]);
}

#[test]
fn test_metadata_value_from_array() {
    let json: serde_json::Value =
        serde_json::from_str(r#"["width=device-width", "initial-scale=1"]"#).unwrap();
    let v = MetadataValue::deserialize(JsonValue::from_serde(json)).unwrap();
    assert_eq!(
        v,
        MetadataValue::Many(vec![
            "width=device-width".to_string(),
            "initial-scale=1".to_string()
        ])
    );
    assert_eq!(v.as_str_lossy(), "width=device-width, initial-scale=1");
    assert_eq!(v.first(), "width=device-width");
    assert_eq!(
        v.to_vec(),
        vec![
            "width=device-width".to_string(),
            "initial-scale=1".to_string()
        ]
    );
}

#[test]
fn test_metadata_value_serialization_roundtrip() {
    let single = MetadataValue::Single("test".to_string());
    let json = single.to_json();
    assert_eq!(json, JsonValue::from_serde(serde_json::Value::String("test".to_string())));

    let many = MetadataValue::Many(vec!["a".to_string(), "b".to_string()]);
    let json = many.to_json();
    let expected: serde_json::Value = serde_json::from_str(r#"["a", "b"]"#).unwrap();
    assert_eq!(json, JsonValue::from_serde(expected));
}

#[test]
fn to_json_shapes() {
    assert_eq!(
        MetadataValue::Single("test".to_string()).to_json(),
        JsonValue::Str("test".to_string())
    );
    assert_eq!(
        MetadataValue::Many(strings(&["a", "b"])).to_json(),
        JsonValue::Array(vec![
            JsonItem::Str("a".to_string()),
            JsonItem::Str("b".to_string())
        ])
    );
    assert_eq!(MetadataValue::Many(vec![]).to_json(), JsonValue::Array(vec![]));
}

#[test]
fn many_empty_edge_cases() {
    let v = MetadataValue::Many(vec![]);
    assert_eq!(v.as_str_lossy(), "");
    assert_eq!(v.first(), "");
    assert_eq!(v.to_vec(), Vec::<String>::new());
}

#[test]
fn many_three_values_joined() {
    let v = MetadataValue::Many(strings(&["news", "politics", "world"]));
    assert_eq!(v.as_str_lossy(), "news, politics, world");
    assert_eq!(v.to_string(), "news, politics, world");
    assert_eq!(v.first(), "news");
}

#[test]
fn single_value_with_comma_is_kept_whole() {
    let v = MetadataValue::Single("a, b".to_string());
    assert_eq!(v.as_str_lossy(), "a, b");
    assert_eq!(v.to_vec(), vec!["a, b".to_string()]);
}

#[test]
fn default_is_single_empty_string() {
    let v = MetadataValue::default();
    assert_eq!(v, MetadataValue::Single(String::new()));
    assert_eq!(v.as_str_lossy(), "");
    assert_eq!(v.to_string(), "");
}

#[test]
fn from_string_and_from_vec() {
    let v: MetadataValue = "x".to_string().into();
    assert_eq!(v, MetadataValue::Single("x".to_string()));
    assert_eq!(v.to_vec(), vec!["x".to_string()]);
    let w = MetadataValue::from(strings(&["p", "q"]));
    assert_eq!(w, MetadataValue::Many(strings(&["p", "q"])));
    assert_eq!(w.to_vec(), strings(&["p", "q"]));
}

#[test]
fn lossy_is_values_joined() {
    for v in [
        MetadataValue::Single("one".to_string()),
        MetadataValue::Many(strings(&["x", "y", "z"])),
        MetadataValue::Many(vec![]),
    ] {
        assert_eq!(v.as_str_lossy(), v.to_vec().join(", "));
        assert_eq!(v.first(), v.to_vec().first().map(|s| s.as_str()).unwrap_or(""));
    }
}

#[test]
fn deserialize_refuses_other_values() {
    for text in ["null", "42", "true", r#"{"a": "b"}"#] {
        let json: serde_json::Value = serde_json::from_str(text).unwrap();
        assert_eq!(
            MetadataValue::deserialize(JsonValue::from_serde(json)),
            Err(MetadataValueError::ExpectedStringOrArray)
        );
    }
    let json: serde_json::Value = serde_json::from_str(r#"["a", 1]"#).unwrap();
    assert_eq!(
        MetadataValue::deserialize(JsonValue::from_serde(json)),
        Err(MetadataValueError::ExpectedStringElement)
    );
}

#[test]
fn deserialize_empty_array_is_many_empty() {
    let json: serde_json::Value = serde_json::from_str("[]").unwrap();
    assert_eq!(MetadataValue::deserialize(JsonValue::from_serde(json)), Ok(MetadataValue::Many(vec![])));
}

#[test]
fn from_json_round_trip() {
    for v in [
        MetadataValue::Single("t".to_string()),
        MetadataValue::Many(strings(&["a", "b"])),
        MetadataValue::Many(vec![]),
    ] {
        assert_eq!(MetadataValue::from_json(&v.to_json()), Ok(v.clone()));
    }
}

#[test]
fn optional_values() {
    let null: serde_json::Value = serde_json::from_str("null").unwrap();
    assert_eq!(option_metadata_value::deserialize(JsonValue::from_serde(null)), Ok(None));
    let title: serde_json::Value = serde_json::from_str(r#""Example Page""#).unwrap();
    assert_eq!(
        option_metadata_value::deserialize(JsonValue::from_serde(title)),
        Ok(Some(MetadataValue::Single("Example Page".to_string())))
    );
    let keywords: serde_json::Value =
        serde_json::from_str(r#"["news", "politics", "world"]"#).unwrap();
    assert_eq!(
        option_metadata_value::deserialize(JsonValue::from_serde(keywords)),
        Ok(Some(MetadataValue::Many(strings(&["news", "politics", "world"]))))
    );
    let number: serde_json::Value = serde_json::from_str("200").unwrap();
    assert_eq!(
        option_metadata_value::deserialize(JsonValue::from_serde(number)),
        Err(MetadataValueError::ExpectedStringOrArray)
    );
}

#[test]
fn optional_serialize_and_round_trip() {
    assert_eq!(option_metadata_value::serialize(&None), JsonValue::Null);
    for v in [
        None,
        Some(MetadataValue::Single("s".to_string())),
        Some(MetadataValue::Many(strings(&["a", "b"]))),
    ] {
        let json = option_metadata_value::serialize(&v);
        assert_eq!(option_metadata_value::from_json(&json), Ok(v.clone()));
    }
}

#[test]
fn metadata_fields_of_a_document() {
    let data: serde_json::Value = serde_json::from_str(
        r#"{
            "sourceURL": "https://www.cnn.com/",
            "statusCode": 200,
            "title": "CNN - Breaking News",
            "description": null,
            "keywords": ["news", "politics", "world"]
        }"#,
    )
    .unwrap();
    let field = |name: &str| option_metadata_value::deserialize(JsonValue::from_serde(data[name].clone()));
    assert_eq!(
        field("title"),
        Ok(Some(MetadataValue::Single("CNN - Breaking News".to_string())))
    );
    assert_eq!(field("description"), Ok(None));
    assert_eq!(field("language"), Ok(None));
    assert_eq!(
        field("keywords"),
        Ok(Some(MetadataValue::Many(strings(&["news", "politics", "world"]))))
    );
}
