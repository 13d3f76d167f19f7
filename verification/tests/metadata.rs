use figshare_rs::json::JsonValue;
use figshare_rs::metadata::{ArticleMetadata, ArticleMetadataBuildError, AuthorReference, DefinedType};

fn member<'a>(value: &'a JsonValue, key: &str) -> &'a JsonValue {
    match value {
        JsonValue::Object(entries) => &entries.iter().find(|(k, _)| k == key).expect("member").1,
        other => panic!("not an object: {other:?}"),
    }
}

fn item(value: &JsonValue, index: usize) -> &JsonValue {
    match value {
        JsonValue::Array(items) => &items[index],
        other => panic!("not an array: {other:?}"),
    }
}

fn text(s: &str) -> JsonValue {
    JsonValue::String(s.to_owned())
}

fn number(s: &str) -> JsonValue {
    JsonValue::Number(s.to_owned())
}

#[test]
fn defined_type_accepts_strings_and_ids() {
    let dataset_from_name = DefinedType::from_api_name("dataset");
    let dataset_from_id = DefinedType::from_api_id(3);

    assert_eq!(dataset_from_name, DefinedType::Dataset);
    assert_eq!(dataset_from_id, DefinedType::Dataset);
    assert_eq!(DefinedType::Dataset.api_name(), "dataset");
}

#[test]
fn metadata_builder_requires_title_and_defined_type() {
    assert_eq!(ArticleMetadata::builder().build().unwrap_err(), ArticleMetadataBuildError::MissingTitle);
    assert_eq!(
        ArticleMetadata::builder().title("x").build().unwrap_err(),
        ArticleMetadataBuildError::MissingDefinedType
    );
}

#[test]
fn metadata_builder_serializes_expected_payload() {
    let metadata = ArticleMetadata::builder()
        .title("Example")
        .defined_type(DefinedType::Dataset)
        .description("Description")
        .tag("data")
        .keyword("science")
        .reference("https://example.com")
        .category_id(3)
        .author(AuthorReference::id(7))
        .author_named("Doe, Jane")
        .custom_field_text("location", "Amsterdam")
        .license_id(1)
        .resource_doi("10.1234/example")
        .build()
        .unwrap();

    let payload = metadata.to_payload();
    assert_eq!(member(&payload, "title"), &text("Example"));
    assert_eq!(member(&payload, "defined_type"), &text("dataset"));
    assert_eq!(item(member(&payload, "categories"), 0), &number("3"));
    assert_eq!(member(item(member(&payload, "authors"), 0), "id"), &number("7"));
    assert_eq!(member(item(member(&payload, "authors"), 1), "name"), &text("Doe, Jane"));
    assert_eq!(member(member(&payload, "custom_fields"), "location"), &text("Amsterdam"));
}

#[test]
fn defined_type_names_and_ids_round_trip() {
    for id in 0..40u64 {
        let kind = DefinedType::from_api_id(id);
        if let Some(known) = kind.api_id() {
            assert_eq!(known, id);
            assert_eq!(DefinedType::from_api_name(kind.api_name()), kind);
        }
    }
    assert_eq!(DefinedType::from_api_name("Journal Contribution"), DefinedType::JournalContribution);
    assert_eq!(DefinedType::from_api_id(4), DefinedType::Unknown("4".into()));
    assert_eq!(DefinedType::from_api_id(4).api_id(), Some(4));
}

#[test]
fn payload_is_written_as_compact_json() {
    let metadata = ArticleMetadata::builder()
        .title("T")
        .defined_type(DefinedType::Software)
        .tag("a")
        .build()
        .unwrap();
    let text = figshare_rs::json::to_json_text(&metadata.to_payload());
    assert_eq!(text, r#"{"title":"T","defined_type":"software","tags":["a"]}"#);
}

#[test]
fn custom_fields_form_a_map_ordered_by_name() {
    let first = ArticleMetadata::builder()
        .title("T")
        .defined_type(DefinedType::Dataset)
        .custom_field_text("zone", "a")
        .custom_field_text("area", "b")
        .custom_field_text("zone", "c")
        .build()
        .unwrap();
    let second = ArticleMetadata::builder()
        .title("T")
        .defined_type(DefinedType::Dataset)
        .custom_field_text("area", "b")
        .custom_field_text("zone", "c")
        .build()
        .unwrap();
    assert_eq!(first, second);
    assert_eq!(
        first.custom_fields,
        vec![("area".to_owned(), text("b")), ("zone".to_owned(), text("c"))]
    );
    let text_out = figshare_rs::json::to_json_text(&first.to_payload());
    assert_eq!(text_out, r#"{"title":"T","defined_type":"dataset","custom_fields":{"area":"b","zone":"c"}}"#);
}

#[test]
fn builder_calls_keep_last_values_and_call_order() {
    let metadata = ArticleMetadata::builder()
        .defined_type(DefinedType::Figure)
        .title("first")
        .tag("b")
        .funding("f1")
        .tag("a")
        .title("second")
        .funding("f2")
        .build()
        .unwrap();
    assert_eq!(metadata.title, "second");
    assert_eq!(metadata.funding.as_deref(), Some("f2"));
    assert_eq!(metadata.tags, vec!["b".to_owned(), "a".to_owned()]);
    assert_eq!(metadata.description, None);
    assert_eq!(
        ArticleMetadata::builder().defined_type(DefinedType::Figure).tag("x").build().unwrap_err(),
        ArticleMetadataBuildError::MissingTitle
    );
}

#[test]
fn json_strings_are_escaped_as_serde_json_escapes_them() {
    let value = JsonValue::Object(vec![("k\"ey".to_owned(), text("a\\b\n\u{1}é"))]);
    assert_eq!(figshare_rs::json::to_json_text(&value), "{\"k\\\"ey\":\"a\\\\b\\n\\u0001é\"}");
    let controls = JsonValue::String("\u{8}\t\u{c}\r\u{1f}\u{7f}/".to_owned());
    assert_eq!(figshare_rs::json::to_json_text(&controls), "\"\\b\\t\\f\\r\\u001f\u{7f}/\"");
}
