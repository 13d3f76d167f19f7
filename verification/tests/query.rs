use figshare_rs::error::FigshareError;
use figshare_rs::json::JsonValue;
use figshare_rs::metadata::DefinedType;
use figshare_rs::query::{ArticleOrder, ArticleQuery, OrderDirection};

fn member<'a>(value: &'a JsonValue, key: &str) -> Option<&'a JsonValue> {
    match value {
        JsonValue::Object(entries) => entries.iter().find(|(k, _)| k == key).map(|(_, v)| v),
        _ => None,
    }
}

#[test]
fn query_serializes_public_list_pairs() {
    let query = ArticleQuery::builder()
        .published_since("2024-01-01")
        .item_type(DefinedType::Dataset)
        .doi("10.6084/m9.figshare.123")
        .order(ArticleOrder::PublishedDate)
        .order_direction(OrderDirection::Desc)
        .page(2)
        .page_size(25)
        .custom("foo", "bar")
        .build();

    let pairs = query.as_public_list_query_pairs().unwrap();
    assert!(pairs.contains(&("published_since".into(), "2024-01-01".into())));
    assert!(pairs.contains(&("item_type".into(), "3".into())));
    assert!(pairs.contains(&("doi".into(), "10.6084/m9.figshare.123".into())));
    assert!(pairs.contains(&("foo".into(), "bar".into())));
}

#[test]
fn query_serializes_public_search_body_without_search_for() {
    let query = ArticleQuery::builder().item_type(DefinedType::Dataset).limit(10).build();

    let body = query.as_public_search_body().unwrap();
    assert_eq!(member(&body, "item_type"), Some(&JsonValue::Number("3".into())));
    assert_eq!(member(&body, "limit"), Some(&JsonValue::Number("10".into())));
}

#[test]
fn query_rejects_mixed_pagination_styles() {
    let query = ArticleQuery { page: Some(1), limit: Some(10), ..ArticleQuery::default() };
    assert!(query.as_public_list_query_pairs().is_err());
    assert!(query.as_public_search_body().is_err());
}

#[test]
fn own_list_rejects_unsupported_filters() {
    let query = ArticleQuery::builder().item_type(DefinedType::Dataset).page(1).build();
    assert!(query.as_own_list_query_pairs().is_err());
}

#[test]
fn public_list_rejects_search_only_filters() {
    let query = ArticleQuery::builder().project_id(7).page(1).build();
    assert!(query.as_public_list_query_pairs().is_err());
}

#[test]
fn search_body_carries_search_text_and_order() {
    let query = ArticleQuery::builder()
        .search_for("climate")
        .order(ArticleOrder::PublishedDate)
        .order_direction(OrderDirection::Asc)
        .build();
    let body = query.as_own_search_body().unwrap();
    assert_eq!(member(&body, "search_for"), Some(&JsonValue::String("climate".into())));
    assert_eq!(member(&body, "order"), Some(&JsonValue::String("published_date".into())));
    assert_eq!(member(&body, "order_direction"), Some(&JsonValue::String("asc".into())));
}

#[test]
fn offset_and_limit_pagination_is_accepted_alone() {
    let query = ArticleQuery::builder().offset(20).limit(10).build();
    let pairs = query.as_public_list_query_pairs().unwrap();
    assert!(pairs.contains(&("offset".into(), "20".into())));
    assert!(pairs.contains(&("limit".into(), "10".into())));
    match ArticleQuery::builder().page_size(5).offset(1).build().validate_pagination() {
        Err(FigshareError::InvalidState(_)) => {}
        other => panic!("unexpected result: {other:?}"),
    }
}
