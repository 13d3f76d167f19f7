use figshare_rs::access::{authorization_header_value, different_origin_error, RequestKind};
use figshare_rs::error::FigshareError;
use figshare_rs::urls::{
    is_trusted_api_url, is_trusted_upload_url, normalized_base_path, parse_location, upload_part_url,
    with_download_token, Endpoint,
};
use url::Url;

#[test]
fn uses_expected_production_url() {
    assert_eq!(Endpoint::Production.base_url().unwrap().as_str(), "https://api.figshare.com/v2/");
}

#[test]
fn preserves_custom_v2_url() {
    let url = Url::parse("http://localhost:1234/v2/").unwrap();
    assert_eq!(Endpoint::Custom(url.clone()).base_url().unwrap(), url);
}

#[test]
fn normalizes_custom_url_without_trailing_slash() {
    let normalized = Endpoint::Custom(Url::parse("http://localhost:1234/v2").unwrap()).base_url().unwrap();
    assert_eq!(normalized.as_str(), "http://localhost:1234/v2/");
}

#[test]
fn normalizes_empty_custom_path_to_v2() {
    let normalized = Endpoint::Custom(Url::parse("http://localhost:1234").unwrap()).base_url().unwrap();
    assert_eq!(normalized.as_str(), "http://localhost:1234/v2/");
}

#[test]
fn upload_urls_and_locations_are_resolved() {
    let base = Url::parse("https://api.figshare.com/v2/account/articles").unwrap();
    assert_eq!(
        parse_location(&base, "/v2/account/articles/1").unwrap().as_str(),
        "https://api.figshare.com/v2/account/articles/1"
    );

    let upload_url = Url::parse("https://uploads.figshare.com/upload/token").unwrap();
    assert_eq!(upload_part_url(&upload_url, 7).unwrap().as_str(), "https://uploads.figshare.com/upload/token/7");
}

#[test]
fn private_operations_require_authentication() {
    let error = authorization_header_value(None, "api request").unwrap_err();
    assert!(matches!(error, FigshareError::MissingAuth("api request")));
    let api = Endpoint::Production.base_url().unwrap();
    let error = with_download_token(
        &api,
        Url::parse("https://ndownloader.figshare.com/files/1").unwrap(),
        None,
        "private file download",
    )
    .unwrap_err();
    assert!(matches!(error, FigshareError::MissingAuth("private file download")));
}

#[test]
fn download_token_is_only_added_for_trusted_hosts() {
    let api = Endpoint::Production.base_url().unwrap();
    let downloader = with_download_token(
        &api,
        Url::parse("https://ndownloader.figshare.com/files/1").unwrap(),
        Some("token"),
        "private file download",
    )
    .unwrap();
    assert_eq!(downloader.query(), Some("token=token"));

    let external = with_download_token(
        &api,
        Url::parse("https://example.com/file.bin").unwrap(),
        Some("token"),
        "private file download",
    )
    .unwrap();
    assert_eq!(external.query(), None);
}

#[test]
fn request_helpers_enforce_origin_policies() {
    let api = Endpoint::Custom(Url::parse("https://api.example.test/v2/").unwrap()).base_url().unwrap();

    let evil = Url::parse("https://evil.example.test/v2/articles").unwrap();
    assert!(!is_trusted_api_url(&api, &evil));
    let api_error = different_origin_error(RequestKind::Api, evil.as_str());
    assert!(matches!(api_error, FigshareError::InvalidState(message) if message.contains("different origin")));

    let upload = Url::parse("https://uploads.figshare.com/upload/token").unwrap();
    assert!(is_trusted_upload_url(&api, &upload));
    assert_eq!(authorization_header_value(Some("token"), "upload request").unwrap(), "token token");

    let regional = Url::parse("https://fup-eu-west-1.figshare.com/upload/token").unwrap();
    assert!(is_trusted_upload_url(&api, &regional));

    let evil_upload = Url::parse("https://evil.example.test/upload/token").unwrap();
    assert!(!is_trusted_upload_url(&api, &evil_upload));
    let upload_error = different_origin_error(RequestKind::Upload, evil_upload.as_str());
    assert!(matches!(upload_error, FigshareError::InvalidState(message) if message.contains("different origin")));

    let same_origin = Url::parse("https://api.example.test/v2/articles/1").unwrap();
    assert!(is_trusted_api_url(&api, &same_origin));
}

#[test]
fn base_paths_are_normalized() {
    assert_eq!(normalized_base_path(""), "/v2/");
    assert_eq!(normalized_base_path("/"), "/v2/");
    assert_eq!(normalized_base_path("///"), "/v2/");
    assert_eq!(normalized_base_path("/api/v2"), "/api/v2/");
    assert_eq!(normalized_base_path("/api/v2//"), "/api/v2/");
}

#[test]
fn absolute_locations_are_kept_and_bad_ones_fail() {
    let base = Url::parse("https://api.figshare.com/v2/").unwrap();
    assert_eq!(parse_location(&base, "https://other.test/x").unwrap().as_str(), "https://other.test/x");
    assert!(matches!(parse_location(&base, "http://[::1"), Err(FigshareError::Url(_))));
}

#[test]
fn api_origin_token_is_added_and_other_paths_refused() {
    let api = Endpoint::Production.base_url().unwrap();
    let on_api = with_download_token(
        &api,
        Url::parse("https://api.figshare.com/v2/file/download/3").unwrap(),
        Some("s3cr3t"),
        "private file download",
    )
    .unwrap();
    assert_eq!(on_api.query(), Some("token=s3cr3t"));
    let mixed_case = with_download_token(
        &api,
        Url::parse("https://NDownloader.Figshare.com/files/2?x=1").unwrap(),
        Some("t"),
        "private file download",
    )
    .unwrap();
    assert_eq!(mixed_case.query(), Some("x=1&token=t"));
    let cannot_be_base = Url::parse("mailto:someone@example.com").unwrap();
    assert!(matches!(upload_part_url(&cannot_be_base, 1), Err(FigshareError::InvalidState(_))));
}

#[test]
fn upload_part_url_drops_a_trailing_empty_segment() {
    let with_slash = Url::parse("https://uploads.figshare.com/upload/token/").unwrap();
    assert_eq!(upload_part_url(&with_slash, 12).unwrap().as_str(), "https://uploads.figshare.com/upload/token/12");
    let root = Url::parse("https://uploads.figshare.com/").unwrap();
    assert_eq!(upload_part_url(&root, 3).unwrap().as_str(), "https://uploads.figshare.com/3");
}
