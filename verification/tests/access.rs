use figshare_rs::access::{
    authorization_header_value, different_origin_error, is_trusted_figshare_upload_host, is_trusted_upload_target,
    should_append_download_token, RequestKind,
};
use figshare_rs::error::FigshareError;

#[test]
fn upload_hosts_are_recognized() {
    assert!(is_trusted_figshare_upload_host("uploads.figshare.com"));
    assert!(is_trusted_figshare_upload_host("UPLOADS.FIGSHARE.COM"));
    assert!(is_trusted_figshare_upload_host("fup-eu-west-1.figshare.com"));
    assert!(is_trusted_figshare_upload_host("fup-.figshare.com"));
    assert!(!is_trusted_figshare_upload_host("fup.figshare.com"));
    assert!(!is_trusted_figshare_upload_host("fup-x.figshare.com.evil.test"));
    assert!(!is_trusted_figshare_upload_host("evil.figshare.com"));
    assert!(!is_trusted_figshare_upload_host("figshare.com"));
}

#[test]
fn upload_targets_need_origin_or_upload_host() {
    assert!(is_trusted_upload_target(true, None));
    assert!(is_trusted_upload_target(false, Some("uploads.figshare.com")));
    assert!(!is_trusted_upload_target(false, Some("example.com")));
    assert!(!is_trusted_upload_target(false, None));
}

#[test]
fn download_token_goes_to_downloader_or_api_origin() {
    assert!(should_append_download_token(Some("ndownloader.figshare.com"), false));
    assert!(should_append_download_token(Some("NDOWNLOADER.figshare.COM"), false));
    assert!(should_append_download_token(Some("example.com"), true));
    assert!(!should_append_download_token(Some("example.com"), false));
    assert!(!should_append_download_token(None, false));
}

#[test]
fn authorization_header_uses_token_scheme() {
    assert_eq!(authorization_header_value(Some("abc"), "x").unwrap(), "token abc");
    assert!(matches!(authorization_header_value(None, "upload request"), Err(FigshareError::MissingAuth("upload request"))));
}

#[test]
fn refusals_name_the_request_kind_and_url() {
    match different_origin_error(RequestKind::Api, "https://evil.test/") {
        FigshareError::InvalidState(m) => {
            assert_eq!(m, "refusing API request to different origin: https://evil.test/")
        }
        other => panic!("unexpected error: {other:?}"),
    }
    match different_origin_error(RequestKind::Upload, "https://evil.test/u") {
        FigshareError::InvalidState(m) => {
            assert_eq!(m, "refusing upload request to different origin: https://evil.test/u")
        }
        other => panic!("unexpected error: {other:?}"),
    }
}
