use figshare_rs::ids::{ArticleId, FileId};
use figshare_rs::json::JsonValue;
use figshare_rs::metadata::DefinedType;
use figshare_rs::model::{
    Article, ArticleAuthor, ArticleFile, ArticleStatus, FileStatus, UploadPart, UploadPartStatus, UploadSession,
    UploadStatus,
};
use figshare_rs::wire::{boolish_from_str, u64ish_from_str};

fn file(id: u64, name: &str, size: u64) -> ArticleFile {
    ArticleFile {
        id: FileId(id),
        name: name.to_owned(),
        size,
        is_link_only: None,
        download_url: None,
        status: None,
        viewer_type: None,
        preview_state: None,
        upload_url: None,
        upload_token: None,
        supplied_md5: None,
        computed_md5: None,
        extra: Vec::new(),
    }
}

fn article(id: u64, title: &str) -> Article {
    Article {
        id: ArticleId(id),
        title: title.to_owned(),
        doi: None,
        group_id: None,
        url: None,
        url_public_html: None,
        url_public_api: None,
        url_private_html: None,
        url_private_api: None,
        figshare_url: None,
        published_date: None,
        modified_date: None,
        created_date: None,
        thumb: None,
        defined_type: None,
        resource_title: None,
        resource_doi: None,
        citation: None,
        confidential_reason: None,
        embargo_type: None,
        is_confidential: None,
        size: None,
        funding: None,
        tags: Vec::new(),
        version: None,
        is_active: None,
        is_metadata_record: None,
        metadata_reason: None,
        status: None,
        description: None,
        is_embargoed: None,
        embargo_date: None,
        is_public: None,
        has_linked_file: None,
        categories: Vec::new(),
        license: None,
        references: Vec::new(),
        files: Vec::new(),
        authors: Vec::new(),
        custom_fields: Vec::new(),
        extra: Vec::new(),
    }
}

#[test]
fn article_preserves_unknown_fields_and_flexible_wire_types() {
    let mut a = article(u64ish_from_str("42").unwrap(), "Example");
    a.defined_type = Some(DefinedType::from_api_id(3));
    a.is_public = Some(true);
    let mut f = file(7, "artifact.bin", u64ish_from_str("12").unwrap());
    f.status = Some(FileStatus::from_api_str("created"));
    f.is_link_only = boolish_from_str("0");
    a.files.push(f);
    a.extra.push(("mystery".into(), JsonValue::String("value".into())));

    assert_eq!(a.id.0, 42);
    assert_eq!(a.defined_type, Some(DefinedType::Dataset));
    assert!(a.is_public_article());
    assert_eq!(a.files[0].size, 12);
    assert_eq!(a.files[0].status, Some(FileStatus::Created));
    assert_eq!(a.extra.iter().find(|(k, _)| k == "mystery").map(|(_, v)| v), Some(&JsonValue::String("value".into())));
}

#[test]
fn article_helpers_find_files_and_flags() {
    let mut a = article(10, "Example");
    a.status = Some(ArticleStatus::from_api_str("public"));
    a.version = u64ish_from_str("3");
    a.files.push(file(8, "artifact.bin", 5));

    assert!(a.is_public_article());
    assert_eq!(a.version_number(), Some(3));
    assert!(a.file_by_name("artifact.bin").is_some());
    assert!(a.file_by_id(FileId(8)).is_some());
}

#[test]
fn author_display_name_uses_best_available_field() {
    let author = ArticleAuthor { full_name: Some("Doe, Jane".into()), ..ArticleAuthor::default() };
    assert_eq!(author.display_name(), Some("Doe, Jane"));
}

#[test]
fn upload_models_deserialize_and_expose_helpers() {
    let session = UploadSession {
        token: "upload-token".into(),
        name: "artifact.bin".into(),
        size: 4,
        md5: Some("abcd".into()),
        status: UploadStatus::from_api_str("COMPLETED"),
        parts: vec![UploadPart {
            part_no: 1,
            start_offset: 0,
            end_offset: 3,
            status: UploadPartStatus::from_api_str("COMPLETE"),
            locked: false,
            extra: Vec::new(),
        }],
        extra: Vec::new(),
    };

    assert!(session.is_completed());
    assert_eq!(session.parts[0].len(), 4);
}

#[test]
fn string_enums_preserve_unknown_values() {
    let status = ArticleStatus::from_api_str("queued");
    let file_status = FileStatus::from_api_str("processing");
    let upload_status = UploadStatus::from_api_str("SOMETHING");
    let part_status = UploadPartStatus::from_api_str("WAITING");

    assert!(matches!(status, ArticleStatus::Unknown(value) if value == "queued"));
    assert!(matches!(file_status, FileStatus::Unknown(value) if value == "processing"));
    assert!(matches!(upload_status, UploadStatus::Unknown(value) if value == "SOMETHING"));
    assert!(matches!(part_status, UploadPartStatus::Unknown(value) if value == "WAITING"));
}

#[test]
fn file_and_upload_parts_accept_boolish_fields() {
    let mut f = file(22, "artifact.bin", 3);
    f.is_link_only = boolish_from_str("0");
    let part = UploadPart {
        part_no: 1,
        start_offset: 4,
        end_offset: 7,
        status: UploadPartStatus::from_api_str("PENDING"),
        locked: boolish_from_str("1").unwrap(),
        extra: Vec::new(),
    };

    assert_eq!(f.is_link_only, Some(false));
    assert!(part.locked);
    assert_eq!(part.status, UploadPartStatus::Pending);
}

#[test]
fn public_flag_overrides_status_and_date() {
    let mut a = article(1, "t");
    assert!(!a.is_public_article());
    a.published_date = Some("2024-01-01".into());
    assert!(a.is_public_article());
    a.is_public = Some(false);
    assert!(!a.is_public_article());
    a.is_public = None;
    a.published_date = None;
    a.status = Some(ArticleStatus::Draft);
    assert!(!a.is_public_article());
}

#[test]
fn file_lookup_returns_the_first_match() {
    let mut a = article(1, "t");
    a.files.push(file(1, "same.bin", 1));
    a.files.push(file(2, "same.bin", 2));
    assert_eq!(a.file_by_name("same.bin").unwrap().id, FileId(1));
    assert!(a.file_by_name("other.bin").is_none());
    assert_eq!(a.file_by_id(FileId(2)).unwrap().size, 2);
    assert!(a.file_by_id(FileId(3)).is_none());
}

#[test]
fn status_values_round_trip_through_their_text() {
    for text in ["draft", "public", "other"] {
        assert_eq!(ArticleStatus::from_api_str(text).as_api_str(), text);
    }
    assert_eq!(UploadStatus::from_api_str("ABORTED"), UploadStatus::Aborted);
    assert_eq!(UploadStatus::Aborted.as_api_str(), "ABORTED");
    assert_eq!(FileStatus::from_api_str("available"), FileStatus::Available);
    let part = UploadPart {
        part_no: 2,
        start_offset: 5,
        end_offset: 4,
        status: UploadPartStatus::Complete,
        locked: false,
        extra: Vec::new(),
    };
    assert!(part.is_empty());
}

#[test]
fn author_falls_back_to_alternate_name() {
    let author = ArticleAuthor { name: Some("J. Doe".into()), ..ArticleAuthor::default() };
    assert_eq!(author.display_name(), Some("J. Doe"));
    assert_eq!(ArticleAuthor::default().display_name(), None);
}
