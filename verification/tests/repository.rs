use client_uploader_traits::{
    DoiBackedRecord, DraftFilePolicy, DraftFilePolicyKind, DraftResource, DraftState, MutablePublicationOutcome,
    PublicationOutcome, RepositoryFile, RepositoryRecord, UploadSourceKind, UploadSpecLike,
};
use figshare_rs::ids::{ArticleId, Doi, FileId};
use figshare_rs::model::{Article, ArticleFile, ArticleStatus};
use figshare_rs::upload::{FileReplacePolicy, UploadSpec};
use figshare_rs::workflow::PublishedArticle;
use url::Url;

fn article(id: u64, title: &str) -> Article {
    Article {
        id: ArticleId(id),
        title: title.to_owned(),
        doi: None,
        group_id: None,
        url: None,
        url_public_html: None,
        url_public_api: None,
        url_private_html: None,
        url_private_api: None,
        figshare_url: None,
        published_date: None,
        modified_date: None,
        created_date: None,
        thumb: None,
        defined_type: None,
        resource_title: None,
        resource_doi: None,
        citation: None,
        confidential_reason: None,
        embargo_type: None,
        is_confidential: None,
        size: None,
        funding: None,
        tags: Vec::new(),
        version: None,
        is_active: None,
        is_metadata_record: None,
        metadata_reason: None,
        status: None,
        description: None,
        is_embargoed: None,
        embargo_date: None,
        is_public: None,
        has_linked_file: None,
        categories: Vec::new(),
        license: None,
        references: Vec::new(),
        files: Vec::new(),
        authors: Vec::new(),
        custom_fields: Vec::new(),
        extra: Vec::new(),
    }
}

#[test]
fn upload_spec_like_reports_source_metadata() {
    let path_upload = UploadSpec::from_path("/tmp/archive.tar.gz".into()).unwrap();
    let reader_upload = UploadSpec::from_reader("artifact.bin", std::io::Cursor::new(vec![1, 2, 3]), 3);

    assert_eq!(UploadSpecLike::filename(&path_upload), "archive.tar.gz");
    assert_eq!(UploadSpecLike::source_kind(&path_upload), UploadSourceKind::Path);
    assert_eq!(UploadSpecLike::content_length(&path_upload), None);
    assert_eq!(UploadSpecLike::content_type(&path_upload), None);

    assert_eq!(UploadSpecLike::filename(&reader_upload), "artifact.bin");
    assert_eq!(UploadSpecLike::source_kind(&reader_upload), UploadSourceKind::Reader);
    assert_eq!(UploadSpecLike::content_length(&reader_upload), Some(3));
}

#[test]
fn file_replace_policy_maps_to_shared_kind() {
    assert_eq!(DraftFilePolicy::kind(&FileReplacePolicy::ReplaceAll), DraftFilePolicyKind::ReplaceAll);
    assert_eq!(DraftFilePolicy::kind(&FileReplacePolicy::UpsertByFilename), DraftFilePolicyKind::UpsertByFilename);
    assert_eq!(DraftFilePolicy::kind(&FileReplacePolicy::KeepExistingAndAdd), DraftFilePolicyKind::KeepExistingAndAdd);
}

#[test]
fn article_and_file_models_implement_shared_inspection_traits() {
    let mut draft = article(42, "Draft dataset");
    draft.doi = Some(Doi::new("10.6084/m9.figshare.42").unwrap());
    draft.status = Some(ArticleStatus::Draft);
    draft.is_public = Some(false);
    draft.files.push(ArticleFile {
        id: FileId(7),
        name: "artifact.bin".into(),
        size: 12,
        is_link_only: None,
        download_url: Some(Url::parse("https://example.com/file").unwrap()),
        status: None,
        viewer_type: None,
        preview_state: None,
        upload_url: None,
        upload_token: None,
        supplied_md5: None,
        computed_md5: Some("abc123".into()),
        extra: Vec::new(),
    });
    let mut published = article(42, "Draft dataset");
    published.status = Some(ArticleStatus::Public);
    published.is_public = Some(true);
    let file = &draft.files[0];

    assert_eq!(RepositoryRecord::resource_id(&draft), Some(ArticleId(42)));
    assert_eq!(RepositoryRecord::title(&draft), Some("Draft dataset"));
    assert_eq!(RepositoryRecord::files(&draft).len(), 1);
    assert_eq!(DoiBackedRecord::doi(&draft), Some(Doi::new("10.6084/m9.figshare.42").unwrap()));
    assert_eq!(DraftResource::draft_id(&draft), ArticleId(42));
    assert_eq!(DraftResource::files(&draft).len(), 1);
    assert!(!DraftState::is_published(&draft));
    assert!(DraftState::allows_metadata_updates(&draft));
    assert!(DraftState::is_published(&published));
    assert!(!DraftState::allows_metadata_updates(&published));

    assert_eq!(RepositoryFile::file_id(file), Some(FileId(7)));
    assert_eq!(RepositoryFile::file_name(file), "artifact.bin");
    assert_eq!(RepositoryFile::size_bytes(file), Some(12));
    assert_eq!(RepositoryFile::checksum(file), Some("abc123"));
    assert_eq!(RepositoryFile::download_url(file).map(Url::as_str), Some("https://example.com/file"));
}

#[test]
fn published_article_implements_shared_outcome_traits() {
    let mut private = article(42, "Private article");
    private.status = Some(ArticleStatus::Draft);
    let mut public_article = article(42, "Public article");
    public_article.status = Some(ArticleStatus::Public);
    public_article.is_public = Some(true);
    let outcome = PublishedArticle { article: private.clone(), public_article: public_article.clone() };

    assert_eq!(PublicationOutcome::public_resource(&outcome), &public_article);
    assert_eq!(PublicationOutcome::created(&outcome), None);
    assert_eq!(MutablePublicationOutcome::mutable_resource(&outcome), Some(&private));
}

#[test]
fn article_implements_publication_outcome() {
    let mut a = article(42, "Public article");
    a.status = Some(ArticleStatus::Public);
    a.is_public = Some(true);

    assert_eq!(PublicationOutcome::public_resource(&a), &a);
    assert_eq!(PublicationOutcome::created(&a), None);
}

#[test]
fn checksum_falls_back_to_the_supplied_md5() {
    let mut a = article(1, "t");
    a.files.push(ArticleFile {
        id: FileId(1),
        name: "f".into(),
        size: 1,
        is_link_only: None,
        download_url: None,
        status: None,
        viewer_type: None,
        preview_state: None,
        upload_url: None,
        upload_token: None,
        supplied_md5: Some("given".into()),
        computed_md5: None,
        extra: Vec::new(),
    });
    assert_eq!(RepositoryFile::checksum(&a.files[0]), Some("given"));
    assert_eq!(RepositoryFile::download_url(&a.files[0]), None);
}
