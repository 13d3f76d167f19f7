use figshare_rs::error::FigshareError;
use figshare_rs::ids::{ArticleId, Doi, FileId};
use figshare_rs::model::{Article, ArticleFile, ArticleVersion};
use figshare_rs::resolve::{
    article_with_doi, download_for_file, file_named, latest_version, listed_version_or_first, version_to_fetch,
    FilePages,
};
use url::Url;

fn file(id: u64, name: &str) -> ArticleFile {
    ArticleFile {
        id: FileId(id),
        name: name.to_owned(),
        size: 1,
        is_link_only: None,
        download_url: None,
        status: None,
        viewer_type: None,
        preview_state: None,
        upload_url: None,
        upload_token: None,
        supplied_md5: None,
        computed_md5: None,
        extra: Vec::new(),
    }
}

fn version(n: u64) -> ArticleVersion {
    ArticleVersion {
        version: n,
        url: Url::parse(&format!("https://api.figshare.com/v2/articles/1/versions/{n}")).unwrap(),
        extra: Vec::new(),
    }
}

fn article(id: u64, doi: Option<&str>) -> Article {
    Article {
        id: ArticleId(id),
        title: "t".into(),
        doi: doi.map(|d| Doi::new(d).unwrap()),
        group_id: None,
        url: None,
        url_public_html: None,
        url_public_api: None,
        url_private_html: None,
        url_private_api: None,
        figshare_url: None,
        published_date: None,
        modified_date: None,
        created_date: None,
        thumb: None,
        defined_type: None,
        resource_title: None,
        resource_doi: None,
        citation: None,
        confidential_reason: None,
        embargo_type: None,
        is_confidential: None,
        size: None,
        funding: None,
        tags: Vec::new(),
        version: None,
        is_active: None,
        is_metadata_record: None,
        metadata_reason: None,
        status: None,
        description: None,
        is_embargoed: None,
        embargo_date: None,
        is_public: None,
        has_linked_file: None,
        categories: Vec::new(),
        license: None,
        references: Vec::new(),
        files: Vec::new(),
        authors: Vec::new(),
        custom_fields: Vec::new(),
        extra: Vec::new(),
    }
}

#[test]
fn latest_version_is_the_largest_number() {
    assert_eq!(latest_version(&vec![]), None);
    assert_eq!(latest_version(&vec![version(2), version(5), version(3)]), Some(5));
    assert_eq!(listed_version_or_first(&vec![]), 1);
    assert_eq!(listed_version_or_first(&vec![version(4)]), 4);
}

#[test]
fn fetch_only_when_the_article_is_not_the_latest() {
    let versions = vec![version(1), version(2)];
    assert_eq!(version_to_fetch(Some(2), &versions), None);
    assert_eq!(version_to_fetch(Some(1), &versions), Some(2));
    assert_eq!(version_to_fetch(None, &versions), Some(2));
    assert_eq!(version_to_fetch(Some(1), &vec![]), None);
}

#[test]
fn doi_lookup_requires_an_exact_match() {
    let doi = Doi::new("10.6084/m9.figshare.123").unwrap();
    let hits = vec![article(1, Some("10.6084/m9.figshare.1234")), article(2, None), article(3, Some("10.6084/m9.figshare.123"))];
    assert_eq!(article_with_doi(hits, &doi).unwrap().id, ArticleId(3));
    match article_with_doi(vec![article(1, None)], &doi) {
        Err(FigshareError::UnsupportedSelector(m)) => {
            assert_eq!(m, "no public article matched DOI 10.6084/m9.figshare.123")
        }
        other => panic!("unexpected result: {other:?}"),
    }
}

#[test]
fn file_selection_by_name() {
    let files = vec![file(1, "a.bin"), file(2, "b.bin"), file(3, "b.bin")];
    assert_eq!(file_named(files, "b.bin").unwrap().id, FileId(2));
    match file_named(vec![file(1, "a.bin")], "c.bin") {
        Err(FigshareError::MissingFile { name }) => assert_eq!(name, "c.bin"),
        other => panic!("unexpected result: {other:?}"),
    }
}

#[test]
fn download_needs_a_download_url() {
    let mut f = file(9, "data.csv");
    assert!(matches!(download_for_file(ArticleId(4), f.clone()), Err(FigshareError::MissingLink("download_url"))));
    f.download_url = Some(Url::parse("https://ndownloader.figshare.com/files/9").unwrap());
    let resolved = download_for_file(ArticleId(4), f).unwrap();
    assert_eq!(resolved.resolved_article, ArticleId(4));
    assert_eq!(resolved.resolved_file_id, FileId(9));
    assert_eq!(resolved.resolved_name, "data.csv");
    assert_eq!(resolved.download_url.as_str(), "https://ndownloader.figshare.com/files/9");
    assert_eq!(resolved.bytes_written, 0);
}

#[test]
fn file_pages_continue_until_a_short_page() {
    let mut pages = FilePages::new();
    assert_eq!(pages.query_pairs(), vec![("page".to_string(), "1".to_string()), ("page_size".to_string(), "1000".to_string())]);
    pages.push_batch((0..1000).map(|i| file(i, "f")).collect());
    assert!(!pages.done);
    assert_eq!(pages.page, 2);
    assert_eq!(pages.query_pairs()[0].1, "2");
    pages.push_batch(vec![file(5000, "last")]);
    assert!(pages.done);
    assert_eq!(pages.files.len(), 1001);
    assert_eq!(pages.files[1000].id, FileId(5000));
}
