//! Core data models for articles, files, licenses, uploads, and related payloads.
//!
//! Fields that Figshare may add in later API versions are kept, entry by entry
//! and in key order, in each type's `extra`.

use url::Url;
use vstd::prelude::*;

use crate::ids::{ArticleId, CategoryId, Doi, FileId, LicenseId};
use crate::error::opt_text;
use crate::json::JsonValue;
use crate::metadata::DefinedType;
use crate::text::{chars_eq, chars_of, str_eq};

verus! {

#[verifier::external_type_specification]
#[verifier::external_body]
pub struct ExUrl(url::Url);

/// `Url::clone`, which `derive(Clone)` writes field by field: the copy is the
/// same URL.
pub assume_specification[ <url::Url as Clone>::clone ](url: &url::Url) -> (r: url::Url)
    ensures
        r == *url,
;

/// Private/public article status.
#[derive(Clone, Debug, PartialEq, Eq)]
#[non_exhaustive]
pub enum ArticleStatus {
    /// Draft article.
    Draft,
    /// Published article.
    Public,
    /// A server value unknown to this crate version.
    Unknown(
        /// Raw server value.
        String,
    ),
}

/// Whether `text` is one of the values that `ArticleStatus` names by a variant.
pub open spec fn article_status_known(text: Seq<char>) -> bool {
    text == seq!['d', 'r', 'a', 'f', 't'] || text == seq!['p', 'u', 'b', 'l', 'i', 'c']
}

impl ArticleStatus {
    /// The server value this variant stands for.
    pub open spec fn api_text(self) -> Seq<char> {
        match self {
            Self::Draft => seq!['d', 'r', 'a', 'f', 't'],
            Self::Public => seq!['p', 'u', 'b', 'l', 'i', 'c'],
            Self::Unknown(value) => value@,
        }
    }

    /// Reads a server value: a known value becomes its variant, anything else is
    /// kept verbatim in `Unknown`.
    pub fn from_api_str(value: &str) -> (r: Self)
        ensures
            r.api_text() == value@,
            r is Unknown <==> !article_status_known(value@),
    {
        let chars = chars_of(value);
        let s = chars.as_slice();
        if chars_eq(s, &['d', 'r', 'a', 'f', 't']) {
            return Self::Draft;
        }
        if chars_eq(s, &['p', 'u', 'b', 'l', 'i', 'c']) {
            return Self::Public;
        }
        Self::Unknown(value.to_owned())
    }

    /// The server value, as sent on the wire.
    pub fn as_api_str(&self) -> (r: &str)
        ensures
            r@ == self.api_text(),
    {
        match self {
            Self::Draft => {
                proof {
                    reveal_strlit("draft");
                }
                "draft"
            },
            Self::Public => {
                proof {
                    reveal_strlit("public");
                }
                "public"
            },
            Self::Unknown(value) => value.as_str(),
        }
    }
}

/// Reading back the server value of a variant gives the same variant, unless it
/// is an `Unknown` that holds a value some variant names.
pub proof fn lemma_article_status_round_trip(status: ArticleStatus, read: ArticleStatus)
    requires
        read.api_text() == status.api_text(),
        read is Unknown <==> !article_status_known(status.api_text()),
        !(status is Unknown && article_status_known(status.api_text())),
    ensures
        status is Unknown ==> read is Unknown,
        !(status is Unknown) ==> read == status,
{
}

/// Article-level or file-level embargo mode.
#[derive(Clone, Debug, PartialEq, Eq)]
#[non_exhaustive]
pub enum ArticleEmbargo {
    /// Whole-article embargo.
    Article,
    /// File-level embargo.
    File,
    /// A server value unknown to this crate version.
    Unknown(
        /// Raw server value.
        String,
    ),
}

/// Whether `text` is one of the values that `ArticleEmbargo` names by a variant.
pub open spec fn article_embargo_known(text: Seq<char>) -> bool {
    text == seq!['a', 'r', 't', 'i', 'c', 'l', 'e'] || text == seq!['f', 'i', 'l', 'e']
}

impl ArticleEmbargo {
    /// The server value this variant stands for.
    pub open spec fn api_text(self) -> Seq<char> {
        match self {
            Self::Article => seq!['a', 'r', 't', 'i', 'c', 'l', 'e'],
            Self::File => seq!['f', 'i', 'l', 'e'],
            Self::Unknown(value) => value@,
        }
    }

    /// Reads a server value: a known value becomes its variant, anything else is
    /// kept verbatim in `Unknown`.
    pub fn from_api_str(value: &str) -> (r: Self)
        ensures
            r.api_text() == value@,
            r is Unknown <==> !article_embargo_known(value@),
    {
        let chars = chars_of(value);
        let s = chars.as_slice();
        if chars_eq(s, &['a', 'r', 't', 'i', 'c', 'l', 'e']) {
            return Self::Article;
        }
        if chars_eq(s, &['f', 'i', 'l', 'e']) {
            return Self::File;
        }
        Self::Unknown(value.to_owned())
    }

    /// The server value, as sent on the wire.
    pub fn as_api_str(&self) -> (r: &str)
        ensures
            r@ == self.api_text(),
    {
        match self {
            Self::Article => {
                proof {
                    reveal_strlit("article");
                }
                "article"
            },
            Self::File => {
                proof {
                    reveal_strlit("file");
                }
                "file"
            },
            Self::Unknown(value) => value.as_str(),
        }
    }
}

/// Reading back the server value of a variant gives the same variant, unless it
/// is an `Unknown` that holds a value some variant names.
pub proof fn lemma_article_embargo_round_trip(status: ArticleEmbargo, read: ArticleEmbargo)
    requires
        read.api_text() == status.api_text(),
        read is Unknown <==> !article_embargo_known(status.api_text()),
        !(status is Unknown && article_embargo_known(status.api_text())),
    ensures
        status is Unknown ==> read is Unknown,
        !(status is Unknown) ==> read == status,
{
}

/// File status as reported by Figshare.
#[derive(Clone, Debug, PartialEq, Eq)]
#[non_exhaustive]
pub enum FileStatus {
    /// Newly created file entry.
    Created,
    /// Available file.
    Available,
    /// A server value unknown to this crate version.
    Unknown(
        /// Raw server value.
        String,
    ),
}

/// Whether `text` is one of the values that `FileStatus` names by a variant.
pub open spec fn file_status_known(text: Seq<char>) -> bool {
    text == seq!['c', 'r', 'e', 'a', 't', 'e', 'd'] || text == seq!['a', 'v', 'a', 'i', 'l', 'a', 'b', 'l', 'e']
}

impl FileStatus {
    /// The server value this variant stands for.
    pub open spec fn api_text(self) -> Seq<char> {
        match self {
            Self::Created => seq!['c', 'r', 'e', 'a', 't', 'e', 'd'],
            Self::Available => seq!['a', 'v', 'a', 'i', 'l', 'a', 'b', 'l', 'e'],
            Self::Unknown(value) => value@,
        }
    }

    /// Reads a server value: a known value becomes its variant, anything else is
    /// kept verbatim in `Unknown`.
    pub fn from_api_str(value: &str) -> (r: Self)
        ensures
            r.api_text() == value@,
            r is Unknown <==> !file_status_known(value@),
    {
        let chars = chars_of(value);
        let s = chars.as_slice();
        if chars_eq(s, &['c', 'r', 'e', 'a', 't', 'e', 'd']) {
            return Self::Created;
        }
        if chars_eq(s, &['a', 'v', 'a', 'i', 'l', 'a', 'b', 'l', 'e']) {
            return Self::Available;
        }
        Self::Unknown(value.to_owned())
    }

    /// The server value, as sent on the wire.
    pub fn as_api_str(&self) -> (r: &str)
        ensures
            r@ == self.api_text(),
    {
        match self {
            Self::Created => {
                proof {
                    reveal_strlit("created");
                }
                "created"
            },
            Self::Available => {
                proof {
                    reveal_strlit("available");
                }
                "available"
            },
            Self::Unknown(value) => value.as_str(),
        }
    }
}

/// Reading back the server value of a variant gives the same variant, unless it
/// is an `Unknown` that holds a value some variant names.
pub proof fn lemma_file_status_round_trip(status: FileStatus, read: FileStatus)
    requires
        read.api_text() == status.api_text(),
        read is Unknown <==> !file_status_known(status.api_text()),
        !(status is Unknown && file_status_known(status.api_text())),
    ensures
        status is Unknown ==> read is Unknown,
        !(status is Unknown) ==> read == status,
{
}

/// Upload session status from the upload service.
#[derive(Clone, Debug, PartialEq, Eq)]
#[non_exhaustive]
pub enum UploadStatus {
    /// Waiting for parts to be uploaded.
    Pending,
    /// Upload assembly completed.
    Completed,
    /// Upload aborted.
    Aborted,
    /// A server value unknown to this crate version.
    Unknown(
        /// Raw server value.
        String,
    ),
}

/// Whether `text` is one of the values that `UploadStatus` names by a variant.
pub open spec fn upload_status_known(text: Seq<char>) -> bool {
    text == seq!['P', 'E', 'N', 'D', 'I', 'N', 'G'] || text == seq!['C', 'O', 'M', 'P', 'L', 'E', 'T', 'E', 'D'] || text == seq!['A', 'B', 'O', 'R', 'T', 'E', 'D']
}

impl UploadStatus {
    /// The server value this variant stands for.
    pub open spec fn api_text(self) -> Seq<char> {
        match self {
            Self::Pending => seq!['P', 'E', 'N', 'D', 'I', 'N', 'G'],
            Self::Completed => seq!['C', 'O', 'M', 'P', 'L', 'E', 'T', 'E', 'D'],
            Self::Aborted => seq!['A', 'B', 'O', 'R', 'T', 'E', 'D'],
            Self::Unknown(value) => value@,
        }
    }

    /// Reads a server value: a known value becomes its variant, anything else is
    /// kept verbatim in `Unknown`.
    pub fn from_api_str(value: &str) -> (r: Self)
        ensures
            r.api_text() == value@,
            r is Unknown <==> !upload_status_known(value@),
    {
        let chars = chars_of(value);
        let s = chars.as_slice();
        if chars_eq(s, &['P', 'E', 'N', 'D', 'I', 'N', 'G']) {
            return Self::Pending;
        }
        if chars_eq(s, &['C', 'O', 'M', 'P', 'L', 'E', 'T', 'E', 'D']) {
            return Self::Completed;
        }
        if chars_eq(s, &['A', 'B', 'O', 'R', 'T', 'E', 'D']) {
            return Self::Aborted;
        }
        Self::Unknown(value.to_owned())
    }

    /// The server value, as sent on the wire.
    pub fn as_api_str(&self) -> (r: &str)
        ensures
            r@ == self.api_text(),
    {
        match self {
            Self::Pending => {
                proof {
                    reveal_strlit("PENDING");
                }
                "PENDING"
            },
            Self::Completed => {
                proof {
                    reveal_strlit("COMPLETED");
                }
                "COMPLETED"
            },
            Self::Aborted => {
                proof {
                    reveal_strlit("ABORTED");
                }
                "ABORTED"
            },
            Self::Unknown(value) => value.as_str(),
        }
    }
}

/// Reading back the server value of a variant gives the same variant, unless it
/// is an `Unknown` that holds a value some variant names.
pub proof fn lemma_upload_status_round_trip(status: UploadStatus, read: UploadStatus)
    requires
        read.api_text() == status.api_text(),
        read is Unknown <==> !upload_status_known(status.api_text()),
        !(status is Unknown && upload_status_known(status.api_text())),
    ensures
        status is Unknown ==> read is Unknown,
        !(status is Unknown) ==> read == status,
{
}

/// Upload part status from the upload service.
#[derive(Clone, Debug, PartialEq, Eq)]
#[non_exhaustive]
pub enum UploadPartStatus {
    /// Waiting for part bytes.
    Pending,
    /// Part bytes uploaded successfully.
    Complete,
    /// A server value unknown to this crate version.
    Unknown(
        /// Raw server value.
        String,
    ),
}

/// Whether `text` is one of the values that `UploadPartStatus` names by a variant.
pub open spec fn upload_part_status_known(text: Seq<char>) -> bool {
    text == seq!['P', 'E', 'N', 'D', 'I', 'N', 'G'] || text == seq!['C', 'O', 'M', 'P', 'L', 'E', 'T', 'E']
}

impl UploadPartStatus {
    /// The server value this variant stands for.
    pub open spec fn api_text(self) -> Seq<char> {
        match self {
            Self::Pending => seq!['P', 'E', 'N', 'D', 'I', 'N', 'G'],
            Self::Complete => seq!['C', 'O', 'M', 'P', 'L', 'E', 'T', 'E'],
            Self::Unknown(value) => value@,
        }
    }

    /// Reads a server value: a known value becomes its variant, anything else is
    /// kept verbatim in `Unknown`.
    pub fn from_api_str(value: &str) -> (r: Self)
        ensures
            r.api_text() == value@,
            r is Unknown <==> !upload_part_status_known(value@),
    {
        let chars = chars_of(value);
        let s = chars.as_slice();
        if chars_eq(s, &['P', 'E', 'N', 'D', 'I', 'N', 'G']) {
            return Self::Pending;
        }
        if chars_eq(s, &['C', 'O', 'M', 'P', 'L', 'E', 'T', 'E']) {
            return Self::Complete;
        }
        Self::Unknown(value.to_owned())
    }

    /// The server value, as sent on the wire.
    pub fn as_api_str(&self) -> (r: &str)
        ensures
            r@ == self.api_text(),
    {
        match self {
            Self::Pending => {
                proof {
                    reveal_strlit("PENDING");
                }
                "PENDING"
            },
            Self::Complete => {
                proof {
                    reveal_strlit("COMPLETE");
                }
                "COMPLETE"
            },
            Self::Unknown(value) => value.as_str(),
        }
    }
}

/// Reading back the server value of a variant gives the same variant, unless it
/// is an `Unknown` that holds a value some variant names.
pub proof fn lemma_upload_part_status_round_trip(status: UploadPartStatus, read: UploadPartStatus)
    requires
        read.api_text() == status.api_text(),
        read is Unknown <==> !upload_part_status_known(status.api_text()),
        !(status is Unknown && upload_part_status_known(status.api_text())),
    ensures
        status is Unknown ==> read is Unknown,
        !(status is Unknown) ==> read == status,
{
}

/// Category representation returned by Figshare.
#[derive(Clone, Debug, PartialEq)]
pub struct ArticleCategory {
    /// Parent category ID, when present.
    pub parent_id: Option<u64>,
    /// Category identifier.
    pub id: CategoryId,
    /// Category title.
    pub title: String,
    /// Additional untyped fields preserved for forward compatibility.
    pub extra: Vec<(String, JsonValue)>,
}

/// License representation returned by Figshare.
#[derive(Clone, Debug, PartialEq)]
pub struct ArticleLicense {
    /// License identifier (the wire field `value`).
    pub id: LicenseId,
    /// License short name.
    pub name: String,
    /// License documentation URL, when present.
    pub url: Option<Url>,
    /// Additional untyped fields preserved for forward compatibility.
    pub extra: Vec<(String, JsonValue)>,
}

/// Custom field entry returned on detailed article payloads.
#[derive(Clone, Debug, PartialEq)]
pub struct CustomField {
    /// Custom field name.
    pub name: String,
    /// Custom field value.
    pub value: JsonValue,
    /// Whether the field is mandatory, when present.
    pub is_mandatory: Option<bool>,
    /// Additional untyped fields preserved for forward compatibility.
    pub extra: Vec<(String, JsonValue)>,
}

impl Default for CustomField {
    fn default() -> (r: Self)
        ensures
            r.name@ == Seq::<char>::empty(),
            r.value == JsonValue::Null,
            r.is_mandatory is None,
            r.extra@ == Seq::<(String, JsonValue)>::empty(),
    {
        CustomField { name: String::new(), value: JsonValue::Null, is_mandatory: None, extra: Vec::new() }
    }
}

/// Author representation returned on detailed article payloads.
#[derive(Clone, Debug, PartialEq)]
pub struct ArticleAuthor {
    /// Author identifier, when present.
    pub id: Option<u64>,
    /// Full display name, when present.
    pub full_name: Option<String>,
    /// Alternate display name field, when present.
    pub name: Option<String>,
    /// Figshare URL slug, when present.
    pub url_name: Option<String>,
    /// ORCID identifier, when present.
    pub orcid_id: Option<String>,
    /// Additional untyped fields preserved for forward compatibility.
    pub extra: Vec<(String, JsonValue)>,
}

impl Default for ArticleAuthor {
    fn default() -> (r: Self)
        ensures
            r.id is None,
            r.full_name is None,
            r.name is None,
            r.url_name is None,
            r.orcid_id is None,
            r.extra@ == Seq::<(String, JsonValue)>::empty(),
    {
        ArticleAuthor { id: None, full_name: None, name: None, url_name: None, orcid_id: None, extra: Vec::new() }
    }
}

impl ArticleAuthor {
    /// The display name an author shows: the full name when present, else the
    /// alternate name.
    pub open spec fn display_text(self) -> Option<Seq<char>> {
        match self.full_name {
            Some(n) => Some(n@),
            None => opt_text(self.name),
        }
    }

    /// Returns the best display name available for the author.
    pub fn display_name(&self) -> (r: Option<&str>)
        ensures
            r is Some <==> self.display_text() is Some,
            r matches Some(s) ==> self.display_text() == Some(s@),
    {
        match &self.full_name {
            Some(n) => Some(n.as_str()),
            None => match &self.name {
                Some(n) => Some(n.as_str()),
                None => None,
            },
        }
    }
}

/// Public/private file representation attached to an article.
#[derive(Clone, Debug, PartialEq)]
pub struct ArticleFile {
    /// File identifier.
    pub id: FileId,
    /// File name.
    pub name: String,
    /// File size in bytes.
    pub size: u64,
    /// Whether the file is only linked and not stored on Figshare.
    pub is_link_only: Option<bool>,
    /// Public or private file download URL, when present.
    pub download_url: Option<Url>,
    /// Private file status, when present.
    pub status: Option<FileStatus>,
    /// Viewer type hint, when present.
    pub viewer_type: Option<String>,
    /// Preview state hint, when present.
    pub preview_state: Option<String>,
    /// Upload session URL, when present.
    pub upload_url: Option<Url>,
    /// Upload token, when present.
    pub upload_token: Option<String>,
    /// Client-provided MD5 used when initiating the upload, when present.
    pub supplied_md5: Option<String>,
    /// Server-computed MD5, when present.
    pub computed_md5: Option<String>,
    /// Additional untyped fields preserved for forward compatibility.
    pub extra: Vec<(String, JsonValue)>,
}

impl ArticleFile {
    /// Returns the upload session URL, when the file is hosted on Figshare.
    pub fn upload_session_url(&self) -> (r: Option<&Url>)
        ensures
            r is Some <==> self.upload_url is Some,
            r matches Some(u) ==> self.upload_url == Some(*u),
    {
        match &self.upload_url {
            Some(u) => Some(u),
            None => None,
        }
    }
}

/// One public article version pointer.
#[derive(Clone, Debug, PartialEq)]
pub struct ArticleVersion {
    /// Version number.
    pub version: u64,
    /// API URL for the version resource.
    pub url: Url,
    /// Additional untyped fields preserved for forward compatibility.
    pub extra: Vec<(String, JsonValue)>,
}

/// Article payload shared across public and own article endpoints.
#[derive(Clone, Debug, PartialEq)]
pub struct Article {
    /// Article identifier.
    pub id: ArticleId,
    /// Article title.
    pub title: String,
    /// Version-specific DOI, when present.
    pub doi: Option<Doi>,
    /// Group identifier, when present.
    pub group_id: Option<u64>,
    /// Figshare-provided article URL, when present.
    pub url: Option<Url>,
    /// Public HTML URL, when present.
    pub url_public_html: Option<Url>,
    /// Public API URL, when present.
    pub url_public_api: Option<Url>,
    /// Private HTML URL, when present.
    pub url_private_html: Option<Url>,
    /// Private API URL, when present.
    pub url_private_api: Option<Url>,
    /// Public Figshare landing page, when present.
    pub figshare_url: Option<Url>,
    /// Publication timestamp as returned by Figshare, when present.
    pub published_date: Option<String>,
    /// Last modification timestamp as returned by Figshare, when present.
    pub modified_date: Option<String>,
    /// Creation timestamp as returned by Figshare, when present.
    pub created_date: Option<String>,
    /// Preview thumbnail URL, when present.
    pub thumb: Option<Url>,
    /// Typed article kind, when present.
    pub defined_type: Option<DefinedType>,
    /// Related resource title, when present.
    pub resource_title: Option<String>,
    /// Related resource DOI, when present.
    pub resource_doi: Option<String>,
    /// Citation string, when present.
    pub citation: Option<String>,
    /// Confidentiality reason, when present.
    pub confidential_reason: Option<String>,
    /// Embargo mode, when present.
    pub embargo_type: Option<ArticleEmbargo>,
    /// Whether the article is confidential, when present.
    pub is_confidential: Option<bool>,
    /// Total article size in bytes, when present.
    pub size: Option<u64>,
    /// Funding string, when present.
    pub funding: Option<String>,
    /// Tags.
    pub tags: Vec<String>,
    /// Version number, when present.
    pub version: Option<u64>,
    /// Whether the article is active, when present.
    pub is_active: Option<bool>,
    /// Whether the article is only a metadata record, when present.
    pub is_metadata_record: Option<bool>,
    /// Metadata reason, when present.
    pub metadata_reason: Option<String>,
    /// Article status, when present.
    pub status: Option<ArticleStatus>,
    /// Description, when present.
    pub description: Option<String>,
    /// Whether the article is embargoed, when present.
    pub is_embargoed: Option<bool>,
    /// Embargo end timestamp, when present.
    pub embargo_date: Option<String>,
    /// Whether the article is public, when present.
    pub is_public: Option<bool>,
    /// Whether the article contains a linked file, when present.
    pub has_linked_file: Option<bool>,
    /// Attached categories.
    pub categories: Vec<ArticleCategory>,
    /// Attached license, when present.
    pub license: Option<ArticleLicense>,
    /// Attached references.
    pub references: Vec<String>,
    /// Attached files embedded in the article payload.
    ///
    /// Figshare caps embedded article file lists, so use dedicated file-list
    /// endpoints or the download helpers when complete enumeration matters.
    pub files: Vec<ArticleFile>,
    /// Attached authors.
    pub authors: Vec<ArticleAuthor>,
    /// Attached custom fields.
    pub custom_fields: Vec<CustomField>,
    /// Additional untyped fields preserved for forward compatibility.
    pub extra: Vec<(String, JsonValue)>,
}

/// Whether the payload flags mark an article public: the explicit `is_public`
/// flag when present, else a `public` status or a publication date.
pub open spec fn public_by_flags(
    is_public: Option<bool>,
    status: Option<ArticleStatus>,
    published_date: Option<String>,
) -> bool {
    match is_public {
        Some(flag) => flag,
        None => (status matches Some(ArticleStatus::Public)) || published_date is Some,
    }
}

/// The server values of the status and embargo variants.
pub proof fn lemma_status_wire_names()
    ensures
        ArticleStatus::Draft.api_text() == "draft"@,
        ArticleStatus::Public.api_text() == "public"@,
        ArticleEmbargo::Article.api_text() == "article"@,
        ArticleEmbargo::File.api_text() == "file"@,
        FileStatus::Created.api_text() == "created"@,
        FileStatus::Available.api_text() == "available"@,
        UploadStatus::Pending.api_text() == "PENDING"@,
        UploadStatus::Completed.api_text() == "COMPLETED"@,
        UploadStatus::Aborted.api_text() == "ABORTED"@,
        UploadPartStatus::Pending.api_text() == "PENDING"@,
        UploadPartStatus::Complete.api_text() == "COMPLETE"@,
{
    reveal_strlit("ABORTED");
    reveal_strlit("COMPLETE");
    reveal_strlit("COMPLETED");
    reveal_strlit("PENDING");
    reveal_strlit("article");
    reveal_strlit("available");
    reveal_strlit("created");
    reveal_strlit("draft");
    reveal_strlit("file");
    reveal_strlit("public");
}

/// An article counts as public exactly when its explicit `is_public` flag
/// says so; without that flag, when its status is `public` or it carries a
/// publication date.
pub proof fn lemma_public_by_flags(
    is_public: Option<bool>,
    status: Option<ArticleStatus>,
    published_date: Option<String>,
)
    ensures
        is_public == Some(true) ==> public_by_flags(is_public, status, published_date),
        is_public == Some(false) ==> !public_by_flags(is_public, status, published_date),
        is_public is None && status == Some(ArticleStatus::Public) ==> public_by_flags(is_public, status, published_date),
        is_public is None && published_date is Some ==> public_by_flags(is_public, status, published_date),
        is_public is None && status != Some(ArticleStatus::Public) && published_date is None ==> !public_by_flags(
            is_public,
            status,
            published_date,
        ),
{
}

/// The position of the first file named `name`, if any.
pub open spec fn first_file_named(files: Seq<ArticleFile>, name: Seq<char>) -> Option<int> {
    if exists|i: int| 0 <= i < files.len() && #[trigger] files[i].name@ == name {
        Some(choose|i: int| 0 <= i < files.len() && files[i].name@ == name
            && forall|j: int| 0 <= j < i ==> #[trigger] files[j].name@ != name)
    } else {
        None
    }
}

/// The position of the first file with identifier `id`, if any.
pub open spec fn first_file_with_id(files: Seq<ArticleFile>, id: FileId) -> Option<int> {
    if exists|i: int| 0 <= i < files.len() && #[trigger] files[i].id == id {
        Some(choose|i: int| 0 <= i < files.len() && files[i].id == id
            && forall|j: int| 0 <= j < i ==> #[trigger] files[j].id != id)
    } else {
        None
    }
}

impl Article {
    /// Returns `true` when the article is public according to the available
    /// flags in the payload.
    pub fn is_public_article(&self) -> (r: bool)
        ensures
            r == public_by_flags(self.is_public, self.status, self.published_date),
    {
        match self.is_public {
            Some(flag) => flag,
            None => {
                let by_status = match &self.status {
                    Some(ArticleStatus::Public) => true,
                    _ => false,
                };
                by_status || self.published_date.is_some()
            },
        }
    }

    /// Returns the best version number visible in the payload.
    pub fn version_number(&self) -> (r: Option<u64>)
        ensures
            r == self.version,
    {
        self.version
    }

    /// Finds a file by exact file name within the embedded article payload.
    ///
    /// Figshare may return only a partial embedded file list, so prefer the
    /// dedicated file-list endpoints when completeness matters.
    pub fn file_by_name(&self, name: &str) -> (r: Option<&ArticleFile>)
        ensures
            r is Some <==> first_file_named(self.files@, name@) is Some,
            r matches Some(f) ==> *f == self.files@[first_file_named(self.files@, name@)->0],
    {
        let mut i: usize = 0;
        while i < self.files.len()
            invariant
                i <= self.files.len(),
                forall|j: int| 0 <= j < i ==> #[trigger] self.files@[j].name@ != name@,
            decreases self.files.len() - i,
        {
            if str_eq(self.files[i].name.as_str(), name) {
                proof {
                    lemma_first_file_named_at(self.files@, name@, i as int);
                }
                return Some(&self.files[i]);
            }
            i = i + 1;
        }
        None
    }

    /// Finds a file by ID.
    pub fn file_by_id(&self, id: FileId) -> (r: Option<&ArticleFile>)
        ensures
            r is Some <==> first_file_with_id(self.files@, id) is Some,
            r matches Some(f) ==> *f == self.files@[first_file_with_id(self.files@, id)->0],
    {
        let mut i: usize = 0;
        while i < self.files.len()
            invariant
                i <= self.files.len(),
                forall|j: int| 0 <= j < i ==> #[trigger] self.files@[j].id != id,
            decreases self.files.len() - i,
        {
            if self.files[i].id.0 == id.0 {
                proof {
                    lemma_first_file_with_id_at(self.files@, id, i as int);
                }
                return Some(&self.files[i]);
            }
            i = i + 1;
        }
        None
    }
}

/// The first file named `name` sits where a scan first meets that name.
pub proof fn lemma_first_file_named_at(files: Seq<ArticleFile>, name: Seq<char>, i: int)
    requires
        0 <= i < files.len(),
        files[i].name@ == name,
        forall|j: int| 0 <= j < i ==> #[trigger] files[j].name@ != name,
    ensures
        first_file_named(files, name) == Some(i),
{
    let k = choose|k: int| 0 <= k < files.len() && files[k].name@ == name
        && forall|j: int| 0 <= j < k ==> #[trigger] files[j].name@ != name;
    assert(0 <= k < files.len() && files[k].name@ == name
        && forall|j: int| 0 <= j < k ==> #[trigger] files[j].name@ != name);
    if k < i {
        assert(files[k].name@ != name);
    } else if k > i {
        assert(files[i].name@ != name);
    }
}

/// The first file with identifier `id` sits where a scan first meets it.
pub proof fn lemma_first_file_with_id_at(files: Seq<ArticleFile>, id: FileId, i: int)
    requires
        0 <= i < files.len(),
        files[i].id == id,
        forall|j: int| 0 <= j < i ==> #[trigger] files[j].id != id,
    ensures
        first_file_with_id(files, id) == Some(i),
{
    let k = choose|k: int| 0 <= k < files.len() && files[k].id == id
        && forall|j: int| 0 <= j < k ==> #[trigger] files[j].id != id;
    assert(0 <= k < files.len() && files[k].id == id
        && forall|j: int| 0 <= j < k ==> #[trigger] files[j].id != id);
    if k < i {
        assert(files[k].id != id);
    } else if k > i {
        assert(files[i].id != id);
    }
}

/// Upload session information returned by the upload service.
#[derive(Clone, Debug, PartialEq)]
pub struct UploadSession {
    /// Upload token.
    pub token: String,
    /// Target file name.
    pub name: String,
    /// Total file size in bytes.
    pub size: u64,
    /// Expected MD5.
    pub md5: Option<String>,
    /// Upload status.
    pub status: UploadStatus,
    /// Upload parts.
    pub parts: Vec<UploadPart>,
    /// Additional untyped fields preserved for forward compatibility.
    pub extra: Vec<(String, JsonValue)>,
}

impl UploadSession {
    /// Returns `true` when the upload completed successfully.
    pub fn is_completed(&self) -> (r: bool)
        ensures
            r == (self.status is Completed),
    {
        match self.status {
            UploadStatus::Completed => true,
            _ => false,
        }
    }
}

/// One upload part.
#[derive(Clone, Debug, PartialEq)]
pub struct UploadPart {
    /// Part number.
    pub part_no: u64,
    /// Inclusive start offset.
    pub start_offset: u64,
    /// Inclusive end offset.
    pub end_offset: u64,
    /// Part status.
    pub status: UploadPartStatus,
    /// Whether the part is locked.
    pub locked: bool,
    /// Additional untyped fields preserved for forward compatibility.
    pub extra: Vec<(String, JsonValue)>,
}

impl UploadPart {
    /// Returns the exact byte length of the part.
    pub fn len(&self) -> (r: u64)
        requires
            self.start_offset <= self.end_offset,
            self.end_offset - self.start_offset < u64::MAX,
        ensures
            r == self.end_offset - self.start_offset + 1,
    {
        self.end_offset - self.start_offset + 1
    }

    /// Returns whether the part describes an empty byte range.
    pub fn is_empty(&self) -> (r: bool)
        ensures
            r == (self.end_offset < self.start_offset),
    {
        self.end_offset < self.start_offset
    }
}

} // verus!
