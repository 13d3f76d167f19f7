//! The shared repository-client vocabulary of `client_uploader_traits`,
//! implemented for this library's models.

use client_uploader_traits::{
    DoiBackedRecord, DraftFilePolicy, DraftFilePolicyKind, DraftState, MutablePublicationOutcome,
    PublicationOutcome, RepositoryFile, RepositoryRecord, UploadSourceKind, UploadSpecLike,
};
use vstd::prelude::*;

use crate::ids::{ArticleId, Doi, FileId};
use crate::model::{Article, ArticleFile};
use crate::upload::{FileReplacePolicy, UploadSource, UploadSpec};
use crate::workflow::PublishedArticle;

verus! {

#[verifier::external_type_specification]
pub struct ExUploadSourceKind(UploadSourceKind);

#[verifier::external_type_specification]
pub struct ExDraftFilePolicyKind(DraftFilePolicyKind);

impl UploadSpecLike for UploadSpec {
    fn filename(&self) -> (r: &str)
        ensures
            r@ == self.filename@,
    {
        self.filename.as_str()
    }

    fn source_kind(&self) -> (r: UploadSourceKind)
        ensures
            r == (match self.source {
                UploadSource::Path(_) => UploadSourceKind::Path,
                UploadSource::Reader { .. } => UploadSourceKind::Reader,
            }),
    {
        match &self.source {
            UploadSource::Path(_) => UploadSourceKind::Path,
            UploadSource::Reader { .. } => UploadSourceKind::Reader,
        }
    }

    fn content_length(&self) -> (r: Option<u64>)
        ensures
            r == (match self.source {
                UploadSource::Path(_) => None,
                UploadSource::Reader { content_length, .. } => Some(content_length),
            }),
    {
        match &self.source {
            UploadSource::Path(_) => None,
            UploadSource::Reader { content_length, .. } => Some(*content_length),
        }
    }
}

impl DraftFilePolicy for FileReplacePolicy {
    fn kind(&self) -> (r: DraftFilePolicyKind)
        ensures
            r == (match *self {
                FileReplacePolicy::ReplaceAll => DraftFilePolicyKind::ReplaceAll,
                FileReplacePolicy::UpsertByFilename => DraftFilePolicyKind::UpsertByFilename,
                FileReplacePolicy::KeepExistingAndAdd => DraftFilePolicyKind::KeepExistingAndAdd,
            }),
    {
        match self {
            FileReplacePolicy::ReplaceAll => DraftFilePolicyKind::ReplaceAll,
            FileReplacePolicy::UpsertByFilename => DraftFilePolicyKind::UpsertByFilename,
            FileReplacePolicy::KeepExistingAndAdd => DraftFilePolicyKind::KeepExistingAndAdd,
        }
    }
}

impl RepositoryFile for ArticleFile {
    type Id = FileId;

    fn file_id(&self) -> (r: Option<FileId>)
        ensures
            r == Some(self.id),
    {
        Some(self.id)
    }

    fn file_name(&self) -> (r: &str)
        ensures
            r@ == self.name@,
    {
        self.name.as_str()
    }

    fn size_bytes(&self) -> (r: Option<u64>)
        ensures
            r == Some(self.size),
    {
        Some(self.size)
    }

    /// The server-computed MD5 when present, else the MD5 the client supplied.
    fn checksum(&self) -> (r: Option<&str>)
        ensures
            r is Some <==> (self.computed_md5 is Some || self.supplied_md5 is Some),
            r matches Some(s) ==> s@ == (match self.computed_md5 {
                Some(c) => c@,
                None => self.supplied_md5->0@,
            }),
    {
        match &self.computed_md5 {
            Some(c) => Some(c.as_str()),
            None => match &self.supplied_md5 {
                Some(s) => Some(s.as_str()),
                None => None,
            },
        }
    }

    fn download_url(&self) -> (r: Option<&url::Url>)
        ensures
            r is Some <==> self.download_url is Some,
            r matches Some(u) ==> self.download_url == Some(*u),
    {
        match &self.download_url {
            Some(u) => Some(u),
            None => None,
        }
    }
}

impl RepositoryRecord for Article {
    type Id = ArticleId;

    type File = ArticleFile;

    fn resource_id(&self) -> (r: Option<ArticleId>)
        ensures
            r == Some(self.id),
    {
        Some(self.id)
    }

    fn title(&self) -> (r: Option<&str>)
        ensures
            r matches Some(t) && t@ == self.title@,
    {
        Some(self.title.as_str())
    }

    fn files(&self) -> (r: &[ArticleFile])
        ensures
            r@ == self.files@,
    {
        self.files.as_slice()
    }
}

impl DoiBackedRecord for Article {
    type Doi = Doi;

    fn doi(&self) -> (r: Option<Doi>)
        ensures
            r is Some <==> self.doi is Some,
            r matches Some(d) ==> d.0@ == self.doi.unwrap().0@,
    {
        match &self.doi {
            Some(d) => Some(Doi(d.0.clone())),
            None => None,
        }
    }
}

impl DraftState for Article {
    fn is_published(&self) -> (r: bool)
        ensures
            r == crate::model::public_by_flags(self.is_public, self.status, self.published_date),
    {
        self.is_public_article()
    }

    fn allows_metadata_updates(&self) -> (r: bool)
        ensures
            r == !crate::model::public_by_flags(self.is_public, self.status, self.published_date),
    {
        !self.is_public_article()
    }
}

impl PublicationOutcome for Article {
    type PublicResource = Article;

    fn public_resource(&self) -> (r: &Article)
        ensures
            *r == *self,
    {
        self
    }
}

impl PublicationOutcome for PublishedArticle {
    type PublicResource = Article;

    fn public_resource(&self) -> (r: &Article)
        ensures
            *r == self.public_article,
    {
        &self.public_article
    }
}

impl MutablePublicationOutcome for PublishedArticle {
    type MutableResource = Article;

    fn mutable_resource(&self) -> (r: Option<&Article>)
        ensures
            r matches Some(a) && *a == self.article,
    {
        Some(&self.article)
    }
}

} // verus!
