//! The draft view of an article for `client_uploader_traits`.
//!
//! It stands apart from the record view because both traits name a `files`
//! method: each file keeps one of them in scope.

use client_uploader_traits::DraftResource;
use vstd::prelude::*;

use crate::ids::ArticleId;
use crate::model::{Article, ArticleFile};

verus! {

impl DraftResource for Article {
    type Id = ArticleId;

    type File = ArticleFile;

    fn draft_id(&self) -> (r: ArticleId)
        ensures
            r == self.id,
    {
        self.id
    }

    fn files(&self) -> (r: &[ArticleFile])
        ensures
            r@ == self.files@,
    {
        self.files.as_slice()
    }
}

} // verus!
