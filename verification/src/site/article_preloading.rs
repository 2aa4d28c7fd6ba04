//! The preload job of the site: a submitted URL in, the article's metadata out.
use vstd::prelude::*;
use crate::site::types::Url;

verus! {

/// The job id of a preload: the submitted URL.
#[derive(Clone, Debug)]
pub struct TempArticleId(pub Url);

impl From<Url> for TempArticleId {
    fn from(value: Url) -> (r: Self)
        ensures
            r == TempArticleId(value),
    {
        TempArticleId(value)
    }
}

impl vstd::std_specs::convert::FromSpecImpl<Url> for TempArticleId {
    open spec fn obeys_from_spec() -> bool {
        true
    }

    open spec fn from_spec(v: Url) -> TempArticleId {
        TempArticleId(v)
    }
}

impl TempArticleId {
    /// What `Display` shows: the URL's text.
    pub fn to_string(&self) -> (r: String)
        ensures
            r@ == self.0.0@,
    {
        self.0.0.clone()
    }
}

/// An article's title and tags.
#[derive(Clone, Debug)]
pub struct ArticleMeta {
    pub title: String,
    pub tags: Vec<String>,
}

/// The outcome of a preload.
#[derive(Clone, Debug)]
pub enum PreloadArticleResult {
    Success(ArticleMeta),
    Failure(String),
}

} // verus!
