//! The preload job: a submitted repository URL in, the article's metadata out.
use vstd::prelude::*;

verus! {

/// The job id of a preload: the text of the submitted URL.
#[derive(Clone, Debug)]
pub struct TempArticleId(pub String);

impl From<String> for TempArticleId {
    fn from(value: String) -> (r: Self)
        ensures
            r == TempArticleId(value),
    {
        TempArticleId(value)
    }
}

impl vstd::std_specs::convert::FromSpecImpl<String> for TempArticleId {
    open spec fn obeys_from_spec() -> bool {
        true
    }

    open spec fn from_spec(v: String) -> TempArticleId {
        TempArticleId(v)
    }
}

impl TempArticleId {
    /// What `Display` shows: the URL's text. It also serves as the job's field in Redis.
    pub fn to_string(&self) -> (r: String)
        ensures
            r@ == self.0@,
    {
        self.0.clone()
    }
}

/// The metadata of an article, read from the repository's `archive.toml`.
#[derive(Clone, Debug)]
pub struct ArticleMeta {
    pub repo_url: String,
    pub path_in_repo: String,
    pub commit: String,
    pub title: String,
    pub tags: Vec<String>,
}

/// Why a preload failed, as text.
#[derive(Clone, Debug)]
pub struct ImportError(pub String);

impl ImportError {
    /// What `Display` shows: the message.
    pub fn to_string(&self) -> (r: String)
        ensures
            r@ == self.0@,
    {
        self.0.clone()
    }
}

/// The outcome of a preload job.
pub type PreloadArticleResult = Result<ArticleMeta, ImportError>;

} // verus!
