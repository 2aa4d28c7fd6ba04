//! Articles and their rendering.
use vstd::prelude::*;
use crate::site::types::HtmlPage;
use crate::text::{decimal, decimal_text, numeral_value};

verus! {

/// The id of a stored article.
#[derive(Clone, Copy, Debug, PartialEq, Eq, Structural)]
pub struct ArticleId(u32);

impl ArticleId {
    pub closed spec fn value(self) -> u32 {
        self.0
    }

    /// What `Display` shows: the number in decimal.
    pub fn to_string(&self) -> (r: String)
        ensures
            r@ == decimal(self.value() as nat),
            numeral_value(r@) == self.value(),
    {
        decimal_text(self.0 as u64)
    }
}

impl From<u32> for ArticleId {
    fn from(value: u32) -> (r: Self)
        ensures
            r.value() == value,
    {
        ArticleId(value)
    }
}

impl vstd::std_specs::convert::FromSpecImpl<u32> for ArticleId {
    open spec fn obeys_from_spec() -> bool {
        true
    }

    closed spec fn from_spec(v: u32) -> ArticleId {
        ArticleId(v)
    }
}

/// The outcome of rendering an article.
#[derive(Clone, Debug)]
pub enum RenderArticleResult {
    Success(HtmlPage),
    Failure(String),
}

} // verus!
