//! Types common to the services: their command-line arguments and the
//! outcome of rendering an article.
pub mod common_args;

use vstd::prelude::*;
use crate::site::types::HtmlPage;

verus! {

/// The outcome of rendering an article.
#[derive(Clone, Debug)]
pub enum RenderArticleResult {
    Success(HtmlPage),
    Failure(String),
}

} // verus!
