//! The article content: show the rendered article if the render worker has
//! stored it, else request the render and answer that the reader should retry
//! later, with a page that asks again after a pause.
use vstd::prelude::*;
use vstd::string::*;
use crate::endpoint::preview::{STATUS_ACCEPTED, STATUS_INTERNAL_SERVER_ERROR, STATUS_OK};
use crate::shared::jobs::article_rendering::{ArticleId, RenderArticleResult};

verus! {

/// How long the retry page waits before asking again, in milliseconds.
pub const CONTENT_RETRY_DELAY_MS: u64 = 500;

/// What the endpoint answers.
#[derive(Debug)]
pub enum ContentResponse {
    /// A plain-text error.
    Failure { status: u16, message: String },
    /// "Retry later": the page shown while the render runs; it asks again after `load_delay_ms`.
    Loading { status: u16, load_delay_ms: u64, id: ArticleId },
    /// The stored render: the page, or the render's error.
    Content { status: u16, id: ArticleId, result: RenderArticleResult },
}

/// What the endpoint does next.
#[derive(Debug)]
pub enum ContentAction {
    /// Look up the stored render of the article.
    FetchResult(ArticleId),
    /// Request the render.
    ScheduleJob(ArticleId),
    /// Answer the request.
    Respond(ContentResponse),
}

/// One request for the content of article `id`.
#[derive(Debug)]
pub struct ContentRequest {
    pub id: ArticleId,
}

impl ContentRequest {
    /// First, the cache is consulted.
    pub fn start(&self) -> (r: ContentAction)
        ensures
            r == ContentAction::FetchResult(self.id),
    {
        ContentAction::FetchResult(self.id)
    }

    /// Given the lookup's outcome: a cached render is returned (200); a missing
    /// one leads to requesting the render; a failed lookup is answered with an
    /// error (500).
    pub fn on_fetched<E>(&self, fetched: Result<Option<RenderArticleResult>, E>) -> (r: ContentAction)
        ensures
            match fetched {
                Err(_) => r matches ContentAction::Respond(ContentResponse::Failure { status, message })
                    && status == STATUS_INTERNAL_SERVER_ERROR && message@
                    == "Failed to load article content"@,
                Ok(None) => r == ContentAction::ScheduleJob(self.id),
                Ok(Some(result)) => r == ContentAction::Respond(ContentResponse::Content {
                    status: STATUS_OK,
                    id: self.id,
                    result,
                }),
            },
    {
        match fetched {
            Err(_) => ContentAction::Respond(ContentResponse::Failure {
                status: STATUS_INTERNAL_SERVER_ERROR,
                message: String::from_str("Failed to load article content"),
            }),
            Ok(None) => ContentAction::ScheduleJob(self.id),
            Ok(Some(result)) => ContentAction::Respond(ContentResponse::Content {
                status: STATUS_OK,
                id: self.id,
                result,
            }),
        }
    }

    /// Given the request's outcome: "retry later" (202) with the page that asks
    /// again after the pause, or an error (500) if the render could not be requested.
    pub fn on_scheduled<E>(&self, scheduled: Result<(), E>) -> (r: ContentAction)
        ensures
            match scheduled {
                Err(_) => r matches ContentAction::Respond(ContentResponse::Failure { status, message })
                    && status == STATUS_INTERNAL_SERVER_ERROR && message@
                    == "Failed to schedule article render"@,
                Ok(()) => r == ContentAction::Respond(ContentResponse::Loading {
                    status: STATUS_ACCEPTED,
                    load_delay_ms: CONTENT_RETRY_DELAY_MS,
                    id: self.id,
                }),
            },
    {
        match scheduled {
            Err(_) => ContentAction::Respond(ContentResponse::Failure {
                status: STATUS_INTERNAL_SERVER_ERROR,
                message: String::from_str("Failed to schedule article render"),
            }),
            Ok(()) => ContentAction::Respond(ContentResponse::Loading {
                status: STATUS_ACCEPTED,
                load_delay_ms: CONTENT_RETRY_DELAY_MS,
                id: self.id,
            }),
        }
    }
}

} // verus!
