//! The article preview page: show the preloaded metadata of a submitted URL if
//! the preload worker has stored it, else schedule the preload and show a
//! page that polls again.
use vstd::prelude::*;
use vstd::string::*;
use crate::shared::jobs::article_preloading::{PreloadArticleResult, TempArticleId};

verus! {

/// HTTP 200.
pub const STATUS_OK: u16 = 200;

/// HTTP 202.
pub const STATUS_ACCEPTED: u16 = 202;

/// HTTP 500.
pub const STATUS_INTERNAL_SERVER_ERROR: u16 = 500;

/// What the endpoint answers.
#[derive(Debug)]
pub enum PreviewResponse {
    /// A plain-text error.
    Failure { status: u16, message: String },
    /// The page shown while the preload runs; it asks again after `load_delay_ms`.
    Loading { status: u16, load_delay_ms: u64, url: String },
    /// The page with the preload's outcome.
    Preview { status: u16, url: String, result: PreloadArticleResult },
}

/// What the endpoint does next.
#[derive(Debug)]
pub enum PreviewAction {
    /// Look up the stored preload result of the job.
    FetchResult(TempArticleId),
    /// Schedule the preload job.
    ScheduleJob(TempArticleId),
    /// Answer the request.
    Respond(PreviewResponse),
}

/// One request for the preview of `url`.
#[derive(Debug)]
pub struct PreviewRequest {
    pub url: String,
}

impl PreviewRequest {
    /// First, the stored result is looked up.
    pub fn start(&self) -> (r: PreviewAction)
        ensures
            r matches PreviewAction::FetchResult(id) && id.0 == self.url,
    {
        PreviewAction::FetchResult(TempArticleId(self.url.clone()))
    }

    /// Given the lookup's outcome: a failed lookup is answered with an error
    /// (500); a missing result leads to scheduling the preload; a stored result
    /// is shown (200).
    pub fn on_fetched<E>(&self, fetched: Result<Option<PreloadArticleResult>, E>) -> (r: PreviewAction)
        ensures
            match fetched {
                Err(_) => r matches PreviewAction::Respond(PreviewResponse::Failure { status, message })
                    && status == STATUS_INTERNAL_SERVER_ERROR && message@ == "Failed to preload article"@,
                Ok(None) => r matches PreviewAction::ScheduleJob(id) && id.0 == self.url,
                Ok(Some(result)) => r == PreviewAction::Respond(PreviewResponse::Preview {
                    status: STATUS_OK,
                    url: self.url,
                    result,
                }),
            },
    {
        match fetched {
            Err(_) => PreviewAction::Respond(PreviewResponse::Failure {
                status: STATUS_INTERNAL_SERVER_ERROR,
                message: String::from_str("Failed to preload article"),
            }),
            Ok(None) => PreviewAction::ScheduleJob(TempArticleId(self.url.clone())),
            Ok(Some(result)) => PreviewAction::Respond(PreviewResponse::Preview {
                status: STATUS_OK,
                url: self.url.clone(),
                result,
            }),
        }
    }

    /// Given the scheduling's outcome: a failure is answered with an error (500),
    /// success with the loading page (202), which asks again at once.
    pub fn on_scheduled<E>(&self, scheduled: Result<(), E>) -> (r: PreviewAction)
        ensures
            match scheduled {
                Err(_) => r matches PreviewAction::Respond(PreviewResponse::Failure { status, message })
                    && status == STATUS_INTERNAL_SERVER_ERROR && message@
                    == "Failed to schedule article preload"@,
                Ok(()) => r == PreviewAction::Respond(PreviewResponse::Loading {
                    status: STATUS_ACCEPTED,
                    load_delay_ms: 0,
                    url: self.url,
                }),
            },
    {
        match scheduled {
            Err(_) => PreviewAction::Respond(PreviewResponse::Failure {
                status: STATUS_INTERNAL_SERVER_ERROR,
                message: String::from_str("Failed to schedule article preload"),
            }),
            Ok(()) => PreviewAction::Respond(PreviewResponse::Loading {
                status: STATUS_ACCEPTED,
                load_delay_ms: 0,
                url: self.url.clone(),
            }),
        }
    }
}

} // verus!
