//! What the `url` crate computes from a URL's text: its host, its path
//! segments, and the resolution of a reference against it.
use vstd::prelude::*;

verus! {

/// The `url` crate's error for text that does not resolve to a URL.
#[verifier::external_type_specification]
#[verifier::external_body]
pub struct ExParseError(url::ParseError);

/// The host of a URL, as far as this library reads it: a domain name, or an IP address.
#[derive(Clone, Debug)]
pub enum UrlHost {
    Domain(String),
    Ipv4,
    Ipv6,
}

pub enum UrlHostView {
    Domain(Seq<char>),
    Ipv4,
    Ipv6,
}

impl View for UrlHost {
    type V = UrlHostView;

    open spec fn view(&self) -> UrlHostView {
        match self {
            UrlHost::Domain(d) => UrlHostView::Domain(d@),
            UrlHost::Ipv4 => UrlHostView::Ipv4,
            UrlHost::Ipv6 => UrlHostView::Ipv6,
        }
    }
}

/// What `url::Url::host` gives for the URL parsed from `text`; `None` where no
/// URL parses from it.
pub uninterp spec fn url_host_of(text: Seq<char>) -> Option<UrlHostView>;

/// What `url::Url::path_segments` yields, collected, for the URL parsed from
/// `text`; `None` where no URL parses from it or it cannot be a base.
pub uninterp spec fn url_path_segments_of(text: Seq<char>) -> Option<Seq<Seq<char>>>;

/// The text of what `url::Url::join` gives for reference `input` against the URL
/// parsed from `base`; `None` where either fails.
pub uninterp spec fn url_join_of(base: Seq<char>, input: Seq<char>) -> Option<Seq<char>>;

/// Parses `text` with `url::Url::parse` and calls `Url::host`. Claimed: the result
/// depends on the text alone (`url_host_of`). A domain keeps its text; the value of
/// an IP address is not carried over, which leaves unsaid which address it was.
#[verifier::external_body]
pub(crate) fn url_host(text: &str) -> (r: Option<UrlHost>)
    ensures
        match r {
            Some(h) => url_host_of(text@) == Some(h@),
            None => url_host_of(text@) is None,
        },
{
    match url::Url::parse(text) {
        Ok(u) => match u.host() {
            Some(url::Host::Domain(d)) => Some(UrlHost::Domain(d.to_string())),
            Some(url::Host::Ipv4(_)) => Some(UrlHost::Ipv4),
            Some(url::Host::Ipv6(_)) => Some(UrlHost::Ipv6),
            None => None,
        },
        Err(_) => None,
    }
}

/// Parses `text` with `url::Url::parse` and collects `Url::path_segments`. Claimed:
/// the result depends on the text alone (`url_path_segments_of`), and, as the
/// crate documents, holds at least one segment when it is `Some`.
#[verifier::external_body]
pub(crate) fn url_path_segments(text: &str) -> (r: Option<Vec<String>>)
    ensures
        match r {
            Some(v) => url_path_segments_of(text@) == Some(v@.map_values(|s: String| s@))
                && v@.len() >= 1,
            None => url_path_segments_of(text@) is None,
        },
{
    match url::Url::parse(text) {
        Ok(u) => u.path_segments().map(|segments| segments.map(|s| s.to_string()).collect()),
        Err(_) => None,
    }
}

/// Parses `base` with `url::Url::parse` and resolves `input` against it with
/// `Url::join`, returning the result's text. Claimed: the result depends on the
/// two texts alone (`url_join_of`); which error the crate reports is left unsaid.
#[verifier::external_body]
pub(crate) fn url_join(base: &str, input: &str) -> (r: Result<String, url::ParseError>)
    ensures
        match r {
            Ok(s) => url_join_of(base@, input@) == Some(s@),
            Err(_) => url_join_of(base@, input@) is None,
        },
{
    match url::Url::parse(base) {
        Ok(b) => b.join(input).map(|u| u.as_str().to_string()),
        Err(e) => Err(e),
    }
}

} // verus!
