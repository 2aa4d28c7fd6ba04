use vstd::prelude::*;

verus! {

/// A URL, as text.
#[derive(Clone, Debug)]
pub struct Url(pub String);

/// A rendered HTML page.
#[derive(Clone, Debug)]
pub struct HtmlPage(pub String);

impl TryFrom<String> for Url {
    type Error = ();

    /// Every text is accepted.
    fn try_from(value: String) -> (r: Result<Url, ()>)
        ensures
            r == Ok::<Url, ()>(Url(value)),
    {
        Ok(Url(value))
    }
}

impl vstd::std_specs::convert::TryFromSpecImpl<String> for Url {
    open spec fn obeys_try_from_spec() -> bool {
        true
    }

    open spec fn try_from_spec(v: String) -> Result<Url, ()> {
        Ok(Url(v))
    }
}

impl From<Url> for String {
    fn from(value: Url) -> (r: String)
        ensures
            r == value.0,
    {
        value.0
    }
}

impl vstd::std_specs::convert::FromSpecImpl<Url> for String {
    open spec fn obeys_from_spec() -> bool {
        true
    }

    open spec fn from_spec(v: Url) -> String {
        v.0
    }
}

impl From<HtmlPage> for String {
    fn from(value: HtmlPage) -> (r: String)
        ensures
            r == value.0,
    {
        value.0
    }
}

impl vstd::std_specs::convert::FromSpecImpl<HtmlPage> for String {
    open spec fn obeys_from_spec() -> bool {
        true
    }

    open spec fn from_spec(v: HtmlPage) -> String {
        v.0
    }
}

impl From<String> for HtmlPage {
    fn from(value: String) -> (r: HtmlPage)
        ensures
            r == HtmlPage(value),
    {
        HtmlPage(value)
    }
}

impl vstd::std_specs::convert::FromSpecImpl<String> for HtmlPage {
    open spec fn obeys_from_spec() -> bool {
        true
    }

    open spec fn from_spec(v: String) -> HtmlPage {
        HtmlPage(v)
    }
}

} // verus!
