//! URLs as values.
//!
//! A [`Url`] holds what the library reads of a parsed URL: its serialization,
//! its host and its path. Parsing is done by the `url` crate.

use vstd::prelude::*;

verus! {

/// A parsed URL.
#[derive(Debug, PartialEq, Eq)]
pub struct Url {
    /// The serialization of the URL (`Url::as_str`).
    pub serialization: String,
    /// The host, if the URL has one (`Url::host_str`).
    pub host: Option<String>,
    /// The percent-encoded path (`Url::path`).
    pub path: String,
}

/// The view of an optional string.
pub open spec fn opt_view(o: Option<String>) -> Option<Seq<char>> {
    match o {
        Some(s) => Some(s@),
        None => None,
    }
}

/// The mathematical value of a URL: serialization, host and path.
pub type UrlView = (Seq<char>, Option<Seq<char>>, Seq<char>);

impl View for Url {
    type V = UrlView;

    open spec fn view(&self) -> UrlView {
        (self.serialization@, opt_view(self.host), self.path@)
    }
}

/// What `url::Url::parse` gives for the input `s`: on success the
/// serialization, host and path of the parsed URL; on failure the text of the
/// parse error.
pub uninterp spec fn url_parse(s: Seq<char>) -> Result<UrlView, Seq<char>>;

/// Parses `s` as an absolute URL.
///
/// Calls `url::Url::parse`, then reads `as_str`, `host_str` and `path` of the
/// result, or the `Display` text of the `url::ParseError`. The result is named
/// [`url_parse`]; nothing more is stated of it.
#[verifier::external_body]
fn parse_with_url_crate(s: &str) -> (r: Result<Url, String>)
    ensures
        match r {
            Ok(u) => url_parse(s@) == Ok::<UrlView, Seq<char>>(u@),
            Err(e) => url_parse(s@) == Err::<UrlView, Seq<char>>(e@),
        },
{
    match url::Url::parse(s) {
        Ok(u) => Ok(
            Url {
                serialization: u.as_str().to_string(),
                host: match u.host_str() {
                    Some(h) => Some(h.to_string()),
                    None => None,
                },
                path: u.path().to_string(),
            },
        ),
        Err(e) => Err(e.to_string()),
    }
}

impl Url {
    /// Parses `s` as an absolute URL.
    pub fn parse(s: &str) -> (r: Result<Url, String>)
        ensures
            match r {
                Ok(u) => url_parse(s@) == Ok::<UrlView, Seq<char>>(u@),
                Err(e) => url_parse(s@) == Err::<UrlView, Seq<char>>(e@),
            },
    {
        parse_with_url_crate(s)
    }

    /// The serialization of the URL.
    pub fn as_str(&self) -> (s: &str)
        ensures
            s@ == self.serialization@,
    {
        self.serialization.as_str()
    }

    /// A copy of this URL.
    pub fn duplicate(&self) -> (u: Url)
        ensures
            u == *self,
    {
        Url {
            serialization: self.serialization.clone(),
            host: match &self.host {
                Some(h) => Some(h.clone()),
                None => None,
            },
            path: self.path.clone(),
        }
    }

    /// Whether two URLs have the same serialization.
    pub fn same_as(&self, other: &Url) -> (b: bool)
        ensures
            b == (self.serialization@ == other.serialization@),
    {
        self.serialization == other.serialization
    }
}

} // verus!
