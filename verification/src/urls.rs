//! Addresses, split into the parts that the shell decides by.

use vstd::prelude::*;

use crate::text;

verus! {

/// An absolute URL.
#[derive(Debug)]
pub struct UrlParts {
    /// The scheme, in lower case, without the colon.
    pub scheme: String,
    /// The host, where there is one.
    pub host: Option<String>,
    /// The whole URL in its normal form.
    pub whole: String,
}

/// The model of an absolute URL.
pub struct UrlView {
    pub scheme: Seq<char>,
    pub host: Option<Seq<char>>,
    pub whole: Seq<char>,
}

impl View for UrlParts {
    type V = UrlView;

    open spec fn view(&self) -> UrlView {
        UrlView { scheme: self.scheme@, host: text::opt_text(self.host), whole: self.whole@ }
    }
}

/// The model of a parsed URL, or the text of the error.
pub open spec fn url_view(url: Result<UrlParts, String>) -> Result<UrlView, Seq<char>> {
    match url {
        Ok(parts) => Ok(parts@),
        Err(error) => Err(error@),
    }
}

/// What `url::Url::parse` makes of a text.
pub uninterp spec fn parsed_url(s: Seq<char>) -> Result<UrlView, Seq<char>>;

/// Calls `url::Url::parse` and takes the parts from its result with `scheme`, `host_str` and
/// `as_str`, or the error's text. All of them are functions of the text alone.
#[verifier::external_body]
pub(crate) fn parse_url(s: &str) -> (r: Result<UrlParts, String>)
    ensures
        url_view(r) == parsed_url(s@),
{
    match url::Url::parse(s) {
        Ok(url) => Ok(
            UrlParts {
                scheme: url.scheme().to_string(),
                host: url.host_str().map(|host| host.to_string()),
                whole: url.as_str().to_string(),
            },
        ),
        Err(error) => Err(error.to_string()),
    }
}

/// The model of an address holds its parts.
pub proof fn law_model_of_an_address_is_complete(parts: UrlParts, parsed: Result<UrlParts, String>)
    ensures
        parts@.scheme == parts.scheme@,
        parts@.whole == parts.whole@,
        match parts.host {
            Some(host) => parts@.host == Some(host@),
            None => parts@.host is None,
        },
        match parsed {
            Ok(url) => url_view(parsed) == Ok::<_, Seq<char>>(url@),
            Err(error) => url_view(parsed) == Err::<UrlView, _>(error@),
        },
{
}

} // verus!
