//! A parsed Graph URL together with its text.
use vstd::prelude::*;

verus! {

/// `reqwest::Url`, carried through opaquely.
#[verifier::external_type_specification]
#[verifier::external_body]
pub struct ExUrl(reqwest::Url);

/// Why `Url::parse` refuses `text` (`None` where it accepts it).
pub uninterp spec fn url_parse_failure(text: Seq<char>) -> Option<Seq<char>>;

/// The text (`Url::as_str`) of the URL that `Url::parse` makes of `text`.
pub uninterp spec fn url_serialization(text: Seq<char>) -> Seq<char>;

/// A parsed URL and its text. Only `parse_url` makes one, so the text is
/// always the text of the URL held beside it.
pub struct GraphUrl {
    url: reqwest::Url,
    text: String,
}

impl View for GraphUrl {
    type V = Seq<char>;

    closed spec fn view(&self) -> Seq<char> {
        self.text@
    }
}

/// `reqwest::Url::parse(text)`: on success the URL and its `as_str()`, on
/// failure the parser's error written out with `to_string`.
#[verifier::external_body]
pub(crate) fn parse_url(text: &str) -> (r: Result<GraphUrl, String>)
    ensures
        match r {
            Ok(g) => url_parse_failure(text@) is None && g@ == url_serialization(text@),
            Err(m) => url_parse_failure(text@) == Some(m@),
        },
{
    match reqwest::Url::parse(text) {
        Ok(url) => {
            let text = url.as_str().to_owned();
            Ok(GraphUrl { url, text })
        },
        Err(err) => Err(err.to_string()),
    }
}

impl GraphUrl {
    /// The text of the URL.
    pub fn as_str(&self) -> (r: &str)
        ensures
            r@ == self@,
    {
        self.text.as_str()
    }

    /// The URL itself.
    pub fn into_url(self) -> reqwest::Url {
        self.url
    }
}

} // verus!
