//! URLs as the `url` crate validates and writes them.

use vstd::prelude::*;

verus! {

#[verifier::external_type_specification]
#[verifier::external_body]
pub struct ExUrlParseError(url::ParseError);

/// The serialization of the URL that `url::Url::parse` reads from a text, or
/// `None` where the text is not a valid URL.
pub uninterp spec fn url_parse(text: Seq<char>) -> Option<Seq<char>>;

/// Relies on `url::Url::parse`, whose result is turned into its serialization
/// (`Url::as_str`): it depends on the text alone.
#[verifier::external_body]
fn parse_url_text(text: &str) -> (r: Result<String, url::ParseError>)
    ensures
        match r {
            Ok(s) => url_parse(text@) == Some(s@),
            Err(_) => url_parse(text@) is None,
        },
{
    Ok(String::from(url::Url::parse(text)?))
}

/// A valid absolute URL, held as its serialization.
#[derive(Clone, Debug, PartialEq, Eq)]
pub struct Url {
    text: String,
}

impl View for Url {
    type V = Seq<char>;

    closed spec fn view(&self) -> Seq<char> {
        self.text@
    }
}

impl Url {
    /// Parses and validates `text` as a URL.
    pub fn parse(text: &str) -> (r: Result<Url, url::ParseError>)
        ensures
            match r {
                Ok(u) => url_parse(text@) == Some(u@),
                Err(_) => url_parse(text@) is None,
            },
    {
        match parse_url_text(text) {
            Ok(s) => Ok(Url { text: s }),
            Err(e) => Err(e),
        }
    }

    /// The serialization of the URL.
    pub fn as_str(&self) -> (r: &str)
        ensures
            r@ == self@,
    {
        self.text.as_str()
    }
}

} // verus!
