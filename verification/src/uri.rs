use vstd::prelude::*;
use url::Url;

verus! {

/// What the verifier reads of a parsed URI.
#[derive(Debug)]
pub struct ParsedUri {
    pub scheme: String,
    pub host: Option<String>,
    pub port: Option<u16>,
}

/// The parts of a parsed URI as mathematical values.
pub struct UriParts {
    pub scheme: Seq<char>,
    pub host: Option<Seq<char>>,
    pub port: Option<u16>,
}

impl View for ParsedUri {
    type V = UriParts;

    open spec fn view(&self) -> UriParts {
        UriParts {
            scheme: self.scheme@,
            host: match self.host {
                Some(host) => Some(host@),
                None => None,
            },
            port: self.port,
        }
    }
}

/// The parts of a text read as an absolute URL by the rules of the WHATWG
/// URL Standard, as the `url` crate implements them: the scheme, the host
/// as a string and the port where it is not the default of the scheme.
/// Nothing where the text is no such URL.
pub uninterp spec fn url_parse(text: Seq<char>) -> Option<UriParts>;

/// `Url::parse`, and of the result `Url::scheme`, `Url::host_str` and
/// `Url::port`.
#[verifier::external_body]
pub(crate) fn parse_uri(text: &str) -> (r: Option<ParsedUri>)
    ensures
        match r {
            Some(parsed) => url_parse(text@) == Some(parsed@),
            None => url_parse(text@) is None,
        },
{
    match Url::parse(text) {
        Ok(url) => Some(
            ParsedUri {
                scheme: url.scheme().to_string(),
                host: url.host_str().map(|host| host.to_string()),
                port: url.port(),
            },
        ),
        Err(_) => None,
    }
}

impl Clone for ParsedUri {
    fn clone(&self) -> (r: Self)
        ensures
            r@ == self@,
    {
        ParsedUri {
            scheme: self.scheme.clone(),
            host: match &self.host {
                Some(host) => Some(host.clone()),
                None => None,
            },
            port: self.port,
        }
    }
}

} // verus!
