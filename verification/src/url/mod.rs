//! Addresses: what the URL parser makes of a text.

use vstd::prelude::*;
use vstd::string::*;
use crate::text::{find_char, first_index_of, lemma_first_index_of, pairs_text, same_text};

pub mod search;

verus! {

/// The parts of a parsed address that this library reads.
#[derive(Clone, Debug, PartialEq, Eq)]
pub struct UrlParts {
    /// The scheme, without the colon.
    pub scheme: String,
    /// The host, where the address has one.
    pub host: Option<String>,
    /// The port, where the address names one. The parser reports none for
    /// the usual port of the scheme, written or not.
    pub port: Option<u16>,
}

/// The same parts as plain text.
pub struct Address {
    pub scheme: Seq<char>,
    pub host: Option<Seq<char>>,
    pub port: Option<u16>,
}

impl View for UrlParts {
    type V = Address;

    open spec fn view(&self) -> Address {
        Address {
            scheme: self.scheme@,
            host: match self.host {
                Some(h) => Some(h@),
                None => None,
            },
            port: self.port,
        }
    }
}

/// What the URL parser makes of a text: the parts of the absolute address
/// that it reads there, or nothing where it reads none.
pub uninterp spec fn url_parts(text: Seq<char>) -> Option<Address>;

/// Parses a text as an absolute address with `reqwest::Url::parse` and reads
/// the scheme, the host and the port off the result with `Url::scheme`,
/// `Url::host_str` and `Url::port`. The parser is a function of the text
/// alone; the contract gives its result the name `url_parts` and claims
/// nothing else of it.
#[verifier::external_body]
pub(crate) fn parse_url(text: &str) -> (parts: Option<UrlParts>)
    ensures
        match parts {
            Some(p) => url_parts(text@) == Some(p@),
            None => url_parts(text@) is None,
        },
{
    match reqwest::Url::parse(text) {
        Ok(url) => Some(
            UrlParts {
                scheme: url.scheme().to_owned(),
                host: url.host_str().map(|h| h.to_owned()),
                port: url.port(),
            },
        ),
        Err(_) => None,
    }
}

/// The port that the URL parser takes for granted under a scheme, and for
/// that reason never reports: 80 for `http` and `ws`, 443 for `https` and
/// `wss`, 21 for `ftp`. Other schemes have none.
pub open spec fn usual_port(scheme: Seq<char>) -> Option<u16> {
    if scheme == "http"@ || scheme == "ws"@ {
        Some(80u16)
    } else if scheme == "https"@ || scheme == "wss"@ {
        Some(443u16)
    } else if scheme == "ftp"@ {
        Some(21u16)
    } else {
        None
    }
}

/// The usual port of a scheme.
pub fn usual_port_of(scheme: &str) -> (port: Option<u16>)
    ensures
        port == usual_port(scheme@),
{
    if same_text(scheme, "http") || same_text(scheme, "ws") {
        Some(80)
    } else if same_text(scheme, "https") || same_text(scheme, "wss") {
        Some(443)
    } else if same_text(scheme, "ftp") {
        Some(21)
    } else {
        None
    }
}

/// A scheme of the same family whose usual port is another one: an address
/// read under it shows a port that is usual under the first.
pub open spec fn other_scheme(usual: u16) -> Seq<char> {
    if usual == 443 {
        "http"@
    } else {
        "https"@
    }
}

/// A text with another scheme in place of what stands before its first
/// colon. The colon and all that follows it stay as they are.
pub open spec fn respelled(text: Seq<char>, scheme: Seq<char>) -> Seq<char> {
    scheme + text.subrange(first_index_of(text, ':'), text.len() as int)
}

/// Writes a text again under another scheme.
pub fn respell(text: &str, scheme: &str) -> (again: String)
    ensures
        again@ == respelled(text@, scheme@),
{
    let end: usize = text.unicode_len();
    let at: usize = match find_char(text, ':') {
        Some(at) => at,
        None => {
            proof {
                assert forall|j: int| 0 <= j < text@.len() implies text@[j] != ':' by {
                    assert(text@.contains(text@[j]));
                }
                lemma_first_index_of(text@, ':', text@.len() as int);
            }
            end
        },
    };
    let mut again = String::new();
    again.append(scheme);
    again.append(text.substring_char(at, end));
    assert(again@ =~= respelled(text@, scheme@));
    again
}

/// What the URL parser makes of a base address and a list of query
/// parameters: the text of the address with the parameters added to its
/// query, or nothing where it reads no absolute address in the base.
pub uninterp spec fn url_with_params(base: Seq<char>, params: Seq<(Seq<char>, Seq<char>)>) -> Option<
    Seq<char>,
>;

/// Parses the base as an absolute address and adds the parameters to its
/// query, in their order, with `reqwest::Url::parse_with_params`, which
/// escapes their names and values as a form does. The result is a function
/// of the base and the parameters alone; the contract gives it the name
/// `url_with_params` and claims nothing else of it.
#[verifier::external_body]
pub(crate) fn parse_url_with_params(base: &str, params: &Vec<(String, String)>) -> (url: Option<
    String,
>)
    ensures
        match url {
            Some(text) => url_with_params(base@, pairs_text(params@)) == Some(text@),
            None => url_with_params(base@, pairs_text(params@)) is None,
        },
{
    match reqwest::Url::parse_with_params(base, params.iter()) {
        Ok(url) => Some(url.into()),
        Err(_) => None,
    }
}

} // verus!
