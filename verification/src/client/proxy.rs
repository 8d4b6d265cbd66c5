//! The upstream proxy that a client sends its traffic through.

use vstd::prelude::*;
use vstd::string::*;
use crate::text::{append_decimal, decimal};
use crate::url::{
    other_scheme, parse_url, respell, respelled, url_parts, usual_port, usual_port_of, Address,
    UrlParts,
};

verus! {

/// Environment variable that is asked first for the proxy's address.
pub const PROXY_VARIABLE: &'static str = "EH_PROXY";

/// Environment variable that is asked where the first is not set.
pub const FALLBACK_PROXY_VARIABLE: &'static str = "HTTP_PROXY";

/// Host of a proxy whose address names none.
pub const DEFAULT_HOST: &'static str = "localhost";

/// Port of a proxy whose address names none.
pub const DEFAULT_PORT: u16 = 1080;

/// Where the proxy listens.
#[derive(Clone, Debug, PartialEq, Eq)]
pub struct EhClientProxy {
    pub protocol: String,
    pub host: String,
    pub port: i32,
}

/// The proxy's address as plain values.
pub struct ProxyTarget {
    pub protocol: Seq<char>,
    pub host: Seq<char>,
    pub port: int,
}

impl View for EhClientProxy {
    type V = ProxyTarget;

    open spec fn view(&self) -> ProxyTarget {
        ProxyTarget { protocol: self.protocol@, host: self.host@, port: self.port as int }
    }
}

/// The address written out: `<protocol>://<host>:<port>`.
pub open spec fn proxy_line(target: ProxyTarget) -> Seq<char> {
    target.protocol + seq![':', '/', '/'] + target.host + seq![':'] + decimal(target.port)
}

/// The port of the proxy at a parsed address. It is the port that the parser
/// reports, where it reports one. It reports none for an address without a
/// port and for one that writes out the usual port of its scheme. To tell
/// the two apart the address is read again under a scheme with another
/// usual port: if the written port shows there, and is the usual one of the
/// first scheme, it is the port. In every other case the port is 1080.
pub open spec fn port_of(address: Address, again: Option<Address>) -> u16 {
    match address.port {
        Some(port) => port,
        None => if usual_port(address.scheme) is Some && again is Some && again->0.port
            == usual_port(address.scheme) {
            usual_port(address.scheme)->0
        } else {
            DEFAULT_PORT
        },
    }
}

/// The proxy that a parsed address stands for: its scheme as the protocol,
/// `localhost` where it has no host, and its port by `port_of`.
pub open spec fn target_of(address: Address, again: Option<Address>) -> ProxyTarget {
    ProxyTarget {
        protocol: address.scheme,
        host: match address.host {
            Some(host) => host,
            None => DEFAULT_HOST@,
        },
        port: port_of(address, again) as int,
    }
}

/// What the URL parser makes of a text when it reads it again to see a
/// written usual port. It is asked only where it reported no port under a
/// scheme that has a usual one, and then with the text under the other
/// scheme.
pub open spec fn read_again(text: Seq<char>, address: Address) -> Option<Address> {
    if address.port is None && usual_port(address.scheme) is Some {
        url_parts(respelled(text, other_scheme(usual_port(address.scheme)->0)))
    } else {
        None
    }
}

/// The proxy that a text configures: that of the address which the URL parser
/// reads there, and none where it reads none.
pub open spec fn configured_by(text: Seq<char>) -> Option<ProxyTarget> {
    match url_parts(text) {
        Some(address) => Some(target_of(address, read_again(text, address))),
        None => None,
    }
}

impl EhClientProxy {
    /// A proxy from explicit values.
    pub fn new(protocol: &str, host: &str, port: i32) -> (proxy: Self)
        ensures
            proxy@ == (ProxyTarget { protocol: protocol@, host: host@, port: port as int }),
    {
        EhClientProxy { protocol: protocol.to_owned(), host: host.to_owned(), port }
    }

    /// The proxy that a parsed address stands for, given what the parser
    /// made of the text when it was read again, if it was.
    pub fn from_parts(parts: UrlParts, again: Option<UrlParts>) -> (proxy: Self)
        ensures
            proxy@ == target_of(
                parts@,
                match again {
                    Some(a) => Some(a@),
                    None => None,
                },
            ),
            0 <= proxy.port <= 0xffff,
    {
        let host = match parts.host {
            Some(host) => host,
            None => DEFAULT_HOST.to_owned(),
        };
        let port: u16 = match parts.port {
            Some(port) => port,
            None => match (usual_port_of(parts.scheme.as_str()), again) {
                (Some(usual), Some(again)) => match again.port {
                    Some(written) => if written == usual {
                        usual
                    } else {
                        DEFAULT_PORT
                    },
                    None => DEFAULT_PORT,
                },
                _ => DEFAULT_PORT,
            },
        };
        EhClientProxy { protocol: parts.scheme, host, port: port as i32 }
    }

    /// Reads a proxy's address; none where the text is no absolute address.
    pub fn from_url(text: &str) -> (found: Option<Self>)
        ensures
            matches_configured(found, text@),
    {
        match parse_url(text) {
            Some(parts) => {
                let again = match (parts.port, usual_port_of(parts.scheme.as_str())) {
                    (None, Some(usual)) => {
                        let other = if usual == 443 {
                            "http"
                        } else {
                            "https"
                        };
                        parse_url(respell(text, other).as_str())
                    },
                    _ => None,
                };
                Some(EhClientProxy::from_parts(parts, again))
            },
            None => None,
        }
    }

    /// The proxy that the environment configures, from what its two
    /// variables hold, each `None` where the variable is not set. The first
    /// variable that is set decides alone: where its text is no address there
    /// is no proxy, whatever the other holds.
    pub fn from_values(primary: Option<String>, fallback: Option<String>) -> (found: Option<Self>)
        ensures
            match (primary, fallback) {
                (Some(text), _) => matches_configured(found, text@),
                (None, Some(text)) => matches_configured(found, text@),
                (None, None) => found is None,
            },
    {
        match primary {
            Some(text) => EhClientProxy::from_url(text.as_str()),
            None => match fallback {
                Some(text) => EhClientProxy::from_url(text.as_str()),
                None => None,
            },
        }
    }

    /// The address written out.
    pub fn to_string(&self) -> (line: String)
        ensures
            line@ == proxy_line(self@),
    {
        proof {
            reveal_strlit("://");
            reveal_strlit(":");
        }
        let mut line = String::new();
        line.append(self.protocol.as_str());
        line.append("://");
        line.append(self.host.as_str());
        line.append(":");
        append_decimal(&mut line, self.port);
        assert(line@ =~= proxy_line(self@));
        line
    }
}

/// Whether `found` is the proxy that `text` configures.
pub open spec fn matches_configured(found: Option<EhClientProxy>, text: Seq<char>) -> bool {
    match found {
        Some(proxy) => configured_by(text) == Some(proxy@) && 0 <= proxy.port <= 0xffff,
        None => configured_by(text) is None,
    }
}

/// The port of a proxy is the one that the parser reports, where it reports
/// one. Where it reports none, the port is the usual port of the scheme or
/// 1080, and the usual port only if the second reading shows it.
pub proof fn lemma_port_of(address: Address, again: Option<Address>)
    ensures
        address.port matches Some(port) ==> port_of(address, again) == port,
        address.port is None ==> port_of(address, again) == DEFAULT_PORT || (usual_port(
            address.scheme,
        ) == Some(port_of(address, again)) && again is Some && again->0.port == Some(
            port_of(address, again),
        )),
        address.port is None && again is None ==> port_of(address, again) == DEFAULT_PORT,
        address.port is None && usual_port(address.scheme) is None ==> port_of(address, again)
            == DEFAULT_PORT,
{
}

} // verus!
