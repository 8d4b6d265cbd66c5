//! From a client's configuration to what its transport is built with.

use vstd::prelude::*;
use vstd::string::*;
use crate::client::auth::{cookie_pairs, Credentials, EhClientAuth};
use crate::client::proxy::{proxy_line, EhClientProxy, ProxyTarget};
use crate::dto::site::Site;
use crate::text::pairs_text;

verus! {

/// How many redirects the transport follows before it gives up.
pub const REDIRECT_LIMIT: usize = 20;

/// The browser that the transport says it is.
pub const USER_AGENT: &'static str =
    "Mozilla/5.0 (Windows NT 10.0; Win64; x64) AppleWebKit/537.36 (KHTML, like Gecko) Chrome/121.0.0.0 Safari/537.36 Edg/121.0.0.0";

/// What a client is made from.
#[derive(Clone, Debug, PartialEq, Eq)]
pub struct EhClientConfig {
    pub site: Site,
    pub proxy: Option<EhClientProxy>,
    pub auth: Option<EhClientAuth>,
}

/// The configuration as plain values.
pub struct Config {
    pub site: Site,
    pub proxy: Option<ProxyTarget>,
    pub auth: Option<Credentials>,
}

impl View for EhClientConfig {
    type V = Config;

    open spec fn view(&self) -> Config {
        Config {
            site: self.site,
            proxy: match self.proxy {
                Some(proxy) => Some(proxy@),
                None => None,
            },
            auth: match self.auth {
                Some(auth) => Some(auth@),
                None => None,
            },
        }
    }
}

/// The cookies that a cookie store starts with, and the origin that they
/// are scoped to.
#[derive(Clone, Debug, PartialEq, Eq)]
pub struct CookieSeed {
    pub origin: String,
    /// One `name=value` line for each cookie, in the order in which they are set.
    pub cookies: Vec<String>,
}

/// What the transport is built with.
#[derive(Clone, Debug, PartialEq, Eq)]
pub struct TransportSettings {
    pub redirect_limit: usize,
    pub user_agent: String,
    /// The address of the proxy for all traffic; without one the transport
    /// goes direct.
    pub proxy: Option<String>,
    /// The cookie store's first contents; without them the transport keeps
    /// no cookie store.
    pub cookies: Option<CookieSeed>,
}

/// The first contents of a cookie store as plain text.
pub struct Seed {
    pub origin: Seq<char>,
    pub cookies: Seq<Seq<char>>,
}

/// The settings as plain values.
pub struct Transport {
    pub redirect_limit: int,
    pub user_agent: Seq<char>,
    pub proxy: Option<Seq<char>>,
    pub cookies: Option<Seed>,
}

/// The text of each string of a list.
pub open spec fn texts_of(lines: Seq<String>) -> Seq<Seq<char>> {
    Seq::new(lines.len(), |i: int| lines[i]@)
}

impl View for CookieSeed {
    type V = Seed;

    open spec fn view(&self) -> Seed {
        Seed { origin: self.origin@, cookies: texts_of(self.cookies@) }
    }
}

impl View for TransportSettings {
    type V = Transport;

    open spec fn view(&self) -> Transport {
        Transport {
            redirect_limit: self.redirect_limit as int,
            user_agent: self.user_agent@,
            proxy: match self.proxy {
                Some(target) => Some(target@),
                None => None,
            },
            cookies: match self.cookies {
                Some(seed) => Some(seed@),
                None => None,
            },
        }
    }
}

/// Each pair on a line of its own: the name, `=`, the value.
pub open spec fn cookie_lines(pairs: Seq<(Seq<char>, Seq<char>)>) -> Seq<Seq<char>> {
    Seq::new(pairs.len(), |i: int| pairs[i].0 + seq!['='] + pairs[i].1)
}

/// What the transport of a client is built with. It follows twenty
/// redirects and names a fixed browser. A configured proxy takes all
/// traffic, whatever its address: a transport that cannot use the address
/// cannot be built, and none is built without it. With credentials the
/// cookie store starts with exactly their pairs, in their order, scoped to
/// the origin of the configured site; without credentials there is no
/// cookie store.
pub open spec fn transport_for(config: Config) -> Transport {
    Transport {
        redirect_limit: REDIRECT_LIMIT as int,
        user_agent: USER_AGENT@,
        proxy: match config.proxy {
            Some(target) => Some(proxy_line(target)),
            None => None,
        },
        cookies: match config.auth {
            Some(credentials) => Some(
                Seed {
                    origin: config.site.origin_text(),
                    cookies: cookie_lines(cookie_pairs(credentials)),
                },
            ),
            None => None,
        },
    }
}

/// Writes each pair on a line of its own.
pub fn cookies_of(pairs: &Vec<(String, String)>) -> (lines: Vec<String>)
    ensures
        texts_of(lines@) == cookie_lines(pairs_text(pairs@)),
{
    let mut lines: Vec<String> = Vec::new();
    let mut i: usize = 0;
    while i < pairs.len()
        invariant
            i <= pairs.len(),
            lines@.len() == i,
            forall|j: int|
                0 <= j < i ==> (#[trigger] lines@[j])@ == pairs@[j].0@ + seq!['='] + pairs@[j].1@,
        decreases pairs.len() - i,
    {
        proof {
            reveal_strlit("=");
        }
        let mut line = String::new();
        line.append(pairs[i].0.as_str());
        line.append("=");
        line.append(pairs[i].1.as_str());
        assert(line@ =~= pairs@[i as int].0@ + seq!['='] + pairs@[i as int].1@);
        lines.push(line);
        i += 1;
    }
    assert(texts_of(lines@) =~= cookie_lines(pairs_text(pairs@)));
    lines
}

impl EhClientConfig {
    /// The settings of the transport.
    pub fn transport_settings(&self) -> (settings: TransportSettings)
        ensures
            settings@ == transport_for(self@),
    {
        let proxy = match &self.proxy {
            Some(proxy) => Some(proxy.to_string()),
            None => None,
        };
        let cookies = match &self.auth {
            Some(auth) => Some(
                CookieSeed {
                    origin: self.site.origin().to_owned(),
                    cookies: cookies_of(&auth.to_vec()),
                },
            ),
            None => None,
        };
        TransportSettings {
            redirect_limit: REDIRECT_LIMIT,
            user_agent: USER_AGENT.to_owned(),
            proxy,
            cookies,
        }
    }
}

/// A client without credentials keeps no cookie store. A client with
/// credentials starts its store with exactly the pairs of the credentials,
/// one `name=value` line for each, in their order, scoped to the origin of
/// the configured site. Neither depends on the proxy.
pub proof fn lemma_cookies_follow_credentials(config: Config)
    ensures
        match config.auth {
            None => transport_for(config).cookies is None,
            Some(credentials) => {
                &&& transport_for(config).cookies matches Some(seed)
                &&& seed.origin == config.site.origin_text()
                &&& seed.cookies.len() == cookie_pairs(credentials).len()
                &&& forall|i: int|
                    0 <= i < seed.cookies.len() ==> #[trigger] seed.cookies[i] == cookie_pairs(
                        credentials,
                    )[i].0 + seq!['='] + cookie_pairs(credentials)[i].1
            },
        },
{
}

/// A configured proxy is in the settings, under its written address, and a
/// client without one has none in them.
pub proof fn lemma_proxy_is_applied(config: Config)
    ensures
        match config.proxy {
            Some(target) => transport_for(config).proxy == Some(proxy_line(target)),
            None => transport_for(config).proxy is None,
        },
{
}

} // verus!
