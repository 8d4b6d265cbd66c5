//! Session credentials and their two serial forms.

use vstd::prelude::*;
use vstd::string::*;
use crate::text::pairs_text;

verus! {

/// Name of the cookie that holds the member identifier.
pub const MEMBER_ID_KEY: &'static str = "ipb_member_id";

/// Name of the cookie that holds the pass-hash token.
pub const PASS_HASH_KEY: &'static str = "ipb_pass_hash";

/// Name of the cookie that holds the elevated-access token.
pub const IGNEOUS_KEY: &'static str = "igneous";

/// Environment variable that holds the member identifier.
pub const MEMBER_ID_VARIABLE: &'static str = "EH_AUTH_ID";

/// Environment variable that holds the pass-hash token.
pub const PASS_HASH_VARIABLE: &'static str = "EH_AUTH_HASH";

/// Environment variable that holds the elevated-access token.
pub const IGNEOUS_VARIABLE: &'static str = "EH_AUTH_IGNEOUS";

/// The credentials of one session. The tokens are opaque: nothing is checked
/// of what they hold.
#[derive(Clone, Debug, PartialEq, Eq)]
pub struct EhClientAuth {
    /// Member identifier.
    pub ipb_member_id: String,
    /// Pass-hash token.
    pub ipb_pass_hash: String,
    /// Elevated-access token; without it the restricted site is closed.
    pub igneous: Option<String>,
}

/// The credentials as plain text.
pub struct Credentials {
    pub member_id: Seq<char>,
    pub pass_hash: Seq<char>,
    pub igneous: Option<Seq<char>>,
}

/// The view of an optional string.
pub open spec fn text_of(s: Option<String>) -> Option<Seq<char>> {
    match s {
        Some(t) => Some(t@),
        None => None,
    }
}

/// The cookies that carry the credentials, in the order in which they are
/// set: member identifier, pass hash, then the elevated-access token if there
/// is one. A missing token leaves no pair behind, not an empty one.
pub open spec fn cookie_pairs(c: Credentials) -> Seq<(Seq<char>, Seq<char>)> {
    let mandatory = seq![(MEMBER_ID_KEY@, c.member_id), (PASS_HASH_KEY@, c.pass_hash)];
    match c.igneous {
        Some(token) => mandatory.push((IGNEOUS_KEY@, token)),
        None => mandatory,
    }
}

/// The credentials on one line: `name=value` pairs joined by `&`, in the
/// order of `cookie_pairs`.
pub open spec fn cookie_line(c: Credentials) -> Seq<char> {
    let mandatory = MEMBER_ID_KEY@ + seq!['='] + c.member_id + seq!['&'] + PASS_HASH_KEY@ + seq![
        '=',
    ] + c.pass_hash;
    match c.igneous {
        Some(token) => mandatory + seq!['&'] + IGNEOUS_KEY@ + seq!['='] + token,
        None => mandatory,
    }
}

impl View for EhClientAuth {
    type V = Credentials;

    open spec fn view(&self) -> Credentials {
        Credentials {
            member_id: self.ipb_member_id@,
            pass_hash: self.ipb_pass_hash@,
            igneous: text_of(self.igneous),
        }
    }
}

impl EhClientAuth {
    /// Credentials from explicit values.
    pub fn new(ipb_member_id: &str, ipb_pass_hash: &str, igneous: Option<&str>) -> (auth: Self)
        ensures
            auth@.member_id == ipb_member_id@,
            auth@.pass_hash == ipb_pass_hash@,
            match igneous {
                Some(token) => auth@.igneous == Some(token@),
                None => auth@.igneous is None,
            },
    {
        EhClientAuth {
            ipb_member_id: ipb_member_id.to_owned(),
            ipb_pass_hash: ipb_pass_hash.to_owned(),
            igneous: match igneous {
                Some(token) => Some(token.to_owned()),
                None => None,
            },
        }
    }

    /// Credentials from what the three variables of the environment hold,
    /// each `None` where the variable is not set. Without the member
    /// identifier or the pass hash there are no credentials; the
    /// elevated-access token may be missing.
    pub fn from_values(
        member_id: Option<String>,
        pass_hash: Option<String>,
        igneous: Option<String>,
    ) -> (found: Option<Self>)
        ensures
            found is Some <==> member_id is Some && pass_hash is Some,
            found matches Some(auth) ==> auth@ == (Credentials {
                member_id: member_id->0@,
                pass_hash: pass_hash->0@,
                igneous: text_of(igneous),
            }),
    {
        match (member_id, pass_hash) {
            (Some(id), Some(hash)) => Some(
                EhClientAuth { ipb_member_id: id, ipb_pass_hash: hash, igneous },
            ),
            _ => None,
        }
    }

    /// The credentials as cookie names and values.
    pub fn to_vec(&self) -> (pairs: Vec<(String, String)>)
        ensures
            pairs_text(pairs@) == cookie_pairs(self@),
    {
        let mut pairs: Vec<(String, String)> = Vec::new();
        pairs.push((MEMBER_ID_KEY.to_owned(), self.ipb_member_id.clone()));
        pairs.push((PASS_HASH_KEY.to_owned(), self.ipb_pass_hash.clone()));
        if let Some(token) = &self.igneous {
            pairs.push((IGNEOUS_KEY.to_owned(), token.clone()));
        }
        assert(pairs_text(pairs@) =~= cookie_pairs(self@));
        pairs
    }

    /// The credentials on one line.
    pub fn to_string(&self) -> (line: String)
        ensures
            line@ == cookie_line(self@),
    {
        proof {
            reveal_strlit("=");
            reveal_strlit("&");
        }
        let mut line = String::new();
        line.append(MEMBER_ID_KEY);
        line.append("=");
        line.append(self.ipb_member_id.as_str());
        line.append("&");
        line.append(PASS_HASH_KEY);
        line.append("=");
        line.append(self.ipb_pass_hash.as_str());
        if let Some(token) = &self.igneous {
            line.append("&");
            line.append(IGNEOUS_KEY);
            line.append("=");
            line.append(token.as_str());
        }
        assert(line@ =~= cookie_line(self@));
        line
    }
}

/// The elevated-access token is the last thing in both serial forms, and
/// the only thing by which they differ from the forms of the same
/// credentials without it: a token adds one pair and one segment, and a
/// missing token adds nothing.
pub proof fn lemma_token_comes_last(c: Credentials)
    ensures
        match c.igneous {
            Some(token) => {
                &&& cookie_pairs(c) == cookie_pairs(Credentials { igneous: None, ..c }).push(
                    (IGNEOUS_KEY@, token),
                )
                &&& cookie_line(c) == cookie_line(Credentials { igneous: None, ..c }) + seq!['&']
                    + IGNEOUS_KEY@ + seq!['='] + token
            },
            None => cookie_pairs(c).len() == 2 && cookie_line(c) == MEMBER_ID_KEY@ + seq!['=']
                + c.member_id + seq!['&'] + PASS_HASH_KEY@ + seq!['='] + c.pass_hash,
        },
{
}

} // verus!
