//! What a client asks the site for, and how one exchange with it ends.

use vstd::prelude::*;
use vstd::string::*;
use crate::dto::keyword::Keyword;
use crate::dto::search_offset::Offset;
use crate::dto::site::Site;
use crate::url::search::{search_params, terms_of, Search, SearchBuilder, INVALID_URL};
use crate::url::url_with_params;

verus! {

/// The address that a search without advanced options is fetched from: that
/// of the given terms on the given site, at the given page if there is one.
pub fn search_url(site: Site, keywords: Vec<Keyword>, offset: Option<Offset>) -> (built: Result<
    String,
    String,
>)
    ensures
        match built {
            Ok(url) => url_with_params(
                site.origin_text(),
                search_params(Search { site, terms: terms_of(keywords@), offset }),
            ) == Some(url@),
            Err(message) => url_with_params(
                site.origin_text(),
                search_params(Search { site, terms: terms_of(keywords@), offset }),
            ) is None && message@ == INVALID_URL@,
        },
{
    let ghost terms = terms_of(keywords@);
    let mut builder = SearchBuilder::new(site).add_keywords(keywords);
    assert(Seq::<crate::dto::keyword::Term>::empty() + terms =~= terms);
    if let Some(offset) = offset {
        builder = builder.offset(offset);
    }
    builder.build()
}

/// What stands before the description of every failure.
pub const FAILURE_PREFIX: &'static str = "Error: ";

/// The message of a failure: the prefix, then the description as the
/// transport gave it.
pub open spec fn failure_text(description: Seq<char>) -> Seq<char> {
    FAILURE_PREFIX@ + description
}

/// The message for a failure that the transport described.
pub fn failure(description: &str) -> (message: String)
    ensures
        message@ == failure_text(description@),
{
    let mut message = String::new();
    message.append(FAILURE_PREFIX);
    message.append(description);
    assert(message@ =~= failure_text(description@));
    message
}

/// What the caller gets of one step of an exchange, be it the sending of a
/// request or the reading of a body. What arrived is handed on as it is.
/// A failure of any kind becomes the one error value of this library, which
/// holds the transport's description of it. Nothing is tried again.
pub fn settle<T>(outcome: Result<T, String>) -> (settled: Result<T, String>)
    ensures
        match outcome {
            Ok(value) => settled == Ok::<T, String>(value),
            Err(description) => settled matches Err(message) && message@ == failure_text(
                description@,
            ),
        },
{
    match outcome {
        Ok(value) => Ok(value),
        Err(description) => Err(failure(description.as_str())),
    }
}

/// The message of a failure ends with the transport's description of it,
/// whole and unchanged.
pub proof fn lemma_failure_holds_description(description: Seq<char>)
    ensures
        failure_text(description).len() == FAILURE_PREFIX@.len() + description.len(),
        failure_text(description).subrange(
            FAILURE_PREFIX@.len() as int,
            failure_text(description).len() as int,
        ) == description,
{
    assert(failure_text(description).subrange(
        FAILURE_PREFIX@.len() as int,
        failure_text(description).len() as int,
    ) =~= description);
}

} // verus!
