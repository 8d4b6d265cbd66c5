//! The address of a search: the site, the terms and the page.

use vstd::prelude::*;
use vstd::string::*;
use crate::dto::keyword::{encoded, Keyword, Term};
use crate::dto::search_offset::Offset;
use crate::dto::site::Site;
use crate::text::{append_decimal_nat, decimal_nat, pairs_text};
use crate::url::{parse_url_with_params, url_with_params};

verus! {

/// Name of the query parameter that holds the search terms.
pub const SEARCH_KEY: &'static str = "f_search";

/// Name of the query parameter that asks for the page after a gallery.
pub const NEXT_KEY: &'static str = "next";

/// Name of the query parameter that asks for the page before a gallery.
pub const PREV_KEY: &'static str = "prev";

/// What `SearchBuilder::build` answers when the address cannot be made.
pub const INVALID_URL: &'static str = "Invalid search URL";

/// Collects the terms and the page of a search, and writes its address.
#[derive(Clone, Debug, PartialEq, Eq)]
pub struct SearchBuilder {
    site: Site,
    keywords: Vec<Keyword>,
    offset: Option<Offset>,
}

/// What a search asks for.
pub struct Search {
    pub site: Site,
    pub terms: Seq<Term>,
    pub offset: Option<Offset>,
}

/// What each keyword of a list stands for.
pub open spec fn terms_of(keywords: Seq<Keyword>) -> Seq<Term> {
    Seq::new(keywords.len(), |i: int| keywords[i]@)
}

/// The terms in the site's query language, one after the other with a space
/// between them.
pub open spec fn search_text(terms: Seq<Term>) -> Seq<char>
    decreases terms.len(),
{
    if terms.len() == 0 {
        Seq::empty()
    } else if terms.len() == 1 {
        encoded(terms[0])
    } else {
        search_text(terms.drop_last()) + seq![' '] + encoded(terms.last())
    }
}

/// The query parameter that asks for a page.
pub open spec fn page_param(offset: Offset) -> (Seq<char>, Seq<char>) {
    match offset {
        Offset::Next(gallery) => (NEXT_KEY@, decimal_nat(gallery as nat)),
        Offset::Prev(gallery) => (PREV_KEY@, decimal_nat(gallery as nat)),
    }
}

/// The query parameters of a search: the terms, then the page if one is
/// asked for.
pub open spec fn search_params(search: Search) -> Seq<(Seq<char>, Seq<char>)> {
    let terms = seq![(SEARCH_KEY@, search_text(search.terms))];
    match search.offset {
        Some(offset) => terms.push(page_param(offset)),
        None => terms,
    }
}

impl View for SearchBuilder {
    type V = Search;

    closed spec fn view(&self) -> Search {
        Search { site: self.site, terms: terms_of(self.keywords@), offset: self.offset }
    }
}

impl SearchBuilder {
    /// A search of the given site, with no terms yet, from the first page.
    pub fn new(site: Site) -> (builder: Self)
        ensures
            builder@ == (Search { site, terms: Seq::empty(), offset: None }),
    {
        let builder = SearchBuilder { site, keywords: Vec::new(), offset: None };
        assert(terms_of(builder.keywords@) =~= Seq::empty());
        builder
    }

    /// Adds terms after those that the search has.
    pub fn add_keywords(self, keywords: Vec<Keyword>) -> (builder: Self)
        ensures
            builder@ == (Search { terms: self@.terms + terms_of(keywords@), ..self@ }),
    {
        let ghost added = terms_of(keywords@);
        let mut builder = self;
        let mut keywords = keywords;
        builder.keywords.append(&mut keywords);
        assert(terms_of(builder.keywords@) =~= self@.terms + added);
        builder
    }

    /// Asks for the page at the given cursor, in place of any earlier one.
    pub fn offset(self, offset: Offset) -> (builder: Self)
        ensures
            builder@ == (Search { offset: Some(offset), ..self@ }),
    {
        let mut builder = self;
        builder.offset = Some(offset);
        builder
    }

    /// The terms of the search as the site's query language takes them.
    pub fn terms(&self) -> (text: String)
        ensures
            text@ == search_text(self@.terms),
    {
        let mut text = String::new();
        let mut i: usize = 0;
        while i < self.keywords.len()
            invariant
                i <= self.keywords.len(),
                text@ == search_text(terms_of(self.keywords@).take(i as int)),
            decreases self.keywords.len() - i,
        {
            let ghost before = terms_of(self.keywords@).take(i as int);
            let ghost after = terms_of(self.keywords@).take(i + 1);
            assert(after.drop_last() =~= before);
            assert(after.last() == self.keywords@[i as int]@);
            if i > 0 {
                proof {
                    reveal_strlit(" ");
                }
                text.append(" ");
            }
            let term = self.keywords[i].to_string();
            text.append(term.as_str());
            assert(text@ =~= search_text(after));
            i += 1;
        }
        assert(terms_of(self.keywords@).take(i as int) =~= terms_of(self.keywords@));
        text
    }

    /// The query parameters of the search, unescaped.
    pub fn params(&self) -> (params: Vec<(String, String)>)
        ensures
            pairs_text(params@) == search_params(self@),
    {
        let mut params: Vec<(String, String)> = Vec::new();
        params.push((SEARCH_KEY.to_owned(), self.terms()));
        match self.offset {
            Some(Offset::Next(gallery)) => {
                let mut cursor = String::new();
                append_decimal_nat(&mut cursor, gallery);
                assert(cursor@ =~= decimal_nat(gallery as nat));
                params.push((NEXT_KEY.to_owned(), cursor));
            },
            Some(Offset::Prev(gallery)) => {
                let mut cursor = String::new();
                append_decimal_nat(&mut cursor, gallery);
                assert(cursor@ =~= decimal_nat(gallery as nat));
                params.push((PREV_KEY.to_owned(), cursor));
            },
            None => {},
        }
        assert(pairs_text(params@) =~= search_params(self@));
        params
    }

    /// The address of the search: the site's origin with the query
    /// parameters of the search added. It is an error when the URL parser
    /// makes no address of them.
    pub fn build(&self) -> (built: Result<String, String>)
        ensures
            match built {
                Ok(url) => url_with_params(self@.site.origin_text(), search_params(self@)) == Some(
                    url@,
                ),
                Err(message) => url_with_params(self@.site.origin_text(), search_params(self@))
                    is None && message@ == INVALID_URL@,
            },
    {
        let params = self.params();
        match parse_url_with_params(self.site.origin(), &params) {
            Some(url) => Ok(url),
            None => Err(INVALID_URL.to_owned()),
        }
    }
}

} // verus!
