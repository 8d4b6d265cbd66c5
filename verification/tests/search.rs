use libeh::dto::keyword::Keyword;
use libeh::dto::search_offset::Offset;
use libeh::dto::site::Site;
use libeh::url::search::SearchBuilder;

fn two_terms() -> Vec<Keyword> {
    vec![Keyword::Artist("simon".to_string()), Keyword::Language("chinese".to_string())]
}

#[test]
fn site_origins_differ() {
    assert_eq!(Site::Eh.origin(), "https://e-hentai.org");
    assert_eq!(Site::Ex.origin(), "https://exhentai.org");
}

#[test]
fn terms_are_joined_by_a_space() {
    let builder = SearchBuilder::new(Site::Eh).add_keywords(two_terms());
    assert_eq!(builder.terms(), "a:\"simon$\" l:\"chinese$\"");
    assert_eq!(SearchBuilder::new(Site::Eh).terms(), "");
    let one = SearchBuilder::new(Site::Eh).add_keywords(vec![Keyword::Normal("x".to_string())]);
    assert_eq!(one.terms(), "\"x\"");
}

#[test]
fn keywords_are_added_after_earlier_ones() {
    let builder = SearchBuilder::new(Site::Eh)
        .add_keywords(vec![Keyword::Normal("first".to_string())])
        .add_keywords(two_terms());
    assert_eq!(builder.terms(), "\"first\" a:\"simon$\" l:\"chinese$\"");
}

#[test]
fn params_hold_the_terms_then_the_page() {
    let builder = SearchBuilder::new(Site::Eh).add_keywords(two_terms());
    assert_eq!(
        builder.params(),
        vec![("f_search".to_string(), "a:\"simon$\" l:\"chinese$\"".to_string())]
    );
    let next = builder.clone().offset(Offset::Next(2731761));
    assert_eq!(
        next.params(),
        vec![
            ("f_search".to_string(), "a:\"simon$\" l:\"chinese$\"".to_string()),
            ("next".to_string(), "2731761".to_string()),
        ]
    );
    let prev = next.offset(Offset::Prev(0));
    assert_eq!(prev.params()[1], ("prev".to_string(), "0".to_string()));
    assert_eq!(prev.params().len(), 2);
    let far = SearchBuilder::new(Site::Ex).offset(Offset::Next(u64::MAX));
    assert_eq!(far.params()[1], ("next".to_string(), "18446744073709551615".to_string()));
}

#[test]
fn build_escapes_the_terms_into_the_query() {
    let builder = SearchBuilder::new(Site::Eh).add_keywords(two_terms());
    assert_eq!(
        builder.build(),
        Ok("https://e-hentai.org/?f_search=a%3A%22simon%24%22+l%3A%22chinese%24%22".to_string())
    );
}

#[test]
fn build_appends_the_page_and_uses_the_site() {
    let builder = SearchBuilder::new(Site::Ex)
        .add_keywords(vec![Keyword::Normal("a&b".to_string())])
        .offset(Offset::Next(42));
    assert_eq!(
        builder.build(),
        Ok("https://exhentai.org/?f_search=%22a%26b%22&next=42".to_string())
    );
}

#[test]
fn search_url_is_that_of_the_builder() {
    assert_eq!(
        libeh::client::client::search_url(Site::Eh, two_terms(), None),
        SearchBuilder::new(Site::Eh).add_keywords(two_terms()).build()
    );
    assert_eq!(
        libeh::client::client::search_url(Site::Ex, two_terms(), Some(Offset::Prev(7))),
        Ok("https://exhentai.org/?f_search=a%3A%22simon%24%22+l%3A%22chinese%24%22&prev=7"
            .to_string())
    );
}
