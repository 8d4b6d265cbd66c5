use libeh::dto::keyword::{Keyword, Namespace, ParseError, ParseErrorKind};

fn all_namespaces() -> Vec<(Namespace, &'static str, &'static str)> {
    vec![
        (Namespace::Language, "l", "language"),
        (Namespace::Parody, "p", "parody"),
        (Namespace::Character, "c", "character"),
        (Namespace::Artist, "a", "artist"),
        (Namespace::Cosplayer, "cos", "cosplayer"),
        (Namespace::Group, "g", "group"),
        (Namespace::Female, "f", "female"),
        (Namespace::Male, "m", "male"),
        (Namespace::Mixed, "x", "mixed"),
        (Namespace::Other, "o", "other"),
        (Namespace::Reclass, "r", "reclass"),
        (Namespace::Temp, "temp", "temp"),
        (Namespace::Uploader, "uploader", "uploader"),
    ]
}

#[test]
fn normal_is_quoted_without_prefix() {
    assert_eq!(Keyword::Normal("x".to_string()).to_string(), "\"x\"");
    assert_eq!(Keyword::Normal(String::new()).to_string(), "\"\"");
}

#[test]
fn each_variant_writes_its_prefix() {
    let v = || "value".to_string();
    assert_eq!(Keyword::Language(v()).to_string(), "l:\"value$\"");
    assert_eq!(Keyword::Parody(v()).to_string(), "p:\"value$\"");
    assert_eq!(Keyword::Character(v()).to_string(), "c:\"value$\"");
    assert_eq!(Keyword::Artist(v()).to_string(), "a:\"value$\"");
    assert_eq!(Keyword::Cosplayer(v()).to_string(), "cos:\"value$\"");
    assert_eq!(Keyword::Group(v()).to_string(), "g:\"value$\"");
    assert_eq!(Keyword::Female(v()).to_string(), "f:\"value$\"");
    assert_eq!(Keyword::Male(v()).to_string(), "m:\"value$\"");
    assert_eq!(Keyword::Mixed(v()).to_string(), "x:\"value$\"");
    assert_eq!(Keyword::Other(v()).to_string(), "o:\"value$\"");
    assert_eq!(Keyword::Reclass(v()).to_string(), "r:\"value$\"");
    assert_eq!(Keyword::Temp(v()).to_string(), "temp:\"value$\"");
    assert_eq!(Keyword::Uploader(v()).to_string(), "uploader:\"value$\"");
}

#[test]
fn tagged_agrees_with_the_variants() {
    for (namespace, code, _) in all_namespaces() {
        let keyword = Keyword::tagged(namespace, "big hat".to_string());
        assert_eq!(keyword.namespace(), Some(namespace));
        assert_eq!(keyword.value(), "big hat");
        assert_eq!(namespace.short_code(), code);
        assert_eq!(keyword.to_string(), format!("{}:\"big hat$\"", code));
        assert_eq!(keyword.clone().into_string(), keyword.to_string());
    }
    assert_eq!(
        Keyword::tagged(Namespace::Artist, "simon".to_string()),
        Keyword::Artist("simon".to_string())
    );
}

#[test]
fn inner_quotes_are_not_escaped() {
    assert_eq!(Keyword::Normal("a\"b".to_string()).to_string(), "\"a\"b\"");
}

#[test]
fn short_and_long_prefixes_are_synonyms() {
    assert_eq!(Keyword::from_str("a:simon"), Ok(Keyword::Artist("simon".to_string())));
    assert_eq!(Keyword::from_str("artist:simon"), Ok(Keyword::Artist("simon".to_string())));
    for (namespace, code, long) in all_namespaces() {
        let expected = Ok(Keyword::tagged(namespace, "v".to_string()));
        assert_eq!(Keyword::from_str(&format!("{}:v", code)), expected);
        assert_eq!(Keyword::from_str(&format!("{}:v", long)), expected);
        assert_eq!(Namespace::from_name(code), Some(namespace));
        assert_eq!(Namespace::from_name(long), Some(namespace));
    }
}

#[test]
fn text_without_colon_is_normal() {
    assert_eq!(Keyword::from_str("simon"), Ok(Keyword::Normal("simon".to_string())));
    assert_eq!(Keyword::from_str(""), Ok(Keyword::Normal(String::new())));
}

#[test]
fn two_colons_are_malformed() {
    assert_eq!(
        Keyword::from_str("a:b:c"),
        Err(ParseError { kind: ParseErrorKind::Malformed, input: "a:b:c".to_string() })
    );
    assert_eq!(
        Keyword::from_str("nobody:b:c"),
        Err(ParseError { kind: ParseErrorKind::Malformed, input: "nobody:b:c".to_string() })
    );
    assert_eq!(
        Keyword::from_str("::"),
        Err(ParseError { kind: ParseErrorKind::Malformed, input: "::".to_string() })
    );
}

#[test]
fn unknown_prefix_is_refused() {
    assert_eq!(
        Keyword::from_str("nobody:simon"),
        Err(ParseError {
            kind: ParseErrorKind::UnrecognizedNamespace,
            input: "nobody:simon".to_string()
        })
    );
    assert_eq!(
        Keyword::from_str(":simon"),
        Err(ParseError { kind: ParseErrorKind::UnrecognizedNamespace, input: ":simon".to_string() })
    );
    assert_eq!(
        Keyword::from_str("A:simon"),
        Err(ParseError { kind: ParseErrorKind::UnrecognizedNamespace, input: "A:simon".to_string() })
    );
    assert_eq!(
        Keyword::from_str("normal:simon"),
        Err(ParseError {
            kind: ParseErrorKind::UnrecognizedNamespace,
            input: "normal:simon".to_string()
        })
    );
}

#[test]
fn value_may_be_empty_or_wide() {
    assert_eq!(Keyword::from_str("a:"), Ok(Keyword::Artist(String::new())));
    assert_eq!(Keyword::from_str("l:中文"), Ok(Keyword::Language("中文".to_string())));
    assert_eq!(Keyword::from_str("语言:中文").unwrap_err().kind, ParseErrorKind::UnrecognizedNamespace);
    assert_eq!(Keyword::from_str("中文"), Ok(Keyword::Normal("中文".to_string())));
    assert_eq!(Keyword::from_str("f:big hat"), Ok(Keyword::Female("big hat".to_string())));
}

#[test]
fn parse_error_message_carries_the_input() {
    let error = Keyword::from_str("a:b:c").unwrap_err();
    assert_eq!(error.to_string(), "Invalid keyword: a:b:c");
    let error = Keyword::from_str("q:b").unwrap_err();
    assert_eq!(error.to_string(), "Invalid keyword: q:b");
}

#[test]
fn coercion_never_fails() {
    assert_eq!(Keyword::from_string("a:b:c".to_string()), Keyword::Normal("a:b:c".to_string()));
    assert_eq!(Keyword::from_string("q:b".to_string()), Keyword::Normal("q:b".to_string()));
    assert_eq!(Keyword::from_string("a:simon".to_string()), Keyword::Artist("simon".to_string()));
    assert_eq!(Keyword::from_string("simon".to_string()), Keyword::Normal("simon".to_string()));
}

#[test]
fn encoding_is_not_undone_by_parsing() {
    let keyword = Keyword::Artist("simon".to_string());
    let text = keyword.to_string();
    assert_eq!(Keyword::from_str(&text), Ok(Keyword::Artist("\"simon$\"".to_string())));
    let normal = Keyword::Normal("simon".to_string());
    assert_eq!(Keyword::from_str(&normal.to_string()), Ok(Keyword::Normal("\"simon\"".to_string())));
}
