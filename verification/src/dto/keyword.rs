//! Search keywords and their two string forms: the quoted, anchored form that
//! the index site reads, and the `prefix:value` shorthand that people type.

use vstd::prelude::*;
use vstd::string::*;
use crate::text::{
    find_char, first_index_of, lemma_first_index_of_found, lemma_split_at_first, same_text,
};

verus! {

/// A tag category.
#[derive(Clone, Copy, Debug, PartialEq, Eq, Structural)]
pub enum Namespace {
    Language,
    Parody,
    Character,
    Artist,
    Cosplayer,
    Group,
    Female,
    Male,
    Mixed,
    Other,
    Reclass,
    Temp,
    Uploader,
}

impl Namespace {
    /// The prefix under which the site's query language knows this category.
    pub open spec fn code(self) -> Seq<char> {
        match self {
            Namespace::Language => "l"@,
            Namespace::Parody => "p"@,
            Namespace::Character => "c"@,
            Namespace::Artist => "a"@,
            Namespace::Cosplayer => "cos"@,
            Namespace::Group => "g"@,
            Namespace::Female => "f"@,
            Namespace::Male => "m"@,
            Namespace::Mixed => "x"@,
            Namespace::Other => "o"@,
            Namespace::Reclass => "r"@,
            Namespace::Temp => "temp"@,
            Namespace::Uploader => "uploader"@,
        }
    }

    /// The name of this category in full.
    pub open spec fn long_name(self) -> Seq<char> {
        match self {
            Namespace::Language => "language"@,
            Namespace::Parody => "parody"@,
            Namespace::Character => "character"@,
            Namespace::Artist => "artist"@,
            Namespace::Cosplayer => "cosplayer"@,
            Namespace::Group => "group"@,
            Namespace::Female => "female"@,
            Namespace::Male => "male"@,
            Namespace::Mixed => "mixed"@,
            Namespace::Other => "other"@,
            Namespace::Reclass => "reclass"@,
            Namespace::Temp => "temp"@,
            Namespace::Uploader => "uploader"@,
        }
    }

    /// The category that a typed prefix names: its long name or its short code.
    pub open spec fn named_by(name: Seq<char>) -> Option<Namespace> {
        if name == "language"@ || name == "l"@ {
            Some(Namespace::Language)
        } else if name == "parody"@ || name == "p"@ {
            Some(Namespace::Parody)
        } else if name == "character"@ || name == "c"@ {
            Some(Namespace::Character)
        } else if name == "artist"@ || name == "a"@ {
            Some(Namespace::Artist)
        } else if name == "cosplayer"@ || name == "cos"@ {
            Some(Namespace::Cosplayer)
        } else if name == "group"@ || name == "g"@ {
            Some(Namespace::Group)
        } else if name == "female"@ || name == "f"@ {
            Some(Namespace::Female)
        } else if name == "male"@ || name == "m"@ {
            Some(Namespace::Male)
        } else if name == "mixed"@ || name == "x"@ {
            Some(Namespace::Mixed)
        } else if name == "other"@ || name == "o"@ {
            Some(Namespace::Other)
        } else if name == "reclass"@ || name == "r"@ {
            Some(Namespace::Reclass)
        } else if name == "temp"@ {
            Some(Namespace::Temp)
        } else if name == "uploader"@ {
            Some(Namespace::Uploader)
        } else {
            None
        }
    }

    /// The short code of this category.
    pub fn short_code(self) -> (code: &'static str)
        ensures
            code@ == self.code(),
    {
        match self {
            Namespace::Language => "l",
            Namespace::Parody => "p",
            Namespace::Character => "c",
            Namespace::Artist => "a",
            Namespace::Cosplayer => "cos",
            Namespace::Group => "g",
            Namespace::Female => "f",
            Namespace::Male => "m",
            Namespace::Mixed => "x",
            Namespace::Other => "o",
            Namespace::Reclass => "r",
            Namespace::Temp => "temp",
            Namespace::Uploader => "uploader",
        }
    }

    /// Looks a typed prefix up among the long names and the short codes.
    pub fn from_name(name: &str) -> (found: Option<Namespace>)
        ensures
            found == Namespace::named_by(name@),
    {
        if same_text(name, "language") || same_text(name, "l") {
            Some(Namespace::Language)
        } else if same_text(name, "parody") || same_text(name, "p") {
            Some(Namespace::Parody)
        } else if same_text(name, "character") || same_text(name, "c") {
            Some(Namespace::Character)
        } else if same_text(name, "artist") || same_text(name, "a") {
            Some(Namespace::Artist)
        } else if same_text(name, "cosplayer") || same_text(name, "cos") {
            Some(Namespace::Cosplayer)
        } else if same_text(name, "group") || same_text(name, "g") {
            Some(Namespace::Group)
        } else if same_text(name, "female") || same_text(name, "f") {
            Some(Namespace::Female)
        } else if same_text(name, "male") || same_text(name, "m") {
            Some(Namespace::Male)
        } else if same_text(name, "mixed") || same_text(name, "x") {
            Some(Namespace::Mixed)
        } else if same_text(name, "other") || same_text(name, "o") {
            Some(Namespace::Other)
        } else if same_text(name, "reclass") || same_text(name, "r") {
            Some(Namespace::Reclass)
        } else if same_text(name, "temp") {
            Some(Namespace::Temp)
        } else if same_text(name, "uploader") {
            Some(Namespace::Uploader)
        } else {
            None
        }
    }
}

/// A search term: free text, or a value within a tag category.
#[derive(Clone, Debug, PartialEq, Eq)]
pub enum Keyword {
    /// Free text, matched anywhere.
    Normal(String),
    /// The language of a work.
    Language(String),
    /// The work that a derived work imitates.
    Parody(String),
    /// A character that appears in a work.
    Character(String),
    /// The artist or writer.
    Artist(String),
    /// The person in costume.
    Cosplayer(String),
    /// The circle or company that produced a work.
    Group(String),
    /// A tag on female characters.
    Female(String),
    /// A tag on male characters.
    Male(String),
    /// A tag on characters of either or neither sex.
    Mixed(String),
    /// A confirmed technical tag.
    Other(String),
    /// A vote to move a gallery to another category.
    Reclass(String),
    /// A tag that has no category yet.
    Temp(String),
    /// The name of the uploader.
    Uploader(String),
}

/// What a keyword stands for: its category, if it has one, and its value.
pub struct Term {
    pub namespace: Option<Namespace>,
    pub value: Seq<char>,
}

impl View for Keyword {
    type V = Term;

    open spec fn view(&self) -> Term {
        match self {
            Keyword::Normal(v) => Term { namespace: None, value: v@ },
            Keyword::Language(v) => Term { namespace: Some(Namespace::Language), value: v@ },
            Keyword::Parody(v) => Term { namespace: Some(Namespace::Parody), value: v@ },
            Keyword::Character(v) => Term { namespace: Some(Namespace::Character), value: v@ },
            Keyword::Artist(v) => Term { namespace: Some(Namespace::Artist), value: v@ },
            Keyword::Cosplayer(v) => Term { namespace: Some(Namespace::Cosplayer), value: v@ },
            Keyword::Group(v) => Term { namespace: Some(Namespace::Group), value: v@ },
            Keyword::Female(v) => Term { namespace: Some(Namespace::Female), value: v@ },
            Keyword::Male(v) => Term { namespace: Some(Namespace::Male), value: v@ },
            Keyword::Mixed(v) => Term { namespace: Some(Namespace::Mixed), value: v@ },
            Keyword::Other(v) => Term { namespace: Some(Namespace::Other), value: v@ },
            Keyword::Reclass(v) => Term { namespace: Some(Namespace::Reclass), value: v@ },
            Keyword::Temp(v) => Term { namespace: Some(Namespace::Temp), value: v@ },
            Keyword::Uploader(v) => Term { namespace: Some(Namespace::Uploader), value: v@ },
        }
    }
}

/// The form in which the site's query language takes a term: the value in
/// double quotes; for a term with a category, the category's code and a colon
/// in front, and the anchor `$`, which asks for an exact match, after the value.
pub open spec fn encoded(term: Term) -> Seq<char> {
    match term.namespace {
        None => seq!['"'] + term.value + seq!['"'],
        Some(ns) => ns.code() + seq![':', '"'] + term.value + seq!['$', '"'],
    }
}

impl Keyword {
    /// A keyword of the given category.
    pub fn tagged(namespace: Namespace, value: String) -> (keyword: Keyword)
        ensures
            keyword@ == (Term { namespace: Some(namespace), value: value@ }),
    {
        match namespace {
            Namespace::Language => Keyword::Language(value),
            Namespace::Parody => Keyword::Parody(value),
            Namespace::Character => Keyword::Character(value),
            Namespace::Artist => Keyword::Artist(value),
            Namespace::Cosplayer => Keyword::Cosplayer(value),
            Namespace::Group => Keyword::Group(value),
            Namespace::Female => Keyword::Female(value),
            Namespace::Male => Keyword::Male(value),
            Namespace::Mixed => Keyword::Mixed(value),
            Namespace::Other => Keyword::Other(value),
            Namespace::Reclass => Keyword::Reclass(value),
            Namespace::Temp => Keyword::Temp(value),
            Namespace::Uploader => Keyword::Uploader(value),
        }
    }

    /// The category of this keyword; none for free text.
    pub fn namespace(&self) -> (namespace: Option<Namespace>)
        ensures
            namespace == self@.namespace,
    {
        match self {
            Keyword::Normal(_) => None,
            Keyword::Language(_) => Some(Namespace::Language),
            Keyword::Parody(_) => Some(Namespace::Parody),
            Keyword::Character(_) => Some(Namespace::Character),
            Keyword::Artist(_) => Some(Namespace::Artist),
            Keyword::Cosplayer(_) => Some(Namespace::Cosplayer),
            Keyword::Group(_) => Some(Namespace::Group),
            Keyword::Female(_) => Some(Namespace::Female),
            Keyword::Male(_) => Some(Namespace::Male),
            Keyword::Mixed(_) => Some(Namespace::Mixed),
            Keyword::Other(_) => Some(Namespace::Other),
            Keyword::Reclass(_) => Some(Namespace::Reclass),
            Keyword::Temp(_) => Some(Namespace::Temp),
            Keyword::Uploader(_) => Some(Namespace::Uploader),
        }
    }

    /// The value that this keyword wraps.
    pub fn value(&self) -> (value: &str)
        ensures
            value@ == self@.value,
    {
        match self {
            Keyword::Normal(v) => v.as_str(),
            Keyword::Language(v) => v.as_str(),
            Keyword::Parody(v) => v.as_str(),
            Keyword::Character(v) => v.as_str(),
            Keyword::Artist(v) => v.as_str(),
            Keyword::Cosplayer(v) => v.as_str(),
            Keyword::Group(v) => v.as_str(),
            Keyword::Female(v) => v.as_str(),
            Keyword::Male(v) => v.as_str(),
            Keyword::Mixed(v) => v.as_str(),
            Keyword::Other(v) => v.as_str(),
            Keyword::Reclass(v) => v.as_str(),
            Keyword::Temp(v) => v.as_str(),
            Keyword::Uploader(v) => v.as_str(),
        }
    }

    /// Writes the keyword as the site's query language takes it.
    pub fn to_string(&self) -> (text: String)
        ensures
            text@ == encoded(self@),
    {
        proof {
            reveal_strlit("\"");
            reveal_strlit(":\"");
            reveal_strlit("$\"");
        }
        let mut text = String::new();
        match self.namespace() {
            None => {
                text.append("\"");
                text.append(self.value());
                text.append("\"");
                assert(text@ =~= encoded(self@));
            },
            Some(namespace) => {
                text.append(namespace.short_code());
                text.append(":\"");
                text.append(self.value());
                text.append("$\"");
                assert(text@ =~= encoded(self@));
            },
        }
        text
    }
}

/// Why a typed keyword was not accepted.
#[derive(Clone, Copy, Debug, PartialEq, Eq, Structural)]
pub enum ParseErrorKind {
    /// The text before the colon names no category.
    UnrecognizedNamespace,
    /// The text holds more than one colon.
    Malformed,
}

/// A typed keyword that was not accepted, with the reason.
#[derive(Clone, Debug, PartialEq, Eq)]
pub struct ParseError {
    pub kind: ParseErrorKind,
    /// The text as it was typed.
    pub input: String,
}

impl ParseError {
    /// A message for the person who typed the keyword.
    pub fn to_string(&self) -> (message: String)
        ensures
            message@ == "Invalid keyword: "@ + self.input@,
    {
        let mut message = String::new();
        message.append("Invalid keyword: ");
        message.append(self.input.as_str());
        assert(message@ =~= "Invalid keyword: "@ + self.input@);
        message
    }
}

/// What typed shorthand means. Text without a colon is free text. Text with
/// one colon is a category, written before the colon by its long name or its
/// short code, and a value after it. A value cannot hold a colon, so text
/// with more than one is not a keyword.
pub open spec fn decoded(s: Seq<char>) -> Result<Term, ParseErrorKind> {
    if !s.contains(':') {
        Ok(Term { namespace: None, value: s })
    } else {
        let at = first_index_of(s, ':');
        let rest = s.subrange(at + 1, s.len() as int);
        if rest.contains(':') {
            Err(ParseErrorKind::Malformed)
        } else {
            match Namespace::named_by(s.subrange(0, at)) {
                Some(namespace) => Ok(Term { namespace: Some(namespace), value: rest }),
                None => Err(ParseErrorKind::UnrecognizedNamespace),
            }
        }
    }
}

/// What typed text is taken for when nothing may be refused: its meaning
/// as shorthand where it has one, and free text otherwise.
pub open spec fn coerced(s: Seq<char>) -> Term {
    match decoded(s) {
        Ok(term) => term,
        Err(_) => Term { namespace: None, value: s },
    }
}

impl Keyword {
    /// Reads typed shorthand, and refuses what is not a keyword.
    pub fn from_str(s: &str) -> (parsed: Result<Keyword, ParseError>)
        ensures
            match parsed {
                Ok(keyword) => decoded(s@) == Ok::<Term, ParseErrorKind>(keyword@),
                Err(error) => decoded(s@) == Err::<Term, ParseErrorKind>(error.kind)
                    && error.input@ == s@,
            },
    {
        match find_char(s, ':') {
            None => Ok(Keyword::Normal(s.to_owned())),
            Some(at) => {
                let end: usize = s.unicode_len();
                let rest = s.substring_char(at + 1, end);
                if find_char(rest, ':').is_some() {
                    Err(ParseError { kind: ParseErrorKind::Malformed, input: s.to_owned() })
                } else {
                    match Namespace::from_name(s.substring_char(0, at)) {
                        Some(namespace) => Ok(Keyword::tagged(namespace, rest.to_owned())),
                        None => Err(
                            ParseError {
                                kind: ParseErrorKind::UnrecognizedNamespace,
                                input: s.to_owned(),
                            },
                        ),
                    }
                }
            },
        }
    }

    /// Reads typed text and never refuses it: what is not shorthand for a
    /// keyword is taken as free text, as it stands.
    pub fn from_string(s: String) -> (keyword: Keyword)
        ensures
            keyword@ == coerced(s@),
    {
        match Keyword::from_str(s.as_str()) {
            Ok(keyword) => keyword,
            Err(_) => Keyword::Normal(s),
        }
    }

    /// The keyword as the site's query language takes it, consuming the keyword.
    pub fn into_string(self) -> (text: String)
        ensures
            text@ == encoded(self@),
    {
        self.to_string()
    }
}

/// What tells the names of the two tables apart: their lengths and their
/// first two characters. None of them holds a colon.
proof fn lemma_names_differ()
    ensures
        "language"@.len() == 8 && "language"@[0] == 'l' && "language"@[1] == 'a' && !"language"@.contains(':'),
        "parody"@.len() == 6 && "parody"@[0] == 'p' && "parody"@[1] == 'a' && !"parody"@.contains(':'),
        "character"@.len() == 9 && "character"@[0] == 'c' && "character"@[1] == 'h' && !"character"@.contains(':'),
        "artist"@.len() == 6 && "artist"@[0] == 'a' && "artist"@[1] == 'r' && !"artist"@.contains(':'),
        "cosplayer"@.len() == 9 && "cosplayer"@[0] == 'c' && "cosplayer"@[1] == 'o' && !"cosplayer"@.contains(':'),
        "group"@.len() == 5 && "group"@[0] == 'g' && "group"@[1] == 'r' && !"group"@.contains(':'),
        "female"@.len() == 6 && "female"@[0] == 'f' && "female"@[1] == 'e' && !"female"@.contains(':'),
        "male"@.len() == 4 && "male"@[0] == 'm' && "male"@[1] == 'a' && !"male"@.contains(':'),
        "mixed"@.len() == 5 && "mixed"@[0] == 'm' && "mixed"@[1] == 'i' && !"mixed"@.contains(':'),
        "other"@.len() == 5 && "other"@[0] == 'o' && "other"@[1] == 't' && !"other"@.contains(':'),
        "reclass"@.len() == 7 && "reclass"@[0] == 'r' && "reclass"@[1] == 'e' && !"reclass"@.contains(':'),
        "temp"@.len() == 4 && "temp"@[0] == 't' && "temp"@[1] == 'e' && !"temp"@.contains(':'),
        "uploader"@.len() == 8 && "uploader"@[0] == 'u' && "uploader"@[1] == 'p' && !"uploader"@.contains(':'),
        "l"@.len() == 1 && "l"@[0] == 'l' && !"l"@.contains(':'),
        "p"@.len() == 1 && "p"@[0] == 'p' && !"p"@.contains(':'),
        "c"@.len() == 1 && "c"@[0] == 'c' && !"c"@.contains(':'),
        "a"@.len() == 1 && "a"@[0] == 'a' && !"a"@.contains(':'),
        "cos"@.len() == 3 && "cos"@[0] == 'c' && "cos"@[1] == 'o' && !"cos"@.contains(':'),
        "g"@.len() == 1 && "g"@[0] == 'g' && !"g"@.contains(':'),
        "f"@.len() == 1 && "f"@[0] == 'f' && !"f"@.contains(':'),
        "m"@.len() == 1 && "m"@[0] == 'm' && !"m"@.contains(':'),
        "x"@.len() == 1 && "x"@[0] == 'x' && !"x"@.contains(':'),
        "o"@.len() == 1 && "o"@[0] == 'o' && !"o"@.contains(':'),
        "r"@.len() == 1 && "r"@[0] == 'r' && !"r"@.contains(':'),
{
    reveal_strlit("language");
    reveal_strlit("parody");
    reveal_strlit("character");
    reveal_strlit("artist");
    reveal_strlit("cosplayer");
    reveal_strlit("group");
    reveal_strlit("female");
    reveal_strlit("male");
    reveal_strlit("mixed");
    reveal_strlit("other");
    reveal_strlit("reclass");
    reveal_strlit("temp");
    reveal_strlit("uploader");
    reveal_strlit("l");
    reveal_strlit("p");
    reveal_strlit("c");
    reveal_strlit("a");
    reveal_strlit("cos");
    reveal_strlit("g");
    reveal_strlit("f");
    reveal_strlit("m");
    reveal_strlit("x");
    reveal_strlit("o");
    reveal_strlit("r");
}

/// Every category is found again under its short code and under its long
/// name: the two are synonyms.
pub proof fn lemma_names_resolve(namespace: Namespace)
    ensures
        Namespace::named_by(namespace.code()) == Some(namespace),
        Namespace::named_by(namespace.long_name()) == Some(namespace),
{
    lemma_names_differ();
}

/// A category is found under no other text than its short code and its long
/// name.
pub proof fn lemma_named_only_by_its_names(name: Seq<char>)
    ensures
        Namespace::named_by(name) matches Some(namespace) ==> name == namespace.code() || name
            == namespace.long_name(),
{
}

/// A text names a category exactly when it is the category's short code or
/// its long name.
pub proof fn lemma_named_by_its_names(name: Seq<char>, namespace: Namespace)
    ensures
        Namespace::named_by(name) == Some(namespace) <==> name == namespace.code() || name
            == namespace.long_name(),
{
    lemma_names_resolve(namespace);
    lemma_named_only_by_its_names(name);
}

/// Text without a colon is free text, whether it is read strictly or not.
pub proof fn lemma_free_text_decodes(s: Seq<char>)
    requires
        !s.contains(':'),
    ensures
        decoded(s) == Ok::<Term, ParseErrorKind>(Term { namespace: None, value: s }),
        coerced(s) == (Term { namespace: None, value: s }),
{
}

/// A prefix that names a category, a colon and a value without a colon are
/// read as the value within that category. By `lemma_names_resolve` the
/// prefix may be the category's short code or its long name.
pub proof fn lemma_shorthand_decodes(namespace: Namespace, name: Seq<char>, value: Seq<char>)
    requires
        Namespace::named_by(name) == Some(namespace),
        !value.contains(':'),
    ensures
        decoded(name + seq![':'] + value) == Ok::<Term, ParseErrorKind>(
            Term { namespace: Some(namespace), value },
        ),
        coerced(name + seq![':'] + value) == (Term { namespace: Some(namespace), value }),
{
    lemma_names_differ();
    lemma_split_at_first(name, ':', value);
}

/// A prefix that names no category makes the text no keyword, and free text
/// when nothing may be refused.
pub proof fn lemma_unknown_prefix_is_refused(name: Seq<char>, value: Seq<char>)
    requires
        Namespace::named_by(name) is None,
        !name.contains(':'),
        !value.contains(':'),
    ensures
        decoded(name + seq![':'] + value) == Err::<Term, ParseErrorKind>(
            ParseErrorKind::UnrecognizedNamespace,
        ),
        coerced(name + seq![':'] + value) == (Term {
            namespace: None,
            value: name + seq![':'] + value,
        }),
{
    lemma_split_at_first(name, ':', value);
}

/// Text with colons at two places is no keyword, whatever stands before the
/// first; when nothing may be refused it is free text, as it stands.
pub proof fn lemma_second_colon_is_malformed(s: Seq<char>, i: int, j: int)
    requires
        0 <= i < j < s.len(),
        s[i] == ':',
        s[j] == ':',
    ensures
        decoded(s) == Err::<Term, ParseErrorKind>(ParseErrorKind::Malformed),
        coerced(s) == (Term { namespace: None, value: s }),
{
    assert(s.contains(':'));
    lemma_first_index_of_found(s, ':');
    let at = first_index_of(s, ':');
    let rest = s.subrange(at + 1, s.len() as int);
    assert(at <= i);
    assert(rest[j - at - 1] == ':');
}

/// Reading does not undo writing: the written form of a term, read back as
/// shorthand, is never that term again. Writing adds the quotes and the
/// anchor for the site, and reading takes them for part of the value.
pub proof fn lemma_encoding_is_not_undone(term: Term)
    ensures
        decoded(encoded(term)) != Ok::<Term, ParseErrorKind>(term),
        coerced(encoded(term)) != term,
{
    let text = encoded(term);
    match term.namespace {
        None => {
            assert(text.len() == term.value.len() + 2);
        },
        Some(namespace) => {
            lemma_names_differ();
            let tail = seq!['"'] + term.value + seq!['$', '"'];
            assert(text =~= namespace.code() + seq![':'] + tail);
            lemma_split_at_first(namespace.code(), ':', tail);
            assert(tail.len() == term.value.len() + 3);
            assert(text.len() == namespace.code().len() + 1 + tail.len());
        },
    }
}

} // verus!
