//! The two variants of the index site.

use vstd::prelude::*;

verus! {

/// Which of the two sites a client talks to. They live under different
/// domains, and the restricted one asks for the elevated-access token.
#[derive(Clone, Copy, Debug, PartialEq, Eq, Structural)]
pub enum Site {
    /// The public site.
    Eh,
    /// The restricted site.
    Ex,
}

impl Site {
    /// The origin under which the site is reached, and to which its cookies
    /// are scoped.
    pub open spec fn origin_text(self) -> Seq<char> {
        match self {
            Site::Eh => "https://e-hentai.org"@,
            Site::Ex => "https://exhentai.org"@,
        }
    }

    /// The site's origin.
    pub fn origin(self) -> (origin: &'static str)
        ensures
            origin@ == self.origin_text(),
    {
        match self {
            Site::Eh => "https://e-hentai.org",
            Site::Ex => "https://exhentai.org",
        }
    }
}

} // verus!
