//! Where in the list of results a page starts.

use vstd::prelude::*;

verus! {

/// A cursor into the list of results: the gallery next to which a page
/// starts, and on which side of it.
#[derive(Clone, Copy, Debug, PartialEq, Eq, Structural)]
pub enum Offset {
    /// The page of results that follows the given gallery.
    Next(u64),
    /// The page of results that precedes the given gallery.
    Prev(u64),
}

} // verus!
