//! Values exchanged with the caller.

pub mod keyword;
pub mod search_offset;
pub mod site;
