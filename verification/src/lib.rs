//! Query keywords, credentials and transport settings for a gallery index
//! client, with their string grammars stated as contracts.

pub mod client;
pub mod dto;
pub mod text;
pub mod url;
