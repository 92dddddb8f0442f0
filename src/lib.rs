//! Validation of view queries: raw identifier lists are checked and turned
//! into normalized view identifiers before they reach the workspace logic.

pub mod doc;
pub mod errors;
pub mod parser;
pub mod view_query;
