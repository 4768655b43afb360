//! Decisions of a fail-fast fetch run over a list of URLs, with a cap on how
//! many fetches may be in flight at once.

pub mod driver;
pub mod laws;
pub mod source;
