//! Scraping of product pages for batches of product codes: decoding of the
//! inbound request, the retry policy of the page fetch, extraction of the
//! product's fields from the markup, and the summary of a batch.
//!
//! Everything here works on plain values. Network access, timers and the
//! listener live with the caller, which performs what these functions decide.

pub mod backoff;
pub mod errors;
pub mod extract;
pub mod number;
pub mod report;
pub mod retry;
pub mod text;
pub mod transport;
pub mod wire;
