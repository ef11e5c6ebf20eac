//! A verified in-memory order lookup service core.
//!
//! The library holds order records keyed by their unique identifier and
//! renders lookup results as JSON responses. The store is modelled as a
//! mathematical map from identifier to record, and the JSON bodies are
//! pinned down character for character by spec functions.

pub mod order;
pub mod store;
pub mod json;
pub mod handler;
