//! A typed client for a generative-text HTTP API: model catalog, request
//! builders, the JSON body they produce and the mapping of replies to results.
pub mod models;
pub mod params;
pub mod json;
pub mod requester;
pub mod usage;
pub mod completions;
pub mod edits;
pub mod images;
