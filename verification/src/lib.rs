//! Verified core of a self-hosted, OpenAI-compatible gateway to the Grok web API.
use vstd::prelude::*;

pub mod access;
pub mod api_error;
pub mod auth;
pub mod challenge;
pub mod client;
pub mod clock;
pub mod completion;
pub mod config;
pub mod conversation;
pub mod endpoints;
pub mod error;
pub mod json;
pub mod keys;
pub mod models;
pub mod openai;
pub mod routes;
pub mod stream;
pub mod text;
pub mod tools;
pub mod types;

verus! {

} // verus!
