//! Core of a region-aware client for a rate-limited game-data HTTP API:
//! region codes, quota learning and gating, response caching and the
//! classification of responses.

pub mod cache;
pub mod client;
pub mod dto;
pub mod header;
pub mod limiter;
pub mod quota;
pub mod region;
pub mod registry;
pub mod request;
pub mod status;
pub mod text;
