//! A tag-driven bulk media fetcher for a paginated image-board API.
//!
//! The library holds the verified core of the pipeline: tag encoding,
//! page-count scraping, metadata filtering, download planning, and the
//! orchestrating state machine. Network and filesystem work is left to
//! the surrounding application, which feeds results back as plain values.

pub mod args;
pub mod encode;
pub mod fetch;
pub mod pages;
pub mod pipeline;
pub mod post;
pub mod text;
pub mod url;
