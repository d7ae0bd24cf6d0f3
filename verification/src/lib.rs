//! Validation of Reddit post links, post summaries and preview dispatch
//! for a chat bot, with machine-checked contracts.

pub mod fetcher;
pub mod handler;
pub mod link;
pub mod media;
pub mod message;
pub mod notice;
pub mod post;
pub mod text;
pub mod utils;
pub mod validate_url;
