//! Authentication: access tokens, refresh tokens and the requests that carry them.

pub mod base64_text;
pub mod bearer;
pub mod clients;
pub mod context;
pub mod error;
pub mod jwt;
pub mod laws;
pub mod outside;
pub mod refresh;
pub mod timestamp;
pub mod token;
pub mod user_id;
