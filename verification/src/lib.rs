//! Core logic of a OneDrive directory-listing server: request validation,
//! Graph path and URL construction, token caching decisions and the mapping
//! of failures to HTTP error messages.
pub mod text;
pub mod error;
pub mod graph_url;
pub mod password;
pub mod jwt;
pub mod utils;
pub mod entity;
pub mod models;
pub mod state;
pub mod service;
pub mod handler;
