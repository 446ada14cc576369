//! Rows of the database tables the server keeps.
pub mod onedrive_config;
