//! The stored OneDrive configuration (a single row).
use vstd::prelude::*;

verus! {

/// The id of the only configuration row.
pub const ONEDRIVE_CONFIG_ID: i32 = 1;

/// A row of the `onedrive_config` table.
#[derive(Clone, Debug, PartialEq, Eq)]
pub struct Model {
    pub id: i32,
    pub onedrive_root_path: String,
    pub onedrive_client_id: String,
    pub onedrive_client_secret: String,
    pub onedrive_refresh_token: String,
}

} // verus!
