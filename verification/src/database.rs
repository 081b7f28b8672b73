//! The durable store's configuration. The connection string is an explicit
//! configuration value owned by the service bootstrap and handed to the
//! storage layer, not ambient process-wide state.

use vstd::prelude::*;

verus! {

/// Where the durable store lives.
pub struct DbConfig {
    pub conn_string: String,
}

/// Builds the storage configuration from the connection string the front
/// end chose.
pub fn initialize_db_conn_string(conn_str: String) -> (r: DbConfig)
    ensures
        r.conn_string@ == conn_str@,
{
    DbConfig { conn_string: conn_str }
}

} // verus!
