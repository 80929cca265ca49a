//! Where the store is.

use vstd::prelude::*;

verus! {

/// The table to read and, for local runs, the endpoint of the store.
#[derive(Debug, Clone)]
pub struct Config {
    pub table_name: String,
    pub ddb_endpoint: Option<String>,
}

/// The table used when none is set.
pub open spec fn default_table_name() -> Seq<char> {
    "system-calls"@
}

impl Config {
    /// The configuration from the settings `DDB_TABLE` and `DDB_ENDPOINT`
    /// (each `None` when unset): the table defaults to `system-calls`, the
    /// endpoint to the service's own.
    pub fn from_settings(table: Option<String>, endpoint: Option<String>) -> (r: Config)
        ensures
            r.table_name@ == match table {
                Some(t) => t@,
                None => default_table_name(),
            },
            r.ddb_endpoint == endpoint,
    {
        let table_name = match table {
            Some(t) => t,
            None => "system-calls".to_owned(),
        };
        Config { table_name, ddb_endpoint: endpoint }
    }
}

} // verus!
