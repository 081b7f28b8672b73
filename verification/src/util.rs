//! Well-known locations of the service's files. The front end resolves the
//! platform's base directories and performs the directory creation; the
//! paths themselves are computed here.

use vstd::prelude::*;

verus! {

/// Naming of the directories and files the service keeps.
pub struct Directories;

impl Directories {
    /// The database file's path under the service's data directory.
    pub fn db_path(data_dir: &str) -> (r: String)
        ensures
            r@ == data_dir@ + "/videos.db"@,
    {
        let mut path = String::from_str(data_dir);
        path.append("/videos.db");
        path
    }
}

} // verus!
