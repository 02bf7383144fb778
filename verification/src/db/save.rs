//! Where a save file lies.

use crate::db::{DEFAULT_DB, SAVE_DIR};
use vstd::prelude::*;

verus! {

/// The place of a save file: a file name inside a directory.
pub struct SavePath {
    pub dir: &'static str,
    pub file: String,
}

/// The place of the save file of the given name, or of the default save
/// file where no name is given. Every save file lies in `SAVE_DIR`.
pub fn get_save_path(db_name: Option<&str>) -> (path: SavePath)
    ensures
        path.dir@ == SAVE_DIR@,
        path.file@ == match db_name {
            Some(name) => name@,
            None => DEFAULT_DB@,
        },
{
    let file: &str = match db_name {
        Some(name) => name,
        None => DEFAULT_DB,
    };
    SavePath { dir: SAVE_DIR, file: String::from_str(file) }
}

} // verus!
