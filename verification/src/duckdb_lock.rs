//! Location of the lock file that keeps a second gateway process from
//! opening the same database.
use vstd::prelude::*;
use crate::paths::{file_name_exec, file_name_of, join_path, join_path_exec, parent_exec, parent_of};
use crate::text::{chars_of, concat2, eq_str, string_from_chars};

verus! {

/// The lock file sits beside the database and is named after its file name
/// with `.vldb.lock` appended (`duckdb.vldb.lock` where the path has none).
pub open spec fn spec_lock_path(db_path: Seq<char>) -> Seq<char> {
    let parent = match parent_of(db_path) {
        Some(p) => p,
        None => "."@,
    };
    let name = match file_name_of(db_path) {
        Some(n) => n + ".vldb.lock"@,
        None => "duckdb.vldb.lock"@,
    };
    join_path(parent, name)
}

/// The lock file for a database path.
pub fn derive_lock_path(db_path: &str) -> (r: String)
    ensures
        r@ == spec_lock_path(db_path@),
{
    proof {
        reveal_strlit(".");
        reveal_strlit(".vldb.lock");
        reveal_strlit("duckdb.vldb.lock");
    }
    let parent = match parent_exec(db_path) {
        Some(p) => p,
        None => String::from_str("."),
    };
    let name = match file_name_exec(db_path) {
        Some(n) => {
            let n = string_from_chars(&n);
            concat2(&n, ".vldb.lock")
        },
        None => String::from_str("duckdb.vldb.lock"),
    };
    join_path_exec(&parent, &name)
}

/// Whether the gateway takes the lock file for its database: when the
/// configuration enforces it and the database is a file, not `:memory:`.
pub fn needs_db_file_lock(enforce_db_file_lock: bool, db_path: &str) -> (r: bool)
    ensures
        r == (enforce_db_file_lock && db_path@ != ":memory:"@),
{
    if !enforce_db_file_lock {
        return false;
    }
    let chars = chars_of(db_path);
    !eq_str(&chars, ":memory:")
}

} // verus!
