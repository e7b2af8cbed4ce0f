//! Where a run keeps its files, relative to the directory it was started in.

use vstd::prelude::*;
use vstd::string::*;

verus! {

/// The directory that keeps the archives. Nothing in it is ever removed.
pub open spec fn backups_directory() -> Seq<char> {
    "./backups"@
}

/// The directory that dumps are written to. It is removed at the end of
/// every cycle.
pub open spec fn scratch_directory() -> Seq<char> {
    "./tmp"@
}

/// The file that the dump of the job for database `db_name` goes to. Two
/// jobs with the same `db_name` share it.
pub open spec fn dump_path(db_name: Seq<char>) -> Seq<char> {
    scratch_directory() + "/"@ + db_name + ".sql"@
}

pub fn backups_directory_path() -> (path: String)
    ensures
        path@ == backups_directory(),
{
    String::from_str("./backups")
}

pub fn scratch_directory_path() -> (path: String)
    ensures
        path@ == scratch_directory(),
{
    String::from_str("./tmp")
}

pub fn dump_file_path(db_name: &str) -> (path: String)
    ensures
        path@ == dump_path(db_name@),
{
    let mut path = scratch_directory_path();
    path.append("/");
    path.append(db_name);
    path.append(".sql");
    path
}

} // verus!
