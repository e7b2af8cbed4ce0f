//! The archive step: the name of a job's archive and the command that packs
//! the scratch directory into it.

use crate::invocation::{Invocation, InvocationView};
use crate::layout::{
    backups_directory, backups_directory_path, scratch_directory, scratch_directory_path,
};
use crate::text::texts;
use vstd::prelude::*;
use vstd::string::*;

verus! {

/// The file name of the archive that the job `job_name` produces from the
/// host at `host_address` when its run starts at `timestamp`.
pub open spec fn archive_file(
    job_name: Seq<char>,
    host_address: Seq<char>,
    timestamp: Seq<char>,
) -> Seq<char> {
    job_name + "_"@ + host_address + "_"@ + timestamp + ".tar.gz"@
}

/// Where the archive named `file` is kept.
pub open spec fn archive_path(file: Seq<char>) -> Seq<char> {
    backups_directory() + "/"@ + file
}

/// The command that packs the whole scratch directory into the archive named
/// `file`.
pub open spec fn archive_invocation(file: Seq<char>) -> InvocationView {
    InvocationView {
        program: "tar"@,
        arguments: seq!["-czvf"@, archive_path(file), scratch_directory()],
    }
}

pub fn archive_file_name(job_name: &str, host_address: &str, timestamp: &str) -> (file: String)
    ensures
        file@ == archive_file(job_name@, host_address@, timestamp@),
{
    let mut file = String::from_str(job_name);
    file.append("_");
    file.append(host_address);
    file.append("_");
    file.append(timestamp);
    file.append(".tar.gz");
    file
}

pub fn archive_file_path(file: &str) -> (path: String)
    ensures
        path@ == archive_path(file@),
{
    let mut path = backups_directory_path();
    path.append("/");
    path.append(file);
    path
}

/// Builds the command that packs the scratch directory into the archive
/// named `file`.
pub fn archive_command(file: &str) -> (command: Invocation)
    ensures
        command@ == archive_invocation(file@),
{
    let mut arguments: Vec<String> = Vec::new();
    arguments.push(String::from_str("-czvf"));
    arguments.push(archive_file_path(file));
    arguments.push(scratch_directory_path());
    assert(texts(arguments@) =~= archive_invocation(file@).arguments);
    Invocation { program: String::from_str("tar"), arguments }
}

} // verus!
