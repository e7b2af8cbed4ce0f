//! The export step: the command that dumps a job's databases from its host.

use crate::config::{BackupConfig, BackupConfigView, DatabaseConfig, DatabaseConfigView};
use crate::invocation::{Invocation, InvocationView};
use crate::layout::{dump_file_path, dump_path};
use crate::text::{decimal, decimal_text, texts};
use vstd::prelude::*;
use vstd::string::*;

verus! {

/// The selector that stands for every database of the host.
pub open spec fn every_database() -> Seq<char> {
    "*"@
}

/// The part of the command line that says which databases to dump: one flag
/// alone for all of them, else a flag followed by the selector as it stands.
pub open spec fn selector_arguments(selector: Seq<char>) -> Seq<Seq<char>> {
    if selector == every_database() {
        seq!["--all-databases"@]
    } else {
        seq!["--databases"@, selector]
    }
}

/// The arguments of the dump tool for `job` on `host`.
pub open spec fn export_arguments(job: BackupConfigView, host: DatabaseConfigView) -> Seq<
    Seq<char>,
> {
    seq![
        "--host="@ + host.db_host,
        "--port="@ + decimal(host.db_port as nat),
        "--user="@ + host.db_username,
        "--password="@ + host.db_password,
    ] + selector_arguments(job.databases) + seq!["--result-file="@ + dump_path(job.db_name)]
}

/// The command that dumps the databases of `job` from `host`.
pub open spec fn export_invocation(
    job: BackupConfigView,
    host: DatabaseConfigView,
) -> InvocationView {
    InvocationView { program: "mariadb-dump"@, arguments: export_arguments(job, host) }
}

/// Whether `selector` asks for every database of the host.
pub fn selects_every_database(selector: &str) -> (every: bool)
    ensures
        every == (selector@ == every_database()),
{
    proof {
        reveal_strlit("*");
    }
    if selector.unicode_len() == 1 {
        let only: char = selector.get_char(0);
        proof {
            if only == '*' {
                assert(selector@ =~= every_database());
            }
        }
        only == '*'
    } else {
        false
    }
}

fn flag_with_value(flag: &str, value: &str) -> (argument: String)
    ensures
        argument@ == flag@ + value@,
{
    let mut argument = String::from_str(flag);
    argument.append(value);
    argument
}

/// Builds the command that dumps the databases of `job` from `host` into the
/// job's dump file.
pub fn export_command(job: &BackupConfig, host: &DatabaseConfig) -> (command: Invocation)
    ensures
        command@ == export_invocation(job@, host@),
{
    let mut arguments: Vec<String> = Vec::new();
    arguments.push(flag_with_value("--host=", host.db_host.as_str()));
    let port = decimal_text(host.db_port as u64);
    arguments.push(flag_with_value("--port=", port.as_str()));
    arguments.push(flag_with_value("--user=", host.db_username.as_str()));
    arguments.push(flag_with_value("--password=", host.db_password.as_str()));
    if selects_every_database(job.databases.as_str()) {
        arguments.push(String::from_str("--all-databases"));
    } else {
        arguments.push(String::from_str("--databases"));
        arguments.push(job.databases.clone());
    }
    let dump = dump_file_path(job.db_name.as_str());
    arguments.push(flag_with_value("--result-file=", dump.as_str()));
    assert(texts(arguments@) =~= export_arguments(job@, host@));
    Invocation { program: String::from_str("mariadb-dump"), arguments }
}

} // verus!
