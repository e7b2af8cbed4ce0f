use backup_cycle::archive::{archive_command, archive_file_name, archive_file_path};
use backup_cycle::clock::Clock;
use backup_cycle::config::{
    BackblazeConfig, BackupConfig, Config, DatabaseConfig, MiscConfig, Table,
};
use backup_cycle::error::Error;
use backup_cycle::export::{export_command, selects_every_database};
use backup_cycle::layout::{backups_directory_path, dump_file_path, scratch_directory_path};
use backup_cycle::notice::Notice;
use backup_cycle::resolver::resolve;
use backup_cycle::text::decimal_text;
use backup_cycle::upload::remote_key_for;

fn host(address: &str, port: u16) -> DatabaseConfig {
    DatabaseConfig {
        db_host: address.to_string(),
        db_port: port,
        db_username: "backup".to_string(),
        db_password: "s3cret".to_string(),
    }
}

fn bucket(id: &str) -> BackblazeConfig {
    BackblazeConfig {
        application_id: format!("{}-id", id),
        application_key: format!("{}-key", id),
        bucket_id: id.to_string(),
    }
}

fn job(db_name: &str, db_host: &str, bucket: &str, databases: &str) -> BackupConfig {
    BackupConfig {
        db_name: db_name.to_string(),
        db_host: db_host.to_string(),
        bucket: bucket.to_string(),
        remote_path: "nightly".to_string(),
        databases: databases.to_string(),
    }
}

fn sample() -> Config {
    let mut hosts = Table::new();
    hosts.insert("primary".to_string(), host("db1.example.org", 3306));
    hosts.insert("replica".to_string(), host("10.0.0.7", 3307));
    let mut buckets = Table::new();
    buckets.insert("offsite".to_string(), bucket("b-100"));
    let mut databases = Table::new();
    databases.insert("shop".to_string(), job("shopdb", "primary", "offsite", "*"));
    Config { config: MiscConfig { backup_interval: 6 }, hosts, databases, buckets }
}

#[test]
fn decimal_of_zero_is_one_digit() {
    assert_eq!(decimal_text(0), "0");
}

#[test]
fn decimal_has_no_padding() {
    assert_eq!(decimal_text(7), "7");
    assert_eq!(decimal_text(10), "10");
    assert_eq!(decimal_text(3306), "3306");
    assert_eq!(decimal_text(65535), "65535");
}

#[test]
fn decimal_of_largest_number() {
    assert_eq!(decimal_text(u64::MAX), "18446744073709551615");
}

#[test]
fn interval_is_hours_times_3600() {
    assert_eq!(MiscConfig { backup_interval: 0 }.interval_seconds(), Some(0));
    assert_eq!(MiscConfig { backup_interval: 1 }.interval_seconds(), Some(3600));
    assert_eq!(MiscConfig { backup_interval: 24 }.interval_seconds(), Some(86400));
}

#[test]
fn interval_that_does_not_fit_is_none() {
    let largest = u64::MAX / 3600;
    assert_eq!(
        MiscConfig { backup_interval: largest }.interval_seconds(),
        Some(largest * 3600)
    );
    assert_eq!(MiscConfig { backup_interval: largest + 1 }.interval_seconds(), None);
    assert_eq!(MiscConfig { backup_interval: u64::MAX }.interval_seconds(), None);
}

#[test]
fn new_table_is_empty() {
    let table: Table<DatabaseConfig> = Table::new();
    assert_eq!(table.len(), 0);
    assert!(table.get(&"primary".to_string()).is_none());
    assert_eq!(table.position(&"primary".to_string()), None);
}

#[test]
fn table_keeps_order_of_first_insertion() {
    let mut table = Table::new();
    table.insert("b".to_string(), host("second", 2));
    table.insert("a".to_string(), host("first", 1));
    table.insert("c".to_string(), host("third", 3));
    assert_eq!(table.len(), 3);
    assert_eq!(table.name_at(0), "b");
    assert_eq!(table.name_at(1), "a");
    assert_eq!(table.name_at(2), "c");
    assert_eq!(table.value_at(1).db_host, "first");
    assert_eq!(table.position(&"c".to_string()), Some(2));
    assert_eq!(table.get(&"a".to_string()), Some(&host("first", 1)));
    assert_eq!(table.get(&"d".to_string()), None);
}

#[test]
fn inserting_a_known_name_replaces_its_value_in_place() {
    let mut table = Table::new();
    table.insert("a".to_string(), host("old", 1));
    table.insert("b".to_string(), host("other", 2));
    table.insert("a".to_string(), host("new", 9));
    assert_eq!(table.len(), 2);
    assert_eq!(table.name_at(0), "a");
    assert_eq!(table.value_at(0), &host("new", 9));
    assert_eq!(table.name_at(1), "b");
    assert_eq!(table.get(&"a".to_string()), Some(&host("new", 9)));
}

#[test]
fn table_names_are_compared_whole() {
    let mut table = Table::new();
    table.insert("primary".to_string(), host("x", 1));
    assert!(table.get(&"prim".to_string()).is_none());
    assert!(table.get(&"primary2".to_string()).is_none());
    assert!(table.get(&"Primary".to_string()).is_none());
    assert!(table.get(&"".to_string()).is_none());
}

#[test]
fn clone_of_a_config_entry_is_equal() {
    let h = host("db1.example.org", 3306);
    assert_eq!(h.clone(), h);
    let b = bucket("b-100");
    assert_eq!(b.clone(), b);
    let j = job("shopdb", "primary", "offsite", "*");
    assert_eq!(j.clone(), j);
}

#[test]
fn resolve_finds_host_and_bucket() {
    let config = sample();
    let j = job("shopdb", "replica", "offsite", "*");
    let (h, b) = resolve(&j, &config).unwrap();
    assert_eq!(h, &host("10.0.0.7", 3307));
    assert_eq!(b, &bucket("b-100"));
}

#[test]
fn resolve_reports_missing_host() {
    let config = sample();
    let j = job("shopdb", "nowhere", "offsite", "*");
    assert_eq!(
        resolve(&j, &config),
        Err(Error::BackupHostConfigError("nowhere".to_string(), "shopdb".to_string()))
    );
}

#[test]
fn resolve_reports_missing_bucket() {
    let config = sample();
    let j = job("shopdb", "primary", "attic", "*");
    assert_eq!(
        resolve(&j, &config),
        Err(Error::BucketConfigError("attic".to_string(), "shopdb".to_string()))
    );
}

#[test]
fn resolve_reports_the_host_when_both_are_missing() {
    let config = sample();
    let j = job("shopdb", "nowhere", "attic", "*");
    assert_eq!(
        resolve(&j, &config),
        Err(Error::BackupHostConfigError("nowhere".to_string(), "shopdb".to_string()))
    );
}

#[test]
fn resolve_in_empty_config_reports_the_host() {
    let config = Config {
        config: MiscConfig { backup_interval: 1 },
        hosts: Table::new(),
        databases: Table::new(),
        buckets: Table::new(),
    };
    let j = job("shopdb", "primary", "offsite", "*");
    assert_eq!(
        resolve(&j, &config),
        Err(Error::BackupHostConfigError("primary".to_string(), "shopdb".to_string()))
    );
}

#[test]
fn star_alone_selects_every_database() {
    assert!(selects_every_database("*"));
    assert!(!selects_every_database(""));
    assert!(!selects_every_database("**"));
    assert!(!selects_every_database(" *"));
    assert!(!selects_every_database("* "));
    assert!(!selects_every_database("shop"));
    assert!(!selects_every_database("x"));
}

#[test]
fn export_of_every_database_has_no_name_list() {
    let command = export_command(
        &job("shopdb", "primary", "offsite", "*"),
        &host("db1.example.org", 3306),
    );
    assert_eq!(command.program, "mariadb-dump");
    assert_eq!(
        command.arguments,
        vec![
            "--host=db1.example.org".to_string(),
            "--port=3306".to_string(),
            "--user=backup".to_string(),
            "--password=s3cret".to_string(),
            "--all-databases".to_string(),
            "--result-file=./tmp/shopdb.sql".to_string(),
        ]
    );
    assert!(!command.arguments.contains(&"*".to_string()));
    assert!(!command.arguments.contains(&"--databases".to_string()));
}

#[test]
fn export_of_named_databases_passes_the_selector_as_it_stands() {
    let command = export_command(
        &job("shopdb", "primary", "offsite", "orders customers"),
        &host("10.0.0.7", 1),
    );
    assert_eq!(command.program, "mariadb-dump");
    assert_eq!(
        command.arguments,
        vec![
            "--host=10.0.0.7".to_string(),
            "--port=1".to_string(),
            "--user=backup".to_string(),
            "--password=s3cret".to_string(),
            "--databases".to_string(),
            "orders customers".to_string(),
            "--result-file=./tmp/shopdb.sql".to_string(),
        ]
    );
    assert!(!command.arguments.contains(&"--all-databases".to_string()));
}

#[test]
fn export_with_empty_selector_still_names_databases() {
    let command = export_command(&job("d", "h", "b", ""), &host("h", 65535));
    assert_eq!(command.arguments[1], "--port=65535");
    assert_eq!(command.arguments[4], "--databases");
    assert_eq!(command.arguments[5], "");
    assert_eq!(command.arguments.len(), 7);
}

#[test]
fn export_with_port_zero() {
    let command = export_command(&job("d", "h", "b", "*"), &host("h", 0));
    assert_eq!(command.arguments[1], "--port=0");
}

#[test]
fn working_directories() {
    assert_eq!(backups_directory_path(), "./backups");
    assert_eq!(scratch_directory_path(), "./tmp");
    assert_eq!(dump_file_path("shopdb"), "./tmp/shopdb.sql");
    assert_eq!(dump_file_path(""), "./tmp/.sql");
}

#[test]
fn archive_name_joins_job_host_and_time() {
    assert_eq!(
        archive_file_name("shop", "db1.example.org", "2024-03-09_07-05-01"),
        "shop_db1.example.org_2024-03-09_07-05-01.tar.gz"
    );
    assert_eq!(archive_file_name("", "", ""), "__.tar.gz");
}

#[test]
fn archive_path_is_under_backups() {
    assert_eq!(
        archive_file_path("shop_db1_2024-03-09_07-05-01.tar.gz"),
        "./backups/shop_db1_2024-03-09_07-05-01.tar.gz"
    );
}

#[test]
fn archive_command_packs_the_scratch_directory() {
    let command = archive_command("shop_db1_2024-03-09_07-05-01.tar.gz");
    assert_eq!(command.program, "tar");
    assert_eq!(
        command.arguments,
        vec![
            "-czvf".to_string(),
            "./backups/shop_db1_2024-03-09_07-05-01.tar.gz".to_string(),
            "./tmp".to_string(),
        ]
    );
}

#[test]
fn archives_of_different_times_have_different_names() {
    let first = archive_file_name("shop", "db1", "2024-03-09_07-05-01");
    let second = archive_file_name("shop", "db1", "2024-03-09_07-05-02");
    assert_ne!(first, second);
}

#[test]
fn remote_key_joins_path_and_file() {
    assert_eq!(
        remote_key_for("nightly/mysql", "shop_db1_2024-03-09_07-05-01.tar.gz"),
        "nightly/mysql/shop_db1_2024-03-09_07-05-01.tar.gz"
    );
    assert_eq!(remote_key_for("", "a.tar.gz"), "/a.tar.gz");
}

#[test]
fn fixed_clock_shows_its_time() {
    let clock = Clock::Fixed("2024-03-09_07-05-01".to_string());
    assert_eq!(clock.timestamp(), "2024-03-09_07-05-01");
    assert_eq!(clock.timestamp(), "2024-03-09_07-05-01");
}

#[test]
fn system_clock_writes_date_and_time_of_day() {
    let reading = Clock::System.timestamp();
    let chars: Vec<char> = reading.chars().collect();
    assert_eq!(chars.len(), 19, "{}", reading);
    for (index, c) in chars.iter().enumerate() {
        match index {
            4 | 7 | 13 | 16 => assert_eq!(*c, '-', "{}", reading),
            10 => assert_eq!(*c, '_', "{}", reading),
            _ => assert!(c.is_ascii_digit(), "{}", reading),
        }
    }
    let year: u32 = reading[0..4].parse().unwrap();
    let month: u32 = reading[5..7].parse().unwrap();
    let day: u32 = reading[8..10].parse().unwrap();
    let hour: u32 = reading[11..13].parse().unwrap();
    let minute: u32 = reading[14..16].parse().unwrap();
    let second: u32 = reading[17..19].parse().unwrap();
    assert!(year >= 2024);
    assert!((1..=12).contains(&month));
    assert!((1..=31).contains(&day));
    assert!(hour < 24);
    assert!(minute < 60);
    assert!(second < 61);
}

#[test]
fn message_of_missing_host() {
    assert_eq!(
        Error::BackupHostConfigError("nowhere".to_string(), "shopdb".to_string()).message(),
        "An error occured while parsing the host config of the shopdb database, the specified backup host, nowhere is not configured in the config file - This backup WILL be skipped."
    );
}

#[test]
fn message_of_missing_bucket() {
    assert_eq!(
        Error::BucketConfigError("attic".to_string(), "shopdb".to_string()).message(),
        "An error occured while parsing the bucket config of the shopdb database, the specified bucket host, attic is not configured in the config file - This backup WILL be skipped."
    );
}

#[test]
fn message_of_failed_login() {
    assert_eq!(
        Error::BackblazeLoginError("bad key".to_string()).message(),
        "An error occured while logging into backblaze, did you set the right details?\nError: bad key"
    );
}

#[test]
fn message_of_failed_dump() {
    assert_eq!(
        Error::MariaDbDumpError("access denied".to_string(), "shopdb".to_string()).message(),
        "It seems mariadb-dump exited with an error for the backup of database shopdb, this backup will not complete\nError: access denied"
    );
}

#[test]
fn message_of_failed_compression() {
    assert_eq!(
        Error::DatabaseCompressionError("disk full".to_string(), "shopdb".to_string()).message(),
        "An error occured while compressing the backup of database shopdb, this backup will not complete\nError: disk full"
    );
}

#[test]
fn message_of_scheduler_error() {
    assert_eq!(
        Error::SchedulerError("no slot".to_string()).message(),
        "An error occured while scheduling a backup job: no slot"
    );
}

#[test]
fn message_of_io_error() {
    assert_eq!(
        Error::IoError("permission denied".to_string()).message(),
        "An error occured while modifying a file/folder: permission denied"
    );
}

#[test]
fn messages_of_progress() {
    assert_eq!(Notice::Started.message(), "Starting backups...");
    assert_eq!(
        Notice::Exporting { databases: "*".to_string(), host: "db1".to_string() }.message(),
        "Exporting database(s) * from db1"
    );
    assert_eq!(
        Notice::Exported { db_name: "shopdb".to_string() }.message(),
        "Successfully exported database shopdb!"
    );
    assert_eq!(
        Notice::Compressed { db_name: "shopdb".to_string() }.message(),
        "Successfully compressed database shopdb!"
    );
    assert_eq!(
        Notice::Uploaded { db_name: "shopdb".to_string(), location: "nightly/a.tar.gz".to_string() }
            .message(),
        "Successfully uploaded database shopdb at nightly/a.tar.gz!"
    );
    assert_eq!(
        Notice::UploadFailed("timeout".to_string()).message(),
        "Failed to upload database backup: timeout"
    );
    assert_eq!(
        Notice::Finished { minutes: 360 }.message(),
        "Backups completed! Sleeping for 360 minutes"
    );
    assert_eq!(
        Notice::Finished { minutes: 0 }.message(),
        "Backups completed! Sleeping for 0 minutes"
    );
}

#[test]
fn failure_notice_speaks_with_the_words_of_its_error() {
    let error = Error::IoError("gone".to_string());
    assert_eq!(Notice::Failed(error.clone()).message(), error.message());
}
