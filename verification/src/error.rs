//! What can go wrong in a cycle, and the words each failure is reported with.

use vstd::prelude::*;
use vstd::string::*;

verus! {

/// A failure of one step. The text fields that come first carry what the
/// failing tool or service said; `db_name` names the job's database.
#[derive(Debug, Clone, PartialEq, Eq)]
pub enum Error {
    /// A job names a host that the host table lacks: `(host, db_name)`.
    BackupHostConfigError(String, String),
    /// A job names a bucket that the bucket table lacks: `(bucket, db_name)`.
    BucketConfigError(String, String),
    /// The storage service refused the application key.
    BackblazeLoginError(String),
    /// The dump tool could not be started or ended in failure: `(text, db_name)`.
    MariaDbDumpError(String, String),
    /// The archive tool could not be started or ended in failure: `(text, db_name)`.
    DatabaseCompressionError(String, String),
    /// A cycle could not be scheduled.
    SchedulerError(String),
    /// A file or directory could not be created or removed.
    IoError(String),
}

pub enum ErrorView {
    BackupHostConfigError(Seq<char>, Seq<char>),
    BucketConfigError(Seq<char>, Seq<char>),
    BackblazeLoginError(Seq<char>),
    MariaDbDumpError(Seq<char>, Seq<char>),
    DatabaseCompressionError(Seq<char>, Seq<char>),
    SchedulerError(Seq<char>),
    IoError(Seq<char>),
}

impl View for Error {
    type V = ErrorView;

    open spec fn view(&self) -> ErrorView {
        match self {
            Error::BackupHostConfigError(host, db_name) => ErrorView::BackupHostConfigError(
                host@,
                db_name@,
            ),
            Error::BucketConfigError(bucket, db_name) => ErrorView::BucketConfigError(
                bucket@,
                db_name@,
            ),
            Error::BackblazeLoginError(text) => ErrorView::BackblazeLoginError(text@),
            Error::MariaDbDumpError(text, db_name) => ErrorView::MariaDbDumpError(text@, db_name@),
            Error::DatabaseCompressionError(text, db_name) => ErrorView::DatabaseCompressionError(
                text@,
                db_name@,
            ),
            Error::SchedulerError(text) => ErrorView::SchedulerError(text@),
            Error::IoError(text) => ErrorView::IoError(text@),
        }
    }
}

impl ErrorView {
    /// The line, or two lines, that report the failure.
    pub open spec fn message(self) -> Seq<char> {
        match self {
            ErrorView::BackupHostConfigError(host, db_name) => {
                "An error occured while parsing the host config of the "@ + db_name
                    + " database, the specified backup host, "@ + host
                    + " is not configured in the config file - This backup WILL be skipped."@
            },
            ErrorView::BucketConfigError(bucket, db_name) => {
                "An error occured while parsing the bucket config of the "@ + db_name
                    + " database, the specified bucket host, "@ + bucket
                    + " is not configured in the config file - This backup WILL be skipped."@
            },
            ErrorView::BackblazeLoginError(text) => {
                "An error occured while logging into backblaze, did you set the right details?\nError: "@
                    + text
            },
            ErrorView::MariaDbDumpError(text, db_name) => {
                "It seems mariadb-dump exited with an error for the backup of database "@ + db_name
                    + ", this backup will not complete\nError: "@ + text
            },
            ErrorView::DatabaseCompressionError(text, db_name) => {
                "An error occured while compressing the backup of database "@ + db_name
                    + ", this backup will not complete\nError: "@ + text
            },
            ErrorView::SchedulerError(text) => {
                "An error occured while scheduling a backup job: "@ + text
            },
            ErrorView::IoError(text) => {
                "An error occured while modifying a file/folder: "@ + text
            },
        }
    }
}

impl Error {
    /// The line, or two lines, that report the failure.
    pub fn message(&self) -> (text: String)
        ensures
            text@ == self@.message(),
    {
        match self {
            Error::BackupHostConfigError(host, db_name) => {
                let mut text = String::from_str(
                    "An error occured while parsing the host config of the ",
                );
                text.append(db_name.as_str());
                text.append(" database, the specified backup host, ");
                text.append(host.as_str());
                text.append(
                    " is not configured in the config file - This backup WILL be skipped.",
                );
                text
            },
            Error::BucketConfigError(bucket, db_name) => {
                let mut text = String::from_str(
                    "An error occured while parsing the bucket config of the ",
                );
                text.append(db_name.as_str());
                text.append(" database, the specified bucket host, ");
                text.append(bucket.as_str());
                text.append(
                    " is not configured in the config file - This backup WILL be skipped.",
                );
                text
            },
            Error::BackblazeLoginError(cause) => {
                let mut text = String::from_str(
                    "An error occured while logging into backblaze, did you set the right details?\nError: ",
                );
                text.append(cause.as_str());
                text
            },
            Error::MariaDbDumpError(cause, db_name) => {
                let mut text = String::from_str(
                    "It seems mariadb-dump exited with an error for the backup of database ",
                );
                text.append(db_name.as_str());
                text.append(", this backup will not complete\nError: ");
                text.append(cause.as_str());
                text
            },
            Error::DatabaseCompressionError(cause, db_name) => {
                let mut text = String::from_str(
                    "An error occured while compressing the backup of database ",
                );
                text.append(db_name.as_str());
                text.append(", this backup will not complete\nError: ");
                text.append(cause.as_str());
                text
            },
            Error::SchedulerError(cause) => {
                let mut text = String::from_str("An error occured while scheduling a backup job: ");
                text.append(cause.as_str());
                text
            },
            Error::IoError(cause) => {
                let mut text = String::from_str("An error occured while modifying a file/folder: ");
                text.append(cause.as_str());
                text
            },
        }
    }
}

} // verus!
