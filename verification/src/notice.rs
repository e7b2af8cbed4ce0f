//! What a cycle says as it goes: one line for each step that ended, well or
//! badly. The lines are all that shows of a failure.

use crate::error::{Error, ErrorView};
use crate::text::{decimal, decimal_text};
use vstd::prelude::*;
use vstd::string::*;

verus! {

/// One thing worth telling whoever watches the run.
#[derive(Debug, Clone, PartialEq, Eq)]
pub enum Notice {
    /// The working directories are there and the jobs are about to start.
    Started,
    /// The dump of `databases` from the host at `host` is about to start.
    Exporting { databases: String, host: String },
    /// The dump for `db_name` is written.
    Exported { db_name: String },
    /// The archive for `db_name` is written.
    Compressed { db_name: String },
    /// The archive for `db_name` is stored under `location`.
    Uploaded { db_name: String, location: String },
    /// The storage service did not take the archive.
    UploadFailed(String),
    /// A step failed.
    Failed(Error),
    /// All jobs have had their turn; the next cycle starts in `minutes`.
    Finished { minutes: u64 },
}

pub enum NoticeView {
    Started,
    Exporting { databases: Seq<char>, host: Seq<char> },
    Exported { db_name: Seq<char> },
    Compressed { db_name: Seq<char> },
    Uploaded { db_name: Seq<char>, location: Seq<char> },
    UploadFailed(Seq<char>),
    Failed(ErrorView),
    Finished { minutes: u64 },
}

impl View for Notice {
    type V = NoticeView;

    open spec fn view(&self) -> NoticeView {
        match self {
            Notice::Started => NoticeView::Started,
            Notice::Exporting { databases, host } => NoticeView::Exporting {
                databases: databases@,
                host: host@,
            },
            Notice::Exported { db_name } => NoticeView::Exported { db_name: db_name@ },
            Notice::Compressed { db_name } => NoticeView::Compressed { db_name: db_name@ },
            Notice::Uploaded { db_name, location } => NoticeView::Uploaded {
                db_name: db_name@,
                location: location@,
            },
            Notice::UploadFailed(text) => NoticeView::UploadFailed(text@),
            Notice::Failed(error) => NoticeView::Failed(error@),
            Notice::Finished { minutes } => NoticeView::Finished { minutes: *minutes },
        }
    }
}

/// What each notice of `notices` stands for, in the same order.
pub open spec fn notice_views(notices: Seq<Notice>) -> Seq<NoticeView> {
    notices.map_values(|notice: Notice| notice@)
}

impl NoticeView {
    /// The line that tells of it.
    pub open spec fn message(self) -> Seq<char> {
        match self {
            NoticeView::Started => "Starting backups..."@,
            NoticeView::Exporting { databases, host } => {
                "Exporting database(s) "@ + databases + " from "@ + host
            },
            NoticeView::Exported { db_name } => {
                "Successfully exported database "@ + db_name + "!"@
            },
            NoticeView::Compressed { db_name } => {
                "Successfully compressed database "@ + db_name + "!"@
            },
            NoticeView::Uploaded { db_name, location } => {
                "Successfully uploaded database "@ + db_name + " at "@ + location + "!"@
            },
            NoticeView::UploadFailed(text) => "Failed to upload database backup: "@ + text,
            NoticeView::Failed(error) => error.message(),
            NoticeView::Finished { minutes } => {
                "Backups completed! Sleeping for "@ + decimal(minutes as nat) + " minutes"@
            },
        }
    }
}

impl Notice {
    /// The line that tells of it.
    pub fn message(&self) -> (text: String)
        ensures
            text@ == self@.message(),
    {
        match self {
            Notice::Started => String::from_str("Starting backups..."),
            Notice::Exporting { databases, host } => {
                let mut text = String::from_str("Exporting database(s) ");
                text.append(databases.as_str());
                text.append(" from ");
                text.append(host.as_str());
                text
            },
            Notice::Exported { db_name } => {
                let mut text = String::from_str("Successfully exported database ");
                text.append(db_name.as_str());
                text.append("!");
                text
            },
            Notice::Compressed { db_name } => {
                let mut text = String::from_str("Successfully compressed database ");
                text.append(db_name.as_str());
                text.append("!");
                text
            },
            Notice::Uploaded { db_name, location } => {
                let mut text = String::from_str("Successfully uploaded database ");
                text.append(db_name.as_str());
                text.append(" at ");
                text.append(location.as_str());
                text.append("!");
                text
            },
            Notice::UploadFailed(cause) => {
                let mut text = String::from_str("Failed to upload database backup: ");
                text.append(cause.as_str());
                text
            },
            Notice::Failed(error) => error.message(),
            Notice::Finished { minutes } => {
                let mut text = String::from_str("Backups completed! Sleeping for ");
                let count = decimal_text(*minutes);
                text.append(count.as_str());
                text.append(" minutes");
                text
            },
        }
    }
}

} // verus!
