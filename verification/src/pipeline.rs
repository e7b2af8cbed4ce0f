//! One job's run: dump, archive, remove the dump, log in, upload. The steps
//! come in that order, and the first one that fails ends the run.

use crate::action::{Action, ActionView, Outcome, OutcomeView};
use crate::archive::{
    archive_command, archive_file, archive_file_name, archive_file_path, archive_invocation,
    archive_path,
};
use crate::clock::Clock;
use crate::config::{
    BackblazeConfig, BackblazeConfigView, BackupConfig, BackupConfigView, Config, ConfigView,
    DatabaseConfig, DatabaseConfigView,
};
use crate::error::{Error, ErrorView};
use crate::export::{export_command, export_invocation};
use crate::layout::{dump_file_path, dump_path};
use crate::notice::{notice_views, Notice, NoticeView};
use crate::resolver::{resolve, resolved};
use crate::upload::{remote_key, remote_key_for};
use vstd::prelude::*;

verus! {

/// The step of a run whose action is under way.
#[derive(Debug, Clone, Copy, PartialEq, Eq)]
pub enum Step {
    /// The dump tool is writing the job's dump file.
    Exporting,
    /// The archive tool is packing the scratch directory.
    Archiving,
    /// The dump file is being removed; the archive is written.
    Deleting,
    /// The dump file is being removed; the archive could not be written.
    Discarding,
    /// The storage service is checking the bucket's key.
    LoggingIn,
    /// The archive is on its way to the bucket.
    Uploading,
}

/// A job that is running: the job with its name, the host and the bucket it
/// was found to name, and the time at which the run started.
#[derive(Debug, Clone, PartialEq, Eq)]
pub struct Flight {
    pub name: String,
    pub job: BackupConfig,
    pub host: DatabaseConfig,
    pub bucket: BackblazeConfig,
    pub timestamp: String,
}

pub struct FlightView {
    pub name: Seq<char>,
    pub job: BackupConfigView,
    pub host: DatabaseConfigView,
    pub bucket: BackblazeConfigView,
    pub timestamp: Seq<char>,
}

impl View for Flight {
    type V = FlightView;

    open spec fn view(&self) -> FlightView {
        FlightView {
            name: self.name@,
            job: self.job@,
            host: self.host@,
            bucket: self.bucket@,
            timestamp: self.timestamp@,
        }
    }
}

/// The run of the job `job`, listed under `name`, that starts at
/// `timestamp`; or why there is none.
pub open spec fn launched(
    name: Seq<char>,
    job: BackupConfigView,
    config: ConfigView,
    timestamp: Seq<char>,
) -> Result<FlightView, ErrorView> {
    match resolved(job, config) {
        Ok((host, bucket)) => Ok(FlightView { name, job, host, bucket, timestamp }),
        Err(error) => Err(error),
    }
}

impl FlightView {
    /// The file name of the run's archive.
    pub open spec fn file(self) -> Seq<char> {
        archive_file(self.name, self.host.db_host, self.timestamp)
    }

    /// What is said when the run starts.
    pub open spec fn announcement(self) -> NoticeView {
        NoticeView::Exporting { databases: self.job.databases, host: self.host.db_host }
    }

    /// The action that `step` consists of.
    pub open spec fn action(self, step: Step) -> ActionView {
        match step {
            Step::Exporting => ActionView::Run(export_invocation(self.job, self.host)),
            Step::Archiving => ActionView::Run(archive_invocation(self.file())),
            Step::Deleting => ActionView::RemoveFile(dump_path(self.job.db_name)),
            Step::Discarding => ActionView::RemoveFile(dump_path(self.job.db_name)),
            Step::LoggingIn => ActionView::Login(self.bucket),
            Step::Uploading => ActionView::Upload {
                remote_key: remote_key(self.job.remote_path, self.file()),
                local_path: archive_path(self.file()),
            },
        }
    }

    /// What is said once `step` has ended in `outcome`.
    pub open spec fn report(self, step: Step, outcome: OutcomeView) -> Seq<NoticeView> {
        let db_name = self.job.db_name;
        match outcome {
            OutcomeView::Completed => match step {
                Step::Exporting => seq![NoticeView::Exported { db_name }],
                Step::Archiving => seq![NoticeView::Compressed { db_name }],
                Step::Deleting => seq![],
                Step::Discarding => seq![],
                Step::LoggingIn => seq![],
                Step::Uploading => seq![
                    NoticeView::Uploaded {
                        db_name,
                        location: remote_key(self.job.remote_path, self.file()),
                    },
                ],
            },
            OutcomeView::Failed(text) => match step {
                Step::Exporting => seq![
                    NoticeView::Failed(ErrorView::MariaDbDumpError(text, db_name)),
                ],
                Step::Archiving => seq![
                    NoticeView::Failed(ErrorView::DatabaseCompressionError(text, db_name)),
                ],
                Step::Deleting => seq![NoticeView::Failed(ErrorView::IoError(text))],
                Step::Discarding => seq![NoticeView::Failed(ErrorView::IoError(text))],
                Step::LoggingIn => seq![NoticeView::Failed(ErrorView::BackblazeLoginError(text))],
                Step::Uploading => seq![NoticeView::UploadFailed(text)],
            },
        }
    }
}

/// The step that comes after `step` has ended in `outcome`, or `None` where
/// the run ends with it. A dump file that cannot be removed holds nothing up.
pub open spec fn step_after(step: Step, outcome: OutcomeView) -> Option<Step> {
    match step {
        Step::Exporting => match outcome {
            OutcomeView::Completed => Some(Step::Archiving),
            OutcomeView::Failed(_) => None,
        },
        Step::Archiving => match outcome {
            OutcomeView::Completed => Some(Step::Deleting),
            OutcomeView::Failed(_) => Some(Step::Discarding),
        },
        Step::Deleting => Some(Step::LoggingIn),
        Step::Discarding => None,
        Step::LoggingIn => match outcome {
            OutcomeView::Completed => Some(Step::Uploading),
            OutcomeView::Failed(_) => None,
        },
        Step::Uploading => None,
    }
}

/// Says which step comes after `step` has ended in `outcome`.
pub fn next_step(step: Step, outcome: &Outcome) -> (next: Option<Step>)
    ensures
        next == step_after(step, outcome@),
{
    match step {
        Step::Exporting => match outcome {
            Outcome::Completed => Some(Step::Archiving),
            Outcome::Failed(_) => None,
        },
        Step::Archiving => match outcome {
            Outcome::Completed => Some(Step::Deleting),
            Outcome::Failed(_) => Some(Step::Discarding),
        },
        Step::Deleting => Some(Step::LoggingIn),
        Step::Discarding => None,
        Step::LoggingIn => match outcome {
            Outcome::Completed => Some(Step::Uploading),
            Outcome::Failed(_) => None,
        },
        Step::Uploading => None,
    }
}

impl Flight {
    /// Starts the run of `job`, listed under `name`: looks up its host and
    /// its bucket and, where both are there, reads the clock. A job with a
    /// name that leads nowhere gets no run, and the clock is not read.
    pub fn launch(name: &String, job: &BackupConfig, config: &Config, clock: &Clock) -> (run:
        Result<Flight, Error>)
        ensures
            match run {
                Ok(flight) => clock.may_show(flight@.timestamp) && launched(
                    name@,
                    job@,
                    config@,
                    flight@.timestamp,
                ) == Ok::<FlightView, ErrorView>(flight@),
                Err(error) => resolved(job@, config@) == Err::<
                    (DatabaseConfigView, BackblazeConfigView),
                    ErrorView,
                >(error@),
            },
    {
        match resolve(job, config) {
            Ok((host, bucket)) => Ok(
                Flight {
                    name: name.clone(),
                    job: job.clone(),
                    host: host.clone(),
                    bucket: bucket.clone(),
                    timestamp: clock.timestamp(),
                },
            ),
            Err(error) => Err(error),
        }
    }

    /// The file name of the run's archive.
    pub fn file(&self) -> (file: String)
        ensures
            file@ == self@.file(),
    {
        archive_file_name(self.name.as_str(), self.host.db_host.as_str(), self.timestamp.as_str())
    }

    /// What to say when the run starts.
    pub fn announcement(&self) -> (notice: Notice)
        ensures
            notice@ == self@.announcement(),
    {
        Notice::Exporting { databases: self.job.databases.clone(), host: self.host.db_host.clone() }
    }

    /// The action that `step` consists of.
    pub fn action(&self, step: Step) -> (action: Action)
        ensures
            action@ == self@.action(step),
    {
        match step {
            Step::Exporting => Action::Run(export_command(&self.job, &self.host)),
            Step::Archiving => {
                let file = self.file();
                Action::Run(archive_command(file.as_str()))
            },
            Step::Deleting => Action::RemoveFile(dump_file_path(self.job.db_name.as_str())),
            Step::Discarding => Action::RemoveFile(dump_file_path(self.job.db_name.as_str())),
            Step::LoggingIn => Action::Login(self.bucket.clone()),
            Step::Uploading => {
                let file = self.file();
                Action::Upload {
                    remote_key: remote_key_for(self.job.remote_path.as_str(), file.as_str()),
                    local_path: archive_file_path(file.as_str()),
                }
            },
        }
    }

    /// What to say once `step` has ended in `outcome`.
    pub fn report(&self, step: Step, outcome: Outcome) -> (notices: Vec<Notice>)
        ensures
            notice_views(notices@) == self@.report(step, outcome@),
    {
        let mut notices: Vec<Notice> = Vec::new();
        match outcome {
            Outcome::Completed => match step {
                Step::Exporting => {
                    notices.push(Notice::Exported { db_name: self.job.db_name.clone() });
                },
                Step::Archiving => {
                    notices.push(Notice::Compressed { db_name: self.job.db_name.clone() });
                },
                Step::Deleting => {},
                Step::Discarding => {},
                Step::LoggingIn => {},
                Step::Uploading => {
                    let file = self.file();
                    notices.push(
                        Notice::Uploaded {
                            db_name: self.job.db_name.clone(),
                            location: remote_key_for(
                                self.job.remote_path.as_str(),
                                file.as_str(),
                            ),
                        },
                    );
                },
            },
            Outcome::Failed(text) => match step {
                Step::Exporting => {
                    notices.push(
                        Notice::Failed(Error::MariaDbDumpError(text, self.job.db_name.clone())),
                    );
                },
                Step::Archiving => {
                    notices.push(
                        Notice::Failed(
                            Error::DatabaseCompressionError(text, self.job.db_name.clone()),
                        ),
                    );
                },
                Step::Deleting => {
                    notices.push(Notice::Failed(Error::IoError(text)));
                },
                Step::Discarding => {
                    notices.push(Notice::Failed(Error::IoError(text)));
                },
                Step::LoggingIn => {
                    notices.push(Notice::Failed(Error::BackblazeLoginError(text)));
                },
                Step::Uploading => {
                    notices.push(Notice::UploadFailed(text));
                },
            },
        }
        assert(notice_views(notices@) =~= self@.report(step, outcome@));
        notices
    }
}

} // verus!
