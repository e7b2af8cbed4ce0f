//! The cycle: make sure the working directories are there, give every job
//! its run, remove the scratch directory, sleep, and start over.
//!
//! The scheduler does nothing to the world itself. It names the action that
//! is due ([`Scheduler::pending`]) and, told how the action went
//! ([`Scheduler::settle`]), moves on to the next.

use crate::action::{Action, ActionView, Outcome, OutcomeView};
use crate::clock::Clock;
use crate::config::{Config, ConfigView, SECONDS_PER_HOUR};
use crate::error::{Error, ErrorView};
use crate::layout::{
    backups_directory, backups_directory_path, scratch_directory, scratch_directory_path,
};
use crate::notice::{notice_views, Notice, NoticeView};
use crate::pipeline::{launched, next_step, step_after, Flight, FlightView, Step};
use vstd::prelude::*;

verus! {

/// Where a cycle stands: the action that is under way.
#[derive(Debug, Clone, PartialEq, Eq)]
pub enum Stage {
    /// The directory for archives is being made sure of.
    EnsuringBackups,
    /// The scratch directory is being made sure of.
    EnsuringScratch,
    /// The job at place `cursor` of the listing is running and has reached
    /// `step`.
    Running { step: Step, cursor: usize, flight: Flight },
    /// All jobs have had their turn and the scratch directory is being
    /// removed.
    Clearing,
    /// The cycle is over and the pause before the next one is under way.
    Sleeping,
    /// A working directory could not be made. Nothing more will happen.
    Halted,
}

pub enum StageView {
    EnsuringBackups,
    EnsuringScratch,
    Running { step: Step, cursor: nat, flight: FlightView },
    Clearing,
    Sleeping,
    Halted,
}

impl View for Stage {
    type V = StageView;

    open spec fn view(&self) -> StageView {
        match self {
            Stage::EnsuringBackups => StageView::EnsuringBackups,
            Stage::EnsuringScratch => StageView::EnsuringScratch,
            Stage::Running { step, cursor, flight } => StageView::Running {
                step: *step,
                cursor: *cursor as nat,
                flight: flight@,
            },
            Stage::Clearing => StageView::Clearing,
            Stage::Sleeping => StageView::Sleeping,
            Stage::Halted => StageView::Halted,
        }
    }
}

impl StageView {
    /// The start time of the run that is under way, if one is.
    pub open spec fn timestamp(self) -> Seq<char> {
        match self {
            StageView::Running { flight, .. } => flight.timestamp,
            _ => Seq::empty(),
        }
    }
}

/// A scheduler as the contracts see it: the configuration it was made with,
/// the pause between cycles in seconds, and the stage it has reached.
pub struct SchedulerView {
    pub config: ConfigView,
    pub pause: u64,
    pub stage: StageView,
}

/// The stage that the search for the next job to run ends in, and what is
/// said on the way. The search starts at place `from` of the listing. A job
/// that names a missing host or bucket is reported and passed over; the
/// first job that names neither starts its run at `timestamp`. With no such
/// job left, the scratch directory is due to go.
pub open spec fn seek(config: ConfigView, from: nat, timestamp: Seq<char>) -> (StageView, Seq<
    NoticeView,
>)
    decreases config.databases.len() - from,
{
    if from >= config.databases.len() {
        (StageView::Clearing, Seq::empty())
    } else {
        let (name, job) = config.databases[from as int];
        match launched(name, job, config, timestamp) {
            Ok(flight) => (
                StageView::Running { step: Step::Exporting, cursor: from, flight },
                seq![flight.announcement()],
            ),
            Err(error) => {
                let (stage, notices) = seek(config, from + 1, timestamp);
                (stage, seq![NoticeView::Failed(error)] + notices)
            },
        }
    }
}

/// What is said when the scratch directory has been removed, or could not
/// be. Either way the cycle is over.
pub open spec fn farewell(pause: u64, outcome: OutcomeView) -> Seq<NoticeView> {
    let finished = NoticeView::Finished { minutes: pause / 60 };
    match outcome {
        OutcomeView::Completed => seq![finished],
        OutcomeView::Failed(text) => seq![NoticeView::Failed(ErrorView::IoError(text)), finished],
    }
}

impl SchedulerView {
    /// The action that is under way.
    pub open spec fn pending(self) -> ActionView {
        match self.stage {
            StageView::EnsuringBackups => ActionView::EnsureDirectory(backups_directory()),
            StageView::EnsuringScratch => ActionView::EnsureDirectory(scratch_directory()),
            StageView::Running { step, flight, .. } => flight.action(step),
            StageView::Clearing => ActionView::RemoveDirectory(scratch_directory()),
            StageView::Sleeping => ActionView::Sleep(self.pause),
            StageView::Halted => ActionView::Halt,
        }
    }

    /// The stage that follows when the pending action has ended in
    /// `outcome`, and what is said of it. `timestamp` is the time that a run
    /// starts at, should this be the moment one starts.
    pub open spec fn settle(self, outcome: OutcomeView, timestamp: Seq<char>) -> (
        StageView,
        Seq<NoticeView>,
    ) {
        match self.stage {
            StageView::EnsuringBackups => match outcome {
                OutcomeView::Completed => (StageView::EnsuringScratch, Seq::empty()),
                OutcomeView::Failed(text) => (
                    StageView::Halted,
                    seq![NoticeView::Failed(ErrorView::IoError(text))],
                ),
            },
            StageView::EnsuringScratch => match outcome {
                OutcomeView::Completed => {
                    let (stage, notices) = seek(self.config, 0, timestamp);
                    (stage, seq![NoticeView::Started] + notices)
                },
                OutcomeView::Failed(text) => (
                    StageView::Halted,
                    seq![NoticeView::Failed(ErrorView::IoError(text))],
                ),
            },
            StageView::Running { step, cursor, flight } => match step_after(step, outcome) {
                Some(next) => (
                    StageView::Running { step: next, cursor, flight },
                    flight.report(step, outcome),
                ),
                None => {
                    let (stage, notices) = seek(self.config, cursor + 1, timestamp);
                    (stage, flight.report(step, outcome) + notices)
                },
            },
            StageView::Clearing => (StageView::Sleeping, farewell(self.pause, outcome)),
            StageView::Sleeping => (StageView::EnsuringBackups, Seq::empty()),
            StageView::Halted => (StageView::Halted, Seq::empty()),
        }
    }

    /// The place of the listing from which the next job to run is searched
    /// when the pending action has ended in `outcome`; `None` where that is
    /// no moment to search. The search starts at the head of the listing
    /// once the scratch directory is there, and behind the job that ran
    /// once a run is over.
    pub open spec fn search_from(self, outcome: OutcomeView) -> Option<nat> {
        match self.stage {
            StageView::EnsuringScratch => match outcome {
                OutcomeView::Completed => Some(0),
                OutcomeView::Failed(_) => None,
            },
            StageView::Running { step, cursor, .. } => match step_after(step, outcome) {
                Some(_) => None,
                None => Some(cursor + 1),
            },
            _ => None,
        }
    }

    /// Whether a run starts when the pending action has ended in `outcome`:
    /// whether the stage that follows is the first step of a job.
    pub open spec fn starts_run(self, outcome: OutcomeView, timestamp: Seq<char>) -> bool {
        &&& self.settle(outcome, timestamp).0 is Running
        &&& !(self.stage is Running && step_after(self.stage->step, outcome) is Some)
    }

    /// What holds of every scheduler that [`Scheduler::new`] made, after any
    /// number of settled actions: the pause is the configured interval, and
    /// a run that is under way is that of the job under the cursor, with the
    /// host and bucket that the job names.
    pub open spec fn consistent(self) -> bool {
        &&& self.pause == self.config.backup_interval * SECONDS_PER_HOUR
        &&& match self.stage {
            StageView::Running { cursor, flight, .. } => {
                &&& cursor < self.config.databases.len()
                &&& launched(
                    self.config.databases[cursor as int].0,
                    self.config.databases[cursor as int].1,
                    self.config,
                    flight.timestamp,
                ) == Ok::<FlightView, ErrorView>(flight)
            },
            _ => true,
        }
    }
}

/// The search for the next job lands on a job of the listing, at or after
/// the place it started from, or finds none.
pub proof fn lemma_seek_lands(config: ConfigView, from: nat, timestamp: Seq<char>)
    ensures
        match seek(config, from, timestamp).0 {
            StageView::Running { step, cursor, flight } => {
                &&& step == Step::Exporting
                &&& from <= cursor < config.databases.len()
                &&& flight.timestamp == timestamp
                &&& launched(
                    config.databases[cursor as int].0,
                    config.databases[cursor as int].1,
                    config,
                    timestamp,
                ) == Ok::<FlightView, ErrorView>(flight)
            },
            StageView::Clearing => true,
            _ => false,
        },
    decreases config.databases.len() - from,
{
    if from < config.databases.len() {
        let (name, job) = config.databases[from as int];
        if launched(name, job, config, timestamp) is Err {
            lemma_seek_lands(config, from + 1, timestamp);
        }
    }
}

/// Where the search finds no job to run, the time it was given plays no
/// part in what it says.
pub proof fn lemma_seek_without_run(
    config: ConfigView,
    from: nat,
    timestamp: Seq<char>,
    other: Seq<char>,
)
    requires
        seek(config, from, timestamp).0 is Clearing,
    ensures
        seek(config, from, other) == seek(config, from, timestamp),
    decreases config.databases.len() - from,
{
    if from < config.databases.len() {
        lemma_seek_without_run(config, from + 1, timestamp, other);
    }
}

/// Where a settled action sets off the search for the next job, the stage
/// that follows is the one the search ends in: the start of the run of a job
/// at or behind the place the search began, at the time given, or the
/// removal of the scratch directory.
pub proof fn lemma_settle_lands(
    scheduler: SchedulerView,
    outcome: OutcomeView,
    timestamp: Seq<char>,
)
    ensures
        match scheduler.search_from(outcome) {
            Some(from) => {
                &&& scheduler.settle(outcome, timestamp).0 == seek(
                    scheduler.config,
                    from,
                    timestamp,
                ).0
                &&& match scheduler.settle(outcome, timestamp).0 {
                    StageView::Running { step, cursor, flight } => {
                        &&& step == Step::Exporting
                        &&& from <= cursor < scheduler.config.databases.len()
                        &&& flight.timestamp == timestamp
                        &&& launched(
                            scheduler.config.databases[cursor as int].0,
                            scheduler.config.databases[cursor as int].1,
                            scheduler.config,
                            timestamp,
                        ) == Ok::<FlightView, ErrorView>(flight)
                    },
                    StageView::Clearing => true,
                    _ => false,
                }
            },
            None => !scheduler.starts_run(outcome, timestamp),
        },
{
    match scheduler.search_from(outcome) {
        Some(from) => {
            lemma_seek_lands(scheduler.config, from, timestamp);
        },
        None => {},
    }
}

/// The scheduler of one process: the configuration, read once and never
/// changed, and the stage the current cycle has reached.
#[derive(Debug)]
pub struct Scheduler {
    config: Config,
    pause: u64,
    stage: Stage,
}

impl View for Scheduler {
    type V = SchedulerView;

    closed spec fn view(&self) -> SchedulerView {
        SchedulerView { config: self.config@, pause: self.pause, stage: self.stage@ }
    }
}

/// Searches the listing from place `from` for the next job to run, adding
/// to `notices` what is said on the way.
fn seek_from(config: &Config, from: usize, clock: &Clock, notices: &mut Vec<Notice>) -> (stage:
    Stage)
    ensures
        stage@ == seek(config@, from as nat, stage@.timestamp()).0,
        notice_views(final(notices)@) == notice_views(old(notices)@) + seek(
            config@,
            from as nat,
            stage@.timestamp(),
        ).1,
        stage@ is Running ==> clock.may_show(stage@.timestamp()),
{
    let count = config.databases.len();
    let mut index: usize = from;
    let ghost mut skipped: Seq<NoticeView> = Seq::empty();
    while index < count
        invariant
            count == config@.databases.len(),
            from <= index,
            notice_views(notices@) == notice_views(old(notices)@) + skipped,
            forall|timestamp: Seq<char>|
                #![trigger seek(config@, from as nat, timestamp)]
                seek(config@, from as nat, timestamp) == (
                    seek(config@, index as nat, timestamp).0,
                    skipped + seek(config@, index as nat, timestamp).1,
                ),
        decreases count - index,
    {
        let name = config.databases.name_at(index);
        let job = config.databases.value_at(index);
        match Flight::launch(name, job, config, clock) {
            Ok(flight) => {
                let ghost before = notice_views(notices@);
                notices.push(flight.announcement());
                proof {
                    let stamp = flight@.timestamp;
                    assert(notice_views(notices@) =~= before + seq![flight@.announcement()]);
                    assert(seek(config@, index as nat, stamp) == (
                        StageView::Running {
                            step: Step::Exporting,
                            cursor: index as nat,
                            flight: flight@,
                        },
                        seq![flight@.announcement()],
                    ));
                    assert(notice_views(old(notices)@) + (skipped + seq![flight@.announcement()])
                        =~= notice_views(old(notices)@) + skipped + seq![flight@.announcement()]);
                }
                return Stage::Running { step: Step::Exporting, cursor: index, flight };
            },
            Err(error) => {
                let ghost before = notice_views(notices@);
                let ghost passed = skipped;
                notices.push(Notice::Failed(error));
                proof {
                    skipped = passed.push(NoticeView::Failed(error@));
                    assert(notice_views(notices@) =~= before + seq![NoticeView::Failed(error@)]);
                    assert(notice_views(notices@) =~= notice_views(old(notices)@) + skipped);
                    assert forall|timestamp: Seq<char>|
                        #![trigger seek(config@, from as nat, timestamp)]
                        seek(config@, from as nat, timestamp) == (
                            seek(config@, (index + 1) as nat, timestamp).0,
                            skipped + seek(config@, (index + 1) as nat, timestamp).1,
                        ) by {
                        let rest = seek(config@, (index + 1) as nat, timestamp);
                        assert(seek(config@, index as nat, timestamp) == (
                            rest.0,
                            seq![NoticeView::Failed(error@)] + rest.1,
                        ));
                        assert(passed + (seq![NoticeView::Failed(error@)] + rest.1) =~= skipped
                            + rest.1);
                    }
                }
                index += 1;
            },
        }
    }
    proof {
        let stamp = Seq::<char>::empty();
        assert(seek(config@, index as nat, stamp) == (
            StageView::Clearing,
            Seq::<NoticeView>::empty(),
        ));
        assert(skipped + Seq::<NoticeView>::empty() =~= skipped);
    }
    Stage::Clearing
}

impl Scheduler {
    /// A scheduler at the start of its first cycle, or `None` where the
    /// configured interval, in seconds, does not fit in 64 bits.
    pub fn new(config: Config) -> (made: Option<Scheduler>)
        ensures
            match made {
                Some(scheduler) => {
                    &&& config@.backup_interval * SECONDS_PER_HOUR <= u64::MAX
                    &&& scheduler@ == SchedulerView {
                        config: config@,
                        pause: (config@.backup_interval * SECONDS_PER_HOUR) as u64,
                        stage: StageView::EnsuringBackups,
                    }
                    &&& scheduler@.consistent()
                },
                None => config@.backup_interval * SECONDS_PER_HOUR > u64::MAX,
            },
    {
        match config.config.interval_seconds() {
            Some(pause) => Some(Scheduler { config, pause, stage: Stage::EnsuringBackups }),
            None => None,
        }
    }

    /// The configuration the scheduler was made with.
    pub fn config(&self) -> (config: &Config)
        ensures
            config@ == self@.config,
    {
        &self.config
    }

    /// The pause between two cycles, in seconds.
    pub fn pause(&self) -> (seconds: u64)
        ensures
            seconds == self@.pause,
    {
        self.pause
    }

    /// The stage the cycle has reached.
    pub fn stage(&self) -> (stage: &Stage)
        ensures
            stage@ == self@.stage,
    {
        &self.stage
    }

    /// The action that is under way: what to do next, and report on.
    pub fn pending(&self) -> (action: Action)
        ensures
            action@ == self@.pending(),
    {
        match &self.stage {
            Stage::EnsuringBackups => Action::EnsureDirectory(backups_directory_path()),
            Stage::EnsuringScratch => Action::EnsureDirectory(scratch_directory_path()),
            Stage::Running { step, flight, .. } => flight.action(*step),
            Stage::Clearing => Action::RemoveDirectory(scratch_directory_path()),
            Stage::Sleeping => Action::Sleep(self.pause),
            Stage::Halted => Action::Halt,
        }
    }

    /// Takes note that the pending action has ended in `outcome` and moves
    /// on. Returns what there is to say of it, in order.
    ///
    /// The clock is read where a job's run starts, once, and nowhere else.
    /// The new stage is the one that [`SchedulerView::settle`] gives for the
    /// time that was read, which the run carries with it from then on.
    pub fn settle(&mut self, outcome: Outcome, clock: &Clock) -> (notices: Vec<Notice>)
        ensures
            final(self)@.config == old(self)@.config,
            final(self)@.pause == old(self)@.pause,
            (final(self)@.stage, notice_views(notices@)) == old(self)@.settle(
                outcome@,
                final(self)@.stage.timestamp(),
            ),
            old(self)@.starts_run(outcome@, final(self)@.stage.timestamp()) ==> clock.may_show(
                final(self)@.stage.timestamp(),
            ),
            old(self)@.consistent() ==> final(self)@.consistent(),
    {
        let mut stage = Stage::Halted;
        core::mem::swap(&mut self.stage, &mut stage);
        let mut notices: Vec<Notice> = Vec::new();
        let ghost before = old(self)@;
        let ghost ended = outcome@;
        assert(notice_views(notices@) =~= Seq::<NoticeView>::empty());
        let next = match stage {
            Stage::EnsuringBackups => match outcome {
                Outcome::Completed => Stage::EnsuringScratch,
                Outcome::Failed(text) => {
                    notices.push(Notice::Failed(Error::IoError(text)));
                    assert(notice_views(notices@) =~= seq![
                        NoticeView::Failed(ErrorView::IoError(text@)),
                    ]);
                    Stage::Halted
                },
            },
            Stage::EnsuringScratch => match outcome {
                Outcome::Completed => {
                    notices.push(Notice::Started);
                    assert(notice_views(notices@) =~= seq![NoticeView::Started]);
                    seek_from(&self.config, 0, clock, &mut notices)
                },
                Outcome::Failed(text) => {
                    notices.push(Notice::Failed(Error::IoError(text)));
                    assert(notice_views(notices@) =~= seq![
                        NoticeView::Failed(ErrorView::IoError(text@)),
                    ]);
                    Stage::Halted
                },
            },
            Stage::Running { step, cursor, flight } => {
                let follow = next_step(step, &outcome);
                notices = flight.report(step, outcome);
                match follow {
                    Some(next) => Stage::Running { step: next, cursor, flight },
                    None => {
                        let from = if cursor < self.config.databases.len() {
                            cursor + 1
                        } else {
                            cursor
                        };
                        let found = seek_from(&self.config, from, clock, &mut notices);
                        proof {
                            let stamp = found@.timestamp();
                            if cursor >= before.config.databases.len() {
                                assert(seek(before.config, from as nat, stamp) == seek(
                                    before.config,
                                    (cursor + 1) as nat,
                                    stamp,
                                ));
                            }
                        }
                        found
                    },
                }
            },
            Stage::Clearing => {
                match outcome {
                    Outcome::Completed => {},
                    Outcome::Failed(text) => {
                        notices.push(Notice::Failed(Error::IoError(text)));
                    },
                }
                notices.push(Notice::Finished { minutes: self.pause / 60 });
                assert(notice_views(notices@) =~= farewell(before.pause, outcome@));
                Stage::Sleeping
            },
            Stage::Sleeping => Stage::EnsuringBackups,
            Stage::Halted => Stage::Halted,
        };
        proof {
            lemma_settle_lands(before, ended, next@.timestamp());
        }
        self.stage = next;
        notices
    }
}

} // verus!
