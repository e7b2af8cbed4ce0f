//! What holds of every cycle, whatever the configuration and however the
//! actions go. Each law is proved from the definitions that the contracts of
//! the executable functions are written in.

use crate::action::{ActionView, OutcomeView};
use crate::archive::{archive_file, archive_invocation};
use crate::clock::{all_digits, is_digit, is_start_time, Clock};
use crate::config::{BackupConfigView, ConfigView, DatabaseConfigView, SECONDS_PER_HOUR};
use crate::error::ErrorView;
use crate::export::{every_database, export_arguments};
use crate::layout::{dump_path, scratch_directory};
use crate::notice::NoticeView;
use crate::pipeline::{launched, step_after, Step};
use crate::resolver::resolved;
use crate::scheduler::{
    lemma_seek_lands, lemma_seek_without_run, lemma_settle_lands, seek, SchedulerView, StageView,
};
use crate::text::decimal;
use vstd::prelude::*;

verus! {

/// A job that names a host which the host table lacks is refused for that
/// host, whatever bucket it names.
pub proof fn law_missing_host_is_refused(job: BackupConfigView, config: ConfigView)
    requires
        !config.hosts.contains_key(job.db_host),
    ensures
        resolved(job, config) is Err,
        resolved(job, config)->Err_0 == ErrorView::BackupHostConfigError(
            job.db_host,
            job.db_name,
        ),
{
}

/// A job whose host or bucket is missing never runs: the search for the next
/// job reports it and goes on behind it, so none of its steps becomes the
/// pending action.
pub proof fn law_unresolved_job_never_runs(config: ConfigView, from: nat, timestamp: Seq<char>)
    requires
        from < config.databases.len(),
        resolved(config.databases[from as int].1, config) is Err,
    ensures
        seek(config, from, timestamp).1.len() > 0,
        seek(config, from, timestamp).1[0] == NoticeView::Failed(
            resolved(config.databases[from as int].1, config)->Err_0,
        ),
        seek(config, from, timestamp).0 == seek(config, from + 1, timestamp).0,
        match seek(config, from, timestamp).0 {
            StageView::Running { cursor, .. } => cursor > from,
            _ => true,
        },
{
    lemma_seek_lands(config, from + 1, timestamp);
}

/// The selector `*` becomes the flag for all databases and no list of names;
/// any other selector follows the flag for named databases as it stands.
/// Either way the connection comes first and the dump file last.
pub proof fn law_selector_decides_the_flag(job: BackupConfigView, host: DatabaseConfigView)
    ensures
        job.databases == every_database() ==> export_arguments(job, host) == seq![
            "--host="@ + host.db_host,
            "--port="@ + decimal(host.db_port as nat),
            "--user="@ + host.db_username,
            "--password="@ + host.db_password,
            "--all-databases"@,
            "--result-file="@ + dump_path(job.db_name),
        ],
        job.databases != every_database() ==> export_arguments(job, host) == seq![
            "--host="@ + host.db_host,
            "--port="@ + decimal(host.db_port as nat),
            "--user="@ + host.db_username,
            "--password="@ + host.db_password,
            "--databases"@,
            job.databases,
            "--result-file="@ + dump_path(job.db_name),
        ],
{
    if job.databases == every_database() {
        assert(export_arguments(job, host) =~= seq![
            "--host="@ + host.db_host,
            "--port="@ + decimal(host.db_port as nat),
            "--user="@ + host.db_username,
            "--password="@ + host.db_password,
            "--all-databases"@,
            "--result-file="@ + dump_path(job.db_name),
        ]);
    } else {
        assert(export_arguments(job, host) =~= seq![
            "--host="@ + host.db_host,
            "--port="@ + decimal(host.db_port as nat),
            "--user="@ + host.db_username,
            "--password="@ + host.db_password,
            "--databases"@,
            job.databases,
            "--result-file="@ + dump_path(job.db_name),
        ]);
    }
}

/// Once a run has exported, the archive it asks for is named after the job,
/// the address of the job's host and the time at which the run started, and
/// the upload that follows sends the same file.
pub proof fn law_archive_is_named_for_the_run(scheduler: SchedulerView, timestamp: Seq<char>)
    requires
        scheduler.consistent(),
        scheduler.stage is Running,
        scheduler.stage->step == Step::Exporting,
    ensures
        ({
            let cursor = scheduler.stage->cursor as int;
            let name = scheduler.config.databases[cursor].0;
            let job = scheduler.config.databases[cursor].1;
            let host = scheduler.config.hosts[job.db_host];
            let file = archive_file(name, host.db_host, scheduler.stage.timestamp());
            let archiving = SchedulerView {
                stage: scheduler.settle(OutcomeView::Completed, timestamp).0,
                ..scheduler
            };
            &&& file == name + "_"@ + host.db_host + "_"@ + scheduler.stage.timestamp()
                + ".tar.gz"@
            &&& archiving.pending() == ActionView::Run(archive_invocation(file))
            &&& archiving.stage.timestamp() == scheduler.stage.timestamp()
            &&& scheduler.stage->flight.action(Step::Uploading) == ActionView::Upload {
                remote_key: job.remote_path + "/"@ + file,
                local_path: "./backups"@ + "/"@ + file,
            }
        }),
{
}

/// Two runs of one job on one host that start at different times write
/// archives with different names.
pub proof fn law_start_time_tells_archives_apart(
    job_name: Seq<char>,
    host_address: Seq<char>,
    first: Seq<char>,
    second: Seq<char>,
)
    requires
        first != second,
    ensures
        archive_file(job_name, host_address, first) != archive_file(
            job_name,
            host_address,
            second,
        ),
{
    let head = job_name + "_"@ + host_address + "_"@;
    let tail = ".tar.gz"@;
    let one = archive_file(job_name, host_address, first);
    let two = archive_file(job_name, host_address, second);
    if one == two {
        assert(one =~= head + first + tail);
        assert(two =~= head + second + tail);
        assert(one.len() == head.len() + first.len() + tail.len());
        assert(two.len() == head.len() + second.len() + tail.len());
        assert(first.len() == second.len());
        assert forall|i: int| 0 <= i < first.len() implies first[i] == second[i] by {
            assert(one[head.len() + i] == first[i]);
            assert(two[head.len() + i] == second[i]);
        }
        assert(first =~= second);
    }
}

/// A failed export ends the run: the failure is reported, and what comes
/// next is the search behind the job, so neither the archive nor the upload
/// of this job is ever asked for.
pub proof fn law_failed_export_ends_the_run(
    scheduler: SchedulerView,
    text: Seq<char>,
    timestamp: Seq<char>,
)
    requires
        scheduler.stage is Running,
        scheduler.stage->step == Step::Exporting,
    ensures
        ({
            let cursor = scheduler.stage->cursor;
            let db_name = scheduler.stage->flight.job.db_name;
            let (stage, notices) = scheduler.settle(OutcomeView::Failed(text), timestamp);
            &&& notices.len() > 0
            &&& notices[0] == NoticeView::Failed(ErrorView::MariaDbDumpError(text, db_name))
            &&& stage == seek(scheduler.config, cursor + 1, timestamp).0
            &&& match stage {
                StageView::Running { step, cursor: next, .. } => step == Step::Exporting && next
                    > cursor,
                StageView::Clearing => true,
                _ => false,
            }
        }),
{
    lemma_settle_lands(scheduler, OutcomeView::Failed(text), timestamp);
}

/// What follows a run does not depend on how the run went: whichever step
/// was the last and whatever its outcome, the next stage is the one that the
/// search behind the job finds, and the search reads the configuration
/// alone.
pub proof fn law_runs_do_not_touch_each_other(
    one: SchedulerView,
    other: SchedulerView,
    outcome_one: OutcomeView,
    outcome_other: OutcomeView,
    timestamp: Seq<char>,
)
    requires
        one.config == other.config,
        one.stage is Running,
        other.stage is Running,
        one.stage->cursor == other.stage->cursor,
        step_after(one.stage->step, outcome_one) is None,
        step_after(other.stage->step, outcome_other) is None,
    ensures
        one.settle(outcome_one, timestamp).0 == other.settle(outcome_other, timestamp).0,
        one.settle(outcome_one, timestamp).0 == seek(
            one.config,
            one.stage->cursor + 1,
            timestamp,
        ).0,
{
}

/// While a run goes on, it stays the run of the same job with the same host,
/// bucket and start time; only the step changes.
pub proof fn law_run_keeps_its_job(
    scheduler: SchedulerView,
    outcome: OutcomeView,
    timestamp: Seq<char>,
)
    requires
        scheduler.stage is Running,
        step_after(scheduler.stage->step, outcome) is Some,
    ensures
        scheduler.settle(outcome, timestamp).0 == (StageView::Running {
            step: step_after(scheduler.stage->step, outcome)->0,
            cursor: scheduler.stage->cursor,
            flight: scheduler.stage->flight,
        }),
{
}

/// Settling an action keeps a consistent scheduler consistent.
pub proof fn law_settle_keeps_consistency(
    scheduler: SchedulerView,
    outcome: OutcomeView,
    timestamp: Seq<char>,
)
    requires
        scheduler.consistent(),
    ensures
        advance(scheduler, Turn { outcome, timestamp }).consistent(),
{
    lemma_settle_lands(scheduler, outcome, timestamp);
}

/// The pause only ever follows the removal of the scratch directory, and it
/// lasts the configured number of hours, to the second.
pub proof fn law_sleep_follows_clearing(
    scheduler: SchedulerView,
    outcome: OutcomeView,
    timestamp: Seq<char>,
)
    requires
        scheduler.consistent(),
        scheduler.settle(outcome, timestamp).0 is Sleeping,
    ensures
        scheduler.stage is Clearing,
        scheduler.pending() == ActionView::RemoveDirectory("./tmp"@),
        advance(scheduler, Turn { outcome, timestamp }).pending() == ActionView::Sleep(
            (scheduler.config.backup_interval * SECONDS_PER_HOUR) as u64,
        ),
{
    lemma_settle_lands(scheduler, outcome, timestamp);
}

/// One exchange with the world: how the pending action went, and what the
/// clock shows in case a run starts.
pub struct Turn {
    pub outcome: OutcomeView,
    pub timestamp: Seq<char>,
}

/// The scheduler after the pending action has gone as `turn` says.
pub open spec fn advance(scheduler: SchedulerView, turn: Turn) -> SchedulerView {
    SchedulerView { stage: scheduler.settle(turn.outcome, turn.timestamp).0, ..scheduler }
}

/// The scheduler after the first `count` of `turns`.
pub open spec fn after(scheduler: SchedulerView, turns: spec_fn(nat) -> Turn, count: nat)
    -> SchedulerView
    decreases count,
{
    if count == 0 {
        scheduler
    } else {
        advance(after(scheduler, turns, (count - 1) as nat), turns((count - 1) as nat))
    }
}

/// Whether the cycle is over: the pause is under way, or the process is to
/// end.
pub open spec fn at_rest(scheduler: SchedulerView) -> bool {
    scheduler.stage is Sleeping || scheduler.stage is Halted
}

/// How far `step` is into a run.
pub open spec fn step_rank(step: Step) -> nat {
    match step {
        Step::Exporting => 0,
        Step::Archiving => 1,
        Step::Deleting => 2,
        Step::Discarding => 2,
        Step::LoggingIn => 3,
        Step::Uploading => 4,
    }
}

/// The most actions that can still be asked for before the cycle is over.
pub open spec fn work_left(scheduler: SchedulerView) -> nat {
    let jobs = scheduler.config.databases.len();
    match scheduler.stage {
        StageView::EnsuringBackups => 5 * jobs + 3,
        StageView::EnsuringScratch => 5 * jobs + 2,
        StageView::Running { step, cursor, .. } => (5 * (jobs - cursor) + 1 - step_rank(
            step,
        )) as nat,
        StageView::Clearing => 1,
        StageView::Sleeping => 0,
        StageView::Halted => 0,
    }
}

/// Every settled action brings the end of the cycle nearer, however it
/// went.
pub proof fn law_every_action_makes_progress(scheduler: SchedulerView, turn: Turn)
    requires
        scheduler.consistent(),
        !at_rest(scheduler),
    ensures
        work_left(advance(scheduler, turn)) < work_left(scheduler),
{
    lemma_settle_lands(scheduler, turn.outcome, turn.timestamp);
}

/// Whether the cycle is over after `count` of `turns` and was not before.
pub open spec fn rests_first_after(
    scheduler: SchedulerView,
    turns: spec_fn(nat) -> Turn,
    count: nat,
) -> bool {
    &&& at_rest(after(scheduler, turns, count))
    &&& forall|earlier: nat|
        earlier < count ==> !at_rest(#[trigger] after(scheduler, turns, earlier))
}

/// The number of turns after which the cycle is over.
pub open spec fn turns_to_rest(scheduler: SchedulerView, turns: spec_fn(nat) -> Turn) -> nat {
    choose|count: nat| rests_first_after(scheduler, turns, count)
}

proof fn lemma_first_rest_exists(scheduler: SchedulerView, turns: spec_fn(nat) -> Turn, count: nat)
    requires
        at_rest(after(scheduler, turns, count)),
    ensures
        exists|first: nat| first <= count && rests_first_after(scheduler, turns, first),
    decreases count,
{
    if exists|earlier: nat| earlier < count && at_rest(#[trigger] after(scheduler, turns, earlier)) {
        let earlier = choose|earlier: nat|
            earlier < count && at_rest(#[trigger] after(scheduler, turns, earlier));
        lemma_first_rest_exists(scheduler, turns, earlier);
        let first = choose|first: nat|
            first <= earlier && rests_first_after(scheduler, turns, first);
        assert(first <= count && rests_first_after(scheduler, turns, first));
    } else {
        assert(count <= count && rests_first_after(scheduler, turns, count));
    }
}

proof fn lemma_after_stays_consistent(
    scheduler: SchedulerView,
    turns: spec_fn(nat) -> Turn,
    count: nat,
)
    requires
        scheduler.consistent(),
    ensures
        after(scheduler, turns, count).consistent(),
        after(scheduler, turns, count).config == scheduler.config,
    decreases count,
{
    if count > 0 {
        lemma_after_stays_consistent(scheduler, turns, (count - 1) as nat);
        let before = after(scheduler, turns, (count - 1) as nat);
        let turn = turns((count - 1) as nat);
        law_settle_keeps_consistency(before, turn.outcome, turn.timestamp);
    }
}

proof fn lemma_rest_or_progress(scheduler: SchedulerView, turns: spec_fn(nat) -> Turn, count: nat)
    requires
        scheduler.consistent(),
        count <= work_left(scheduler),
    ensures
        (exists|earlier: nat| earlier <= count && at_rest(#[trigger] after(scheduler, turns, earlier)))
            || work_left(after(scheduler, turns, count)) + count <= work_left(scheduler),
    decreases count,
{
    if count > 0 {
        let previous = (count - 1) as nat;
        lemma_rest_or_progress(scheduler, turns, previous);
        lemma_after_stays_consistent(scheduler, turns, previous);
        let before = after(scheduler, turns, previous);
        if at_rest(before) {
            assert(previous <= count && at_rest(after(scheduler, turns, previous)));
        } else if exists|earlier: nat|
            earlier <= previous && at_rest(#[trigger] after(scheduler, turns, earlier)) {
            let earlier = choose|earlier: nat|
                earlier <= previous && at_rest(#[trigger] after(scheduler, turns, earlier));
            assert(earlier <= count && at_rest(after(scheduler, turns, earlier)));
        } else {
            law_every_action_makes_progress(before, turns(previous));
        }
    }
}

/// A cycle always comes to its end. From any stage, and however each action
/// goes, the scheduler asks for no more actions than [`work_left`] counts
/// before it sleeps or halts; with jobs failing at any step, in any number,
/// it is the same bound.
pub proof fn law_cycle_comes_to_rest(scheduler: SchedulerView, turns: spec_fn(nat) -> Turn)
    requires
        scheduler.consistent(),
    ensures
        turns_to_rest(scheduler, turns) <= work_left(scheduler),
        rests_first_after(scheduler, turns, turns_to_rest(scheduler, turns)),
{
    let bound = work_left(scheduler);
    lemma_rest_or_progress(scheduler, turns, bound);
    if !exists|earlier: nat|
        earlier <= bound && at_rest(#[trigger] after(scheduler, turns, earlier)) {
        lemma_after_stays_consistent(scheduler, turns, bound);
        let last = after(scheduler, turns, bound);
        assert(work_left(last) == 0);
        assert(at_rest(last)) by {
            if let StageView::Running { step, cursor, .. } = last.stage {
                assert(cursor < last.config.databases.len());
                assert(5 * (last.config.databases.len() - cursor) + 1 - step_rank(step) > 0);
            }
        }
        assert(bound <= bound && at_rest(after(scheduler, turns, bound)));
    }
    let some = choose|count: nat|
        count <= bound && at_rest(#[trigger] after(scheduler, turns, count));
    lemma_first_rest_exists(scheduler, turns, some);
    let first = choose|first: nat| first <= some && rests_first_after(scheduler, turns, first);
    let chosen = turns_to_rest(scheduler, turns);
    assert(rests_first_after(scheduler, turns, chosen));
    if chosen > first {
        assert(!at_rest(after(scheduler, turns, first)));
    }
}

/// Whether the working directories are there and the jobs have their turns,
/// or have had them.
pub open spec fn past_the_directories(scheduler: SchedulerView) -> bool {
    scheduler.stage is Running || scheduler.stage is Clearing || scheduler.stage is Sleeping
}

/// Only a working directory that cannot be made halts the scheduler. No
/// failure of a job, at whatever step, does.
pub proof fn law_only_missing_directories_halt(
    scheduler: SchedulerView,
    outcome: OutcomeView,
    timestamp: Seq<char>,
)
    requires
        scheduler.settle(outcome, timestamp).0 is Halted,
    ensures
        scheduler.stage is Halted || ((scheduler.stage is EnsuringBackups
            || scheduler.stage is EnsuringScratch) && outcome is Failed),
{
    lemma_settle_lands(scheduler, outcome, timestamp);
}

proof fn lemma_jobs_never_halt(scheduler: SchedulerView, turns: spec_fn(nat) -> Turn, count: nat)
    requires
        scheduler.stage is EnsuringBackups,
        turns(0).outcome is Completed,
        turns(1).outcome is Completed,
        count >= 2,
        forall|earlier: nat|
            earlier < count ==> !at_rest(#[trigger] after(scheduler, turns, earlier)),
    ensures
        past_the_directories(after(scheduler, turns, count)),
    decreases count,
{
    let before = after(scheduler, turns, (count - 1) as nat);
    let turn = turns((count - 1) as nat);
    assert(!at_rest(before));
    if count == 2 {
        assert(after(scheduler, turns, 1) == advance(after(scheduler, turns, 0), turns(0)));
    } else {
        lemma_jobs_never_halt(scheduler, turns, (count - 1) as nat);
    }
    lemma_settle_lands(before, turn.outcome, turn.timestamp);
}

/// A cycle whose working directories could be made ends asleep, for the
/// configured number of hours to the second, however many of its jobs
/// failed and wherever they did.
pub proof fn law_cycle_ends_in_sleep(scheduler: SchedulerView, turns: spec_fn(nat) -> Turn)
    requires
        scheduler.consistent(),
        scheduler.stage is EnsuringBackups,
        turns(0).outcome is Completed,
        turns(1).outcome is Completed,
    ensures
        2 <= turns_to_rest(scheduler, turns) <= 5 * scheduler.config.databases.len() + 3,
        after(scheduler, turns, turns_to_rest(scheduler, turns)).stage is Sleeping,
        after(scheduler, turns, turns_to_rest(scheduler, turns)).pending() == ActionView::Sleep(
            (scheduler.config.backup_interval * SECONDS_PER_HOUR) as u64,
        ),
{
    let count = turns_to_rest(scheduler, turns);
    law_cycle_comes_to_rest(scheduler, turns);
    assert(after(scheduler, turns, 1) == advance(after(scheduler, turns, 0), turns(0)));
    if count >= 2 {
        lemma_jobs_never_halt(scheduler, turns, count);
    }
    lemma_after_stays_consistent(scheduler, turns, count);
}

/// Whether the job at place `place` of the listing names a host and a bucket
/// that are there.
pub open spec fn runnable(config: ConfigView, place: nat) -> bool {
    place < config.databases.len() && resolved(config.databases[place as int].1, config) is Ok
}

/// Whether the run of the job at `place` is starting: its export is the
/// pending action.
pub open spec fn exporting(scheduler: SchedulerView, place: nat) -> bool {
    scheduler.stage is Running && scheduler.stage->step == Step::Exporting
        && scheduler.stage->cursor == place
}

/// The search for the next job passes over no job that could run.
pub proof fn lemma_seek_passes_no_runnable_job(
    config: ConfigView,
    from: nat,
    timestamp: Seq<char>,
    place: nat,
)
    requires
        from <= place,
        runnable(config, place),
    ensures
        seek(config, from, timestamp).0 is Running,
        seek(config, from, timestamp).0->cursor <= place,
    decreases config.databases.len() - from,
{
    let (name, job) = config.databases[from as int];
    if launched(name, job, config, timestamp) is Err {
        lemma_seek_passes_no_runnable_job(config, from + 1, timestamp, place);
    }
}

/// The turns that are left when the first has been taken.
pub open spec fn rest_of(turns: spec_fn(nat) -> Turn) -> spec_fn(nat) -> Turn {
    |index: nat| turns(index + 1)
}

proof fn lemma_first_turn_apart(scheduler: SchedulerView, turns: spec_fn(nat) -> Turn, count: nat)
    ensures
        after(advance(scheduler, turns(0)), rest_of(turns), count) == after(
            scheduler,
            turns,
            count + 1,
        ),
    decreases count,
{
    if count > 0 {
        lemma_first_turn_apart(scheduler, turns, (count - 1) as nat);
        assert(rest_of(turns)((count - 1) as nat) == turns(count));
    } else {
        assert(after(scheduler, turns, 1) == advance(after(scheduler, turns, 0), turns(0)));
    }
}

/// Whether, after `count` of `turns`, the run of the job at `place` is
/// starting and the cycle has not been over on the way.
pub open spec fn run_starts_after(
    scheduler: SchedulerView,
    turns: spec_fn(nat) -> Turn,
    place: nat,
    count: nat,
) -> bool {
    &&& exporting(after(scheduler, turns, count), place)
    &&& forall|earlier: nat|
        earlier <= count ==> !at_rest(#[trigger] after(scheduler, turns, earlier))
}

proof fn lemma_one_turn_more(
    scheduler: SchedulerView,
    turns: spec_fn(nat) -> Turn,
    place: nat,
    count: nat,
)
    requires
        !at_rest(scheduler),
        run_starts_after(advance(scheduler, turns(0)), rest_of(turns), place, count),
    ensures
        run_starts_after(scheduler, turns, place, count + 1),
{
    let next = advance(scheduler, turns(0));
    lemma_first_turn_apart(scheduler, turns, count);
    assert forall|earlier: nat| earlier <= count + 1 implies !at_rest(
        #[trigger] after(scheduler, turns, earlier),
    ) by {
        if earlier > 0 {
            lemma_first_turn_apart(scheduler, turns, (earlier - 1) as nat);
            assert(!at_rest(after(next, rest_of(turns), (earlier - 1) as nat)));
        }
    }
}

proof fn lemma_jobs_behind_get_their_turn(
    scheduler: SchedulerView,
    turns: spec_fn(nat) -> Turn,
    place: nat,
)
    requires
        scheduler.consistent(),
        scheduler.stage is Running,
        scheduler.stage->cursor < place,
        runnable(scheduler.config, place),
    ensures
        exists|count: nat| #[trigger] run_starts_after(scheduler, turns, place, count),
    decreases work_left(scheduler),
{
    let turn = turns(0);
    let next = advance(scheduler, turn);
    let cursor = scheduler.stage->cursor;
    law_settle_keeps_consistency(scheduler, turn.outcome, turn.timestamp);
    law_every_action_makes_progress(scheduler, turn);
    lemma_settle_lands(scheduler, turn.outcome, turn.timestamp);
    if step_after(scheduler.stage->step, turn.outcome) is None {
        lemma_seek_passes_no_runnable_job(scheduler.config, cursor + 1, turn.timestamp, place);
    }
    if exporting(next, place) {
        assert(run_starts_after(next, rest_of(turns), place, 0));
        lemma_one_turn_more(scheduler, turns, place, 0);
    } else {
        lemma_jobs_behind_get_their_turn(next, rest_of(turns), place);
        let count = choose|count: nat| run_starts_after(next, rest_of(turns), place, count);
        lemma_one_turn_more(scheduler, turns, place, count);
    }
}

/// Every job that can run does run, in every cycle. Once the two working
/// directories are there, the export of each job whose host and bucket
/// exist becomes the pending action before the cycle is over, however the
/// jobs before it went: that they were passed over, failed at whatever
/// step, or went through.
pub proof fn law_every_job_gets_its_turn(
    scheduler: SchedulerView,
    turns: spec_fn(nat) -> Turn,
    place: nat,
)
    requires
        scheduler.consistent(),
        scheduler.stage is EnsuringBackups,
        turns(0).outcome is Completed,
        turns(1).outcome is Completed,
        runnable(scheduler.config, place),
    ensures
        exists|count: nat|
            count < turns_to_rest(scheduler, turns) && exporting(
                #[trigger] after(scheduler, turns, count),
                place,
            ),
{
    let second = advance(scheduler, turns(0));
    let third = advance(second, turns(1));
    let behind = rest_of(rest_of(turns));
    assert(rest_of(turns)(0) == turns(1));
    law_settle_keeps_consistency(scheduler, turns(0).outcome, turns(0).timestamp);
    law_settle_keeps_consistency(second, turns(1).outcome, turns(1).timestamp);
    lemma_seek_passes_no_runnable_job(scheduler.config, 0, turns(1).timestamp, place);
    lemma_settle_lands(second, turns(1).outcome, turns(1).timestamp);
    let count: nat = if exporting(third, place) {
        assert(run_starts_after(third, behind, place, 0));
        0
    } else {
        lemma_jobs_behind_get_their_turn(third, behind, place);
        choose|count: nat| run_starts_after(third, behind, place, count)
    };
    lemma_one_turn_more(second, rest_of(turns), place, count);
    lemma_one_turn_more(scheduler, turns, place, count + 1);
    let reached = count + 2;
    assert(run_starts_after(scheduler, turns, place, reached));
    law_cycle_comes_to_rest(scheduler, turns);
    let rest = turns_to_rest(scheduler, turns);
    if rest <= reached {
        assert(!at_rest(after(scheduler, turns, rest)));
    }
    assert(reached < rest && exporting(after(scheduler, turns, reached), place));
}

/// The clock matters only where a run starts: a step that starts none
/// leads to the same stage and the same words whatever the time.
pub proof fn law_time_matters_only_at_a_start(
    scheduler: SchedulerView,
    outcome: OutcomeView,
    timestamp: Seq<char>,
    other: Seq<char>,
)
    requires
        !scheduler.starts_run(outcome, timestamp),
    ensures
        scheduler.settle(outcome, other) == scheduler.settle(outcome, timestamp),
{
    lemma_settle_lands(scheduler, outcome, timestamp);
    if let Some(from) = scheduler.search_from(outcome) {
        lemma_seek_without_run(scheduler.config, from, timestamp, other);
    }
}

/// No run starts before both working directories are there: the first run
/// of a cycle follows the scratch directory, and every later one follows
/// the end of a run.
pub proof fn law_runs_wait_for_the_directories(
    scheduler: SchedulerView,
    outcome: OutcomeView,
    timestamp: Seq<char>,
)
    requires
        scheduler.settle(outcome, timestamp).0 is Running,
        !(scheduler.stage is Running),
    ensures
        scheduler.stage is EnsuringScratch,
        scheduler.pending() == ActionView::EnsureDirectory("./tmp"@),
        outcome is Completed,
{
}

/// After the pause the next cycle starts where the first one did, with the
/// directory for archives.
pub proof fn law_pause_leads_to_the_next_cycle(
    scheduler: SchedulerView,
    outcome: OutcomeView,
    timestamp: Seq<char>,
)
    requires
        scheduler.stage is Sleeping,
    ensures
        scheduler.settle(outcome, timestamp) == (
            StageView::EnsuringBackups,
            Seq::<NoticeView>::empty(),
        ),
        advance(scheduler, Turn { outcome, timestamp }).pending() == ActionView::EnsureDirectory(
            "./backups"@,
        ),
{
}

/// Nothing under the directory for archives is ever asked to go. The only
/// directory that is removed is the scratch directory, and the only file
/// is the dump file of the job that is running, which lies in it.
pub proof fn law_only_scratch_is_ever_removed(scheduler: SchedulerView)
    ensures
        match scheduler.pending() {
            ActionView::RemoveDirectory(path) => path == scratch_directory(),
            ActionView::RemoveFile(path) => {
                &&& scheduler.stage is Running
                &&& path == scratch_directory() + "/"@ + scheduler.stage->flight.job.db_name
                    + ".sql"@
            },
            _ => true,
        },
{
}

/// A start time is written in digits, hyphens, an underscore and at most
/// one plus sign: nothing in it can end a file name or start a directory.
pub proof fn law_start_time_is_plain(text: Seq<char>)
    requires
        is_start_time(text),
    ensures
        forall|i: int|
            0 <= i < text.len() ==> {
                let c = #[trigger] text[i];
                is_digit(c) || c == '-' || c == '_' || c == '+'
            },
        !text.contains('/'),
        !text.contains('.'),
{
    let end = text.len() as int;
    let year = text.subrange(0, end - 15);
    assert forall|i: int| 0 <= i < text.len() implies ({
        let c = #[trigger] text[i];
        is_digit(c) || c == '-' || c == '_' || c == '+'
    }) by {
        if i < end - 15 {
            assert(year[i] == text[i]);
            if year.len() != 4 && i > 0 {
                let digits = year.subrange(1, year.len() as int);
                assert(all_digits(digits));
                assert(digits[i - 1] == text[i]);
            }
        }
    }
}

/// Under the system clock every run carries a start time of the full
/// shape, so its archive is named `{job}_{host}_{start time}.tar.gz` with a
/// year, month, day, hour, minute and second in it.
pub proof fn law_system_clock_stamps_every_run(
    scheduler: SchedulerView,
    outcome: OutcomeView,
    timestamp: Seq<char>,
)
    requires
        scheduler.starts_run(outcome, timestamp),
        Clock::System.may_show(timestamp),
    ensures
        scheduler.settle(outcome, timestamp).0 is Running,
        is_start_time(scheduler.settle(outcome, timestamp).0->flight.timestamp),
        scheduler.settle(outcome, timestamp).0->flight.file() == archive_file(
            scheduler.settle(outcome, timestamp).0->flight.name,
            scheduler.settle(outcome, timestamp).0->flight.host.db_host,
            timestamp,
        ),
{
    lemma_settle_lands(scheduler, outcome, timestamp);
}

} // verus!
