use vstd::prelude::*;

use crate::api_enquirer::{BuildStatus, EnquirerError, StatusReport};
use crate::settings::ProjectSettings;
use crate::signal::{Signal, SignalError};

verus! {

/// How one assembled report realises one project's resolution outcome: a
/// successful resolution is taken as it is; a failed one is substituted by an
/// `Unknown` report for the project's own pin.
pub open spec fn report_for_project(
    project: ProjectSettings,
    outcome: Result<StatusReport, EnquirerError>,
    report: StatusReport,
) -> bool {
    match outcome {
        Result::Ok(rep) => report == rep,
        Result::Err(_) => report.pin_id@ == project.pin_id@ && report.status
            == BuildStatus::Unknown,
    }
}

/// How a whole snapshot realises a cycle's resolution outcomes: one report
/// per configured project, in configured order, each realising its own
/// project's outcome.
pub open spec fn snapshot_matches(
    projects: Seq<ProjectSettings>,
    outcomes: Seq<Result<StatusReport, EnquirerError>>,
    snapshot: Seq<StatusReport>,
) -> bool {
    &&& snapshot.len() == projects.len()
    &&& forall|i: int|
        0 <= i < projects.len() ==> #[trigger] report_for_project(
            projects[i],
            outcomes[i],
            snapshot[i],
        )
}

/// One acquisition cycle's assembly step: turns the per-project resolution
/// outcomes, one per configured project in configured order, into the full
/// snapshot.  A project whose resolution failed is represented by an
/// `Unknown` report for its pin, never omitted, so one project's failure
/// cannot keep a sibling's report out of the snapshot.
pub fn assemble_snapshot(
    projects: &Vec<ProjectSettings>,
    outcomes: Vec<Result<StatusReport, EnquirerError>>,
) -> (r: Vec<StatusReport>)
    requires
        outcomes@.len() == projects@.len(),
    ensures
        r@.len() == projects@.len(),
        snapshot_matches(projects@, outcomes@, r@),
{
    let ghost all = outcomes@;
    let mut rest = outcomes;
    let mut reports: Vec<StatusReport> = Vec::new();
    while rest.len() > 0
        invariant
            all.len() == projects@.len(),
            reports@.len() + rest@.len() == all.len(),
            rest@ == all.subrange(reports@.len() as int, all.len() as int),
            forall|j: int|
                0 <= j < reports@.len() ==> #[trigger] report_for_project(
                    projects@[j],
                    all[j],
                    reports@[j],
                ),
        decreases rest@.len(),
    {
        let ghost done = reports@.len() as int;
        let idx = reports.len();
        let outcome = rest.remove(0);
        proof {
            assert(all[done] == outcome);
            assert(rest@ =~= all.subrange(done + 1, all.len() as int));
        }
        match outcome {
            Result::Ok(rep) => reports.push(rep),
            Result::Err(_) => reports.push(
                StatusReport { pin_id: projects[idx].pin_id.clone(), status: BuildStatus::Unknown },
            ),
        }
    }
    reports
}

/// Law: partial-failure isolation.  A report of an assembled snapshot is
/// fixed by its own project's outcome alone: however the other projects'
/// outcomes differ between two cycles, a project whose own outcome is the
/// same gets the same pin and status in both snapshots.
pub proof fn lemma_failure_isolation(
    projects: Seq<ProjectSettings>,
    outcomes1: Seq<Result<StatusReport, EnquirerError>>,
    outcomes2: Seq<Result<StatusReport, EnquirerError>>,
    snapshot1: Seq<StatusReport>,
    snapshot2: Seq<StatusReport>,
    i: int,
)
    requires
        snapshot_matches(projects, outcomes1, snapshot1),
        snapshot_matches(projects, outcomes2, snapshot2),
        0 <= i < projects.len(),
        outcomes1[i] == outcomes2[i],
    ensures
        snapshot1[i].pin_id@ == snapshot2[i].pin_id@,
        snapshot1[i].status == snapshot2[i].status,
{
    assert(report_for_project(projects[i], outcomes1[i], snapshot1[i]));
    assert(report_for_project(projects[i], outcomes2[i], snapshot2[i]));
}

/// Signals every report of `snapshot` to the sink, in order, collecting each
/// call's outcome.  A failure from one call never keeps a later report from
/// being signalled: every report gets exactly one call and one entry.
pub fn signal_all<S: Signal>(sink: &S, snapshot: &Vec<StatusReport>) -> (outcomes: Vec<
    Result<(), SignalError>,
>)
    ensures
        outcomes@.len() == snapshot@.len(),
{
    let mut outcomes: Vec<Result<(), SignalError>> = Vec::new();
    let mut i: usize = 0;
    while i < snapshot.len()
        invariant
            i <= snapshot@.len(),
            outcomes@.len() == i,
        decreases snapshot@.len() - i,
    {
        outcomes.push(sink.signal_for_pin(&snapshot[i]));
        i = i + 1;
    }
    outcomes
}

/// One dispatch cycle.  A newly arrived snapshot replaces the retained one;
/// with none arrived the previously retained snapshot, if any, is reused
/// unchanged.  Every report of the resulting snapshot is then signalled to
/// the sink, one call per report in order, and the call outcomes come back
/// beside the snapshot now retained.  With no snapshot ever received the
/// cycle makes no signal call at all and returns no outcome.
pub fn dispatch_cycle<S: Signal>(
    sink: &S,
    retained: Option<Vec<StatusReport>>,
    incoming: Option<Vec<StatusReport>>,
) -> (r: (Option<Vec<StatusReport>>, Vec<Result<(), SignalError>>))
    ensures
        match incoming {
            Option::Some(_) => r.0 == incoming,
            Option::None => r.0 == retained,
        },
        match r.0 {
            Option::Some(c) => r.1@.len() == c@.len(),
            Option::None => r.1@.len() == 0,
        },
        retained is None && incoming is None ==> r.0 is None && r.1@.len() == 0,
{
    let current = match incoming {
        Option::Some(v) => Some(v),
        Option::None => retained,
    };
    let outcomes = match &current {
        Option::Some(snapshot) => signal_all(sink, snapshot),
        Option::None => Vec::new(),
    };
    (current, outcomes)
}

} // verus!
