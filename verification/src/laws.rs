//! What holds of a service over several calls.
//!
//! Each law is stated over the views of the types and the spec functions
//! that the contracts of the exec functions use, so it holds of every run
//! that goes through those functions.

use crate::census::{CensusView, ElectionStatus};
use crate::config::RuntimeConfigView;
use crate::gossip::{temp_path, FsRequestView, GossipWriteView, WriteStage, WriteStep};
use crate::reconfigure::{after_step, ReconfigureStep, StepOutcomeView};
use crate::restart::display_for;
use crate::service::ServiceView;
use vstd::prelude::*;

verus! {

//
// Restarts
//

/// The service after it was asked to restart once on each snapshot in turn.
pub open spec fn after_restarts(
    service: ServiceView,
    snapshots: Seq<Map<Seq<char>, CensusView>>,
) -> ServiceView
    decreases snapshots.len(),
{
    if snapshots.len() == 0 {
        service
    } else {
        after_restarts(service.after_restart(snapshots[0]), snapshots.drop_first())
    }
}

/// How many of those requests carried a line to log.
pub open spec fn restart_notices(
    service: ServiceView,
    snapshots: Seq<Map<Seq<char>, CensusView>>,
) -> nat
    decreases snapshots.len(),
{
    if snapshots.len() == 0 {
        0
    } else {
        let logged: nat = if service.restart_decision(snapshots[0]).notice is Some {
            1
        } else {
            0
        };
        logged + restart_notices(service.after_restart(snapshots[0]), snapshots.drop_first())
    }
}

/// How many of those requests restarted the process.
pub open spec fn restarts_issued(
    service: ServiceView,
    snapshots: Seq<Map<Seq<char>, CensusView>>,
) -> nat
    decreases snapshots.len(),
{
    if snapshots.len() == 0 {
        0
    } else {
        let issued: nat = if service.restart_decision(snapshots[0]).restart_process {
            1
        } else {
            0
        };
        issued + restarts_issued(service.after_restart(snapshots[0]), snapshots.drop_first())
    }
}

/// Every snapshot holds the service's group, in the given condition.
pub open spec fn all_report(
    service: ServiceView,
    snapshots: Seq<Map<Seq<char>, CensusView>>,
    status: ElectionStatus,
) -> bool {
    forall|i: int|
        0 <= i < snapshots.len() ==> {
            &&& (#[trigger] snapshots[i]).contains_key(service.service_group.key())
            &&& snapshots[i][service.service_group.key()].status() == status
        }
}

/// A restart that is issued leaves no restart asked for, under every
/// topology and on every snapshot.
pub proof fn law_issued_restart_clears_flag(
    service: ServiceView,
    snapshot: Map<Seq<char>, CensusView>,
)
    ensures
        service.restart_decision(snapshot).restart_process ==> !service.after_restart(
            snapshot,
        ).needs_restart,
        !service.restart_decision(snapshot).restart_process ==> service.after_restart(
            snapshot,
        ).needs_restart == service.needs_restart,
{
}

/// Once a condition is on record, further requests in that condition log
/// nothing.
proof fn lemma_same_condition_is_silent(
    service: ServiceView,
    snapshots: Seq<Map<Seq<char>, CensusView>>,
    status: ElectionStatus,
)
    requires
        service.topology.is_coordinated(),
        all_report(service, snapshots, status),
        status == ElectionStatus::Idle || service.last_restart_display == display_for(status),
    ensures
        restart_notices(service, snapshots) == 0,
    decreases snapshots.len(),
{
    if snapshots.len() > 0 {
        let first = snapshots[0];
        assert(first.contains_key(service.service_group.key()));
        let next = service.after_restart(first);
        let rest = snapshots.drop_first();
        assert forall|i: int| 0 <= i < rest.len() implies {
            &&& (#[trigger] rest[i]).contains_key(next.service_group.key())
            &&& rest[i][next.service_group.key()].status() == status
        } by {
            assert(rest[i] == snapshots[i + 1]);
        }
        lemma_same_condition_is_silent(next, rest, status);
    }
}

/// While the snapshots report the group in one and the same condition, a
/// service that waits for elections logs at most one line, however often it
/// is asked to restart.
pub proof fn law_one_notice_per_condition(
    service: ServiceView,
    snapshots: Seq<Map<Seq<char>, CensusView>>,
    status: ElectionStatus,
)
    requires
        service.topology.is_coordinated(),
        all_report(service, snapshots, status),
    ensures
        restart_notices(service, snapshots) <= 1,
{
    if snapshots.len() > 0 {
        let first = snapshots[0];
        assert(first.contains_key(service.service_group.key()));
        let next = service.after_restart(first);
        let rest = snapshots.drop_first();
        assert forall|i: int| 0 <= i < rest.len() implies {
            &&& (#[trigger] rest[i]).contains_key(next.service_group.key())
            &&& rest[i][next.service_group.key()].status() == status
        } by {
            assert(rest[i] == snapshots[i + 1]);
        }
        lemma_same_condition_is_silent(next, rest, status);
    }
}

/// While the election is running or without a quorum, no request restarts
/// the process.
pub proof fn law_no_restart_during_election(
    service: ServiceView,
    snapshots: Seq<Map<Seq<char>, CensusView>>,
    status: ElectionStatus,
)
    requires
        service.topology.is_coordinated(),
        all_report(service, snapshots, status),
        status != ElectionStatus::Finished,
    ensures
        restarts_issued(service, snapshots) == 0,
        after_restarts(service, snapshots).needs_restart == service.needs_restart,
    decreases snapshots.len(),
{
    if snapshots.len() > 0 {
        let first = snapshots[0];
        assert(first.contains_key(service.service_group.key()));
        let next = service.after_restart(first);
        let rest = snapshots.drop_first();
        assert forall|i: int| 0 <= i < rest.len() implies {
            &&& (#[trigger] rest[i]).contains_key(next.service_group.key())
            &&& rest[i][next.service_group.key()].status() == status
        } by {
            assert(rest[i] == snapshots[i + 1]);
        }
        law_no_restart_during_election(next, rest, status);
    }
}

/// Once the election has finished, every request restarts the process,
/// whatever was last reported: only the logging is held back.
pub proof fn law_finished_election_always_restarts(
    service: ServiceView,
    snapshots: Seq<Map<Seq<char>, CensusView>>,
)
    requires
        service.topology.is_coordinated(),
        all_report(service, snapshots, ElectionStatus::Finished),
    ensures
        restarts_issued(service, snapshots) == snapshots.len(),
    decreases snapshots.len(),
{
    if snapshots.len() > 0 {
        let first = snapshots[0];
        assert(first.contains_key(service.service_group.key()));
        let next = service.after_restart(first);
        let rest = snapshots.drop_first();
        assert forall|i: int| 0 <= i < rest.len() implies {
            &&& (#[trigger] rest[i]).contains_key(next.service_group.key())
            &&& rest[i][next.service_group.key()].status() == ElectionStatus::Finished
        } by {
            assert(rest[i] == snapshots[i + 1]);
        }
        law_finished_election_always_restarts(next, rest);
    }
}

/// A standalone service restarts on every request and never logs a reason,
/// whatever the snapshots hold.
pub proof fn law_standalone_always_restarts(
    service: ServiceView,
    snapshots: Seq<Map<Seq<char>, CensusView>>,
)
    requires
        !service.topology.is_coordinated(),
    ensures
        restarts_issued(service, snapshots) == snapshots.len(),
        restart_notices(service, snapshots) == 0,
        snapshots.len() > 0 ==> !after_restarts(service, snapshots).needs_restart,
    decreases snapshots.len(),
{
    if snapshots.len() > 0 {
        let next = service.after_restart(snapshots[0]);
        law_standalone_always_restarts(next, snapshots.drop_first());
    }
}

//
// What never changes back
//

/// Once a service was initialized it stays so: no request for a restart, no
/// call of `initialize` and no step of a reconfiguration resets it.
pub proof fn law_initialized_never_resets(
    service: ServiceView,
    snapshot: Map<Seq<char>, CensusView>,
    step: ReconfigureStep,
    outcome: StepOutcomeView,
)
    ensures
        service.after_restart(snapshot).initialized == service.initialized,
        service.after_reconfigure(step, outcome).initialized == service.initialized,
        service.after_initialize().initialized,
{
}

/// A restart is asked for from the moment a written configuration changed
/// to the next issued restart, and at no other time: only that step of a
/// reconfiguration sets the flag, and only an issued restart clears it.
pub proof fn law_flag_is_set_by_change_and_cleared_by_restart(
    service: ServiceView,
    snapshot: Map<Seq<char>, CensusView>,
    step: ReconfigureStep,
    outcome: StepOutcomeView,
)
    ensures
        service.after_restart(snapshot).needs_restart == (service.needs_restart
            && !service.restart_decision(snapshot).restart_process),
        service.after_initialize().needs_restart == service.needs_restart,
        service.after_reconfigure(step, outcome).needs_restart == (service.needs_restart || (step
            == ReconfigureStep::WriteConfig && outcome is Changed)),
{
}

//
// Initialization
//

/// How often the initialization hook runs over `calls` calls of `initialize`.
pub open spec fn init_hook_runs(service: ServiceView, calls: nat) -> nat
    decreases calls,
{
    if calls == 0 {
        0
    } else {
        let ran: nat = if service.runs_init_hook() {
            1
        } else {
            0
        };
        ran + init_hook_runs(service.after_initialize(), (calls - 1) as nat)
    }
}

/// The service after `calls` calls of `initialize`.
pub open spec fn after_initializations(service: ServiceView, calls: nat) -> ServiceView
    decreases calls,
{
    if calls == 0 {
        service
    } else {
        after_initializations(service.after_initialize(), (calls - 1) as nat)
    }
}

/// However often a service is initialized, the hook runs once: on the first
/// call of a service that was not initialized, and never again.
pub proof fn law_init_hook_runs_once(service: ServiceView, calls: nat)
    ensures
        init_hook_runs(service, calls) == if service.initialized || calls == 0 {
            0nat
        } else {
            1nat
        },
        after_initializations(service, calls).initialized == (service.initialized || calls > 0),
    decreases calls,
{
    if calls > 0 {
        law_init_hook_runs_once(service.after_initialize(), (calls - 1) as nat);
    }
}

//
// Reconfiguration
//

/// The place of a step in the longest reconfiguration.
pub open spec fn step_rank(step: ReconfigureStep) -> nat {
    match step {
        ReconfigureStep::BuildConfig => 0,
        ReconfigureStep::CreateServiceDirectory => 1,
        ReconfigureStep::WriteConfig => 2,
        ReconfigureStep::RunReconfigureHook => 3,
        ReconfigureStep::LoadHooks => 4,
        ReconfigureStep::CopyRun => 5,
        ReconfigureStep::CompileHooks => 6,
    }
}

/// The steps made from `step` on, where each step ends as `outcomes` says.
pub open spec fn steps_from(
    step: ReconfigureStep,
    outcomes: spec_fn(ReconfigureStep) -> StepOutcomeView,
) -> Seq<ReconfigureStep>
    decreases 7 - step_rank(step),
{
    match after_step(step, outcomes(step)).next {
        Some(next) => if step_rank(next) > step_rank(step) {
            seq![step] + steps_from(next, outcomes)
        } else {
            seq![step]
        },
        None => seq![step],
    }
}

/// The service after the steps made from `step` on.
pub open spec fn reconfigured_from(
    service: ServiceView,
    step: ReconfigureStep,
    outcomes: spec_fn(ReconfigureStep) -> StepOutcomeView,
) -> ServiceView
    decreases 7 - step_rank(step),
{
    let after = service.after_reconfigure(step, outcomes(step));
    match after_step(step, outcomes(step)).next {
        Some(next) => if step_rank(next) > step_rank(step) {
            reconfigured_from(after, next, outcomes)
        } else {
            after
        },
        None => after,
    }
}

/// A step is always followed by a later one, so that a reconfiguration ends.
pub proof fn law_reconfiguration_advances(step: ReconfigureStep, outcome: StepOutcomeView)
    ensures
        after_step(step, outcome).next matches Some(next) ==> step_rank(next) > step_rank(step),
{
}

/// The steps of a whole reconfiguration, by how rendering and writing end.
///
/// A configuration that cannot be rendered ends it at once, one that cannot
/// be written ends it after the write. Otherwise the hooks are loaded, the
/// run entry point produced and the hooks compiled, whether or not the
/// configuration changed; the reconfiguration hook runs before them where it
/// did.
pub proof fn law_reconfiguration_steps(outcomes: spec_fn(ReconfigureStep) -> StepOutcomeView)
    ensures
        steps_from(ReconfigureStep::BuildConfig, outcomes) == if outcomes(
            ReconfigureStep::BuildConfig,
        ) is Failed {
            seq![ReconfigureStep::BuildConfig]
        } else if outcomes(ReconfigureStep::WriteConfig) is Failed {
            seq![
                ReconfigureStep::BuildConfig,
                ReconfigureStep::CreateServiceDirectory,
                ReconfigureStep::WriteConfig,
            ]
        } else if outcomes(ReconfigureStep::WriteConfig) is Changed {
            seq![
                ReconfigureStep::BuildConfig,
                ReconfigureStep::CreateServiceDirectory,
                ReconfigureStep::WriteConfig,
                ReconfigureStep::RunReconfigureHook,
                ReconfigureStep::LoadHooks,
                ReconfigureStep::CopyRun,
                ReconfigureStep::CompileHooks,
            ]
        } else {
            seq![
                ReconfigureStep::BuildConfig,
                ReconfigureStep::CreateServiceDirectory,
                ReconfigureStep::WriteConfig,
                ReconfigureStep::LoadHooks,
                ReconfigureStep::CopyRun,
                ReconfigureStep::CompileHooks,
            ]
        },
{
    reveal_with_fuel(steps_from, 8);
    let steps = steps_from(ReconfigureStep::BuildConfig, outcomes);
    if outcomes(ReconfigureStep::BuildConfig) is Failed {
        assert(steps =~= seq![ReconfigureStep::BuildConfig]);
    } else if outcomes(ReconfigureStep::WriteConfig) is Failed {
        assert(steps =~= seq![
            ReconfigureStep::BuildConfig,
            ReconfigureStep::CreateServiceDirectory,
            ReconfigureStep::WriteConfig,
        ]);
    } else if outcomes(ReconfigureStep::WriteConfig) is Changed {
        assert(steps =~= seq![
            ReconfigureStep::BuildConfig,
            ReconfigureStep::CreateServiceDirectory,
            ReconfigureStep::WriteConfig,
            ReconfigureStep::RunReconfigureHook,
            ReconfigureStep::LoadHooks,
            ReconfigureStep::CopyRun,
            ReconfigureStep::CompileHooks,
        ]);
    } else {
        assert(steps =~= seq![
            ReconfigureStep::BuildConfig,
            ReconfigureStep::CreateServiceDirectory,
            ReconfigureStep::WriteConfig,
            ReconfigureStep::LoadHooks,
            ReconfigureStep::CopyRun,
            ReconfigureStep::CompileHooks,
        ]);
    }
}

/// A reconfiguration whose rendered configuration is written and changed
/// marks the service for a restart, however the reconfiguration hook and
/// every later step end. Any other reconfiguration leaves the mark as it
/// was. Nothing else of the service changes.
pub proof fn law_reconfiguration_marks_restart(
    service: ServiceView,
    outcomes: spec_fn(ReconfigureStep) -> StepOutcomeView,
)
    ensures
        reconfigured_from(service, ReconfigureStep::BuildConfig, outcomes) == (ServiceView {
            needs_restart: service.needs_restart || (!(outcomes(
                ReconfigureStep::BuildConfig,
            ) is Failed) && outcomes(ReconfigureStep::WriteConfig) is Changed),
            ..service
        }),
{
    reveal_with_fuel(reconfigured_from, 8);
}

//
// Persisting gossiped configuration
//

/// The files after a request succeeded. Files are known by their paths and
/// stand for their text; owners and permission bits are not modelled.
pub open spec fn applied(
    request: FsRequestView,
    files: Map<Seq<char>, Seq<char>>,
) -> Map<Seq<char>, Seq<char>> {
    match request {
        FsRequestView::CreateFile { path } => files.insert(path, Seq::empty()),
        FsRequestView::WriteAll { path, contents } => files.insert(path, contents),
        FsRequestView::Rename { from, to } => if files.contains_key(from) {
            files.remove(from).insert(to, files[from])
        } else {
            files
        },
        FsRequestView::SetOwner { .. } => files,
        FsRequestView::SetPermissions { .. } => files,
    }
}

/// Whether `after` can be what a failed request leaves of `before`. Creating
/// or writing a file may leave anything at that file's path and touches no
/// other; every other request that fails has changed nothing.
pub open spec fn may_leave(
    request: FsRequestView,
    before: Map<Seq<char>, Seq<char>>,
    after: Map<Seq<char>, Seq<char>>,
) -> bool {
    match request {
        FsRequestView::CreateFile { path } => forall|other: Seq<char>|
            other != path ==> #[trigger] after.get(other) == before.get(other),
        FsRequestView::WriteAll { path, .. } => forall|other: Seq<char>|
            other != path ==> #[trigger] after.get(other) == before.get(other),
        _ => after == before,
    }
}

/// How many steps an exchange has before it.
pub open spec fn steps_left(stage: WriteStage) -> nat {
    match stage {
        WriteStage::Pending(WriteStep::CreateTemp) => 5,
        WriteStage::Pending(WriteStep::WriteTemp) => 4,
        WriteStage::Pending(WriteStep::Rename) => 3,
        WriteStage::Pending(WriteStep::SetOwner) => 2,
        WriteStage::Pending(WriteStep::SetPermissions) => 1,
        _ => 0,
    }
}

/// The exchange and the files once every step from `write` on has succeeded.
pub open spec fn written(
    write: GossipWriteView,
    files: Map<Seq<char>, Seq<char>>,
) -> (GossipWriteView, Map<Seq<char>, Seq<char>>)
    decreases steps_left(write.stage),
{
    match write.stage {
        WriteStage::Pending(step) => written(
            write.advance(true),
            applied(write.request_for(step), files),
        ),
        _ => (write, files),
    }
}

/// Whether `after` can be what is left of `files` when the exchange fails at
/// `failed_at`, every step from `write` up to that one having succeeded.
pub open spec fn may_fail_leaving(
    write: GossipWriteView,
    files: Map<Seq<char>, Seq<char>>,
    failed_at: WriteStep,
    after: Map<Seq<char>, Seq<char>>,
) -> bool
    decreases steps_left(write.stage),
{
    match write.stage {
        WriteStage::Pending(step) => if step == failed_at {
            may_leave(write.request_for(step), files, after)
        } else {
            may_fail_leaving(
                write.advance(true),
                applied(write.request_for(step), files),
                failed_at,
                after,
            )
        },
        _ => false,
    }
}

/// The checksum of the file at `path`, where there is one.
pub open spec fn checksum_on_disk(
    digest: spec_fn(Seq<char>) -> Seq<char>,
    files: Map<Seq<char>, Seq<char>>,
    path: Seq<char>,
) -> Option<Seq<char>> {
    if files.contains_key(path) {
        Some(digest(files[path]))
    } else {
        None
    }
}

/// The temporary file is never the configuration itself.
pub proof fn law_temp_file_is_apart(path: Seq<char>)
    ensures
        temp_path(path) != path,
{
    reveal_strlit(".write");
    assert(temp_path(path).len() == path.len() + 6);
}

/// No step but a successful rename changes the configuration on disk.
pub proof fn law_only_rename_replaces(
    write: GossipWriteView,
    step: WriteStep,
    ok: bool,
    before: Map<Seq<char>, Seq<char>>,
    after: Map<Seq<char>, Seq<char>>,
)
    requires
        write.stage == WriteStage::Pending(step),
        if ok {
            after == applied(write.request_for(step), before)
        } else {
            may_leave(write.request_for(step), before, after)
        },
        !(ok && step == WriteStep::Rename),
    ensures
        after.get(write.path) == before.get(write.path),
{
    law_temp_file_is_apart(write.path);
}

/// An exchange that fails before the rename has succeeded leaves the
/// configuration on disk as it found it, and reports no change.
pub proof fn law_failure_keeps_configuration(
    path: Seq<char>,
    config: Seq<char>,
    on_disk: Option<Seq<char>>,
    checksum: Seq<char>,
    owner: RuntimeConfigView,
    files: Map<Seq<char>, Seq<char>>,
    failed_at: WriteStep,
    after: Map<Seq<char>, Seq<char>>,
)
    requires
        failed_at == WriteStep::CreateTemp || failed_at == WriteStep::WriteTemp || failed_at
            == WriteStep::Rename,
        may_fail_leaving(
            GossipWriteView::begin(path, config, on_disk, checksum, owner),
            files,
            failed_at,
            after,
        ),
    ensures
        after.get(path) == files.get(path),
{
    law_temp_file_is_apart(path);
    reveal_with_fuel(may_fail_leaving, 4);
}

/// An exchange that fails after the rename leaves the whole new
/// configuration on disk. With the law before, a reader of the file finds
/// the old text or the new one, whichever step fails, and never a part.
pub proof fn law_late_failure_leaves_new_configuration(
    path: Seq<char>,
    config: Seq<char>,
    on_disk: Option<Seq<char>>,
    checksum: Seq<char>,
    owner: RuntimeConfigView,
    files: Map<Seq<char>, Seq<char>>,
    failed_at: WriteStep,
    after: Map<Seq<char>, Seq<char>>,
)
    requires
        failed_at == WriteStep::SetOwner || failed_at == WriteStep::SetPermissions,
        may_fail_leaving(
            GossipWriteView::begin(path, config, on_disk, checksum, owner),
            files,
            failed_at,
            after,
        ),
    ensures
        after.get(path) == Some(config),
{
    law_temp_file_is_apart(path);
    reveal_with_fuel(may_fail_leaving, 6);
}

/// A failed step ends the exchange without a change to report, whichever
/// step it is.
pub proof fn law_failed_step_reports_no_change(write: GossipWriteView, step: WriteStep)
    requires
        write.stage == WriteStage::Pending(step),
    ensures
        write.advance(false).result() == Some(false),
        write.advance(false).request() is None,
        write.advance(false).advance(true) == write.advance(false),
{
}

/// Writing the same configuration twice replaces the file the first time
/// and changes nothing the second time.
///
/// `digest` is the checksum that the host computes. The first exchange
/// starts on any files whose configuration does not already have the
/// checksum of `config`, and all its steps succeed.
pub proof fn law_second_write_changes_nothing(
    path: Seq<char>,
    config: Seq<char>,
    owner: RuntimeConfigView,
    digest: spec_fn(Seq<char>) -> Seq<char>,
    files: Map<Seq<char>, Seq<char>>,
)
    requires
        GossipWriteView::begin(
            path,
            config,
            checksum_on_disk(digest, files, path),
            digest(config),
            owner,
        ).stage is Pending,
    ensures
        ({
            let first = GossipWriteView::begin(
                path,
                config,
                checksum_on_disk(digest, files, path),
                digest(config),
                owner,
            );
            let (done, after) = written(first, files);
            let second = GossipWriteView::begin(
                path,
                config,
                checksum_on_disk(digest, after, path),
                digest(config),
                owner,
            );
            &&& done.result() == Some(true)
            &&& after.get(path) == Some(config)
            &&& second.result() == Some(false)
        }),
{
    law_temp_file_is_apart(path);
    reveal_with_fuel(written, 6);
}

} // verus!
