//! The controller of one supervised service.
//!
//! A `Service` holds what the supervisor knows of one service between ticks:
//! whether it must be restarted, whether it was initialized, what was last
//! said about a restart, and which process runs it. Its methods decide; the
//! host carries the decisions out and reports back.

use crate::census::{CensusList, CensusView, ElectionStatus};
use crate::config::{RuntimeConfig, RuntimeConfigView, Topology, UpdateStrategy};
use crate::gossip::{GossipWrite, GossipWriteView};
use crate::group::{ServiceGroup, ServiceGroupView};
use crate::output::{Notice, NoticeView};
use crate::reconfigure::{
    after_step,
    ReconfigureAction,
    ReconfigureStep,
    StepOutcome,
    StepOutcomeView,
};
use crate::restart::{
    decide_restart,
    leader_is_known,
    restart_policy,
    LastRestartDisplay,
    RestartDecision,
    RestartDecisionView,
};
use crate::views::option_view;
use vstd::prelude::*;

verus! {

/// What is on record of the process supervisor that runs the service.
#[derive(Debug, PartialEq, Eq)]
pub struct Supervisor {
    /// The process that the supervisor tracks, if any.
    pub pid: Option<u32>,
    /// The identity that the process runs under.
    pub runtime_config: RuntimeConfig,
}

/// What a `Supervisor` stands for.
pub struct SupervisorView {
    pub pid: Option<u32>,
    pub runtime_config: RuntimeConfigView,
}

impl View for Supervisor {
    type V = SupervisorView;

    open spec fn view(&self) -> SupervisorView {
        SupervisorView { pid: self.pid, runtime_config: self.runtime_config@ }
    }
}

/// What a request for a signal comes to.
#[derive(Debug, PartialEq, Eq)]
pub struct SignalDecision {
    /// The process to deliver the signal to; `None` where none is tracked.
    pub pid: Option<u32>,
    pub signal: u32,
    /// The line to log where there is no process.
    pub notice: Option<Notice>,
}

/// What a `SignalDecision` stands for.
pub struct SignalDecisionView {
    pub pid: Option<u32>,
    pub signal: u32,
    pub notice: Option<NoticeView>,
}

impl View for SignalDecision {
    type V = SignalDecisionView;

    open spec fn view(&self) -> SignalDecisionView {
        SignalDecisionView {
            pid: self.pid,
            signal: self.signal,
            notice: option_view(self.notice),
        }
    }
}

/// One supervised service.
#[derive(Debug, PartialEq, Eq)]
pub struct Service {
    needs_restart: bool,
    package: String,
    service_config_incarnation: Option<u64>,
    service_group: ServiceGroup,
    update_strategy: UpdateStrategy,
    initialized: bool,
    last_restart_display: LastRestartDisplay,
    supervisor: Supervisor,
    topology: Topology,
}

/// What a `Service` stands for.
pub struct ServiceView {
    /// Set when a reconfiguration changed what is on disk; cleared when a
    /// restart is issued.
    pub needs_restart: bool,
    /// The identifier of the package that the service runs.
    pub package: Seq<char>,
    /// The generation of the configuration last applied.
    pub service_config_incarnation: Option<u64>,
    pub service_group: ServiceGroupView,
    pub update_strategy: UpdateStrategy,
    /// Whether the initialization hook was given its one run.
    pub initialized: bool,
    /// What was last said about a restart.
    pub last_restart_display: LastRestartDisplay,
    pub supervisor: SupervisorView,
    pub topology: Topology,
}

impl View for Service {
    type V = ServiceView;

    closed spec fn view(&self) -> ServiceView {
        ServiceView {
            needs_restart: self.needs_restart,
            package: self.package@,
            service_config_incarnation: self.service_config_incarnation,
            service_group: self.service_group@,
            update_strategy: self.update_strategy,
            initialized: self.initialized,
            last_restart_display: self.last_restart_display,
            supervisor: self.supervisor@,
            topology: self.topology,
        }
    }
}

impl ServiceView {
    /// The census of the service's own group in a snapshot.
    pub open spec fn census(self, snapshot: Map<Seq<char>, CensusView>) -> Option<CensusView> {
        snapshot.get(self.service_group.key())
    }

    /// Whether a request for a restart can be decided on this snapshot: a
    /// finished election that names no leader cannot.
    pub open spec fn can_decide_restart(self, snapshot: Map<Seq<char>, CensusView>) -> bool {
        leader_is_known(self.topology, self.census(snapshot))
    }

    /// What a request for a restart comes to on this snapshot.
    pub open spec fn restart_decision(
        self,
        snapshot: Map<Seq<char>, CensusView>,
    ) -> RestartDecisionView {
        restart_policy(self.topology, self.last_restart_display, self.census(snapshot))
    }

    /// The service after a request for a restart: the reason is on record,
    /// and an issued restart has cleared the flag that asked for it.
    pub open spec fn after_restart(self, snapshot: Map<Seq<char>, CensusView>) -> ServiceView {
        let decision = self.restart_decision(snapshot);
        ServiceView {
            needs_restart: self.needs_restart && !decision.restart_process,
            last_restart_display: decision.display,
            ..self
        }
    }

    /// Whether a call of `initialize` runs the hook.
    pub open spec fn runs_init_hook(self) -> bool {
        !self.initialized
    }

    /// The service after a call of `initialize`.
    pub open spec fn after_initialize(self) -> ServiceView {
        ServiceView { initialized: true, ..self }
    }

    /// The service after one step of a reconfiguration ended with `outcome`.
    pub open spec fn after_reconfigure(
        self,
        step: ReconfigureStep,
        outcome: StepOutcomeView,
    ) -> ServiceView {
        ServiceView {
            needs_restart: self.needs_restart || after_step(step, outcome).needs_restart,
            ..self
        }
    }

    /// What a request for a signal comes to.
    pub open spec fn signal_decision(self, signal: u32) -> SignalDecisionView {
        SignalDecisionView {
            pid: self.supervisor.pid,
            signal,
            notice: if self.supervisor.pid is None {
                Some(NoticeView::NoProcessToSignal)
            } else {
                None
            },
        }
    }
}

impl Service {
    /// Puts a service under control. `runtime_config` is the identity that
    /// the host resolved for the package. Nothing runs yet, nothing was
    /// initialized, and no restart is asked for.
    pub fn new(
        service_group: ServiceGroup,
        package: String,
        topology: Topology,
        update_strategy: UpdateStrategy,
        runtime_config: RuntimeConfig,
    ) -> (service: Service)
        ensures
            service@ == (ServiceView {
                needs_restart: false,
                package: package@,
                service_config_incarnation: None,
                service_group: service_group@,
                update_strategy,
                initialized: false,
                last_restart_display: LastRestartDisplay::Unset,
                supervisor: SupervisorView { pid: None, runtime_config: runtime_config@ },
                topology,
            }),
    {
        Service {
            service_group,
            supervisor: Supervisor { pid: None, runtime_config },
            package,
            topology,
            needs_restart: false,
            update_strategy,
            last_restart_display: LastRestartDisplay::Unset,
            initialized: false,
            service_config_incarnation: None,
        }
    }

    /// The line that says which identity the process will run under.
    pub fn running_as(&self) -> (notice: Notice)
        ensures
            notice@ == (NoticeView::RunningAs {
                user: self@.supervisor.runtime_config.svc_user,
                group: self@.supervisor.runtime_config.svc_group,
            }),
    {
        Notice::RunningAs {
            user: self.supervisor.runtime_config.svc_user.clone(),
            group: self.supervisor.runtime_config.svc_group.clone(),
        }
    }

    /// The service's name in log lines and its key in an election snapshot:
    /// service, a dot, group.
    pub fn service_group_str(&self) -> (key: String)
        ensures
            key@ == self@.service_group.key(),
    {
        self.service_group.key()
    }

    /// The package that the service runs, as the service is named in a list.
    pub fn to_string(&self) -> (name: String)
        ensures
            name@ == self@.package,
    {
        self.package.clone()
    }

    /// Whether a restart is asked for.
    pub fn needs_restart(&self) -> (needed: bool)
        ensures
            needed == self@.needs_restart,
    {
        self.needs_restart
    }

    pub fn service_group(&self) -> (group: &ServiceGroup)
        ensures
            group@ == self@.service_group,
    {
        &self.service_group
    }

    pub fn update_strategy(&self) -> (strategy: UpdateStrategy)
        ensures
            strategy == self@.update_strategy,
    {
        self.update_strategy
    }

    /// The generation of the configuration last applied.
    pub fn service_config_incarnation(&self) -> (incarnation: Option<u64>)
        ensures
            incarnation == self@.service_config_incarnation,
    {
        self.service_config_incarnation
    }

    /// Records the generation of the configuration that was just applied.
    pub fn set_service_config_incarnation(&mut self, incarnation: Option<u64>)
        ensures
            final(self)@ == (ServiceView {
                service_config_incarnation: incarnation,
                ..old(self)@
            }),
    {
        self.service_config_incarnation = incarnation;
    }

    pub fn topology(&self) -> (topology: Topology)
        ensures
            topology == self@.topology,
    {
        self.topology
    }

    pub fn is_initialized(&self) -> (initialized: bool)
        ensures
            initialized == self@.initialized,
    {
        self.initialized
    }

    pub fn last_restart_display(&self) -> (display: LastRestartDisplay)
        ensures
            display == self@.last_restart_display,
    {
        self.last_restart_display
    }

    /// The process that the supervisor was last seen to track.
    pub fn pid(&self) -> (pid: Option<u32>)
        ensures
            pid == self@.supervisor.pid,
    {
        self.supervisor.pid
    }

    /// Takes note of the process that the supervisor tracks now.
    pub fn track_pid(&mut self, pid: Option<u32>)
        ensures
            final(self)@ == (ServiceView {
                supervisor: SupervisorView { pid, ..old(self)@.supervisor },
                ..old(self)@
            }),
    {
        self.supervisor.pid = pid;
    }

    /// Whether `restart` can decide on this snapshot. It cannot where the
    /// service waits for an election that has finished without a leader.
    pub fn can_decide_restart(&self, census_list: &CensusList) -> (decidable: bool)
        ensures
            decidable == self@.can_decide_restart(census_list@),
    {
        if !self.topology.is_coordinated() {
            return true;
        }
        let key = self.service_group.key();
        match census_list.get(&key) {
            Some(census) => match census.status() {
                ElectionStatus::Finished => census.leader.is_some(),
                _ => true,
            },
            None => true,
        }
    }

    /// Decides a request for a restart on the latest election snapshot.
    ///
    /// Where the decision is to restart, the flag that asked for it is
    /// cleared, whether or not it was set; the host then restarts the
    /// process. The reason for waiting or restarting goes on record, and the
    /// decision carries a line to log only where that reason is new.
    pub fn restart(&mut self, census_list: &CensusList) -> (decision: RestartDecision)
        requires
            old(self)@.can_decide_restart(census_list@),
        ensures
            decision@ == old(self)@.restart_decision(census_list@),
            final(self)@ == old(self)@.after_restart(census_list@),
            decision.restart_process ==> !final(self)@.needs_restart,
    {
        let decision = if self.topology.is_coordinated() {
            let key = self.service_group.key();
            decide_restart(self.topology, self.last_restart_display, census_list.get(&key))
        } else {
            decide_restart(self.topology, self.last_restart_display, None)
        };
        if decision.restart_process {
            self.needs_restart = false;
        }
        self.last_restart_display = decision.display;
        decision
    }

    /// Decides a request to signal the service's process. Without a tracked
    /// process there is nothing to deliver, which is no error.
    pub fn send_signal(&self, signal: u32) -> (decision: SignalDecision)
        ensures
            decision@ == self@.signal_decision(signal),
    {
        match self.supervisor.pid {
            Some(pid) => SignalDecision { pid: Some(pid), signal, notice: None },
            None => SignalDecision { pid: None, signal, notice: Some(Notice::NoProcessToSignal) },
        }
    }

    /// Whether the service is down: the supervisor tracks no process.
    pub fn is_down(&self) -> (down: bool)
        ensures
            down == (self@.supervisor.pid is None),
    {
        self.supervisor.pid.is_none()
    }

    /// Opens the exchange that persists a configuration blob from the gossip
    /// layer at `path`, owned by the service's user and group. `on_disk` is
    /// the checksum of the file now at `path`, `None` where it is missing or
    /// unreadable, and `checksum` is that of `config`.
    pub fn write_butterfly_service_config(
        &self,
        path: String,
        config: String,
        on_disk: Option<String>,
        checksum: String,
    ) -> (write: GossipWrite)
        ensures
            write@ == GossipWriteView::begin(
                path@,
                config@,
                option_view(on_disk),
                checksum@,
                self@.supervisor.runtime_config,
            ),
    {
        GossipWrite::begin(
            path,
            config,
            on_disk,
            checksum,
            self.supervisor.runtime_config.duplicate(),
        )
    }

    /// Decides whether the initialization hook runs now. It runs on the
    /// first call and on no later one, however it ends.
    pub fn initialize(&mut self) -> (run_hook: bool)
        ensures
            run_hook == old(self)@.runs_init_hook(),
            final(self)@ == old(self)@.after_initialize(),
    {
        let run_hook = !self.initialized;
        self.initialized = true;
        run_hook
    }

    /// Takes the outcome of one step of a reconfiguration and says what
    /// follows. A written configuration that changed marks the service for
    /// a restart; nothing in a reconfiguration clears that mark.
    pub fn reconfigure(&mut self, step: ReconfigureStep, outcome: StepOutcome) -> (action:
        ReconfigureAction)
        ensures
            action@ == after_step(step, outcome@),
            final(self)@ == old(self)@.after_reconfigure(step, outcome@),
    {
        let action = step.after(outcome);
        if action.needs_restart {
            self.needs_restart = true;
        }
        action
    }
}

/// The line that reports how the initialization hook ended.
pub fn initialization_notice(outcome: Result<(), String>) -> (notice: Notice)
    ensures
        notice@ == match outcome {
            Ok(_) => NoticeView::Initializing,
            Err(error) => NoticeView::InitializationFailed { error: error@ },
        },
{
    match outcome {
        Ok(_) => Notice::Initializing,
        Err(error) => Notice::InitializationFailed { error },
    }
}

} // verus!
