use service_controller::census::{Census, CensusList, ElectionStatus};
use service_controller::config::{RuntimeConfig, Topology, UpdateStrategy};
use service_controller::group::ServiceGroup;
use service_controller::output::Notice;
use service_controller::reconfigure::{ReconfigureStep, StepOutcome};
use service_controller::restart::{decide_restart, LastRestartDisplay, RestartDecision};
use service_controller::service::Service;

/// Counts what a host would do with the decisions.
struct Host {
    restarts: usize,
    log: Vec<String>,
}

impl Host {
    fn new() -> Host {
        Host { restarts: 0, log: Vec::new() }
    }

    fn carry_out(&mut self, decision: &RestartDecision) {
        if let Some(notice) = &decision.notice {
            self.log.push(notice.message());
        }
        if decision.restart_process {
            self.restarts += 1;
        }
    }
}

fn service(topology: Topology) -> Service {
    Service::new(
        ServiceGroup::new("redis".to_string(), "default".to_string()),
        "core/redis/3.2.4/20170103160441".to_string(),
        topology,
        UpdateStrategy::Never,
        RuntimeConfig::new("hab".to_string(), "hab".to_string()),
    )
}

fn snapshot(census: Census) -> CensusList {
    let mut list = CensusList::new();
    list.insert("redis.default".to_string(), census);
    list
}

fn running() -> Census {
    Census::new(true, false, false, None)
}

fn no_quorum() -> Census {
    Census::new(false, true, false, None)
}

fn finished(leader: &str) -> Census {
    Census::new(false, false, true, Some(leader.to_string()))
}

fn mark_for_restart(service: &mut Service) {
    service.reconfigure(ReconfigureStep::WriteConfig, StepOutcome::Changed);
    assert!(service.needs_restart());
}

#[test]
fn standalone_restarts_on_an_empty_snapshot() {
    let mut service = service(Topology::Standalone);
    let mut host = Host::new();
    mark_for_restart(&mut service);
    let decision = service.restart(&CensusList::new());
    host.carry_out(&decision);
    assert!(!service.needs_restart());
    assert_eq!(host.restarts, 1);
    assert!(host.log.is_empty());
    assert_eq!(service.last_restart_display(), LastRestartDisplay::Unset);
}

#[test]
fn standalone_restarts_whatever_the_snapshot_holds() {
    for census in [running(), no_quorum(), finished("node-1"), Census::new(false, false, true, None)]
    {
        let mut service = service(Topology::Standalone);
        let mut host = Host::new();
        mark_for_restart(&mut service);
        assert!(service.can_decide_restart(&snapshot(Census::new(false, false, true, None))));
        let decision = service.restart(&snapshot(census));
        host.carry_out(&decision);
        assert!(!service.needs_restart());
        assert_eq!(host.restarts, 1);
        assert!(host.log.is_empty());
    }
}

#[test]
fn leader_logs_a_running_election_once_and_does_not_restart() {
    let mut service = service(Topology::Leader);
    let mut host = Host::new();
    mark_for_restart(&mut service);
    let list = snapshot(running());
    let first = service.restart(&list);
    host.carry_out(&first);
    let second = service.restart(&list);
    host.carry_out(&second);
    assert_eq!(
        host.log,
        vec!["Not restarting service; \u{1b}[1;33melection in progress.\u{1b}[0m".to_string()]
    );
    assert_eq!(host.restarts, 0);
    assert!(service.needs_restart());
    assert_eq!(service.last_restart_display(), LastRestartDisplay::ElectionInProgress);
}

#[test]
fn leader_restarts_once_the_election_has_finished() {
    let mut service = service(Topology::Leader);
    let mut host = Host::new();
    mark_for_restart(&mut service);
    let list = snapshot(running());
    let first = service.restart(&list);
    host.carry_out(&first);
    let second = service.restart(&list);
    host.carry_out(&second);
    assert_eq!(host.log.len(), 1);
    assert_eq!(host.restarts, 0);

    let list = snapshot(finished("node-42"));
    let third = service.restart(&list);
    assert_eq!(third.notice, Some(Notice::Restarting { leader: "node-42".to_string() }));
    host.carry_out(&third);
    assert_eq!(host.log.len(), 2);
    assert_eq!(
        host.log[1],
        "Restarting service; \u{1b}[1;32mnode-42\u{1b}[0m is the leader"
    );
    assert_eq!(host.restarts, 1);
    assert!(!service.needs_restart());
    assert_eq!(service.last_restart_display(), LastRestartDisplay::ElectionFinished);
}

#[test]
fn finished_election_restarts_on_every_call_and_logs_once() {
    for topology in [Topology::Leader, Topology::Initializer] {
        let mut service = service(topology);
        let mut host = Host::new();
        let list = snapshot(finished("node-7"));
        for _ in 0..4 {
            mark_for_restart(&mut service);
            let decision = service.restart(&list);
            host.carry_out(&decision);
            assert!(!service.needs_restart());
        }
        assert_eq!(host.restarts, 4);
        assert_eq!(host.log.len(), 1);
    }
}

#[test]
fn issued_restart_clears_the_flag_under_every_topology() {
    for topology in [Topology::Standalone, Topology::Leader, Topology::Initializer] {
        let mut service = service(topology);
        mark_for_restart(&mut service);
        let decision = service.restart(&snapshot(finished("node-1")));
        assert!(decision.restart_process);
        assert!(!service.needs_restart());
    }
}

#[test]
fn restart_held_back_keeps_the_flag() {
    for census in [running(), no_quorum(), Census::new(false, false, false, None)] {
        let mut service = service(Topology::Initializer);
        mark_for_restart(&mut service);
        let decision = service.restart(&snapshot(census));
        assert!(!decision.restart_process);
        assert!(service.needs_restart());
    }
}

#[test]
fn lost_quorum_is_a_warning_logged_once() {
    let mut service = service(Topology::Leader);
    let mut host = Host::new();
    let list = snapshot(no_quorum());
    let first = service.restart(&list);
    assert_eq!(first.notice, Some(Notice::ElectionNoQuorum));
    host.carry_out(&first);
    let second = service.restart(&list);
    assert_eq!(second.notice, None);
    host.carry_out(&second);
    assert_eq!(
        host.log,
        vec![
            "Not restarting service; \u{1b}[1;33melection in progress\u{1b}[0m, \
             \u{1b}[1;31mand we have no quorum\u{1b}[0m."
                .to_string()
        ]
    );
    assert_eq!(host.restarts, 0);
    assert_eq!(service.last_restart_display(), LastRestartDisplay::ElectionNoQuorum);
}

#[test]
fn changed_condition_is_logged_again() {
    let mut service = service(Topology::Leader);
    let mut host = Host::new();
    for census in [running(), no_quorum(), running(), running(), finished("a"), running()] {
        let decision = service.restart(&snapshot(census));
        host.carry_out(&decision);
    }
    assert_eq!(host.log.len(), 5);
    assert_eq!(host.restarts, 1);
}

#[test]
fn unknown_group_changes_nothing() {
    let mut service = service(Topology::Leader);
    mark_for_restart(&mut service);
    let mut list = CensusList::new();
    list.insert("postgres.default".to_string(), finished("node-1"));
    let decision = service.restart(&list);
    assert_eq!(
        decision,
        RestartDecision { restart_process: false, display: LastRestartDisplay::Unset, notice: None }
    );
    assert!(service.needs_restart());
    assert_eq!(service.last_restart_display(), LastRestartDisplay::Unset);
}

#[test]
fn census_without_a_condition_keeps_the_record() {
    let mut service = service(Topology::Leader);
    service.restart(&snapshot(running()));
    let decision = service.restart(&snapshot(Census::new(false, false, false, None)));
    assert_eq!(decision.notice, None);
    assert!(!decision.restart_process);
    assert_eq!(service.last_restart_display(), LastRestartDisplay::ElectionInProgress);
    let again = service.restart(&snapshot(running()));
    assert_eq!(again.notice, None);
}

#[test]
fn flags_are_read_in_order() {
    assert_eq!(Census::new(true, true, true, None).status(), ElectionStatus::Running);
    assert_eq!(Census::new(false, true, true, None).status(), ElectionStatus::NoQuorum);
    assert_eq!(
        Census::new(false, false, true, Some("x".to_string())).status(),
        ElectionStatus::Finished
    );
    assert_eq!(Census::new(false, false, false, None).status(), ElectionStatus::Idle);

    let mut service = service(Topology::Leader);
    let decision =
        service.restart(&snapshot(Census::new(true, true, true, Some("x".to_string()))));
    assert_eq!(decision.notice, Some(Notice::ElectionInProgress));
    assert!(!decision.restart_process);
}

#[test]
fn finished_election_without_a_leader_cannot_be_decided() {
    let list = snapshot(Census::new(false, false, true, None));
    assert!(!service(Topology::Leader).can_decide_restart(&list));
    assert!(!service(Topology::Initializer).can_decide_restart(&list));
    assert!(service(Topology::Standalone).can_decide_restart(&list));
    assert!(service(Topology::Leader).can_decide_restart(&CensusList::new()));
    assert!(service(Topology::Leader).can_decide_restart(&snapshot(finished("n"))));
    assert!(service(Topology::Leader)
        .can_decide_restart(&snapshot(Census::new(true, false, true, None))));
}

#[test]
fn policy_table() {
    let census = finished("node-9");
    let decision = decide_restart(Topology::Leader, LastRestartDisplay::Unset, Some(&census));
    assert_eq!(
        decision,
        RestartDecision {
            restart_process: true,
            display: LastRestartDisplay::ElectionFinished,
            notice: Some(Notice::Restarting { leader: "node-9".to_string() }),
        }
    );
    let decision =
        decide_restart(Topology::Leader, LastRestartDisplay::ElectionFinished, Some(&census));
    assert_eq!(
        decision,
        RestartDecision {
            restart_process: true,
            display: LastRestartDisplay::ElectionFinished,
            notice: None,
        }
    );
    let decision =
        decide_restart(Topology::Standalone, LastRestartDisplay::ElectionNoQuorum, Some(&census));
    assert_eq!(
        decision,
        RestartDecision {
            restart_process: true,
            display: LastRestartDisplay::ElectionNoQuorum,
            notice: None,
        }
    );
    let decision = decide_restart(Topology::Initializer, LastRestartDisplay::Unset, None);
    assert_eq!(
        decision,
        RestartDecision { restart_process: false, display: LastRestartDisplay::Unset, notice: None }
    );
}
