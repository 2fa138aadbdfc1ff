use service_controller::config::{RuntimeConfig, Topology, UpdateStrategy};
use service_controller::gossip::{FsRequest, WriteStage, WriteStep};
use service_controller::group::ServiceGroup;
use service_controller::output::Notice;
use service_controller::reconfigure::{ReconfigureStep, StepOutcome};
use service_controller::restart::LastRestartDisplay;
use service_controller::service::{initialization_notice, Service, SignalDecision};

fn service(topology: Topology) -> Service {
    Service::new(
        ServiceGroup::new("redis".to_string(), "default".to_string()),
        "core/redis/3.2.4/20170103160441".to_string(),
        topology,
        UpdateStrategy::Rolling,
        RuntimeConfig::new("hab".to_string(), "staff".to_string()),
    )
}

#[test]
fn new_service_starts_from_scratch() {
    let service = service(Topology::Initializer);
    assert!(!service.needs_restart());
    assert!(!service.is_initialized());
    assert_eq!(service.last_restart_display(), LastRestartDisplay::Unset);
    assert_eq!(service.service_config_incarnation(), None);
    assert_eq!(service.topology(), Topology::Initializer);
    assert_eq!(service.update_strategy(), UpdateStrategy::Rolling);
    assert_eq!(service.pid(), None);
    assert!(service.is_down());
    assert_eq!(service.service_group().service, "redis");
    assert_eq!(service.service_group().group, "default");
    assert_eq!(
        service.running_as(),
        Notice::RunningAs { user: "hab".to_string(), group: "staff".to_string() }
    );
}

#[test]
fn service_group_str_joins_with_a_dot() {
    assert_eq!(service(Topology::Leader).service_group_str(), "redis.default");
    assert_eq!(ServiceGroup::new(String::new(), String::new()).key(), ".");
    assert_eq!(ServiceGroup::new("a.b".to_string(), "c".to_string()).key(), "a.b.c");
}

#[test]
fn service_is_named_by_its_package() {
    assert_eq!(service(Topology::Leader).to_string(), "core/redis/3.2.4/20170103160441");
}

#[test]
fn initialize_runs_the_hook_once() {
    let mut service = service(Topology::Standalone);
    let mut runs = 0;
    for _ in 0..5 {
        if service.initialize() {
            runs += 1;
        }
        assert!(service.is_initialized());
    }
    assert_eq!(runs, 1);
}

#[test]
fn initialization_is_reported() {
    assert_eq!(initialization_notice(Ok(())), Notice::Initializing);
    assert_eq!(
        initialization_notice(Err("exit 1".to_string())),
        Notice::InitializationFailed { error: "exit 1".to_string() }
    );
}

#[test]
fn signal_without_a_process_is_skipped() {
    let service = service(Topology::Standalone);
    assert_eq!(
        service.send_signal(15),
        SignalDecision { pid: None, signal: 15, notice: Some(Notice::NoProcessToSignal) }
    );
}

#[test]
fn signal_goes_to_the_tracked_process() {
    let mut service = service(Topology::Standalone);
    service.track_pid(Some(4242));
    assert!(!service.is_down());
    assert_eq!(service.pid(), Some(4242));
    assert_eq!(
        service.send_signal(1),
        SignalDecision { pid: Some(4242), signal: 1, notice: None }
    );
    service.track_pid(None);
    assert!(service.is_down());
    assert_eq!(service.send_signal(1).pid, None);
}

#[test]
fn tracking_a_process_changes_nothing_else() {
    let mut service = service(Topology::Leader);
    service.reconfigure(ReconfigureStep::WriteConfig, StepOutcome::Changed);
    service.set_service_config_incarnation(Some(3));
    service.initialize();
    service.track_pid(Some(7));
    assert!(service.needs_restart());
    assert_eq!(service.service_config_incarnation(), Some(3));
    assert!(service.is_initialized());
    assert_eq!(service.topology(), Topology::Leader);
    assert_eq!(service.service_group_str(), "redis.default");
}

#[test]
fn gossip_write_is_owned_by_the_service() {
    let service = service(Topology::Standalone);
    let mut exchange = service.write_butterfly_service_config(
        "/hab/svc/redis/gossip.toml".to_string(),
        "a = 1".to_string(),
        Some("old".to_string()),
        "new".to_string(),
    );
    assert_eq!(exchange.stage(), WriteStage::Pending(WriteStep::CreateTemp));
    assert_eq!(
        exchange.request(),
        Some(FsRequest::CreateFile { path: "/hab/svc/redis/gossip.toml.write".to_string() })
    );
    for _ in 0..3 {
        assert_eq!(exchange.advance(Ok(())), None);
    }
    assert_eq!(
        exchange.request(),
        Some(FsRequest::SetOwner {
            path: "/hab/svc/redis/gossip.toml".to_string(),
            user: "hab".to_string(),
            group: "staff".to_string(),
        })
    );
    assert_eq!(exchange.advance(Ok(())), None);
    assert_eq!(
        exchange.advance(Ok(())),
        Some(Notice::GossipConfigUpdated { checksum: "new".to_string() })
    );
    assert_eq!(exchange.result(), Some(true));

    let unchanged = service.write_butterfly_service_config(
        "/hab/svc/redis/gossip.toml".to_string(),
        "a = 1".to_string(),
        Some("new".to_string()),
        "new".to_string(),
    );
    assert_eq!(unchanged.result(), Some(false));
}

#[test]
fn topologies_that_wait_for_elections() {
    assert!(!Topology::Standalone.is_coordinated());
    assert!(Topology::Leader.is_coordinated());
    assert!(Topology::Initializer.is_coordinated());
}

#[test]
fn runtime_config_can_be_duplicated() {
    let config = RuntimeConfig::new("hab".to_string(), "staff".to_string());
    assert_eq!(config.duplicate(), config);
}
