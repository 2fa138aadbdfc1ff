use service_controller::config::{RuntimeConfig, Topology, UpdateStrategy};
use service_controller::group::ServiceGroup;
use service_controller::output::Notice;
use service_controller::reconfigure::{ReconfigureAction, ReconfigureStep, StepOutcome};
use service_controller::service::Service;

fn service() -> Service {
    Service::new(
        ServiceGroup::new("redis".to_string(), "default".to_string()),
        "core/redis".to_string(),
        Topology::Standalone,
        UpdateStrategy::AtOnce,
        RuntimeConfig::new("hab".to_string(), "hab".to_string()),
    )
}

/// Runs a whole reconfiguration in which each step ends as `outcome` says.
fn run(
    service: &mut Service,
    outcome: &dyn Fn(ReconfigureStep) -> StepOutcome,
) -> (Vec<ReconfigureStep>, Vec<Notice>) {
    let mut steps = Vec::new();
    let mut log = Vec::new();
    let mut next = Some(ReconfigureStep::first());
    while let Some(step) = next {
        steps.push(step);
        let action = service.reconfigure(step, outcome(step));
        if let Some(notice) = action.notice {
            log.push(notice);
        }
        next = action.next;
    }
    (steps, log)
}

#[test]
fn unchanged_configuration_leaves_the_flag_as_it_was() {
    let mut service = service();
    let (steps, log) = run(&mut service, &|_| StepOutcome::Done);
    assert!(!service.needs_restart());
    assert!(log.is_empty());
    assert_eq!(
        steps,
        vec![
            ReconfigureStep::BuildConfig,
            ReconfigureStep::CreateServiceDirectory,
            ReconfigureStep::WriteConfig,
            ReconfigureStep::LoadHooks,
            ReconfigureStep::CopyRun,
            ReconfigureStep::CompileHooks,
        ]
    );

    service.reconfigure(ReconfigureStep::WriteConfig, StepOutcome::Changed);
    run(&mut service, &|_| StepOutcome::Done);
    assert!(service.needs_restart());
}

#[test]
fn changed_configuration_sets_the_flag_and_runs_the_hook() {
    let mut service = service();
    let (steps, log) = run(&mut service, &|step| match step {
        ReconfigureStep::WriteConfig => StepOutcome::Changed,
        _ => StepOutcome::Done,
    });
    assert!(service.needs_restart());
    assert!(log.is_empty());
    assert_eq!(
        steps,
        vec![
            ReconfigureStep::BuildConfig,
            ReconfigureStep::CreateServiceDirectory,
            ReconfigureStep::WriteConfig,
            ReconfigureStep::RunReconfigureHook,
            ReconfigureStep::LoadHooks,
            ReconfigureStep::CopyRun,
            ReconfigureStep::CompileHooks,
        ]
    );
}

#[test]
fn failing_hook_is_logged_and_keeps_the_flag() {
    let mut service = service();
    let (steps, log) = run(&mut service, &|step| match step {
        ReconfigureStep::WriteConfig => StepOutcome::Changed,
        ReconfigureStep::RunReconfigureHook => StepOutcome::Failed("exit 3".to_string()),
        _ => StepOutcome::Done,
    });
    assert!(service.needs_restart());
    assert_eq!(log, vec![Notice::ReconfigureHookFailed { error: "exit 3".to_string() }]);
    assert_eq!(steps.len(), 7);
    assert_eq!(steps[4..], [
        ReconfigureStep::LoadHooks,
        ReconfigureStep::CopyRun,
        ReconfigureStep::CompileHooks,
    ]);
}

#[test]
fn configuration_that_cannot_be_rendered_ends_the_run() {
    let mut service = service();
    let (steps, log) = run(&mut service, &|step| match step {
        ReconfigureStep::BuildConfig => StepOutcome::Failed("no such key".to_string()),
        _ => StepOutcome::Changed,
    });
    assert_eq!(steps, vec![ReconfigureStep::BuildConfig]);
    assert_eq!(log, vec![Notice::ConfigGenerationFailed { error: "no such key".to_string() }]);
    assert!(!service.needs_restart());
}

#[test]
fn configuration_that_cannot_be_written_ends_the_run() {
    let mut service = service();
    let (steps, log) = run(&mut service, &|step| match step {
        ReconfigureStep::WriteConfig => StepOutcome::Failed("read-only".to_string()),
        _ => StepOutcome::Done,
    });
    assert_eq!(
        steps,
        vec![
            ReconfigureStep::BuildConfig,
            ReconfigureStep::CreateServiceDirectory,
            ReconfigureStep::WriteConfig,
        ]
    );
    assert_eq!(log, vec![Notice::ConfigWriteFailed { error: "read-only".to_string() }]);
    assert!(!service.needs_restart());
}

#[test]
fn other_steps_go_on_however_they_end() {
    let mut service = service();
    let (steps, log) = run(&mut service, &|step| match step {
        ReconfigureStep::BuildConfig | ReconfigureStep::WriteConfig => StepOutcome::Done,
        _ => StepOutcome::Failed("ignored".to_string()),
    });
    assert_eq!(steps.len(), 6);
    assert!(log.is_empty());
    assert!(!service.needs_restart());
}

#[test]
fn step_table() {
    assert_eq!(
        ReconfigureStep::WriteConfig.after(StepOutcome::Changed),
        ReconfigureAction {
            next: Some(ReconfigureStep::RunReconfigureHook),
            needs_restart: true,
            notice: None,
        }
    );
    assert_eq!(
        ReconfigureStep::BuildConfig.after(StepOutcome::Changed),
        ReconfigureAction {
            next: Some(ReconfigureStep::CreateServiceDirectory),
            needs_restart: false,
            notice: None,
        }
    );
    assert_eq!(
        ReconfigureStep::CompileHooks.after(StepOutcome::Done),
        ReconfigureAction { next: None, needs_restart: false, notice: None }
    );
    assert_eq!(
        ReconfigureStep::RunReconfigureHook.after(StepOutcome::Done),
        ReconfigureAction {
            next: Some(ReconfigureStep::LoadHooks),
            needs_restart: false,
            notice: None,
        }
    );
    assert_eq!(ReconfigureStep::first(), ReconfigureStep::BuildConfig);
}
