//! The order in which a service is reconfigured.
//!
//! The host renders the configuration, writes it, runs hooks and compiles
//! them; each of these can fail. This module says which step follows which
//! outcome, when the service must be restarted, and what is logged.

use crate::output::{Notice, NoticeView};
use crate::views::option_view;
use vstd::prelude::*;

verus! {

/// The work that a reconfiguration is made of.
#[derive(Clone, Copy, Debug, PartialEq, Eq, Structural)]
pub enum ReconfigureStep {
    /// Render the configuration from the cluster's data and the package.
    BuildConfig,
    /// Make sure that the service's directory exists.
    CreateServiceDirectory,
    /// Write the rendered configuration; the outcome says whether it changed.
    WriteConfig,
    /// Run the package's reconfiguration hook.
    RunReconfigureHook,
    /// Read the hook definitions from disk again.
    LoadHooks,
    /// Produce the run entry point from the rendered configuration.
    CopyRun,
    /// Compile every hook from the rendered configuration.
    CompileHooks,
}

/// How a step ended.
#[derive(Debug, PartialEq, Eq)]
pub enum StepOutcome {
    /// The step was made and changed nothing that matters.
    Done,
    /// The step was made and what it wrote differs from what was there.
    Changed,
    /// The step failed, for this reason.
    Failed(String),
}

/// What a `StepOutcome` stands for.
pub enum StepOutcomeView {
    Done,
    Changed,
    Failed(Seq<char>),
}

impl View for StepOutcome {
    type V = StepOutcomeView;

    open spec fn view(&self) -> StepOutcomeView {
        match self {
            StepOutcome::Done => StepOutcomeView::Done,
            StepOutcome::Changed => StepOutcomeView::Changed,
            StepOutcome::Failed(reason) => StepOutcomeView::Failed(reason@),
        }
    }
}

/// What follows a step.
#[derive(Debug, PartialEq, Eq)]
pub struct ReconfigureAction {
    /// The step to make next; `None` ends the reconfiguration.
    pub next: Option<ReconfigureStep>,
    /// Whether the step showed that the service must be restarted.
    pub needs_restart: bool,
    /// The line to log.
    pub notice: Option<Notice>,
}

/// What a `ReconfigureAction` stands for.
pub struct ReconfigureActionView {
    pub next: Option<ReconfigureStep>,
    pub needs_restart: bool,
    pub notice: Option<NoticeView>,
}

impl View for ReconfigureAction {
    type V = ReconfigureActionView;

    open spec fn view(&self) -> ReconfigureActionView {
        ReconfigureActionView {
            next: self.next,
            needs_restart: self.needs_restart,
            notice: option_view(self.notice),
        }
    }
}

/// The step that follows `step` when nothing stands in the way.
pub open spec fn step_after(step: ReconfigureStep) -> Option<ReconfigureStep> {
    match step {
        ReconfigureStep::BuildConfig => Some(ReconfigureStep::CreateServiceDirectory),
        ReconfigureStep::CreateServiceDirectory => Some(ReconfigureStep::WriteConfig),
        ReconfigureStep::WriteConfig => Some(ReconfigureStep::LoadHooks),
        ReconfigureStep::RunReconfigureHook => Some(ReconfigureStep::LoadHooks),
        ReconfigureStep::LoadHooks => Some(ReconfigureStep::CopyRun),
        ReconfigureStep::CopyRun => Some(ReconfigureStep::CompileHooks),
        ReconfigureStep::CompileHooks => None,
    }
}

/// The sequencing as a table.
///
/// A configuration that cannot be rendered or written ends the
/// reconfiguration with a line in the log. A written configuration that
/// changed asks for a restart and for the reconfiguration hook; a failing
/// hook is logged and holds nothing up. Every other step is followed by the
/// next, however it ended.
pub open spec fn after_step(step: ReconfigureStep, outcome: StepOutcomeView) -> ReconfigureActionView {
    match (step, outcome) {
        (ReconfigureStep::BuildConfig, StepOutcomeView::Failed(error)) => ReconfigureActionView {
            next: None,
            needs_restart: false,
            notice: Some(NoticeView::ConfigGenerationFailed { error }),
        },
        (ReconfigureStep::WriteConfig, StepOutcomeView::Failed(error)) => ReconfigureActionView {
            next: None,
            needs_restart: false,
            notice: Some(NoticeView::ConfigWriteFailed { error }),
        },
        (ReconfigureStep::WriteConfig, StepOutcomeView::Changed) => ReconfigureActionView {
            next: Some(ReconfigureStep::RunReconfigureHook),
            needs_restart: true,
            notice: None,
        },
        (
            ReconfigureStep::RunReconfigureHook,
            StepOutcomeView::Failed(error),
        ) => ReconfigureActionView {
            next: Some(ReconfigureStep::LoadHooks),
            needs_restart: false,
            notice: Some(NoticeView::ReconfigureHookFailed { error }),
        },
        _ => ReconfigureActionView { next: step_after(step), needs_restart: false, notice: None },
    }
}

impl ReconfigureStep {
    /// The step that every reconfiguration starts with.
    pub fn first() -> (step: ReconfigureStep)
        ensures
            step == ReconfigureStep::BuildConfig,
    {
        ReconfigureStep::BuildConfig
    }

    /// What follows this step, given how it ended.
    pub fn after(self, outcome: StepOutcome) -> (action: ReconfigureAction)
        ensures
            action@ == after_step(self, outcome@),
    {
        match (self, outcome) {
            (ReconfigureStep::BuildConfig, StepOutcome::Failed(error)) => ReconfigureAction {
                next: None,
                needs_restart: false,
                notice: Some(Notice::ConfigGenerationFailed { error }),
            },
            (ReconfigureStep::WriteConfig, StepOutcome::Failed(error)) => ReconfigureAction {
                next: None,
                needs_restart: false,
                notice: Some(Notice::ConfigWriteFailed { error }),
            },
            (ReconfigureStep::WriteConfig, StepOutcome::Changed) => ReconfigureAction {
                next: Some(ReconfigureStep::RunReconfigureHook),
                needs_restart: true,
                notice: None,
            },
            (ReconfigureStep::RunReconfigureHook, StepOutcome::Failed(error)) => ReconfigureAction {
                next: Some(ReconfigureStep::LoadHooks),
                needs_restart: false,
                notice: Some(Notice::ReconfigureHookFailed { error }),
            },
            (step, _) => ReconfigureAction {
                next: step.following(),
                needs_restart: false,
                notice: None,
            },
        }
    }

    fn following(self) -> (next: Option<ReconfigureStep>)
        ensures
            next == step_after(self),
    {
        match self {
            ReconfigureStep::BuildConfig => Some(ReconfigureStep::CreateServiceDirectory),
            ReconfigureStep::CreateServiceDirectory => Some(ReconfigureStep::WriteConfig),
            ReconfigureStep::WriteConfig => Some(ReconfigureStep::LoadHooks),
            ReconfigureStep::RunReconfigureHook => Some(ReconfigureStep::LoadHooks),
            ReconfigureStep::LoadHooks => Some(ReconfigureStep::CopyRun),
            ReconfigureStep::CopyRun => Some(ReconfigureStep::CompileHooks),
            ReconfigureStep::CompileHooks => None,
        }
    }
}

} // verus!
