//! The lines that a service controller reports, and how they read.

use crate::gossip::WriteStep;
use vstd::prelude::*;
use vstd::string::*;

verus! {

/// The colours that log lines use for emphasis.
#[derive(Clone, Copy, Debug, PartialEq, Eq, Structural)]
pub enum Highlight {
    Yellow,
    Red,
    Green,
}

/// How loudly a line is reported.
#[derive(Clone, Copy, Debug, PartialEq, Eq, Structural)]
pub enum Level {
    Debug,
    Info,
    Warn,
}

impl Highlight {
    /// The last digit of the colour's foreground code in an SGR sequence.
    pub open spec fn digit(self) -> char {
        match self {
            Highlight::Red => '1',
            Highlight::Green => '2',
            Highlight::Yellow => '3',
        }
    }
}

/// A text in bold and in the given colour: the escape sequence that switches
/// both on, the text, and the sequence that resets the terminal.
pub open spec fn bold_painted(colour: Highlight, text: Seq<char>) -> Seq<char> {
    seq!['\x1b', '[', '1', ';', '3', colour.digit(), 'm'] + text + seq!['\x1b', '[', '0', 'm']
}

/// Calls `ansi_term`: `Colour::bold`, `Style::paint` and the `Display` of the
/// painted string. Trusted: the result is `ESC[1;3<digit>m`, the text as it
/// is, and `ESC[0m`, where the digit is 1 for red, 2 for green and 3 for
/// yellow.
#[verifier::external_body]
fn paint_bold(colour: Highlight, text: &str) -> (painted: String)
    ensures
        painted@ == bold_painted(colour, text@),
{
    let colour = match colour {
        Highlight::Yellow => ansi_term::Colour::Yellow,
        Highlight::Red => ansi_term::Colour::Red,
        Highlight::Green => ansi_term::Colour::Green,
    };
    colour.bold().paint(text).to_string()
}

/// One reportable event in the life of a service.
#[derive(Debug, PartialEq, Eq)]
pub enum Notice {
    /// The identity that the service's process is started under.
    RunningAs { user: String, group: String },
    /// No restart: the group is electing a leader.
    ElectionInProgress,
    /// No restart: the election cannot reach a quorum.
    ElectionNoQuorum,
    /// A restart is issued; the election named this leader.
    Restarting { leader: String },
    /// A signal was asked for while no process is tracked.
    NoProcessToSignal,
    /// Persisting the gossiped configuration stopped at this step.
    GossipWriteFailed { step: WriteStep, error: String },
    /// The gossiped configuration with this checksum is in place.
    GossipConfigUpdated { checksum: String },
    /// The initialization hook ran.
    Initializing,
    /// The initialization hook failed.
    InitializationFailed { error: String },
    /// The configuration could not be rendered from the cluster's data.
    ConfigGenerationFailed { error: String },
    /// The rendered configuration could not be written.
    ConfigWriteFailed { error: String },
    /// The reconfiguration hook failed.
    ReconfigureHookFailed { error: String },
}

/// What a `Notice` stands for.
pub enum NoticeView {
    RunningAs { user: Seq<char>, group: Seq<char> },
    ElectionInProgress,
    ElectionNoQuorum,
    Restarting { leader: Seq<char> },
    NoProcessToSignal,
    GossipWriteFailed { step: WriteStep, error: Seq<char> },
    GossipConfigUpdated { checksum: Seq<char> },
    Initializing,
    InitializationFailed { error: Seq<char> },
    ConfigGenerationFailed { error: Seq<char> },
    ConfigWriteFailed { error: Seq<char> },
    ReconfigureHookFailed { error: Seq<char> },
}

impl View for Notice {
    type V = NoticeView;

    open spec fn view(&self) -> NoticeView {
        match self {
            Notice::RunningAs { user, group } => NoticeView::RunningAs {
                user: user@,
                group: group@,
            },
            Notice::ElectionInProgress => NoticeView::ElectionInProgress,
            Notice::ElectionNoQuorum => NoticeView::ElectionNoQuorum,
            Notice::Restarting { leader } => NoticeView::Restarting { leader: leader@ },
            Notice::NoProcessToSignal => NoticeView::NoProcessToSignal,
            Notice::GossipWriteFailed { step, error } => NoticeView::GossipWriteFailed {
                step: *step,
                error: error@,
            },
            Notice::GossipConfigUpdated { checksum } => NoticeView::GossipConfigUpdated {
                checksum: checksum@,
            },
            Notice::Initializing => NoticeView::Initializing,
            Notice::InitializationFailed { error } => NoticeView::InitializationFailed {
                error: error@,
            },
            Notice::ConfigGenerationFailed { error } => NoticeView::ConfigGenerationFailed {
                error: error@,
            },
            Notice::ConfigWriteFailed { error } => NoticeView::ConfigWriteFailed { error: error@ },
            Notice::ReconfigureHookFailed { error } => NoticeView::ReconfigureHookFailed {
                error: error@,
            },
        }
    }
}

/// What a failed step of the gossip write was trying to do, as the log says it.
pub open spec fn step_words(step: WriteStep) -> Seq<char> {
    match step {
        WriteStep::CreateTemp => "open the new file"@,
        WriteStep::WriteTemp => "write"@,
        WriteStep::Rename => "rename"@,
        WriteStep::SetOwner => "set ownership"@,
        WriteStep::SetPermissions => "set permissions"@,
    }
}

impl NoticeView {
    /// The line as it is logged, without the service's name in front.
    pub open spec fn text(self) -> Seq<char> {
        match self {
            NoticeView::RunningAs { user, group } => "Process will run as user="@ + user
                + ", group="@ + group,
            NoticeView::ElectionInProgress => "Not restarting service; "@ + bold_painted(
                Highlight::Yellow,
                "election in progress."@,
            ),
            NoticeView::ElectionNoQuorum => "Not restarting service; "@ + bold_painted(
                Highlight::Yellow,
                "election in progress"@,
            ) + ", "@ + bold_painted(Highlight::Red, "and we have no quorum"@) + "."@,
            NoticeView::Restarting { leader } => "Restarting service; "@ + bold_painted(
                Highlight::Green,
                leader,
            ) + " is the leader"@,
            NoticeView::NoProcessToSignal => "No process to send the signal to"@,
            NoticeView::GossipWriteFailed { step, error } =>
                "Service configuration from butterfly failed to "@ + step_words(step) + ": "@
                + bold_painted(Highlight::Red, error),
            NoticeView::GossipConfigUpdated { checksum } =>
                "Service configuration updated from butterfly: "@ + bold_painted(
                Highlight::Green,
                checksum,
            ),
            NoticeView::Initializing => "Initializing"@,
            NoticeView::InitializationFailed { error } => "Initialization failed: "@ + error,
            NoticeView::ConfigGenerationFailed { error } =>
                "Error generating Service Configuration; not reconfiguring: "@ + error,
            NoticeView::ConfigWriteFailed { error } => "Failed to write service configuration: "@
                + error,
            NoticeView::ReconfigureHookFailed { error } => "Reconfiguration hook failed: "@
                + error,
        }
    }

    /// A lost quorum is a warning, a signal without a process is a trace, and
    /// everything else is plain information.
    pub open spec fn level(self) -> Level {
        match self {
            NoticeView::ElectionNoQuorum => Level::Warn,
            NoticeView::NoProcessToSignal => Level::Debug,
            _ => Level::Info,
        }
    }
}

fn step_text(step: WriteStep) -> (words: &'static str)
    ensures
        words@ == step_words(step),
{
    match step {
        WriteStep::CreateTemp => "open the new file",
        WriteStep::WriteTemp => "write",
        WriteStep::Rename => "rename",
        WriteStep::SetOwner => "set ownership",
        WriteStep::SetPermissions => "set permissions",
    }
}

/// A heading followed by a detail.
fn headed(heading: &str, detail: &str) -> (line: String)
    ensures
        line@ == heading@ + detail@,
{
    let mut line = String::from_str(heading);
    line.append(detail);
    line
}

impl Notice {
    /// The line to log for this notice.
    pub fn message(&self) -> (line: String)
        ensures
            line@ == self@.text(),
    {
        match self {
            Notice::RunningAs { user, group } => {
                let mut line = headed("Process will run as user=", user.as_str());
                line.append(", group=");
                line.append(group.as_str());
                line
            },
            Notice::ElectionInProgress => {
                let painted = paint_bold(Highlight::Yellow, "election in progress.");
                headed("Not restarting service; ", painted.as_str())
            },
            Notice::ElectionNoQuorum => {
                let election = paint_bold(Highlight::Yellow, "election in progress");
                let quorum = paint_bold(Highlight::Red, "and we have no quorum");
                let mut line = headed("Not restarting service; ", election.as_str());
                line.append(", ");
                line.append(quorum.as_str());
                line.append(".");
                line
            },
            Notice::Restarting { leader } => {
                let painted = paint_bold(Highlight::Green, leader.as_str());
                let mut line = headed("Restarting service; ", painted.as_str());
                line.append(" is the leader");
                line
            },
            Notice::NoProcessToSignal => String::from_str("No process to send the signal to"),
            Notice::GossipWriteFailed { step, error } => {
                let painted = paint_bold(Highlight::Red, error.as_str());
                let mut line = headed(
                    "Service configuration from butterfly failed to ",
                    step_text(*step),
                );
                line.append(": ");
                line.append(painted.as_str());
                line
            },
            Notice::GossipConfigUpdated { checksum } => {
                let painted = paint_bold(Highlight::Green, checksum.as_str());
                headed("Service configuration updated from butterfly: ", painted.as_str())
            },
            Notice::Initializing => String::from_str("Initializing"),
            Notice::InitializationFailed { error } => headed(
                "Initialization failed: ",
                error.as_str(),
            ),
            Notice::ConfigGenerationFailed { error } => headed(
                "Error generating Service Configuration; not reconfiguring: ",
                error.as_str(),
            ),
            Notice::ConfigWriteFailed { error } => headed(
                "Failed to write service configuration: ",
                error.as_str(),
            ),
            Notice::ReconfigureHookFailed { error } => headed(
                "Reconfiguration hook failed: ",
                error.as_str(),
            ),
        }
    }

    /// How loudly this notice is reported.
    pub fn level(&self) -> (level: Level)
        ensures
            level == self@.level(),
    {
        match self {
            Notice::ElectionNoQuorum => Level::Warn,
            Notice::NoProcessToSignal => Level::Debug,
            _ => Level::Info,
        }
    }
}

} // verus!
