//! The restart policy: whether a requested restart is issued now.
//!
//! A standalone service restarts whenever it is asked to. A service whose
//! group elects a leader restarts only once the election has finished, and
//! says why it waits: once per reason, however often it is asked.

use crate::census::{Census, CensusView, ElectionStatus};
use crate::config::Topology;
use crate::output::{Notice, NoticeView};
use crate::views::option_view;
use vstd::prelude::*;

verus! {

/// The reason last reported for a restart that was held back or issued. It
/// keeps the same line from being logged on every tick.
#[derive(Clone, Copy, Debug, PartialEq, Eq, Structural)]
pub enum LastRestartDisplay {
    /// Nothing was reported yet.
    Unset,
    ElectionInProgress,
    ElectionNoQuorum,
    ElectionFinished,
}

/// What one request for a restart comes to.
#[derive(Debug, PartialEq, Eq)]
pub struct RestartDecision {
    /// Whether the process is restarted now.
    pub restart_process: bool,
    /// The reason on record after this request.
    pub display: LastRestartDisplay,
    /// The line to log, where the reason is new.
    pub notice: Option<Notice>,
}

/// What a `RestartDecision` stands for.
pub struct RestartDecisionView {
    pub restart_process: bool,
    pub display: LastRestartDisplay,
    pub notice: Option<NoticeView>,
}

impl View for RestartDecision {
    type V = RestartDecisionView;

    open spec fn view(&self) -> RestartDecisionView {
        RestartDecisionView {
            restart_process: self.restart_process,
            display: self.display,
            notice: option_view(self.notice),
        }
    }
}

/// A finished election names its leader. Only a coordinated topology looks
/// at the census, so only there does it matter.
pub open spec fn leader_is_known(topology: Topology, census: Option<CensusView>) -> bool {
    topology.is_coordinated() ==> match census {
        Some(found) => found.status() == ElectionStatus::Finished ==> found.leader is Some,
        None => true,
    }
}

/// The reason that goes on record for an election's condition. A census
/// without a condition puts nothing on record, so the policy never asks for
/// that line of the table.
pub open spec fn display_for(status: ElectionStatus) -> LastRestartDisplay {
    match status {
        ElectionStatus::Idle => LastRestartDisplay::Unset,
        ElectionStatus::Running => LastRestartDisplay::ElectionInProgress,
        ElectionStatus::NoQuorum => LastRestartDisplay::ElectionNoQuorum,
        ElectionStatus::Finished => LastRestartDisplay::ElectionFinished,
    }
}

/// The line that reports an election's condition.
pub open spec fn notice_for(census: CensusView) -> Option<NoticeView> {
    match census.status() {
        ElectionStatus::Idle => None,
        ElectionStatus::Running => Some(NoticeView::ElectionInProgress),
        ElectionStatus::NoQuorum => Some(NoticeView::ElectionNoQuorum),
        ElectionStatus::Finished => Some(
            NoticeView::Restarting {
                leader: match census.leader {
                    Some(leader) => leader,
                    None => Seq::empty(),
                },
            },
        ),
    }
}

/// The policy as a table.
///
/// Standalone: restart, and leave the record alone. Otherwise, by the census
/// of the service's group: none, or one without a condition, changes
/// nothing; a running election or a lost quorum holds the restart back; a
/// finished election issues it. The three conditions go on record, and the
/// line is logged only where the record changes.
pub open spec fn restart_policy(
    topology: Topology,
    display: LastRestartDisplay,
    census: Option<CensusView>,
) -> RestartDecisionView {
    if !topology.is_coordinated() {
        RestartDecisionView { restart_process: true, display, notice: None }
    } else {
        match census {
            None => RestartDecisionView { restart_process: false, display, notice: None },
            Some(found) => if found.status() == ElectionStatus::Idle {
                RestartDecisionView { restart_process: false, display, notice: None }
            } else {
                RestartDecisionView {
                    restart_process: found.status() == ElectionStatus::Finished,
                    display: display_for(found.status()),
                    notice: if display == display_for(found.status()) {
                        None
                    } else {
                        notice_for(found)
                    },
                }
            },
        }
    }
}

/// Decides one request for a restart from the topology, the reason on record
/// and the census of the service's group, if the snapshot holds one.
pub fn decide_restart(
    topology: Topology,
    display: LastRestartDisplay,
    census: Option<&Census>,
) -> (decision: RestartDecision)
    requires
        leader_is_known(topology, option_view(census)),
    ensures
        decision@ == restart_policy(topology, display, option_view(census)),
{
    if !topology.is_coordinated() {
        return RestartDecision { restart_process: true, display, notice: None };
    }
    let found = match census {
        Some(found) => found,
        None => {
            return RestartDecision { restart_process: false, display, notice: None };
        },
    };
    match found.status() {
        ElectionStatus::Idle => RestartDecision { restart_process: false, display, notice: None },
        ElectionStatus::Running => RestartDecision {
            restart_process: false,
            display: LastRestartDisplay::ElectionInProgress,
            notice: if display != LastRestartDisplay::ElectionInProgress {
                Some(Notice::ElectionInProgress)
            } else {
                None
            },
        },
        ElectionStatus::NoQuorum => RestartDecision {
            restart_process: false,
            display: LastRestartDisplay::ElectionNoQuorum,
            notice: if display != LastRestartDisplay::ElectionNoQuorum {
                Some(Notice::ElectionNoQuorum)
            } else {
                None
            },
        },
        ElectionStatus::Finished => {
            let notice = if display != LastRestartDisplay::ElectionFinished {
                let leader = found.leader.as_ref().unwrap().clone();
                Some(Notice::Restarting { leader })
            } else {
                None
            };
            RestartDecision {
                restart_process: true,
                display: LastRestartDisplay::ElectionFinished,
                notice,
            }
        },
    }
}

} // verus!
