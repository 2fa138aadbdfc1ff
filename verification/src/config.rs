//! Settings fixed when a service is put under supervision.

use vstd::prelude::*;

verus! {

/// How the members of a service group coordinate.
#[derive(Clone, Copy, Debug, PartialEq, Eq, Structural)]
pub enum Topology {
    /// No coordination: every member acts on its own.
    Standalone,
    /// One elected member leads the group.
    Leader,
    /// One elected member initializes before the others.
    Initializer,
}

/// How new releases of the package are rolled out. Recorded for observers; the
/// restart policy never reads it.
#[derive(Clone, Copy, Debug, PartialEq, Eq, Structural)]
pub enum UpdateStrategy {
    /// Releases are never applied by themselves.
    Never,
    /// Every member takes a new release as soon as it sees it.
    AtOnce,
    /// Members take a new release one after another.
    Rolling,
}

/// The operating-system identity that a service's process runs under.
#[derive(Debug, PartialEq, Eq)]
pub struct RuntimeConfig {
    pub svc_user: String,
    pub svc_group: String,
}

/// What a `RuntimeConfig` stands for: the two names.
pub struct RuntimeConfigView {
    pub svc_user: Seq<char>,
    pub svc_group: Seq<char>,
}

impl View for RuntimeConfig {
    type V = RuntimeConfigView;

    open spec fn view(&self) -> RuntimeConfigView {
        RuntimeConfigView { svc_user: self.svc_user@, svc_group: self.svc_group@ }
    }
}

impl RuntimeConfig {
    pub fn new(svc_user: String, svc_group: String) -> (config: RuntimeConfig)
        ensures
            config@ == (RuntimeConfigView { svc_user: svc_user@, svc_group: svc_group@ }),
    {
        RuntimeConfig { svc_user, svc_group }
    }

    /// A second record of the same identity.
    pub fn duplicate(&self) -> (copy: RuntimeConfig)
        ensures
            copy@ == self@,
    {
        RuntimeConfig { svc_user: self.svc_user.clone(), svc_group: self.svc_group.clone() }
    }
}

impl Topology {
    /// Whether restarts under this topology wait for an election.
    pub open spec fn spec_is_coordinated(self) -> bool {
        self != Topology::Standalone
    }

    #[verifier::when_used_as_spec(spec_is_coordinated)]
    pub fn is_coordinated(self) -> (coordinated: bool)
        ensures
            coordinated == self.spec_is_coordinated(),
    {
        match self {
            Topology::Standalone => false,
            Topology::Leader => true,
            Topology::Initializer => true,
        }
    }
}

} // verus!
