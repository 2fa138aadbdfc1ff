//! The identity of a service within its cluster.

use vstd::prelude::*;
use vstd::string::*;

verus! {

/// A service and the group of its instances that it belongs to.
#[derive(Debug, PartialEq, Eq)]
pub struct ServiceGroup {
    pub service: String,
    pub group: String,
}

/// What a `ServiceGroup` stands for: two texts.
pub struct ServiceGroupView {
    pub service: Seq<char>,
    pub group: Seq<char>,
}

impl ServiceGroupView {
    /// The key under which the group is known: service, a dot, group.
    pub open spec fn key(self) -> Seq<char> {
        self.service + seq!['.'] + self.group
    }
}

impl View for ServiceGroup {
    type V = ServiceGroupView;

    open spec fn view(&self) -> ServiceGroupView {
        ServiceGroupView { service: self.service@, group: self.group@ }
    }
}

impl ServiceGroup {
    pub fn new(service: String, group: String) -> (sg: ServiceGroup)
        ensures
            sg@ == (ServiceGroupView { service: service@, group: group@ }),
    {
        ServiceGroup { service, group }
    }

    /// The key of this group in an election snapshot and in log lines.
    pub fn key(&self) -> (key: String)
        ensures
            key@ == self@.key(),
    {
        let mut key = self.service.clone();
        proof {
            reveal_strlit(".");
        }
        key.append(".");
        key.append(self.group.as_str());
        assert(key@ =~= self@.key());
        key
    }
}

} // verus!
