//! The election snapshot: what gossip reports of each service group's leader
//! election at one moment.

use crate::views::option_view;
use vstd::prelude::*;

verus! {

/// What is known of one service group's election.
#[derive(Debug, PartialEq, Eq)]
pub struct Census {
    pub election_is_running: bool,
    pub election_is_no_quorum: bool,
    pub election_is_finished: bool,
    /// The member that the election named, once it has finished.
    pub leader: Option<String>,
}

/// What a `Census` stands for.
pub struct CensusView {
    pub election_is_running: bool,
    pub election_is_no_quorum: bool,
    pub election_is_finished: bool,
    pub leader: Option<Seq<char>>,
}

/// The one condition that a census amounts to.
#[derive(Clone, Copy, Debug, PartialEq, Eq, Structural)]
pub enum ElectionStatus {
    /// None of the three flags is set.
    Idle,
    Running,
    NoQuorum,
    Finished,
}

impl View for Census {
    type V = CensusView;

    open spec fn view(&self) -> CensusView {
        CensusView {
            election_is_running: self.election_is_running,
            election_is_no_quorum: self.election_is_no_quorum,
            election_is_finished: self.election_is_finished,
            leader: option_view(self.leader),
        }
    }
}

impl CensusView {
    /// The flags are read in a fixed order: a running election hides a lost
    /// quorum, and either hides a finished one.
    pub open spec fn status(self) -> ElectionStatus {
        if self.election_is_running {
            ElectionStatus::Running
        } else if self.election_is_no_quorum {
            ElectionStatus::NoQuorum
        } else if self.election_is_finished {
            ElectionStatus::Finished
        } else {
            ElectionStatus::Idle
        }
    }
}

impl Census {
    pub fn new(
        election_is_running: bool,
        election_is_no_quorum: bool,
        election_is_finished: bool,
        leader: Option<String>,
    ) -> (census: Census)
        ensures
            census@ == (CensusView {
                election_is_running,
                election_is_no_quorum,
                election_is_finished,
                leader: option_view(leader),
            }),
    {
        Census { election_is_running, election_is_no_quorum, election_is_finished, leader }
    }

    /// The condition that the flags amount to.
    pub fn status(&self) -> (status: ElectionStatus)
        ensures
            status == self@.status(),
    {
        if self.election_is_running {
            ElectionStatus::Running
        } else if self.election_is_no_quorum {
            ElectionStatus::NoQuorum
        } else if self.election_is_finished {
            ElectionStatus::Finished
        } else {
            ElectionStatus::Idle
        }
    }
}

#[derive(Debug, PartialEq, Eq)]
struct CensusEntry {
    key: String,
    census: Census,
}

/// The censuses of all service groups, each under its group's key.
#[derive(Debug, PartialEq, Eq)]
pub struct CensusList {
    entries: Vec<CensusEntry>,
}

/// The census of the first entry under `key`, if there is one.
spec fn lookup(entries: Seq<CensusEntry>, key: Seq<char>) -> Option<CensusView>
    decreases entries.len(),
{
    if entries.len() == 0 {
        None
    } else if entries[0].key@ == key {
        Some(entries[0].census@)
    } else {
        lookup(entries.drop_first(), key)
    }
}

/// Without a match among the first `i` entries, the search goes on behind them.
proof fn lemma_lookup_skip(entries: Seq<CensusEntry>, key: Seq<char>, i: int)
    requires
        0 <= i <= entries.len(),
        forall|j: int| 0 <= j < i ==> entries[j].key@ != key,
    ensures
        lookup(entries, key) == lookup(entries.skip(i), key),
    decreases i,
{
    if i == 0 {
        assert(entries.skip(0) =~= entries);
    } else {
        lemma_lookup_skip(entries.drop_first(), key, i - 1);
        assert(entries.drop_first().skip(i - 1) =~= entries.skip(i));
    }
}

/// Replacing the first entry under a key changes what is found under that
/// key and nothing else.
proof fn lemma_lookup_update(
    entries: Seq<CensusEntry>,
    i: int,
    entry: CensusEntry,
    key: Seq<char>,
)
    requires
        0 <= i < entries.len(),
        entries[i].key@ == entry.key@,
        forall|j: int| 0 <= j < i ==> entries[j].key@ != entry.key@,
    ensures
        lookup(entries.update(i, entry), key) == if key == entry.key@ {
            Some(entry.census@)
        } else {
            lookup(entries, key)
        },
    decreases i,
{
    let updated = entries.update(i, entry);
    if i == 0 {
        assert(updated.drop_first() =~= entries.drop_first());
    } else {
        lemma_lookup_update(entries.drop_first(), i - 1, entry, key);
        assert(updated.drop_first() =~= entries.drop_first().update(i - 1, entry));
    }
}

/// An entry under a new key, put last, is found under that key, and nothing
/// else changes.
proof fn lemma_lookup_push(entries: Seq<CensusEntry>, entry: CensusEntry, key: Seq<char>)
    requires
        lookup(entries, entry.key@) is None,
    ensures
        lookup(entries.push(entry), key) == if key == entry.key@ {
            Some(entry.census@)
        } else {
            lookup(entries, key)
        },
    decreases entries.len(),
{
    let pushed = entries.push(entry);
    if entries.len() == 0 {
        assert(pushed.drop_first() =~= entries);
    } else {
        lemma_lookup_push(entries.drop_first(), entry, key);
        assert(pushed.drop_first() =~= entries.drop_first().push(entry));
    }
}

impl View for CensusList {
    type V = Map<Seq<char>, CensusView>;

    closed spec fn view(&self) -> Map<Seq<char>, CensusView> {
        Map::new(
            |key: Seq<char>| lookup(self.entries@, key) is Some,
            |key: Seq<char>| lookup(self.entries@, key)->0,
        )
    }
}

impl CensusList {
    /// A snapshot that knows of no group.
    pub fn new() -> (list: CensusList)
        ensures
            list@ == Map::<Seq<char>, CensusView>::empty(),
    {
        let list = CensusList { entries: Vec::new() };
        assert(list@ =~= Map::<Seq<char>, CensusView>::empty());
        list
    }

    /// The index of the first entry under `key`.
    fn position(&self, key: &String) -> (found: Option<usize>)
        ensures
            match found {
                Some(i) => {
                    &&& i < self.entries@.len()
                    &&& self.entries@[i as int].key@ == key@
                    &&& forall|j: int| 0 <= j < i ==> self.entries@[j].key@ != key@
                    &&& lookup(self.entries@, key@) == Some(self.entries@[i as int].census@)
                },
                None => lookup(self.entries@, key@) is None,
            },
    {
        let mut i: usize = 0;
        while i < self.entries.len()
            invariant
                i <= self.entries@.len(),
                forall|j: int| 0 <= j < i ==> self.entries@[j].key@ != key@,
            decreases self.entries@.len() - i,
        {
            if self.entries[i].key == *key {
                proof {
                    lemma_lookup_skip(self.entries@, key@, i as int);
                }
                return Some(i);
            }
            i += 1;
        }
        proof {
            lemma_lookup_skip(self.entries@, key@, i as int);
        }
        None
    }

    /// Records `census` as the state of the group under `key`, in place of
    /// what was known of that group.
    pub fn insert(&mut self, key: String, census: Census)
        ensures
            final(self)@ == old(self)@.insert(key@, census@),
    {
        let found = self.position(&key);
        let entry = CensusEntry { key, census };
        proof {
            assert forall|other: Seq<char>|
                lookup(
                    match found {
                        Some(i) => self.entries@.update(i as int, entry),
                        None => self.entries@.push(entry),
                    },
                    other,
                ) == if other == entry.key@ {
                    Some(entry.census@)
                } else {
                    lookup(self.entries@, other)
                } by {
                match found {
                    Some(i) => lemma_lookup_update(self.entries@, i as int, entry, other),
                    None => lemma_lookup_push(self.entries@, entry, other),
                }
            }
        }
        match found {
            Some(i) => {
                self.entries.set(i, entry);
            },
            None => {
                self.entries.push(entry);
            },
        }
        assert(self@ =~= old(self)@.insert(key@, census@));
    }

    /// The census of the group under `key`, if the snapshot knows the group.
    pub fn get(&self, key: &String) -> (census: Option<&Census>)
        ensures
            option_view(census) == self@.get(key@),
    {
        match self.position(key) {
            Some(i) => Some(&self.entries[i].census),
            None => None,
        }
    }
}

} // verus!
