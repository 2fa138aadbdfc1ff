//! Persisting the configuration that the gossip layer delivers.
//!
//! The blob is stored as it came. It replaces the file on disk only when its
//! checksum differs from that of the file, and then by a rename, so that a
//! reader of the file sees the old text or the new one and never a part of
//! either. The host makes the file-system calls; `GossipWrite` says which
//! call comes next and what the exchange amounts to in the end.

use crate::config::{RuntimeConfig, RuntimeConfigView};
use crate::output::{Notice, NoticeView};
use crate::views::option_view;
use vstd::prelude::*;
use vstd::string::*;

verus! {

/// Owner and group may read, write and execute; nobody else has access.
pub const GOSSIP_FILE_MODE: u32 = 0o770;

/// The file-system operations that put a new configuration in place, in the
/// order in which they are made: the write, which takes two calls, then the
/// rename, the change of owner and the change of mode. Each can fail by
/// itself.
#[derive(Clone, Copy, Debug, PartialEq, Eq, Structural)]
pub enum WriteStep {
    /// Create the temporary file beside the configuration.
    CreateTemp,
    /// Write the whole configuration into the temporary file.
    WriteTemp,
    /// Rename the temporary file over the configuration.
    Rename,
    /// Hand the configuration to the service's user and group.
    SetOwner,
    /// Restrict the configuration to its owner and group.
    SetPermissions,
}

impl WriteStep {
    /// The step that follows this one, if any.
    pub open spec fn spec_next(self) -> Option<WriteStep> {
        match self {
            WriteStep::CreateTemp => Some(WriteStep::WriteTemp),
            WriteStep::WriteTemp => Some(WriteStep::Rename),
            WriteStep::Rename => Some(WriteStep::SetOwner),
            WriteStep::SetOwner => Some(WriteStep::SetPermissions),
            WriteStep::SetPermissions => None,
        }
    }

    #[verifier::when_used_as_spec(spec_next)]
    pub fn next(self) -> (following: Option<WriteStep>)
        ensures
            following == self.spec_next(),
    {
        match self {
            WriteStep::CreateTemp => Some(WriteStep::WriteTemp),
            WriteStep::WriteTemp => Some(WriteStep::Rename),
            WriteStep::Rename => Some(WriteStep::SetOwner),
            WriteStep::SetOwner => Some(WriteStep::SetPermissions),
            WriteStep::SetPermissions => None,
        }
    }
}

/// Where an exchange stands.
#[derive(Clone, Copy, Debug, PartialEq, Eq, Structural)]
pub enum WriteStage {
    /// The host is to make this step next.
    Pending(WriteStep),
    /// The file already holds this configuration; nothing was written.
    Unchanged,
    /// Every step succeeded: the new configuration is in place.
    Written,
    /// This step failed; the steps after it were not made.
    Failed(WriteStep),
}

/// One call that the host makes on the file system.
#[derive(Debug, PartialEq, Eq)]
pub enum FsRequest {
    /// Create the file, or empty it if it exists.
    CreateFile { path: String },
    /// Write the contents into the file just created.
    WriteAll { path: String, contents: String },
    /// Move the file at `from` to `to`, replacing what is there.
    Rename { from: String, to: String },
    /// Make `user` and `group` the owners of the file.
    SetOwner { path: String, user: String, group: String },
    /// Set the permission bits of the file.
    SetPermissions { path: String, mode: u32 },
}

/// What an `FsRequest` stands for.
pub enum FsRequestView {
    CreateFile { path: Seq<char> },
    WriteAll { path: Seq<char>, contents: Seq<char> },
    Rename { from: Seq<char>, to: Seq<char> },
    SetOwner { path: Seq<char>, user: Seq<char>, group: Seq<char> },
    SetPermissions { path: Seq<char>, mode: u32 },
}

impl View for FsRequest {
    type V = FsRequestView;

    open spec fn view(&self) -> FsRequestView {
        match self {
            FsRequest::CreateFile { path } => FsRequestView::CreateFile { path: path@ },
            FsRequest::WriteAll { path, contents } => FsRequestView::WriteAll {
                path: path@,
                contents: contents@,
            },
            FsRequest::Rename { from, to } => FsRequestView::Rename { from: from@, to: to@ },
            FsRequest::SetOwner { path, user, group } => FsRequestView::SetOwner {
                path: path@,
                user: user@,
                group: group@,
            },
            FsRequest::SetPermissions { path, mode } => FsRequestView::SetPermissions {
                path: path@,
                mode: *mode,
            },
        }
    }
}

/// The temporary file that a configuration is written to before it is renamed
/// over `path`: the same name with `.write` behind it.
pub open spec fn temp_path(path: Seq<char>) -> Seq<char> {
    path + ".write"@
}

/// An exchange with the file system that puts one configuration blob in place.
#[derive(Debug, PartialEq, Eq)]
pub struct GossipWrite {
    path: String,
    config: String,
    checksum: String,
    owner: RuntimeConfig,
    stage: WriteStage,
}

/// What a `GossipWrite` stands for.
pub struct GossipWriteView {
    /// Where the configuration lives.
    pub path: Seq<char>,
    /// The configuration to put there.
    pub config: Seq<char>,
    /// The checksum of that configuration.
    pub checksum: Seq<char>,
    /// Who is to own the file.
    pub owner: RuntimeConfigView,
    pub stage: WriteStage,
}

impl View for GossipWrite {
    type V = GossipWriteView;

    closed spec fn view(&self) -> GossipWriteView {
        GossipWriteView {
            path: self.path@,
            config: self.config@,
            checksum: self.checksum@,
            owner: self.owner@,
            stage: self.stage,
        }
    }
}

/// The checksum that stands for a file: its own, or the empty text where the
/// file is missing or cannot be read.
pub open spec fn checksum_or_empty(on_disk: Option<Seq<char>>) -> Seq<char> {
    match on_disk {
        Some(checksum) => checksum,
        None => Seq::empty(),
    }
}

impl GossipWriteView {
    /// The exchange before its first step. Equal checksums end it at once.
    pub open spec fn begin(
        path: Seq<char>,
        config: Seq<char>,
        on_disk: Option<Seq<char>>,
        checksum: Seq<char>,
        owner: RuntimeConfigView,
    ) -> GossipWriteView {
        GossipWriteView {
            path,
            config,
            checksum,
            owner,
            stage: if checksum == checksum_or_empty(on_disk) {
                WriteStage::Unchanged
            } else {
                WriteStage::Pending(WriteStep::CreateTemp)
            },
        }
    }

    /// The call that a step amounts to.
    pub open spec fn request_for(self, step: WriteStep) -> FsRequestView {
        match step {
            WriteStep::CreateTemp => FsRequestView::CreateFile { path: temp_path(self.path) },
            WriteStep::WriteTemp => FsRequestView::WriteAll {
                path: temp_path(self.path),
                contents: self.config,
            },
            WriteStep::Rename => FsRequestView::Rename {
                from: temp_path(self.path),
                to: self.path,
            },
            WriteStep::SetOwner => FsRequestView::SetOwner {
                path: self.path,
                user: self.owner.svc_user,
                group: self.owner.svc_group,
            },
            WriteStep::SetPermissions => FsRequestView::SetPermissions {
                path: self.path,
                mode: GOSSIP_FILE_MODE,
            },
        }
    }

    /// The call that the host is to make now; none once the exchange is over.
    pub open spec fn request(self) -> Option<FsRequestView> {
        match self.stage {
            WriteStage::Pending(step) => Some(self.request_for(step)),
            _ => None,
        }
    }

    /// The exchange after the pending step succeeded (`ok`) or failed. A
    /// failure ends it; so does the success of the last step. An exchange
    /// that is over stays as it is.
    pub open spec fn advance(self, ok: bool) -> GossipWriteView {
        match self.stage {
            WriteStage::Pending(step) => GossipWriteView {
                stage: if !ok {
                    WriteStage::Failed(step)
                } else {
                    match step.spec_next() {
                        Some(following) => WriteStage::Pending(following),
                        None => WriteStage::Written,
                    }
                },
                ..self
            },
            _ => self,
        }
    }

    /// The line to report as the pending step comes back: the failure, or the
    /// update once the last step has succeeded.
    pub open spec fn notice(self, outcome: Result<(), Seq<char>>) -> Option<NoticeView> {
        match self.stage {
            WriteStage::Pending(step) => match outcome {
                Err(error) => Some(NoticeView::GossipWriteFailed { step, error }),
                Ok(_) => if step.spec_next() is None {
                    Some(NoticeView::GossipConfigUpdated { checksum: self.checksum })
                } else {
                    None
                },
            },
            _ => None,
        }
    }

    /// Whether the configuration on disk was replaced: unknown while a step
    /// is pending, `true` only when every step succeeded.
    pub open spec fn result(self) -> Option<bool> {
        match self.stage {
            WriteStage::Pending(_) => None,
            WriteStage::Written => Some(true),
            WriteStage::Unchanged => Some(false),
            WriteStage::Failed(_) => Some(false),
        }
    }
}

/// What a step's outcome stands for.
pub open spec fn outcome_view(outcome: Result<(), String>) -> Result<(), Seq<char>> {
    match outcome {
        Ok(_) => Ok(()),
        Err(error) => Err(error@),
    }
}

impl GossipWrite {
    /// Opens the exchange for `config`, whose checksum is `checksum`, at
    /// `path`. `on_disk` is the checksum of the file now at `path`, or `None`
    /// where the file is missing or cannot be read.
    pub fn begin(
        path: String,
        config: String,
        on_disk: Option<String>,
        checksum: String,
        owner: RuntimeConfig,
    ) -> (write: GossipWrite)
        ensures
            write@ == GossipWriteView::begin(
                path@,
                config@,
                option_view(on_disk),
                checksum@,
                owner@,
            ),
    {
        let current = match on_disk {
            Some(found) => found,
            None => String::new(),
        };
        let stage = if checksum == current {
            WriteStage::Unchanged
        } else {
            WriteStage::Pending(WriteStep::CreateTemp)
        };
        GossipWrite { path, config, checksum, owner, stage }
    }

    /// Where the exchange stands.
    pub fn stage(&self) -> (stage: WriteStage)
        ensures
            stage == self@.stage,
    {
        self.stage
    }

    /// The call that the host is to make now; `None` once the exchange is
    /// over.
    pub fn request(&self) -> (request: Option<FsRequest>)
        ensures
            option_view(request) == self@.request(),
    {
        match self.stage {
            WriteStage::Pending(step) => {
                let request = match step {
                    WriteStep::CreateTemp => FsRequest::CreateFile { path: self.temp_name() },
                    WriteStep::WriteTemp => FsRequest::WriteAll {
                        path: self.temp_name(),
                        contents: self.config.clone(),
                    },
                    WriteStep::Rename => FsRequest::Rename {
                        from: self.temp_name(),
                        to: self.path.clone(),
                    },
                    WriteStep::SetOwner => FsRequest::SetOwner {
                        path: self.path.clone(),
                        user: self.owner.svc_user.clone(),
                        group: self.owner.svc_group.clone(),
                    },
                    WriteStep::SetPermissions => FsRequest::SetPermissions {
                        path: self.path.clone(),
                        mode: GOSSIP_FILE_MODE,
                    },
                };
                Some(request)
            },
            _ => None,
        }
    }

    /// Takes the outcome of the pending step and moves on. Returns the line
    /// to report, if the outcome calls for one.
    pub fn advance(&mut self, outcome: Result<(), String>) -> (notice: Option<Notice>)
        ensures
            final(self)@ == old(self)@.advance(outcome is Ok),
            option_view(notice) == old(self)@.notice(outcome_view(outcome)),
    {
        match self.stage {
            WriteStage::Pending(step) => match outcome {
                Err(error) => {
                    self.stage = WriteStage::Failed(step);
                    Some(Notice::GossipWriteFailed { step, error })
                },
                Ok(_) => match step.next() {
                    Some(following) => {
                        self.stage = WriteStage::Pending(following);
                        None
                    },
                    None => {
                        self.stage = WriteStage::Written;
                        Some(Notice::GossipConfigUpdated { checksum: self.checksum.clone() })
                    },
                },
            },
            _ => None,
        }
    }

    /// Whether the configuration on disk was replaced; `None` while a step is
    /// pending. `Some(false)` covers both a file that needed no change and a
    /// step that failed: `stage` tells the two apart.
    pub fn result(&self) -> (result: Option<bool>)
        ensures
            result == self@.result(),
    {
        match self.stage {
            WriteStage::Pending(_) => None,
            WriteStage::Written => Some(true),
            WriteStage::Unchanged => Some(false),
            WriteStage::Failed(_) => Some(false),
        }
    }

    fn temp_name(&self) -> (name: String)
        ensures
            name@ == temp_path(self@.path),
    {
        let mut name = self.path.clone();
        name.append(".write");
        name
    }
}

} // verus!
