//! Making the logical path ready for use.
//!
//! Provisioning prefers RAM. With the mount there and no override, it makes
//! the backing store of the process, clears away what stands at the logical
//! path, and links the logical path to the store. Otherwise it makes an
//! ordinary directory at the logical path.
//!
//! What stands at the logical path is looked at first and removed after:
//! nothing else may change that path in between. The campaign provisions
//! once, from one thread, when it starts.

use vstd::prelude::*;
use crate::protocol::{Mode, Outcome, Place, ProvisionError, Reply, Request};

verus! {

/// How far the provisioning of one logical path has come.
///
/// Every state but the last two waits for the reply to one request.
#[derive(Clone, Copy, Debug, PartialEq, Eq, Structural)]
pub enum Acquire {
    /// Asked whether the RAM-backed mount is there.
    ProbingMount,
    /// Warning that it is not.
    WarningNoMount,
    /// Creating an ordinary directory at the logical path.
    CreatingDirect,
    /// Creating the backing store under the mount.
    CreatingBacking,
    /// Asked whether the logical path exists already.
    ProbingLogical,
    /// Asked whether what is at the logical path is a directory.
    ProbingLogicalKind,
    /// Removing the directory tree at the logical path.
    ClearingTree,
    /// Removing the file at the logical path.
    ClearingFile,
    /// Linking the logical path to the backing store.
    Linking,
    /// The logical path is ready.
    Provisioned(Mode),
    /// Provisioning was given up.
    Failed(ProvisionError),
}

impl Acquire {
    /// The state in which provisioning starts. With `persist` set the
    /// operator keeps the working storage on disk and the mount is not even
    /// looked at.
    pub open spec fn spec_begin(persist: bool) -> Acquire {
        if persist {
            Acquire::CreatingDirect
        } else {
            Acquire::ProbingMount
        }
    }

    /// The request that is waiting for its reply, if there is one.
    pub open spec fn spec_request(self) -> Option<Request> {
        match self {
            Acquire::ProbingMount => Some(Request::ProbeMount),
            Acquire::WarningNoMount => Some(Request::WarnNoMount),
            Acquire::CreatingDirect => Some(Request::CreateDirAll(Place::Logical)),
            Acquire::CreatingBacking => Some(Request::CreateDirAll(Place::Backing)),
            Acquire::ProbingLogical => Some(Request::ProbeExists(Place::Logical)),
            Acquire::ProbingLogicalKind => Some(Request::ProbeIsDir(Place::Logical)),
            Acquire::ClearingTree => Some(Request::RemoveDirAll(Place::Logical)),
            Acquire::ClearingFile => Some(Request::RemoveFile(Place::Logical)),
            Acquire::Linking => Some(Request::Symlink),
            Acquire::Provisioned(_) => None,
            Acquire::Failed(_) => None,
        }
    }

    /// The state that follows on a reply.
    ///
    /// A directory that exists already counts as created. What is in the way
    /// at the logical path is removed on a best effort: if that did not
    /// work, the link that follows will fail and say so. A reply of the
    /// wrong kind, or one that comes when nothing is pending, changes
    /// nothing.
    pub open spec fn spec_advance(self, reply: Reply) -> Acquire {
        match (self, reply) {
            (Acquire::ProbingMount, Reply::Flag(true)) => Acquire::CreatingBacking,
            (Acquire::ProbingMount, Reply::Flag(false)) => Acquire::WarningNoMount,
            (Acquire::WarningNoMount, Reply::Effect(_)) => Acquire::CreatingDirect,
            (Acquire::CreatingDirect, Reply::Effect(Outcome::Failed)) => Acquire::Failed(
                ProvisionError::CreateFailed,
            ),
            (Acquire::CreatingDirect, Reply::Effect(_)) => Acquire::Provisioned(Mode::Direct),
            (Acquire::CreatingBacking, Reply::Effect(Outcome::Failed)) => Acquire::Failed(
                ProvisionError::CreateFailed,
            ),
            (Acquire::CreatingBacking, Reply::Effect(_)) => Acquire::ProbingLogical,
            (Acquire::ProbingLogical, Reply::Flag(true)) => Acquire::ProbingLogicalKind,
            (Acquire::ProbingLogical, Reply::Flag(false)) => Acquire::Linking,
            (Acquire::ProbingLogicalKind, Reply::Flag(true)) => Acquire::ClearingTree,
            (Acquire::ProbingLogicalKind, Reply::Flag(false)) => Acquire::ClearingFile,
            (Acquire::ClearingTree, Reply::Effect(_)) => Acquire::Linking,
            (Acquire::ClearingFile, Reply::Effect(_)) => Acquire::Linking,
            (Acquire::Linking, Reply::Effect(Outcome::Done)) => Acquire::Provisioned(
                Mode::Indirect,
            ),
            (Acquire::Linking, Reply::Effect(_)) => Acquire::Failed(ProvisionError::SymlinkFailed),
            _ => self,
        }
    }

    /// How provisioning ended: the mode on success, the error on failure,
    /// nothing while a request is pending.
    pub open spec fn spec_result(self) -> Option<Result<Mode, ProvisionError>> {
        match self {
            Acquire::Provisioned(mode) => Some(Ok(mode)),
            Acquire::Failed(error) => Some(Err(error)),
            _ => None,
        }
    }

    /// The most requests that can still follow from this state.
    pub open spec fn remaining(self) -> nat {
        match self {
            Acquire::ProbingMount => 6,
            Acquire::CreatingBacking => 5,
            Acquire::ProbingLogical => 4,
            Acquire::ProbingLogicalKind => 3,
            Acquire::ClearingTree => 2,
            Acquire::ClearingFile => 2,
            Acquire::WarningNoMount => 2,
            Acquire::Linking => 1,
            Acquire::CreatingDirect => 1,
            Acquire::Provisioned(_) => 0,
            Acquire::Failed(_) => 0,
        }
    }

    /// Starts the provisioning of a logical path.
    #[verifier::when_used_as_spec(spec_begin)]
    pub fn begin(persist: bool) -> (state: Acquire)
        ensures
            state == Acquire::spec_begin(persist),
    {
        if persist {
            Acquire::CreatingDirect
        } else {
            Acquire::ProbingMount
        }
    }

    /// The request to carry out next, or `None` when provisioning is over.
    #[verifier::when_used_as_spec(spec_request)]
    pub fn request(self) -> (request: Option<Request>)
        ensures
            request == self.spec_request(),
            request is None <==> self.remaining() == 0,
    {
        match self {
            Acquire::ProbingMount => Some(Request::ProbeMount),
            Acquire::WarningNoMount => Some(Request::WarnNoMount),
            Acquire::CreatingDirect => Some(Request::CreateDirAll(Place::Logical)),
            Acquire::CreatingBacking => Some(Request::CreateDirAll(Place::Backing)),
            Acquire::ProbingLogical => Some(Request::ProbeExists(Place::Logical)),
            Acquire::ProbingLogicalKind => Some(Request::ProbeIsDir(Place::Logical)),
            Acquire::ClearingTree => Some(Request::RemoveDirAll(Place::Logical)),
            Acquire::ClearingFile => Some(Request::RemoveFile(Place::Logical)),
            Acquire::Linking => Some(Request::Symlink),
            Acquire::Provisioned(_) => None,
            Acquire::Failed(_) => None,
        }
    }

    /// Takes the reply to the pending request and moves on.
    ///
    /// Provisioning is given up in two cases and no other: a directory
    /// could not be created, for another reason than that the path exists
    /// already; or the link could not be made, for whatever reason.
    #[verifier::when_used_as_spec(spec_advance)]
    pub fn advance(self, reply: Reply) -> (state: Acquire)
        ensures
            state == self.spec_advance(reply),
            self.request() matches Some(request) && reply.fits(request)
                ==> state.remaining() < self.remaining(),
            !(self.request() matches Some(request) && reply.fits(request)) ==> state == self,
            !(self is Failed) ==> (state is Failed <==> {
                ||| self.request() matches Some(Request::CreateDirAll(_)) && reply
                    == Reply::Effect(Outcome::Failed)
                ||| self.request() == Some(Request::Symlink) && reply is Effect && reply
                    != Reply::Effect(Outcome::Done)
            }),
            !(self is Failed) && state is Failed ==> state == Acquire::Failed(
                if self.request() == Some(Request::Symlink) {
                    ProvisionError::SymlinkFailed
                } else {
                    ProvisionError::CreateFailed
                },
            ),
    {
        match (self, reply) {
            (Acquire::ProbingMount, Reply::Flag(true)) => Acquire::CreatingBacking,
            (Acquire::ProbingMount, Reply::Flag(false)) => Acquire::WarningNoMount,
            (Acquire::WarningNoMount, Reply::Effect(_)) => Acquire::CreatingDirect,
            (Acquire::CreatingDirect, Reply::Effect(Outcome::Failed)) => Acquire::Failed(
                ProvisionError::CreateFailed,
            ),
            (Acquire::CreatingDirect, Reply::Effect(_)) => Acquire::Provisioned(Mode::Direct),
            (Acquire::CreatingBacking, Reply::Effect(Outcome::Failed)) => Acquire::Failed(
                ProvisionError::CreateFailed,
            ),
            (Acquire::CreatingBacking, Reply::Effect(_)) => Acquire::ProbingLogical,
            (Acquire::ProbingLogical, Reply::Flag(true)) => Acquire::ProbingLogicalKind,
            (Acquire::ProbingLogical, Reply::Flag(false)) => Acquire::Linking,
            (Acquire::ProbingLogicalKind, Reply::Flag(true)) => Acquire::ClearingTree,
            (Acquire::ProbingLogicalKind, Reply::Flag(false)) => Acquire::ClearingFile,
            (Acquire::ClearingTree, Reply::Effect(_)) => Acquire::Linking,
            (Acquire::ClearingFile, Reply::Effect(_)) => Acquire::Linking,
            (Acquire::Linking, Reply::Effect(Outcome::Done)) => Acquire::Provisioned(
                Mode::Indirect,
            ),
            (Acquire::Linking, Reply::Effect(_)) => Acquire::Failed(ProvisionError::SymlinkFailed),
            (state, _) => state,
        }
    }

    /// How provisioning ended, or `None` while a request is pending.
    #[verifier::when_used_as_spec(spec_result)]
    pub fn result(self) -> (result: Option<Result<Mode, ProvisionError>>)
        ensures
            result == self.spec_result(),
    {
        match self {
            Acquire::Provisioned(mode) => Some(Ok(mode)),
            Acquire::Failed(error) => Some(Err(error)),
            _ => None,
        }
    }
}

} // verus!
