//! Undoing what provisioning set up.
//!
//! Release removes the link at the logical path and then the backing store
//! with all it holds. With the operator's override it removes nothing.

use vstd::prelude::*;
use crate::protocol::{Outcome, Place, ProvisionError, Reply, Request};

verus! {

/// How far the release of one logical path has come.
///
/// Release does not remember how the path was provisioned: it looks at the
/// mount again, and takes what is at the logical path for a symbolic link or
/// a file.
#[derive(Clone, Copy, Debug, PartialEq, Eq, Structural)]
pub enum Release {
    /// Asked whether the logical path exists.
    ProbingLogical,
    /// Removing the link or file at the logical path.
    Unlinking,
    /// Asked whether the RAM-backed mount is there.
    ProbingMount,
    /// Removing the backing store with all it holds.
    RemovingBacking,
    /// Nothing is left to do.
    Released,
    /// Release was given up.
    Failed(ProvisionError),
}

impl Release {
    /// The state in which release starts. With `persist` set the operator
    /// wants everything kept, and release is over before it began.
    pub open spec fn spec_begin(persist: bool) -> Release {
        if persist {
            Release::Released
        } else {
            Release::ProbingLogical
        }
    }

    /// The request that is waiting for its reply, if there is one.
    pub open spec fn spec_request(self) -> Option<Request> {
        match self {
            Release::ProbingLogical => Some(Request::ProbeExists(Place::Logical)),
            Release::Unlinking => Some(Request::RemoveFile(Place::Logical)),
            Release::ProbingMount => Some(Request::ProbeMount),
            Release::RemovingBacking => Some(Request::RemoveDirAll(Place::Backing)),
            Release::Released => None,
            Release::Failed(_) => None,
        }
    }

    /// The state that follows on a reply.
    ///
    /// Here a removal that did not work is never passed over. A reply of the
    /// wrong kind, or one that comes when nothing is pending, changes
    /// nothing.
    pub open spec fn spec_advance(self, reply: Reply) -> Release {
        match (self, reply) {
            (Release::ProbingLogical, Reply::Flag(true)) => Release::Unlinking,
            (Release::ProbingLogical, Reply::Flag(false)) => Release::ProbingMount,
            (Release::Unlinking, Reply::Effect(Outcome::Done)) => Release::ProbingMount,
            (Release::Unlinking, Reply::Effect(_)) => Release::Failed(ProvisionError::RemoveFailed),
            (Release::ProbingMount, Reply::Flag(true)) => Release::RemovingBacking,
            (Release::ProbingMount, Reply::Flag(false)) => Release::Released,
            (Release::RemovingBacking, Reply::Effect(Outcome::Done)) => Release::Released,
            (Release::RemovingBacking, Reply::Effect(_)) => Release::Failed(
                ProvisionError::RemoveFailed,
            ),
            _ => self,
        }
    }

    /// The most requests that can still follow from this state.
    pub open spec fn remaining(self) -> nat {
        match self {
            Release::ProbingLogical => 4,
            Release::Unlinking => 3,
            Release::ProbingMount => 2,
            Release::RemovingBacking => 1,
            Release::Released => 0,
            Release::Failed(_) => 0,
        }
    }

    /// How release ended: nothing while a request is pending.
    pub open spec fn spec_result(self) -> Option<Result<(), ProvisionError>> {
        match self {
            Release::Released => Some(Ok(())),
            Release::Failed(error) => Some(Err(error)),
            _ => None,
        }
    }

    /// Starts the release of a logical path.
    #[verifier::when_used_as_spec(spec_begin)]
    pub fn begin(persist: bool) -> (state: Release)
        ensures
            state == Release::spec_begin(persist),
    {
        if persist {
            Release::Released
        } else {
            Release::ProbingLogical
        }
    }

    /// The request to carry out next, or `None` when release is over.
    #[verifier::when_used_as_spec(spec_request)]
    pub fn request(self) -> (request: Option<Request>)
        ensures
            request == self.spec_request(),
            request is None <==> self.remaining() == 0,
    {
        match self {
            Release::ProbingLogical => Some(Request::ProbeExists(Place::Logical)),
            Release::Unlinking => Some(Request::RemoveFile(Place::Logical)),
            Release::ProbingMount => Some(Request::ProbeMount),
            Release::RemovingBacking => Some(Request::RemoveDirAll(Place::Backing)),
            Release::Released => None,
            Release::Failed(_) => None,
        }
    }

    /// Takes the reply to the pending request and moves on.
    ///
    /// Release is given up in one case and no other: what it asked to be
    /// removed was not removed.
    #[verifier::when_used_as_spec(spec_advance)]
    pub fn advance(self, reply: Reply) -> (state: Release)
        ensures
            state == self.spec_advance(reply),
            self.request() matches Some(request) && reply.fits(request)
                ==> state.remaining() < self.remaining(),
            !(self.request() matches Some(request) && reply.fits(request)) ==> state == self,
            !(self is Failed) ==> (state is Failed <==> {
                &&& self.request() matches Some(request)
                &&& !request.is_probe()
                &&& reply is Effect
                &&& reply != Reply::Effect(Outcome::Done)
            }),
            !(self is Failed) && state is Failed ==> state == Release::Failed(
                ProvisionError::RemoveFailed,
            ),
    {
        match (self, reply) {
            (Release::ProbingLogical, Reply::Flag(true)) => Release::Unlinking,
            (Release::ProbingLogical, Reply::Flag(false)) => Release::ProbingMount,
            (Release::Unlinking, Reply::Effect(Outcome::Done)) => Release::ProbingMount,
            (Release::Unlinking, Reply::Effect(_)) => Release::Failed(ProvisionError::RemoveFailed),
            (Release::ProbingMount, Reply::Flag(true)) => Release::RemovingBacking,
            (Release::ProbingMount, Reply::Flag(false)) => Release::Released,
            (Release::RemovingBacking, Reply::Effect(Outcome::Done)) => Release::Released,
            (Release::RemovingBacking, Reply::Effect(_)) => Release::Failed(
                ProvisionError::RemoveFailed,
            ),
            (state, _) => state,
        }
    }

    /// How release ended, or `None` while a request is pending.
    #[verifier::when_used_as_spec(spec_result)]
    pub fn result(self) -> (result: Option<Result<(), ProvisionError>>)
        ensures
            result == self.spec_result(),
    {
        match self {
            Release::Released => Some(Ok(())),
            Release::Failed(error) => Some(Err(error)),
            _ => None,
        }
    }
}

} // verus!
