//! A small model of the filesystem, as far as the provisioner can see it.
//!
//! The model knows three things: whether the RAM-backed mount is there, what
//! stands at the logical path, and what stands at the path of the backing
//! store. It answers every request as a filesystem does that refuses an
//! operation only for what stands at the operation's own path: the directory
//! above the logical path is there, and there is no missing permission, no
//! full disk, no I/O error. It takes the logical path and the store for two
//! different paths, neither inside the other.
//!
//! The model serves two ends. The laws of this crate say what provisioning
//! and release do to such a world, and a test can run both against it
//! without touching a real filesystem.

use vstd::prelude::*;
use crate::acquire::Acquire;
use crate::protocol::{Outcome, Place, Reply, Request};
use crate::release::Release;

verus! {

/// What a symbolic link leads to.
#[derive(Clone, Copy, Debug, PartialEq, Eq, Structural)]
pub enum Target {
    /// The path of the backing store, whatever stands there.
    Store,
    /// Some other path, at which nothing is found.
    Nowhere,
    /// Some other path, at which a file is found.
    SomeFile,
    /// Some other path, at which a directory is found.
    SomeDirectory,
}

/// What stands at a path.
#[derive(Clone, Copy, Debug, PartialEq, Eq, Structural)]
pub enum Node {
    /// Nothing.
    Absent,
    /// A plain file.
    File,
    /// A directory, which holds something or not.
    Directory { empty: bool },
    /// A symbolic link.
    Link(Target),
}

/// The filesystem as the provisioner sees it.
#[derive(Clone, Copy, Debug, PartialEq, Eq, Structural)]
pub struct World {
    /// Whether the RAM-backed mount point is a directory. Where it is not,
    /// the model takes it to be absent.
    pub mount: bool,
    /// What stands at the logical path.
    pub logical: Node,
    /// What stands at the path of the backing store.
    pub backing: Node,
}

/// Where a run ended: the state reached, the world as it then is, and the
/// requests that were made, in order.
pub struct Course<S> {
    pub end: S,
    pub world: World,
    pub requests: Seq<Request>,
}

/// A run against a [`World`], as a test sees it.
#[derive(Debug)]
pub struct Run<S> {
    /// The state in which the run ended.
    pub end: S,
    /// The world after the run.
    pub world: World,
    /// The requests that were made, in order.
    pub requests: Vec<Request>,
}

impl<S> View for Run<S> {
    type V = Course<S>;

    open spec fn view(&self) -> Course<S> {
        Course { end: self.end, world: self.world, requests: self.requests@ }
    }
}

impl Node {
    /// Whether `later` can stand here once the campaign has worked in its
    /// storage: the same node, or a directory where a directory stood,
    /// whatever the two hold.
    pub open spec fn may_become(self, later: Node) -> bool {
        self == later || (self is Directory && later is Directory)
    }
}

impl World {
    /// Nothing can stand under a mount point that is not there.
    pub open spec fn consistent(self) -> bool {
        !self.mount ==> self.backing is Absent
    }

    /// Whether `later` is this world after the campaign has worked in its
    /// storage: nothing differs but what the directories hold.
    pub open spec fn worked_in(self, later: World) -> bool {
        &&& later.mount == self.mount
        &&& self.logical.may_become(later.logical)
        &&& self.backing.may_become(later.backing)
    }

    /// What stands at a place.
    pub open spec fn at(self, place: Place) -> Node {
        match place {
            Place::Logical => self.logical,
            Place::Backing => self.backing,
        }
    }

    /// The world with another node at a place. Whatever is put at the store
    /// brings the mount point with it.
    pub open spec fn put(self, place: Place, node: Node) -> World {
        match place {
            Place::Logical => World { logical: node, ..self },
            Place::Backing => World {
                mount: self.mount || !(node is Absent),
                backing: node,
                ..self
            },
        }
    }

    /// Whether a lookup of the store's path that follows links ends at
    /// something. A link at the store's path that leads back to that path
    /// ends nowhere.
    pub open spec fn store_present(self) -> bool {
        match self.backing {
            Node::Absent => false,
            Node::File => true,
            Node::Directory { .. } => true,
            Node::Link(Target::SomeFile) => true,
            Node::Link(Target::SomeDirectory) => true,
            Node::Link(_) => false,
        }
    }

    /// Whether a lookup of the store's path that follows links ends at a
    /// directory.
    pub open spec fn store_is_dir(self) -> bool {
        match self.backing {
            Node::Directory { .. } => true,
            Node::Link(Target::SomeDirectory) => true,
            _ => false,
        }
    }

    /// Whether a lookup of the place that follows links ends at something.
    pub open spec fn spec_present(self, place: Place) -> bool {
        match place {
            Place::Backing => self.store_present(),
            Place::Logical => match self.logical {
                Node::Absent => false,
                Node::File => true,
                Node::Directory { .. } => true,
                Node::Link(Target::Store) => self.store_present(),
                Node::Link(Target::Nowhere) => false,
                Node::Link(Target::SomeFile) => true,
                Node::Link(Target::SomeDirectory) => true,
            },
        }
    }

    /// Whether a lookup of the place that follows links ends at a directory:
    /// whether the place can be used as one.
    pub open spec fn spec_is_dir(self, place: Place) -> bool {
        match place {
            Place::Backing => self.store_is_dir(),
            Place::Logical => match self.logical {
                Node::Directory { .. } => true,
                Node::Link(Target::Store) => self.store_is_dir(),
                Node::Link(Target::SomeDirectory) => true,
                _ => false,
            },
        }
    }

    /// The world after a request, and the reply to it.
    ///
    /// - Creating a directory makes an empty one where nothing stands, leaves
    ///   alone what can be used as a directory, and is refused as existing
    ///   already by anything else.
    /// - Removing a tree takes away a directory or a link, and fails on a
    ///   file and where nothing stands.
    /// - Removing a file takes away a file or a link, and fails on a
    ///   directory and where nothing stands.
    /// - The link is made where nothing stands at the logical path, and is
    ///   refused as existing already otherwise.
    pub open spec fn spec_respond(self, request: Request) -> (World, Reply) {
        match request {
            Request::ProbeMount => (self, Reply::Flag(self.mount)),
            Request::ProbeExists(place) => (self, Reply::Flag(self.spec_present(place))),
            Request::ProbeIsDir(place) => (self, Reply::Flag(self.spec_is_dir(place))),
            Request::CreateDirAll(place) => if self.at(place) is Absent {
                (self.put(place, Node::Directory { empty: true }), Reply::Effect(Outcome::Done))
            } else if self.spec_is_dir(place) {
                (self, Reply::Effect(Outcome::Done))
            } else {
                (self, Reply::Effect(Outcome::AlreadyExists))
            },
            Request::RemoveDirAll(place) => match self.at(place) {
                Node::Directory { .. } | Node::Link(_) => (
                    self.put(place, Node::Absent),
                    Reply::Effect(Outcome::Done),
                ),
                _ => (self, Reply::Effect(Outcome::Failed)),
            },
            Request::RemoveFile(place) => match self.at(place) {
                Node::File | Node::Link(_) => (
                    self.put(place, Node::Absent),
                    Reply::Effect(Outcome::Done),
                ),
                _ => (self, Reply::Effect(Outcome::Failed)),
            },
            Request::Symlink => if self.logical is Absent {
                (self.put(Place::Logical, Node::Link(Target::Store)), Reply::Effect(Outcome::Done))
            } else {
                (self, Reply::Effect(Outcome::AlreadyExists))
            },
            Request::WarnNoMount => (self, Reply::Effect(Outcome::Done)),
        }
    }

    /// Provisioning continued from `state` in this world until nothing is
    /// pending, after the requests in `made`.
    pub open spec fn acquire_from(self, state: Acquire, made: Seq<Request>) -> Course<Acquire>
        decreases state.remaining(),
    {
        match state.request() {
            None => Course { end: state, world: self, requests: made },
            Some(request) => {
                let (world, reply) = self.spec_respond(request);
                world.acquire_from(state.advance(reply), made.push(request))
            },
        }
    }

    /// Release continued from `state` in this world until nothing is
    /// pending, after the requests in `made`.
    pub open spec fn release_from(self, state: Release, made: Seq<Request>) -> Course<Release>
        decreases state.remaining(),
    {
        match state.request() {
            None => Course { end: state, world: self, requests: made },
            Some(request) => {
                let (world, reply) = self.spec_respond(request);
                world.release_from(state.advance(reply), made.push(request))
            },
        }
    }

    /// Provisioning of the logical path in this world, from start to end.
    pub open spec fn acquired(self, persist: bool) -> Course<Acquire> {
        self.acquire_from(Acquire::begin(persist), Seq::empty())
    }

    /// Release of the logical path in this world, from start to end.
    pub open spec fn released(self, persist: bool) -> Course<Release> {
        self.release_from(Release::begin(persist), Seq::empty())
    }

    /// What stands at a place.
    fn node(&self, place: Place) -> (node: Node)
        ensures
            node == self.at(place),
    {
        match place {
            Place::Logical => self.logical,
            Place::Backing => self.backing,
        }
    }

    /// The world with another node at a place.
    fn with(self, place: Place, node: Node) -> (world: World)
        ensures
            world == self.put(place, node),
    {
        match place {
            Place::Logical => World { mount: self.mount, logical: node, backing: self.backing },
            Place::Backing => {
                let absent = match node {
                    Node::Absent => true,
                    _ => false,
                };
                World { mount: self.mount || !absent, logical: self.logical, backing: node }
            },
        }
    }

    /// Whether a lookup of the place that follows links ends at something.
    #[verifier::when_used_as_spec(spec_present)]
    pub fn present(self, place: Place) -> (found: bool)
        ensures
            found == self.spec_present(place),
    {
        let store = match self.backing {
            Node::Absent => false,
            Node::File => true,
            Node::Directory { .. } => true,
            Node::Link(Target::SomeFile) => true,
            Node::Link(Target::SomeDirectory) => true,
            Node::Link(_) => false,
        };
        match place {
            Place::Backing => store,
            Place::Logical => match self.logical {
                Node::Absent => false,
                Node::File => true,
                Node::Directory { .. } => true,
                Node::Link(Target::Store) => store,
                Node::Link(Target::Nowhere) => false,
                Node::Link(Target::SomeFile) => true,
                Node::Link(Target::SomeDirectory) => true,
            },
        }
    }

    /// Whether a lookup of the place that follows links ends at a directory:
    /// whether the place can be used as one.
    #[verifier::when_used_as_spec(spec_is_dir)]
    pub fn is_dir(self, place: Place) -> (found: bool)
        ensures
            found == self.spec_is_dir(place),
    {
        let store = match self.backing {
            Node::Directory { .. } => true,
            Node::Link(Target::SomeDirectory) => true,
            _ => false,
        };
        match place {
            Place::Backing => store,
            Place::Logical => match self.logical {
                Node::Directory { .. } => true,
                Node::Link(Target::Store) => store,
                Node::Link(Target::SomeDirectory) => true,
                _ => false,
            },
        }
    }

    /// Carries out a request in this world: the world afterwards, and the
    /// reply.
    #[verifier::when_used_as_spec(spec_respond)]
    pub fn respond(self, request: Request) -> (answer: (World, Reply))
        ensures
            answer == self.spec_respond(request),
            self.consistent() ==> answer.0.consistent(),
            answer.1.fits(request),
    {
        match request {
            Request::ProbeMount => (self, Reply::Flag(self.mount)),
            Request::ProbeExists(place) => (self, Reply::Flag(self.present(place))),
            Request::ProbeIsDir(place) => (self, Reply::Flag(self.is_dir(place))),
            Request::CreateDirAll(place) => match self.node(place) {
                Node::Absent => (
                    self.with(place, Node::Directory { empty: true }),
                    Reply::Effect(Outcome::Done),
                ),
                _ => if self.is_dir(place) {
                    (self, Reply::Effect(Outcome::Done))
                } else {
                    (self, Reply::Effect(Outcome::AlreadyExists))
                },
            },
            Request::RemoveDirAll(place) => match self.node(place) {
                Node::Directory { .. } | Node::Link(_) => (
                    self.with(place, Node::Absent),
                    Reply::Effect(Outcome::Done),
                ),
                _ => (self, Reply::Effect(Outcome::Failed)),
            },
            Request::RemoveFile(place) => match self.node(place) {
                Node::File | Node::Link(_) => (
                    self.with(place, Node::Absent),
                    Reply::Effect(Outcome::Done),
                ),
                _ => (self, Reply::Effect(Outcome::Failed)),
            },
            Request::Symlink => match self.logical {
                Node::Absent => (
                    self.with(Place::Logical, Node::Link(Target::Store)),
                    Reply::Effect(Outcome::Done),
                ),
                _ => (self, Reply::Effect(Outcome::AlreadyExists)),
            },
            Request::WarnNoMount => (self, Reply::Effect(Outcome::Done)),
        }
    }

    /// Runs the provisioning of the logical path against this world.
    pub fn acquire(self, persist: bool) -> (run: Run<Acquire>)
        ensures
            run@ == self.acquired(persist),
            run.end.request() is None,
            self.consistent() ==> run.world.consistent(),
    {
        let mut state = Acquire::begin(persist);
        let mut world = self;
        let mut requests: Vec<Request> = Vec::new();
        loop
            invariant
                world.acquire_from(state, requests@) == self.acquired(persist),
                self.consistent() ==> world.consistent(),
            ensures
                state.request() is None,
            decreases state.remaining(),
        {
            match state.request() {
                None => {
                    break ;
                },
                Some(request) => {
                    let (changed, reply) = world.respond(request);
                    requests.push(request);
                    world = changed;
                    state = state.advance(reply);
                },
            }
        }
        Run { end: state, world, requests }
    }

    /// Runs the release of the logical path against this world.
    pub fn release(self, persist: bool) -> (run: Run<Release>)
        ensures
            run@ == self.released(persist),
            run.end.request() is None,
            self.consistent() ==> run.world.consistent(),
    {
        let mut state = Release::begin(persist);
        let mut world = self;
        let mut requests: Vec<Request> = Vec::new();
        loop
            invariant
                world.release_from(state, requests@) == self.released(persist),
                self.consistent() ==> world.consistent(),
            ensures
                state.request() is None,
            decreases state.remaining(),
        {
            match state.request() {
                None => {
                    break ;
                },
                Some(request) => {
                    let (changed, reply) = world.respond(request);
                    requests.push(request);
                    world = changed;
                    state = state.advance(reply);
                },
            }
        }
        Run { end: state, world, requests }
    }
}

} // verus!