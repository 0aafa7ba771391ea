//! The vocabulary shared by the provisioner and whoever drives it.
//!
//! The provisioner never touches the filesystem. It hands out a [`Request`],
//! the driver carries it out and hands back a [`Reply`].

use vstd::prelude::*;

verus! {

/// One of the two paths the provisioner works on.
#[derive(Clone, Copy, Debug, PartialEq, Eq, Structural)]
pub enum Place {
    /// The path the campaign is configured to use. It never moves.
    Logical,
    /// The directory of this process under the RAM-backed mount.
    Backing,
}

/// What the driver is asked to do next.
#[derive(Clone, Copy, Debug, PartialEq, Eq, Structural)]
pub enum Request {
    /// Tell whether the RAM-backed mount point exists and is a directory.
    ProbeMount,
    /// Tell whether something exists at the place, following symbolic links.
    ProbeExists(Place),
    /// Tell whether the place is a directory, following symbolic links.
    ProbeIsDir(Place),
    /// Create a directory at the place, and its missing parents.
    CreateDirAll(Place),
    /// Remove the directory at the place with all it holds. A symbolic link
    /// at the place is removed itself, not what it leads to.
    RemoveDirAll(Place),
    /// Remove the single file or symbolic link at the place.
    RemoveFile(Place),
    /// Create a symbolic link at the logical path that leads to the backing
    /// store.
    Symlink,
    /// Warn the operator that there is no RAM-backed mount and the working
    /// storage stays on disk.
    WarnNoMount,
}

/// How an operation on the filesystem ended.
#[derive(Clone, Copy, Debug, PartialEq, Eq, Structural)]
pub enum Outcome {
    /// It was carried out.
    Done,
    /// It was refused because the path exists already.
    AlreadyExists,
    /// It was refused for any other reason.
    Failed,
}

/// What the driver reports back.
#[derive(Clone, Copy, Debug, PartialEq, Eq, Structural)]
pub enum Reply {
    /// The answer to a probe.
    Flag(bool),
    /// The end of an operation that changes the filesystem, or of a warning.
    Effect(Outcome),
}

/// Where the working storage ended up.
#[derive(Clone, Copy, Debug, PartialEq, Eq, Structural)]
pub enum Mode {
    /// An ordinary directory at the logical path itself.
    Direct,
    /// A directory under the RAM-backed mount, reached from the logical path
    /// through a symbolic link.
    Indirect,
}

/// Why provisioning or its undoing was given up.
#[derive(Clone, Copy, Debug, PartialEq, Eq, Structural)]
pub enum ProvisionError {
    /// A directory could not be created.
    CreateFailed,
    /// A file, a link or a directory tree could not be removed.
    RemoveFailed,
    /// The symbolic link at the logical path could not be created.
    SymlinkFailed,
}

impl Request {
    /// Whether the request is a question, answered by a [`Reply::Flag`].
    pub open spec fn is_probe(self) -> bool {
        self is ProbeMount || self is ProbeExists || self is ProbeIsDir
    }
}

impl Reply {
    /// Whether this reply is of the kind that the request calls for: a flag
    /// for a probe, an outcome for everything else.
    pub open spec fn fits(self, request: Request) -> bool {
        (self is Flag) == request.is_probe()
    }
}

} // verus!
