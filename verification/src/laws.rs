//! What provisioning and release do to a world, stated for every world.
//!
//! A run is written `world.acquired(persist)` or `world.released(persist)`:
//! the requests of the state machine, answered one after the other by the
//! world, until nothing is pending.

use vstd::prelude::*;
use crate::acquire::Acquire;
use crate::protocol::{Mode, Place, ProvisionError, Request};
use crate::release::Release;
use crate::world::{Node, Target, World};

verus! {

/// What stands at a path once a directory was asked for there and the
/// request was not refused for anything but what stands at the path: a new,
/// empty directory where nothing stood, and what stood there otherwise.
spec fn made(node: Node) -> Node {
    if node is Absent {
        Node::Directory { empty: true }
    } else {
        node
    }
}

/// Provisioning on disk, in one step.
proof fn lemma_acquire_on_disk(world: World, persist: bool)
    requires
        persist || !world.mount,
    ensures
        world.acquired(persist).end == Acquire::Provisioned(Mode::Direct),
        world.acquired(persist).world == (World { logical: made(world.logical), ..world }),
{
    reveal_with_fuel(World::acquire_from, 8);
}

/// Provisioning in RAM, in one step.
proof fn lemma_acquire_in_ram(world: World)
    requires
        world.mount,
    ensures
        ({
            let prepared = World { backing: made(world.backing), ..world };
            if world.logical is Absent || prepared.present(Place::Logical) {
                &&& world.acquired(false).end == Acquire::Provisioned(Mode::Indirect)
                &&& world.acquired(false).world == World {
                    logical: Node::Link(Target::Store),
                    ..prepared
                }
            } else {
                &&& world.acquired(false).end == Acquire::Failed(ProvisionError::SymlinkFailed)
                &&& world.acquired(false).world == prepared
            }
        }),
{
    reveal_with_fuel(World::acquire_from, 8);
}

/// Whatever the world, provisioning ends after at most six requests and
/// release after at most four, and neither is left waiting for a reply.
pub proof fn runs_end(world: World, persist: bool)
    ensures
        world.acquired(persist).end.request() is None,
        world.acquired(persist).requests.len() <= 6,
        world.released(persist).end.request() is None,
        world.released(persist).requests.len() <= 4,
{
    reveal_with_fuel(World::acquire_from, 8);
    reveal_with_fuel(World::release_from, 6);
}

/// When provisioning keeps its promise. It succeeds and leaves the logical
/// path usable as a directory in exactly these worlds:
/// - on disk (the operator's override, or no mount): nothing stands at the
///   logical path, or what stands there can be used as a directory;
/// - in RAM: nothing stands at the path of the store, or what stands there
///   can be used as a directory, and the logical path is not a link that
///   leads nowhere.
pub proof fn acquire_makes_the_path_usable(world: World, persist: bool)
    ensures
        ({
            &&& world.acquired(persist).end is Provisioned
            &&& world.acquired(persist).world.is_dir(Place::Logical)
        }) <==> (if persist || !world.mount {
            world.logical is Absent || world.is_dir(Place::Logical)
        } else {
            &&& world.backing is Absent || world.is_dir(Place::Backing)
            &&& world.logical != Node::Link(Target::Nowhere)
        }),
        world.acquired(persist).end is Provisioned ==> world.acquired(persist).end == (
        if persist || !world.mount {
            Acquire::Provisioned(Mode::Direct)
        } else {
            Acquire::Provisioned(Mode::Indirect)
        }),
{
    if persist || !world.mount {
        lemma_acquire_on_disk(world, persist);
    } else {
        lemma_acquire_in_ram(world);
    }
}

/// In a world without faults provisioning is given up in one situation
/// only: in RAM, when the logical path is a link that leads nowhere. Such a
/// link counts as not existing and is not removed, so the new link finds
/// its place taken. The world is then as it was, but for the store, which
/// has been made.
pub proof fn acquire_gives_up_only_on_a_link_to_nowhere(world: World, persist: bool)
    ensures
        !(world.acquired(persist).end is Provisioned) <==> ({
            &&& !persist
            &&& world.mount
            &&& world.logical == Node::Link(Target::Nowhere) || (world.logical == Node::Link(
                Target::Store,
            ) && world.backing is Link && !world.present(Place::Backing))
        }),
        !(world.acquired(persist).end is Provisioned) ==> ({
            &&& world.acquired(persist).end == Acquire::Failed(ProvisionError::SymlinkFailed)
            &&& world.acquired(persist).world.logical == world.logical
        }),
{
    if persist || !world.mount {
        lemma_acquire_on_disk(world, persist);
    } else {
        lemma_acquire_in_ram(world);
    }
}

/// Provisioning twice is provisioning once: where the first call succeeded
/// and left the logical path usable as a directory, a second call right
/// after it succeeds in the same mode and leaves the world as it found it,
/// the logical path still usable.
pub proof fn acquire_twice_is_acquire_once(world: World, persist: bool)
    requires
        world.acquired(persist).end is Provisioned,
        world.acquired(persist).world.is_dir(Place::Logical),
    ensures
        world.acquired(persist).world.acquired(persist).end == world.acquired(persist).end,
        world.acquired(persist).world.acquired(persist).world == world.acquired(persist).world,
        world.acquired(persist).world.acquired(persist).world.is_dir(Place::Logical),
{
    let once = world.acquired(persist).world;
    if persist || !world.mount {
        lemma_acquire_on_disk(world, persist);
        lemma_acquire_on_disk(once, persist);
    } else {
        lemma_acquire_in_ram(world);
        lemma_acquire_in_ram(once);
    }
}

/// When a round trip leaves nothing behind. Provisioning succeeds, release
/// right after it succeeds, and then nothing stands at the logical path and
/// nothing at the path of the store, in exactly these worlds:
/// - with the mount and without the override: the logical path is not a
///   link that leads nowhere, and at the path of the store stands nothing, a
///   directory, or a link that leads somewhere;
/// - without the mount and without the override: nothing stands at the path
///   of the store, and at the logical path stands a file or a link that
///   leads somewhere, which provisioning passed over.
///
/// With the override release keeps everything, and after provisioning on
/// disk has made a real directory release gives up on it.
pub proof fn round_trip_leaves_nothing_behind(world: World, persist: bool)
    ensures
        ({
            &&& world.acquired(persist).end is Provisioned
            &&& world.acquired(persist).world.released(persist).end == Release::Released
            &&& world.acquired(persist).world.released(persist).world.logical is Absent
            &&& world.acquired(persist).world.released(persist).world.backing is Absent
        }) <==> (if persist {
            false
        } else if world.mount {
            &&& world.logical != Node::Link(Target::Nowhere)
            &&& world.backing is Absent || world.backing is Directory || (world.backing is Link
                && world.present(Place::Backing))
        } else {
            &&& world.backing is Absent
            &&& world.logical is File || (world.logical is Link && world.present(Place::Logical))
        }),
{
    if persist || !world.mount {
        lemma_acquire_on_disk(world, persist);
    } else {
        lemma_acquire_in_ram(world);
    }
    reveal_with_fuel(World::release_from, 6);
}

/// Release undoes provisioning in RAM: where provisioning gave the process a
/// backing store and left the logical path usable as a directory, and the
/// campaign has since done no more than work in its storage, release
/// succeeds, and then nothing stands at the logical path and nothing at the
/// path of the store.
pub proof fn release_undoes_acquire(world: World, later: World)
    requires
        world.acquired(false).end == Acquire::Provisioned(Mode::Indirect),
        world.acquired(false).world.is_dir(Place::Logical),
        world.acquired(false).world.worked_in(later),
    ensures
        later.released(false).end == Release::Released,
        later.released(false).world.logical is Absent,
        later.released(false).world.backing is Absent,
        later.released(false).world.mount,
{
    if world.mount {
        lemma_acquire_in_ram(world);
    } else {
        // Without the mount provisioning stays on disk, which the first
        // premise rules out.
        lemma_acquire_on_disk(world, false);
    }
    reveal_with_fuel(World::release_from, 6);
}

/// When release keeps its promise. Without the override, it succeeds and
/// leaves nothing at the logical path and nothing at the path of the store
/// in exactly these worlds: at the logical path stands nothing, a file, or
/// a link that leads somewhere; and at the path of the store stands a
/// directory or a link where the mount is there, and nothing where it is
/// not.
pub proof fn release_leaves_nothing_behind(world: World)
    ensures
        ({
            &&& world.released(false).end == Release::Released
            &&& world.released(false).world.logical is Absent
            &&& world.released(false).world.backing is Absent
        }) <==> ({
            &&& world.logical is Absent || world.logical is File || (world.logical is Link
                && world.present(Place::Logical))
            &&& if world.mount {
                world.backing is Directory || world.backing is Link
            } else {
                world.backing is Absent
            }
        }),
{
    reveal_with_fuel(World::release_from, 6);
}

/// Release takes the logical path for a link or a file. On a real directory
/// there, as provisioning on disk leaves one, it gives up at once and
/// changes nothing.
pub proof fn release_gives_up_on_a_real_directory(world: World)
    requires
        world.logical is Directory,
    ensures
        world.released(false).end == Release::Failed(ProvisionError::RemoveFailed),
        world.released(false).world == world,
        world.released(false).requests == seq![
            Request::ProbeExists(Place::Logical),
            Request::RemoveFile(Place::Logical),
        ],
{
    reveal_with_fuel(World::release_from, 6);
}

/// Release does not remember whether provisioning gave the process a store.
/// Where the mount is there and the store is not, because the process was
/// never given one, release gives up on the store, after it has removed
/// what it found at the logical path. (A real directory at the logical path
/// stops it before that.)
pub proof fn release_gives_up_on_a_missing_store(world: World)
    requires
        world.mount,
        world.backing is Absent,
        !(world.logical is Directory),
    ensures
        world.released(false).end == Release::Failed(ProvisionError::RemoveFailed),
        world.released(false).requests.last() == Request::RemoveDirAll(Place::Backing),
        world.released(false).world.backing is Absent,
        world.released(false).world.logical == (if world.present(Place::Logical) {
            Node::Absent
        } else {
            world.logical
        }),
{
    reveal_with_fuel(World::release_from, 6);
}

/// With the operator's override, provisioning succeeds on disk with one
/// request: to create a directory at the logical path. The mount is not
/// looked at and the store is not touched. A real directory, no link, stands
/// at the logical path afterwards exactly where nothing or a directory stood
/// there before: a file or a link that was there is passed over as existing
/// already, and stays.
pub proof fn override_keeps_storage_on_disk(world: World)
    ensures
        world.acquired(true).end == Acquire::Provisioned(Mode::Direct),
        world.acquired(true).requests == seq![Request::CreateDirAll(Place::Logical)],
        world.acquired(true).world.logical is Directory <==> world.logical is Absent
            || world.logical is Directory,
        world.acquired(true).world.backing == world.backing,
        world.acquired(true).world.mount == world.mount,
{
    reveal_with_fuel(World::acquire_from, 8);
}

/// With the operator's override, release asks for nothing and changes
/// nothing, whatever the world.
pub proof fn override_makes_release_a_no_op(world: World)
    ensures
        world.released(true).end == Release::Released,
        world.released(true).requests == Seq::<Request>::empty(),
        world.released(true).world == world,
{
    reveal_with_fuel(World::release_from, 6);
}

/// Without a RAM-backed mount, provisioning warns, then creates a directory
/// at the logical path, and succeeds on disk: it never asks for a link, and
/// the store is not touched. A real directory stands at the logical path
/// afterwards exactly where nothing or a directory stood there before.
pub proof fn missing_mount_falls_back_to_disk(world: World)
    requires
        !world.mount,
    ensures
        world.acquired(false).end == Acquire::Provisioned(Mode::Direct),
        world.acquired(false).requests == seq![
            Request::ProbeMount,
            Request::WarnNoMount,
            Request::CreateDirAll(Place::Logical),
        ],
        world.acquired(false).world.logical is Directory <==> world.logical is Absent
            || world.logical is Directory,
        world.acquired(false).world.backing == world.backing,
        world.acquired(false).world.mount == world.mount,
{
    reveal_with_fuel(World::acquire_from, 8);
}

/// In RAM, a plain file at the logical path is removed and replaced by a
/// link to the store. The store is a new, empty directory where none stood
/// before, and is left as it was otherwise.
pub proof fn acquire_replaces_a_file(world: World)
    requires
        world.mount,
        world.logical is File,
    ensures
        world.acquired(false).end == Acquire::Provisioned(Mode::Indirect),
        world.acquired(false).requests == seq![
            Request::ProbeMount,
            Request::CreateDirAll(Place::Backing),
            Request::ProbeExists(Place::Logical),
            Request::ProbeIsDir(Place::Logical),
            Request::RemoveFile(Place::Logical),
            Request::Symlink,
        ],
        world.acquired(false).world.logical == Node::Link(Target::Store),
        world.acquired(false).world.backing == (if world.backing is Absent {
            Node::Directory { empty: true }
        } else {
            world.backing
        }),
{
    reveal_with_fuel(World::acquire_from, 8);
}

/// In RAM, a directory at the logical path is removed with all it holds
/// before the link to the store is made. The store is a new, empty
/// directory where none stood before, and is left as it was otherwise.
pub proof fn acquire_replaces_a_tree(world: World)
    requires
        world.mount,
        world.logical is Directory,
    ensures
        world.acquired(false).end == Acquire::Provisioned(Mode::Indirect),
        world.acquired(false).requests == seq![
            Request::ProbeMount,
            Request::CreateDirAll(Place::Backing),
            Request::ProbeExists(Place::Logical),
            Request::ProbeIsDir(Place::Logical),
            Request::RemoveDirAll(Place::Logical),
            Request::Symlink,
        ],
        world.acquired(false).world.logical == Node::Link(Target::Store),
        world.acquired(false).world.backing == (if world.backing is Absent {
            Node::Directory { empty: true }
        } else {
            world.backing
        }),
{
    reveal_with_fuel(World::acquire_from, 8);
}

} // verus!
