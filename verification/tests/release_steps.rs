use tmpfs_provision::protocol::{Outcome, Place, ProvisionError, Reply, Request};
use tmpfs_provision::release::Release;

fn drive_release(mut state: Release, replies: &[Reply]) -> (Release, Vec<Request>) {
    let mut asked = Vec::new();
    for reply in replies {
        match state.request() {
            Some(request) => asked.push(request),
            None => break,
        }
        state = state.advance(*reply);
    }
    (state, asked)
}

#[test]
fn release_with_override_is_over_at_once() {
    let state = Release::begin(true);
    assert_eq!(state, Release::Released);
    assert_eq!(state.request(), None);
    assert_eq!(state.result(), Some(Ok(())));
}

#[test]
fn release_starts_by_probing_the_logical_path() {
    let state = Release::begin(false);
    assert_eq!(state, Release::ProbingLogical);
    assert_eq!(state.request(), Some(Request::ProbeExists(Place::Logical)));
    assert_eq!(state.result(), None);
}

#[test]
fn every_waiting_release_state_has_its_request() {
    assert_eq!(Release::ProbingLogical.request(), Some(Request::ProbeExists(Place::Logical)));
    assert_eq!(Release::Unlinking.request(), Some(Request::RemoveFile(Place::Logical)));
    assert_eq!(Release::ProbingMount.request(), Some(Request::ProbeMount));
    assert_eq!(Release::RemovingBacking.request(), Some(Request::RemoveDirAll(Place::Backing)));
    assert_eq!(Release::Released.request(), None);
    assert_eq!(Release::Failed(ProvisionError::RemoveFailed).request(), None);
}

#[test]
fn release_removes_the_link_and_then_the_store() {
    let (end, asked) = drive_release(
        Release::begin(false),
        &[
            Reply::Flag(true),
            Reply::Effect(Outcome::Done),
            Reply::Flag(true),
            Reply::Effect(Outcome::Done),
        ],
    );
    assert_eq!(end, Release::Released);
    assert_eq!(end.result(), Some(Ok(())));
    assert_eq!(
        asked,
        vec![
            Request::ProbeExists(Place::Logical),
            Request::RemoveFile(Place::Logical),
            Request::ProbeMount,
            Request::RemoveDirAll(Place::Backing),
        ]
    );
}

#[test]
fn release_skips_a_logical_path_that_is_not_there() {
    let (end, asked) = drive_release(
        Release::begin(false),
        &[Reply::Flag(false), Reply::Flag(true), Reply::Effect(Outcome::Done)],
    );
    assert_eq!(end, Release::Released);
    assert_eq!(
        asked,
        vec![
            Request::ProbeExists(Place::Logical),
            Request::ProbeMount,
            Request::RemoveDirAll(Place::Backing),
        ]
    );
}

#[test]
fn release_leaves_the_store_alone_without_a_mount() {
    let (end, asked) = drive_release(
        Release::begin(false),
        &[Reply::Flag(true), Reply::Effect(Outcome::Done), Reply::Flag(false)],
    );
    assert_eq!(end, Release::Released);
    assert_eq!(asked.len(), 3);
    assert!(!asked.contains(&Request::RemoveDirAll(Place::Backing)));
}

#[test]
fn a_logical_path_that_cannot_be_removed_is_fatal() {
    for outcome in [Outcome::Failed, Outcome::AlreadyExists] {
        let (end, asked) = drive_release(
            Release::begin(false),
            &[Reply::Flag(true), Reply::Effect(outcome), Reply::Flag(true)],
        );
        assert_eq!(end, Release::Failed(ProvisionError::RemoveFailed));
        assert_eq!(end.result(), Some(Err(ProvisionError::RemoveFailed)));
        assert_eq!(
            asked,
            vec![Request::ProbeExists(Place::Logical), Request::RemoveFile(Place::Logical)]
        );
    }
}

#[test]
fn a_store_that_cannot_be_removed_is_fatal() {
    let (end, _) = drive_release(
        Release::begin(false),
        &[Reply::Flag(false), Reply::Flag(true), Reply::Effect(Outcome::Failed)],
    );
    assert_eq!(end.result(), Some(Err(ProvisionError::RemoveFailed)));
    assert_eq!(end.request(), None);
}

#[test]
fn a_release_reply_of_the_wrong_kind_changes_nothing() {
    assert_eq!(Release::ProbingLogical.advance(Reply::Effect(Outcome::Done)), Release::ProbingLogical);
    assert_eq!(Release::Unlinking.advance(Reply::Flag(true)), Release::Unlinking);
    assert_eq!(Release::ProbingMount.advance(Reply::Effect(Outcome::Done)), Release::ProbingMount);
    assert_eq!(Release::RemovingBacking.advance(Reply::Flag(true)), Release::RemovingBacking);
}

#[test]
fn a_finished_release_takes_no_more_replies() {
    assert_eq!(Release::Released.advance(Reply::Flag(true)), Release::Released);
    assert_eq!(Release::Released.advance(Reply::Effect(Outcome::Failed)), Release::Released);
    let failed = Release::Failed(ProvisionError::RemoveFailed);
    assert_eq!(failed.advance(Reply::Effect(Outcome::Done)), failed);
}
