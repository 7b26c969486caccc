//! The cache of finished artifacts: looking a key up, and moving an
//! artifact in.
//!
//! An artifact is assembled in the working directory and enters the cache
//! root by one rename, so a reader of the cache never sees a file that is
//! only partly written.

use crate::protocol::{Action, ActionView, Dir, FileRef, FileRefView, action_view};
use vstd::prelude::*;
use vstd::string::*;

verus! {

/// Why an artifact could not be moved into the cache.
#[derive(Clone, Copy, Debug, PartialEq, Eq, Structural)]
pub enum PlacementFailure {
    /// The file to move does not exist: there is nothing to place.
    SourceMissing,
    /// The cache root is absent and could not be created.
    CacheRootUnavailable,
    /// The rename into the cache root failed.
    RenameFailed,
}

/// How far the placement of one artifact has come.
#[derive(Clone, Copy, Debug, PartialEq, Eq, Structural)]
pub enum Placement {
    /// Waiting to learn whether the file to move exists.
    Locating,
    /// Waiting for the cache root to be created.
    Preparing,
    /// Waiting for the rename into the cache root.
    Moving,
    /// The artifact stands in the cache.
    Placed,
    /// The placement failed.
    Failed(PlacementFailure),
}

/// The file `name` in the working directory.
pub open spec fn in_working(name: Seq<char>) -> FileRefView {
    FileRefView { dir: Dir::Working, name }
}

/// The cache entry of `key`.
pub open spec fn in_cache(key: Seq<char>) -> FileRefView {
    FileRefView { dir: Dir::Cache, name: key }
}

/// The transition of a placement: `ok` is the good or bad news on the
/// action that was pending, and the result is the new state with the
/// action to carry out next, if the placement has not ended.
///
/// The file must exist, then the cache root is made, then the file is
/// renamed into it under its own name. Each bad news ends the placement
/// with the failure of that step.
pub open spec fn place_next(stage: Placement, filename: Seq<char>, ok: bool) -> (
    Placement,
    Option<ActionView>,
) {
    match stage {
        Placement::Locating => if ok {
            (Placement::Preparing, Some(ActionView::CreateCacheRoot))
        } else {
            (Placement::Failed(PlacementFailure::SourceMissing), None)
        },
        Placement::Preparing => if ok {
            (
                Placement::Moving,
                Some(ActionView::Rename { from: in_working(filename), to: in_cache(filename) }),
            )
        } else {
            (Placement::Failed(PlacementFailure::CacheRootUnavailable), None)
        },
        Placement::Moving => if ok {
            (Placement::Placed, None)
        } else {
            (Placement::Failed(PlacementFailure::RenameFailed), None)
        },
        Placement::Placed => (Placement::Placed, None),
        Placement::Failed(f) => (Placement::Failed(f), None),
    }
}

/// Names the cache entry of `key`.
pub fn entry(key: &str) -> (r: FileRef)
    ensures
        r@ == in_cache(key@),
{
    FileRef { dir: Dir::Cache, name: String::from_str(key) }
}

/// Names the file `name` of the working directory.
pub fn working_file(name: &str) -> (r: FileRef)
    ensures
        r@ == in_working(name@),
{
    FileRef { dir: Dir::Working, name: String::from_str(name) }
}

/// Looks `key` up: hands out the question whether its entry exists. The
/// lookup changes nothing.
pub fn lookup(key: &String) -> (r: Action)
    ensures
        r@ == ActionView::Exists(in_cache(key@)),
{
    Action::Exists(entry(key.as_str()))
}

/// Starts moving the file `filename` from the working directory into the
/// cache: hands out the question whether the file exists.
pub fn move_video_to_temp(filename: &String) -> (r: (Placement, Action))
    ensures
        r.0 == Placement::Locating,
        r.1@ == ActionView::Exists(in_working(filename@)),
{
    (Placement::Locating, Action::Exists(working_file(filename.as_str())))
}

impl Placement {
    /// True when the placement has ended.
    pub fn is_final(self) -> (r: bool)
        ensures
            r == (self is Placed || self is Failed),
    {
        match self {
            Placement::Placed => true,
            Placement::Failed(_) => true,
            _ => false,
        }
    }

    /// Takes the news on the pending action and moves the placement of
    /// `filename` on, as `place_next` lays down.
    pub fn step(self, filename: &String, ok: bool) -> (r: (Placement, Option<Action>))
        ensures
            r.0 == place_next(self, filename@, ok).0,
            action_view(r.1) == place_next(self, filename@, ok).1,
    {
        match self {
            Placement::Locating => {
                if ok {
                    (Placement::Preparing, Some(Action::CreateCacheRoot))
                } else {
                    (Placement::Failed(PlacementFailure::SourceMissing), None)
                }
            },
            Placement::Preparing => {
                if ok {
                    let from = working_file(filename.as_str());
                    let to = entry(filename.as_str());
                    (Placement::Moving, Some(Action::Rename { from, to }))
                } else {
                    (Placement::Failed(PlacementFailure::CacheRootUnavailable), None)
                }
            },
            Placement::Moving => {
                if ok {
                    (Placement::Placed, None)
                } else {
                    (Placement::Failed(PlacementFailure::RenameFailed), None)
                }
            },
            Placement::Placed => (Placement::Placed, None),
            Placement::Failed(f) => (Placement::Failed(f), None),
        }
    }
}

/// A placement succeeds exactly when all three steps bring good news: the
/// file exists, the cache root is there, and the rename went through. The
/// failure of a placement names the first step that brought bad news.
pub proof fn lemma_placement_outcome(filename: Seq<char>, exists: bool, created: bool, renamed: bool)
    ensures
        ({
            let a = place_next(Placement::Locating, filename, exists).0;
            let b = place_next(a, filename, created).0;
            let c = place_next(b, filename, renamed).0;
            &&& a == if exists {
                Placement::Preparing
            } else {
                Placement::Failed(PlacementFailure::SourceMissing)
            }
            &&& c == if !exists {
                Placement::Failed(PlacementFailure::SourceMissing)
            } else if !created {
                Placement::Failed(PlacementFailure::CacheRootUnavailable)
            } else if !renamed {
                Placement::Failed(PlacementFailure::RenameFailed)
            } else {
                Placement::Placed
            }
        }),
{
}

} // verus!
