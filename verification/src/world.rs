//! A model of the two directories and of what carrying out an action does to
//! them.
//!
//! The model is the assumption under which the laws that speak of files
//! hold: a file is a name in one of two sets; a rename moves a name at once
//! or not at all; the tools add files to the working directory and never
//! touch the cache root.

use crate::protocol::{ActionView, Dir, EventView, FileRefView};
use vstd::prelude::*;

verus! {

/// The names of the files in the cache root and in the working directory.
pub struct World {
    pub cache: Set<Seq<char>>,
    pub working: Set<Seq<char>>,
}

/// The set of the names in a list.
pub open spec fn names_of(names: Seq<Seq<char>>) -> Set<Seq<char>> {
    Set::new(|n: Seq<char>| names.contains(n))
}

/// True when the file `f` exists in `w`.
pub open spec fn holds(w: World, f: FileRefView) -> bool {
    match f.dir {
        Dir::Cache => w.cache.contains(f.name),
        Dir::Working => w.working.contains(f.name),
    }
}

/// `w` with the file `f` added.
pub open spec fn with_file(w: World, f: FileRefView) -> World {
    match f.dir {
        Dir::Cache => World { cache: w.cache.insert(f.name), ..w },
        Dir::Working => World { working: w.working.insert(f.name), ..w },
    }
}

/// `w` with the file `f` taken away.
pub open spec fn without_file(w: World, f: FileRefView) -> World {
    match f.dir {
        Dir::Cache => World { cache: w.cache.remove(f.name), ..w },
        Dir::Working => World { working: w.working.remove(f.name), ..w },
    }
}

/// True when the event `e` and the world `after` are a possible outcome of
/// carrying out the action `a` in the world `w`.
///
/// - A question about a file is answered truthfully and changes nothing.
/// - A rename either succeeds, and then the source existed and its name
///   has moved to the target, or fails and changes nothing.
/// - Creating the cache root and listing the working directory change no
///   file; a listing that succeeds names exactly the files that are there.
/// - A removal that succeeds takes exactly the named files away; one that
///   fails may have taken some of them.
/// - A tool leaves the cache root alone. A probe changes nothing; a
///   download and a transcode may add files to the working directory.
pub open spec fn carried_out(w: World, a: ActionView, e: EventView, after: World) -> bool {
    match a {
        ActionView::Exists(f) => e == EventView::Answer(holds(w, f)) && after == w,
        ActionView::Rename { from, to } => {
            ||| e == EventView::Finished(true) && holds(w, from) && after == with_file(
                without_file(w, from),
                to,
            )
            ||| e == EventView::Finished(false) && after == w
        },
        ActionView::CreateCacheRoot => e is Finished && after == w,
        ActionView::ListWorking => {
            &&& after == w
            &&& e matches EventView::Listing(listing)
            &&& listing matches Some(names) ==> names_of(names) == w.working
        },
        ActionView::Remove(names) => {
            &&& after.cache == w.cache
            &&& after.working.subset_of(w.working)
            &&& e is Finished
            &&& e == EventView::Finished(true) ==> after.working == w.working.difference(
                names_of(names),
            )
        },
        ActionView::RunFetch(request) => {
            &&& e is ToolFinished
            &&& after.cache == w.cache
            &&& w.working.subset_of(after.working)
            &&& !request.download ==> after.working == w.working
        },
        ActionView::RunTranscode(_) => {
            &&& e is ToolFinished
            &&& after.cache == w.cache
            &&& w.working.subset_of(after.working)
        },
    }
}

} // verus!
