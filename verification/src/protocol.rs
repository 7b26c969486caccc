//! The exchange between the planning core and its caller: the actions that
//! the core hands out, and the events that the caller reports back.

use crate::fetch::{
    report_view, FetchRequest, FetchRequestView, ProbeReport, ProbeReportView, ToolOutcome,
};
use crate::transcode::{TranscodeCommand, TranscodeCommandView};
use vstd::prelude::*;

verus! {

/// The two directories in which files are named.
#[derive(Clone, Copy, Debug, PartialEq, Eq, Structural)]
pub enum Dir {
    /// The process working directory, where files are assembled.
    Working,
    /// The cache root, which holds complete artifacts only.
    Cache,
}

/// A file, named by its directory and its name in it.
#[derive(Clone, Debug)]
pub struct FileRef {
    pub dir: Dir,
    pub name: String,
}

/// Mathematical value of a `FileRef`.
pub struct FileRefView {
    pub dir: Dir,
    pub name: Seq<char>,
}

impl View for FileRef {
    type V = FileRefView;

    open spec fn view(&self) -> FileRefView {
        FileRefView { dir: self.dir, name: self.name@ }
    }
}

/// What the caller is to do next.
#[derive(Clone, Debug)]
pub enum Action {
    /// Run the fetch tool, and report `Event::ToolFinished`.
    RunFetch(FetchRequest),
    /// Tell whether the file exists, with `Event::Answer`.
    Exists(FileRef),
    /// Rename `from` to `to` in one step, and report `Event::Finished`.
    Rename { from: FileRef, to: FileRef },
    /// Run the transcode tool, and report `Event::ToolFinished`.
    RunTranscode(TranscodeCommand),
    /// Create the cache root if it is absent, and report `Event::Finished`.
    CreateCacheRoot,
    /// List the names in the working directory, with `Event::Listing`.
    ListWorking,
    /// Remove these files of the working directory, and report
    /// `Event::Finished`.
    Remove(Vec<String>),
}

/// Mathematical value of an `Action`.
pub enum ActionView {
    RunFetch(FetchRequestView),
    Exists(FileRefView),
    Rename { from: FileRefView, to: FileRefView },
    RunTranscode(TranscodeCommandView),
    CreateCacheRoot,
    ListWorking,
    Remove(Seq<Seq<char>>),
}

impl View for Action {
    type V = ActionView;

    open spec fn view(&self) -> ActionView {
        match self {
            Action::RunFetch(r) => ActionView::RunFetch(r@),
            Action::Exists(f) => ActionView::Exists(f@),
            Action::Rename { from, to } => ActionView::Rename { from: from@, to: to@ },
            Action::RunTranscode(c) => ActionView::RunTranscode(c@),
            Action::CreateCacheRoot => ActionView::CreateCacheRoot,
            Action::ListWorking => ActionView::ListWorking,
            Action::Remove(names) => ActionView::Remove(names.deep_view()),
        }
    }
}

/// Mathematical value of an optional action.
pub open spec fn action_view(action: Option<Action>) -> Option<ActionView> {
    match action {
        Some(a) => Some(a@),
        None => None,
    }
}

/// What came of the action that was handed out last.
#[derive(Clone, Debug)]
pub enum Event {
    /// A tool was run. `report` is what the fetch tool printed of the item,
    /// if it could be read as the report of a single item.
    ToolFinished { outcome: ToolOutcome, report: Option<ProbeReport> },
    /// Whether the file exists.
    Answer(bool),
    /// Whether the operation succeeded.
    Finished(bool),
    /// The names in the working directory, or `None` when it could not be
    /// listed.
    Listing(Option<Vec<String>>),
}

/// Mathematical value of an `Event`.
pub enum EventView {
    ToolFinished { outcome: ToolOutcome, report: Option<ProbeReportView> },
    Answer(bool),
    Finished(bool),
    Listing(Option<Seq<Seq<char>>>),
}

impl View for Event {
    type V = EventView;

    open spec fn view(&self) -> EventView {
        match self {
            Event::ToolFinished { outcome, report } => EventView::ToolFinished {
                outcome: *outcome,
                report: report_view(*report),
            },
            Event::Answer(b) => EventView::Answer(*b),
            Event::Finished(b) => EventView::Finished(*b),
            Event::Listing(names) => EventView::Listing(
                match names {
                    Some(v) => Some(v.deep_view()),
                    None => None,
                },
            ),
        }
    }
}

/// True when carrying out `a` creates, replaces or removes a file in the
/// cache root.
pub open spec fn writes_cache(a: ActionView) -> bool {
    match a {
        ActionView::Rename { from, to } => from.dir == Dir::Cache || to.dir == Dir::Cache,
        _ => false,
    }
}

} // verus!
