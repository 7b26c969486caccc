//! The materialization of one request as a state machine.
//!
//! The machine decides and the caller acts: each transition hands out one
//! `Action`, the caller performs it and reports what came of it as an
//! `Event`, which drives the next transition. No failure is retried.

use crate::cache::{
    in_cache, in_working, lookup, move_video_to_temp, place_next, working_file, Placement,
    PlacementFailure,
};
use crate::config::Configuration;
use crate::fetch::{
    download_audio, download_request, download_video, get_metadata, metadata_request, probed,
    read_probe, ToolOutcome,
};
use crate::ident::{extract_id, resolve};
use crate::media::{
    file_name, file_name_of, final_extension, raw_extension, raw_output_name,
    raw_output_name_of, sanitize_title, sanitized, stem, stem_name, MediaKind,
};
use crate::policy::{check_duration, rejection, violates, DurationExceeded};
use crate::protocol::{Action, ActionView, Event, EventView, FileRefView};
use crate::sweep::{select_stale, stale};
use crate::transcode::{process_audio, process_video, transcode_command};
use vstd::prelude::*;
use vstd::string::*;

verus! {

/// The two external tools.
#[derive(Clone, Copy, Debug, PartialEq, Eq, Structural)]
pub enum Tool {
    Fetch,
    Transcode,
}

/// The two file system operations of the sweep.
#[derive(Clone, Copy, Debug, PartialEq, Eq, Structural)]
pub enum FsOperation {
    ListWorkingDir,
    RemoveStale,
}

/// Why a request ended without an artifact. Every failure is final.
#[derive(Clone, Copy, Debug, PartialEq, Eq, Structural)]
pub enum Failure {
    /// The reference holds no identifier.
    InvalidReference,
    /// The probe failed, or its report lacks the duration.
    ProbeFailure,
    /// The item is longer than the configured ceiling.
    DurationExceeded(DurationExceeded),
    /// A tool could not be started.
    ToolInvocationFailed(Tool),
    /// A tool exited with a status other than zero.
    ToolExitedNonZero(Tool),
    /// The raw download could not be renamed to its intermediate name.
    RenameFailed,
    /// The artifact could not be moved into the cache.
    PlacementFailed(PlacementFailure),
    /// The working directory could not be swept.
    FilesystemFailure(FsOperation),
    /// The caller reported something that the pending action cannot yield.
    UnexpectedEvent,
}

/// Where the machine stands: the outcome that it waits for, or how it ended.
///
/// Resolving the reference and checking the duration need no outside work,
/// so the machine never rests in them: the first is done when the request
/// starts, the second when the probe reports.
#[derive(Clone, Copy, Debug, PartialEq, Eq, Structural)]
pub enum Stage {
    /// Waiting for the metadata probe.
    Probing,
    /// Waiting to learn whether the cache holds the key.
    CacheLookup,
    /// Waiting for the download of the raw media.
    Fetching,
    /// Waiting for the rename of the raw download to its intermediate name.
    Renaming,
    /// Waiting for the transcode tool.
    Transcoding,
    /// Moving the artifact into the cache.
    Placing(Placement),
    /// Waiting for the listing of the working directory.
    Listing,
    /// Waiting for the removal of the stray raw downloads.
    Sweeping,
    /// The artifact stands in the cache.
    Done,
    /// The request failed.
    Failed(Failure),
}

/// The verdict on a request, once it has ended.
#[derive(Clone, Debug)]
pub enum Verdict {
    /// The cache entry of this key is to be served.
    Serve(String),
    /// The request failed.
    Reject(Failure),
}

/// Mathematical value of a `Verdict`.
pub enum VerdictView {
    Serve(Seq<char>),
    Reject(Failure),
}

impl View for Verdict {
    type V = VerdictView;

    open spec fn view(&self) -> VerdictView {
        match self {
            Verdict::Serve(key) => VerdictView::Serve(key@),
            Verdict::Reject(f) => VerdictView::Reject(*f),
        }
    }
}

/// What a transition hands to the caller: the next action to carry out, or
/// the verdict when the request has ended.
#[derive(Clone, Debug)]
pub enum Step {
    Do(Action),
    End(Verdict),
}

/// Mathematical value of a `Step`.
pub enum StepView {
    Do(ActionView),
    End(VerdictView),
}

impl View for Step {
    type V = StepView;

    open spec fn view(&self) -> StepView {
        match self {
            Step::Do(a) => StepView::Do(a@),
            Step::End(v) => StepView::End(v@),
        }
    }
}

/// One materialization in progress.
#[derive(Clone, Debug)]
pub struct Pipeline {
    pub stage: Stage,
    pub config: Configuration,
    pub kind: MediaKind,
    pub transcode: bool,
    /// Identifier resolved from the reference; the tools are run on it.
    pub requested_id: String,
    /// Sanitized title as probed; empty until the probe has reported.
    pub title: String,
    /// Identifier as probed; empty until the probe has reported.
    pub item_id: String,
}

/// Mathematical value of a `Pipeline`.
pub struct PipelineView {
    pub stage: Stage,
    pub config: Configuration,
    pub kind: MediaKind,
    pub transcode: bool,
    pub requested_id: Seq<char>,
    pub title: Seq<char>,
    pub item_id: Seq<char>,
}

impl View for Pipeline {
    type V = PipelineView;

    open spec fn view(&self) -> PipelineView {
        PipelineView {
            stage: self.stage,
            config: self.config,
            kind: self.kind,
            transcode: self.transcode,
            requested_id: self.requested_id@,
            title: self.title@,
            item_id: self.item_id@,
        }
    }
}

/// Cache key of the request, once probed: title, identifier and the
/// extension of the served artifact.
pub open spec fn key_of(p: PipelineView) -> Seq<char> {
    file_name(p.title, p.item_id, final_extension(p.kind, p.transcode))
}

/// The raw download under the name that the fetch tool gave it.
pub open spec fn raw_download(p: PipelineView) -> FileRefView {
    in_working(raw_output_name(p.item_id, p.kind))
}

/// The raw download under its intermediate name, made of title and
/// identifier.
pub open spec fn intermediate(p: PipelineView) -> FileRefView {
    in_working(file_name(p.title, p.item_id, raw_extension(p.kind)))
}

/// `p` moved on to `stage`.
pub open spec fn at(p: PipelineView, stage: Stage) -> PipelineView {
    PipelineView { stage, ..p }
}

/// The transition to `stage` that hands out `action`.
pub open spec fn go(p: PipelineView, stage: Stage, action: ActionView) -> (
    PipelineView,
    StepView,
) {
    (at(p, stage), StepView::Do(action))
}

/// The transition that ends the request with the failure `f`.
pub open spec fn fail(p: PipelineView, f: Failure) -> (PipelineView, StepView) {
    (at(p, Stage::Failed(f)), StepView::End(VerdictView::Reject(f)))
}

/// The transition that ends the request with its artifact in the cache.
pub open spec fn finish(p: PipelineView) -> (PipelineView, StepView) {
    (at(p, Stage::Done), StepView::End(VerdictView::Serve(key_of(p))))
}

/// The failure that an unsuccessful run of `tool` amounts to.
pub open spec fn tool_failure(tool: Tool, outcome: ToolOutcome) -> Failure {
    match outcome {
        ToolOutcome::NotStarted => Failure::ToolInvocationFailed(tool),
        _ => Failure::ToolExitedNonZero(tool),
    }
}

/// Start of a materialization: the reference is resolved, and the item is
/// probed if it holds an identifier.
pub open spec fn begin(
    reference: Seq<char>,
    kind: MediaKind,
    transcode: bool,
    config: Configuration,
) -> (PipelineView, StepView) {
    let blank = PipelineView {
        stage: Stage::Probing,
        config,
        kind,
        transcode,
        requested_id: Seq::empty(),
        title: Seq::empty(),
        item_id: Seq::empty(),
    };
    match resolve(reference) {
        Some(id) => (
            PipelineView { requested_id: id, ..blank },
            StepView::Do(ActionView::RunFetch(metadata_request(id, kind))),
        ),
        None => fail(blank, Failure::InvalidReference),
    }
}

/// Start of the fetch of an item whose title and identifier are known:
/// the download is handed out, and the stages from `Fetching` on follow.
pub open spec fn begin_fetch(
    id: Seq<char>,
    title: Seq<char>,
    kind: MediaKind,
    transcode: bool,
    config: Configuration,
) -> (PipelineView, StepView) {
    (
        PipelineView {
            stage: Stage::Fetching,
            config,
            kind,
            transcode,
            requested_id: id,
            title: sanitized(title),
            item_id: id,
        },
        StepView::Do(ActionView::RunFetch(download_request(id, kind))),
    )
}

/// After the probe: the report must be usable and the duration within the
/// ceiling; then the cache is asked for the key.
pub open spec fn after_probe(p: PipelineView, e: EventView) -> (PipelineView, StepView) {
    match e {
        EventView::ToolFinished { outcome, report } => match probed(outcome, report) {
            Some(m) => {
                if violates(m.duration, p.kind, p.config) {
                    fail(p, Failure::DurationExceeded(rejection(p.kind, p.config)))
                } else {
                    let q = PipelineView {
                        stage: Stage::CacheLookup,
                        title: m.title,
                        item_id: m.id,
                        ..p
                    };
                    (q, StepView::Do(ActionView::Exists(in_cache(key_of(q)))))
                }
            },
            None => fail(p, Failure::ProbeFailure),
        },
        _ => fail(p, Failure::UnexpectedEvent),
    }
}

/// After the lookup: a hit ends the request, a miss starts the download.
pub open spec fn after_lookup(p: PipelineView, e: EventView) -> (PipelineView, StepView) {
    match e {
        EventView::Answer(true) => finish(p),
        EventView::Answer(false) => go(
            p,
            Stage::Fetching,
            ActionView::RunFetch(download_request(p.requested_id, p.kind)),
        ),
        _ => fail(p, Failure::UnexpectedEvent),
    }
}

/// After the download: the raw file gets its intermediate name.
pub open spec fn after_fetch(p: PipelineView, e: EventView) -> (PipelineView, StepView) {
    match e {
        EventView::ToolFinished { outcome: ToolOutcome::Completed, .. } => go(
            p,
            Stage::Renaming,
            ActionView::Rename { from: raw_download(p), to: intermediate(p) },
        ),
        EventView::ToolFinished { outcome, .. } => fail(p, tool_failure(Tool::Fetch, outcome)),
        _ => fail(p, Failure::UnexpectedEvent),
    }
}

/// The step that follows once the artifact is complete in the working
/// directory: its placement starts.
pub open spec fn start_placing(p: PipelineView) -> (PipelineView, StepView) {
    go(p, Stage::Placing(Placement::Locating), ActionView::Exists(in_working(key_of(p))))
}

/// After the intermediate rename: the file is transcoded if that was asked
/// for, else it is the artifact as it is.
pub open spec fn after_rename(p: PipelineView, e: EventView) -> (PipelineView, StepView) {
    match e {
        EventView::Finished(true) => {
            if p.transcode {
                go(
                    p,
                    Stage::Transcoding,
                    ActionView::RunTranscode(transcode_command(stem(p.title, p.item_id), p.kind)),
                )
            } else {
                start_placing(p)
            }
        },
        EventView::Finished(false) => fail(p, Failure::RenameFailed),
        _ => fail(p, Failure::UnexpectedEvent),
    }
}

/// After the transcode: any outcome but a zero exit status is fatal.
pub open spec fn after_transcode(p: PipelineView, e: EventView) -> (PipelineView, StepView) {
    match e {
        EventView::ToolFinished { outcome: ToolOutcome::Completed, .. } => start_placing(p),
        EventView::ToolFinished { outcome, .. } => fail(
            p,
            tool_failure(Tool::Transcode, outcome),
        ),
        _ => fail(p, Failure::UnexpectedEvent),
    }
}

/// The news that `e` brings to a placement in the state `placement`, if it
/// is an event that the pending action of the placement can yield: an
/// answer while the file is looked for, a completion afterwards.
pub open spec fn placement_news(placement: Placement, e: EventView) -> Option<bool> {
    match (placement, e) {
        (Placement::Locating, EventView::Answer(ok)) => Some(ok),
        (Placement::Preparing, EventView::Finished(ok)) => Some(ok),
        (Placement::Moving, EventView::Finished(ok)) => Some(ok),
        _ => None,
    }
}

/// While placing: the placement is moved on. When the artifact is placed,
/// the working directory is listed for the sweep.
pub open spec fn after_placing(p: PipelineView, placement: Placement, e: EventView) -> (
    PipelineView,
    StepView,
) {
    match placement_news(placement, e) {
        Some(ok) => {
            let (moved, action) = place_next(placement, key_of(p), ok);
            match moved {
                Placement::Placed => go(p, Stage::Listing, ActionView::ListWorking),
                Placement::Failed(f) => fail(p, Failure::PlacementFailed(f)),
                _ => match action {
                    Some(a) => go(p, Stage::Placing(moved), a),
                    None => fail(p, Failure::UnexpectedEvent),
                },
            }
        },
        None => fail(p, Failure::UnexpectedEvent),
    }
}

/// After the listing: every raw download of the kind is to be removed.
pub open spec fn after_listing(p: PipelineView, e: EventView) -> (PipelineView, StepView) {
    match e {
        EventView::Listing(Some(names)) => go(
            p,
            Stage::Sweeping,
            ActionView::Remove(stale(names, p.kind)),
        ),
        EventView::Listing(None) => fail(
            p,
            Failure::FilesystemFailure(FsOperation::ListWorkingDir),
        ),
        _ => fail(p, Failure::UnexpectedEvent),
    }
}

/// After the sweep: the request is done.
pub open spec fn after_sweep(p: PipelineView, e: EventView) -> (PipelineView, StepView) {
    match e {
        EventView::Finished(true) => finish(p),
        EventView::Finished(false) => fail(
            p,
            Failure::FilesystemFailure(FsOperation::RemoveStale),
        ),
        _ => fail(p, Failure::UnexpectedEvent),
    }
}

/// The transition function: the state after the event `e` arrived in the
/// state `p`, and what the caller is handed. The two final stages absorb
/// every event and repeat their verdict.
pub open spec fn next(p: PipelineView, e: EventView) -> (PipelineView, StepView) {
    match p.stage {
        Stage::Probing => after_probe(p, e),
        Stage::CacheLookup => after_lookup(p, e),
        Stage::Fetching => after_fetch(p, e),
        Stage::Renaming => after_rename(p, e),
        Stage::Transcoding => after_transcode(p, e),
        Stage::Placing(placement) => after_placing(p, placement, e),
        Stage::Listing => after_listing(p, e),
        Stage::Sweeping => after_sweep(p, e),
        Stage::Done => (p, StepView::End(VerdictView::Serve(key_of(p)))),
        Stage::Failed(f) => (p, StepView::End(VerdictView::Reject(f))),
    }
}

impl Pipeline {
    /// The cache key of the request: meaningful once the probe has
    /// reported.
    pub fn key(&self) -> (r: String)
        ensures
            r@ == key_of(self@),
    {
        file_name_of(
            self.title.as_str(),
            self.item_id.as_str(),
            self.kind.final_extension(self.transcode),
        )
    }

    /// True when the request has ended, well or badly.
    pub fn is_final(&self) -> (r: bool)
        ensures
            r == (self@.stage is Done || self@.stage is Failed),
    {
        match self.stage {
            Stage::Done => true,
            Stage::Failed(_) => true,
            _ => false,
        }
    }

    /// Moves on to `stage` and hands out `action`.
    fn go(&mut self, stage: Stage, action: Action) -> (step: Step)
        ensures
            final(self)@ == go(old(self)@, stage, action@).0,
            step@ == go(old(self)@, stage, action@).1,
    {
        self.stage = stage;
        Step::Do(action)
    }

    /// Ends the request with the failure `f`.
    fn fail(&mut self, f: Failure) -> (step: Step)
        ensures
            final(self)@ == fail(old(self)@, f).0,
            step@ == fail(old(self)@, f).1,
    {
        self.stage = Stage::Failed(f);
        Step::End(Verdict::Reject(f))
    }

    /// Ends the request with its artifact in the cache.
    fn finish(&mut self) -> (step: Step)
        ensures
            final(self)@ == finish(old(self)@).0,
            step@ == finish(old(self)@).1,
    {
        self.stage = Stage::Done;
        Step::End(Verdict::Serve(self.key()))
    }

    /// Starts the placement of the finished artifact.
    fn start_placing(&mut self) -> (step: Step)
        ensures
            final(self)@ == start_placing(old(self)@).0,
            step@ == start_placing(old(self)@).1,
    {
        let key = self.key();
        let (placement, action) = move_video_to_temp(&key);
        self.go(Stage::Placing(placement), action)
    }

    fn after_probe(&mut self, event: Event) -> (step: Step)
        ensures
            final(self)@ == after_probe(old(self)@, event@).0,
            step@ == after_probe(old(self)@, event@).1,
    {
        match event {
            Event::ToolFinished { outcome, report } => {
                match read_probe(outcome, report) {
                    Ok(item) => {
                        match check_duration(item.duration, self.kind, &self.config) {
                            Ok(()) => {
                                self.title = item.title;
                                self.item_id = item.id;
                                let key = self.key();
                                self.go(Stage::CacheLookup, lookup(&key))
                            },
                            Err(e) => self.fail(Failure::DurationExceeded(e)),
                        }
                    },
                    Err(_) => self.fail(Failure::ProbeFailure),
                }
            },
            _ => self.fail(Failure::UnexpectedEvent),
        }
    }

    fn after_lookup(&mut self, event: Event) -> (step: Step)
        ensures
            final(self)@ == after_lookup(old(self)@, event@).0,
            step@ == after_lookup(old(self)@, event@).1,
    {
        match event {
            Event::Answer(present) => {
                if present {
                    self.finish()
                } else {
                    let request = match self.kind {
                        MediaKind::Audio => download_audio(&self.requested_id, Some(true)),
                        MediaKind::Video => download_video(&self.requested_id, Some(true)),
                    };
                    self.go(Stage::Fetching, Action::RunFetch(request))
                }
            },
            _ => self.fail(Failure::UnexpectedEvent),
        }
    }

    fn after_fetch(&mut self, event: Event) -> (step: Step)
        ensures
            final(self)@ == after_fetch(old(self)@, event@).0,
            step@ == after_fetch(old(self)@, event@).1,
    {
        match event {
            Event::ToolFinished { outcome, report: _ } => {
                match outcome {
                    ToolOutcome::Completed => {
                        let raw = raw_output_name_of(self.item_id.as_str(), self.kind);
                        let named = file_name_of(
                            self.title.as_str(),
                            self.item_id.as_str(),
                            self.kind.raw_extension(),
                        );
                        let from = working_file(raw.as_str());
                        let to = working_file(named.as_str());
                        self.go(Stage::Renaming, Action::Rename { from, to })
                    },
                    ToolOutcome::NotStarted => self.fail(
                        Failure::ToolInvocationFailed(Tool::Fetch),
                    ),
                    ToolOutcome::ExitedNonZero => self.fail(
                        Failure::ToolExitedNonZero(Tool::Fetch),
                    ),
                }
            },
            _ => self.fail(Failure::UnexpectedEvent),
        }
    }

    fn after_rename(&mut self, event: Event) -> (step: Step)
        ensures
            final(self)@ == after_rename(old(self)@, event@).0,
            step@ == after_rename(old(self)@, event@).1,
    {
        match event {
            Event::Finished(ok) => {
                if !ok {
                    self.fail(Failure::RenameFailed)
                } else if self.transcode {
                    let name = stem_name(self.title.as_str(), self.item_id.as_str());
                    let command = match self.kind {
                        MediaKind::Audio => process_audio(&name),
                        MediaKind::Video => process_video(name.as_str()),
                    };
                    self.go(Stage::Transcoding, Action::RunTranscode(command))
                } else {
                    self.start_placing()
                }
            },
            _ => self.fail(Failure::UnexpectedEvent),
        }
    }

    fn after_transcode(&mut self, event: Event) -> (step: Step)
        ensures
            final(self)@ == after_transcode(old(self)@, event@).0,
            step@ == after_transcode(old(self)@, event@).1,
    {
        match event {
            Event::ToolFinished { outcome, report: _ } => {
                match outcome {
                    ToolOutcome::Completed => self.start_placing(),
                    ToolOutcome::NotStarted => self.fail(
                        Failure::ToolInvocationFailed(Tool::Transcode),
                    ),
                    ToolOutcome::ExitedNonZero => self.fail(
                        Failure::ToolExitedNonZero(Tool::Transcode),
                    ),
                }
            },
            _ => self.fail(Failure::UnexpectedEvent),
        }
    }

    fn after_placing(&mut self, placement: Placement, event: Event) -> (step: Step)
        ensures
            final(self)@ == after_placing(old(self)@, placement, event@).0,
            step@ == after_placing(old(self)@, placement, event@).1,
    {
        let news = match (placement, event) {
            (Placement::Locating, Event::Answer(ok)) => Some(ok),
            (Placement::Preparing, Event::Finished(ok)) => Some(ok),
            (Placement::Moving, Event::Finished(ok)) => Some(ok),
            _ => None,
        };
        match news {
            Some(ok) => {
                let key = self.key();
                let (moved, action) = placement.step(&key, ok);
                match moved {
                    Placement::Placed => self.go(Stage::Listing, Action::ListWorking),
                    Placement::Failed(f) => self.fail(Failure::PlacementFailed(f)),
                    _ => match action {
                        Some(a) => self.go(Stage::Placing(moved), a),
                        None => self.fail(Failure::UnexpectedEvent),
                    },
                }
            },
            None => self.fail(Failure::UnexpectedEvent),
        }
    }

    fn after_listing(&mut self, event: Event) -> (step: Step)
        ensures
            final(self)@ == after_listing(old(self)@, event@).0,
            step@ == after_listing(old(self)@, event@).1,
    {
        match event {
            Event::Listing(listing) => {
                match listing {
                    Some(names) => {
                        let doomed = select_stale(&names, self.kind);
                        self.go(Stage::Sweeping, Action::Remove(doomed))
                    },
                    None => self.fail(Failure::FilesystemFailure(FsOperation::ListWorkingDir)),
                }
            },
            _ => self.fail(Failure::UnexpectedEvent),
        }
    }

    fn after_sweep(&mut self, event: Event) -> (step: Step)
        ensures
            final(self)@ == after_sweep(old(self)@, event@).0,
            step@ == after_sweep(old(self)@, event@).1,
    {
        match event {
            Event::Finished(ok) => {
                if ok {
                    self.finish()
                } else {
                    self.fail(Failure::FilesystemFailure(FsOperation::RemoveStale))
                }
            },
            _ => self.fail(Failure::UnexpectedEvent),
        }
    }

    /// Takes the outcome of the action handed out last, moves to the next
    /// stage and hands out the next action or the verdict, as `next` lays
    /// down.
    pub fn step(&mut self, event: Event) -> (step: Step)
        ensures
            final(self)@ == next(old(self)@, event@).0,
            step@ == next(old(self)@, event@).1,
    {
        match self.stage {
            Stage::Probing => self.after_probe(event),
            Stage::CacheLookup => self.after_lookup(event),
            Stage::Fetching => self.after_fetch(event),
            Stage::Renaming => self.after_rename(event),
            Stage::Transcoding => self.after_transcode(event),
            Stage::Placing(placement) => self.after_placing(placement, event),
            Stage::Listing => self.after_listing(event),
            Stage::Sweeping => self.after_sweep(event),
            Stage::Done => Step::End(Verdict::Serve(self.key())),
            Stage::Failed(f) => Step::End(Verdict::Reject(f)),
        }
    }
}

/// Starts the materialization of the item that `reference` names: resolves
/// the identifier and, if there is one, hands out the probe of the item.
/// A reference without identifier fails at once, and nothing is run.
pub fn materialize_for_serving(
    reference: &String,
    kind: MediaKind,
    transcode: bool,
    config: &Configuration,
) -> (r: (Pipeline, Step))
    ensures
        r.0@ == begin(reference@, kind, transcode, *config).0,
        r.1@ == begin(reference@, kind, transcode, *config).1,
{
    let mut pipeline = Pipeline {
        stage: Stage::Probing,
        config: *config,
        kind,
        transcode,
        requested_id: String::new(),
        title: String::new(),
        item_id: String::new(),
    };
    match extract_id(reference) {
        Some(id) => {
            let request = match kind {
                MediaKind::Audio => get_metadata(&id, None),
                MediaKind::Video => get_metadata(&id, Some(true)),
            };
            pipeline.requested_id = id;
            (pipeline, Step::Do(Action::RunFetch(request)))
        },
        None => {
            let step = pipeline.fail(Failure::InvalidReference);
            (pipeline, step)
        },
    }
}

/// Starts the fetch of the item `id` under the title `title`, without
/// probe, ceiling or lookup: downloads the raw media, renames it, transcodes
/// it if `transcode` is set, places the artifact and sweeps.
pub fn materialize(
    id: &String,
    title: &String,
    kind: MediaKind,
    transcode: bool,
    config: &Configuration,
) -> (r: (Pipeline, Step))
    ensures
        r.0@ == begin_fetch(id@, title@, kind, transcode, *config).0,
        r.1@ == begin_fetch(id@, title@, kind, transcode, *config).1,
{
    let request = match kind {
        MediaKind::Audio => download_audio(id, Some(true)),
        MediaKind::Video => download_video(id, Some(true)),
    };
    let pipeline = Pipeline {
        stage: Stage::Fetching,
        config: *config,
        kind,
        transcode,
        requested_id: id.clone(),
        title: sanitize_title(title.as_str()),
        item_id: id.clone(),
    };
    (pipeline, Step::Do(Action::RunFetch(request)))
}

/// Starts the materialization of the audio of the item at `url`, transcoded
/// to MP3.
pub fn dl_get_audio(url: &String, config: &Configuration) -> (r: (Pipeline, Step))
    ensures
        r.0@ == begin(url@, MediaKind::Audio, true, *config).0,
        r.1@ == begin(url@, MediaKind::Audio, true, *config).1,
{
    materialize_for_serving(url, MediaKind::Audio, true, config)
}

/// Starts the materialization of the video of the item at `url`,
/// transcoded to MP4 when `process` is set and left as downloaded
/// otherwise.
pub fn dl_get_video(url: &String, process: bool, config: &Configuration) -> (r: (Pipeline, Step))
    ensures
        r.0@ == begin(url@, MediaKind::Video, process, *config).0,
        r.1@ == begin(url@, MediaKind::Video, process, *config).1,
{
    materialize_for_serving(url, MediaKind::Video, process, config)
}

} // verus!
