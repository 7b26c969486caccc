//! What holds of the materialization machine, step by step and over whole
//! runs.

use crate::cache::{in_cache, in_working, Placement};
use crate::fetch::{probed, ToolOutcome};
use crate::config::Configuration;
use crate::media::{raw_extension, stem, MediaKind};
use crate::pipeline::{
    begin, intermediate, key_of, next, raw_download, PipelineView, Stage, StepView, VerdictView,
};
use crate::policy::violates;
use crate::protocol::{writes_cache, ActionView, EventView};
use crate::sweep::{is_raw_artifact, stale};
use crate::transcode::transcode_command;
use vstd::prelude::*;

verus! {

/// The state that the machine is in once it has taken the first `n` of
/// `events`, starting from `start`.
pub open spec fn state_after(start: PipelineView, events: Seq<EventView>, n: nat) -> PipelineView
    decreases n,
{
    if n == 0 {
        start
    } else {
        next(state_after(start, events, (n - 1) as nat), events[n - 1]).0
    }
}

/// What the machine hands out when it takes `events[i]`.
pub open spec fn step_at(start: PipelineView, events: Seq<EventView>, i: nat) -> StepView {
    next(state_after(start, events, i), events[i as int]).1
}

/// The state in which a run over all of `events` ends.
pub open spec fn outcome(start: PipelineView, events: Seq<EventView>) -> PipelineView {
    state_after(start, events, events.len())
}

/// True when the request has ended.
pub open spec fn is_final(stage: Stage) -> bool {
    stage is Done || stage is Failed
}

/// True when two states belong to the same probed request: they agree in
/// everything but the stage.
pub open spec fn same_request(a: PipelineView, b: PipelineView) -> bool {
    PipelineView { stage: a.stage, ..b } == a
}

/// No retry: a request that has ended stays as it ended, whatever is
/// reported to it afterwards.
pub proof fn lemma_final_stage_absorbs(start: PipelineView, events: Seq<EventView>, i: nat, j: nat)
    requires
        i <= j,
        is_final(state_after(start, events, i).stage),
    ensures
        state_after(start, events, j) == state_after(start, events, i),
    decreases j,
{
    if i < j {
        lemma_final_stage_absorbs(start, events, i, (j - 1) as nat);
    }
}

/// Once a request is probed, its settings, title and identifiers are
/// fixed: the stages that follow change nothing else in the state.
pub proof fn lemma_request_is_kept(start: PipelineView, events: Seq<EventView>, i: nat, j: nat)
    requires
        i <= j,
        state_after(start, events, i).stage != Stage::Probing,
    ensures
        same_request(state_after(start, events, j), state_after(start, events, i)),
        state_after(start, events, j).stage != Stage::Probing,
    decreases j,
{
    if i < j {
        lemma_request_is_kept(start, events, i, (j - 1) as nat);
    }
}

/// Placement is the only write to the cache, and it is one rename of the
/// finished artifact. Whatever the state and the event, the machine hands
/// out an action that touches the cache root only when the placement has
/// found the artifact complete in the working directory and the cache root
/// is there; and that action is the rename of the artifact to the entry of
/// its key. Until then nothing stands under the key on account of this
/// request.
pub proof fn lemma_only_placement_writes_cache(p: PipelineView, e: EventView)
    ensures
        next(p, e).1 matches StepView::Do(a) && writes_cache(a) ==> {
            &&& p.stage == Stage::Placing(Placement::Preparing)
            &&& e == EventView::Finished(true)
            &&& next(p, e).0.stage == Stage::Placing(Placement::Moving)
            &&& next(p, e).1 == StepView::Do(
                ActionView::Rename { from: in_working(key_of(p)), to: in_cache(key_of(p)) },
            )
        },
{
}

/// Each step finds the file that the step before left. The transcode tool
/// reads the download under its intermediate name and writes the artifact
/// that is placed; without transcoding, the renamed download is itself the
/// artifact.
pub proof fn lemma_names_fit_together(p: PipelineView)
    ensures
        ({
            let command = transcode_command(stem(p.title, p.item_id), p.kind);
            &&& command.args[1] == intermediate(p).name
            &&& p.transcode ==> command.args.last() == key_of(p)
            &&& !p.transcode ==> intermediate(p).name == key_of(p)
        }),
{
}

/// What a request leaves behind in the working directory is what its sweep
/// removes: the download under the name that the fetch tool gave it and
/// under its intermediate name are both raw downloads of the kind.
pub proof fn lemma_own_leftovers_are_raw(p: PipelineView)
    ensures
        is_raw_artifact(raw_download(p).name, p.kind),
        is_raw_artifact(intermediate(p).name, p.kind),
{
    reveal_strlit(".");
    reveal_strlit("[");
    reveal_strlit("].");
    reveal_strlit(" [");
    reveal_strlit("]");
    let ext = raw_extension(p.kind);
    let raw = raw_download(p).name;
    let named = intermediate(p).name;
    let head = "["@ + p.item_id;
    assert(raw == head + "]."@ + ext);
    assert(raw.len() == head.len() + 2 + ext.len());
    assert(raw[raw.len() - ext.len() - 1] == "]."@[1]);
    assert(raw.subrange(raw.len() - ext.len(), raw.len() as int) =~= ext);
    let body = stem(p.title, p.item_id);
    assert(named == body + "."@ + ext);
    assert(body.len() >= 3);
    assert(named[named.len() - ext.len() - 1] == "."@[0]);
    assert(named.subrange(named.len() - ext.len(), named.len() as int) =~= ext);
}

/// Nothing is downloaded before the ceiling is passed. The machine hands
/// out a download only on a miss of the lookup, and the lookup is reached
/// only from a probe that completed with a duration within the ceiling: a
/// failed probe and a rejected duration never lead to a download.
pub proof fn lemma_download_follows_policy(p: PipelineView, e: EventView)
    ensures
        next(p, e).1 matches StepView::Do(ActionView::RunFetch(r)) ==> p.stage
            == Stage::CacheLookup && e == EventView::Answer(false),
        next(p, e).0.stage == Stage::CacheLookup ==> {
            &&& p.stage == Stage::Probing
            &&& e matches EventView::ToolFinished { outcome, report }
            &&& probed(outcome, report) matches Some(m)
            &&& !violates(m.duration, p.kind, p.config)
        },
{
}

/// A placement starts only once the download, the intermediate rename and,
/// where asked for, the transcode have succeeded; and it goes on to the
/// cache only when the artifact exists.
pub proof fn lemma_placement_follows_assembly(p: PipelineView, e: EventView)
    ensures
        next(p, e).0.stage == Stage::Placing(Placement::Locating) ==> {
            ||| p.stage == Stage::Transcoding && e matches EventView::ToolFinished {
                outcome: ToolOutcome::Completed,
                ..
            }
            ||| p.stage == Stage::Renaming && !p.transcode && e == EventView::Finished(true)
        },
        next(p, e).0.stage == Stage::Placing(Placement::Preparing) ==> p.stage == Stage::Placing(
            Placement::Locating,
        ) && e == EventView::Answer(true),
{
}

/// A request that ended well serves its key: the verdict of a run that
/// ends `Done` is to serve the cache entry of the request's key.
pub proof fn lemma_done_serves_key(start: PipelineView, events: Seq<EventView>)
    requires
        events.len() > 0,
        outcome(start, events).stage == Stage::Done,
    ensures
        step_at(start, events, (events.len() - 1) as nat) == StepView::End(
            VerdictView::Serve(key_of(outcome(start, events))),
        ),
{
}

/// How far a request has come: a measure that every transition raises
/// until the request has ended.
pub open spec fn progress(stage: Stage) -> nat {
    match stage {
        Stage::Probing => 0,
        Stage::CacheLookup => 1,
        Stage::Fetching => 2,
        Stage::Renaming => 3,
        Stage::Transcoding => 4,
        Stage::Placing(Placement::Locating) => 5,
        Stage::Placing(Placement::Preparing) => 6,
        Stage::Placing(_) => 7,
        Stage::Listing => 8,
        Stage::Sweeping => 9,
        Stage::Done => 10,
        Stage::Failed(_) => 10,
    }
}

/// No way back: a transition of a request that has not ended leads to a
/// later stage, whatever the event. No stage is entered twice, so nothing
/// is retried.
pub proof fn lemma_no_way_back(p: PipelineView, e: EventView)
    ensures
        !is_final(p.stage) ==> progress(next(p, e).0.stage) > progress(p.stage),
        is_final(p.stage) ==> next(p, e).0 == p,
{
}

/// A run moves forward by at least one stage per event until it ends.
pub proof fn lemma_run_moves_forward(start: PipelineView, events: Seq<EventView>, i: nat, j: nat)
    requires
        i <= j,
    ensures
        progress(state_after(start, events, j).stage) >= progress(
            state_after(start, events, i).stage,
        ),
        is_final(state_after(start, events, j).stage) || progress(
            state_after(start, events, j).stage,
        ) >= progress(state_after(start, events, i).stage) + (j - i),
    decreases j,
{
    if i < j {
        lemma_run_moves_forward(start, events, i, (j - 1) as nat);
        lemma_no_way_back(state_after(start, events, (j - 1) as nat), events[j - 1]);
    }
}

/// Every request ends: after ten events at the latest the machine has
/// reached its verdict.
pub proof fn lemma_run_is_bounded(start: PipelineView, events: Seq<EventView>)
    requires
        events.len() >= 10,
    ensures
        is_final(outcome(start, events).stage),
{
    lemma_run_moves_forward(start, events, 0, events.len());
}

/// The cache is written at most once in a run: after the step that hands
/// out the rename into the cache, no later step touches the cache root.
pub proof fn lemma_cache_written_at_most_once(
    start: PipelineView,
    events: Seq<EventView>,
    i: nat,
    j: nat,
)
    requires
        i < j,
        step_at(start, events, i) matches StepView::Do(a) && writes_cache(a),
    ensures
        !(step_at(start, events, j) matches StepView::Do(a) && writes_cache(a)),
{
    lemma_only_placement_writes_cache(state_after(start, events, i), events[i as int]);
    lemma_only_placement_writes_cache(state_after(start, events, j), events[j as int]);
    assert(state_after(start, events, i + 1) == next(
        state_after(start, events, i),
        events[i as int],
    ).0);
    lemma_run_moves_forward(start, events, i + 1, j);
}

/// Idempotence. Let a first run of a request end with the artifact in the
/// cache. Then a second run of the same request, whose probe reports what
/// the first one's did and whose lookup finds the entry, ends at once with
/// the same key: it hands out the lookup of that key and the verdict, and
/// no download, rename, transcode, placement or sweep.
pub proof fn lemma_second_run_hits(start: PipelineView, events: Seq<EventView>)
    requires
        start.stage == Stage::Probing,
        outcome(start, events).stage == Stage::Done,
    ensures
        events.len() >= 2,
        ({
            let again = seq![events[0], EventView::Answer(true)];
            let key = key_of(outcome(start, events));
            &&& outcome(start, again).stage == Stage::Done
            &&& key_of(outcome(start, again)) == key
            &&& step_at(start, again, 0) == StepView::Do(ActionView::Exists(in_cache(key)))
            &&& step_at(start, again, 1) == StepView::End(VerdictView::Serve(key))
        }),
{
    let s0 = state_after(start, events, 0);
    assert(s0 == start);
    if events.len() == 0 {
        assert(false);
    }
    let s1 = state_after(start, events, 1);
    assert(s1 == next(s0, events[0]).0);
    if is_final(s1.stage) {
        lemma_final_stage_absorbs(start, events, 1, events.len());
        assert(false);
    }
    assert(s1.stage == Stage::CacheLookup);
    if events.len() == 1 {
        assert(false);
    }
    lemma_request_is_kept(start, events, 1, events.len());
    let again = seq![events[0], EventView::Answer(true)];
    assert(state_after(start, again, 0) == start);
    assert(state_after(start, again, 1) == s1);
    assert(state_after(start, again, 2) == next(s1, again[1]).0);
}

/// Idempotence of materialization. Let the materialization of a reference
/// end with the artifact in the cache. Then the materialization of the same
/// reference in the same kind, whose probe reports what the first one's did
/// and whose lookup finds the entry, serves the same key after the probe
/// and the lookup alone.
pub proof fn lemma_materialize_is_idempotent(
    reference: Seq<char>,
    kind: MediaKind,
    transcode: bool,
    config: Configuration,
    events: Seq<EventView>,
)
    requires
        outcome(begin(reference, kind, transcode, config).0, events).stage == Stage::Done,
    ensures
        events.len() >= 2,
        ({
            let start = begin(reference, kind, transcode, config).0;
            let again = seq![events[0], EventView::Answer(true)];
            let key = key_of(outcome(start, events));
            &&& begin(reference, kind, transcode, config).1 is Do
            &&& step_at(start, again, 0) == StepView::Do(ActionView::Exists(in_cache(key)))
            &&& step_at(start, again, 1) == StepView::End(VerdictView::Serve(key))
            &&& outcome(start, again).stage == Stage::Done
        }),
{
    let start = begin(reference, kind, transcode, config).0;
    if start.stage != Stage::Probing {
        lemma_final_stage_absorbs(start, events, 0, events.len());
    }
    lemma_second_run_hits(start, events);
}

/// Index of the listing among the events of a completed miss.
pub open spec fn listing_index(transcode: bool) -> nat {
    if transcode {
        8
    } else {
        7
    }
}

/// A completed miss is swept. In a run that ends `Done` although the lookup
/// missed, the artifact was moved into the cache by the one rename, then
/// the machine was given a listing of the working directory, asked for the
/// removal of exactly the raw downloads of the kind in it, and was told
/// that they are gone; only then did it serve the artifact.
pub proof fn lemma_completed_miss_is_swept(start: PipelineView, events: Seq<EventView>)
    requires
        start.stage == Stage::Probing,
        outcome(start, events).stage == Stage::Done,
        events.len() >= 2,
        events[1] == EventView::Answer(false),
    ensures
        ({
            let i = listing_index(start.transcode);
            &&& events.len() >= i + 2
            &&& step_at(start, events, (i - 2) as nat) == StepView::Do(
                ActionView::Rename {
                    from: in_working(key_of(outcome(start, events))),
                    to: in_cache(key_of(outcome(start, events))),
                },
            )
            &&& events[i - 1] == EventView::Finished(true)
            &&& step_at(start, events, (i - 1) as nat) == StepView::Do(ActionView::ListWorking)
            &&& events[i as int] matches EventView::Listing(Some(names)) && step_at(
                start,
                events,
                i,
            ) == StepView::Do(ActionView::Remove(stale(names, start.kind)))
            &&& events[i as int + 1] == EventView::Finished(true)
            &&& state_after(start, events, i + 2).stage == Stage::Done
            &&& forall|k: nat|
                k < i + 2 ==> !is_final(#[trigger] state_after(start, events, k).stage)
        }),
{
    // Each event of the run must be the good news that its stage waits
    // for: any other event ends the request in a failure, which no later
    // event undoes.
    assert(state_after(start, events, 0) == start);
    lemma_live_prefix(start, events, 1);
    lemma_live_prefix(start, events, 2);
    lemma_live_prefix(start, events, 3);
    lemma_live_prefix(start, events, 4);
    lemma_live_prefix(start, events, 5);
    lemma_live_prefix(start, events, 6);
    lemma_live_prefix(start, events, 7);
    lemma_live_prefix(start, events, 8);
    lemma_live_prefix(start, events, 9);
    if start.transcode {
        lemma_live_prefix(start, events, 10);
    }
    lemma_request_is_kept(start, events, 1, events.len());
}

/// In a run that ends `Done`, a state that has not ended is followed by a
/// further event, and the state after that event has not failed.
proof fn lemma_live_prefix(start: PipelineView, events: Seq<EventView>, k: nat)
    requires
        outcome(start, events).stage == Stage::Done,
        k >= 1,
        k - 1 <= events.len(),
        !is_final(state_after(start, events, (k - 1) as nat).stage),
    ensures
        k <= events.len(),
        state_after(start, events, k) == next(
            state_after(start, events, (k - 1) as nat),
            events[k - 1],
        ).0,
        !(state_after(start, events, k).stage is Failed),
{
    if state_after(start, events, k).stage is Failed && k <= events.len() {
        lemma_final_stage_absorbs(start, events, k, events.len());
    }
}

} // verus!
