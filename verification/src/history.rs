//! Runs of the materialization machine in a world of files: what becomes of
//! the cache and of the working directory.

use crate::cache::{in_cache, in_working, Placement};
use crate::config::Configuration;
use crate::fetch::{download_request, metadata_request};
use crate::media::{stem, MediaKind};
use crate::pipeline::{
    begin, begin_fetch, intermediate, key_of, next, raw_download, PipelineView, Stage, StepView,
    VerdictView,
};
use crate::protocol::{ActionView, EventView};
use crate::runs::{
    is_final, lemma_completed_miss_is_swept, lemma_request_is_kept, lemma_second_run_hits,
    listing_index, outcome, state_after, step_at,
};
use crate::sweep::{is_raw_artifact, lemma_sweep_is_exact, stale};
use crate::transcode::transcode_command;
use crate::world::{carried_out, names_of, World};
use vstd::prelude::*;

verus! {

/// True when `s` is what the machine has handed out on entering the state
/// `q`: the pending action while the request goes on, the verdict once it
/// has ended.
pub open spec fn handed_out(q: PipelineView, s: StepView) -> bool {
    match q.stage {
        Stage::Probing => s == StepView::Do(
            ActionView::RunFetch(metadata_request(q.requested_id, q.kind)),
        ),
        Stage::CacheLookup => s == StepView::Do(ActionView::Exists(in_cache(key_of(q)))),
        Stage::Fetching => s == StepView::Do(
            ActionView::RunFetch(download_request(q.requested_id, q.kind)),
        ),
        Stage::Renaming => s == StepView::Do(
            ActionView::Rename { from: raw_download(q), to: intermediate(q) },
        ),
        Stage::Transcoding => s == StepView::Do(
            ActionView::RunTranscode(transcode_command(stem(q.title, q.item_id), q.kind)),
        ),
        Stage::Placing(Placement::Locating) => s == StepView::Do(
            ActionView::Exists(in_working(key_of(q))),
        ),
        Stage::Placing(Placement::Preparing) => s == StepView::Do(ActionView::CreateCacheRoot),
        Stage::Placing(Placement::Moving) => s == StepView::Do(
            ActionView::Rename { from: in_working(key_of(q)), to: in_cache(key_of(q)) },
        ),
        Stage::Placing(_) => false,
        Stage::Listing => s == StepView::Do(ActionView::ListWorking),
        Stage::Sweeping => s matches StepView::Do(ActionView::Remove(_)),
        Stage::Done => s == StepView::End(VerdictView::Serve(key_of(q))),
        Stage::Failed(f) => s == StepView::End(VerdictView::Reject(f)),
    }
}

/// Every transition hands out what belongs to the stage that it enters.
pub proof fn lemma_step_fits_stage(p: PipelineView, e: EventView)
    ensures
        handed_out(next(p, e).0, next(p, e).1),
        next(p, e).0.stage != Stage::Probing,
{
}

/// True when no raw download of `kind` is among `names`.
pub open spec fn clean(names: Set<Seq<char>>, kind: MediaKind) -> bool {
    forall|n: Seq<char>| names.contains(n) ==> !is_raw_artifact(n, kind)
}

/// True when a request may start in the state `start` with `first` handed
/// out: it starts with the probe or with the download, or has failed on its
/// reference.
pub open spec fn opening(start: PipelineView, first: StepView) -> bool {
    &&& handed_out(start, first)
    &&& start.stage == Stage::Probing || start.stage == Stage::Fetching || start.stage is Failed
}

/// What is pending when `events[i]` arrives: what the machine handed out
/// last.
pub open spec fn pending(
    first: StepView,
    start: PipelineView,
    events: Seq<EventView>,
    i: nat,
) -> StepView {
    if i == 0 {
        first
    } else {
        step_at(start, events, (i - 1) as nat)
    }
}

/// True when `events[i]` and `worlds[i + 1]` come of carrying out in
/// `worlds[i]` the action that is pending. Once the request has ended
/// nothing is carried out, and the world stays as it is.
pub open spec fn follows(
    first: StepView,
    start: PipelineView,
    events: Seq<EventView>,
    worlds: Seq<World>,
    i: nat,
) -> bool {
    match pending(first, start, events, i) {
        StepView::Do(a) => carried_out(worlds[i as int], a, events[i as int], worlds[i as int + 1]),
        StepView::End(_) => worlds[i as int + 1] == worlds[i as int],
    }
}

/// True when the run over `events` takes place in the worlds `worlds`, with
/// nothing but the run changing them: `worlds[0]` is the world at the
/// start, and each event with the world after it comes of carrying out the
/// pending action in the world before it.
pub open spec fn unfolds(
    first: StepView,
    start: PipelineView,
    events: Seq<EventView>,
    worlds: Seq<World>,
) -> bool {
    &&& worlds.len() == events.len() + 1
    &&& forall|i: nat| i < events.len() ==> #[trigger] follows(first, start, events, worlds, i)
}

/// What holds of the world `w` of a request that started in the world `w0`
/// and has come to the state `p` with `s` handed out.
pub open spec fn kept(w0: World, w: World, p: PipelineView, s: StepView) -> bool {
    &&& handed_out(p, s)
    &&& match p.stage {
        Stage::Probing => w == w0,
        Stage::CacheLookup => w == w0,
        Stage::Fetching => w.cache == w0.cache,
        Stage::Renaming => w.cache == w0.cache,
        Stage::Transcoding => w.cache == w0.cache,
        Stage::Placing(_) => w.cache == w0.cache,
        Stage::Listing => w.cache == w0.cache.insert(key_of(p)),
        Stage::Sweeping => {
            &&& w.cache == w0.cache.insert(key_of(p))
            &&& s matches StepView::Do(ActionView::Remove(doomed))
            &&& forall|n: Seq<char>|
                w.working.contains(n) && is_raw_artifact(n, p.kind) ==> #[trigger] doomed.contains(
                    n,
                )
        },
        Stage::Done => {
            &&& w.cache == w0.cache.insert(key_of(p))
            &&& w == w0 || clean(w.working, p.kind)
        },
        Stage::Failed(_) => w.cache == w0.cache || w.cache == w0.cache.insert(key_of(p)),
    }
}

/// One step keeps what holds of the world.
proof fn lemma_kept_step(
    w0: World,
    w: World,
    p: PipelineView,
    s: StepView,
    e: EventView,
    after: World,
)
    requires
        kept(w0, w, p, s),
        match s {
            StepView::Do(a) => carried_out(w, a, e, after),
            StepView::End(_) => after == w,
        },
    ensures
        kept(w0, after, next(p, e).0, next(p, e).1),
{
    lemma_step_fits_stage(p, e);
    let q = next(p, e).0;
    match p.stage {
        Stage::CacheLookup => {
            if e == EventView::Answer(true) {
                assert(w0.cache.insert(key_of(p)) =~= w0.cache);
            }
        },
        Stage::Placing(Placement::Moving) => {
            if e == EventView::Finished(true) {
                assert(after.cache =~= w0.cache.insert(key_of(p)));
            }
        },
        Stage::Listing => {
            match e {
                EventView::Listing(Some(names)) => {
                    assert forall|n: Seq<char>|
                        after.working.contains(n) && is_raw_artifact(
                            n,
                            q.kind,
                        ) implies #[trigger] stale(names, q.kind).contains(n) by {
                        assert(names_of(names).contains(n));
                        lemma_sweep_is_exact(names, q.kind, n);
                    }
                },
                _ => {},
            }
        },
        Stage::Sweeping => {
            if e == EventView::Finished(true) {
                let doomed = s->Do_0->Remove_0;
                assert forall|n: Seq<char>| after.working.contains(n) implies !is_raw_artifact(
                    n,
                    q.kind,
                ) by {
                    if is_raw_artifact(n, q.kind) {
                        assert(w.working.contains(n));
                        assert(doomed.contains(n));
                        assert(names_of(doomed).contains(n));
                    }
                }
            }
        },
        _ => {},
    }
}

/// What holds of the world holds all along a run.
pub proof fn lemma_kept_along_run(
    first: StepView,
    start: PipelineView,
    events: Seq<EventView>,
    worlds: Seq<World>,
    i: nat,
)
    requires
        opening(start, first),
        unfolds(first, start, events, worlds),
        i <= events.len(),
    ensures
        kept(
            worlds[0],
            worlds[i as int],
            state_after(start, events, i),
            pending(first, start, events, i),
        ),
    decreases i,
{
    if i > 0 {
        let j = (i - 1) as nat;
        lemma_kept_along_run(first, start, events, worlds, j);
        assert(follows(first, start, events, worlds, j));
        lemma_kept_step(
            worlds[0],
            worlds[j as int],
            state_after(start, events, j),
            pending(first, start, events, j),
            events[j as int],
            worlds[i as int],
        );
    }
}

/// Once a request has ended, the world stays as the request left it.
pub proof fn lemma_world_rests_after_end(
    first: StepView,
    start: PipelineView,
    events: Seq<EventView>,
    worlds: Seq<World>,
    i: nat,
    j: nat,
)
    requires
        opening(start, first),
        unfolds(first, start, events, worlds),
        i <= j <= events.len(),
        is_final(state_after(start, events, i).stage),
    ensures
        worlds[j as int] == worlds[i as int],
        state_after(start, events, j) == state_after(start, events, i),
    decreases j,
{
    if i < j {
        let k = (j - 1) as nat;
        lemma_world_rests_after_end(first, start, events, worlds, i, k);
        lemma_kept_along_run(first, start, events, worlds, k);
        assert(follows(first, start, events, worlds, k));
    }
}

/// Placement is atomic in the cache. The cache root holds what it held at
/// the start until the artifact has been moved in by the one rename; from
/// then on it holds that and the entry of the request's key, and never
/// anything else. So whenever a request is cut short or fails, the cache
/// holds no entry on its account unless the complete artifact was placed.
pub proof fn lemma_cache_gains_only_the_artifact(
    first: StepView,
    start: PipelineView,
    events: Seq<EventView>,
    worlds: Seq<World>,
    i: nat,
)
    requires
        opening(start, first),
        unfolds(first, start, events, worlds),
        i <= events.len(),
    ensures
        ({
            let p = state_after(start, events, i);
            let cache = worlds[i as int].cache;
            &&& cache == worlds[0].cache || cache == worlds[0].cache.insert(key_of(p))
            &&& precedes_placement(p.stage) ==> cache == worlds[0].cache
            &&& p.stage == Stage::Done ==> cache.contains(key_of(p))
        }),
{
    lemma_kept_along_run(first, start, events, worlds, i);
}

/// No partial entry. After a lookup that missed, and for as long as the
/// artifact has not been moved in by the placing rename, no file stands
/// under the request's key in the cache root: a request that is cut short
/// or fails between the download and the placement leaves nothing there
/// for a lookup to find.
pub proof fn lemma_no_entry_before_placement(
    first: StepView,
    start: PipelineView,
    events: Seq<EventView>,
    worlds: Seq<World>,
    i: nat,
)
    requires
        opening(start, first),
        start.stage == Stage::Probing,
        unfolds(first, start, events, worlds),
        2 <= i <= events.len(),
        events[1] == EventView::Answer(false),
        precedes_placement(state_after(start, events, i).stage),
    ensures
        !worlds[i as int].cache.contains(key_of(state_after(start, events, i))),
{
    assert(state_after(start, events, 0) == start);
    let s1 = state_after(start, events, 1);
    assert(s1 == next(start, events[0]).0);
    lemma_kept_along_run(first, start, events, worlds, 1);
    lemma_kept_along_run(first, start, events, worlds, i);
    if is_final(s1.stage) {
        lemma_world_rests_after_end(first, start, events, worlds, 1, i);
    }
    assert(follows(first, start, events, worlds, 1));
    lemma_request_is_kept(start, events, 1, i);
}

/// True for the stages in which the artifact has not been moved into the
/// cache yet.
pub open spec fn precedes_placement(stage: Stage) -> bool {
    match stage {
        Stage::Probing => true,
        Stage::CacheLookup => true,
        Stage::Fetching => true,
        Stage::Renaming => true,
        Stage::Transcoding => true,
        Stage::Placing(_) => true,
        _ => false,
    }
}

/// Cleanup. A materialization that ends well either was served from the
/// cache and has touched no file, or has left no raw download of its kind
/// in the working directory. So a working directory that held none before
/// holds none after.
pub proof fn lemma_done_leaves_working_clean(
    first: StepView,
    start: PipelineView,
    events: Seq<EventView>,
    worlds: Seq<World>,
)
    requires
        opening(start, first),
        unfolds(first, start, events, worlds),
        outcome(start, events).stage == Stage::Done,
    ensures
        worlds[events.len() as int] == worlds[0] || clean(
            worlds[events.len() as int].working,
            start.kind,
        ),
        clean(worlds[0].working, start.kind) ==> clean(
            worlds[events.len() as int].working,
            start.kind,
        ),
{
    lemma_kept_along_run(first, start, events, worlds, events.len());
    lemma_kind_is_kept(start, events, events.len());
}

/// Cleanup after a miss. A materialization that ends well although the
/// lookup missed has left no raw download of its kind in the working
/// directory, whatever the directory held before and whatever the tools
/// added to it.
pub proof fn lemma_miss_leaves_working_clean(
    first: StepView,
    start: PipelineView,
    events: Seq<EventView>,
    worlds: Seq<World>,
)
    requires
        opening(start, first),
        start.stage == Stage::Probing,
        unfolds(first, start, events, worlds),
        outcome(start, events).stage == Stage::Done,
        events.len() >= 2,
        events[1] == EventView::Answer(false),
    ensures
        clean(worlds[events.len() as int].working, start.kind),
{
    lemma_completed_miss_is_swept(start, events);
    let i = listing_index(start.transcode);
    lemma_step_fits_stage(state_after(start, events, i), events[i as int]);
    lemma_kind_is_kept(start, events, i + 1);
    lemma_kept_along_run(first, start, events, worlds, i + 1);
    assert(follows(first, start, events, worlds, i + 1));
    let doomed = pending(first, start, events, i + 1)->Do_0->Remove_0;
    let after = worlds[i as int + 2];
    assert forall|n: Seq<char>| after.working.contains(n) implies !is_raw_artifact(
        n,
        start.kind,
    ) by {
        if is_raw_artifact(n, start.kind) {
            assert(worlds[i as int + 1].working.contains(n));
            assert(doomed.contains(n));
            assert(names_of(doomed).contains(n));
        }
    }
    lemma_world_rests_after_end(first, start, events, worlds, i + 2, events.len());
}

/// The kind of a request never changes.
pub proof fn lemma_kind_is_kept(start: PipelineView, events: Seq<EventView>, i: nat)
    ensures
        state_after(start, events, i).kind == start.kind,
        state_after(start, events, i).transcode == start.transcode,
        state_after(start, events, i).config == start.config,
        state_after(start, events, i).requested_id == start.requested_id,
    decreases i,
{
    if i > 0 {
        lemma_kind_is_kept(start, events, (i - 1) as nat);
    }
}

/// Idempotence. Let a materialization end with the artifact in the cache,
/// and let the same request be made again in the world that the first run
/// left, with no other run in between and with a probe that reports what
/// the first one's did. Then the lookup of the second run finds the entry,
/// and the run serves the same key after the probe and the lookup alone:
/// nothing is downloaded, renamed, transcoded, placed or swept, and no
/// file is touched.
pub proof fn lemma_repeat_is_served_from_cache(
    first: StepView,
    start: PipelineView,
    events: Seq<EventView>,
    worlds: Seq<World>,
    again: Seq<EventView>,
    worlds_again: Seq<World>,
)
    requires
        opening(start, first),
        start.stage == Stage::Probing,
        unfolds(first, start, events, worlds),
        outcome(start, events).stage == Stage::Done,
        unfolds(first, start, again, worlds_again),
        worlds_again[0] == worlds[events.len() as int],
        again.len() >= 2,
        again[0] == events[0],
    ensures
        ({
            let key = key_of(outcome(start, events));
            &&& step_at(start, again, 0) == StepView::Do(ActionView::Exists(in_cache(key)))
            &&& again[1] == EventView::Answer(true)
            &&& step_at(start, again, 1) == StepView::End(VerdictView::Serve(key))
            &&& outcome(start, again).stage == Stage::Done
            &&& key_of(outcome(start, again)) == key
            &&& worlds_again[again.len() as int] == worlds_again[0]
        }),
{
    let n = events.len();
    lemma_cache_gains_only_the_artifact(first, start, events, worlds, n);
    lemma_second_run_hits(start, events);
    let s1 = state_after(start, events, 1);
    assert(state_after(start, events, 0) == start);
    assert(s1 == next(start, events[0]).0);
    lemma_request_is_kept(start, events, 1, n);
    assert(key_of(outcome(start, events)) == key_of(s1));

    assert(state_after(start, again, 0) == start);
    assert(state_after(start, again, 1) == s1);
    assert(follows(first, start, again, worlds_again, 0));
    assert(worlds_again[1] == worlds_again[0]);
    assert(follows(first, start, again, worlds_again, 1));
    assert(again[1] == EventView::Answer(true));
    assert(state_after(start, again, 2) == next(s1, again[1]).0);
    assert(worlds_again[2] == worlds_again[1]);
    lemma_world_rests_after_end(first, start, again, worlds_again, 2, again.len());
}

/// The two ways in which a request starts are openings.
pub proof fn lemma_starts_are_openings(
    reference: Seq<char>,
    id: Seq<char>,
    title: Seq<char>,
    kind: MediaKind,
    transcode: bool,
    config: Configuration,
)
    ensures
        opening(
            begin(reference, kind, transcode, config).0,
            begin(reference, kind, transcode, config).1,
        ),
        opening(
            begin_fetch(id, title, kind, transcode, config).0,
            begin_fetch(id, title, kind, transcode, config).1,
        ),
{
}

} // verus!
