//! Whole runs against a scripted environment, and what holds of them.
use vstd::prelude::*;
use crate::freshness::rebuild_needed;
use crate::pipeline::{Event, Pipeline, Stage};
use crate::source::SyncError;
use crate::sync::reports_up_to_date;

verus! {

/// The environment's answer to the action `p` asks for. `world[i]` holds, for
/// source `i`, the answer to its probe and the end of its transfer; `outputs`
/// answers the output check and `composed` the composer.
pub open spec fn reply(p: Pipeline, world: Seq<(Event, Event)>, outputs: Event, composed: Event) -> Event {
    if p.stage is Probing {
        world[p.index as int].0
    } else if p.stage is Cloning || p.stage is Pulling {
        world[p.index as int].1
    } else if p.stage is CheckingOutputs {
        outputs
    } else {
        composed
    }
}

/// The state after `steps` exchanges with the environment.
pub open spec fn run(
    p: Pipeline,
    world: Seq<(Event, Event)>,
    outputs: Event,
    composed: Event,
    steps: nat,
) -> Pipeline
    decreases steps,
{
    if steps == 0 {
        p
    } else {
        run(p.after(reply(p, world, outputs, composed)), world, outputs, composed, (steps - 1) as nat)
    }
}

/// How many clones are asked for during those `steps` exchanges.
pub open spec fn clone_count(
    p: Pipeline,
    world: Seq<(Event, Event)>,
    outputs: Event,
    composed: Event,
    steps: nat,
) -> nat
    decreases steps,
{
    if steps == 0 {
        0
    } else {
        (if p.stage is Cloning { 1nat } else { 0nat }) + clone_count(
            p.after(reply(p, world, outputs, composed)),
            world,
            outputs,
            composed,
            (steps - 1) as nat,
        )
    }
}

/// A source whose transfer succeeds: a clone where no copy exists, a
/// fast-forward where one does.
pub open spec fn clean(r: (Event, Event)) -> bool {
    match r.0 {
        Event::Presence { exists } => match r.1 {
            Event::CloneFinished { success, .. } => !exists && success,
            Event::PullFinished { success, .. } => exists && success,
            _ => false,
        },
        _ => false,
    }
}

/// A transfer that changed the working copy.
pub open spec fn brings_change(e: Event) -> bool {
    match e {
        Event::CloneFinished { .. } => true,
        Event::PullFinished { stdout, .. } => !reports_up_to_date(stdout@),
        _ => false,
    }
}

/// A clean source already cloned whose update brought nothing new.
pub open spec fn settled(r: (Event, Event)) -> bool {
    clean(r) && r.0 == (Event::Presence { exists: true }) && !brings_change(r.1)
}

/// Sources in `lo..hi` whose working copy is missing.
pub open spec fn absent_count(world: Seq<(Event, Event)>, lo: int, hi: int) -> nat
    decreases hi - lo,
{
    if lo >= hi {
        0
    } else {
        (if world[lo].0 == (Event::Presence { exists: false }) { 1nat } else { 0nat })
            + absent_count(world, lo + 1, hi)
    }
}

proof fn lemma_run_split(
    p: Pipeline,
    world: Seq<(Event, Event)>,
    outputs: Event,
    composed: Event,
    a: nat,
    b: nat,
)
    ensures
        run(p, world, outputs, composed, a + b) == run(
            run(p, world, outputs, composed, a),
            world,
            outputs,
            composed,
            b,
        ),
    decreases a,
{
    if a > 0 {
        let next = p.after(reply(p, world, outputs, composed));
        lemma_run_split(next, world, outputs, composed, (a - 1) as nat, b);
        assert((a + b - 1) as nat == (a - 1) as nat + b);
    }
}

/// Synchronizing `k` clean sources from a probing state.
proof fn lemma_clean_sources(
    p: Pipeline,
    world: Seq<(Event, Event)>,
    outputs: Event,
    composed: Event,
    k: nat,
)
    requires
        p.wf(),
        p.stage is Probing,
        p.index + k <= p.sources@.len(),
        world.len() == p.sources@.len(),
        forall|j: int| p.index <= j < p.index + k ==> clean(#[trigger] world[j]),
    ensures
        ({
            let q = run(p, world, outputs, composed, 2 * k);
            &&& q.wf()
            &&& q.sources == p.sources
            &&& q.index == p.index + k
            &&& q.index < p.sources@.len() ==> q.stage is Probing
            &&& q.index == p.sources@.len() ==> q.stage is CheckingOutputs
            &&& q.fresh == (p.fresh || exists|j: int|
                p.index <= j < p.index + k && brings_change(#[trigger] world[j].1))
            &&& clone_count(p, world, outputs, composed, 2 * k) == absent_count(
                world,
                p.index as int,
                p.index + k,
            )
        }),
    decreases k,
{
    if k > 0 {
        let i = p.index as int;
        let p1 = p.after(reply(p, world, outputs, composed));
        let p2 = p1.after(reply(p1, world, outputs, composed));
        assert(clean(world[i]));
        assert(p2.wf());
        assert(p2.sources == p.sources);
        assert(p2.index == p.index + 1);
        assert(p2.fresh == (p.fresh || brings_change(world[i].1)));
        assert(run(p, world, outputs, composed, 2 * k) == run(
            p2,
            world,
            outputs,
            composed,
            (2 * (k - 1)) as nat,
        )) by {
            assert(run(p, world, outputs, composed, 2 * k) == run(
                p1,
                world,
                outputs,
                composed,
                (2 * k - 1) as nat,
            ));
        }
        assert(clone_count(p, world, outputs, composed, 2 * k) == absent_count(world, i, i + 1)
            + clone_count(p2, world, outputs, composed, (2 * (k - 1)) as nat)) by {
            assert(clone_count(p, world, outputs, composed, 2 * k) == clone_count(
                p1,
                world,
                outputs,
                composed,
                (2 * k - 1) as nat,
            ));
            assert(absent_count(world, i + 1, i + 1) == 0);
        }
        if k == 1 {
            assert(run(p2, world, outputs, composed, 0) == p2);
            assert(clone_count(p2, world, outputs, composed, 0) == 0);
        } else {
            lemma_clean_sources(p2, world, outputs, composed, (k - 1) as nat);
        }
        assert(absent_count(world, i, i + k) == absent_count(world, i, i + 1) + absent_count(
            world,
            i + 1,
            i + k,
        ));
        let q = run(p, world, outputs, composed, 2 * k);
        if q.fresh {
            if !(p.fresh || brings_change(world[i].1)) {
                let j = choose|j: int| p2.index <= j < p2.index + (k - 1) && brings_change(
                    #[trigger] world[j].1,
                );
                assert(p.index <= j < p.index + k && brings_change(world[j].1));
            }
        } else {
            assert forall|j: int| p.index <= j < p.index + k implies !brings_change(
                #[trigger] world[j].1,
            ) by {
                if j > i {
                    assert(p2.index <= j < p2.index + (k - 1));
                }
            }
        }
    } else {
        assert(run(p, world, outputs, composed, 0) == p);
        assert(clone_count(p, world, outputs, composed, 0) == 0);
    }
}

proof fn lemma_absent_count_bounds(world: Seq<(Event, Event)>, lo: int, hi: int)
    requires
        lo <= hi <= world.len(),
    ensures
        (forall|j: int| lo <= j < hi ==> #[trigger] world[j].0 == (Event::Presence { exists: false }))
            ==> absent_count(world, lo, hi) == hi - lo,
        (forall|j: int| lo <= j < hi ==> #[trigger] world[j].0 == (Event::Presence { exists: true }))
            ==> absent_count(world, lo, hi) == 0,
    decreases hi - lo,
{
    if lo < hi {
        lemma_absent_count_bounds(world, lo + 1, hi);
    }
}

proof fn lemma_finished_stays(
    p: Pipeline,
    world: Seq<(Event, Event)>,
    outputs: Event,
    composed: Event,
    steps: nat,
)
    requires
        p.is_finished_spec(),
    ensures
        run(p, world, outputs, composed, steps) == p,
    decreases steps,
{
    if steps > 0 {
        lemma_finished_stays(p, world, outputs, composed, (steps - 1) as nat);
    }
}

/// When no source has a working copy yet and every clone succeeds, each
/// source is cloned exactly once and the folded freshness is true.
pub proof fn fresh_sources_are_all_cloned(
    p: Pipeline,
    world: Seq<(Event, Event)>,
    outputs: Event,
    composed: Event,
)
    requires
        p.wf(),
        p.is_start(),
        world.len() == p.sources@.len(),
        forall|j: int|
            0 <= j < world.len() ==> #[trigger] world[j].0 == (Event::Presence { exists: false })
                && world[j].1 is CloneFinished && world[j].1->CloneFinished_success,
    ensures
        ({
            let n = p.sources@.len();
            let q = run(p, world, outputs, composed, 2 * n);
            &&& q.stage is CheckingOutputs
            &&& q.fresh
            &&& clone_count(p, world, outputs, composed, 2 * n) == n
        }),
{
    let n = p.sources@.len();
    assert forall|j: int| p.index <= j < p.index + n implies clean(#[trigger] world[j]) by {
        assert(world[j].0 == (Event::Presence { exists: false }));
    }
    lemma_clean_sources(p, world, outputs, composed, n);
    lemma_absent_count_bounds(world, 0, n as int);
    assert(brings_change(world[0].1));
}

/// When every working copy exists and every update succeeds without new
/// content, nothing is cloned and the folded freshness is false.
pub proof fn settled_sources_are_not_fresh(
    p: Pipeline,
    world: Seq<(Event, Event)>,
    outputs: Event,
    composed: Event,
)
    requires
        p.wf(),
        p.is_start(),
        world.len() == p.sources@.len(),
        forall|j: int| 0 <= j < world.len() ==> settled(#[trigger] world[j]),
    ensures
        ({
            let n = p.sources@.len();
            let q = run(p, world, outputs, composed, 2 * n);
            &&& q.stage is CheckingOutputs
            &&& !q.fresh
            &&& clone_count(p, world, outputs, composed, 2 * n) == 0
        }),
{
    let n = p.sources@.len();
    assert forall|j: int| p.index <= j < p.index + n implies clean(#[trigger] world[j]) by {
        assert(settled(world[j]));
    }
    lemma_clean_sources(p, world, outputs, composed, n);
    assert forall|j: int| 0 <= j < n implies #[trigger] world[j].0 == (Event::Presence {
        exists: true,
    }) by {
        assert(settled(world[j]));
    }
    lemma_absent_count_bounds(world, 0, n as int);
    let q = run(p, world, outputs, composed, 2 * n);
    if q.fresh {
        let j = choose|j: int| 0 <= j < n && brings_change(#[trigger] world[j].1);
        assert(settled(world[j]));
    }
}

/// A run that brings nothing new, with both output files present (as a
/// previous run leaves them), ends without rebuilding and stays ended.
pub proof fn settled_run_skips_rebuild(p: Pipeline, world: Seq<(Event, Event)>, composed: Event, extra: nat)
    requires
        p.wf(),
        p.is_start(),
        world.len() == p.sources@.len(),
        forall|j: int| 0 <= j < world.len() ==> settled(#[trigger] world[j]),
    ensures
        run(
            p,
            world,
            Event::Outputs { database: true, metadata: true },
            composed,
            2 * p.sources@.len() + 1 + extra,
        ).stage == (Stage::Done { rebuilt: false }),
{
    let n = p.sources@.len();
    let outputs = Event::Outputs { database: true, metadata: true };
    settled_sources_are_not_fresh(p, world, outputs, composed);
    let q = run(p, world, outputs, composed, 2 * n);
    assert(!rebuild_needed(q.fresh, true, true));
    let r = q.after(outputs);
    assert(run(q, world, outputs, composed, 1) == r) by {
        assert(run(r, world, outputs, composed, 0) == r);
    }
    lemma_run_split(p, world, outputs, composed, 2 * n, 1);
    lemma_finished_stays(r, world, outputs, composed, extra);
    lemma_run_split(p, world, outputs, composed, 2 * n + 1, extra);
}

/// A missing database forces the composer to run even when no source
/// brought anything new.
pub proof fn missing_database_forces_rebuild(
    p: Pipeline,
    world: Seq<(Event, Event)>,
    metadata: bool,
    composed: Event,
)
    requires
        p.wf(),
        p.is_start(),
        world.len() == p.sources@.len(),
        forall|j: int| 0 <= j < world.len() ==> settled(#[trigger] world[j]),
    ensures
        rebuild_needed(false, false, metadata),
        run(
            p,
            world,
            Event::Outputs { database: false, metadata },
            composed,
            2 * p.sources@.len() + 1,
        ).stage is Composing,
{
    let n = p.sources@.len();
    let outputs = Event::Outputs { database: false, metadata };
    settled_sources_are_not_fresh(p, world, outputs, composed);
    let q = run(p, world, outputs, composed, 2 * n);
    let r = q.after(outputs);
    assert(run(q, world, outputs, composed, 1) == r) by {
        assert(run(r, world, outputs, composed, 0) == r);
    }
    lemma_run_split(p, world, outputs, composed, 2 * n, 1);
}

/// Whatever the sources before it brought, a failed update of source `i` is
/// reported as that source's failure, and the run stops there.
pub proof fn update_failure_is_reported(
    p: Pipeline,
    world: Seq<(Event, Event)>,
    outputs: Event,
    composed: Event,
    i: nat,
    extra: nat,
)
    requires
        p.wf(),
        p.is_start(),
        world.len() == p.sources@.len(),
        i < world.len(),
        forall|j: int| 0 <= j < i ==> clean(#[trigger] world[j]),
        world[i as int].0 == (Event::Presence { exists: true }),
        world[i as int].1 is PullFinished,
        !world[i as int].1->PullFinished_success,
    ensures
        run(p, world, outputs, composed, 2 * i + 2 + extra).stage == (Stage::Failed {
            error: SyncError::UpdateFailed {
                source: p.sources@[i as int],
                detail: world[i as int].1->PullFinished_stderr,
            },
        }),
{
    lemma_clean_sources(p, world, outputs, composed, i);
    let q = run(p, world, outputs, composed, 2 * i);
    let q1 = q.after(reply(q, world, outputs, composed));
    let q2 = q1.after(reply(q1, world, outputs, composed));
    assert(run(q, world, outputs, composed, 2) == q2) by {
        assert(run(q2, world, outputs, composed, 0) == q2);
        assert(run(q1, world, outputs, composed, 1) == q2);
    }
    lemma_run_split(p, world, outputs, composed, 2 * i, 2);
    lemma_finished_stays(q2, world, outputs, composed, extra);
    lemma_run_split(p, world, outputs, composed, 2 * i + 2, extra);
}

} // verus!
