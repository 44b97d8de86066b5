//! What holds of a cycle, whatever its driver reports.

use crate::cycle::{CycleResultView, CycleView, Event, Failure};
use crate::worker::{CompletionView, State, WorkerView};
use vstd::prelude::*;

verus! {

/// How far a cycle has come: the steps follow each other in this order.
pub open spec fn stage(cycle: CycleView) -> nat {
    match cycle {
        CycleView::Weather { .. } => 0,
        CycleView::Search { .. } => 1,
        CycleView::Probe { .. } => 2,
        CycleView::Fetch { .. } => 3,
        CycleView::Apply { .. } => 4,
        CycleView::Done { .. } => 5,
    }
}

/// Whether `event` answers what `cycle` asked for.
pub open spec fn answers(cycle: CycleView, event: Event) -> bool {
    match (cycle, event) {
        (CycleView::Weather { .. }, Event::Weather { .. }) => true,
        (CycleView::Search { .. }, Event::Search { .. }) => true,
        (CycleView::Probe { .. }, Event::Probe { .. }) => true,
        (CycleView::Fetch { .. }, Event::Fetch { .. }) => true,
        (CycleView::Apply { .. }, Event::Apply { .. }) => true,
        _ => false,
    }
}

/// Progress. An event that answers what the cycle asked for takes the cycle
/// to a later step; any other event leaves it as it is. So a cycle ends
/// after five answers at most, and a cycle that has ended stays ended.
pub proof fn lemma_advance_makes_progress(cycle: CycleView, event: Event, pick: int)
    ensures
        answers(cycle, event) ==> stage(cycle.advance(event, pick)) > stage(cycle),
        !answers(cycle, event) ==> cycle.advance(event, pick) == cycle,
        cycle is Done ==> cycle.advance(event, pick) == cycle,
{
}

/// Idempotent download. A photo whose file is there already is not fetched:
/// the cycle goes on to put that very file on the desktop, and from there it
/// never asks for a download again.
pub proof fn lemma_cached_photo_is_not_fetched(
    path: Seq<char>,
    url: Seq<char>,
    event: Event,
    pick: int,
    later_pick: int,
)
    ensures
        ({
            let found = CycleView::Probe { path, url }.advance(Event::Probe { cached: true }, pick);
            &&& found == (CycleView::Apply { path })
            &&& !(found.advance(event, later_pick) is Fetch)
            &&& found.advance(Event::Apply { applied: true }, later_pick) == (CycleView::Done {
                result: CycleResultView::Success { path },
            })
        }),
{
}

/// A photo that is not there yet is fetched from the address of the chosen
/// size and stored under the path that was asked about.
pub proof fn lemma_missing_photo_is_fetched(path: Seq<char>, url: Seq<char>, pick: int)
    ensures
        ({
            let asked = CycleView::Probe { path, url };
            let fetching = asked.advance(Event::Probe { cached: false }, pick);
            &&& fetching == (CycleView::Fetch { url, path })
            &&& fetching.advance(Event::Fetch { stored: true }, pick) == (CycleView::Apply {
                path,
            })
        }),
{
}

/// How a cycle ends. It succeeds only when the desktop has taken the photo,
/// and then with the path of that photo. It fails for good only when the
/// desktop has refused the photo. Every other failure is transient: a search
/// that failed or found nothing, or a download that failed.
pub proof fn lemma_how_a_cycle_ends(cycle: CycleView, event: Event, pick: int)
    requires
        !(cycle is Done),
        cycle.advance(event, pick) is Done,
    ensures
        ({
            let result = cycle.advance(event, pick)->result;
            &&& result is Success <==> cycle is Apply && event == (Event::Apply { applied: true })
            &&& result is Success ==> result->path == cycle->Apply_path
            &&& result is FatalFailure <==> cycle is Apply && event == (Event::Apply {
                applied: false,
            })
            &&& result is FatalFailure ==> result->FatalFailure_reason == Failure::Apply
            &&& result is TransientFailure <==> cycle is Search || cycle is Fetch
            &&& result is TransientFailure ==> result->TransientFailure_reason != Failure::Apply
        }),
{
}

/// A search that finds nothing ends the cycle with a transient failure,
/// whatever is picked; a search that finds photos goes on with the photo
/// that was picked among them.
pub proof fn lemma_search_needs_a_candidate(cycle: CycleView, event: Event, pick: int)
    requires
        cycle is Search,
        event matches Event::Search { found: Some(_) },
    ensures
        ({
            let photos = event->found->Some_0;
            let next = cycle.advance(event, pick);
            &&& photos.results@.len() == 0 ==> next == (CycleView::Done {
                result: CycleResultView::TransientFailure { reason: Failure::NoCandidates },
            })
            &&& 0 <= pick < photos.results@.len() ==> next is Probe
        }),
{
}

/// Fatal failure, end to end. When the desktop refuses the photo, the
/// cycle ends at once with a fatal failure, and the worker that is told so
/// stops its loop without counting an attempt.
pub proof fn lemma_refused_photo_stops_the_loop(w: WorkerView, path: Seq<char>, pick: int)
    requires
        w.phase is Running,
    ensures
        ({
            let ended = CycleView::Apply { path }.advance(Event::Apply { applied: false }, pick);
            &&& ended is Done
            &&& ended->result is FatalFailure
            &&& w.complete(ended->result).0.state() == State::Stopped
            &&& w.complete(ended->result).0.failures == w.failures
            &&& w.complete(ended->result).1 == CompletionView::Failed
        }),
{
}

} // verus!
