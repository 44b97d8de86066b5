//! What holds of the control loop, whatever its driver does.

use crate::config::Config;
use crate::cycle::{CycleResultView, Failure};
use crate::worker::{
    in_cooldown, Action, Command, CompletionView, Phase, State, WorkerView, MAXIMUM_ATTEMPTS,
    WAIT_SECS,
};
use vstd::prelude::*;

verus! {

/// Whether `command` lies somewhere in the mailbox.
pub open spec fn is_pending(w: WorkerView, command: Command) -> bool {
    exists|i: int| 0 <= i < w.pending.len() && #[trigger] w.pending[i] == command
}

/// The worker after as many cycles as `attempts` is long, each begun at a
/// wake-up at the given instant and ended by a transient failure at the
/// given step.
pub open spec fn after_failures(w: WorkerView, attempts: Seq<(u64, Failure)>) -> WorkerView
    decreases attempts.len(),
{
    if attempts.len() == 0 {
        w
    } else {
        let (now, reason) = attempts.last();
        after_failures(w, attempts.drop_last()).tick(now).0.complete(
            CycleResultView::TransientFailure { reason },
        ).0
    }
}

/// The files in the download directory after the driver has done what a
/// completion asks for: the new photo has been stored, and the evicted one
/// removed.
pub open spec fn cache_after(
    files: Set<Seq<char>>,
    path: Seq<char>,
    completion: CompletionView,
) -> Set<Seq<char>> {
    match completion {
        CompletionView::Applied { evict: Some(old), .. } => files.insert(path).remove(old),
        CompletionView::Applied { evict: None, .. } => files.insert(path),
        _ => files,
    }
}

/// Emptying the mailbox changes neither the settings nor the bookkeeping,
/// except that a `Redownload` forgets the last success. It never makes up a
/// success, it never starts a cycle, and it leaves a sound worker sound.
pub proof fn lemma_drain_keeps_bookkeeping(w: WorkerView)
    ensures
        w.drain().repeat_secs == w.repeat_secs,
        w.drain().update_interval == w.update_interval,
        w.drain().disable_cache == w.disable_cache,
        w.drain().last_path == w.last_path,
        w.drain().failures == w.failures,
        w.drain().last_success == w.last_success || w.drain().last_success is None,
        !is_pending(w, Command::Redownload) ==> w.drain().last_success == w.last_success,
        !w.listening() ==> w.drain() == w,
        w.listening() ==> !(w.drain().phase is Running),
        w.wf() ==> w.drain().wf(),
    decreases w.pending.len(),
{
    if w.pending.len() > 0 && w.listening() {
        let next = WorkerView { pending: w.pending.drop_first(), ..w.obey(w.pending[0]) };
        lemma_drain_keeps_bookkeeping(next);
        if !is_pending(w, Command::Redownload) {
            assert(w.pending[0] != Command::Redownload);
            assert forall|i: int| 0 <= i < next.pending.len() implies #[trigger] next.pending[i]
                != Command::Redownload by {
                assert(next.pending[i] == w.pending[i + 1]);
            }
        }
    }
}

/// A stopped loop stays stopped until a `Start` arrives: emptying a mailbox
/// that holds none leaves it parked or shut down.
pub proof fn lemma_parked_without_start(w: WorkerView)
    requires
        w.phase is Parked || w.phase is Terminated,
        !is_pending(w, Command::Start),
    ensures
        w.drain().phase is Parked || w.drain().phase is Terminated,
    decreases w.pending.len(),
{
    if w.pending.len() > 0 && w.listening() {
        let next = WorkerView { pending: w.pending.drop_first(), ..w.obey(w.pending[0]) };
        assert(w.pending[0] != Command::Start);
        assert forall|i: int| 0 <= i < next.pending.len() implies #[trigger] next.pending[i]
            != Command::Start by {
            assert(next.pending[i] == w.pending[i + 1]);
        }
        lemma_parked_without_start(next);
    }
}

/// Once the loop has left the active state while emptying its mailbox, the
/// rest of the mailbox does not bring it back: an observer sees it stopped.
pub proof fn lemma_inactive_drains_to_stopped(w: WorkerView)
    requires
        !(w.phase is Idle),
        !(w.phase is Running),
    ensures
        w.drain().state() == State::Stopped,
    decreases w.pending.len(),
{
    if w.pending.len() > 0 && w.listening() {
        let next = WorkerView { pending: w.pending.drop_first(), ..w.obey(w.pending[0]) };
        lemma_inactive_drains_to_stopped(next);
    }
}

/// An idle loop with a `Stop` in its mailbox is stopped after it has
/// emptied the mailbox.
pub proof fn lemma_stop_drains_to_stopped(w: WorkerView)
    requires
        w.phase is Idle,
        is_pending(w, Command::Stop),
    ensures
        w.drain().state() == State::Stopped,
    decreases w.pending.len(),
{
    let at = choose|i: int| 0 <= i < w.pending.len() && #[trigger] w.pending[i] == Command::Stop;
    let next = WorkerView { pending: w.pending.drop_first(), ..w.obey(w.pending[0]) };
    if next.phase is Idle {
        assert(at > 0);
        assert(next.pending[at - 1] == Command::Stop);
        lemma_stop_drains_to_stopped(next);
    } else {
        lemma_inactive_drains_to_stopped(next);
    }
}

/// Soundness. Whatever is sent or reported to a sound worker, and whenever
/// it is woken up, it stays sound: an active loop never has five failures on
/// its count.
pub proof fn lemma_steps_keep_the_worker_sound(
    w: WorkerView,
    now: u64,
    command: Command,
    config: Config,
    result: CycleResultView,
)
    requires
        w.wf(),
    ensures
        WorkerView::initial().wf(),
        w.sent(command).wf(),
        w.obey(command).wf(),
        w.drain().wf(),
        w.tick(now).0.wf(),
        w.activated(config).wf(),
        w.activation_failed().wf(),
        w.complete(result).0.wf(),
{
    lemma_drain_keeps_bookkeeping(w);
}

/// Running means a cycle is under way. An observer sees `Running` after a
/// wake-up exactly when the wake-up asked for a cycle. A report on the cycle
/// ends it, and nothing else does: neither a command that is sent nor a
/// report on the settings changes what the observer sees of a running loop,
/// and none of them makes a loop run.
pub proof fn lemma_running_means_a_cycle_is_under_way(
    w: WorkerView,
    now: u64,
    command: Command,
    config: Config,
    result: CycleResultView,
)
    ensures
        w.tick(now).0.state() == State::Running <==> w.tick(now).1 is RunCycle,
        w.phase is Running ==> w.complete(result).0.state() != State::Running,
        !(w.phase is Running) ==> w.complete(result) == (w, CompletionView::Ignored),
        w.sent(command).state() == w.state(),
        w.activated(config).state() == State::Running <==> w.phase is Running,
        w.activation_failed().state() == State::Running <==> w.phase is Running,
{
    lemma_drain_keeps_bookkeeping(w);
}

/// Cooldown. While the time since the last success is within the update
/// interval and no `Redownload` is waiting, a wake-up starts no cycle. With
/// an empty mailbox the loop sleeps for its polling interval and is
/// otherwise unchanged.
pub proof fn lemma_cooldown_starts_no_cycle(w: WorkerView, now: u64)
    requires
        w.listening(),
        in_cooldown(w.last_success, now, w.update_interval),
        !is_pending(w, Command::Redownload),
    ensures
        !(w.tick(now).1 is RunCycle),
        !(w.tick(now).0.phase is Running),
        w.phase is Idle && w.pending.len() == 0 ==> w.tick(now) == (
            w,
            Action::Sleep { secs: w.repeat_secs },
        ),
{
    lemma_drain_keeps_bookkeeping(w);
}

/// A cycle is started only by a wake-up of an idle loop outside the
/// cooldown, and the observer sees `Running` from then on.
pub proof fn lemma_cycle_starts_outside_cooldown(w: WorkerView, now: u64)
    requires
        w.listening(),
        w.tick(now).1 is RunCycle,
    ensures
        w.drain().phase is Idle,
        !in_cooldown(w.drain().last_success, now, w.update_interval),
        w.tick(now).0.phase == (Phase::Running { since: now }),
        w.tick(now).0.state() == State::Running,
{
    lemma_drain_keeps_bookkeeping(w);
}

/// Every sleep that the loop asks for is short: a wake-up asks for the
/// polling interval, never for the update interval, and a completion asks for
/// the polling interval after a success and for the fixed pause after a
/// failure.
pub proof fn lemma_sleeps_are_short(w: WorkerView, now: u64, result: CycleResultView)
    ensures
        w.tick(now).1 matches Action::Sleep { secs } ==> secs == w.repeat_secs,
        w.complete(result).1 matches CompletionView::Applied { sleep, .. } ==> sleep
            == w.repeat_secs,
        w.complete(result).1 matches CompletionView::Retry { sleep, .. } ==> sleep == WAIT_SECS,
{
    lemma_drain_keeps_bookkeeping(w);
}

/// Promptness. An idle loop that finds a `Stop` in its mailbox at a wake-up
/// is stopped by that wake-up and starts no cycle. Together with
/// [`lemma_sleeps_are_short`] this bounds the delay of a `Stop` by the
/// polling interval.
pub proof fn lemma_stop_is_obeyed_at_next_wake_up(w: WorkerView, now: u64)
    requires
        w.phase is Idle,
        is_pending(w, Command::Stop),
    ensures
        w.tick(now).0.state() == State::Stopped,
        !(w.tick(now).1 is RunCycle),
        !(w.tick(now).1 is Sleep),
{
    lemma_stop_drains_to_stopped(w);
}

/// A stopped loop does nothing until it is started: a wake-up with no
/// `Start` in the mailbox asks the driver to wait or to leave, and the
/// bookkeeping stays as it was.
pub proof fn lemma_stopped_until_started(w: WorkerView, now: u64)
    requires
        w.phase is Parked || w.phase is Terminated,
        !is_pending(w, Command::Start),
    ensures
        w.tick(now).0.state() == State::Stopped,
        w.tick(now).1 is Park || w.tick(now).1 is Exit,
        w.tick(now).0.failures == w.failures,
        w.pending.len() == 0 ==> w.tick(now).0 == w,
{
    lemma_parked_without_start(w);
    lemma_drain_keeps_bookkeeping(w);
}

/// One transient failure is counted, leaves the last success alone, and
/// stops the loop exactly when the count reaches the maximum.
pub proof fn lemma_transient_failure_is_counted(w: WorkerView, reason: Failure)
    requires
        w.wf(),
        w.phase is Running,
    ensures
        ({
            let (after, completion) = w.complete(CycleResultView::TransientFailure { reason });
            &&& after.wf()
            &&& after.failures == w.failures + 1
            &&& after.last_success == w.last_success
            &&& after.last_path == w.last_path
            &&& after.failures < MAXIMUM_ATTEMPTS ==> after.phase is Idle && completion
                == (CompletionView::Retry { failures: after.failures as u32, sleep: WAIT_SECS })
            &&& after.failures >= MAXIMUM_ATTEMPTS ==> after.phase is Parked && completion
                == CompletionView::Exhausted
        }),
{
}

/// Retry bound. Take an active loop with no failure on its count and an
/// empty mailbox, and let every cycle fail in a transient way, each begun
/// at a wake-up outside the cooldown. Then the count follows the attempts,
/// the wake-up of the last attempt starts a cycle (and so, taking the
/// attempts one by one, does each before it), the loop is still active after
/// fewer than five attempts and stopped after the fifth.
pub proof fn lemma_retry_bound(w: WorkerView, attempts: Seq<(u64, Failure)>)
    requires
        w.phase is Idle,
        w.pending.len() == 0,
        w.failures == 0,
        attempts.len() <= MAXIMUM_ATTEMPTS,
        forall|i: int|
            0 <= i < attempts.len() ==> !in_cooldown(
                w.last_success,
                (#[trigger] attempts[i]).0,
                w.update_interval,
            ),
    ensures
        ({
            let end = after_failures(w, attempts);
            &&& end.failures == attempts.len()
            &&& end.pending.len() == 0
            &&& end.last_success == w.last_success
            &&& end.last_path == w.last_path
            &&& end.update_interval == w.update_interval
            &&& attempts.len() < MAXIMUM_ATTEMPTS ==> end.state() == State::Idle
            &&& attempts.len() == MAXIMUM_ATTEMPTS ==> end.state() == State::Stopped && end.phase
                is Parked
            &&& attempts.len() > 0 ==> after_failures(w, attempts.drop_last()).tick(
                attempts.last().0,
            ).1 == Action::RunCycle
        }),
    decreases attempts.len(),
{
    if attempts.len() > 0 {
        let earlier = attempts.drop_last();
        assert forall|i: int| 0 <= i < earlier.len() implies !in_cooldown(
            w.last_success,
            (#[trigger] earlier[i]).0,
            w.update_interval,
        ) by {
            assert(earlier[i] == attempts[i]);
        }
        lemma_retry_bound(w, earlier);
        let before = after_failures(w, earlier);
        assert(before.drain() == before);
        assert(!in_cooldown(before.last_success, attempts.last().0, before.update_interval)) by {
            assert(attempts.last() == attempts[attempts.len() - 1]);
        }
    }
}

/// After the fifth transient failure in a row no further cycle is started
/// unless a `Start` arrives: every later wake-up asks the driver to wait.
pub proof fn lemma_no_retry_after_the_last_attempt(
    w: WorkerView,
    attempts: Seq<(u64, Failure)>,
    later: u64,
)
    requires
        w.phase is Idle,
        w.pending.len() == 0,
        w.failures == 0,
        attempts.len() == MAXIMUM_ATTEMPTS,
        forall|i: int|
            0 <= i < attempts.len() ==> !in_cooldown(
                w.last_success,
                (#[trigger] attempts[i]).0,
                w.update_interval,
            ),
    ensures
        after_failures(w, attempts).tick(later) == (after_failures(w, attempts), Action::Park),
{
    lemma_retry_bound(w, attempts);
    let end = after_failures(w, attempts);
    assert(end.drain() == end);
}

/// Fatal failure. A cycle that fails for good stops the loop at once,
/// whatever the count of failures, and the count is left as it was; the next
/// wake-up with an empty mailbox asks the driver to wait.
pub proof fn lemma_fatal_failure_stops(w: WorkerView, reason: Failure, now: u64)
    requires
        w.phase is Running,
    ensures
        ({
            let (after, completion) = w.complete(CycleResultView::FatalFailure { reason });
            &&& completion == CompletionView::Failed
            &&& after.state() == State::Stopped
            &&& after.phase is Parked
            &&& after.failures == w.failures
            &&& after.last_success == w.last_success
            &&& after.last_path == w.last_path
            &&& !is_pending(w, Command::Start) ==> !(after.tick(now).1 is RunCycle)
                && after.tick(now).0.state() == State::Stopped
            &&& w.pending.len() == 0 ==> after.tick(now) == (after, Action::Park)
        }),
{
    let after = w.complete(CycleResultView::FatalFailure { reason }).0;
    if !is_pending(w, Command::Start) {
        assert forall|i: int| 0 <= i < after.pending.len() implies #[trigger] after.pending[i]
            != Command::Start by {
            assert(after.pending[i] == w.pending[i]);
        }
        lemma_stopped_until_started(after, now);
    }
}

/// Eviction. When a cycle has put `path` on the desktop, the worker
/// remembers it as the current photo. The file to remove is the photo that
/// was current before, and only if the cache is not kept and that photo is
/// another one; the new photo is never the one to remove. A worker that
/// keeps its cache removes nothing.
pub proof fn lemma_success_evicts_the_previous_photo(w: WorkerView, path: Seq<char>)
    requires
        w.phase is Running,
    ensures
        ({
            let (after, completion) = w.complete(CycleResultView::Success { path });
            &&& completion is Applied
            &&& after.last_path == Some(path)
            &&& after.failures == 0
            &&& after.state() == State::Idle
            &&& after.last_success == Some(w.phase->since)
            &&& completion->evict != Some(path)
            &&& !w.disable_cache ==> completion->evict is None
            &&& w.disable_cache && w.last_path is Some && w.last_path != Some(path)
                ==> completion->evict == w.last_path
            &&& w.last_path is None || w.last_path == Some(path) ==> completion->evict is None
        }),
{
}

/// One photo in the cache. Suppose the cache is not kept and the download
/// directory holds nothing but the current photo, as it does after it was
/// emptied at the start. After a cycle has put `path` on the desktop and the
/// driver has stored and removed what it was asked to, the directory holds
/// `path` and nothing else.
pub proof fn lemma_cache_holds_one_photo(w: WorkerView, files: Set<Seq<char>>, path: Seq<char>)
    requires
        w.phase is Running,
        w.disable_cache,
        forall|file: Seq<char>| files.contains(file) ==> w.last_path == Some(file),
    ensures
        ({
            let (after, completion) = w.complete(CycleResultView::Success { path });
            cache_after(files, path, completion) == set![path]
        }),
{
    let (after, completion) = w.complete(CycleResultView::Success { path });
    assert(cache_after(files, path, completion) =~= set![path]);
}

/// Two photos in a row. When a cycle has put `first` on the desktop and
/// the next cycle, begun at a wake-up with an empty mailbox, puts `second`
/// there, the file to remove is `first` if the cache is not kept and the
/// photos differ, and none otherwise; `second` is the current photo.
pub proof fn lemma_second_photo_evicts_the_first(
    w: WorkerView,
    first: Seq<char>,
    second: Seq<char>,
    now: u64,
)
    requires
        w.phase is Running,
        w.pending.len() == 0,
        now - w.phase->since > w.update_interval,
    ensures
        ({
            let applied = w.complete(CycleResultView::Success { path: first }).0;
            let (running, action) = applied.tick(now);
            let (after, completion) = running.complete(CycleResultView::Success { path: second });
            &&& action == Action::RunCycle
            &&& completion is Applied
            &&& completion->evict == if w.disable_cache && first != second {
                Some(first)
            } else {
                None
            }
            &&& after.last_path == Some(second)
            &&& after.last_success == Some(now)
        }),
{
    let applied = w.complete(CycleResultView::Success { path: first }).0;
    assert(applied.drain() == applied);
}

/// Activation. The download directory is emptied only when the loop
/// becomes active with a cache that is not kept. The loop then starts from
/// scratch: no photo, no success, no failure on its books, and the settings
/// that were loaded. A loop whose settings could not be loaded stays
/// stopped, and a worker that was not waiting for its settings ignores them.
pub proof fn lemma_activation_starts_from_scratch(w: WorkerView, config: Config)
    ensures
        w.wipes(config) <==> w.phase is Activating && config.disable_cache,
        !config.disable_cache ==> !w.wipes(config),
        w.phase is Activating ==> ({
            let active = w.activated(config);
            &&& active.wf()
            &&& active.state() == State::Idle
            &&& active.last_path is None
            &&& active.last_success is None
            &&& active.failures == 0
            &&& active.disable_cache == config.disable_cache
            &&& active.update_interval == config.update_interval
            &&& active.repeat_secs == config.repeat_secs
            &&& active.pending == w.pending
        }),
        w.phase is Activating ==> w.activation_failed().state() == State::Stopped,
        !(w.phase is Activating) ==> w.activated(config) == w && w.activation_failed() == w,
{
}

/// A kept cache only grows: with the cache kept, no completion asks for a
/// file to be removed.
pub proof fn lemma_kept_cache_loses_nothing(
    w: WorkerView,
    files: Set<Seq<char>>,
    path: Seq<char>,
    result: CycleResultView,
)
    requires
        !w.disable_cache,
    ensures
        files.subset_of(cache_after(files, path, w.complete(result).1)),
        !(w.complete(result).1 matches CompletionView::Applied { evict: Some(_), .. }),
{
}

/// A `Redownload` lifts the cooldown: an idle loop that finds one in its
/// mailbox, and nothing else, starts a cycle at that wake-up.
pub proof fn lemma_redownload_forces_a_cycle(w: WorkerView, now: u64)
    requires
        w.phase is Idle,
        w.pending == seq![Command::Redownload],
    ensures
        w.tick(now).1 == Action::RunCycle,
        w.tick(now).0.phase == (Phase::Running { since: now }),
        w.tick(now).0.pending.len() == 0,
        w.tick(now).0.last_path == w.last_path,
{
    let next = WorkerView { pending: w.pending.drop_first(), ..w.obey(w.pending[0]) };
    assert(next.pending.len() == 0);
    assert(next.drain() == next);
    assert(w.drain() == next);
}

/// Shutdown. An active or parked loop that finds a `Quit` at the head of
/// its mailbox shuts down at that wake-up and stays shut down at every later
/// one.
pub proof fn lemma_quit_is_final(w: WorkerView, now: u64, later: u64)
    requires
        w.listening(),
        w.pending.len() > 0,
        w.pending[0] == Command::Quit,
    ensures
        w.tick(now).0.phase is Terminated,
        w.tick(now).1 == Action::Exit,
        w.tick(now).0.tick(later) == (w.tick(now).0, Action::Exit),
{
    let next = WorkerView { pending: w.pending.drop_first(), ..w.obey(w.pending[0]) };
    assert(next.drain() == next);
}

} // verus!
