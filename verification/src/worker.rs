//! The control loop of the background worker, as a machine that is stepped
//! from outside.
//!
//! The worker owns a mailbox and the loop's bookkeeping. Whoever drives it
//! asks [`Worker::tick`] what to do next, does it (sleeps, waits, loads the
//! settings, runs a cycle) and reports how it went. Nothing here blocks, so
//! the worker can sit behind a lock that is held for one call at a time.

use crate::config::Config;
use crate::cycle::{CycleResult, CycleResultView};
use vstd::prelude::*;

verus! {

/// After this many failed cycles in a row the loop stops.
pub const MAXIMUM_ATTEMPTS: u32 = 5;

/// The pause before a failed cycle is tried again, in seconds.
pub const WAIT_SECS: u64 = 60;

/// What the running loop can be told.
#[derive(Clone, Copy, Debug, PartialEq, Eq, Structural)]
pub enum Message {
    /// Fetch a new photo at the next wake-up, whatever the cooldown says.
    Redownload,
    /// Stop the loop; it can be started again.
    Terminate,
}

/// What the worker as a whole can be told.
#[derive(Clone, Copy, Debug, PartialEq, Eq, Structural)]
pub enum MetaMessage {
    /// Start the loop.
    Start,
    /// Shut the worker down for good.
    Quit,
}

/// What an observer sees of the worker.
#[derive(Clone, Copy, Debug, PartialEq, Eq, Structural)]
pub enum State {
    /// The loop is active and waits for the next cycle to fall due.
    Idle,
    /// A cycle is under way.
    Running,
    /// The loop is not active.
    Stopped,
}

/// A command as it lies in the mailbox.
#[derive(Clone, Copy, Debug, PartialEq, Eq, Structural)]
pub enum Command {
    Start,
    Stop,
    Redownload,
    Quit,
}

/// Where the loop stands between two calls.
#[derive(Clone, Copy, Debug, PartialEq, Eq, Structural)]
pub enum Phase {
    /// Stopped, until a `Start` arrives.
    Parked,
    /// A `Start` has arrived and the settings are being loaded.
    Activating,
    /// Active, between two cycles.
    Idle,
    /// Active, with the cycle that began at `since` under way.
    Running { since: u64 },
    /// Shut down by a `Quit`.
    Terminated,
}

/// What the driver of the loop is to do next.
#[derive(Clone, Copy, Debug, PartialEq, Eq, Structural)]
pub enum Action {
    /// Wait until a command arrives, then tick.
    Park,
    /// Load the settings, build the client and report with
    /// [`Worker::activated`] or [`Worker::activation_failed`], then tick.
    Activate,
    /// Sleep this long, or until a command arrives, then tick.
    Sleep { secs: u64 },
    /// Run a cycle and report with [`Worker::complete`].
    RunCycle,
    /// Leave the loop: the worker has shut down.
    Exit,
}

/// A command that was sent after the worker had shut down.
#[derive(Clone, Copy, Debug, PartialEq, Eq, Structural)]
pub struct SendError(pub Command);

/// What became of a cycle that was reported to the worker.
#[derive(Clone, Debug, PartialEq, Eq)]
pub enum Completion {
    /// No cycle was under way: the report changed nothing.
    Ignored,
    /// The photo is on the desktop. Remove the file `evict`, if there is
    /// one, then sleep as for [`Action::Sleep`].
    Applied { evict: Option<String>, sleep: u64 },
    /// The cycle failed for the `failures`-th time in a row and will be
    /// tried again. Sleep as for [`Action::Sleep`].
    Retry { failures: u32, sleep: u64 },
    /// The cycle failed once too often: the loop has stopped.
    Exhausted,
    /// The cycle failed for good: the loop has stopped.
    Failed,
}

/// A [`Completion`] with its path as a sequence of characters.
pub enum CompletionView {
    Ignored,
    Applied { evict: Option<Seq<char>>, sleep: u64 },
    Retry { failures: u32, sleep: u64 },
    Exhausted,
    Failed,
}

impl View for Completion {
    type V = CompletionView;

    open spec fn view(&self) -> CompletionView {
        match *self {
            Completion::Ignored => CompletionView::Ignored,
            Completion::Applied { evict, sleep } => CompletionView::Applied {
                evict: match evict {
                    Some(path) => Some(path@),
                    None => None,
                },
                sleep,
            },
            Completion::Retry { failures, sleep } => CompletionView::Retry { failures, sleep },
            Completion::Exhausted => CompletionView::Exhausted,
            Completion::Failed => CompletionView::Failed,
        }
    }
}

impl Message {
    /// The command that this message puts in the mailbox.
    pub open spec fn command(self) -> Command {
        match self {
            Message::Redownload => Command::Redownload,
            Message::Terminate => Command::Stop,
        }
    }
}

impl MetaMessage {
    /// The command that this message puts in the mailbox.
    pub open spec fn command(self) -> Command {
        match self {
            MetaMessage::Start => Command::Start,
            MetaMessage::Quit => Command::Quit,
        }
    }
}

/// Whether the cooldown after the last success is still on at `now`: no more
/// than the update interval has passed since. A clock that shows an earlier
/// time than that of the last success has not passed the interval either.
pub open spec fn in_cooldown(last_success: Option<u64>, now: u64, update_interval: u64) -> bool {
    last_success matches Some(at) && now - at <= update_interval
}

/// The worker as the contracts see it.
pub struct WorkerView {
    pub phase: Phase,
    /// The commands not yet looked at, oldest first.
    pub pending: Seq<Command>,
    pub repeat_secs: u64,
    pub update_interval: u64,
    pub disable_cache: bool,
    /// When the cycle that last succeeded had begun.
    pub last_success: Option<u64>,
    /// The photo that is on the desktop now.
    pub last_path: Option<Seq<char>>,
    /// How many cycles have failed in a row.
    pub failures: nat,
}

impl WorkerView {
    /// A worker that has not been started yet.
    pub open spec fn initial() -> WorkerView {
        WorkerView {
            phase: Phase::Parked,
            pending: Seq::empty(),
            repeat_secs: 0,
            update_interval: 0,
            disable_cache: false,
            last_success: None,
            last_path: None,
            failures: 0,
        }
    }

    /// An active loop has not yet used up its attempts.
    pub open spec fn wf(self) -> bool {
        &&& self.failures <= MAXIMUM_ATTEMPTS
        &&& self.phase is Idle || self.phase is Running ==> self.failures < MAXIMUM_ATTEMPTS
    }

    /// What an observer sees.
    pub open spec fn state(self) -> State {
        match self.phase {
            Phase::Idle => State::Idle,
            Phase::Running { .. } => State::Running,
            _ => State::Stopped,
        }
    }

    /// Whether the loop looks into its mailbox in this phase.
    pub open spec fn listening(self) -> bool {
        self.phase is Parked || self.phase is Idle
    }

    /// The worker after `command` has been sent to it.
    pub open spec fn sent(self, command: Command) -> WorkerView {
        WorkerView { pending: self.pending.push(command), ..self }
    }

    /// The worker after it has obeyed `command`. The mailbox is not touched.
    pub open spec fn obey(self, command: Command) -> WorkerView {
        match (self.phase, command) {
            (Phase::Parked, Command::Start) => WorkerView { phase: Phase::Activating, ..self },
            (Phase::Parked, Command::Quit) => WorkerView { phase: Phase::Terminated, ..self },
            (Phase::Idle, Command::Stop) => WorkerView { phase: Phase::Parked, ..self },
            (Phase::Idle, Command::Redownload) => WorkerView { last_success: None, ..self },
            (Phase::Idle, Command::Quit) => WorkerView { phase: Phase::Terminated, ..self },
            _ => self,
        }
    }

    /// The worker after it has emptied its mailbox, oldest command first,
    /// as far as it listens.
    pub open spec fn drain(self) -> WorkerView
        decreases self.pending.len(),
    {
        if self.pending.len() == 0 || !self.listening() {
            self
        } else {
            let obeyed = self.obey(self.pending[0]);
            WorkerView { pending: self.pending.drop_first(), ..obeyed }.drain()
        }
    }

    /// The worker after a wake-up at `now`, and what its driver is to do.
    ///
    /// The mailbox is emptied first. An active loop then starts a cycle,
    /// unless the cooldown is still on: then it sleeps for its polling
    /// interval and looks again.
    pub open spec fn tick(self, now: u64) -> (WorkerView, Action) {
        let drained = self.drain();
        match drained.phase {
            Phase::Parked => (drained, Action::Park),
            Phase::Activating => (drained, Action::Activate),
            Phase::Terminated => (drained, Action::Exit),
            Phase::Running { .. } => (drained, Action::RunCycle),
            Phase::Idle => if in_cooldown(drained.last_success, now, drained.update_interval) {
                (drained, Action::Sleep { secs: drained.repeat_secs })
            } else {
                (WorkerView { phase: Phase::Running { since: now }, ..drained }, Action::RunCycle)
            },
        }
    }

    /// The worker after its settings have been loaded: the loop is active
    /// and starts from scratch. The mailbox is kept.
    pub open spec fn activated(self, config: Config) -> WorkerView {
        if self.phase is Activating {
            WorkerView {
                phase: Phase::Idle,
                pending: self.pending,
                repeat_secs: config.repeat_secs,
                update_interval: config.update_interval,
                disable_cache: config.disable_cache,
                last_success: None,
                last_path: None,
                failures: 0,
            }
        } else {
            self
        }
    }

    /// Whether the download directory is to be emptied when the settings
    /// `config` have been loaded: when the loop becomes active with a cache
    /// that is not kept.
    pub open spec fn wipes(self, config: Config) -> bool {
        self.phase is Activating && config.disable_cache
    }

    /// The worker after its settings could not be loaded: it is stopped
    /// again.
    pub open spec fn activation_failed(self) -> WorkerView {
        if self.phase is Activating {
            WorkerView { phase: Phase::Parked, ..self }
        } else {
            self
        }
    }

    /// The file that has to go when `path` has been put on the desktop: the
    /// photo that was there before, if it is another one and the cache is
    /// not kept.
    pub open spec fn evicted_by(self, path: Seq<char>) -> Option<Seq<char>> {
        if self.disable_cache && self.last_path is Some && self.last_path->Some_0 != path {
            self.last_path
        } else {
            None
        }
    }

    /// The worker after the cycle that was under way has ended in `result`,
    /// and what became of the cycle.
    pub open spec fn complete(self, result: CycleResultView) -> (WorkerView, CompletionView) {
        match self.phase {
            Phase::Running { since } => match result {
                CycleResultView::Success { path } => (
                    WorkerView {
                        phase: Phase::Idle,
                        failures: 0,
                        last_success: Some(since),
                        last_path: Some(path),
                        ..self
                    },
                    CompletionView::Applied {
                        evict: self.evicted_by(path),
                        sleep: self.repeat_secs,
                    },
                ),
                CycleResultView::TransientFailure { .. } => if self.failures + 1
                    >= MAXIMUM_ATTEMPTS {
                    (
                        WorkerView { phase: Phase::Parked, failures: self.failures + 1, ..self },
                        CompletionView::Exhausted,
                    )
                } else {
                    (
                        WorkerView { phase: Phase::Idle, failures: self.failures + 1, ..self },
                        CompletionView::Retry {
                            failures: (self.failures + 1) as u32,
                            sleep: WAIT_SECS,
                        },
                    )
                },
                CycleResultView::FatalFailure { .. } => (
                    WorkerView { phase: Phase::Parked, ..self },
                    CompletionView::Failed,
                ),
            },
            _ => (self, CompletionView::Ignored),
        }
    }
}

/// The background worker.
pub struct Worker {
    phase: Phase,
    pending: Vec<Command>,
    repeat_secs: u64,
    update_interval: u64,
    disable_cache: bool,
    last_success: Option<u64>,
    last_path: Option<String>,
    failures: u32,
}

impl View for Worker {
    type V = WorkerView;

    closed spec fn view(&self) -> WorkerView {
        WorkerView {
            phase: self.phase,
            pending: self.pending@,
            repeat_secs: self.repeat_secs,
            update_interval: self.update_interval,
            disable_cache: self.disable_cache,
            last_success: self.last_success,
            last_path: match self.last_path {
                Some(path) => Some(path@),
                None => None,
            },
            failures: self.failures as nat,
        }
    }
}

impl Worker {
    /// A worker that waits to be started.
    pub fn new() -> (worker: Worker)
        ensures
            worker@ == WorkerView::initial(),
            worker@.wf(),
    {
        Worker {
            phase: Phase::Parked,
            pending: Vec::new(),
            repeat_secs: 0,
            update_interval: 0,
            disable_cache: false,
            last_success: None,
            last_path: None,
            failures: 0,
        }
    }

    /// What an observer sees of the worker right now.
    pub fn state(&self) -> (state: State)
        ensures
            state == self@.state(),
    {
        match self.phase {
            Phase::Idle => State::Idle,
            Phase::Running { .. } => State::Running,
            _ => State::Stopped,
        }
    }

    /// The photo that is on the desktop now, if the loop has put one there
    /// since it was last started.
    pub fn last_applied_path(&self) -> (path: Option<String>)
        ensures
            match self@.last_path {
                Some(text) => path is Some && path->Some_0@ == text,
                None => path is None,
            },
    {
        match &self.last_path {
            Some(path) => Some(path.clone()),
            None => None,
        }
    }

    /// When the cycle that last succeeded had begun, in seconds.
    pub fn last_success(&self) -> (at: Option<u64>)
        ensures
            at == self@.last_success,
    {
        self.last_success
    }

    /// How many cycles have failed in a row.
    pub fn consecutive_failures(&self) -> (failures: u32)
        ensures
            failures == self@.failures,
    {
        self.failures
    }

    /// How many commands wait in the mailbox.
    pub fn pending(&self) -> (waiting: usize)
        ensures
            waiting == self@.pending.len(),
    {
        self.pending.len()
    }

    /// Puts `command` at the end of the mailbox, unless the worker has shut
    /// down: then the command comes back.
    fn post(&mut self, command: Command) -> (sent: Result<(), SendError>)
        requires
            old(self)@.wf(),
        ensures
            final(self)@.wf(),
            old(self)@.phase is Terminated ==> sent == Err::<(), SendError>(SendError(command))
                && final(self)@ == old(self)@,
            !(old(self)@.phase is Terminated) ==> sent is Ok && final(self)@ == old(self)@.sent(
                command,
            ),
    {
        match self.phase {
            Phase::Terminated => Err(SendError(command)),
            _ => {
                self.pending.push(command);
                Ok(())
            },
        }
    }

    /// Sends a message to the loop. It is obeyed, after those sent before
    /// it, when the loop next looks into its mailbox. A worker that has shut
    /// down takes no message.
    pub fn send(&mut self, msg: Message) -> (sent: Result<(), SendError>)
        requires
            old(self)@.wf(),
        ensures
            final(self)@.wf(),
            old(self)@.phase is Terminated ==> sent == Err::<(), SendError>(
                SendError(msg.command()),
            ) && final(self)@ == old(self)@,
            !(old(self)@.phase is Terminated) ==> sent is Ok && final(self)@ == old(self)@.sent(
                msg.command(),
            ),
    {
        match msg {
            Message::Redownload => self.post(Command::Redownload),
            Message::Terminate => self.post(Command::Stop),
        }
    }

    /// Sends a message to the worker as a whole; see [`Worker::send`].
    pub fn meta_send(&mut self, msg: MetaMessage) -> (sent: Result<(), SendError>)
        requires
            old(self)@.wf(),
        ensures
            final(self)@.wf(),
            old(self)@.phase is Terminated ==> sent == Err::<(), SendError>(
                SendError(msg.command()),
            ) && final(self)@ == old(self)@,
            !(old(self)@.phase is Terminated) ==> sent is Ok && final(self)@ == old(self)@.sent(
                msg.command(),
            ),
    {
        match msg {
            MetaMessage::Start => self.post(Command::Start),
            MetaMessage::Quit => self.post(Command::Quit),
        }
    }

    /// Obeys one command.
    fn obey(&mut self, command: Command)
        requires
            old(self)@.wf(),
        ensures
            final(self)@.wf(),
            final(self)@ == old(self)@.obey(command),
    {
        match (self.phase, command) {
            (Phase::Parked, Command::Start) => {
                self.phase = Phase::Activating;
            },
            (Phase::Parked, Command::Quit) => {
                self.phase = Phase::Terminated;
            },
            (Phase::Idle, Command::Stop) => {
                self.phase = Phase::Parked;
            },
            (Phase::Idle, Command::Redownload) => {
                self.last_success = None;
            },
            (Phase::Idle, Command::Quit) => {
                self.phase = Phase::Terminated;
            },
            _ => {},
        }
    }

    /// Whether the loop looks into its mailbox in this phase.
    fn listening(&self) -> (listening: bool)
        ensures
            listening == self@.listening(),
    {
        match self.phase {
            Phase::Parked => true,
            Phase::Idle => true,
            _ => false,
        }
    }

    /// Empties the mailbox, oldest command first, as far as the loop
    /// listens.
    fn drain(&mut self)
        requires
            old(self)@.wf(),
        ensures
            final(self)@.wf(),
            final(self)@ == old(self)@.drain(),
    {
        let ghost start = self@;
        while self.pending.len() > 0 && self.listening()
            invariant
                self@.wf(),
                self@.drain() == start.drain(),
            decreases self.pending.len(),
        {
            let ghost before = self@;
            let command = self.pending.remove(0);
            assert(self@.pending =~= before.pending.drop_first());
            self.obey(command);
            assert(self@ == WorkerView {
                pending: before.pending.drop_first(),
                ..before.obey(before.pending[0])
            });
        }
    }

    /// Wakes the loop up at `now`, counted in seconds, and says what its
    /// driver is to do next.
    pub fn tick(&mut self, now: u64) -> (action: Action)
        requires
            old(self)@.wf(),
        ensures
            final(self)@.wf(),
            final(self)@ == old(self)@.tick(now).0,
            action == old(self)@.tick(now).1,
    {
        self.drain();
        match self.phase {
            Phase::Parked => Action::Park,
            Phase::Activating => Action::Activate,
            Phase::Terminated => Action::Exit,
            Phase::Running { .. } => Action::RunCycle,
            Phase::Idle => {
                let cooling = match self.last_success {
                    Some(at) => now <= at || now - at <= self.update_interval,
                    None => false,
                };
                if cooling {
                    Action::Sleep { secs: self.repeat_secs }
                } else {
                    self.phase = Phase::Running { since: now };
                    Action::RunCycle
                }
            },
        }
    }

    /// Reports that the settings have been loaded and the client built.
    /// The loop becomes active with these settings and with a clean slate.
    /// The result says whether the download directory is to be emptied
    /// before the first cycle. A worker that was not waiting for this
    /// report ignores it.
    pub fn activated(&mut self, config: &Config) -> (wipe: bool)
        requires
            old(self)@.wf(),
        ensures
            final(self)@.wf(),
            final(self)@ == old(self)@.activated(*config),
            wipe == old(self)@.wipes(*config),
    {
        match self.phase {
            Phase::Activating => {
                self.phase = Phase::Idle;
                self.repeat_secs = config.repeat_secs;
                self.update_interval = config.update_interval;
                self.disable_cache = config.disable_cache;
                self.last_success = None;
                self.last_path = None;
                self.failures = 0;
                config.disable_cache
            },
            _ => false,
        }
    }

    /// Reports that the settings could not be loaded or the client not
    /// built. The loop stays stopped until it is started again.
    pub fn activation_failed(&mut self)
        requires
            old(self)@.wf(),
        ensures
            final(self)@.wf(),
            final(self)@ == old(self)@.activation_failed(),
    {
        match self.phase {
            Phase::Activating => {
                self.phase = Phase::Parked;
            },
            _ => {},
        }
    }

    /// Reports how the cycle that was under way has ended.
    pub fn complete(&mut self, result: CycleResult) -> (completion: Completion)
        requires
            old(self)@.wf(),
        ensures
            final(self)@.wf(),
            final(self)@ == old(self)@.complete(result@).0,
            completion@ == old(self)@.complete(result@).1,
    {
        match self.phase {
            Phase::Running { since } => match result {
                CycleResult::Success { path } => {
                    let evict = match self.last_path.take() {
                        Some(previous) => if self.disable_cache && previous != path {
                            Some(previous)
                        } else {
                            None
                        },
                        None => None,
                    };
                    self.phase = Phase::Idle;
                    self.failures = 0;
                    self.last_success = Some(since);
                    self.last_path = Some(path);
                    Completion::Applied { evict, sleep: self.repeat_secs }
                },
                CycleResult::TransientFailure { .. } => {
                    self.failures = self.failures + 1;
                    if self.failures >= MAXIMUM_ATTEMPTS {
                        self.phase = Phase::Parked;
                        Completion::Exhausted
                    } else {
                        self.phase = Phase::Idle;
                        Completion::Retry { failures: self.failures, sleep: WAIT_SECS }
                    }
                },
                CycleResult::FatalFailure { .. } => {
                    self.phase = Phase::Parked;
                    Completion::Failed
                },
            },
            _ => Completion::Ignored,
        }
    }
}

} // verus!
