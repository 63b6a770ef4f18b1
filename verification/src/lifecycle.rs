//! The startup protocol as a state machine, and the interrupt watcher.
//!
//! The caller performs each directive (reads the environment, talks to the
//! network, spawns tasks) and reports what happened as the next event.

use crate::config::StartupError;
use vstd::prelude::*;

verus! {

/// Where startup stands.
#[derive(Clone, Copy, Debug, PartialEq, Eq, Structural)]
pub enum Phase {
    /// The environment file is being merged into the environment.
    LoadingEnv,
    /// The token variable is being read.
    ReadingToken,
    /// The application's identity is being fetched.
    Identifying,
    /// The client is being constructed.
    Constructing,
    /// The shard-manager handle is being put into the shared store.
    Sharing,
    /// The interrupt watcher is being spawned.
    Arming,
    /// The client's run loop is running.
    Running,
    /// The run loop has returned.
    Stopped,
    /// Startup failed.
    Aborted,
}

/// What the caller reports back.
#[derive(Clone, Copy, Debug, PartialEq, Eq, Structural)]
pub enum Event {
    EnvFileLoaded { ok: bool },
    TokenRead { present: bool },
    IdentityResolved { ok: bool },
    ClientConstructed { ok: bool },
    HandleShared,
    WatcherSpawned,
    ClientReturned { ok: bool },
}

/// What the caller is to do next.
#[derive(Clone, Copy, Debug, PartialEq, Eq, Structural)]
pub enum Directive {
    LoadEnvFile,
    ReadToken,
    LookupIdentity,
    ConstructClient,
    ShareShardManager,
    SpawnWatcher,
    StartClient,
    /// End the process with this error's message.
    Abort { error: StartupError },
    /// Log the run loop's error, then end.
    LogClientError,
    /// End normally.
    Exit,
    /// The event does not belong to the current phase: do nothing.
    Ignore,
}

/// Whether carrying out the directive reaches for the network.
pub open spec fn touches_network(directive: Directive) -> bool {
    directive == Directive::LookupIdentity || directive == Directive::ConstructClient
        || directive == Directive::StartClient
}

/// The phase startup begins in.
pub open spec fn initial_phase() -> Phase {
    Phase::LoadingEnv
}

/// The transition table: the phase and the directive that follow an event.
/// Each step succeeds into the next in the fixed order env file, token,
/// identity, client, shared handle, watcher, run loop; a failure up to the
/// client's construction aborts; an event out of turn changes nothing.
pub open spec fn next(phase: Phase, event: Event) -> (Phase, Directive) {
    match (phase, event) {
        (Phase::LoadingEnv, Event::EnvFileLoaded { ok }) => if ok {
            (Phase::ReadingToken, Directive::ReadToken)
        } else {
            (Phase::Aborted, Directive::Abort { error: StartupError::EnvFileNotLoaded })
        },
        (Phase::ReadingToken, Event::TokenRead { present }) => if present {
            (Phase::Identifying, Directive::LookupIdentity)
        } else {
            (Phase::Aborted, Directive::Abort { error: StartupError::TokenMissing })
        },
        (Phase::Identifying, Event::IdentityResolved { ok }) => if ok {
            (Phase::Constructing, Directive::ConstructClient)
        } else {
            (Phase::Aborted, Directive::Abort { error: StartupError::IdentityLookupFailed })
        },
        (Phase::Constructing, Event::ClientConstructed { ok }) => if ok {
            (Phase::Sharing, Directive::ShareShardManager)
        } else {
            (Phase::Aborted, Directive::Abort { error: StartupError::ClientConstructionFailed })
        },
        (Phase::Sharing, Event::HandleShared) => (Phase::Arming, Directive::SpawnWatcher),
        (Phase::Arming, Event::WatcherSpawned) => (Phase::Running, Directive::StartClient),
        (Phase::Running, Event::ClientReturned { ok }) => if ok {
            (Phase::Stopped, Directive::Exit)
        } else {
            (Phase::Stopped, Directive::LogClientError)
        },
        _ => (phase, Directive::Ignore),
    }
}

/// Begins startup: the phase to start in and the first thing to do.
pub fn begin() -> (r: (Phase, Directive))
    ensures
        r.0 == initial_phase(),
        r.1 == Directive::LoadEnvFile,
{
    (Phase::LoadingEnv, Directive::LoadEnvFile)
}

/// Takes one step of startup.
pub fn step(phase: Phase, event: Event) -> (r: (Phase, Directive))
    ensures
        r == next(phase, event),
{
    match phase {
        Phase::LoadingEnv => match event {
            Event::EnvFileLoaded { ok: true } => (Phase::ReadingToken, Directive::ReadToken),
            Event::EnvFileLoaded { ok: false } => abort(StartupError::EnvFileNotLoaded),
            _ => (phase, Directive::Ignore),
        },
        Phase::ReadingToken => match event {
            Event::TokenRead { present: true } => (Phase::Identifying, Directive::LookupIdentity),
            Event::TokenRead { present: false } => abort(StartupError::TokenMissing),
            _ => (phase, Directive::Ignore),
        },
        Phase::Identifying => match event {
            Event::IdentityResolved { ok: true } => (
                Phase::Constructing,
                Directive::ConstructClient,
            ),
            Event::IdentityResolved { ok: false } => abort(StartupError::IdentityLookupFailed),
            _ => (phase, Directive::Ignore),
        },
        Phase::Constructing => match event {
            Event::ClientConstructed { ok: true } => (
                Phase::Sharing,
                Directive::ShareShardManager,
            ),
            Event::ClientConstructed { ok: false } => abort(
                StartupError::ClientConstructionFailed,
            ),
            _ => (phase, Directive::Ignore),
        },
        Phase::Sharing => match event {
            Event::HandleShared => (Phase::Arming, Directive::SpawnWatcher),
            _ => (phase, Directive::Ignore),
        },
        Phase::Arming => match event {
            Event::WatcherSpawned => (Phase::Running, Directive::StartClient),
            _ => (phase, Directive::Ignore),
        },
        Phase::Running => match event {
            Event::ClientReturned { ok: true } => (Phase::Stopped, Directive::Exit),
            Event::ClientReturned { ok: false } => (Phase::Stopped, Directive::LogClientError),
            _ => (phase, Directive::Ignore),
        },
        Phase::Stopped => (phase, Directive::Ignore),
        Phase::Aborted => (phase, Directive::Ignore),
    }
}

fn abort(error: StartupError) -> (r: (Phase, Directive))
    ensures
        r == (Phase::Aborted, (Directive::Abort { error })),
{
    (Phase::Aborted, Directive::Abort { error })
}

/// The phase reached from the start after the first `n` of `events`.
pub open spec fn phase_after(events: Seq<Event>, n: nat) -> Phase
    decreases n,
{
    if n == 0 {
        initial_phase()
    } else {
        next(phase_after(events, (n - 1) as nat), events[n - 1]).0
    }
}

/// The directive issued in answer to the event at `i`.
pub open spec fn directive_at(events: Seq<Event>, i: nat) -> Directive {
    next(phase_after(events, i), events[i as int]).1
}

/// Whether the first `n` of `events` hold a loaded environment file and,
/// after it, a token that was present.
pub open spec fn configured_within(events: Seq<Event>, n: nat) -> bool {
    exists|j: int, k: int|
        0 <= j < k < n && #[trigger] events[j] == (Event::EnvFileLoaded { ok: true })
            && #[trigger] events[k] == (Event::TokenRead { present: true })
}

/// Whether the first `n` of `events` hold a loaded environment file.
pub open spec fn env_loaded_within(events: Seq<Event>, n: nat) -> bool {
    exists|j: int| 0 <= j < n && #[trigger] events[j] == (Event::EnvFileLoaded { ok: true })
}

proof fn lemma_phase_needs_configuration(events: Seq<Event>, n: nat)
    requires
        n <= events.len(),
    ensures
        match phase_after(events, n) {
            Phase::LoadingEnv => true,
            Phase::Aborted => true,
            Phase::ReadingToken => env_loaded_within(events, n),
            _ => configured_within(events, n),
        },
    decreases n,
{
    if n > 0 {
        let m = (n - 1) as nat;
        lemma_phase_needs_configuration(events, m);
        let before = phase_after(events, m);
        let event = events[m as int];
        match before {
            Phase::LoadingEnv => {
                if event == (Event::EnvFileLoaded { ok: true }) {
                    assert(events[m as int] == (Event::EnvFileLoaded { ok: true }));
                }
            },
            Phase::ReadingToken => {
                let j = choose|j: int|
                    0 <= j < m && #[trigger] events[j] == (Event::EnvFileLoaded { ok: true });
                if event == (Event::TokenRead { present: true }) {
                    assert(events[j] == (Event::EnvFileLoaded { ok: true }) && events[m as int] == (
                    Event::TokenRead { present: true }));
                } else {
                    assert(events[j] == (Event::EnvFileLoaded { ok: true }));
                }
            },
            Phase::Aborted => {},
            _ => {
                let (j, k) = choose|j: int, k: int|
                    0 <= j < k < m && #[trigger] events[j] == (Event::EnvFileLoaded { ok: true })
                        && #[trigger] events[k] == (Event::TokenRead { present: true });
                assert(events[j] == (Event::EnvFileLoaded { ok: true }) && events[k] == (
                Event::TokenRead { present: true }));
            },
        }
    }
}

/// Nothing reaches for the network before the environment is in order:
/// whatever events arrive, a directive that touches the network is only
/// ever issued after the environment file was loaded and, after that, the
/// token was found. A missing file or token therefore ends startup with no
/// connection attempted.
pub proof fn lemma_no_network_before_configuration(events: Seq<Event>, i: nat)
    requires
        i < events.len(),
        touches_network(directive_at(events, i)),
    ensures
        configured_within(events, i + 1),
{
    lemma_phase_needs_configuration(events, i);
    let phase = phase_after(events, i);
    if phase == Phase::ReadingToken {
        let j = choose|j: int|
            0 <= j < i && #[trigger] events[j] == (Event::EnvFileLoaded { ok: true });
        assert(events[j] == (Event::EnvFileLoaded { ok: true }) && events[i as int] == (
        Event::TokenRead { present: true }));
    } else {
        let (j, k) = choose|j: int, k: int|
            0 <= j < k < i && #[trigger] events[j] == (Event::EnvFileLoaded { ok: true })
                && #[trigger] events[k] == (Event::TokenRead { present: true });
        assert(events[j] == (Event::EnvFileLoaded { ok: true }) && events[k] == (
        Event::TokenRead { present: true }));
    }
}

/// The directive whose issue brings startup into `phase`.
pub open spec fn entering(phase: Phase) -> Directive {
    match phase {
        Phase::LoadingEnv => Directive::LoadEnvFile,
        Phase::ReadingToken => Directive::ReadToken,
        Phase::Identifying => Directive::LookupIdentity,
        Phase::Constructing => Directive::ConstructClient,
        Phase::Sharing => Directive::ShareShardManager,
        Phase::Arming => Directive::SpawnWatcher,
        Phase::Running => Directive::StartClient,
        Phase::Stopped => Directive::Exit,
        Phase::Aborted => Directive::Ignore,
    }
}

/// Whether `directive` was issued in answer to one of the first `n` events.
pub open spec fn issued_within(events: Seq<Event>, directive: Directive, n: nat) -> bool {
    exists|j: int| 0 <= j < n && #[trigger] directive_at(events, j as nat) == directive
}

proof fn lemma_phase_was_entered(events: Seq<Event>, n: nat)
    requires
        n <= events.len(),
    ensures
        match phase_after(events, n) {
            Phase::LoadingEnv => true,
            Phase::Stopped => true,
            Phase::Aborted => true,
            phase => issued_within(events, entering(phase), n),
        },
    decreases n,
{
    if n > 0 {
        let m = (n - 1) as nat;
        lemma_phase_was_entered(events, m);
        let phase = phase_after(events, n);
        if phase_after(events, m) == phase {
            if phase != Phase::LoadingEnv && phase != Phase::Stopped && phase != Phase::Aborted {
                let j = choose|j: int|
                    0 <= j < m && #[trigger] directive_at(events, j as nat) == entering(phase);
                assert(directive_at(events, j as nat) == entering(phase));
            }
        } else {
            assert(directive_at(events, m as int as nat) == next(
                phase_after(events, m),
                events[m as int],
            ).1);
        }
    }
}

/// The steps of startup come in their fixed order: each directive is
/// issued only after the one before it in the sequence token, identity,
/// client, shared handle, watcher, run loop. So the handle is in the shared
/// store before the watcher is spawned, and the watcher is spawned before
/// the run loop starts.
pub proof fn lemma_startup_order(events: Seq<Event>, i: nat)
    requires
        i < events.len(),
    ensures
        directive_at(events, i) == Directive::LookupIdentity ==> issued_within(
            events,
            Directive::ReadToken,
            i,
        ),
        directive_at(events, i) == Directive::ConstructClient ==> issued_within(
            events,
            Directive::LookupIdentity,
            i,
        ),
        directive_at(events, i) == Directive::ShareShardManager ==> issued_within(
            events,
            Directive::ConstructClient,
            i,
        ),
        directive_at(events, i) == Directive::SpawnWatcher ==> issued_within(
            events,
            Directive::ShareShardManager,
            i,
        ),
        directive_at(events, i) == Directive::StartClient ==> issued_within(
            events,
            Directive::SpawnWatcher,
            i,
        ),
{
    lemma_phase_was_entered(events, i);
}

/// Once startup has aborted or the run loop has returned, nothing more is
/// ever asked of the caller.
pub proof fn lemma_halted_stays_halted(phase: Phase, event: Event)
    requires
        phase == Phase::Aborted || phase == Phase::Stopped,
    ensures
        next(phase, event) == (phase, Directive::Ignore),
{
}

/// The task that waits for the interrupt and then shuts the shards down.
#[derive(Clone, Copy, Debug, PartialEq, Eq, Structural)]
pub enum Watcher {
    /// Waiting for the first interrupt.
    Armed,
    /// The interrupt came and shutdown was requested.
    Spent,
}

impl Watcher {
    /// Creates the watcher from the outcome of registering the interrupt
    /// handler. A failed registration is fatal.
    pub fn arm(registered: bool) -> (r: Result<Watcher, StartupError>)
        ensures
            registered ==> r == Ok::<Watcher, StartupError>(Watcher::Armed),
            !registered ==> r == Err::<Watcher, StartupError>(
                StartupError::SignalRegistrationFailed,
            ),
    {
        if registered {
            Ok(Watcher::Armed)
        } else {
            Err(StartupError::SignalRegistrationFailed)
        }
    }

    /// Whether an interrupt that arrives now asks for shutdown.
    pub open spec fn fires(self) -> bool {
        self == Watcher::Armed
    }

    /// The watcher after an interrupt: spent, whatever it was.
    pub open spec fn interrupted(self) -> Watcher {
        Watcher::Spent
    }

    /// Takes an interrupt. Returns whether to shut all shards down now:
    /// true for the first interrupt, false for every later one.
    pub fn interrupt(&mut self) -> (shutdown: bool)
        ensures
            shutdown == old(self).fires(),
            *final(self) == old(self).interrupted(),
    {
        let shutdown = match self {
            Watcher::Armed => true,
            Watcher::Spent => false,
        };
        *self = Watcher::Spent;
        shutdown
    }
}

/// How many shutdown requests `signals` interrupts in a row lead to.
pub open spec fn shutdowns(watcher: Watcher, signals: nat) -> nat
    decreases signals,
{
    if signals == 0 {
        0
    } else {
        let now: nat = if watcher.fires() {
            1
        } else {
            0
        };
        now + shutdowns(watcher.interrupted(), (signals - 1) as nat)
    }
}

/// A spent watcher never asks for shutdown again.
pub proof fn lemma_spent_watcher_is_silent(signals: nat)
    ensures
        shutdowns(Watcher::Spent, signals) == 0,
    decreases signals,
{
    if signals > 0 {
        lemma_spent_watcher_is_silent((signals - 1) as nat);
    }
}

/// However many interrupts arrive, if at least one does, all shards are
/// shut down exactly once.
pub proof fn lemma_shutdown_exactly_once(signals: nat)
    requires
        signals >= 1,
    ensures
        shutdowns(Watcher::Armed, signals) == 1,
{
    lemma_spent_watcher_is_silent((signals - 1) as nat);
}

} // verus!
