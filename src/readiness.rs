use vstd::prelude::*;

verus! {

/// Pause between two readiness probes.
pub const POLL_INTERVAL_MS: u64 = 10;

/// Extra pause after the first successful probe, before the server is used.
pub const WARMUP_MS: u64 = 10;

/// Time after spawning within which the server must accept connections.
pub const STARTUP_TIMEOUT_MS: u64 = 7000;

/// Where the startup sequence stands.
#[derive(Clone, Copy, PartialEq, Eq, Structural, Debug)]
pub enum Phase {
    Start,
    /// Probing the port once, before anything is spawned.
    CheckingPort,
    /// Waiting for the child process to be started.
    Spawning,
    /// Alternating pauses and probes until the server answers.
    Polling,
    /// The server answered; waiting out the warm-up pause.
    WarmingUp,
    /// The spawned server is ready (terminal).
    Ready,
    /// Another instance already serves the port; nothing was spawned (terminal).
    AlreadyRunning,
    /// The server did not answer in time; the failure dialog is open.
    TimedOut,
    /// The failure has been reported and the application is exiting (terminal).
    Exited,
}

/// What the host reports back after carrying out an action.
#[derive(Clone, Copy, PartialEq, Eq, Structural, Debug)]
pub enum Event {
    /// The supervisor task has started.
    Begin,
    /// A probe finished; `elapsed_ms` is the time since the child was spawned.
    Probed { live: bool, elapsed_ms: u64 },
    /// The child process was started.
    Spawned,
    /// A requested pause is over.
    Slept,
    /// The user closed the failure dialog, asking or not for the logs.
    DialogClosed { copy_logs: bool },
}

/// What the host is asked to do next.
#[derive(Clone, Copy, PartialEq, Eq, Structural, Debug)]
pub enum Action {
    /// Probe the resolved port once.
    Probe,
    /// Start the child server on the resolved port.
    Spawn,
    /// Pause for the given number of milliseconds.
    Sleep { ms: u64 },
    /// Hand the child (if any) to the shutdown guard and open the main window.
    OpenWindow,
    /// Show the blocking startup-failure dialog.
    ShowFailureDialog,
    /// Copy the log snapshot to the clipboard, then exit with a failure status.
    CopyLogsAndExit,
    /// Exit with a failure status.
    Exit,
    /// Nothing: the event does not apply in the current phase.
    Idle,
}

/// One step of the startup sequence.
pub open spec fn transition(phase: Phase, event: Event) -> (Phase, Action) {
    match (phase, event) {
        (Phase::Start, Event::Begin) => (Phase::CheckingPort, Action::Probe),
        (Phase::CheckingPort, Event::Probed { live, elapsed_ms: _ }) => if live {
            (Phase::AlreadyRunning, Action::OpenWindow)
        } else {
            (Phase::Spawning, Action::Spawn)
        },
        (Phase::Spawning, Event::Spawned) => (Phase::Polling, Action::Sleep { ms: POLL_INTERVAL_MS }),
        (Phase::Polling, Event::Slept) => (Phase::Polling, Action::Probe),
        (Phase::Polling, Event::Probed { live, elapsed_ms }) => if live {
            (Phase::WarmingUp, Action::Sleep { ms: WARMUP_MS })
        } else if elapsed_ms > STARTUP_TIMEOUT_MS {
            (Phase::TimedOut, Action::ShowFailureDialog)
        } else {
            (Phase::Polling, Action::Sleep { ms: POLL_INTERVAL_MS })
        },
        (Phase::WarmingUp, Event::Slept) => (Phase::Ready, Action::OpenWindow),
        (Phase::TimedOut, Event::DialogClosed { copy_logs }) => if copy_logs {
            (Phase::Exited, Action::CopyLogsAndExit)
        } else {
            (Phase::Exited, Action::Exit)
        },
        _ => (phase, Action::Idle),
    }
}

/// The final phase and the actions asked for, when `events` arrive in order.
pub open spec fn run(phase: Phase, events: Seq<Event>) -> (Phase, Seq<Action>)
    decreases events.len(),
{
    if events.len() == 0 {
        (phase, Seq::empty())
    } else {
        let (next, action) = transition(phase, events[0]);
        let (last, rest) = run(next, events.drop_first());
        (last, seq![action] + rest)
    }
}

/// How many of `actions` are spawns.
pub open spec fn count_spawns(actions: Seq<Action>) -> nat
    decreases actions.len(),
{
    if actions.len() == 0 {
        0
    } else {
        (if actions[0] == Action::Spawn {
            1nat
        } else {
            0nat
        }) + count_spawns(actions.drop_first())
    }
}

/// How many of `actions` ask for the failure dialog.
pub open spec fn count_escalations(actions: Seq<Action>) -> nat
    decreases actions.len(),
{
    if actions.len() == 0 {
        0
    } else {
        (if actions[0] == Action::ShowFailureDialog {
            1nat
        } else {
            0nat
        }) + count_escalations(actions.drop_first())
    }
}

/// An action that keeps the startup sequence waiting for the server.
pub open spec fn is_polling(a: Action) -> bool {
    a == Action::Probe || a == Action::Spawn || a is Sleep
}

/// How many of `actions` keep the sequence waiting for the server.
pub open spec fn count_polling(actions: Seq<Action>) -> nat
    decreases actions.len(),
{
    if actions.len() == 0 {
        0
    } else {
        (if is_polling(actions[0]) {
            1nat
        } else {
            0nat
        }) + count_polling(actions.drop_first())
    }
}

/// The phases after which no spawn, probe or pause is ever asked for again.
pub open spec fn is_settled(phase: Phase) -> bool {
    phase == Phase::Ready || phase == Phase::AlreadyRunning || phase == Phase::TimedOut
        || phase == Phase::Exited
}

pub open spec fn has_escalated(phase: Phase) -> bool {
    phase == Phase::TimedOut || phase == Phase::Exited
}

/// Drives the startup sequence: probe, spawn, poll, and either
/// open the window or report the failure.
pub struct Coordinator {
    phase: Phase,
}

impl Coordinator {
    pub closed spec fn view(&self) -> Phase {
        self.phase
    }

    pub fn new() -> (c: Self)
        ensures
            c@ == Phase::Start,
    {
        Coordinator { phase: Phase::Start }
    }

    pub fn phase(&self) -> (p: Phase)
        ensures
            p == self@,
    {
        self.phase
    }

    /// Takes the outcome of the last action and says what to do next.
    pub fn step(&mut self, event: Event) -> (action: Action)
        ensures
            (final(self)@, action) == transition(old(self)@, event),
    {
        let (next, action) = match (self.phase, event) {
            (Phase::Start, Event::Begin) => (Phase::CheckingPort, Action::Probe),
            (Phase::CheckingPort, Event::Probed { live, elapsed_ms: _ }) => if live {
                (Phase::AlreadyRunning, Action::OpenWindow)
            } else {
                (Phase::Spawning, Action::Spawn)
            },
            (Phase::Spawning, Event::Spawned) => (
                Phase::Polling,
                Action::Sleep { ms: POLL_INTERVAL_MS },
            ),
            (Phase::Polling, Event::Slept) => (Phase::Polling, Action::Probe),
            (Phase::Polling, Event::Probed { live, elapsed_ms }) => if live {
                (Phase::WarmingUp, Action::Sleep { ms: WARMUP_MS })
            } else if elapsed_ms > STARTUP_TIMEOUT_MS {
                (Phase::TimedOut, Action::ShowFailureDialog)
            } else {
                (Phase::Polling, Action::Sleep { ms: POLL_INTERVAL_MS })
            },
            (Phase::WarmingUp, Event::Slept) => (Phase::Ready, Action::OpenWindow),
            (Phase::TimedOut, Event::DialogClosed { copy_logs }) => if copy_logs {
                (Phase::Exited, Action::CopyLogsAndExit)
            } else {
                (Phase::Exited, Action::Exit)
            },
            _ => (self.phase, Action::Idle),
        };
        self.phase = next;
        action
    }
}

/// From a settled phase the sequence stays settled and never asks to spawn,
/// probe or pause again; only a timed-out sequence still moves, to its exit.
pub proof fn lemma_settled_stays_quiet(phase: Phase, events: Seq<Event>)
    requires
        is_settled(phase),
    ensures
        is_settled(run(phase, events).0),
        phase != Phase::TimedOut ==> run(phase, events).0 == phase,
        count_polling(run(phase, events).1) == 0,
    decreases events.len(),
{
    if events.len() > 0 {
        let (next, action) = transition(phase, events[0]);
        let later = run(next, events.drop_first()).1;
        lemma_settled_stays_quiet(next, events.drop_first());
        assert((seq![action] + later).drop_first() =~= later);
    }
}

/// Whatever events arrive, the failure dialog is asked for at most once over
/// the whole run, and never again once it has been shown.
pub proof fn lemma_escalates_at_most_once(phase: Phase, events: Seq<Event>)
    ensures
        count_escalations(run(phase, events).1) <= if has_escalated(
            phase,
        ) {
            0nat
        } else {
            1nat
        },
    decreases events.len(),
{
    if events.len() > 0 {
        let (next, action) = transition(phase, events[0]);
        let later = run(next, events.drop_first()).1;
        lemma_escalates_at_most_once(next, events.drop_first());
        assert((seq![action] + later).drop_first() =~= later);
    }
}

/// When a probe after spawning fails past the deadline, the sequence times
/// out at once, asks for the failure dialog, and whatever follows it never
/// probes, pauses or spawns again.
pub proof fn lemma_deadline_ends_polling(live: bool, elapsed_ms: u64, rest: Seq<Event>)
    requires
        !live,
        elapsed_ms > STARTUP_TIMEOUT_MS,
    ensures
        transition(Phase::Polling, Event::Probed { live, elapsed_ms }) == (
            Phase::TimedOut,
            Action::ShowFailureDialog,
        ),
        count_polling(run(Phase::TimedOut, rest).1) == 0,
        count_escalations(run(Phase::TimedOut, rest).1) == 0,
{
    lemma_settled_stays_quiet(Phase::TimedOut, rest);
    lemma_escalates_at_most_once(Phase::TimedOut, rest);
}

/// When the port already answers the first probe, no child is ever spawned,
/// whatever follows, and the next action is to open the window.
pub proof fn lemma_live_port_never_spawns(elapsed_ms: u64, rest: Seq<Event>)
    ensures
        ({
            let events = seq![Event::Begin, Event::Probed { live: true, elapsed_ms }] + rest;
            let (last, actions) = run(Phase::Start, events);
            &&& last == Phase::AlreadyRunning
            &&& actions[1] == Action::OpenWindow
            &&& count_spawns(actions) == 0
        }),
{
    let events = seq![Event::Begin, Event::Probed { live: true, elapsed_ms }] + rest;
    let tail = events.drop_first();
    assert(events[0] == Event::Begin);
    assert(tail[0] == Event::Probed { live: true, elapsed_ms });
    assert(tail.drop_first() =~= rest);
    let (last, after) = run(Phase::AlreadyRunning, rest);
    lemma_settled_stays_quiet(Phase::AlreadyRunning, rest);
    lemma_polling_covers_spawn(after);
    assert(run(Phase::CheckingPort, tail) == (last, seq![Action::OpenWindow] + after));
    let actions = seq![Action::Probe] + (seq![Action::OpenWindow] + after);
    assert(run(Phase::Start, events) == (last, actions));
    assert(actions.drop_first() =~= seq![Action::OpenWindow] + after);
    assert(actions.drop_first().drop_first() =~= after);
    assert(actions[1] == Action::OpenWindow);
    assert(count_spawns(actions.drop_first()) == 0);
}

/// A spawn is counted among the polling actions.
proof fn lemma_polling_covers_spawn(actions: Seq<Action>)
    ensures
        count_spawns(actions) <= count_polling(actions),
    decreases actions.len(),
{
    if actions.len() > 0 {
        lemma_polling_covers_spawn(actions.drop_first());
    }
}

} // verus!
