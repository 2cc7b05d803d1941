//! The shutdown coordinator: the order in which a serving process stops.
//!
//! The coordinator performs no waiting of its own. A driver does the outside
//! work that the coordinator asks for (racing the termination triggers,
//! logging the notice, sleeping through the drain window) and reports each
//! completed piece of work as an [`Event`]. The coordinator answers with the
//! next piece of work, or with nothing when the event changes nothing.
//!
//! ```text
//! Running --trigger fired--> ShutdownRequested --notice logged--> Draining --drain elapsed--> Exited
//! ```

use vstd::prelude::*;

verus! {

/// An outside event that asks the process to shut down.
#[derive(Clone, Copy, Debug, PartialEq, Eq, Structural)]
pub enum Trigger {
    /// The interactive interrupt.
    Interrupt,
    /// The platform's termination request.
    Terminate,
}

/// Whether a trigger can be observed on this platform.
#[derive(Clone, Copy, Debug, PartialEq, Eq, Structural)]
pub enum TriggerSource {
    /// A handler is installed for the trigger; it may fire.
    Armed,
    /// The platform has no such trigger; it is awaited like any other and never fires.
    NeverFires,
}

/// Where the coordinator stands.
#[derive(Clone, Copy, Debug, PartialEq, Eq, Structural)]
pub enum Phase {
    /// Serving; no trigger has fired.
    Running,
    /// A trigger has fired; the notice is still to be logged.
    ShutdownRequested,
    /// The drain window is running.
    Draining,
    /// The drain window is over; the serve loop may stop.
    Exited,
}

/// What the driver reports to the coordinator.
#[derive(Clone, Copy, Debug, PartialEq, Eq, Structural)]
pub enum Event {
    /// The named trigger fired.
    TriggerFired(Trigger),
    /// No handler could be installed for the named trigger.
    InstallFailed(Trigger),
    /// The shutdown notice was written to the log.
    NoticeLogged,
    /// The sleep through the drain window returned.
    DrainElapsed,
}

/// What the coordinator asks of the driver.
#[derive(Clone, Copy, Debug, PartialEq, Eq, Structural)]
pub enum Action {
    /// Wait for the first of the two triggers. The interrupt is always armed.
    AwaitTriggers {
        /// Whether the termination request can fire at all.
        terminate: TriggerSource,
    },
    /// Log that a shutdown signal was received, with the drain window in seconds.
    LogNotice {
        /// The configured drain window.
        drain_secs: u64,
    },
    /// Sleep for this many seconds while in-flight requests finish.
    Sleep {
        /// The configured drain window.
        secs: u64,
    },
    /// Hand control back to the serve loop, which stops accepting connections.
    Return,
    /// Give up: without a handler for this trigger the process must not serve.
    Abort {
        /// The trigger whose handler could not be installed.
        trigger: Trigger,
    },
}

/// The coordinator as a plain value.
#[derive(Clone, Copy, Debug, PartialEq, Eq, Structural)]
pub struct State {
    /// Where the coordinator stands.
    pub phase: Phase,
    /// The configured drain window, in seconds.
    pub drain_secs: u64,
    /// Whether the termination request can fire on this platform.
    pub terminate: TriggerSource,
}

/// The source of `trigger` in state `s`. The interrupt is armed on every platform.
pub open spec fn source_of(s: State, trigger: Trigger) -> TriggerSource {
    match trigger {
        Trigger::Interrupt => TriggerSource::Armed,
        Trigger::Terminate => s.terminate,
    }
}

/// The phase that follows `phase`. Nothing follows `Exited`.
pub open spec fn successor(phase: Phase) -> Phase {
    match phase {
        Phase::Running => Phase::ShutdownRequested,
        Phase::ShutdownRequested => Phase::Draining,
        Phase::Draining => Phase::Exited,
        Phase::Exited => Phase::Exited,
    }
}

/// Whether `event` is the one that state `s` is waiting for.
pub open spec fn advances(s: State, event: Event) -> bool {
    match (s.phase, event) {
        (Phase::Running, Event::TriggerFired(trigger)) => source_of(s, trigger) is Armed,
        (Phase::ShutdownRequested, Event::NoticeLogged) => true,
        (Phase::Draining, Event::DrainElapsed) => true,
        _ => false,
    }
}

/// Whether `event` reports a failure that state `s` cannot serve with.
pub open spec fn is_fatal(s: State, event: Event) -> bool {
    match (s.phase, event) {
        (Phase::Running, Event::InstallFailed(trigger)) => source_of(s, trigger) is Armed,
        _ => false,
    }
}

/// The state after `event` is reported in state `s`: one phase further when the
/// event is the awaited one, and `s` itself otherwise.
pub open spec fn next_state(s: State, event: Event) -> State {
    if advances(s, event) {
        State { phase: successor(s.phase), ..s }
    } else {
        s
    }
}

/// The outside work that state `s` is waiting for.
pub open spec fn pending(s: State) -> Action {
    match s.phase {
        Phase::Running => Action::AwaitTriggers { terminate: s.terminate },
        Phase::ShutdownRequested => Action::LogNotice { drain_secs: s.drain_secs },
        Phase::Draining => Action::Sleep { secs: s.drain_secs },
        Phase::Exited => Action::Return,
    }
}

/// What the driver is asked to do when `event` is reported in state `s`:
/// the work of the next phase when the event is the awaited one, to give up
/// when it is fatal, and nothing new otherwise.
pub open spec fn reaction(s: State, event: Event) -> Option<Action> {
    if advances(s, event) {
        Some(pending(next_state(s, event)))
    } else if is_fatal(s, event) {
        Some(Action::Abort { trigger: event->InstallFailed_0 })
    } else {
        None
    }
}

/// The state in which a coordinator starts.
pub open spec fn initial(drain_secs: u64, terminate: TriggerSource) -> State {
    State { phase: Phase::Running, drain_secs, terminate }
}

impl Trigger {
    /// What to say when no handler can be installed for the trigger.
    pub open spec fn install_failure_of(self) -> Seq<char> {
        match self {
            Trigger::Interrupt => "Failed to install Ctrl+C handler"@,
            Trigger::Terminate => "Failed to install SIGTERM handler"@,
        }
    }

    /// What to say when no handler can be installed for the trigger.
    pub fn install_failure(self) -> (text: &'static str)
        ensures
            text@ == self.install_failure_of(),
    {
        match self {
            Trigger::Interrupt => "Failed to install Ctrl+C handler",
            Trigger::Terminate => "Failed to install SIGTERM handler",
        }
    }
}

impl TriggerSource {
    /// The source to use for a trigger, given whether the platform supports it.
    pub fn select(supported: bool) -> (source: TriggerSource)
        ensures
            source == if supported {
                TriggerSource::Armed
            } else {
                TriggerSource::NeverFires
            },
    {
        if supported {
            TriggerSource::Armed
        } else {
            TriggerSource::NeverFires
        }
    }
}

/// The shutdown coordinator of one process.
#[derive(Clone, Copy, Debug, PartialEq, Eq, Structural)]
pub struct Coordinator {
    state: State,
}

impl View for Coordinator {
    type V = State;

    closed spec fn view(&self) -> State {
        self.state
    }
}

impl Coordinator {
    /// A coordinator that is running, with the given drain window in seconds
    /// and the given source for the termination request.
    pub fn new(drain_secs: u64, terminate: TriggerSource) -> (c: Coordinator)
        ensures
            c@ == initial(drain_secs, terminate),
    {
        Coordinator { state: State { phase: Phase::Running, drain_secs, terminate } }
    }

    /// Where the coordinator stands.
    pub fn phase(&self) -> (phase: Phase)
        ensures
            phase == self@.phase,
    {
        self.state.phase
    }

    /// The configured drain window, in seconds.
    pub fn drain_secs(&self) -> (secs: u64)
        ensures
            secs == self@.drain_secs,
    {
        self.state.drain_secs
    }

    /// The outside work that the coordinator is waiting for.
    pub fn pending(&self) -> (action: Action)
        ensures
            action == pending(self@),
    {
        match self.state.phase {
            Phase::Running => Action::AwaitTriggers { terminate: self.state.terminate },
            Phase::ShutdownRequested => Action::LogNotice { drain_secs: self.state.drain_secs },
            Phase::Draining => Action::Sleep { secs: self.state.drain_secs },
            Phase::Exited => Action::Return,
        }
    }

    /// Reports `event` and returns what to do about it. `None` means that the
    /// event changed nothing: whatever the driver was doing, it goes on doing.
    pub fn step(&mut self, event: Event) -> (action: Option<Action>)
        ensures
            final(self)@ == next_state(old(self)@, event),
            action == reaction(old(self)@, event),
    {
        match (self.state.phase, event) {
            (Phase::Running, Event::TriggerFired(trigger)) => {
                match self.source(trigger) {
                    TriggerSource::Armed => {
                        self.state.phase = Phase::ShutdownRequested;
                        Some(Action::LogNotice { drain_secs: self.state.drain_secs })
                    },
                    TriggerSource::NeverFires => None,
                }
            },
            (Phase::Running, Event::InstallFailed(trigger)) => {
                match self.source(trigger) {
                    TriggerSource::Armed => Some(Action::Abort { trigger }),
                    TriggerSource::NeverFires => None,
                }
            },
            (Phase::ShutdownRequested, Event::NoticeLogged) => {
                self.state.phase = Phase::Draining;
                Some(Action::Sleep { secs: self.state.drain_secs })
            },
            (Phase::Draining, Event::DrainElapsed) => {
                self.state.phase = Phase::Exited;
                Some(Action::Return)
            },
            _ => None,
        }
    }

    /// The source of `trigger` for this coordinator.
    pub fn source(&self, trigger: Trigger) -> (source: TriggerSource)
        ensures
            source == source_of(self@, trigger),
    {
        match trigger {
            Trigger::Interrupt => TriggerSource::Armed,
            Trigger::Terminate => self.state.terminate,
        }
    }
}

} // verus!
