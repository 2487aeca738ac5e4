//! The cancellation coordinator: what it has seen, and what each thing that
//! happens to it asks of the code that owns the signal listener.
//!
//! The coordinator starts out listening. The first termination signal makes it
//! signaled, for good: that is when its subscribers are notified. Closing it
//! before any signal releases the listener. Whatever comes after either of
//! these changes nothing and asks for nothing.

use vstd::prelude::*;

pub mod laws;

verus! {

/// The termination condition that the operating system delivered.
#[derive(Clone, Copy, PartialEq, Eq, Structural, Debug)]
pub enum Signal {
    /// The interrupt signal of a Unix system.
    Interrupt,
    /// The terminate signal of a Unix system.
    Terminate,
    /// The one combined condition of a system that tells no kinds apart.
    CtrlC,
}

/// Where a coordinator stands.
#[derive(Clone, Copy, PartialEq, Eq, Structural, Debug)]
pub enum Phase {
    /// No signal has arrived and the listener is installed.
    Listening,
    /// A signal has arrived: the subscribers were notified.
    Signaled,
    /// The coordinator was closed before any signal arrived.
    Closed,
}

/// What can happen to a coordinator.
#[derive(Clone, Copy, PartialEq, Eq, Structural, Debug)]
pub enum Request {
    /// The operating system delivered a termination signal.
    Signal(Signal),
    /// The owner asks the coordinator to finish.
    Close,
}

/// What the owner of the listener must do after a request.
#[derive(Clone, Copy, PartialEq, Eq, Structural, Debug)]
pub enum Effect {
    /// Nothing is left to do.
    Nothing,
    /// Announce the signal and notify every subscriber.
    Notify(Signal),
    /// Release the signal listener.
    Release,
}

/// The phase that follows `phase` when `request` comes.
pub open spec fn next_phase(phase: Phase, request: Request) -> Phase {
    match (phase, request) {
        (Phase::Listening, Request::Signal(_)) => Phase::Signaled,
        (Phase::Listening, Request::Close) => Phase::Closed,
        _ => phase,
    }
}

/// What `request` asks for when it comes in `phase`.
pub open spec fn effect_of(phase: Phase, request: Request) -> Effect {
    match (phase, request) {
        (Phase::Listening, Request::Signal(signal)) => Effect::Notify(signal),
        (Phase::Listening, Request::Close) => Effect::Release,
        _ => Effect::Nothing,
    }
}

/// The text of each signal's notice.
pub open spec fn notice_text(signal: Signal) -> Seq<char> {
    match signal {
        Signal::Interrupt => "Received SIGINT"@,
        Signal::Terminate => "Received SIGTERM"@,
        Signal::CtrlC => "Received Ctrl-C"@,
    }
}

impl Signal {
    /// The notice that tells an operator which condition was observed. Every
    /// signal has one.
    pub fn notice(self) -> (text: &'static str)
        ensures
            text@ == notice_text(self),
    {
        match self {
            Signal::Interrupt => "Received SIGINT",
            Signal::Terminate => "Received SIGTERM",
            Signal::CtrlC => "Received Ctrl-C",
        }
    }
}

/// Reconciles a termination signal with the orderly end of a run.
#[derive(Debug)]
pub struct Coordinator {
    phase: Phase,
}

impl View for Coordinator {
    type V = Phase;

    closed spec fn view(&self) -> Phase {
        self.phase
    }
}

impl Coordinator {
    /// A coordinator whose listener has just been installed.
    pub fn new() -> (c: Self)
        ensures
            c@ == Phase::Listening,
    {
        Coordinator { phase: Phase::Listening }
    }

    /// The phase that the coordinator is in.
    pub fn phase(&self) -> (p: Phase)
        ensures
            p == self@,
    {
        self.phase
    }

    /// Whether the termination signal has arrived. Once true, it stays true.
    pub fn done(&self) -> (d: bool)
        ensures
            d == (self@ == Phase::Signaled),
    {
        self.phase == Phase::Signaled
    }

    /// Takes a request and says what the owner of the listener must do.
    pub fn handle(&mut self, request: Request) -> (effect: Effect)
        ensures
            final(self)@ == next_phase(old(self)@, request),
            effect == effect_of(old(self)@, request),
    {
        match (self.phase, request) {
            (Phase::Listening, Request::Signal(signal)) => {
                self.phase = Phase::Signaled;
                Effect::Notify(signal)
            },
            (Phase::Listening, Request::Close) => {
                self.phase = Phase::Closed;
                Effect::Release
            },
            _ => Effect::Nothing,
        }
    }

    /// Records that a termination signal arrived. The first one notifies the
    /// subscribers; any other is ignored.
    pub fn signal(&mut self, signal: Signal) -> (effect: Effect)
        ensures
            final(self)@ == next_phase(old(self)@, Request::Signal(signal)),
            effect == effect_of(old(self)@, Request::Signal(signal)),
    {
        self.handle(Request::Signal(signal))
    }

    /// Finishes the coordinator. Before any signal this releases the listener;
    /// after a signal, or a second time, it does nothing.
    pub fn close(&mut self) -> (effect: Effect)
        ensures
            final(self)@ == next_phase(old(self)@, Request::Close),
            effect == effect_of(old(self)@, Request::Close),
    {
        self.handle(Request::Close)
    }
}

} // verus!
