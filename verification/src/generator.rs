//! Event generators: what makes a module ask for a redraw.
//!
//! A generator runs beside the draw loop for as long as the strip lives. It
//! sleeps or reads; each time it comes back it is told what happened and
//! answers what to do next.

use vstd::prelude::*;

verus! {

/// How a module learns that it has changed.
#[derive(Clone, Copy, Debug, PartialEq, Eq, Structural)]
pub enum Generator {
    /// The module never changes.
    Static,
    /// The module is drawn anew every `interval` milliseconds.
    Timer { interval: u64 },
    /// The module is drawn anew for each line that an observer process
    /// prints.
    Stream,
}

/// What happened to a generator.
#[derive(Clone, Copy, Debug, PartialEq, Eq, Structural)]
pub enum GeneratorEvent {
    /// The generator was started.
    Started,
    /// The sleep is over.
    Woke,
    /// The observer printed a line.
    Line,
    /// The observer's output has ended.
    StreamEnded,
    /// The observer could not be started.
    SpawnFailed,
}

/// What a generator does next.
#[derive(Clone, Copy, Debug, PartialEq, Eq, Structural)]
pub enum GeneratorAction {
    /// Nothing, ever again.
    Finish,
    /// Ask for a redraw, then sleep for `interval` milliseconds.
    SignalThenSleep { interval: u64 },
    /// Ask for a redraw, then read the next line.
    SignalThenRead,
    /// Start the observer and read its first line.
    Spawn,
    /// Give up: the strip cannot run without this generator.
    Abort,
}

impl Generator {
    /// A timer asks for a redraw when it starts and after each sleep. A
    /// stream starts its observer, asks for a redraw at each line, starts
    /// the observer anew when its output ends, and gives up when it cannot
    /// be started. Anything else ends the generator.
    pub open spec fn spec_step(self, event: GeneratorEvent) -> GeneratorAction {
        match (self, event) {
            (Generator::Timer { interval }, GeneratorEvent::Started) => {
                GeneratorAction::SignalThenSleep { interval }
            },
            (Generator::Timer { interval }, GeneratorEvent::Woke) => {
                GeneratorAction::SignalThenSleep { interval }
            },
            (Generator::Stream, GeneratorEvent::Started) => GeneratorAction::Spawn,
            (Generator::Stream, GeneratorEvent::Line) => GeneratorAction::SignalThenRead,
            (Generator::Stream, GeneratorEvent::StreamEnded) => GeneratorAction::Spawn,
            (Generator::Stream, GeneratorEvent::SpawnFailed) => GeneratorAction::Abort,
            _ => GeneratorAction::Finish,
        }
    }

    /// Whether the action asks for a redraw.
    pub open spec fn signals(action: GeneratorAction) -> bool {
        action is SignalThenSleep || action is SignalThenRead
    }

    /// What the generator does after `event`.
    pub fn step(&self, event: GeneratorEvent) -> (action: GeneratorAction)
        ensures
            action == self.spec_step(event),
    {
        match (*self, event) {
            (Generator::Timer { interval }, GeneratorEvent::Started) => {
                GeneratorAction::SignalThenSleep { interval }
            },
            (Generator::Timer { interval }, GeneratorEvent::Woke) => {
                GeneratorAction::SignalThenSleep { interval }
            },
            (Generator::Stream, GeneratorEvent::Started) => GeneratorAction::Spawn,
            (Generator::Stream, GeneratorEvent::Line) => GeneratorAction::SignalThenRead,
            (Generator::Stream, GeneratorEvent::StreamEnded) => GeneratorAction::Spawn,
            (Generator::Stream, GeneratorEvent::SpawnFailed) => GeneratorAction::Abort,
            _ => GeneratorAction::Finish,
        }
    }
}

/// A generator that is neither static nor failed to start never finishes:
/// after each event that its own last action can lead to, it goes on.
pub proof fn lemma_generator_runs_on(generator: Generator, event: GeneratorEvent)
    requires
        match generator {
            Generator::Static => false,
            Generator::Timer { .. } => event is Started || event is Woke,
            Generator::Stream => event is Started || event is Line || event is StreamEnded,
        },
    ensures
        !(generator.spec_step(event) is Finish),
        !(generator.spec_step(event) is Abort),
        event is Woke || event is Line ==> Generator::signals(generator.spec_step(event)),
{
}

} // verus!
