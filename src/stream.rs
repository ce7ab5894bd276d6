//! Classifying the envelopes of a program's update stream: each payload is
//! decoded as an instruction message first and as a state message only if
//! that fails; a payload that is neither is dropped and counted.
use vstd::prelude::*;

verus! {

/// The message shapes a payload may decode as.
#[derive(Debug, Clone, Copy, PartialEq, Eq, Structural)]
pub enum Shape {
    Instruction,
    State,
}

/// What to do with a payload next.
#[derive(Debug, Clone, Copy, PartialEq, Eq, Structural)]
pub enum DecodeStep {
    /// Attempt to decode the payload as this shape.
    Try(Shape),
    /// The payload decoded as this shape: report it.
    Accept(Shape),
    /// No shape fits: drop the payload.
    Drop,
}

/// What became of one envelope.
#[derive(Debug, Clone, Copy, PartialEq, Eq, Structural)]
pub enum EnvelopeOutcome {
    Decoded(Shape),
    Dropped,
    /// The envelope carried no payload.
    Malformed,
}

/// What the stream delivered.
#[derive(Debug, Clone, Copy, PartialEq, Eq, Structural)]
pub enum Received {
    /// An envelope, already classified.
    Envelope(EnvelopeOutcome),
    /// The stream closed.
    End,
    /// The transport failed.
    Error,
}

/// Whether the receive loop goes on.
#[derive(Debug, Clone, Copy, PartialEq, Eq, Structural)]
pub enum LoopAction {
    Continue,
    Stop,
}

/// The step that follows an attempt to decode as `shape` that succeeded or not.
pub open spec fn next_step(shape: Shape, decoded: bool) -> DecodeStep {
    if decoded {
        DecodeStep::Accept(shape)
    } else if shape == Shape::Instruction {
        DecodeStep::Try(Shape::State)
    } else {
        DecodeStep::Drop
    }
}

/// The first attempt made on every payload.
pub fn first_step() -> (r: DecodeStep)
    ensures
        r == DecodeStep::Try(Shape::Instruction),
{
    DecodeStep::Try(Shape::Instruction)
}

/// The step after an attempt to decode as `shape`.
pub fn after_attempt(shape: Shape, decoded: bool) -> (r: DecodeStep)
    ensures
        r == next_step(shape, decoded),
{
    if decoded {
        DecodeStep::Accept(shape)
    } else {
        match shape {
            Shape::Instruction => DecodeStep::Try(Shape::State),
            Shape::State => DecodeStep::Drop,
        }
    }
}

/// The outcome that a finished step gives; `None` while an attempt is due.
pub open spec fn step_outcome(step: DecodeStep) -> Option<EnvelopeOutcome> {
    match step {
        DecodeStep::Try(_) => None,
        DecodeStep::Accept(shape) => Some(EnvelopeOutcome::Decoded(shape)),
        DecodeStep::Drop => Some(EnvelopeOutcome::Dropped),
    }
}

/// The envelope's outcome once dispatch has finished with `step`.
pub fn outcome(step: DecodeStep) -> (r: Option<EnvelopeOutcome>)
    ensures
        r == step_outcome(step),
{
    match step {
        DecodeStep::Try(_) => None,
        DecodeStep::Accept(shape) => Some(EnvelopeOutcome::Decoded(shape)),
        DecodeStep::Drop => Some(EnvelopeOutcome::Dropped),
    }
}

/// The receive loop stops only when the stream ends or fails; every envelope,
/// decoded, dropped or malformed, lets it go on.
pub fn on_receive(r: Received) -> (a: LoopAction)
    ensures
        a == LoopAction::Stop <==> !(r is Envelope),
{
    match r {
        Received::Envelope(_) => LoopAction::Continue,
        _ => LoopAction::Stop,
    }
}

/// Counts of envelope outcomes over one subscription.
#[derive(Debug, Clone, Copy, PartialEq, Eq, Structural)]
pub struct StreamStats {
    pub instructions: u64,
    pub states: u64,
    pub dropped: u64,
    pub malformed: u64,
}

pub open spec fn bump(n: u64) -> u64 {
    if n < u64::MAX { (n + 1) as u64 } else { n }
}

impl StreamStats {
    pub fn new() -> (r: Self)
        ensures
            r == (StreamStats { instructions: 0, states: 0, dropped: 0, malformed: 0 }),
    {
        StreamStats { instructions: 0, states: 0, dropped: 0, malformed: 0 }
    }

    /// Counts one envelope's outcome; counters stop at their maximum.
    pub fn record(&mut self, o: EnvelopeOutcome)
        ensures
            *final(self) == (match o {
                EnvelopeOutcome::Decoded(Shape::Instruction) => StreamStats {
                    instructions: bump(old(self).instructions),
                    ..*old(self)
                },
                EnvelopeOutcome::Decoded(Shape::State) => StreamStats {
                    states: bump(old(self).states),
                    ..*old(self)
                },
                EnvelopeOutcome::Dropped => StreamStats { dropped: bump(old(self).dropped), ..*old(self) },
                EnvelopeOutcome::Malformed => StreamStats {
                    malformed: bump(old(self).malformed),
                    ..*old(self)
                },
            }),
    {
        match o {
            EnvelopeOutcome::Decoded(Shape::Instruction) => {
                if self.instructions < u64::MAX {
                    self.instructions = self.instructions + 1;
                }
            },
            EnvelopeOutcome::Decoded(Shape::State) => {
                if self.states < u64::MAX {
                    self.states = self.states + 1;
                }
            },
            EnvelopeOutcome::Dropped => {
                if self.dropped < u64::MAX {
                    self.dropped = self.dropped + 1;
                }
            },
            EnvelopeOutcome::Malformed => {
                if self.malformed < u64::MAX {
                    self.malformed = self.malformed + 1;
                }
            },
        }
    }
}

/// Decode dispatch: a payload that decodes as an instruction is accepted on
/// the first attempt, so the state shape is never tried; a payload that fits
/// neither shape is dropped after the two attempts, and the receive loop goes
/// on.
pub proof fn lemma_dispatch_order(as_instruction: bool, as_state: bool)
    ensures
        as_instruction ==> next_step(Shape::Instruction, as_instruction) == DecodeStep::Accept(
            Shape::Instruction,
        ),
        !as_instruction ==> next_step(Shape::Instruction, as_instruction) == DecodeStep::Try(
            Shape::State,
        ),
        !as_instruction && !as_state ==> next_step(Shape::State, as_state) == DecodeStep::Drop,
        !as_instruction && as_state ==> next_step(Shape::State, as_state) == DecodeStep::Accept(
            Shape::State,
        ),
        !as_instruction && !as_state ==> step_outcome(next_step(Shape::State, as_state)) == Some(
            EnvelopeOutcome::Dropped,
        ),
{
}

} // verus!
