//! Counter of frame sequence numbers.

use vstd::prelude::*;
use vstd::std_specs::convert::FromSpecImpl;
use crate::types::{Behold, Sequence};

verus! {

/// The sequence number that follows `value` after `increment` steps: the count wraps at 256.
pub open spec fn advanced(value: u8, increment: u8) -> u8 {
    ((value + increment) % 256) as u8
}

/// Source of sequence numbers.
///
/// A sequencer hands out its current value and moves on by one, wrapping from 255 to 0.
/// Changing a sequencer needs exclusive access, so every operation is one indivisible step.
#[derive(Debug)]
pub struct Sequencer {
    value: Sequence,
}

/// Turns something into a sequencer.
pub trait IntoSequencer {
    /// The value the sequencer starts from.
    open spec fn start(&self) -> Sequence {
        arbitrary()
    }

    /// The sequencer.
    fn into_sequencer(self) -> (sequencer: Sequencer)
        ensures
            sequencer@ == self.start(),
    ;
}

impl Sequencer {
    /// The value that is handed out next.
    pub closed spec fn view(&self) -> Sequence {
        self.value
    }

    /// A sequencer that starts from zero.
    pub fn new() -> (sequencer: Sequencer)
        ensures
            sequencer@ == 0,
    {
        Sequencer::init(0)
    }

    /// A sequencer that starts from `value`.
    pub fn init(value: Sequence) -> (sequencer: Sequencer)
        ensures
            sequencer@ == value,
    {
        Sequencer { value }
    }

    /// A sequencer of its own that starts from the current value of this one.
    pub fn fork(&self) -> (sequencer: Sequencer)
        ensures
            sequencer@ == self@,
    {
        Sequencer::init(self.current())
    }

    /// Takes over the current value of `other`.
    pub fn sync(&mut self, other: &Sequencer)
        ensures
            final(self)@ == other@,
    {
        self.rewind(other.current())
    }

    /// Hands out the current value and moves on by one.
    pub fn next(&mut self) -> (value: Sequence)
        ensures
            value == old(self)@,
            final(self)@ == advanced(old(self)@, 1),
    {
        let value = self.value;
        self.value = if value == 255 {
            0
        } else {
            value + 1
        };
        value
    }

    /// The value that is handed out next.
    pub fn current(&self) -> (value: Sequence)
        ensures
            value == self@,
    {
        self.value
    }

    /// Sets the value that is handed out next.
    pub fn rewind(&mut self, value: Sequence)
        ensures
            final(self)@ == value,
    {
        self.value = value;
    }

    /// Moves on by `increment` and hands out the value reached.
    ///
    /// The value comes wrapped: it is the one handed out next, not one to put into a frame
    /// without a thought.
    #[must_use]
    pub fn advance(&mut self, increment: Sequence) -> (value: Behold<Sequence>)
        ensures
            value@ == advanced(old(self)@, increment),
            final(self)@ == advanced(old(self)@, increment),
    {
        let sum: u16 = self.value as u16 + increment as u16;
        let reached: u8 = (sum % 256) as u8;
        self.value = reached;
        Behold::new(reached)
    }
}

impl IntoSequencer for Sequencer {
    open spec fn start(&self) -> Sequence {
        self@
    }

    fn into_sequencer(self) -> (sequencer: Sequencer) {
        self
    }
}

impl IntoSequencer for &Sequencer {
    open spec fn start(&self) -> Sequence {
        self@
    }

    /// A fork of the sequencer.
    fn into_sequencer(self) -> (sequencer: Sequencer) {
        self.fork()
    }
}

impl IntoSequencer for Sequence {
    open spec fn start(&self) -> Sequence {
        *self
    }

    fn into_sequencer(self) -> (sequencer: Sequencer) {
        Sequencer::init(self)
    }
}

impl From<&Sequencer> for Sequencer {
    /// A fork of the sequencer.
    fn from(value: &Sequencer) -> (sequencer: Sequencer)
        ensures
            sequencer@ == value@,
    {
        value.fork()
    }
}

impl FromSpecImpl<&Sequencer> for Sequencer {
    open spec fn obeys_from_spec() -> bool {
        true
    }

    closed spec fn from_spec(value: &Sequencer) -> Sequencer {
        Sequencer { value: value.value }
    }
}

impl From<Sequence> for Sequencer {
    fn from(value: Sequence) -> (sequencer: Sequencer)
        ensures
            sequencer@ == value,
    {
        Sequencer::init(value)
    }
}

impl FromSpecImpl<Sequence> for Sequencer {
    open spec fn obeys_from_spec() -> bool {
        true
    }

    closed spec fn from_spec(value: Sequence) -> Sequencer {
        Sequencer { value }
    }
}

impl Clone for Sequencer {
    /// A sequencer of its own with the same current value.
    fn clone(&self) -> (sequencer: Sequencer)
        ensures
            sequencer@ == self@,
    {
        Sequencer { value: self.value }
    }
}

impl Default for Sequencer {
    /// A sequencer that starts from zero.
    fn default() -> (sequencer: Sequencer)
        ensures
            sequencer@ == 0,
    {
        Sequencer::new()
    }
}

/// A sequencer at 255 hands out 255 and then 0: the count wraps modulo 256.
pub proof fn lemma_sequence_wraps()
    ensures
        advanced(255, 1) == 0,
        forall|value: u8| value < 255 ==> advanced(value, 1) == value + 1,
        forall|value: u8, a: u8, b: u8|
            #![trigger advanced(value, advanced(a, b))]
            advanced(advanced(value, a), b) == advanced(value, advanced(a, b)),
{
}

} // verus!
