//! The network states of the packet loss Markov model.

use vstd::prelude::*;

verus! {

/// Network quality states of the Markov packet loss model, indexed 0 to 4
/// from best to worst.
#[derive(Clone, Copy, Debug, PartialEq, Eq, Structural)]
pub enum MultiState {
    Excellent,
    Good,
    Fair,
    Poor,
    Bad,
}

/// Number of states of the model.
pub const STATE_COUNT: usize = 5;

impl MultiState {
    /// Index of a state in the transition matrix.
    pub open spec fn spec_index(self) -> nat {
        match self {
            MultiState::Excellent => 0,
            MultiState::Good => 1,
            MultiState::Fair => 2,
            MultiState::Poor => 3,
            MultiState::Bad => 4,
        }
    }

    /// State of an index; indices past the last state fall back to `Good`.
    pub open spec fn spec_from_index(index: nat) -> MultiState {
        if index == 0 {
            MultiState::Excellent
        } else if index == 1 {
            MultiState::Good
        } else if index == 2 {
            MultiState::Fair
        } else if index == 3 {
            MultiState::Poor
        } else if index == 4 {
            MultiState::Bad
        } else {
            MultiState::Good
        }
    }

    /// The state at `index`; `Good` for an index past the last state.
    pub fn from_index(index: usize) -> (r: MultiState)
        ensures
            r == Self::spec_from_index(index as nat),
    {
        match index {
            0 => MultiState::Excellent,
            1 => MultiState::Good,
            2 => MultiState::Fair,
            3 => MultiState::Poor,
            4 => MultiState::Bad,
            _ => MultiState::Good,
        }
    }

    /// The index of this state.
    pub fn to_index(&self) -> (r: usize)
        ensures
            r == self.spec_index(),
            r < STATE_COUNT,
    {
        match self {
            MultiState::Excellent => 0,
            MultiState::Good => 1,
            MultiState::Fair => 2,
            MultiState::Poor => 3,
            MultiState::Bad => 4,
        }
    }

    /// The model starts in the `Good` state.
    pub fn initial() -> (r: MultiState)
        ensures
            r == MultiState::Good,
    {
        MultiState::Good
    }
}

/// Index and state convert into each other: every state is found again
/// from its index, every index below the state count from its state, and
/// the indices past the last state all give `Good`.
pub proof fn lemma_multi_state_index_roundtrip(s: MultiState, i: nat)
    ensures
        MultiState::spec_from_index(s.spec_index()) == s,
        s.spec_index() < STATE_COUNT,
        i < STATE_COUNT ==> MultiState::spec_from_index(i).spec_index() == i,
        i >= STATE_COUNT ==> MultiState::spec_from_index(i) == MultiState::Good,
{
}

/// A stream made of a (possibly lossy) read half and write half.
pub struct PacketLossLimitedBidirectional<R, W> {
    pub reader: R,
    pub writer: W,
}

impl<R, W> PacketLossLimitedBidirectional<R, W> {
    /// Joins a read half and a write half.
    pub fn new(reader: R, writer: W) -> (r: Self)
        ensures
            r.reader == reader,
            r.writer == writer,
    {
        Self { reader, writer }
    }
}

} // verus!
