//! Poll-by-poll decisions of the latency and jitter streams, which hold a
//! pending sleep per direction between polls.

use vstd::prelude::*;

verus! {

/// What a delayed stream does next on a poll.
#[derive(Clone, Copy, Debug, PartialEq, Eq, Structural)]
pub enum DelayStep {
    /// Poll the inner stream.
    Forward,
    /// Start a sleep for the drawn delay (reporting it), then poll it.
    ArmAndPollSleep,
    /// Poll the pending sleep.
    PollSleep,
    /// Decide by a random draw whether to start a sleep, then poll the
    /// inner stream.
    Draw,
    /// Return pending.
    Wait,
}

/// The sleep state of one direction of a delayed stream.
pub struct DelayGate {
    pub armed: bool,
}

impl DelayGate {
    /// No sleep is pending at first.
    pub fn new() -> (r: DelayGate)
        ensures
            !r.armed,
    {
        DelayGate { armed: false }
    }

    /// Latency stream: in a direction the fault covers, every poll waits
    /// for a sleep, starting one when none is pending; other directions
    /// pass through.
    pub fn latency_step(&self, covered: bool) -> (r: DelayStep)
        ensures
            !covered ==> r == DelayStep::Forward,
            covered && !self.armed ==> r == DelayStep::ArmAndPollSleep,
            covered && self.armed ==> r == DelayStep::PollSleep,
    {
        if !covered {
            DelayStep::Forward
        } else if !self.armed {
            DelayStep::ArmAndPollSleep
        } else {
            DelayStep::PollSleep
        }
    }

    /// Records that a sleep was started.
    pub fn arm(&mut self)
        ensures
            final(self).armed,
    {
        self.armed = true;
    }

    /// Outcome of polling the pending sleep: a finished sleep is dropped
    /// and the inner stream polled; an unfinished one keeps the poll
    /// pending.
    pub fn on_sleep_polled(&mut self, ready: bool) -> (r: DelayStep)
        requires
            old(self).armed,
        ensures
            ready ==> !final(self).armed && r == DelayStep::Forward,
            !ready ==> final(self).armed && r == DelayStep::Wait,
    {
        if ready {
            self.armed = false;
            DelayStep::Forward
        } else {
            DelayStep::Wait
        }
    }

    /// Jitter stream: in a direction the fault covers, a pending sleep is
    /// polled, otherwise a draw decides whether the next poll will wait;
    /// other directions pass through.
    pub fn jitter_step(&self, covered: bool) -> (r: DelayStep)
        ensures
            !covered ==> r == DelayStep::Forward,
            covered && self.armed ==> r == DelayStep::PollSleep,
            covered && !self.armed ==> r == DelayStep::Draw,
    {
        if !covered {
            DelayStep::Forward
        } else if self.armed {
            DelayStep::PollSleep
        } else {
            DelayStep::Draw
        }
    }

    /// Jitter stream: after a draw, a sleep is started when the draw says
    /// so; this poll goes on to the inner stream either way.
    pub fn on_jitter_drawn(&mut self, jitter: bool) -> (r: DelayStep)
        requires
            !old(self).armed,
        ensures
            final(self).armed == jitter,
            r == DelayStep::Forward,
    {
        if jitter {
            self.armed = true;
        }
        DelayStep::Forward
    }
}

} // verus!
