//! Models of the two I/O lines the interrupt service works with: an output
//! line whose logic level the service flips, and an input line that latches
//! an edge-triggered pending condition. Only the state the logic reads is
//! modelled; driving the electrical pins is the unverified outer layer's job.

use vstd::prelude::*;

verus! {

/// Logic level of a digital line.
#[derive(Clone, Copy, Debug, PartialEq, Eq, Structural)]
pub enum Level {
    Low,
    High,
}

impl Level {
    /// The opposite level.
    pub open spec fn spec_toggled(self) -> Level {
        match self {
            Level::Low => Level::High,
            Level::High => Level::Low,
        }
    }
}

/// Which transition of the input line latches the pending condition.
#[derive(Clone, Copy, Debug, PartialEq, Eq, Structural)]
pub enum Edge {
    Rising,
    Falling,
}

/// Resting pull of the input line.
#[derive(Clone, Copy, Debug, PartialEq, Eq, Structural)]
pub enum Pull {
    /// Pulled toward the inactive level.
    Down,
    Up,
}

/// A push-pull output line.
pub struct OutputPin {
    level: Level,
}

impl OutputPin {
    pub closed spec fn level_spec(&self) -> Level {
        self.level
    }

    /// At power-on the output drives low ("off").
    pub fn new() -> (r: OutputPin)
        ensures
            r.level_spec() == Level::Low,
    {
        OutputPin { level: Level::Low }
    }

    pub fn level(&self) -> (r: Level)
        ensures
            r == self.level_spec(),
    {
        self.level
    }

    /// Flip the logic level — flip, not set-to-value, so the effect of a run
    /// of calls depends only on how many there were.
    pub fn toggle(&mut self)
        ensures
            final(self).level_spec() == old(self).level_spec().spec_toggled(),
    {
        self.level = match self.level {
            Level::Low => Level::High,
            Level::High => Level::Low,
        };
    }
}

/// An input line wired as an edge-triggered interrupt source.
pub struct TriggerInput {
    edge: Edge,
    pull: Pull,
    pending: bool,
}

impl TriggerInput {
    pub closed spec fn edge_spec(&self) -> Edge {
        self.edge
    }

    pub closed spec fn pull_spec(&self) -> Pull {
        self.pull
    }

    /// Whether the latched interrupt condition is set.
    pub closed spec fn pending_spec(&self) -> bool {
        self.pending
    }

    /// The external trigger input: active on a rising transition, pulled
    /// toward inactive, nothing pending at power-on.
    pub fn new() -> (r: TriggerInput)
        ensures
            r.edge_spec() == Edge::Rising,
            r.pull_spec() == Pull::Down,
            !r.pending_spec(),
    {
        TriggerInput { edge: Edge::Rising, pull: Pull::Down, pending: false }
    }

    pub fn edge(&self) -> (r: Edge)
        ensures
            r == self.edge_spec(),
    {
        self.edge
    }

    pub fn pull(&self) -> (r: Pull)
        ensures
            r == self.pull_spec(),
    {
        self.pull
    }

    pub fn pending(&self) -> (r: bool)
        ensures
            r == self.pending_spec(),
    {
        self.pending
    }

    /// What the hardware does when the line makes its configured transition:
    /// latch the pending condition. The line is not debounced, so this may
    /// happen several times per physical event.
    pub fn raise_edge(&mut self)
        ensures
            final(self).pending_spec(),
            final(self).edge_spec() == old(self).edge_spec(),
            final(self).pull_spec() == old(self).pull_spec(),
    {
        self.pending = true;
    }

    /// Clear the latched condition. A handler that returns without doing this
    /// is re-entered immediately by the same hardware event.
    pub fn clear_interrupt(&mut self)
        ensures
            !final(self).pending_spec(),
            final(self).edge_spec() == old(self).edge_spec(),
            final(self).pull_spec() == old(self).pull_spec(),
    {
        self.pending = false;
    }
}

} // verus!
