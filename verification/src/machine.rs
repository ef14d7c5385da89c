//! The collector as a state machine: the calls that move it, and the two
//! phases it is seen in from outside.

use crate::collector::CollectorState;
use leptos::prelude::AnyView;
use vstd::prelude::*;

verus! {

/// A call that reaches a collector.
pub enum Call {
    /// A handle's `open`, with the node that its render function built.
    Open(AnyView),
    /// A handle's `close`.
    Close,
    /// The Escape key was released.
    Escape,
}

/// What an observer sees of the slot.
pub enum Phase {
    /// The slot is empty.
    Closed,
    /// The slot holds a renderer.
    Open,
}

impl Phase {
    /// The transitions of the machine. `Closed` is where it starts, and it has
    /// no last state.
    pub open spec fn next(self, call: Call) -> Phase {
        match (self, call) {
            (Phase::Closed, Call::Open(_)) => Phase::Open,
            (Phase::Closed, Call::Close) => Phase::Closed,
            (Phase::Closed, Call::Escape) => Phase::Closed,
            (Phase::Open, Call::Open(_)) => Phase::Open,
            (Phase::Open, Call::Close) => Phase::Closed,
            (Phase::Open, Call::Escape) => Phase::Closed,
        }
    }

    /// The phase after `calls`, taken in order.
    pub open spec fn run(self, calls: Seq<Call>) -> Phase
        decreases calls.len(),
    {
        if calls.len() == 0 {
            self
        } else {
            self.run(calls.drop_last()).next(calls.last())
        }
    }
}

/// How many of `calls` are an `open`.
pub open spec fn opens(calls: Seq<Call>) -> nat
    decreases calls.len(),
{
    if calls.len() == 0 {
        0
    } else if calls.last() is Open {
        opens(calls.drop_last()) + 1
    } else {
        opens(calls.drop_last())
    }
}

impl CollectorState {
    /// The phase that this state is seen in.
    pub open spec fn phase(self) -> Phase {
        if self.is_open() {
            Phase::Open
        } else {
            Phase::Closed
        }
    }

    /// The state after `call`.
    pub open spec fn after(self, call: Call) -> Self {
        match call {
            Call::Open(node) => self.opened(node),
            Call::Close => self.closed(),
            Call::Escape => self.escaped(),
        }
    }

    /// The state after `calls`, taken in order.
    pub open spec fn after_all(self, calls: Seq<Call>) -> Self
        decreases calls.len(),
    {
        if calls.len() == 0 {
            self
        } else {
            self.after_all(calls.drop_last()).after(calls.last())
        }
    }
}

} // verus!
