//! Where an operation stands, and how one event moves it on.

use vstd::prelude::*;
use crate::bus::{Action, Event, Request};
use crate::error::SensorError;
use crate::stage::{Next, Stage};

verus! {

/// A position in an operation: the stage, and how many of its requests have
/// been answered.
#[derive(Debug, Clone, Copy, PartialEq, Eq)]
pub struct Cursor {
    pub stage: Stage,
    pub index: usize,
}

impl Cursor {
    /// A cursor points at a request of its stage; the idle cursor stands at
    /// zero.
    pub open spec fn wf(self) -> bool {
        if self.stage == Stage::Idle {
            self.index == 0
        } else {
            self.index < self.stage.requests().len()
        }
    }

    /// The cursor of a driver with no operation in flight.
    pub open spec fn idle() -> Cursor {
        Cursor { stage: Stage::Idle, index: 0 }
    }

    /// The cursor at the first request of a stage.
    pub open spec fn at_start(stage: Stage) -> Cursor {
        Cursor { stage, index: 0 }
    }

    /// The request that the driver is waiting on, if any.
    pub open spec fn pending(self) -> Option<Request> {
        if self.stage == Stage::Idle {
            None
        } else {
            Some(self.stage.requests()[self.index as int])
        }
    }

    /// What the driver wants while it stands here: its pending request, or
    /// nothing.
    pub open spec fn poll(self) -> Action {
        match self.pending() {
            Some(request) => Action::Perform(request),
            None => Action::Idle,
        }
    }

    /// Where the driver stands and what it wants once a stage is through.
    pub open spec fn arrive(next: Next) -> (Cursor, Action) {
        match next {
            Next::Enter(stage) => (Cursor::at_start(stage), Cursor::at_start(stage).poll()),
            Next::Finish(output) => (Cursor::idle(), Action::Finished(output)),
            Next::Fail(error) => (Cursor::idle(), Action::Failed(error)),
        }
    }

    /// One step of the driver: where it stands after `event`, and what it
    /// wants then.
    ///
    /// With no operation in flight nothing moves. A fault ends the operation
    /// at once with the fault as its error. An event that is no outcome of
    /// the pending request is passed over and the request is asked again, as
    /// it is where the stage repeats. Otherwise the cursor moves to the next
    /// request of the stage, or, past its last, to where the stage leads.
    pub open spec fn step(self, event: Event) -> (Cursor, Action) {
        match self.pending() {
            None => (self, Action::Idle),
            Some(request) => match event {
                Event::Fault(kind) => (Cursor::idle(), Action::Failed(SensorError::Spi(kind))),
                _ => if !request.answered_by(event) || self.stage.repeats(event) {
                    (self, Action::Perform(request))
                } else if self.index + 1 < self.stage.requests().len() {
                    (
                        Cursor { stage: self.stage, index: (self.index + 1) as usize },
                        Action::Perform(self.stage.requests()[self.index + 1]),
                    )
                } else {
                    Cursor::arrive(self.stage.leave(event))
                },
            },
        }
    }

    /// Whether an operation is in flight.
    pub open spec fn busy(self) -> bool {
        self.stage != Stage::Idle
    }

    /// Where the driver stands and what it wants after a call that starts an
    /// operation at `stage`: at the first request of that stage, wherever it
    /// stood before.
    pub open spec fn begin(stage: Stage) -> (Cursor, Action) {
        (Cursor::at_start(stage), Cursor::at_start(stage).poll())
    }

    /// Builds [`Cursor::idle`].
    pub(crate) fn new_idle() -> (cursor: Cursor)
        ensures
            cursor == Cursor::idle(),
            cursor.wf(),
    {
        Cursor { stage: Stage::Idle, index: 0 }
    }

    /// Builds [`Cursor::at_start`].
    pub(crate) fn new_at(stage: Stage) -> (cursor: Cursor)
        requires
            stage != Stage::Idle,
        ensures
            cursor == Cursor::at_start(stage),
            cursor.wf(),
    {
        let count = stage.count();
        Cursor { stage, index: 0 }
    }

    /// Tests [`Cursor::busy`].
    pub fn is_busy(&self) -> (busy: bool)
        ensures
            busy == self.busy(),
    {
        !matches!(self.stage, Stage::Idle)
    }

    /// Computes [`Cursor::poll`].
    pub(crate) fn action(&self) -> (action: Action)
        requires
            self.wf(),
        ensures
            action == self.poll(),
    {
        if self.is_busy() {
            Action::Perform(self.stage.request(self.index))
        } else {
            Action::Idle
        }
    }

    /// Computes [`Cursor::begin`].
    pub(crate) fn start(stage: Stage) -> (result: (Cursor, Action))
        requires
            stage != Stage::Idle,
        ensures
            result == Cursor::begin(stage),
            result.0.wf(),
    {
        let cursor = Cursor::new_at(stage);
        (cursor, cursor.action())
    }

    /// Computes [`Cursor::step`].
    pub(crate) fn advance(self, event: &Event) -> (result: (Cursor, Action))
        requires
            self.wf(),
        ensures
            result == self.step(*event),
            result.0.wf(),
    {
        if !self.is_busy() {
            return (self, Action::Idle);
        }
        if let Event::Fault(kind) = event {
            return (Cursor::new_idle(), Action::Failed(SensorError::from_kind(*kind)));
        }
        let request = self.stage.request(self.index);
        if !request.is_answered_by(event) || self.stage.repeats_on(event) {
            return (self, Action::Perform(request));
        }
        if self.index + 1 < self.stage.count() {
            let cursor = Cursor { stage: self.stage, index: self.index + 1 };
            return (cursor, Action::Perform(self.stage.request(self.index + 1)));
        }
        match self.stage.leave_on(event) {
            Next::Enter(stage) => {
                let cursor = Cursor::new_at(stage);
                (cursor, cursor.action())
            },
            Next::Finish(output) => (Cursor::new_idle(), Action::Finished(output)),
            Next::Fail(error) => (Cursor::new_idle(), Action::Failed(error)),
        }
    }
}

} // verus!
