//! The PAA5100JE: the state that the driver keeps for one chip.

use vstd::prelude::*;
use crate::bus::{Action, Event};
use crate::cursor::Cursor;
use crate::frame::{merge_fragment, merged, Canvas, FRAME_SIZE};
use crate::stage::Stage;

verus! {

/// What the driver knows of one chip: where the operation in flight stands,
/// and the frame that the last capture assembled or the current one is
/// assembling.
pub struct State {
    pub cursor: Cursor,
    pub frame: Seq<u8>,
}

impl State {
    /// A state has a whole frame and a cursor that points at a request.
    pub open spec fn wf(self) -> bool {
        self.cursor.wf() && self.frame.len() == FRAME_SIZE
    }

    /// The frame after `event`. Only a fragment that arrives while pixels
    /// are collected changes it: the fragment is merged into the pixel under
    /// assembly.
    pub open spec fn painted(self, event: Event) -> Seq<u8> {
        match event {
            Event::Byte(fragment) => if self.cursor.stage == Stage::FramePixels && self.cursor.index
                < self.frame.len() {
                self.frame.update(
                    self.cursor.index as int,
                    merged(self.frame[self.cursor.index as int], fragment),
                )
            } else {
                self.frame
            },
            _ => self.frame,
        }
    }

    /// One step of the driver: the state after `event`, and what the driver
    /// wants then. The cursor moves as [`Cursor::step`] says.
    pub open spec fn step(self, event: Event) -> (State, Action) {
        (
            State { cursor: self.cursor.step(event).0, frame: self.painted(event) },
            self.cursor.step(event).1,
        )
    }

    /// The state and the driver's wish after a call that starts an operation
    /// at `stage`. Whatever was in flight is given up. A capture starts from
    /// a blank frame; every other operation leaves the frame as it is.
    pub open spec fn begin(self, stage: Stage) -> (State, Action) {
        (
            State {
                cursor: Cursor::begin(stage).0,
                frame: if stage == Stage::FrameSetup {
                    Canvas::blank().pixels
                } else {
                    self.frame
                },
            },
            Cursor::begin(stage).1,
        )
    }

    /// The state of a driver that has just been made: initialisation is in
    /// flight and stands at its first request.
    pub open spec fn fresh() -> State {
        State { cursor: Cursor::at_start(Stage::Reset), frame: Canvas::blank().pixels }
    }
}

/// The driver's state for one PAA5100JE.
pub struct Paa5100je {
    cursor: Cursor,
    frame: [u8; FRAME_SIZE],
}

impl View for Paa5100je {
    type V = State;

    closed spec fn view(&self) -> State {
        State { cursor: self.cursor, frame: self.frame@ }
    }
}

impl Paa5100je {
    #[verifier::type_invariant]
    spec fn inv(self) -> bool {
        self.cursor.wf()
    }

    /// A driver with initialisation in flight.
    pub fn new() -> (chip: Paa5100je)
        ensures
            chip@ == State::fresh(),
            chip@.wf(),
    {
        let chip = Paa5100je { cursor: Cursor::new_at(Stage::Reset), frame: [0u8; FRAME_SIZE] };
        assert(chip.frame@ =~= Canvas::blank().pixels);
        chip
    }

    /// Starts an operation at `stage`.
    pub(crate) fn begin(&mut self, stage: Stage) -> (action: Action)
        requires
            stage != Stage::Idle,
        ensures
            (final(self)@, action) == old(self)@.begin(stage),
            old(self)@.wf(),
            final(self)@.wf(),
    {
        proof {
            use_type_invariant(&*self);
        }
        if matches!(stage, Stage::FrameSetup) {
            self.frame = [0u8; FRAME_SIZE];
            assert(self.frame@ =~= Canvas::blank().pixels);
        }
        let (cursor, action) = Cursor::start(stage);
        self.cursor = cursor;
        action
    }

    /// Takes the outcome of the pending request and says what to do next.
    pub fn resume(&mut self, event: Event) -> (action: Action)
        ensures
            (final(self)@, action) == old(self)@.step(event),
            old(self)@.wf(),
            final(self)@.wf(),
    {
        proof {
            use_type_invariant(&*self);
        }
        if let Event::Byte(fragment) = event {
            if matches!(self.cursor.stage, Stage::FramePixels) {
                let index = self.cursor.index;
                let pixel = self.frame[index];
                self.frame[index] = merge_fragment(pixel, fragment);
            }
        }
        let (cursor, action) = self.cursor.advance(&event);
        self.cursor = cursor;
        action
    }

    /// What the driver is waiting for.
    pub fn poll(&self) -> (action: Action)
        ensures
            action == self@.cursor.poll(),
            self@.wf(),
    {
        proof {
            use_type_invariant(self);
        }
        self.cursor.action()
    }

    /// The frame that the last capture assembled.
    pub fn frame(&self) -> (frame: &[u8; FRAME_SIZE])
        ensures
            frame@ == self@.frame,
            self@.wf(),
    {
        proof {
            use_type_invariant(self);
        }
        &self.frame
    }
}

/// A step leads from a well-formed state to a well-formed state.
pub proof fn lemma_step_keeps_wf(state: State, event: Event)
    requires
        state.wf(),
    ensures
        state.step(event).0.wf(),
{
}

/// Starting an operation leads from a well-formed state to a well-formed
/// state.
pub proof fn lemma_begin_keeps_wf(state: State, stage: Stage)
    requires
        state.wf(),
        stage != Stage::Idle,
    ensures
        state.begin(stage).0.wf(),
{
}

/// Collecting pixels is assembling a frame: a fragment that arrives moves
/// frame and cursor as [`Canvas::absorb`] moves pixels and their count.
pub proof fn lemma_fragment_is_absorbed(state: State, fragment: u8)
    requires
        state.wf(),
        state.cursor.stage == Stage::FramePixels,
    ensures
        state.painted(Event::Byte(fragment)) == (Canvas {
            pixels: state.frame,
            filled: state.cursor.index as nat,
        }).absorb(fragment).pixels,
        state.step(Event::Byte(fragment)).0.cursor.busy() ==> state.step(
            Event::Byte(fragment),
        ).0.cursor.index == (Canvas {
            pixels: state.frame,
            filled: state.cursor.index as nat,
        }).absorb(fragment).filled,
{
}

} // verus!
