//! Whole conversations between driver and bus.
//!
//! A dialogue is a sequence of exchanges: what the driver asked for and how
//! the bus answered. [`drive`] says whether the driver holds a given
//! dialogue, and where it stands afterwards.

use vstd::prelude::*;
use embedded_hal_async::spi::ErrorKind;
use crate::bus::{Action, Event, Exchange, Request};
use crate::cursor::Cursor;
use crate::error::SensorError;
use crate::paa5100je::State;
use crate::stage::Stage;

verus! {

/// Where the driver stands, and what it wants, after it has held a
/// dialogue from `state`, where `action` is what it wanted last. `None`
/// where the driver at some point asked for something else than the
/// dialogue says.
pub open spec fn drive(state: State, action: Action, dialogue: Seq<Exchange>) -> Option<
    (State, Action),
>
    decreases dialogue.len(),
{
    if dialogue.len() == 0 {
        Some((state, action))
    } else if action != Action::Perform(dialogue[0].request) {
        None
    } else {
        drive(
            state.step(dialogue[0].event).0,
            state.step(dialogue[0].event).1,
            dialogue.drop_first(),
        )
    }
}

/// The exchanges in which each of `requests` is answered by the event at the
/// same place of `events`.
pub open spec fn answered(requests: Seq<Request>, events: Seq<Event>) -> Seq<Exchange> {
    Seq::new(requests.len(), |i: int| Exchange { request: requests[i], event: events[i] })
}

/// Whether each of `events` is an outcome, other than a fault, of the request
/// at the same place of `requests`.
pub open spec fn answer_all(requests: Seq<Request>, events: Seq<Event>) -> bool {
    &&& events.len() == requests.len()
    &&& forall|i: int| 0 <= i < requests.len() ==> (#[trigger] requests[i]).answered_by(events[i])
}

/// Whether the stage is held in one pass: it is a stage of an operation and
/// never repeats a request.
pub open spec fn straight(stage: Stage) -> bool {
    stage != Stage::Idle && stage != Stage::FrameWait && stage != Stage::FramePixels
}

/// A dialogue made of two parts is held part after part.
pub proof fn lemma_drive_concat(
    state: State,
    action: Action,
    first: Seq<Exchange>,
    second: Seq<Exchange>,
)
    ensures
        drive(state, action, first + second) == match drive(state, action, first) {
            Some((middle, wish)) => drive(middle, wish, second),
            None => None,
        },
    decreases first.len(),
{
    if first.len() == 0 {
        assert(first + second =~= second);
    } else {
        assert((first + second)[0] == first[0]);
        assert((first + second).drop_first() =~= first.drop_first() + second);
        if action == Action::Perform(first[0].request) {
            lemma_drive_concat(
                state.step(first[0].event).0,
                state.step(first[0].event).1,
                first.drop_first(),
                second,
            );
        }
    }
}

/// From any request of a straight stage the driver asks the rest of the
/// stage's requests in order, as long as each is answered, and then stands
/// where the stage leads on its last answer. The frame is not touched.
pub proof fn lemma_rest_of_stage(stage: Stage, index: usize, frame: Seq<u8>, events: Seq<Event>)
    requires
        straight(stage),
        index < stage.requests().len(),
        answer_all(stage.requests().skip(index as int), events),
    ensures
        drive(
            State { cursor: Cursor { stage, index }, frame },
            Action::Perform(stage.requests()[index as int]),
            answered(stage.requests().skip(index as int), events),
        ) == Some(
            (
                State { cursor: Cursor::arrive(stage.leave(events.last())).0, frame },
                Cursor::arrive(stage.leave(events.last())).1,
            ),
        ),
    decreases stage.requests().len() - index,
{
    let requests = stage.requests();
    let rest = requests.skip(index as int);
    let dialogue = answered(rest, events);
    let state = State { cursor: Cursor { stage, index }, frame };
    assert(rest[0] == requests[index as int]);
    assert(rest[0].answered_by(events[0]));
    assert(dialogue[0].request == requests[index as int]);
    assert(dialogue[0].event == events[0]);
    assert(state.painted(events[0]) == frame);
    assert(!stage.repeats(events[0]));
    assert(!(events[0] is Fault));
    assert(state.cursor.pending() == Some(requests[index as int]));
    let after = state.step(events[0]);
    assert(dialogue.len() > 0);
    assert(drive(state, Action::Perform(requests[index as int]), dialogue) == drive(
        after.0,
        after.1,
        dialogue.drop_first(),
    ));
    if index + 1 < requests.len() {
        let next = (index + 1) as usize;
        let later = events.drop_first();
        assert(state.step(events[0]) == (
            State { cursor: Cursor { stage, index: next }, frame },
            Action::Perform(requests[next as int]),
        ));
        assert(requests.skip(next as int) =~= rest.drop_first());
        assert(dialogue.drop_first() =~= answered(requests.skip(next as int), later));
        assert forall|i: int| 0 <= i < requests.skip(next as int).len() implies (
        #[trigger] requests.skip(next as int)[i]).answered_by(later[i]) by {
            assert(rest[i + 1].answered_by(events[i + 1]));
        }
        assert(later.last() == events.last());
        lemma_rest_of_stage(stage, next, frame, later);
    } else {
        assert(dialogue.drop_first() =~= Seq::<Exchange>::empty());
        assert(events.last() == events[0]);
        assert(state.step(events[0]) == (
            State { cursor: Cursor::arrive(stage.leave(events[0])).0, frame },
            Cursor::arrive(stage.leave(events[0])).1,
        ));
    }
}

/// A straight stage, entered at its first request and answered throughout,
/// is held whole; the driver then stands where the stage leads.
pub proof fn lemma_whole_stage(stage: Stage, frame: Seq<u8>, events: Seq<Event>)
    requires
        straight(stage),
        answer_all(stage.requests(), events),
    ensures
        drive(
            State { cursor: Cursor::at_start(stage), frame },
            Cursor::at_start(stage).poll(),
            answered(stage.requests(), events),
        ) == Some(
            (
                State { cursor: Cursor::arrive(stage.leave(events.last())).0, frame },
                Cursor::arrive(stage.leave(events.last())).1,
            ),
        ),
{
    lemma_stage_not_empty(stage);
    assert(stage.requests().skip(0) =~= stage.requests());
    lemma_rest_of_stage(stage, 0, frame, events);
}

/// Every stage of an operation has a request.
pub proof fn lemma_stage_not_empty(stage: Stage)
    requires
        stage != Stage::Idle,
    ensures
        stage.requests().len() > 0,
{
}

/// From any request of a straight stage the driver asks the following
/// requests of the stage in order, as long as each is answered, and stands
/// at the next one when the answers stop short of the stage's end.
pub proof fn lemma_part_of_stage(stage: Stage, index: usize, frame: Seq<u8>, events: Seq<Event>)
    requires
        straight(stage),
        index + events.len() < stage.requests().len(),
        answer_all(stage.requests().subrange(index as int, index + events.len()), events),
    ensures
        drive(
            State { cursor: Cursor { stage, index }, frame },
            Action::Perform(stage.requests()[index as int]),
            answered(stage.requests().subrange(index as int, index + events.len()), events),
        ) == Some(
            (
                State { cursor: Cursor { stage, index: (index + events.len()) as usize }, frame },
                Action::Perform(stage.requests()[index + events.len()]),
            ),
        ),
    decreases events.len(),
{
    let requests = stage.requests();
    let part = requests.subrange(index as int, index + events.len());
    let dialogue = answered(part, events);
    let state = State { cursor: Cursor { stage, index }, frame };
    if events.len() > 0 {
        let next = (index + 1) as usize;
        let later = events.drop_first();
        assert(part[0] == requests[index as int]);
        assert(part[0].answered_by(events[0]));
        assert(dialogue[0].request == requests[index as int]);
        assert(dialogue[0].event == events[0]);
        assert(state.painted(events[0]) == frame);
        assert(!stage.repeats(events[0]));
        assert(!(events[0] is Fault));
        assert(state.cursor.pending() == Some(requests[index as int]));
        assert(state.step(events[0]) == (
            State { cursor: Cursor { stage, index: next }, frame },
            Action::Perform(requests[next as int]),
        ));
        assert(drive(state, Action::Perform(requests[index as int]), dialogue) == drive(
            state.step(events[0]).0,
            state.step(events[0]).1,
            dialogue.drop_first(),
        ));
        let later_part = requests.subrange(next as int, next + later.len());
        assert(later_part =~= part.drop_first());
        assert(dialogue.drop_first() =~= answered(later_part, later));
        assert forall|i: int| 0 <= i < later_part.len() implies (#[trigger] later_part[i]).answered_by(
            later[i],
        ) by {
            assert(part[i + 1].answered_by(events[i + 1]));
        }
        lemma_part_of_stage(stage, next, frame, later);
    }
}

/// A fault ends whatever operation is in flight, at once, with the fault as
/// its error; the frame stays as it is.
pub proof fn lemma_fault_ends_operation(state: State, kind: ErrorKind)
    requires
        state.cursor.busy(),
    ensures
        state.step(Event::Fault(kind)) == (
            State { cursor: Cursor::idle(), frame: state.frame },
            Action::Failed(SensorError::Spi(kind)),
        ),
{
}

/// With no operation in flight the driver asks for nothing, whatever it is
/// told.
pub proof fn lemma_idle_asks_nothing(state: State, event: Event)
    requires
        !state.cursor.busy(),
    ensures
        state.step(event) == (state, Action::Idle),
{
}

/// An event that is no outcome of the pending request, and no fault, moves
/// nothing: the driver asks the same request again.
pub proof fn lemma_stray_event(state: State, event: Event)
    requires
        state.wf(),
        state.cursor.busy(),
        !(event is Fault),
        !state.cursor.pending()->0.answered_by(event),
    ensures
        state.step(event) == (state, Action::Perform(state.cursor.pending()->0)),
{
}

/// Starting an operation gives up whatever was in flight: the driver then
/// stands at the first request of the new operation and asks for it. Only
/// the start of a capture touches the frame.
pub proof fn lemma_start_gives_up_the_rest(state: State, stage: Stage)
    requires
        stage != Stage::Idle,
    ensures
        state.begin(stage).0.cursor == Cursor::at_start(stage),
        state.begin(stage).1 == Action::Perform(stage.requests()[0]),
        stage != Stage::FrameSetup ==> state.begin(stage).0.frame == state.frame,
{
}

/// A fault in the middle of a straight stage: the requests before it have
/// been asked in order, the one that failed is the last that is asked, and
/// the operation ends with the fault as its error.
pub proof fn lemma_fault_stops_stage(
    stage: Stage,
    frame: Seq<u8>,
    events: Seq<Event>,
    kind: ErrorKind,
)
    requires
        straight(stage),
        events.len() < stage.requests().len(),
        answer_all(stage.requests().take(events.len() as int), events),
    ensures
        drive(
            State { cursor: Cursor::at_start(stage), frame },
            Cursor::at_start(stage).poll(),
            answered(stage.requests().take(events.len() as int), events).push(
                Exchange {
                    request: stage.requests()[events.len() as int],
                    event: Event::Fault(kind),
                },
            ),
        ) == Some(
            (
                State { cursor: Cursor::idle(), frame },
                Action::Failed(SensorError::Spi(kind)),
            ),
        ),
{
    let requests = stage.requests();
    let count = events.len();
    let before = answered(requests.take(count as int), events);
    let last = seq![Exchange { request: requests[count as int], event: Event::Fault(kind) }];
    let start = State { cursor: Cursor::at_start(stage), frame };
    let wish = Cursor::at_start(stage).poll();
    let middle = State { cursor: Cursor { stage, index: count as usize }, frame };
    assert(requests.take(count as int) =~= requests.subrange(0, 0 + count as int));
    lemma_part_of_stage(stage, 0, frame, events);
    lemma_drive_concat(start, wish, before, last);
    assert(before.push(last[0]) =~= before + last);
    assert(last.drop_first() =~= Seq::<Exchange>::empty());
    assert(drive(middle, Action::Perform(requests[count as int]), last) == drive(
        middle.step(last[0].event).0,
        middle.step(last[0].event).1,
        last.drop_first(),
    ));
}

} // verus!
