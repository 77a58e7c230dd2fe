//! The dialogues of the driver's operations, written out, and the proof that
//! the driver holds each of them.

use vstd::prelude::*;
use crate::bus::{read_bulk, write_bulk, Action, Event, Exchange, Output, Request};
use crate::frame::{
    all_tagged, interleaved, lemma_alternating_stream, pixel_of, Canvas, FRAME_SIZE, TAG_LOWER,
    TAG_UPPER,
};
use crate::motion::motion_of;
use crate::calibration::{
    block_c, patch_for, trimmed_first, trimmed_second, BLOCK_A, BLOCK_B, BLOCK_D, BLOCK_E,
    BLOCK_F, PATCH_PROBE, PATCH_REGISTER, TRIM_FIRST, TRIM_PROBE, TRIM_SECOND,
};
use crate::cursor::Cursor;
use crate::dialogue::{
    answer_all, answered, drive, lemma_drive_concat, lemma_whole_stage, straight,
};
use crate::error::SensorError;
use crate::identity::Id;
use crate::paa5100je::State;
use crate::register::{
    MOTION, MOTION_BURST, ORIENTATION, POWER_UP_RESET, PRODUCT_ID, PRODUCT_REVISION,
    RAW_DATA_GRAB, RAW_DATA_GRAB_STATUS,
};
use crate::rotation::RotationDegrees;
use crate::stage::{
    Stage, BODY_SETTLE_MS, FLUSH_COUNT, FRAME_READY_MASK, FRAME_SETTLE_MS, FRAME_SETUP,
    FRAME_START_COMMAND, FRAME_TRIGGER, RESET_COMMAND, RESET_SETTLE_MS, TAIL_SETTLE_MS,
};

verus! {

/// `count` times done.
pub open spec fn dones(count: nat) -> Seq<Event> {
    Seq::new(count, |i: int| Event::Done)
}

/// One byte event for each of `values`.
pub open spec fn bytes(values: Seq<u8>) -> Seq<Event> {
    Seq::new(values.len(), |i: int| Event::Byte(values[i]))
}

/// The pairs of a table written in order, each write done.
pub open spec fn written(table: Seq<(u8, u8)>) -> Seq<Exchange> {
    answered(write_bulk(table), dones(table.len()))
}

/// One register read, which brings `value`.
pub open spec fn read_as(register: u8, value: u8) -> Seq<Exchange> {
    answered(read_bulk(register, 1), bytes(seq![value]))
}

/// Registers read in a row from `start` upwards, which bring `values`.
pub open spec fn read_row(start: u8, values: Seq<u8>) -> Seq<Exchange> {
    answered(read_bulk(start, values.len()), bytes(values))
}

/// One delay, which passes.
pub open spec fn waited(ms: u32) -> Seq<Exchange> {
    answered(seq![Request::Delay { ms }], dones(1))
}

/// One register read once for each of `values`, which the reads bring in
/// order.
pub open spec fn read_again(register: u8, values: Seq<u8>) -> Seq<Exchange> {
    Seq::new(
        values.len(),
        |i: int| Exchange { request: Request::read_of(register), event: Event::Byte(values[i]) },
    )
}

/// One burst read, which brings `burst`.
pub open spec fn burst_read_as(address: u8, burst: [u8; 12]) -> Seq<Exchange> {
    seq![Exchange { request: Request::ReadBurst { address }, event: Event::Burst(burst) }]
}

/// What the chip's registers hold while it is initialised.
pub struct Readings {
    /// The five registers from the motion register upwards.
    pub stale: Seq<u8>,
    /// The register that decides the patch.
    pub patch_probe: u8,
    /// The register that decides whether to trim.
    pub trim_probe: u8,
    /// The first value to trim.
    pub raw_first: u8,
    /// The second value to trim.
    pub raw_second: u8,
    /// Product id and revision.
    pub id: Id,
}

/// First part of the recipe: the opening table, the probe, and the patch
/// that the probe decides.
pub open spec fn patching(patch_probe: u8) -> Seq<Exchange> {
    written(BLOCK_A@) + read_as(PATCH_PROBE, patch_probe) + written(
        seq![(PATCH_REGISTER, patch_for(patch_probe))],
    )
}

/// Second part of the recipe: a table, a probe, and, only where the probe
/// reads zero, two values read, trimmed and written back behind the head of
/// the trim block.
pub open spec fn trimming(trim_probe: u8, raw_first: u8, raw_second: u8) -> Seq<Exchange> {
    written(BLOCK_B@) + read_as(TRIM_PROBE, trim_probe) + if trim_probe == 0 {
        read_as(TRIM_FIRST, raw_first) + read_as(TRIM_SECOND, raw_second) + written(
            block_c(trimmed_first(raw_first), trimmed_second(raw_second)),
        )
    } else {
        Seq::<Exchange>::empty()
    }
}

/// Last part of the recipe: the main body, ten milliseconds, the second
/// part, 240 milliseconds, and the close.
pub open spec fn tuning() -> Seq<Exchange> {
    written(BLOCK_D@) + waited(BODY_SETTLE_MS) + written(BLOCK_E@) + waited(TAIL_SETTLE_MS)
        + written(BLOCK_F@)
}

/// The whole calibration recipe.
pub open spec fn calibration(readings: Readings) -> Seq<Exchange> {
    patching(readings.patch_probe) + trimming(
        readings.trim_probe,
        readings.raw_first,
        readings.raw_second,
    ) + tuning()
}

/// Initialisation from reset to the default orientation. The orientation is
/// written only where the identification is that of a PAA5100JE.
pub open spec fn initialisation(readings: Readings) -> Seq<Exchange> {
    written(seq![(POWER_UP_RESET, RESET_COMMAND)]) + waited(RESET_SETTLE_MS) + read_row(
        MOTION,
        readings.stale,
    ) + calibration(readings) + read_as(PRODUCT_ID, readings.id.product_id) + read_as(
        PRODUCT_REVISION,
        readings.id.revision,
    ) + if readings.id.is_paa5100je() {
        written(seq![(ORIENTATION, RotationDegrees::_0.orientation())])
    } else {
        Seq::<Exchange>::empty()
    }
}

/// How initialisation ends: well where the identification is that of a
/// PAA5100JE, with the identification as the error where it is not.
pub open spec fn initialisation_outcome(id: Id) -> Action {
    if id.is_paa5100je() {
        Action::Finished(Output::Ready)
    } else {
        Action::Failed(SensorError::InvalidId(id))
    }
}

/// A dialogue that has brought the driver to the start of a straight stage
/// goes on through that stage.
pub proof fn lemma_then_stage(
    start: State,
    wish: Action,
    so_far: Seq<Exchange>,
    stage: Stage,
    frame: Seq<u8>,
    events: Seq<Event>,
)
    requires
        drive(start, wish, so_far) == Some(
            (State { cursor: Cursor::at_start(stage), frame }, Cursor::at_start(stage).poll()),
        ),
        straight(stage),
        answer_all(stage.requests(), events),
    ensures
        drive(start, wish, so_far + answered(stage.requests(), events)) == Some(
            (
                State { cursor: Cursor::arrive(stage.leave(events.last())).0, frame },
                Cursor::arrive(stage.leave(events.last())).1,
            ),
        ),
{
    lemma_whole_stage(stage, frame, events);
    lemma_drive_concat(start, wish, so_far, answered(stage.requests(), events));
}

/// A dialogue in two parts, where the first part brings the driver to where
/// the second starts.
pub proof fn lemma_then(
    start: State,
    wish: Action,
    first: Seq<Exchange>,
    middle: State,
    middle_wish: Action,
    second: Seq<Exchange>,
)
    requires
        drive(start, wish, first) == Some((middle, middle_wish)),
    ensures
        drive(start, wish, first + second) == drive(middle, middle_wish, second),
{
    lemma_drive_concat(start, wish, first, second);
}

/// The driver holds the first part of the recipe and then stands at the
/// second table.
pub proof fn lemma_patching(frame: Seq<u8>, patch_probe: u8)
    ensures
        drive(
            State { cursor: Cursor::at_start(Stage::BlockA), frame },
            Cursor::at_start(Stage::BlockA).poll(),
            patching(patch_probe),
        ) == Some(
            (
                State { cursor: Cursor::at_start(Stage::BlockB), frame },
                Cursor::at_start(Stage::BlockB).poll(),
            ),
        ),
{
    let start = State { cursor: Cursor::at_start(Stage::BlockA), frame };
    let wish = Cursor::at_start(Stage::BlockA).poll();
    let none = Seq::<Exchange>::empty();
    let d1 = written(BLOCK_A@);
    assert(none + d1 =~= d1);
    lemma_then_stage(start, wish, none, Stage::BlockA, frame, dones(5));
    let d2 = d1 + read_as(PATCH_PROBE, patch_probe);
    lemma_then_stage(start, wish, d1, Stage::PatchProbe, frame, bytes(seq![patch_probe]));
    lemma_then_stage(
        start,
        wish,
        d2,
        Stage::Patch { value: patch_for(patch_probe) },
        frame,
        dones(1),
    );
}

/// The driver holds the second part of the recipe, with the trim block or
/// without it as the probe decides, and then stands at the main body.
pub proof fn lemma_trimming(frame: Seq<u8>, trim_probe: u8, raw_first: u8, raw_second: u8)
    ensures
        drive(
            State { cursor: Cursor::at_start(Stage::BlockB), frame },
            Cursor::at_start(Stage::BlockB).poll(),
            trimming(trim_probe, raw_first, raw_second),
        ) == Some(
            (
                State { cursor: Cursor::at_start(Stage::BlockD), frame },
                Cursor::at_start(Stage::BlockD).poll(),
            ),
        ),
{
    let start = State { cursor: Cursor::at_start(Stage::BlockB), frame };
    let wish = Cursor::at_start(Stage::BlockB).poll();
    let none = Seq::<Exchange>::empty();
    let d1 = written(BLOCK_B@);
    assert(none + d1 =~= d1);
    lemma_then_stage(start, wish, none, Stage::BlockB, frame, dones(5));
    let d2 = d1 + read_as(TRIM_PROBE, trim_probe);
    lemma_then_stage(start, wish, d1, Stage::TrimProbe, frame, bytes(seq![trim_probe]));
    if trim_probe == 0 {
        let first = trimmed_first(raw_first);
        let second = trimmed_second(raw_second);
        let t1 = read_as(TRIM_FIRST, raw_first);
        let t2 = t1 + read_as(TRIM_SECOND, raw_second);
        let t3 = t2 + written(block_c(first, second));
        let middle = State { cursor: Cursor::at_start(Stage::TrimFirst), frame };
        let middle_wish = Cursor::at_start(Stage::TrimFirst).poll();
        assert(none + t1 =~= t1);
        lemma_then_stage(middle, middle_wish, none, Stage::TrimFirst, frame, bytes(seq![raw_first]));
        lemma_then_stage(
            middle,
            middle_wish,
            t1,
            Stage::TrimSecond { first },
            frame,
            bytes(seq![raw_second]),
        );
        lemma_then_stage(middle, middle_wish, t2, Stage::BlockC { first, second }, frame, dones(6));
        lemma_then(start, wish, d2, middle, middle_wish, t3);
    } else {
        assert(d2 + none =~= d2);
    }
}

/// The driver holds the last part of the recipe and then stands at the
/// check of the product id.
pub proof fn lemma_tuning(frame: Seq<u8>)
    ensures
        drive(
            State { cursor: Cursor::at_start(Stage::BlockD), frame },
            Cursor::at_start(Stage::BlockD).poll(),
            tuning(),
        ) == Some(
            (
                State { cursor: Cursor::at_start(Stage::CheckProduct), frame },
                Cursor::at_start(Stage::CheckProduct).poll(),
            ),
        ),
{
    let start = State { cursor: Cursor::at_start(Stage::BlockD), frame };
    let wish = Cursor::at_start(Stage::BlockD).poll();
    let none = Seq::<Exchange>::empty();
    let d1 = written(BLOCK_D@);
    assert(none + d1 =~= d1);
    lemma_then_stage(start, wish, none, Stage::BlockD, frame, dones(59));
    let d2 = d1 + waited(BODY_SETTLE_MS);
    lemma_then_stage(start, wish, d1, Stage::BodySettle, frame, dones(1));
    let d3 = d2 + written(BLOCK_E@);
    lemma_then_stage(start, wish, d2, Stage::BlockE, frame, dones(14));
    let d4 = d3 + waited(TAIL_SETTLE_MS);
    lemma_then_stage(start, wish, d3, Stage::TailSettle, frame, dones(1));
    lemma_then_stage(start, wish, d4, Stage::BlockF, frame, dones(3));
}

/// The driver holds the whole calibration recipe, whatever the chip's
/// registers read: from the opening table it asks exactly the requests of
/// [`calibration`], in that order, and then stands at the check of the
/// product id.
pub proof fn lemma_calibration(frame: Seq<u8>, readings: Readings)
    ensures
        drive(
            State { cursor: Cursor::at_start(Stage::BlockA), frame },
            Cursor::at_start(Stage::BlockA).poll(),
            calibration(readings),
        ) == Some(
            (
                State { cursor: Cursor::at_start(Stage::CheckProduct), frame },
                Cursor::at_start(Stage::CheckProduct).poll(),
            ),
        ),
{
    let start = State { cursor: Cursor::at_start(Stage::BlockA), frame };
    let wish = Cursor::at_start(Stage::BlockA).poll();
    let at_b = State { cursor: Cursor::at_start(Stage::BlockB), frame };
    let at_d = State { cursor: Cursor::at_start(Stage::BlockD), frame };
    let d1 = patching(readings.patch_probe);
    let d2 = trimming(readings.trim_probe, readings.raw_first, readings.raw_second);
    lemma_patching(frame, readings.patch_probe);
    lemma_trimming(frame, readings.trim_probe, readings.raw_first, readings.raw_second);
    lemma_tuning(frame);
    lemma_then(start, wish, d1, at_b, Cursor::at_start(Stage::BlockB).poll(), d2);
    lemma_then(start, wish, d1 + d2, at_d, Cursor::at_start(Stage::BlockD).poll(), tuning());
}

/// The driver holds the whole of initialisation. Started by
/// [`crate::sensor::PixArtSensor::wake`], wherever the sensor stood, it asks exactly the requests of [`initialisation`], in that order, and
/// ends as [`initialisation_outcome`] says, with nothing in flight and the
/// frame as it was.
pub proof fn lemma_initialisation(before: State, readings: Readings)
    requires
        readings.stale.len() == FLUSH_COUNT,
    ensures
        drive(
            before.begin(Stage::Reset).0,
            before.begin(Stage::Reset).1,
            initialisation(readings),
        ) == Some(
            (
                State { cursor: Cursor::idle(), frame: before.frame },
                initialisation_outcome(readings.id),
            ),
        ),
{
    let frame = before.frame;
    let start = before.begin(Stage::Reset).0;
    let wish = before.begin(Stage::Reset).1;
    let none = Seq::<Exchange>::empty();
    let id = readings.id;
    let d1 = written(seq![(POWER_UP_RESET, RESET_COMMAND)]);
    assert(none + d1 =~= d1);
    lemma_then_stage(start, wish, none, Stage::Reset, frame, dones(1));
    let d2 = d1 + waited(RESET_SETTLE_MS);
    lemma_then_stage(start, wish, d1, Stage::ResetSettle, frame, dones(1));
    let d3 = d2 + read_row(MOTION, readings.stale);
    lemma_then_stage(start, wish, d2, Stage::Flush, frame, bytes(readings.stale));
    let d4 = d3 + calibration(readings);
    lemma_calibration(frame, readings);
    lemma_then(
        start,
        wish,
        d3,
        State { cursor: Cursor::at_start(Stage::BlockA), frame },
        Cursor::at_start(Stage::BlockA).poll(),
        calibration(readings),
    );
    let d5 = d4 + read_as(PRODUCT_ID, id.product_id);
    lemma_then_stage(start, wish, d4, Stage::CheckProduct, frame, bytes(seq![id.product_id]));
    let d6 = d5 + read_as(PRODUCT_REVISION, id.revision);
    lemma_then_stage(
        start,
        wish,
        d5,
        Stage::CheckRevision { product_id: id.product_id },
        frame,
        bytes(seq![id.revision]),
    );
    assert(Id { product_id: id.product_id, revision: id.revision } == id);
    if id.is_paa5100je() {
        lemma_then_stage(
            start,
            wish,
            d6,
            Stage::Rotate { bits: RotationDegrees::_0.orientation() },
            frame,
            dones(1),
        );
    } else {
        assert(d6 + none =~= d6);
    }
}

/// A sensor that has just been made holds the whole of initialisation.
pub proof fn lemma_fresh_sensor(readings: Readings)
    requires
        readings.stale.len() == FLUSH_COUNT,
    ensures
        drive(State::fresh(), State::fresh().cursor.poll(), initialisation(readings)) == Some(
            (
                State { cursor: Cursor::idle(), frame: State::fresh().frame },
                initialisation_outcome(readings.id),
            ),
        ),
{
    let before = State { cursor: Cursor::idle(), frame: State::fresh().frame };
    lemma_initialisation(before, readings);
}

/// Reading the identification: the product id, then the revision.
pub open spec fn identification(id: Id) -> Seq<Exchange> {
    read_as(PRODUCT_ID, id.product_id) + read_as(PRODUCT_REVISION, id.revision)
}

/// Setting a rotation: one write of the orientation register.
pub open spec fn rotation(rotation: RotationDegrees) -> Seq<Exchange> {
    written(seq![(ORIENTATION, rotation.orientation())])
}

/// Reading motion: one burst read of twelve bytes.
pub open spec fn motion(burst: [u8; 12]) -> Seq<Exchange> {
    burst_read_as(MOTION_BURST, burst)
}

/// How a motion read ends: with the motion where the sample is reliable,
/// with [`SensorError::InvalidMotion`] where it is not.
pub open spec fn motion_outcome(burst: [u8; 12]) -> Action {
    match motion_of(burst@) {
        Ok(delta) => Action::Finished(Output::Motion(delta)),
        Err(error) => Action::Failed(error),
    }
}

/// Capturing a frame: the switch to frame-grab mode, ten milliseconds, the
/// trigger, the status read until it shows a frame, the start of the stream,
/// and the fragments.
pub open spec fn capture(waits: Seq<u8>, ready: u8, stream: Seq<u8>) -> Seq<Exchange> {
    written(FRAME_SETUP@) + waited(FRAME_SETTLE_MS) + written(FRAME_TRIGGER@) + read_again(
        RAW_DATA_GRAB_STATUS,
        waits.push(ready),
    ) + written(seq![(RAW_DATA_GRAB, FRAME_START_COMMAND)]) + read_again(RAW_DATA_GRAB, stream)
}

/// Whether none of the status bytes shows a frame.
pub open spec fn all_waiting(waits: Seq<u8>) -> bool {
    forall|i: int| 0 <= i < waits.len() ==> (#[trigger] waits[i] & FRAME_READY_MASK) == 0
}

/// The driver reads product id and revision and reports them as they are:
/// whether they are those of a PAA5100JE is not asked here.
pub proof fn lemma_identification(before: State, id: Id)
    ensures
        drive(
            before.begin(Stage::IdProduct).0,
            before.begin(Stage::IdProduct).1,
            identification(id),
        ) == Some(
            (
                State { cursor: Cursor::idle(), frame: before.frame },
                Action::Finished(Output::Identified(id)),
            ),
        ),
{
    let frame = before.frame;
    let start = before.begin(Stage::IdProduct).0;
    let wish = before.begin(Stage::IdProduct).1;
    let none = Seq::<Exchange>::empty();
    let d1 = read_as(PRODUCT_ID, id.product_id);
    assert(none + d1 =~= d1);
    lemma_then_stage(start, wish, none, Stage::IdProduct, frame, bytes(seq![id.product_id]));
    lemma_then_stage(
        start,
        wish,
        d1,
        Stage::IdRevision { product_id: id.product_id },
        frame,
        bytes(seq![id.revision]),
    );
    assert(Id { product_id: id.product_id, revision: id.revision } == id);
}

/// Setting a rotation is one write of the orientation register with the
/// bits of that rotation, and nothing else.
pub proof fn lemma_rotation(before: State, angle: RotationDegrees)
    ensures
        drive(
            before.begin(Stage::Rotate { bits: angle.orientation() }).0,
            before.begin(Stage::Rotate { bits: angle.orientation() }).1,
            rotation(angle),
        ) == Some(
            (State { cursor: Cursor::idle(), frame: before.frame }, Action::Finished(Output::Ready)),
        ),
        rotation(angle).len() == 1,
        rotation(angle)[0].request == Request::write_of(ORIENTATION, angle.orientation()),
{
    let stage = Stage::Rotate { bits: angle.orientation() };
    let frame = before.frame;
    let none = Seq::<Exchange>::empty();
    assert(none + rotation(angle) =~= rotation(angle));
    lemma_then_stage(before.begin(stage).0, before.begin(stage).1, none, stage, frame, dones(1));
}

/// Reading motion is one burst read; what it brings decides the outcome.
pub proof fn lemma_motion(before: State, burst: [u8; 12])
    ensures
        drive(before.begin(Stage::Motion).0, before.begin(Stage::Motion).1, motion(burst)) == Some(
            (State { cursor: Cursor::idle(), frame: before.frame }, motion_outcome(burst)),
        ),
{
    let frame = before.frame;
    let none = Seq::<Exchange>::empty();
    let events = seq![Event::Burst(burst)];
    assert(motion(burst) =~= answered(Stage::Motion.requests(), events));
    assert(none + motion(burst) =~= motion(burst));
    lemma_then_stage(
        before.begin(Stage::Motion).0,
        before.begin(Stage::Motion).1,
        none,
        Stage::Motion,
        frame,
        events,
    );
}

/// While the status shows no frame the driver reads it again; the first
/// status that shows one lets it start the stream.
pub proof fn lemma_waiting(frame: Seq<u8>, waits: Seq<u8>, ready: u8)
    requires
        all_waiting(waits),
        (ready & FRAME_READY_MASK) != 0,
    ensures
        drive(
            State { cursor: Cursor::at_start(Stage::FrameWait), frame },
            Cursor::at_start(Stage::FrameWait).poll(),
            read_again(RAW_DATA_GRAB_STATUS, waits.push(ready)),
        ) == Some(
            (
                State { cursor: Cursor::at_start(Stage::FrameStart), frame },
                Cursor::at_start(Stage::FrameStart).poll(),
            ),
        ),
    decreases waits.len(),
{
    let state = State { cursor: Cursor::at_start(Stage::FrameWait), frame };
    let wish = Cursor::at_start(Stage::FrameWait).poll();
    let values = waits.push(ready);
    let dialogue = read_again(RAW_DATA_GRAB_STATUS, values);
    let event = Event::Byte(values[0]);
    assert(dialogue[0].request == Request::read_of(RAW_DATA_GRAB_STATUS));
    assert(dialogue[0].event == event);
    assert(state.cursor.pending() == Some(Request::read_of(RAW_DATA_GRAB_STATUS)));
    assert(state.painted(event) == frame);
    assert(drive(state, wish, dialogue) == drive(
        state.step(event).0,
        state.step(event).1,
        dialogue.drop_first(),
    ));
    if waits.len() == 0 {
        assert(values[0] == ready);
        assert(dialogue.drop_first() =~= Seq::<Exchange>::empty());
        assert(state.step(event) == (
            State { cursor: Cursor::at_start(Stage::FrameStart), frame },
            Cursor::at_start(Stage::FrameStart).poll(),
        ));
    } else {
        assert(values[0] == waits[0]);
        assert((waits[0] & FRAME_READY_MASK) == 0);
        assert(state.step(event) == (state, wish));
        let later = waits.drop_first();
        assert(later.push(ready) =~= values.drop_first());
        assert(dialogue.drop_first() =~= read_again(RAW_DATA_GRAB_STATUS, later.push(ready)));
        assert forall|i: int| 0 <= i < later.len() implies (#[trigger] later[i] & FRAME_READY_MASK)
            == 0 by {
            assert((waits[i + 1] & FRAME_READY_MASK) == 0);
        }
        lemma_waiting(frame, later, ready);
    }
}

/// While pixels are missing the driver reads fragment after fragment and
/// merges each into the frame; the fragment that completes the last pixel
/// ends the capture.
pub proof fn lemma_collecting(frame: Seq<u8>, index: usize, stream: Seq<u8>)
    requires
        frame.len() == FRAME_SIZE,
        index < FRAME_SIZE,
        (Canvas { pixels: frame, filled: index as nat }).filled_by(stream),
    ensures
        drive(
            State { cursor: Cursor { stage: Stage::FramePixels, index }, frame },
            Action::Perform(Request::read_of(RAW_DATA_GRAB)),
            read_again(RAW_DATA_GRAB, stream),
        ) == Some(
            (
                State {
                    cursor: Cursor::idle(),
                    frame: (Canvas { pixels: frame, filled: index as nat }).absorb_all(
                        stream,
                    ).pixels,
                },
                Action::Finished(Output::Frame),
            ),
        ),
    decreases stream.len(),
{
    let canvas = Canvas { pixels: frame, filled: index as nat };
    let state = State { cursor: Cursor { stage: Stage::FramePixels, index }, frame };
    let wish = Action::Perform(Request::read_of(RAW_DATA_GRAB));
    let dialogue = read_again(RAW_DATA_GRAB, stream);
    let event = Event::Byte(stream[0]);
    let after = canvas.absorb(stream[0]);
    assert(dialogue[0].request == Request::read_of(RAW_DATA_GRAB));
    assert(dialogue[0].event == event);
    assert(state.cursor.pending() == Some(Request::read_of(RAW_DATA_GRAB)));
    assert(state.painted(event) == after.pixels);
    assert(drive(state, wish, dialogue) == drive(
        state.step(event).0,
        state.step(event).1,
        dialogue.drop_first(),
    ));
    assert(canvas.absorb_all(stream) == after.absorb_all(stream.drop_first()));
    if stream.len() == 1 {
        assert(dialogue.drop_first() =~= Seq::<Exchange>::empty());
        assert(stream.drop_first() =~= Seq::<u8>::empty());
        assert(after.full());
        assert(state.step(event) == (
            State { cursor: Cursor::idle(), frame: after.pixels },
            Action::Finished(Output::Frame),
        ));
    } else {
        let later = stream.drop_first();
        assert(after.filled_by(later));
        assert(!after.full());
        assert(dialogue.drop_first() =~= read_again(RAW_DATA_GRAB, later));
        assert(state.step(event) == (
            State {
                cursor: Cursor { stage: Stage::FramePixels, index: after.filled as usize },
                frame: after.pixels,
            },
            wish,
        ));
        lemma_collecting(after.pixels, after.filled as usize, later);
    }
}

/// The driver holds a whole capture. However often the status shows no
/// frame, it is read again; once it shows one, the stream is started and
/// read until its fragments have filled a blank frame. The capture then ends
/// with the frame that the fragments make.
pub proof fn lemma_capture(before: State, waits: Seq<u8>, ready: u8, stream: Seq<u8>)
    requires
        all_waiting(waits),
        (ready & FRAME_READY_MASK) != 0,
        Canvas::blank().filled_by(stream),
    ensures
        drive(
            before.begin(Stage::FrameSetup).0,
            before.begin(Stage::FrameSetup).1,
            capture(waits, ready, stream),
        ) == Some(
            (
                State {
                    cursor: Cursor::idle(),
                    frame: Canvas::blank().absorb_all(stream).pixels,
                },
                Action::Finished(Output::Frame),
            ),
        ),
{
    let frame = Canvas::blank().pixels;
    let start = before.begin(Stage::FrameSetup).0;
    let wish = before.begin(Stage::FrameSetup).1;
    let none = Seq::<Exchange>::empty();
    let d1 = written(FRAME_SETUP@);
    assert(none + d1 =~= d1);
    lemma_then_stage(start, wish, none, Stage::FrameSetup, frame, dones(8));
    let d2 = d1 + waited(FRAME_SETTLE_MS);
    lemma_then_stage(start, wish, d1, Stage::FrameSettle, frame, dones(1));
    let d3 = d2 + written(FRAME_TRIGGER@);
    lemma_then_stage(start, wish, d2, Stage::FrameTrigger, frame, dones(2));
    let d4 = d3 + read_again(RAW_DATA_GRAB_STATUS, waits.push(ready));
    lemma_waiting(frame, waits, ready);
    lemma_then(
        start,
        wish,
        d3,
        State { cursor: Cursor::at_start(Stage::FrameWait), frame },
        Cursor::at_start(Stage::FrameWait).poll(),
        read_again(RAW_DATA_GRAB_STATUS, waits.push(ready)),
    );
    let d5 = d4 + written(seq![(RAW_DATA_GRAB, FRAME_START_COMMAND)]);
    lemma_then_stage(start, wish, d4, Stage::FrameStart, frame, dones(1));
    lemma_collecting(frame, 0, stream);
    lemma_then(
        start,
        wish,
        d5,
        State { cursor: Cursor::at_start(Stage::FramePixels), frame },
        Cursor::at_start(Stage::FramePixels).poll(),
        read_again(RAW_DATA_GRAB, stream),
    );
}

/// A capture whose stream sends each pixel as its upper fragment followed by
/// its lower one ends with the frame in which each pixel is what its pair
/// makes.
pub proof fn lemma_capture_of_pairs(
    before: State,
    waits: Seq<u8>,
    ready: u8,
    uppers: Seq<u8>,
    lowers: Seq<u8>,
)
    requires
        all_waiting(waits),
        (ready & FRAME_READY_MASK) != 0,
        uppers.len() == FRAME_SIZE,
        lowers.len() == FRAME_SIZE,
        all_tagged(uppers, TAG_UPPER),
        all_tagged(lowers, TAG_LOWER),
    ensures
        drive(
            before.begin(Stage::FrameSetup).0,
            before.begin(Stage::FrameSetup).1,
            capture(waits, ready, interleaved(uppers, lowers)),
        ) == Some(
            (
                State {
                    cursor: Cursor::idle(),
                    frame: Seq::new(FRAME_SIZE as nat, |j: int| pixel_of(uppers[j], lowers[j])),
                },
                Action::Finished(Output::Frame),
            ),
        ),
{
    lemma_alternating_stream(uppers, lowers);
    lemma_capture(before, waits, ready, interleaved(uppers, lowers));
}

} // verus!
