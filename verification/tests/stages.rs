use embedded_hal_async::spi::ErrorKind;
use paa5100je_pmw3901::bus::{Event, Output};
use paa5100je_pmw3901::cursor::Cursor;
use paa5100je_pmw3901::paa5100je::Paa5100je;
use paa5100je_pmw3901::stage::{Next, Stage};
use paa5100je_pmw3901::{Action, Id, MotionDelta, Request, SensorError};

#[test]
fn stage_counts() {
    assert_eq!(Stage::Idle.count(), 0);
    assert_eq!(Stage::Reset.count(), 1);
    assert_eq!(Stage::ResetSettle.count(), 1);
    assert_eq!(Stage::Flush.count(), 5);
    assert_eq!(Stage::BlockA.count(), 5);
    assert_eq!(Stage::PatchProbe.count(), 1);
    assert_eq!(Stage::Patch { value: 4 }.count(), 1);
    assert_eq!(Stage::BlockB.count(), 5);
    assert_eq!(Stage::TrimProbe.count(), 1);
    assert_eq!(Stage::TrimFirst.count(), 1);
    assert_eq!(Stage::TrimSecond { first: 1 }.count(), 1);
    assert_eq!(Stage::BlockC { first: 1, second: 2 }.count(), 6);
    assert_eq!(Stage::BlockD.count(), 59);
    assert_eq!(Stage::BodySettle.count(), 1);
    assert_eq!(Stage::BlockE.count(), 14);
    assert_eq!(Stage::TailSettle.count(), 1);
    assert_eq!(Stage::BlockF.count(), 3);
    assert_eq!(Stage::CheckProduct.count(), 1);
    assert_eq!(Stage::CheckRevision { product_id: 0 }.count(), 1);
    assert_eq!(Stage::Rotate { bits: 0 }.count(), 1);
    assert_eq!(Stage::IdProduct.count(), 1);
    assert_eq!(Stage::IdRevision { product_id: 0 }.count(), 1);
    assert_eq!(Stage::Motion.count(), 1);
    assert_eq!(Stage::FrameSetup.count(), 8);
    assert_eq!(Stage::FrameSettle.count(), 1);
    assert_eq!(Stage::FrameTrigger.count(), 2);
    assert_eq!(Stage::FrameWait.count(), 1);
    assert_eq!(Stage::FrameStart.count(), 1);
    assert_eq!(Stage::FramePixels.count(), 1225);
}

#[test]
fn only_waiting_and_collecting_repeat() {
    assert!(Stage::FrameWait.repeats_on(&Event::Byte(0x00)));
    assert!(Stage::FrameWait.repeats_on(&Event::Byte(0x3F)));
    assert!(!Stage::FrameWait.repeats_on(&Event::Byte(0x40)));
    assert!(!Stage::FrameWait.repeats_on(&Event::Byte(0x80)));
    assert!(Stage::FramePixels.repeats_on(&Event::Byte(0x40)));
    assert!(Stage::FramePixels.repeats_on(&Event::Byte(0x00)));
    assert!(Stage::FramePixels.repeats_on(&Event::Byte(0xC0)));
    assert!(!Stage::FramePixels.repeats_on(&Event::Byte(0x80)));
    assert!(!Stage::FramePixels.repeats_on(&Event::Byte(0xBF)));
    assert!(!Stage::BlockD.repeats_on(&Event::Done));
    assert!(!Stage::TrimProbe.repeats_on(&Event::Byte(0x00)));
    assert!(!Stage::Motion.repeats_on(&Event::Burst([0; 12])));
}

#[test]
fn patch_probe_leads_to_the_patch() {
    assert_eq!(
        Stage::PatchProbe.leave_on(&Event::Byte(0x80)),
        Next::Enter(Stage::Patch { value: 0x04 })
    );
    assert_eq!(
        Stage::PatchProbe.leave_on(&Event::Byte(0x7F)),
        Next::Enter(Stage::Patch { value: 0x02 })
    );
    assert_eq!(Stage::Patch { value: 0x02 }.leave_on(&Event::Done), Next::Enter(Stage::BlockB));
}

#[test]
fn trim_probe_decides_whether_to_trim() {
    assert_eq!(Stage::TrimProbe.leave_on(&Event::Byte(0)), Next::Enter(Stage::TrimFirst));
    assert_eq!(Stage::TrimProbe.leave_on(&Event::Byte(1)), Next::Enter(Stage::BlockD));
    assert_eq!(Stage::TrimProbe.leave_on(&Event::Byte(0xFF)), Next::Enter(Stage::BlockD));
    assert_eq!(
        Stage::TrimFirst.leave_on(&Event::Byte(30)),
        Next::Enter(Stage::TrimSecond { first: 41 })
    );
    assert_eq!(
        Stage::TrimSecond { first: 41 }.leave_on(&Event::Byte(100)),
        Next::Enter(Stage::BlockC { first: 41, second: 45 })
    );
    assert_eq!(
        Stage::BlockC { first: 41, second: 45 }.leave_on(&Event::Done),
        Next::Enter(Stage::BlockD)
    );
}

#[test]
fn revision_check_leads_to_the_default_rotation_or_fails() {
    assert_eq!(
        Stage::CheckProduct.leave_on(&Event::Byte(0x49)),
        Next::Enter(Stage::CheckRevision { product_id: 0x49 })
    );
    assert_eq!(
        Stage::CheckRevision { product_id: 0x49 }.leave_on(&Event::Byte(0x01)),
        Next::Enter(Stage::Rotate { bits: 0xE0 })
    );
    assert_eq!(
        Stage::CheckRevision { product_id: 0x49 }.leave_on(&Event::Byte(0x02)),
        Next::Fail(SensorError::InvalidId(Id { product_id: 0x49, revision: 0x02 }))
    );
    assert_eq!(
        Stage::CheckRevision { product_id: 0x48 }.leave_on(&Event::Byte(0x00)),
        Next::Fail(SensorError::InvalidId(Id { product_id: 0x48, revision: 0x00 }))
    );
    assert_eq!(Stage::Rotate { bits: 0xE0 }.leave_on(&Event::Done), Next::Finish(Output::Ready));
}

#[test]
fn motion_stage_decides_on_the_burst() {
    let good = [0x80, 0, 1, 0, 2, 0, 0x19, 0, 0, 0, 0x1F, 0];
    assert_eq!(
        Stage::Motion.leave_on(&Event::Burst(good)),
        Next::Finish(Output::Motion(MotionDelta { x: 1, y: 2 }))
    );
    let poor = [0x80, 0, 1, 0, 2, 0, 0x18, 0, 0, 0, 0x1F, 0];
    assert_eq!(
        Stage::Motion.leave_on(&Event::Burst(poor)),
        Next::Fail(SensorError::InvalidMotion)
    );
}

#[test]
fn stages_of_a_capture_follow_one_another() {
    assert_eq!(Stage::FrameSetup.leave_on(&Event::Done), Next::Enter(Stage::FrameSettle));
    assert_eq!(Stage::FrameSettle.leave_on(&Event::Done), Next::Enter(Stage::FrameTrigger));
    assert_eq!(Stage::FrameTrigger.leave_on(&Event::Done), Next::Enter(Stage::FrameWait));
    assert_eq!(Stage::FrameWait.leave_on(&Event::Byte(0x40)), Next::Enter(Stage::FrameStart));
    assert_eq!(Stage::FrameStart.leave_on(&Event::Done), Next::Enter(Stage::FramePixels));
    assert_eq!(Stage::FramePixels.leave_on(&Event::Byte(0x80)), Next::Finish(Output::Frame));
}

#[test]
fn cursor_knows_whether_it_is_busy() {
    assert!(!Cursor { stage: Stage::Idle, index: 0 }.is_busy());
    assert!(Cursor { stage: Stage::Reset, index: 0 }.is_busy());
    assert!(Cursor { stage: Stage::FramePixels, index: 1224 }.is_busy());
}

#[test]
fn chip_state_on_its_own() {
    let mut chip = Paa5100je::new();
    assert_eq!(chip.poll(), Action::Perform(Request::Write { address: 0xBA, value: 0x5A }));
    assert_eq!(chip.frame(), &[0u8; 1225]);
    assert_eq!(chip.resume(Event::Done), Action::Perform(Request::Delay { ms: 20 }));
    assert_eq!(
        chip.resume(Event::Fault(ErrorKind::FrameFormat)),
        Action::Failed(SensorError::Spi(ErrorKind::FrameFormat))
    );
    assert_eq!(chip.poll(), Action::Idle);
}
