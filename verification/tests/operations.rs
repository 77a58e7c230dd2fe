use embedded_hal_async::spi::ErrorKind;
use paa5100je_pmw3901::{
    Action, Event, Id, MotionDelta, Output, PixArtSensor, Request, RotationDegrees, SensorError,
};

/// A sensor whose initialisation is over: every read brought zero, so the
/// identification was refused and nothing is in flight.
fn idle_sensor() -> PixArtSensor {
    let mut sensor = PixArtSensor::new_paa5100je();
    let mut action = sensor.poll();
    let mut steps = 0;
    while let Action::Perform(request) = action {
        let event = match request {
            Request::Read { .. } => Event::Byte(0),
            Request::ReadBurst { .. } => Event::Burst([0; 12]),
            _ => Event::Done,
        };
        action = sensor.resume(event);
        steps += 1;
        assert!(steps < 10_000);
    }
    assert_eq!(sensor.poll(), Action::Idle);
    sensor
}

#[test]
fn idle_sensor_asks_for_nothing() {
    let mut sensor = idle_sensor();
    assert_eq!(sensor.poll(), Action::Idle);
    assert_eq!(sensor.resume(Event::Done), Action::Idle);
    assert_eq!(sensor.resume(Event::Byte(3)), Action::Idle);
    assert_eq!(sensor.resume(Event::Burst([1; 12])), Action::Idle);
    assert_eq!(sensor.resume(Event::Fault(ErrorKind::Other)), Action::Idle);
    assert_eq!(sensor.poll(), Action::Idle);
}

#[test]
fn set_rotation_is_one_write_of_the_orientation_register() {
    for (rotation, bits) in [
        (RotationDegrees::_0, 0xE0u8),
        (RotationDegrees::_90, 0x40),
        (RotationDegrees::_180, 0x80),
        (RotationDegrees::_270, 0x20),
    ] {
        let mut sensor = idle_sensor();
        assert_eq!(
            sensor.set_rotation(rotation),
            Action::Perform(Request::Write { address: 0xDB, value: bits })
        );
        assert_eq!(sensor.resume(Event::Done), Action::Finished(Output::Ready));
        assert_eq!(sensor.poll(), Action::Idle);
    }
}

#[test]
fn set_rotation_hands_on_a_fault() {
    let mut sensor = idle_sensor();
    sensor.set_rotation(RotationDegrees::_90);
    assert_eq!(
        sensor.resume(Event::Fault(ErrorKind::ModeFault)),
        Action::Failed(SensorError::Spi(ErrorKind::ModeFault))
    );
    assert_eq!(sensor.poll(), Action::Idle);
}

#[test]
fn id_reads_product_and_revision() {
    let mut sensor = idle_sensor();
    assert_eq!(sensor.id(), Action::Perform(Request::Read { address: 0x00 }));
    assert_eq!(sensor.resume(Event::Byte(0x49)), Action::Perform(Request::Read { address: 0x01 }));
    assert_eq!(
        sensor.resume(Event::Byte(0x01)),
        Action::Finished(Output::Identified(Id { product_id: 0x49, revision: 0x01 }))
    );
    assert_eq!(sensor.poll(), Action::Idle);
}

#[test]
fn id_reports_what_it_reads_without_judging_it() {
    let mut sensor = idle_sensor();
    sensor.id();
    sensor.resume(Event::Byte(0x12));
    assert_eq!(
        sensor.resume(Event::Byte(0x34)),
        Action::Finished(Output::Identified(Id { product_id: 0x12, revision: 0x34 }))
    );
}

#[test]
fn id_hands_on_a_fault_of_either_read() {
    let mut sensor = idle_sensor();
    sensor.id();
    assert_eq!(
        sensor.resume(Event::Fault(ErrorKind::Overrun)),
        Action::Failed(SensorError::Spi(ErrorKind::Overrun))
    );
    sensor.id();
    sensor.resume(Event::Byte(0x49));
    assert_eq!(
        sensor.resume(Event::Fault(ErrorKind::FrameFormat)),
        Action::Failed(SensorError::Spi(ErrorKind::FrameFormat))
    );
    assert_eq!(sensor.poll(), Action::Idle);
}

#[test]
fn get_motion_is_one_burst_read() {
    let mut sensor = idle_sensor();
    assert_eq!(sensor.get_motion(), Action::Perform(Request::ReadBurst { address: 0x16 }));
    let burst = [0x80, 0, 0x05, 0x00, 0xFB, 0xFF, 0x40, 0, 0, 0, 0x10, 0];
    assert_eq!(
        sensor.resume(Event::Burst(burst)),
        Action::Finished(Output::Motion(MotionDelta { x: 5, y: -5 }))
    );
    assert_eq!(sensor.poll(), Action::Idle);
}

#[test]
fn get_motion_refuses_an_unreliable_sample() {
    let mut sensor = idle_sensor();
    sensor.get_motion();
    let not_ready = [0x7F, 0, 0x05, 0x00, 0xFB, 0xFF, 0xFF, 0, 0, 0, 0x00, 0];
    assert_eq!(
        sensor.resume(Event::Burst(not_ready)),
        Action::Failed(SensorError::InvalidMotion)
    );
    sensor.get_motion();
    let poor = [0x80, 0, 0x05, 0x00, 0xFB, 0xFF, 0x18, 0, 0, 0, 0x1F, 0];
    assert_eq!(sensor.resume(Event::Burst(poor)), Action::Failed(SensorError::InvalidMotion));
    sensor.get_motion();
    let fair = [0x80, 0, 0x05, 0x00, 0xFB, 0xFF, 0x19, 0, 0, 0, 0x1F, 0];
    assert_eq!(
        sensor.resume(Event::Burst(fair)),
        Action::Finished(Output::Motion(MotionDelta { x: 5, y: -5 }))
    );
}

#[test]
fn get_motion_tells_a_fault_from_an_unreliable_sample() {
    let mut sensor = idle_sensor();
    sensor.get_motion();
    assert_eq!(
        sensor.resume(Event::Fault(ErrorKind::Other)),
        Action::Failed(SensorError::Spi(ErrorKind::Other))
    );
    assert_ne!(SensorError::Spi(ErrorKind::Other), SensorError::InvalidMotion);
}

#[test]
fn get_motion_can_be_polled_again_after_an_unreliable_sample() {
    let mut sensor = idle_sensor();
    for _ in 0..3 {
        assert_eq!(sensor.get_motion(), Action::Perform(Request::ReadBurst { address: 0x16 }));
        assert_eq!(
            sensor.resume(Event::Burst([0; 12])),
            Action::Failed(SensorError::InvalidMotion)
        );
    }
}

#[test]
fn get_motion_passes_over_a_single_byte() {
    let mut sensor = idle_sensor();
    let pending = sensor.get_motion();
    assert_eq!(sensor.resume(Event::Byte(0x80)), pending);
    assert_eq!(sensor.resume(Event::Done), pending);
}

#[test]
fn operations_follow_one_another() {
    let mut sensor = idle_sensor();
    sensor.set_rotation(RotationDegrees::_180);
    assert_eq!(sensor.resume(Event::Done), Action::Finished(Output::Ready));
    sensor.id();
    sensor.resume(Event::Byte(1));
    assert!(matches!(sensor.resume(Event::Byte(2)), Action::Finished(Output::Identified(_))));
    assert_eq!(sensor.get_motion(), Action::Perform(Request::ReadBurst { address: 0x16 }));
    assert_eq!(
        sensor.set_rotation(RotationDegrees::_0),
        Action::Perform(Request::Write { address: 0xDB, value: 0xE0 })
    );
    assert_eq!(sensor.resume(Event::Done), Action::Finished(Output::Ready));
}
