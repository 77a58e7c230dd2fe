use embedded_hal_async::spi::ErrorKind;
use paa5100je_pmw3901::{Action, Event, Output, PixArtSensor, Request, SensorError, FRAME_SIZE};

const SETUP: [(u8, u8); 8] = [
    (0x7F, 0x07), (0x4C, 0x00), (0x7F, 0x08), (0x6A, 0x38), (0x7F, 0x00), (0x55, 0x04),
    (0x40, 0x80), (0x4D, 0x11),
];

const TRIGGER: [(u8, u8); 2] = [
    (0x7F, 0x00), (0x58, 0xFF),
];

fn idle_sensor() -> PixArtSensor {
    let mut sensor = PixArtSensor::new_paa5100je();
    assert!(matches!(sensor.resume(Event::Fault(ErrorKind::Other)), Action::Failed(_)));
    sensor
}

fn write(register: u8, value: u8) -> Request {
    Request::Write { address: register | 0x80, value }
}

/// Leads a capture through the chip's answers: `statuses` for the reads of
/// the grab status, `stream` for the reads of the grab register. Returns the
/// outcome and everything that was asked.
fn capture(sensor: &mut PixArtSensor, statuses: &[u8], stream: &[u8]) -> (Action, Vec<Request>) {
    let mut log = Vec::new();
    let mut status = 0;
    let mut fragment = 0;
    let mut action = sensor.capture_frame();
    while let Action::Perform(request) = action {
        log.push(request);
        let event = match request {
            Request::Read { address: 0x59 } => {
                status += 1;
                Event::Byte(statuses[status - 1])
            }
            Request::Read { address: 0x58 } => {
                fragment += 1;
                Event::Byte(stream[fragment - 1])
            }
            Request::Read { .. } | Request::ReadBurst { .. } => panic!("unexpected read"),
            _ => Event::Done,
        };
        action = sensor.resume(event);
    }
    assert_eq!(status, statuses.len());
    assert_eq!(fragment, stream.len());
    (action, log)
}

fn pairs(pixels: &[u8]) -> Vec<u8> {
    let mut stream = Vec::new();
    for pixel in pixels {
        stream.push(0x40 | (pixel >> 2));
        stream.push(0x80 | ((pixel & 0b11) << 2));
    }
    stream
}

#[test]
fn capture_asks_setup_delay_trigger_status_start_and_pixels() {
    let mut sensor = idle_sensor();
    let stream = pairs(&[0u8; FRAME_SIZE]);
    let (outcome, log) = capture(&mut sensor, &[0x40], &stream);
    assert_eq!(outcome, Action::Finished(Output::Frame));
    let mut script = Vec::new();
    for (register, value) in SETUP {
        script.push(write(register, value));
    }
    script.push(Request::Delay { ms: 10 });
    for (register, value) in TRIGGER {
        script.push(write(register, value));
    }
    script.push(Request::Read { address: 0x59 });
    script.push(write(0x58, 0x00));
    assert_eq!(log[..script.len()], script[..]);
    assert_eq!(log.len(), script.len() + 2 * FRAME_SIZE);
    assert!(log[script.len()..].iter().all(|request| *request == Request::Read { address: 0x58 }));
    assert_eq!(sensor.poll(), Action::Idle);
}

#[test]
fn zero_fragments_make_a_zero_frame() {
    let mut sensor = idle_sensor();
    let mut stream = Vec::new();
    for _ in 0..FRAME_SIZE {
        stream.push(0x40);
        stream.push(0x80);
    }
    let (outcome, _) = capture(&mut sensor, &[0x80], &stream);
    assert_eq!(outcome, Action::Finished(Output::Frame));
    assert_eq!(sensor.frame(), &[0u8; FRAME_SIZE]);
}

#[test]
fn first_pixel_from_its_two_fragments() {
    let mut sensor = idle_sensor();
    let mut stream = vec![0x6A, 0x8C];
    stream.extend(pairs(&[0u8; FRAME_SIZE - 1]));
    let (outcome, _) = capture(&mut sensor, &[0xC0], &stream);
    assert_eq!(outcome, Action::Finished(Output::Frame));
    let mut expected = [0u8; FRAME_SIZE];
    expected[0] = 0xAB;
    assert_eq!(sensor.frame(), &expected);
}

#[test]
fn known_pattern_is_reconstructed() {
    let mut pixels = [0u8; FRAME_SIZE];
    for (index, pixel) in pixels.iter_mut().enumerate() {
        *pixel = ((index * 7 + 3) % 256) as u8;
    }
    let mut sensor = idle_sensor();
    let (outcome, _) = capture(&mut sensor, &[0x40], &pairs(&pixels));
    assert_eq!(outcome, Action::Finished(Output::Frame));
    assert_eq!(sensor.frame(), &pixels);
    assert_eq!(sensor.frame()[35], ((35 * 7 + 3) % 256) as u8);
    assert_eq!(sensor.frame()[FRAME_SIZE - 1], ((1224 * 7 + 3) % 256) as u8);
}

#[test]
fn fragments_with_other_tags_are_thrown_away() {
    let mut pixels = [0u8; FRAME_SIZE];
    for (index, pixel) in pixels.iter_mut().enumerate() {
        *pixel = (255 - index % 256) as u8;
    }
    let mut stream = Vec::new();
    for pixel in pixels {
        stream.push(0x00);
        stream.push(0x40 | (pixel >> 2));
        stream.push(0xFF);
        stream.push(0x3F);
        stream.push(0x80 | ((pixel & 0b11) << 2));
        stream.push(0xC0);
    }
    // What follows the fragment that completes the last pixel is never read.
    stream.pop();
    let mut sensor = idle_sensor();
    let (outcome, log) = capture(&mut sensor, &[0x40], &stream);
    assert_eq!(outcome, Action::Finished(Output::Frame));
    assert_eq!(sensor.frame(), &pixels);
    assert_eq!(log.len(), 8 + 1 + 2 + 1 + 1 + stream.len());
}

#[test]
fn last_upper_fragment_before_a_lower_one_counts() {
    let mut stream = vec![0x7F, 0x6A, 0x8C];
    stream.extend(pairs(&[0x11u8; FRAME_SIZE - 1]));
    let mut sensor = idle_sensor();
    capture(&mut sensor, &[0x40], &stream);
    assert_eq!(sensor.frame()[0], 0xAB);
    assert_eq!(sensor.frame()[1], 0x11);
}

#[test]
fn lower_fragment_alone_leaves_the_upper_bits_zero() {
    let mut stream = vec![0x8C];
    stream.extend(pairs(&[0xFFu8; FRAME_SIZE - 1]));
    let mut sensor = idle_sensor();
    capture(&mut sensor, &[0x40], &stream);
    assert_eq!(sensor.frame()[0], 0x03);
    assert_eq!(sensor.frame()[1], 0xFF);
}

#[test]
fn status_is_read_until_one_of_its_top_bits_is_set() {
    let mut sensor = idle_sensor();
    let statuses = [0x00, 0x3F, 0x01, 0x20, 0x00, 0x80];
    let (outcome, log) = capture(&mut sensor, &statuses, &pairs(&[0u8; FRAME_SIZE]));
    assert_eq!(outcome, Action::Finished(Output::Frame));
    let polls = log.iter().filter(|request| **request == Request::Read { address: 0x59 }).count();
    assert_eq!(polls, 6);
    assert_eq!(log[11 + 6], write(0x58, 0x00));
}

#[test]
fn either_ready_bit_ends_the_wait() {
    for ready in [0x40u8, 0x80, 0xC0, 0x41, 0xFF] {
        let mut sensor = idle_sensor();
        let (outcome, log) = capture(&mut sensor, &[0x00, ready], &pairs(&[0u8; FRAME_SIZE]));
        assert_eq!(outcome, Action::Finished(Output::Frame));
        assert_eq!(log[11], Request::Read { address: 0x59 });
        assert_eq!(log[12], Request::Read { address: 0x59 });
        assert_eq!(log[13], write(0x58, 0x00));
    }
}

#[test]
fn a_new_capture_starts_from_a_blank_frame() {
    let mut sensor = idle_sensor();
    capture(&mut sensor, &[0x40], &pairs(&[0xFFu8; FRAME_SIZE]));
    assert_eq!(sensor.frame(), &[0xFFu8; FRAME_SIZE]);
    let mut lows_only = Vec::new();
    for _ in 0..FRAME_SIZE {
        lows_only.push(0x80);
    }
    capture(&mut sensor, &[0x40], &lows_only);
    assert_eq!(sensor.frame(), &[0u8; FRAME_SIZE]);
}

#[test]
fn frame_is_kept_while_other_operations_run() {
    let mut sensor = idle_sensor();
    capture(&mut sensor, &[0x40], &pairs(&[0x5Au8; FRAME_SIZE]));
    sensor.get_motion();
    sensor.resume(Event::Burst([0x80; 12]));
    sensor.id();
    sensor.resume(Event::Byte(0x49));
    sensor.resume(Event::Byte(0x00));
    assert_eq!(sensor.frame(), &[0x5Au8; FRAME_SIZE]);
}

#[test]
fn fault_during_the_pixel_stream_ends_the_capture() {
    let mut sensor = idle_sensor();
    let mut action = sensor.capture_frame();
    let mut reads = 0;
    let outcome = loop {
        match action {
            Action::Perform(Request::Read { address: 0x59 }) => {
                action = sensor.resume(Event::Byte(0x40));
            }
            Action::Perform(Request::Read { .. }) => {
                reads += 1;
                let event = match reads {
                    1 => Event::Byte(0x6A),
                    2 => Event::Byte(0x8C),
                    3 => Event::Byte(0x7F),
                    _ => Event::Fault(ErrorKind::Overrun),
                };
                action = sensor.resume(event);
            }
            Action::Perform(_) => action = sensor.resume(Event::Done),
            other => break other,
        }
    };
    assert_eq!(outcome, Action::Failed(SensorError::Spi(ErrorKind::Overrun)));
    assert_eq!(reads, 4);
    assert_eq!(sensor.poll(), Action::Idle);
    assert_eq!(sensor.frame()[0], 0xAB);
    assert_eq!(sensor.frame()[1], 0xFC);
    assert_eq!(sensor.frame()[2], 0x00);
}

#[test]
fn fault_while_waiting_for_the_frame_ends_the_capture() {
    let mut sensor = idle_sensor();
    let mut action = sensor.capture_frame();
    let mut asked = 0;
    while let Action::Perform(request) = action {
        asked += 1;
        action = match request {
            Request::Read { address: 0x59 } => sensor.resume(Event::Fault(ErrorKind::ModeFault)),
            _ => sensor.resume(Event::Done),
        };
    }
    assert_eq!(action, Action::Failed(SensorError::Spi(ErrorKind::ModeFault)));
    assert_eq!(asked, 12);
}

#[test]
fn a_capture_that_is_given_up_leaves_the_sensor_usable() {
    let mut sensor = idle_sensor();
    let mut action = sensor.capture_frame();
    let mut polls = 0;
    while polls < 1000 {
        action = match action {
            Action::Perform(Request::Read { address: 0x59 }) => {
                polls += 1;
                sensor.resume(Event::Byte(0x00))
            }
            Action::Perform(_) => sensor.resume(Event::Done),
            other => panic!("capture ended: {:?}", other),
        };
    }
    assert_eq!(action, Action::Perform(Request::Read { address: 0x59 }));
    assert_eq!(sensor.wake(), Action::Perform(write(0x3A, 0x5A)));
}
