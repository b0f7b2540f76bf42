use lumen::{Color, DatagramOutcome, DeviceState, OscArg, OutputDriver, color_command,
    handle_datagram, startup_color};
use rosc::encoder::encode;
use rosc::{OscBundle, OscColor, OscMessage, OscPacket, OscTime, OscType};

fn fresh_state() -> DeviceState {
    DeviceState::new(startup_color(), OutputDriver::detached())
}

fn message(addr: &str, args: Vec<OscType>) -> Vec<u8> {
    encode(&OscPacket::Message(OscMessage { addr: addr.to_owned(), args })).unwrap()
}

#[test]
fn int_triple_datagram_applies_the_color() {
    let mut state = fresh_state();
    let buf = message("/color", vec![OscType::Int(255), OscType::Int(0), OscType::Int(128)]);
    let outcome = handle_datagram(&mut state, &buf);
    let expected = Color { red: 255, green: 0, blue: 128 };
    assert_eq!(outcome, DatagramOutcome::Applied(expected));
    assert_eq!(state.get(), expected);
}

#[test]
fn int_triple_datagram_wraps_out_of_range_values() {
    let mut state = fresh_state();
    let buf = message("/color", vec![OscType::Int(300), OscType::Int(-1), OscType::Int(128)]);
    handle_datagram(&mut state, &buf);
    assert_eq!(state.get(), Color { red: 44, green: 255, blue: 128 });
}

#[test]
fn float_triple_datagram_applies_the_color() {
    let mut state = fresh_state();
    let buf = message(
        "/color",
        vec![OscType::Float(255.0), OscType::Float(255.0), OscType::Float(255.0)],
    );
    let outcome = handle_datagram(&mut state, &buf);
    let expected = Color { red: 255, green: 255, blue: 255 };
    assert_eq!(outcome, DatagramOutcome::Applied(expected));
    assert_eq!(state.get(), expected);
}

#[test]
fn double_triple_datagram_truncates_toward_zero() {
    let mut state = fresh_state();
    let buf = message(
        "/color",
        vec![OscType::Double(0.9), OscType::Double(128.7), OscType::Double(255.0)],
    );
    handle_datagram(&mut state, &buf);
    assert_eq!(state.get(), Color { red: 0, green: 128, blue: 255 });
}

#[test]
fn packed_color_datagram_decomposes_into_channel_bytes() {
    let mut state = fresh_state();
    let packed = OscColor { red: 1, green: 2, blue: 3, alpha: 4 };
    let buf = message("/color", vec![OscType::Color(packed)]);
    let outcome = handle_datagram(&mut state, &buf);
    let expected = Color { red: 1, green: 2, blue: 3 };
    assert_eq!(outcome, DatagramOutcome::Applied(expected));
    assert_eq!(state.get(), expected);
}

#[test]
fn unknown_target_leaves_the_color_unchanged() {
    let mut state = fresh_state();
    let before = state.get();
    let buf = message("/brightness", vec![OscType::Int(1), OscType::Int(2), OscType::Int(3)]);
    let outcome = handle_datagram(&mut state, &buf);
    assert_eq!(outcome, DatagramOutcome::Ignored);
    assert_eq!(state.get(), before);
}

#[test]
fn unmatched_argument_shape_leaves_the_color_unchanged() {
    let mut state = fresh_state();
    let before = state.get();
    let buf = message("/color", vec![OscType::Int(1), OscType::Int(2)]);
    let outcome = handle_datagram(&mut state, &buf);
    assert_eq!(outcome, DatagramOutcome::Ignored);
    assert_eq!(state.get(), before);
}

#[test]
fn mixed_argument_kinds_leave_the_color_unchanged() {
    let mut state = fresh_state();
    let before = state.get();
    let buf = message(
        "/color",
        vec![OscType::Int(1), OscType::Float(2.0), OscType::Int(3)],
    );
    let outcome = handle_datagram(&mut state, &buf);
    assert_eq!(outcome, DatagramOutcome::Ignored);
    assert_eq!(state.get(), before);
}

#[test]
fn string_argument_leaves_the_color_unchanged() {
    let mut state = fresh_state();
    let before = state.get();
    let buf = message("/color", vec![OscType::String("red".to_owned())]);
    let outcome = handle_datagram(&mut state, &buf);
    assert_eq!(outcome, DatagramOutcome::Ignored);
    assert_eq!(state.get(), before);
}

#[test]
fn bundle_is_ignored() {
    let mut state = fresh_state();
    let before = state.get();
    let bundle = OscPacket::Bundle(OscBundle {
        timetag: OscTime { seconds: 0, fractional: 0 },
        content: vec![OscPacket::Message(OscMessage {
            addr: "/color".to_owned(),
            args: vec![OscType::Int(9), OscType::Int(9), OscType::Int(9)],
        })],
    });
    let buf = encode(&bundle).unwrap();
    let outcome = handle_datagram(&mut state, &buf);
    assert_eq!(outcome, DatagramOutcome::Ignored);
    assert_eq!(state.get(), before);
}

#[test]
fn malformed_datagram_leaves_the_color_unchanged() {
    let mut state = fresh_state();
    let before = state.get();
    let outcome = handle_datagram(&mut state, &[1, 2, 3]);
    assert_eq!(outcome, DatagramOutcome::Malformed);
    assert_eq!(state.get(), before);
}

#[test]
fn color_command_matches_the_four_shapes() {
    let ints = vec![OscArg::Int(300), OscArg::Int(-1), OscArg::Int(128)];
    assert_eq!(color_command(&ints), Some(Color { red: 44, green: 255, blue: 128 }));

    let floats = vec![OscArg::Float(9), OscArg::Float(8), OscArg::Float(7)];
    assert_eq!(color_command(&floats), Some(Color { red: 9, green: 8, blue: 7 }));

    let doubles = vec![OscArg::Double(1), OscArg::Double(2), OscArg::Double(3)];
    assert_eq!(color_command(&doubles), Some(Color { red: 1, green: 2, blue: 3 }));

    let packed = vec![OscArg::Color(4, 5, 6, 7)];
    assert_eq!(color_command(&packed), Some(Color { red: 4, green: 5, blue: 6 }));

    assert_eq!(color_command(&vec![]), None);
    assert_eq!(color_command(&vec![OscArg::Int(1)]), None);
    assert_eq!(color_command(&vec![OscArg::Unsupported; 3]), None);
    assert_eq!(
        color_command(&vec![OscArg::Int(1), OscArg::Float(2), OscArg::Int(3)]),
        None,
    );
}
