use lumen::{Color, DeviceState, OutputDriver, PutOutcome, handle_put_color,
    malformed_request_error, resource_not_found_error, startup_color};
use rosc::encoder::encode;
use rosc::{OscMessage, OscPacket, OscType};

fn fresh_state() -> DeviceState {
    DeviceState::new(startup_color(), OutputDriver::detached())
}

#[test]
fn put_with_a_parsed_body_updates_the_color() {
    let mut state = fresh_state();
    let c = Color { red: 0, green: 0, blue: 0 };
    assert_eq!(handle_put_color(&mut state, Some(c)), PutOutcome::Updated);
    assert_eq!(state.get(), c);
}

#[test]
fn put_with_a_malformed_body_leaves_the_previous_color() {
    // A body with a non-numeric field never parses as a color, so the
    // ingress hands the state no update: the previous color stays applied
    // and the caller is answered with a malformed-request error.
    let mut state = fresh_state();
    let before = state.get();
    assert_eq!(handle_put_color(&mut state, None), PutOutcome::MalformedBody);
    assert_eq!(state.get(), before);
}

#[test]
fn error_payloads_carry_status_and_message() {
    let e = malformed_request_error();
    assert_eq!(e.status, "error");
    assert_eq!(e.message, "Malformed request");

    let e = resource_not_found_error();
    assert_eq!(e.status, "error");
    assert_eq!(e.message, "Resource not found");
}

#[test]
fn startup_put_then_float_datagram_scenario() {
    // Startup shows the fixed default; a synchronous update turns the light
    // off; a float-triple datagram then turns every channel full on.
    let mut state = fresh_state();
    assert_eq!(state.get(), Color { red: 242, green: 155, blue: 212 });

    let black = Color { red: 0, green: 0, blue: 0 };
    assert_eq!(handle_put_color(&mut state, Some(black)), PutOutcome::Updated);
    assert_eq!(state.get(), black);

    let buf = encode(&OscPacket::Message(OscMessage {
        addr: "/color".to_owned(),
        args: vec![OscType::Float(255.0), OscType::Float(255.0), OscType::Float(255.0)],
    }))
    .unwrap();
    lumen::handle_datagram(&mut state, &buf);
    assert_eq!(state.get(), Color { red: 255, green: 255, blue: 255 });
}
