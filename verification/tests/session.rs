use serde_json::Value;
use spacemouse_bridge::moonraker_api::{Connection, Dispatch, Frame, Message, Reaction, StatusUpdate};
use spacemouse_bridge::rpc::Request;
use spacemouse_bridge::scalar::Scalar;
use spacemouse_bridge::types::{MoveParameters, PrinterCommand};
use std::time::Duration;

fn json(text: &str) -> Value {
    serde_json::from_str(text).unwrap()
}

fn scalar(value: f32) -> Scalar {
    Scalar::from_bits(value.to_bits())
}

fn a_move(x: f32, y: f32, z: f32, feedrate: i32) -> PrinterCommand {
    PrinterCommand::Move(MoveParameters { x: scalar(x), y: scalar(y), z: scalar(z), feedrate })
}

fn sent(dispatch: Dispatch) -> Request {
    match dispatch {
        Dispatch::Send(request) => request,
        Dispatch::Refused => panic!("the command was refused"),
    }
}

fn status_notification(axes: &str, absolute: bool) -> String {
    format!(
        r#"{{"jsonrpc":"2.0","method":"notify_status_update","params":[{{"toolhead":{{"homed_axes":"{}"}},"gcode_move":{{"absolute_coordinates":{}}}}}]}}"#,
        axes, absolute
    )
}

#[test]
fn session_opens_with_the_subscription() {
    let (connection, request) = Connection::open(1_000);
    assert_eq!(request.id, 1);
    assert_eq!(
        json(&request.text),
        json(
            r#"{"jsonrpc":"2.0","method":"printer.objects.subscribe","params":{"objects":{"toolhead":null,"gcode_move":null}},"id":1}"#
        )
    );
    assert_eq!(connection.last_id(), 1);
    assert_eq!(connection.pending(), 1);
    assert!(connection.is_pending(1));
    assert_eq!(connection.printer_state().homed_axes(), "");
    assert!(!connection.printer_state().absolute_coordinates());
}

#[test]
fn home_and_relative_mode_always_go() {
    let (mut connection, _) = Connection::open(0);
    let home = sent(connection.on_command(&PrinterCommand::Home, 10));
    assert_eq!(home.id, 2);
    assert_eq!(
        json(&home.text),
        json(r#"{"jsonrpc":"2.0","method":"printer.gcode.script","params":{"script":"G28"},"id":2}"#)
    );
    let relative = sent(connection.on_command(&PrinterCommand::SetRelativeMotion, 20));
    assert_eq!(relative.id, 3);
    assert_eq!(
        json(&relative.text),
        json(r#"{"jsonrpc":"2.0","method":"printer.gcode.script","params":{"script":"G91"},"id":3}"#)
    );
    assert_eq!(connection.pending(), 3);
    assert!(connection.is_pending(2));
    assert!(connection.is_pending(3));
}

#[test]
fn move_is_refused_until_the_machine_is_known_to_be_safe() {
    let (mut connection, _) = Connection::open(0);
    let command = a_move(1.0, 2.0, 3.0, 600);
    assert!(matches!(connection.on_command(&command, 1), Dispatch::Refused));
    assert_eq!(connection.last_id(), 1);
    assert_eq!(connection.pending(), 1);

    connection.on_text(&status_notification("xy", false), 2);
    assert!(matches!(connection.on_command(&command, 3), Dispatch::Refused));
    assert_eq!(connection.last_id(), 1);

    connection.on_text(&status_notification("xyz", true), 4);
    assert!(matches!(connection.on_command(&command, 5), Dispatch::Refused));
    assert_eq!(connection.last_id(), 1);
    assert_eq!(connection.pending(), 1);
}

#[test]
fn move_is_sent_when_homed_and_relative() {
    let (mut connection, _) = Connection::open(0);
    connection.on_text(&status_notification("xyz", false), 1);
    let request = sent(connection.on_command(&a_move(1.0, 2.0, 3.0, 600), 2));
    assert_eq!(request.id, 2);
    let message = json(&request.text);
    assert_eq!(message["jsonrpc"].as_str(), Some("2.0"));
    assert_eq!(message["method"].as_str(), Some("printer.gcode.script"));
    assert_eq!(message["params"]["script"].as_str(), Some("G0 X1.000 Y2.000 Z3.000 F600"));
    assert_eq!(message["id"].as_u64(), Some(2));
    assert!(connection.is_pending(2));
}

#[test]
fn refusal_follows_the_state_at_the_moment_of_the_command() {
    let (mut connection, _) = Connection::open(0);
    let command = a_move(0.5, 0.0, 0.0, 30);
    connection.on_text(&status_notification("xyz", false), 1);
    assert!(matches!(connection.on_command(&command, 2), Dispatch::Send(_)));
    connection.on_text(r#"{"method":"notify_status_update","params":[{"toolhead":{"homed_axes":""}}]}"#, 3);
    assert!(matches!(connection.on_command(&command, 4), Dispatch::Refused));
    connection.on_text(r#"{"method":"notify_status_update","params":[{"toolhead":{"homed_axes":"xyz"}}]}"#, 5);
    assert!(matches!(connection.on_command(&command, 6), Dispatch::Send(_)));
}

#[test]
fn ids_within_a_session_go_up() {
    let (mut connection, first) = Connection::open(0);
    let mut last = first.id;
    assert_eq!(last, 1);
    for round in 0..50u64 {
        let request = sent(connection.on_command(&PrinterCommand::Home, round));
        assert_eq!(request.id, last + 1);
        last = request.id;
        connection.on_text(r#"{"method":"notify_proc_stat_update","params":[{}]}"#, round);
        assert!(matches!(
            connection.on_command(&a_move(1.0, 0.0, 0.0, 1), round),
            Dispatch::Refused
        ));
    }
    assert_eq!(connection.last_id(), 51);
}

#[test]
fn response_tells_the_latency_of_its_request() {
    let (mut connection, _) = Connection::open(1_000);
    let reaction = connection.on_text(
        r#"{"jsonrpc":"2.0","id":1,"result":{"eventtime":3.25,"status":{"toolhead":{"homed_axes":"xyz"},"gcode_move":{"absolute_coordinates":false}}}}"#,
        6_500,
    );
    let received = match reaction {
        Reaction::Received(received) => received,
        other => panic!("unexpected reaction {:?}", other),
    };
    let latency = received.latency.unwrap();
    assert_eq!(latency.id, 1);
    assert_eq!(latency.elapsed, Duration::from_nanos(5_500));
    let update = received.update.unwrap();
    assert_eq!(update.homed_axes.as_deref(), Some("xyz"));
    assert_eq!(update.absolute_coordinates, Some(false));
    assert!(received.reported);
    assert_eq!(connection.pending(), 0);
    assert!(connection.printer_state().allows_move());
}

#[test]
fn response_with_an_unknown_id_changes_nothing() {
    let (mut connection, _) = Connection::open(0);
    sent(connection.on_command(&PrinterCommand::Home, 5));
    for text in [r#"{"jsonrpc":"2.0","id":9,"result":"ok"}"#, r#"{"id":"1","result":"ok"}"#, r#"{"id":-1}"#] {
        let reaction = connection.on_text(text, 10);
        match reaction {
            Reaction::Received(received) => {
                assert!(received.latency.is_none());
                assert!(received.update.is_none());
            }
            other => panic!("unexpected reaction {:?}", other),
        }
        assert_eq!(connection.pending(), 2);
        assert!(connection.is_pending(1));
        assert!(connection.is_pending(2));
        assert_eq!(connection.last_id(), 2);
        assert_eq!(connection.printer_state().homed_axes(), "");
    }
}

#[test]
fn second_response_to_one_request_finds_nothing() {
    let (mut connection, _) = Connection::open(0);
    sent(connection.on_command(&PrinterCommand::Home, 5));
    let first = connection.on_text(r#"{"id":2,"result":"ok"}"#, 30);
    match first {
        Reaction::Received(received) => {
            let latency = received.latency.unwrap();
            assert_eq!((latency.id, latency.elapsed), (2, Duration::from_nanos(25)));
        }
        other => panic!("unexpected reaction {:?}", other),
    }
    assert!(connection.is_pending(1));
    assert!(!connection.is_pending(2));
    let second = connection.on_text(r#"{"id":2,"result":"ok"}"#, 40);
    match second {
        Reaction::Received(received) => assert!(received.latency.is_none()),
        other => panic!("unexpected reaction {:?}", other),
    }
    assert_eq!(connection.pending(), 1);
}

#[test]
fn text_that_is_not_json_is_passed_over() {
    let (mut connection, _) = Connection::open(0);
    for text in ["", "{", "not json", r#"{"id":1,}"#, r#"{"id":1} trailing"#] {
        assert!(matches!(connection.on_text(text, 1), Reaction::Malformed), "{:?}", text);
        assert_eq!(connection.pending(), 1);
        assert_eq!(connection.printer_state().homed_axes(), "");
    }
}

#[test]
fn routine_notification_updates_the_state_in_silence() {
    let (mut connection, _) = Connection::open(0);
    let reaction = connection.on_text(&status_notification("xyz", true), 1);
    match reaction {
        Reaction::Received(received) => {
            assert!(!received.reported);
            assert!(received.latency.is_none());
            assert!(received.update.is_some());
        }
        other => panic!("unexpected reaction {:?}", other),
    }
    assert_eq!(connection.printer_state().homed_axes(), "xyz");
    assert!(connection.printer_state().absolute_coordinates());
    assert_eq!(connection.pending(), 1);
}

#[test]
fn frames_other_than_text() {
    let (mut connection, _) = Connection::open(0);
    match connection.on_frame(&Frame::Ping(vec![1, 2, 3]), 1) {
        Reaction::Pong(payload) => assert_eq!(payload, vec![1, 2, 3]),
        other => panic!("unexpected reaction {:?}", other),
    }
    match connection.on_frame(&Frame::Ping(Vec::new()), 1) {
        Reaction::Pong(payload) => assert!(payload.is_empty()),
        other => panic!("unexpected reaction {:?}", other),
    }
    assert!(matches!(connection.on_frame(&Frame::Other, 2), Reaction::Unexpected));
    assert!(matches!(connection.on_frame(&Frame::Close, 3), Reaction::Stop));
    assert_eq!(connection.pending(), 1);
    assert_eq!(connection.last_id(), 1);
}

#[test]
fn text_frame_is_taken_in() {
    let (mut connection, _) = Connection::open(100);
    let frame = Frame::Text(r#"{"id":1,"result":{"status":{"toolhead":{"homed_axes":"xyz"}}}}"#.to_string());
    match connection.on_frame(&frame, 350) {
        Reaction::Received(received) => {
            assert_eq!(received.latency.unwrap().elapsed, Duration::from_nanos(250));
        }
        other => panic!("unexpected reaction {:?}", other),
    }
    assert!(matches!(connection.on_frame(&Frame::Text("]".to_string()), 400), Reaction::Malformed));
    assert_eq!(connection.printer_state().homed_axes(), "xyz");
}

#[test]
fn message_taken_in_by_hand() {
    let (mut connection, _) = Connection::open(10);
    let received = connection.take_in(
        Message {
            id: Some(1),
            status: Some(StatusUpdate { homed_axes: Some("xyz".to_string()), absolute_coordinates: None }),
            reported: true,
        },
        25,
    );
    assert_eq!(received.latency.unwrap().elapsed, Duration::from_nanos(15));
    assert_eq!(received.update.unwrap().homed_axes.as_deref(), Some("xyz"));
    assert!(received.reported);
    assert!(connection.printer_state().allows_move());
    let received = connection.take_in(Message { id: Some(1), status: None, reported: false }, 30);
    assert!(received.latency.is_none());
    assert!(received.update.is_none());
    assert!(!received.reported);
    assert!(connection.printer_state().allows_move());
}
