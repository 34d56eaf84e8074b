use spacemouse_bridge::spacemouse::{route_event, DeviceEvent, Routing};
use spacemouse_bridge::types::{PrinterCommand, SpaceMouseState};

#[test]
fn first_button_homes() {
    let route = route_event(&DeviceEvent::Button { index: 0, pressed: true });
    assert!(matches!(route, Routing::Command(PrinterCommand::Home)));
}

#[test]
fn second_button_switches_to_relative_positions() {
    let route = route_event(&DeviceEvent::Button { index: 1, pressed: true });
    assert!(matches!(route, Routing::Command(PrinterCommand::SetRelativeMotion)));
}

#[test]
fn releases_are_ignored() {
    for index in [0, 1, 2, -1, i32::MAX] {
        let route = route_event(&DeviceEvent::Button { index, pressed: false });
        assert!(matches!(route, Routing::Ignored), "button {}", index);
    }
}

#[test]
fn other_buttons_have_no_meaning() {
    for index in [2, 3, 15, -1, i32::MIN, i32::MAX] {
        let route = route_event(&DeviceEvent::Button { index, pressed: true });
        match route {
            Routing::Unsupported(button) => assert_eq!(button, index),
            other => panic!("unexpected routing {:?}", other),
        }
    }
}

#[test]
fn readings_go_to_the_command_generator() {
    let reading = SpaceMouseState { x: -3, y: 7, z: 11, rx: 1, ry: 2, rz: 3, button0: false, button1: false };
    match route_event(&DeviceEvent::Motion(reading)) {
        Routing::Motion(forwarded) => {
            assert_eq!(
                (forwarded.x, forwarded.y, forwarded.z, forwarded.rx, forwarded.ry, forwarded.rz),
                (-3, 7, 11, 1, 2, 3)
            );
        }
        other => panic!("unexpected routing {:?}", other),
    }
}
