//! What to do with each event of the input device.

use crate::types::{PrinterCommand, SpaceMouseState};
use vstd::prelude::*;

verus! {

/// An event of the input device.
#[derive(Debug, Clone, Copy)]
pub enum DeviceEvent {
    /// The axes have moved.
    Motion(SpaceMouseState),
    /// A button went down or came up.
    Button { index: i32, pressed: bool },
}

/// Where an event goes.
#[derive(Debug, Clone, Copy)]
pub enum Routing {
    /// To the command generator, as the reading to take the velocity from.
    Motion(SpaceMouseState),
    /// To the machine, as this command.
    Command(PrinterCommand),
    /// Nowhere: a button without a meaning was pressed.
    Unsupported(i32),
    /// Nowhere: a button came up.
    Ignored,
}

/// The command that a button stands for: the first homes the machine, the
/// second switches it to relative positions, and no other has a meaning.
pub open spec fn button_command(index: i32) -> Option<PrinterCommand> {
    if index == 0 {
        Some(PrinterCommand::Home)
    } else if index == 1 {
        Some(PrinterCommand::SetRelativeMotion)
    } else {
        None
    }
}

/// Where an event goes: a reading to the command generator, the press of a
/// button to the machine as the command that the button stands for, and a
/// release nowhere.
pub open spec fn routing(event: DeviceEvent) -> Routing {
    match event {
        DeviceEvent::Motion(reading) => Routing::Motion(reading),
        DeviceEvent::Button { index, pressed } => if !pressed {
            Routing::Ignored
        } else {
            match button_command(index) {
                Some(command) => Routing::Command(command),
                None => Routing::Unsupported(index),
            }
        },
    }
}

/// Decides where an event goes.
pub fn route_event(event: &DeviceEvent) -> (route: Routing)
    ensures
        route == routing(*event),
        *event matches DeviceEvent::Button { index, pressed } ==> {
            &&& pressed && index == 0 ==> route == Routing::Command(PrinterCommand::Home)
            &&& pressed && index == 1 ==> route == Routing::Command(
                PrinterCommand::SetRelativeMotion,
            )
            &&& pressed && index != 0 && index != 1 ==> route == Routing::Unsupported(index)
            &&& !pressed ==> route == Routing::Ignored
        },
        *event matches DeviceEvent::Motion(reading) ==> route == Routing::Motion(reading),
{
    match event {
        DeviceEvent::Motion(reading) => Routing::Motion(*reading),
        DeviceEvent::Button { index, pressed } => {
            if !*pressed {
                Routing::Ignored
            } else if *index == 0 {
                Routing::Command(PrinterCommand::Home)
            } else if *index == 1 {
                Routing::Command(PrinterCommand::SetRelativeMotion)
            } else {
                Routing::Unsupported(*index)
            }
        },
    }
}

} // verus!
