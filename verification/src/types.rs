//! The values that pass between the device, the command generator and the
//! RPC client.

use crate::decimal::{push_signed_decimal, signed_decimal};
use crate::scalar::Scalar;
use vstd::prelude::*;
use vstd::std_specs::cmp::PartialEqSpecImpl;

verus! {

/// A velocity along the machine's three axes, in scaled device units a second.
#[derive(Debug, Clone, Copy)]
pub struct Velocity {
    pub x: Scalar,
    pub y: Scalar,
    pub z: Scalar,
}

impl Velocity {
    /// Whether two velocities are the same on all three axes, number by
    /// number.
    pub open spec fn same_as(self, other: Velocity) -> bool {
        &&& self.x.same_number(other.x)
        &&& self.y.same_number(other.y)
        &&& self.z.same_number(other.z)
    }

    /// Standing still.
    pub open spec fn at_rest() -> Velocity {
        Velocity { x: Scalar { bits: 0 }, y: Scalar { bits: 0 }, z: Scalar { bits: 0 } }
    }
}

impl Default for Velocity {
    fn default() -> (velocity: Self)
        ensures
            velocity == Velocity::at_rest(),
    {
        Velocity { x: Scalar::zero(), y: Scalar::zero(), z: Scalar::zero() }
    }
}

impl PartialEq for Velocity {
    fn eq(&self, other: &Velocity) -> (equal: bool) {
        self.x == other.x && self.y == other.y && self.z == other.z
    }
}

impl PartialEqSpecImpl for Velocity {
    open spec fn obeys_eq_spec() -> bool {
        true
    }

    open spec fn eq_spec(&self, other: &Velocity) -> bool {
        self.same_as(*other)
    }
}

/// A displacement along the three axes and the feed rate, in units a minute,
/// at which to make it.
#[derive(Debug, Clone, Copy, PartialEq)]
pub struct MoveParameters {
    pub x: Scalar,
    pub y: Scalar,
    pub z: Scalar,
    pub feedrate: i32,
}

impl MoveParameters {
    /// The move as a line of G-code: `G0`, the three coordinates with three
    /// decimals each, and the feed rate.
    pub open spec fn gcode(self) -> Seq<char> {
        seq!['G', '0', ' ', 'X'] + self.x.fixed3_text() + seq![' ', 'Y'] + self.y.fixed3_text()
            + seq![' ', 'Z'] + self.z.fixed3_text() + seq![' ', 'F'] + signed_decimal(
            self.feedrate as int,
        )
    }

    /// Writes the move as a line of G-code.
    pub fn to_string(&self) -> (line: String)
        ensures
            line@ == self.gcode(),
    {
        proof {
            reveal_strlit("G0 X");
            reveal_strlit(" Y");
            reveal_strlit(" Z");
            reveal_strlit(" F");
        }
        let mut line = String::from_str("G0 X");
        let x = self.x.fixed3();
        line.append(x.as_str());
        line.append(" Y");
        let y = self.y.fixed3();
        line.append(y.as_str());
        line.append(" Z");
        let z = self.z.fixed3();
        line.append(z.as_str());
        line.append(" F");
        push_signed_decimal(&mut line, self.feedrate);
        line
    }
}

/// What the machine can be told to do.
#[derive(Debug, Clone, Copy, PartialEq)]
pub enum PrinterCommand {
    /// Move by a displacement at a feed rate.
    Move(MoveParameters),
    /// Home all axes.
    Home,
    /// Read the positions that follow as relative.
    SetRelativeMotion,
}

impl PrinterCommand {
    /// The G-code that carries the command.
    pub open spec fn gcode(self) -> Seq<char> {
        match self {
            PrinterCommand::Move(parameters) => parameters.gcode(),
            PrinterCommand::Home => seq!['G', '2', '8'],
            PrinterCommand::SetRelativeMotion => seq!['G', '9', '1'],
        }
    }

    /// Writes the G-code that carries the command.
    pub fn to_gcode(&self) -> (script: String)
        ensures
            script@ == self.gcode(),
    {
        match self {
            PrinterCommand::Move(parameters) => parameters.to_string(),
            PrinterCommand::Home => {
                proof {
                    reveal_strlit("G28");
                }
                let script = String::from_str("G28");
                script
            },
            PrinterCommand::SetRelativeMotion => {
                proof {
                    reveal_strlit("G91");
                }
                let script = String::from_str("G91");
                script
            },
        }
    }
}

/// One reading of the input device: six axes and two buttons.
#[derive(Debug, Copy, Clone)]
pub struct SpaceMouseState {
    pub x: i32,
    pub y: i32,
    pub z: i32,
    pub rx: i32,
    pub ry: i32,
    pub rz: i32,
    pub button0: bool,
    pub button1: bool,
}

impl Default for SpaceMouseState {
    /// The device at rest: every axis at zero, no button held.
    fn default() -> (state: Self)
        ensures
            state == (SpaceMouseState {
                x: 0,
                y: 0,
                z: 0,
                rx: 0,
                ry: 0,
                rz: 0,
                button0: false,
                button1: false,
            }),
    {
        SpaceMouseState {
            x: 0,
            y: 0,
            z: 0,
            rx: 0,
            ry: 0,
            rz: 0,
            button0: false,
            button1: false,
        }
    }
}

} // verus!
