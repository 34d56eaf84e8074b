//! The command generator: from the velocity that the device last gave, a
//! move once a period, unless there is nothing new to say.

use crate::types::{MoveParameters, PrinterCommand, SpaceMouseState, Velocity};
use vstd::prelude::*;

verus! {

/// The three translation axes of a reading, in the machine's order.
#[derive(Debug, Clone, Copy, PartialEq, Eq)]
pub struct AxisReading {
    pub x: i32,
    pub y: i32,
    pub z: i32,
}

/// Maps the device's axes to the machine's: x stays, and the device's y and
/// z trade places.
pub fn machine_axes(reading: &SpaceMouseState) -> (axes: AxisReading)
    ensures
        axes.x == reading.x,
        axes.y == reading.z,
        axes.z == reading.y,
{
    AxisReading { x: reading.x, y: reading.z, z: reading.y }
}

/// The move that a period's displacement asks for: none where the feed rate
/// is zero.
pub open spec fn motion_command(parameters: MoveParameters) -> Option<PrinterCommand> {
    if parameters.feedrate == 0 {
        None
    } else {
        Some(PrinterCommand::Move(parameters))
    }
}

/// The move that a period's displacement asks for: none where the feed rate
/// is zero.
pub fn generate_motion_commands(parameters: MoveParameters) -> (command: Option<PrinterCommand>)
    ensures
        command == motion_command(parameters),
{
    if parameters.feedrate == 0 {
        None
    } else {
        Some(PrinterCommand::Move(parameters))
    }
}

/// What the command generator keeps between periods.
#[derive(Debug, Clone, Copy)]
pub struct MotionState {
    current_velocity: Velocity,
    last_handled_velocity: Velocity,
}

/// The mathematical content of a `MotionState`.
pub struct MotionView {
    /// The velocity that the device last gave.
    pub current: Velocity,
    /// The velocity of the last move that was generated.
    pub last_handled: Velocity,
}

impl MotionView {
    /// Before the device has given anything: at rest, and at rest handled.
    pub open spec fn at_rest() -> MotionView {
        MotionView { current: Velocity::at_rest(), last_handled: Velocity::at_rest() }
    }

    /// The state after the device has given `velocity`: it takes the place of
    /// the current one.
    pub open spec fn sampled(self, velocity: Velocity) -> MotionView {
        MotionView { current: velocity, last_handled: self.last_handled }
    }

    /// Whether a period ends in a move: the feed rate is not zero and the
    /// velocity is not the one last handled.
    pub open spec fn emits(self, parameters: MoveParameters) -> bool {
        parameters.feedrate != 0 && !self.current.same_as(self.last_handled)
    }

    /// The command that a period ends in.
    pub open spec fn emitted(self, parameters: MoveParameters) -> Option<PrinterCommand> {
        if self.emits(parameters) {
            Some(PrinterCommand::Move(parameters))
        } else {
            None
        }
    }

    /// The state after a period: where it ended in a move, the current
    /// velocity is the one last handled; where not, nothing has changed.
    pub open spec fn ticked(self, parameters: MoveParameters) -> MotionView {
        if self.emits(parameters) {
            MotionView { current: self.current, last_handled: self.current }
        } else {
            self
        }
    }
}

impl View for MotionState {
    type V = MotionView;

    closed spec fn view(&self) -> MotionView {
        MotionView { current: self.current_velocity, last_handled: self.last_handled_velocity }
    }
}

impl MotionState {
    /// Before the device has given anything.
    pub fn new() -> (state: Self)
        ensures
            state@ == MotionView::at_rest(),
    {
        MotionState {
            current_velocity: Velocity::default(),
            last_handled_velocity: Velocity::default(),
        }
    }

    /// The velocity that the device last gave.
    pub fn current_velocity(&self) -> (velocity: Velocity)
        ensures
            velocity == self@.current,
    {
        self.current_velocity
    }

    /// The velocity of the last move that was generated.
    pub fn last_handled_velocity(&self) -> (velocity: Velocity)
        ensures
            velocity == self@.last_handled,
    {
        self.last_handled_velocity
    }

    /// Takes the velocity of a new reading in place of the current one.
    pub fn update_velocity(&mut self, velocity: Velocity)
        ensures
            final(self)@ == old(self)@.sampled(velocity),
    {
        self.current_velocity = velocity;
    }

    /// Ends a period. `parameters` holds the displacement that the current
    /// velocity makes in one period and the feed rate that goes with it. A
    /// move with them is generated unless the feed rate is zero or the
    /// velocity is the one last handled.
    pub fn on_tick(&mut self, parameters: MoveParameters) -> (command: Option<PrinterCommand>)
        ensures
            command == old(self)@.emitted(parameters),
            final(self)@ == old(self)@.ticked(parameters),
            parameters.feedrate == 0 ==> command is None && final(self)@ == old(self)@,
    {
        if self.current_velocity == self.last_handled_velocity {
            None
        } else {
            let command = generate_motion_commands(parameters);
            if command.is_some() {
                self.last_handled_velocity = self.current_velocity;
            }
            command
        }
    }
}

/// A period with a feed rate of zero ends in no move and leaves the velocity
/// last handled as it was, whatever the velocity is.
pub proof fn lemma_zero_feedrate_is_silent(state: MotionView, parameters: MoveParameters)
    requires
        parameters.feedrate == 0,
    ensures
        state.emitted(parameters) is None,
        state.ticked(parameters) == state,
{
}

/// A period in which the velocity is the one last handled ends in no move.
pub proof fn lemma_unchanged_velocity_is_silent(state: MotionView, parameters: MoveParameters)
    requires
        state.current.same_as(state.last_handled),
    ensures
        state.emitted(parameters) is None,
        state.ticked(parameters) == state,
{
}

/// Two velocities in a row, the first not at rest and the second not the
/// first, each with a feed rate that is not zero and each followed by the end
/// of a period, give two moves: each carries the displacement and the feed
/// rate of its own period.
pub proof fn lemma_two_velocities_two_moves(
    first: Velocity,
    second: Velocity,
    first_parameters: MoveParameters,
    second_parameters: MoveParameters,
)
    requires
        !first.same_as(Velocity::at_rest()),
        !second.same_as(first),
        first_parameters.feedrate != 0,
        second_parameters.feedrate != 0,
    ensures
        ({
            let sampled = MotionView::at_rest().sampled(first);
            let handled = sampled.ticked(first_parameters).sampled(second);
            &&& sampled.emitted(first_parameters) == Some(PrinterCommand::Move(first_parameters))
            &&& handled.emitted(second_parameters) == Some(
                PrinterCommand::Move(second_parameters),
            )
            &&& handled.ticked(second_parameters).last_handled == second
        }),
{
}

} // verus!
