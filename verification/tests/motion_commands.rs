use spacemouse_bridge::motion::{generate_motion_commands, machine_axes, MotionState};
use spacemouse_bridge::scalar::Scalar;
use spacemouse_bridge::types::{MoveParameters, PrinterCommand, SpaceMouseState, Velocity};

const SCALE: (f32, f32, f32, f32) = (1.0, 1.0, 0.5, 0.4);
const TIME_STEP: f32 = 1.0 / 30.0;

fn scalar(value: f32) -> Scalar {
    Scalar::from_bits(value.to_bits())
}

fn number(scalar: Scalar) -> f32 {
    f32::from_bits(scalar.to_bits())
}

fn velocity_of(reading: &SpaceMouseState) -> Velocity {
    let axes = machine_axes(reading);
    Velocity {
        x: scalar(axes.x as f32 * SCALE.0),
        y: scalar(axes.y as f32 * SCALE.1),
        z: scalar(axes.z as f32 * SCALE.2),
    }
}

fn parameters_of(velocity: Velocity) -> MoveParameters {
    let (x, y, z) = (number(velocity.x), number(velocity.y), number(velocity.z));
    let speed = (x * x + y * y + z * z).sqrt();
    MoveParameters {
        x: scalar(x * TIME_STEP),
        y: scalar(y * TIME_STEP),
        z: scalar(z * TIME_STEP),
        feedrate: (speed * 60.0 * SCALE.3).round() as i32,
    }
}

fn reading(x: i32, y: i32, z: i32) -> SpaceMouseState {
    SpaceMouseState { x, y, z, ..SpaceMouseState::default() }
}

fn tick(state: &mut MotionState) -> Option<PrinterCommand> {
    let parameters = parameters_of(state.current_velocity());
    state.on_tick(parameters)
}

#[test]
fn device_y_and_z_trade_places() {
    let axes = machine_axes(&SpaceMouseState {
        x: 1,
        y: 2,
        z: 3,
        rx: 4,
        ry: 5,
        rz: 6,
        button0: true,
        button1: false,
    });
    assert_eq!((axes.x, axes.y, axes.z), (1, 3, 2));
}

#[test]
fn velocity_follows_the_permuted_axes() {
    let velocity = velocity_of(&reading(10, 20, 30));
    assert_eq!(number(velocity.x), 10.0);
    assert_eq!(number(velocity.y), 30.0);
    assert_eq!(number(velocity.z), 10.0);
}

#[test]
fn zero_feedrate_gives_no_command() {
    let still = MoveParameters { x: scalar(0.1), y: scalar(0.0), z: scalar(0.0), feedrate: 0 };
    assert_eq!(generate_motion_commands(still), None);
    let moving = MoveParameters { feedrate: 24, ..still };
    assert_eq!(generate_motion_commands(moving), Some(PrinterCommand::Move(moving)));
    let backwards = MoveParameters { feedrate: -3, ..still };
    assert_eq!(generate_motion_commands(backwards), Some(PrinterCommand::Move(backwards)));
}

#[test]
fn generator_starts_at_rest() {
    let mut state = MotionState::new();
    assert!(state.current_velocity() == Velocity::default());
    assert!(state.last_handled_velocity() == Velocity::default());
    assert_eq!(tick(&mut state), None);
}

#[test]
fn slow_motion_is_suppressed_whether_or_not_it_changed() {
    let mut state = MotionState::new();
    let slow = Velocity { x: scalar(0.01), y: scalar(0.0), z: scalar(0.0) };
    assert_eq!(parameters_of(slow).feedrate, 0);
    state.update_velocity(slow);
    assert_eq!(tick(&mut state), None);
    assert!(state.last_handled_velocity() == Velocity::default());
    let slower = Velocity { x: scalar(0.0), y: scalar(-0.02), z: scalar(0.0) };
    assert_eq!(parameters_of(slower).feedrate, 0);
    state.update_velocity(slower);
    assert_eq!(tick(&mut state), None);
    assert!(state.last_handled_velocity() == Velocity::default());
}

#[test]
fn two_different_velocities_give_two_moves() {
    let mut state = MotionState::new();
    state.update_velocity(velocity_of(&reading(30, 0, 0)));
    let first = tick(&mut state).unwrap();
    assert_eq!(
        first,
        PrinterCommand::Move(MoveParameters {
            x: scalar(30.0 * TIME_STEP),
            y: scalar(0.0),
            z: scalar(0.0),
            feedrate: 720,
        })
    );
    assert_eq!(first.to_gcode(), "G0 X1.000 Y0.000 Z0.000 F720");

    state.update_velocity(velocity_of(&reading(0, 40, 30)));
    let second = tick(&mut state).unwrap();
    assert_eq!(
        second,
        PrinterCommand::Move(MoveParameters {
            x: scalar(0.0),
            y: scalar(30.0 * TIME_STEP),
            z: scalar(20.0 * TIME_STEP),
            feedrate: 865,
        })
    );
    assert_eq!(second.to_gcode(), "G0 X0.000 Y1.000 Z0.667 F865");
    assert!(state.last_handled_velocity() == velocity_of(&reading(0, 40, 30)));
}

#[test]
fn unchanged_velocity_gives_one_move_only() {
    let mut state = MotionState::new();
    state.update_velocity(velocity_of(&reading(5, 5, 5)));
    assert!(tick(&mut state).is_some());
    assert_eq!(tick(&mut state), None);
    state.update_velocity(velocity_of(&reading(5, 5, 5)));
    assert_eq!(tick(&mut state), None);
}

#[test]
fn only_the_latest_reading_counts() {
    let mut state = MotionState::new();
    state.update_velocity(velocity_of(&reading(100, 0, 0)));
    state.update_velocity(velocity_of(&reading(0, 0, 3)));
    let command = tick(&mut state).unwrap();
    assert_eq!(command.to_gcode(), "G0 X0.000 Y0.100 Z0.000 F72");
}

#[test]
fn velocity_that_falls_to_zero_and_comes_back_is_not_repeated() {
    let mut state = MotionState::new();
    let moving = velocity_of(&reading(12, 0, 0));
    state.update_velocity(moving);
    assert!(tick(&mut state).is_some());
    state.update_velocity(velocity_of(&reading(0, 0, 0)));
    assert_eq!(tick(&mut state), None);
    assert!(state.last_handled_velocity() == moving);
    state.update_velocity(moving);
    assert_eq!(tick(&mut state), None);
    state.update_velocity(velocity_of(&reading(13, 0, 0)));
    assert!(tick(&mut state).is_some());
}

#[test]
fn undefined_velocity_never_counts_as_handled() {
    let mut state = MotionState::new();
    let undefined = Velocity { x: scalar(f32::NAN), y: scalar(0.0), z: scalar(0.0) };
    let parameters = MoveParameters { x: scalar(f32::NAN), y: scalar(0.0), z: scalar(0.0), feedrate: 5 };
    state.update_velocity(undefined);
    assert!(state.on_tick(parameters).is_some());
    assert!(state.on_tick(parameters).is_some());
}
