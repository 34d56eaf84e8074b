//! Jogging a networked machine from a 3D input device.
//!
//! The library holds the decisions of the bridge, each with a contract that
//! the verifier has proved; reading the device, keeping time and talking to
//! the network are left to the program around it.
//!
//! - `spacemouse`: where each event of the device goes.
//! - `motion`: the command generator, which turns the latest velocity into a
//!   move once a period.
//! - `moonraker_api`: one session with the machine, with the state that is
//!   known of the machine and the condition it sets on moves.
//! - `rpc`: request identifiers, the registry of requests that await their
//!   response, and the framing of requests.
//! - `types`, `scalar`, `decimal`: the values that pass between these, and
//!   how they are written as G-code.
//! - `json`, `clock`: what is taken on trust from `serde_json` and from
//!   `std::time`.
//! - `constants`: the rate of the command generator.

pub mod clock;
pub mod constants;
pub mod decimal;
pub mod json;
pub mod moonraker_api;
pub mod motion;
pub mod rpc;
pub mod scalar;
pub mod spacemouse;
pub mod types;
