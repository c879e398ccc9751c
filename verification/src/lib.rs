//! Core of a keyboard-to-gamepad remapper.
//!
//! Physical key transitions are translated through a user-supplied mapping
//! table into logical gamepad actions, which are then lowered to concrete
//! device events (button codes, axis codes and values) paired with
//! synchronization barriers. The surrounding binary owns all device and file
//! I/O; everything here is pure logic with proved contracts.

pub mod actions;
pub mod capabilities;
pub mod emission;
pub mod mapping;
pub mod translate;
pub mod gamepad;
pub mod profile;
pub mod supervisor;
