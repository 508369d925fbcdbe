//! A small terminal grid-exploration toy, split into a verified core and a
//! thin unverified shell.  The core owns the world model (grid, objects,
//! player), the key-to-action translation, the render planning (sequences of
//! terminal commands), and the session state machine.  The shell performs the
//! actual terminal I/O by interpreting the planned commands.

pub mod controller;
pub mod playground;
pub mod gui;
pub mod session;
