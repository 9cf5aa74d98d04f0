//! The decision-making core of a game-streaming host: how an application is
//! launched, how captured audio is cut into frames, and how a client's gamepad
//! packets become events of a virtual device.
//!
//! Everything here works on plain values. Opening devices, running processes
//! and moving bytes is left to the code around the library.

pub mod application;
pub mod calls;
pub mod errno;
pub mod float;
pub mod gamepad;
pub mod ioctl;
pub mod le;
pub mod sequence;
pub mod session;
pub mod stream;
pub mod text;
