//! Control library for a laptop's RGB keyboard, fan and power-profile
//! hardware.
//!
//! The crate holds the keyboard lighting effect engine (a fixed 6 x 15 board
//! model, four animated effect state machines, and a layered effect manager
//! that composites them), the daemon's configuration record, the wire-protocol
//! message types, and the request dispatch logic.  All device, file and socket
//! I/O is left to the surrounding application: the library computes board
//! snapshots, device payloads and protocol responses as plain values.

pub mod board;
pub mod comms;
pub mod config;
pub mod dispatch;
pub mod effects;
pub mod manager;

pub use board::AnimatorKeyColour;
pub use board::KeyColour;
pub use board::KeyboardData;
pub use board::RowData;
