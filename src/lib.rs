//! Normalised debugger state: register decoding, point-in-time snapshots of
//! registers, the selected frame and its variables, and the difference
//! between two consecutive snapshots.

pub mod diff;
pub mod register;
pub mod snapshot;

pub use register::Register;
pub use snapshot::{DebugInfo, Frame, Variable};
pub use diff::{diff_debug_info, DiffInfo};
