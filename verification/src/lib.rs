//! Ownership-correct handling of virtual gamepad targets and the bus client
//! they are attached to.
//!
//! The library never talks to the driver itself. Every operation that needs
//! the driver hands back a [`NativeCall`] describing the call to make; the
//! embedding program performs it and feeds the reply back in.

pub mod client;
pub mod error;
pub mod kinds;
pub mod lifecycle;
pub mod model;
pub mod native;
pub mod report;
pub mod target;

pub use client::{ClientHandle, SharedClientHandle};
pub use error::VigemError;
pub use kinds::{Provenance, TargetState, TargetType};
pub use model::TargetModel;
pub use native::{NativeCall, NativeTarget};
pub use report::{DSReport, Reportable, XUSBReport};
pub use target::Target;
