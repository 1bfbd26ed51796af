//! State-synchronization core of a networked lamp controller.
//!
//! The library owns the lamp/sensor boolean state, arbitrates between manual
//! commands and sensor-driven automatic control, decides what must be written
//! to the output port and the persistent store and what must be published to
//! the remote supervisor. All hardware, storage and network I/O is performed
//! by the surrounding application, which feeds plain values in and carries the
//! decided effects out.

pub mod model;
pub mod reconciler;
pub mod router;
pub mod store;
pub mod topics;
