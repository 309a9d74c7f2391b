//! Runtime driver for a terminal user interface: event multiplexing over
//! heterogeneous signal channels, per-event dispatch policy, session restart
//! protocol, and terminal lifecycle bookkeeping, with the surrounding I/O kept
//! outside the verified core.

pub mod cadence;
pub mod channels;
pub mod dispatch;
pub mod events;
pub mod runtime;
pub mod session;
pub mod spinner;
pub mod startup;
pub mod teardown;
pub mod title;
