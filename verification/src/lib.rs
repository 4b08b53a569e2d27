//! A verified core for a terminal bandwidth-utilization dashboard.
//!
//! The library covers the render pipeline of the dashboard: converting raw
//! byte rates into human-readable strings, projecting tracked entities into
//! display rows, building titled tables, partitioning the screen into
//! regions, deriving a per-frame snapshot of the shared utilization store,
//! and the frame commit/reset protocol.  Terminal painting and locking stay
//! with the caller.

pub mod bandwidth;
pub mod frame;
pub mod layout;
pub mod rows;
pub mod state;
pub mod store;
pub mod table;
