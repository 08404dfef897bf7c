//! Mode state machine and frame scheduler for a two-mode interactive
//! application (a main menu and an in-game session).
//!
//! Each tick the scheduler decides which behaviors may run, runs setup and
//! teardown hooks exactly once at mode boundaries, and runs a fixed-rate
//! behavior set on an accumulated-time budget that is independent of the
//! variable per-frame rate. The host engine (rendering, physics, input
//! devices) is an external collaborator: this crate only sequences when its
//! work happens, reporting every run as an event the host can act on.

pub mod state;
pub mod timestep;
pub mod widget;
pub mod world;
pub mod registry;
pub mod scheduler;
