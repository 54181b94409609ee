//! Service updater: decides when, and in what coordinated order, a running
//! service is upgraded to a newer version of its software package.
//!
//! The crate is organised around three concerns that must stay consistent
//! with one another:
//!
//! * a polling discipline with a hard floor on the polling period and an
//!   operator escape hatch (`period`);
//! * a per-service-group state machine that orchestrates immediate or
//!   rolling upgrades across a cluster (`updater`);
//! * a background worker whose mission is either to chase the latest
//!   package or to fetch one exact identity (`worker`).
//!
//! The state machines are pure: every decision is a function from the
//! current state, the cluster census and a channel event to the next state
//! and an action for the caller to perform. The caller (the supervisor's
//! main loop) owns the threads, channels, clocks and environment variables
//! and feeds their observations in as plain values.

pub mod census;
pub mod ident;
pub mod period;
pub mod service;
pub mod updater;
pub mod worker;
