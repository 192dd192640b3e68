//! Supervision of a single long-lived backend worker process.
//!
//! The crate holds the lifecycle rules of the worker: the single-occupancy
//! slot that owns the worker's handle, the start / stop / restart / quit
//! operations on that slot, the turning of worker events into
//! notifications, and the tray menu that mirrors the slot's occupancy.
//! Spawning, signalling and waiting are handed in by the caller as closures
//! and run with the guard of the shared state released;
//! every decision around them is made, and proved, here.

pub mod error;
pub mod slot;
pub mod supervisor;
pub mod laws;
pub mod events;
pub mod menu;
pub mod state;
pub mod invocation;
