//! An in-memory bill tracker: a record store keyed by bill name, and the
//! menu-driven shell that operates it, modelled as a state machine.
//!
//! The store and the shell logic are verified. Reading lines, parsing and
//! formatting amounts, and printing are left to the host program, which
//! drives the shell one event at a time; amounts travel through the store
//! as opaque 64-bit values.

pub mod input;
pub mod menu;
pub mod shell;
pub mod store;
