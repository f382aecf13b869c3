//! An operator console's engine: sessions accepted from the network, their
//! byte buses, the terminal that follows each peer's output, and the registry
//! and selection state that a front end drives.
//!
//! - `terminal`: a session's terminal, its model and what holds of it.
//! - `session`: the bus, the session and one turn of each relay loop.
//! - `app`: the console's state and what each key does to it.
//! - `registry`: the registry's identifiers and what holds of them.
//! - `ui`: what the dashboard shows, as plain values.
//! - `keys`: key reports and the bytes that keys send.
//! - `emulator`, `channel`: the calls into vt100 and into crossbeam, with
//!   what is taken on trust about each.

pub mod app;
pub mod channel;
pub mod emulator;
pub mod keys;
pub mod registry;
pub mod session;
pub mod terminal;
pub mod ui;
