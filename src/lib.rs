//! A playback controller for a single media engine, driven by a serial
//! command queue, and the text-frame display that runs beside it.
//!
//! The library holds the decisions; the program around it owns the engine,
//! the threads and the terminal, and performs what the library decides.
pub mod controller;
pub mod display;
pub mod session;
