//! Core engine of a terminal front-end for switching the GPU operating mode
//! of a dual-GPU laptop.
//!
//! The library holds everything that decides: the modal application state and
//! its transition functions, the key dispatch policy, the polling protocol for
//! a worker that runs the privileged tool off the interactive thread, and the
//! adapter logic that builds the tool's argument lists and parses its output.
//! Every function here is verified; the surrounding binary only performs the
//! I/O (terminal, processes) and hands plain values in and out.

pub mod app;
pub mod envycontrol;
pub mod text;
