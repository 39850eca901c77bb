//! Core of a plain-text host-diagnostics service.
//!
//! External OS utilities report memory, disk and mount state; their raw
//! output bytes are decoded one character per byte, checked for a successful
//! exit, and assembled into one ordered, templated text document. Everything
//! here is pure: spawning the processes and serving HTTP stay outside, and
//! hand this crate plain values.

pub mod command;
pub mod configs;
pub mod decode;
pub mod join;
pub mod report;
pub mod routes;
pub mod runner;
