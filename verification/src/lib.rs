//! Decision logic of an isolate pool service.
//!
//! The service rents out sandboxed script-execution contexts and enforces
//! limits on wall-clock time, CPU time, heap growth and resource requests.
//! This crate holds the rules of that service as verified functions over
//! plain values; threads, channels and the script engine live with the
//! caller.


pub mod console;
pub mod drive;
pub mod manager;
pub mod modules;
pub mod protocol;
pub mod registry;
pub mod resources;
pub mod runtime;
pub mod service;
pub mod string_map;
pub mod time;
pub mod waker;
pub mod web;
