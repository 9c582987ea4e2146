//! Verified core of the control bindings for a Verilated model's runtime.
//!
//! The runtime keeps its settings in process-wide state and speaks in plain
//! integers and null-terminated byte buffers. This crate holds everything the
//! bindings compute on the way in and out of it: the integer that stands for a
//! reset mode, the reading of a flag, the buffers built from command-line
//! arguments, and the text decoded from the bytes that the runtime returns.
//! The foreign calls themselves are made by the layer that links the runtime.

pub mod args;
pub mod flags;
pub mod mode;
pub mod product;

pub use args::{command_args, EncodingError};
pub use flags::{got_finish, set_finish, trace_ever_on};
pub use mode::{rand_reset, set_rand_reset, RandomMode};
pub use product::{product_name, product_version, DecodingError};
