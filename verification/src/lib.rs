//! The rules of a binding to the Spout native library.
//!
//! The library is reached through one exported function, which returns a
//! handle, and through a table of function addresses behind that handle.
//! This crate holds what has to be right for such a binding to work and can
//! be said without touching the process: which table position each
//! operation lives at ([`Operation`]), how a call's arguments are laid out
//! for it ([`Call`]), what the object that holds the handle may still do
//! ([`Spout`]), and what is left to load before the entry point can be
//! called ([`Linkage`]).
//!
//! Loading the library and jumping into it are the host's part. The host
//! hands every operation a function that makes the jump; the operation tells
//! that function where to jump and with what, and returns its answer as it
//! came.

pub mod call;
pub mod facade;
pub mod level;
pub mod linkage;
pub mod operation;
pub mod value;

pub use call::{Call, Plan};
pub use facade::Spout;
pub use level::SpoutLibLogLevel;
pub use linkage::{library_path, Linkage, Stage, Step, DEFAULT_LIBRARY, ENTRY_POINT};
pub use operation::{Operation, SLOTS};
pub use value::{Kind, Reply, Value};
