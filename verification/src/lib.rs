//! A sandbox core: a filesystem vocabulary with one word per operation, and the
//! lifecycle of a sandboxed run from plan to verified cleanup.

pub mod bytes;
pub mod capability;
pub mod capability_modes;
pub mod errno;
pub mod error;
pub mod escape;
pub mod lifecycle;
pub mod parse;
pub mod path;
pub mod text;
pub mod time;
