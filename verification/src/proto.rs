//! Protocol buffer messages of the Canton sequencer API that this library builds
//! or reads, as plain Rust structs. Enumerations are carried as `i32` fields, the
//! way the wire format carries them.
pub mod crypto;
pub mod protocol;
pub mod sequencer;
