//! Version-4 (random) UUIDs: construction from entropy, field inspection,
//! canonical text rendering and equality, with every operation verified.
//!
//! The library performs no input or output. Whoever calls it reads the
//! platform's secure random source and hands over what came back.
//!
//! - [`identifier`]: the 128-bit value, its version and variant fields, and
//!   what generation does to 16 bytes of entropy.
//! - [`text`]: the canonical `8-4-4-4-12` text form.
//! - [`error`]: the errors of the core.
//! - [`ffi`]: the operations as a caller in another language sees them, with
//!   buffers checked and outcomes as status codes.

pub mod error;
pub mod ffi;
pub mod identifier;
pub mod text;

pub use error::UuidError;
pub use identifier::Uuid;
