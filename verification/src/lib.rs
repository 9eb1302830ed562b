//! Generator of TypeScript-style structural type declarations from
//! protobuf-style message schemas.
//!
//! Given a set of message schemas, the library emits for every message a
//! named type alias: a read-only object shape for the fields that are always
//! present, intersected with one union of object shapes per mutual-exclusion
//! (oneof) group.  The union encodes "at most one of these fields may be
//! populated" structurally, by giving every variant exactly one live member
//! and marking all other members with an unsatisfiable (`never`) type.
//!
//! Decoding the schema-exchange request envelope and encoding the response
//! envelope are an external collaborator's job; the library consumes and
//! produces plain in-memory values only.

pub mod model;
pub mod mapper;
pub mod classify;
pub mod render;
pub mod driver;
