//! Verified decisions of a vector-layer binding: how native status codes
//! become errors, how field definitions are described, how one new feature is
//! written through the native calls, and how a pass over a layer's features
//! ends. The native calls themselves are made by the caller.

pub mod cursor;
pub mod error;
pub mod field;
pub mod writer;
