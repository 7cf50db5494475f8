//! A seat-booking store for trains and vehicles whose records are kept as a
//! JSON array of objects.
//!
//! The library never touches the file system: every operation takes the text
//! that the backing file holds and gives back the text that it is to hold
//! afterwards. Every step of its own between the two is verified. Reading
//! and writing JSON text is left to `serde_json`; what the library believes
//! of it is stated in [`json`].

pub mod entities;
pub mod json;
pub mod service;
