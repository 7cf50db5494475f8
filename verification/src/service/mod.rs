//! The store: how records are written as JSON and read back, what the
//! backing file is to hold after each operation, and the booking operations
//! on top of it.

pub mod booking_service;
pub mod codec;
pub mod file_io;
pub mod seats;
