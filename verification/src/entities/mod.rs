//! The records of the store: passengers, and the two kinds of bookable entity.

pub mod entity;
pub mod train;
pub mod user;
pub mod vehicle;
