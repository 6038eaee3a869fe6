//! The paged file layer of the world database.

pub mod bytes;
pub mod file;
