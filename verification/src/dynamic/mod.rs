//! Dynamically allocated contiguous sequences.

pub mod list;

pub use list::List;
