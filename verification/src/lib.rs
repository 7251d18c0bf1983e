//! A line filter: it reports, with their 1-based positions, the lines of a
//! text that contain a query, with or without regard to letter case.
//!
//! The crate holds the rules and proves them; reading the arguments, the
//! environment and the file, and printing, are left to the program around it.

pub mod config;
pub mod error;
pub mod pass;
pub mod render;
pub mod scan;
pub mod text;
