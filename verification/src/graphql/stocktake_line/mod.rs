//! Mutations of the lines of stocktakes.

pub mod insert;
