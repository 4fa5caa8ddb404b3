//! Lines of outbound shipments.

pub mod insert;
