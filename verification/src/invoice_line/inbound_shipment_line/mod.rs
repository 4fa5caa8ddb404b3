//! Lines of inbound shipments.

pub mod delete;
