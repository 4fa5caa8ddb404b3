//! Outbound shipments.

pub mod delete;
