//! Mutations of outbound shipments.

pub mod add_from_master_list;
