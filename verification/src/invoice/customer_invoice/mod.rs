//! Customer invoices.

pub mod delete;
