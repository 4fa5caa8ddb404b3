//! Synchronisation of a site with a central server that speaks an older
//! record format.
//!
//! A site receives records of the central server and sends its own changes
//! back. The central server names tables and fields in its own way and puts
//! into one record what a site keeps in several rows, so that every record
//! is translated on its way in and on its way out. This library holds the
//! translators, the order in which they are asked, and the two directions of
//! translation built on them:
//!
//! * [`sync::pull`] turns one received record into the rows to write;
//! * [`sync::push`] turns logged changes into the records to send, in the
//!   order of their cursors;
//! * [`sync::storage`] says what writing translated rows does to storage, and
//!   shows that a record that arrives twice changes nothing the second time;
//! * [`sync::site`] decides whether a record belongs to this site;
//! * [`repository::sync_log`] keeps the log of the runs of synchronisation.
//!
//! Beside these stand the rules that invoices and their lines must meet
//! ([`invoice`], [`invoice_line`]) and the answers of the API to what the
//! services report ([`graphql`]).
//!
//! The library reads and writes nothing itself. What storage holds is
//! handed to it as values, and what it decides is handed back.

pub mod graphql;
pub mod invoice;
pub mod invoice_line;
pub mod json;
pub mod repository;
pub mod sync;
pub mod views;
