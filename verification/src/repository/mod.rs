//! The rows of the local tables that the translators read and write.

pub mod changelog;
pub mod invoice;
pub mod local_data;
pub mod mock;
pub mod repository_error;
pub mod rows;
pub mod sync_buffer;
pub mod sync_log;
