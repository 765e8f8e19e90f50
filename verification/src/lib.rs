//! Reading a filesystem change journal: walking raw record buffers into typed
//! change records, normalizing the historical record and metadata layouts into
//! one canonical shape, and streaming records lazily across bounded reads.
//!
//! The privileged device calls that actually query and read a journal sit
//! behind the [`raw::usn_journal_wrapper::UsnJournalWrapper`] trait; everything
//! on this side of that boundary is ordinary computation over plain values.

pub mod error;
pub mod raw;
pub mod reader;
pub mod usn_journal;
pub mod usn_journal_data;
pub mod usn_journal_record;
pub mod usn_journal_record_iter;
pub mod usn_record;
pub mod util;
pub mod volume_handle;
pub mod windows_string;

pub use error::UsnError;
