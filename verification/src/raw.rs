pub mod parser;
pub mod usn_journal_wrapper;
pub mod volume_handle;
pub mod windows;
