//! Verified core of a desktop writing application's backend.
//!
//! Two independent parts live here. The document store decides where a
//! document is kept on disk, what a command has to do to the storage folder
//! and what it answers. The audio controller tracks the one player process
//! that may run at a time. Neither part performs any I/O: the host reads the
//! disk and runs the processes, and hands what it saw to these functions.

pub mod audio;
pub mod document;
pub mod folder;
pub mod player;
pub mod store;
