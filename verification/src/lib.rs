//! Planning logic for bulk filesystem deletion.
//!
//! The library decides, for a recursive "rapid delete" of a directory tree,
//! how the walked entries are classified into files and directories, how each
//! class is split into fixed-size chunks of work, in which order the two
//! deletion waves run, and which errors are fatal and which are ignored.
//! The filesystem walk and the deletion calls themselves are performed by the
//! caller, which drives the [`scheduler::RapidDelete`] state machine.

pub mod chunk;
pub mod scheduler;
pub mod walk;
