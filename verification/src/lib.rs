//! Keeping file trees in step with a network store.
//!
//! The library decides; its caller acts. It tells whether the two replicas
//! of a file are in conflict and by which steps a policy resolves the
//! conflict, when a watched tree is due for a sync, what command line
//! transfers a profile and what the transfer tool reported. Reading files,
//! running commands and waiting for notifications are left to the caller,
//! who hands in what was read and carries out what is answered.

mod clock;
pub mod config;
pub mod conflict;
pub mod error;
pub mod hash;
pub mod lists;
pub mod logging;
pub mod replica;
pub mod smb;
pub mod store;
pub mod sync;
pub mod text;
pub mod watch;
