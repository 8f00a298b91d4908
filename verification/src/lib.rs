//! Core logic of the LoArchive desktop installer and launcher.
//!
//! The library covers the parts of the application that decide, rather than
//! perform, its effects: the install sequence with its progress events, the
//! paths and registry entries the installer writes, the resolution of the
//! backend program among candidate locations, and the accounting of the one
//! backend child process that the launcher supervises.  The caller performs
//! the filesystem, registry and process work that these decisions call for.

pub mod options;
pub mod paths;
pub mod backend;
pub mod install;
pub mod shortcuts;
