//! Verified core of a minimal command-line JavaScript runtime host.
//!
//! The host embeds a JavaScript engine and exposes a small set of synchronous
//! filesystem primitives to scripts. This crate holds the logic of that
//! host/engine bridge: the classification and filtering of directory entries,
//! the op descriptor table with its marshalling schemas, the error taxonomy
//! surfaced to scripts, the compute cores of the filesystem primitives, the
//! script-side facade's post-processing, and the decisions of the runtime
//! lifecycle and of the command-line shim. The engine itself, the operating
//! system calls, and the async event loop live outside this crate.

pub mod cli;
pub mod error;
pub mod facade;
pub mod fs_core;
pub mod kind;
pub mod read_dir;
pub mod registry;
pub mod runtime;
pub mod table;

pub use kind::KIND_UNKNOWN;
pub use kind::KIND_FILE;
pub use kind::KIND_DIRECTORY;
pub use kind::KIND_SYMLINK;
