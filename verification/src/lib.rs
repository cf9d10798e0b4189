//! Resource-resolution layer for a typesetting compiler.
//!
//! The compiler resolves every reference it meets — the main document,
//! user-supplied auxiliary files, files inside versioned packages, and the
//! clock — through the [`world::Resolver`] in this crate.  Package content is
//! found through a three-tier chain: an in-memory cache, a persistent on-disk
//! cache, and a network fetch from the package registry.  The disk tier does
//! file I/O and therefore lives with the embedding layer, which hands what it
//! read to [`world::Resolver::install_package`].

pub mod cache;
pub mod clock;
pub mod errors;
pub mod fetch;
pub mod fileset;
pub mod options;
pub mod package;
pub mod paths;
pub mod world;

pub use cache::PackageCache;
pub use clock::Datetime;
pub use errors::{join_messages, CompileError, FileError, PackageError};
pub use fetch::{download_package, unpack_archive};
pub use fileset::FileSet;
pub use options::CompileOptions;
pub use package::{PackageSpec, PackageVersion};
pub use paths::normalize_path;
pub use world::{FileIdentifier, Resolver};
