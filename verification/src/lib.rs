//! The core of a small file browser: directory listings, path navigation,
//! recursive name search and the session state that ties them together.
//!
//! The library never touches the filesystem. Whoever drives it reads
//! directories, renames, deletes and walks subtrees, and hands the outcomes
//! in as plain values; the library decides what the session shows next and
//! which piece of outside work is due.

pub mod action;
pub mod browser;
pub mod entry;
pub mod lister;
pub mod model;
pub mod path;
pub mod session;
pub mod text;
pub mod walker;
