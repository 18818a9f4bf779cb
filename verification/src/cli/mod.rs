//! The logic of the command line tool: its save names, finding saves in
//! directory listings, and what the download, upload and config commands
//! decide to do.
pub mod save;
pub mod shared;
pub mod download;
pub mod upload;
pub mod files;
