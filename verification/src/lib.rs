//! Strategic Command save sharing: save names, queries over saves and the
//! decisions behind uploading and downloading turns.
pub mod text;
pub mod save;
pub mod save_order;
pub mod turn;
pub mod query;
pub mod index;
pub mod grammar;
pub mod config;
pub mod parse;
pub mod path;
pub mod file_system;
pub mod compression;
pub mod storage;
pub mod prediction;
pub mod predict;
pub mod error;
pub mod names;
pub mod interaction;
pub mod cli;
