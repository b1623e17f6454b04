//! Resolving, inspecting and caching versioned plugin files from plugin-hosting APIs.
//!
//! The modules hold the logic of the tool: the download cache index and its freshness
//! rules, the version resolver, the file-name and header rules of downloads, and the
//! decisions of a download. Reading and writing files and talking to the network is
//! left to the caller, which hands plain values to these functions.

pub mod adapter;
pub mod assoc;
pub mod caching;
pub mod cli;
pub mod error;
pub mod manifest;
pub mod output;
pub mod session;
pub mod text;
pub mod util;
