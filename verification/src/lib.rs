//! Decision logic of a version manager for Neovim builds: resolving a version
//! token, following a streamed download, and planning the extraction of the
//! downloaded archive. The stages work on plain values: the caller performs
//! the network, file and process work they ask for and reports how it ended.

pub mod download;
pub mod fetch;
pub mod http;
pub mod install;
pub mod pipeline;
pub mod platform;
mod text;
pub mod version;
