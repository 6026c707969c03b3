//! Download logic of the Maxima game launcher: HTTP byte-range requests for
//! the entries of a remote zip archive, per-entry download decisions, a
//! byte-counting stream adapter, and the content manager's queue model.

pub mod decimal;
pub mod zip;
pub mod downloader;
pub mod stream;
pub mod manager;
pub mod cloudsync;
pub mod downloads_view;
pub mod resources;
