//! Core logic of a small download manager: header interpretation, link
//! probing, file-name extraction, the download list and its views, and the
//! state changes that the user interface drives.

pub mod text;
pub mod headers;
pub mod errors;
pub mod url;
pub mod download;
pub mod files;
pub mod table;
pub mod explorer;
pub mod popups;
pub mod status;
pub mod tray;
pub mod metadata;
pub mod settings;
pub mod manager;
