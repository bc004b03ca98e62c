//! The logic behind a desktop Markdown editor's native integration: the
//! menu that lists recently opened files and the routing of its events, the
//! plan for revealing a file in the platform's file manager, and the facade
//! over an external image uploader.
//!
//! Nothing here touches the file system, a process or a window. Each
//! operation is split into what is to be done, which this library decides,
//! and the doing, which is the caller's.

pub mod error;
pub mod folder;
pub mod json;
pub mod menu;
pub mod process;
pub mod router;
pub mod text;
pub mod upload;
pub mod url;
