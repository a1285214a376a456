//! A loader, dispatch and handle-ownership core for a native graphics API.
//!
//! The library decides which native command is called next, with which
//! arguments, and what each answer means. It never performs a call itself:
//! every request is a [`native::NativeCall`] value that the embedding program
//! carries out, handing back what the native layer answered.

pub mod bits;
pub mod command;
pub mod command_buffer;
pub mod common;
pub mod device;
pub mod dispatch;
pub mod format;
pub mod handle;
pub mod init;
pub mod lifetime;
pub mod native;
pub mod pipeline;
pub mod reply;
pub mod resource;
pub mod shaders;
pub mod sync;
pub mod version;
pub mod window;
pub mod wsi;
