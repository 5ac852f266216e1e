//! Core of an HTTP/2 server connection: frame codec, connection and stream
//! state, header-block handling, and the buffer pool that backs zero-copy
//! writes. Transport I/O and task plumbing live outside this crate; the
//! protocol decisions here are stated in contracts and verified.

pub mod bufpool;
pub mod compress;
pub mod conn;
pub mod deframe;
pub mod frame;
pub mod headers;
pub mod piece;
pub mod process;
pub mod settings;
pub mod state;
pub mod types;
