//! A small authenticated file-sharing service: the verified part.
//!
//! The library decides everything that does not need a socket or a disk:
//! delete capability tokens, stored file names, path checks, size and date
//! rendering, and the HTML preview page. The server binary performs the I/O.
pub mod names;
pub mod page;
pub mod service;
pub mod size;
pub mod token;
