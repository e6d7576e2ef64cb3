//! An anonymous file-drop service core.
//!
//! A request is classified into one of a small set of outcomes, a keyed hash
//! turns each file name into an unguessable storage directory confined under
//! the storage root, and complete HTTP responses are produced as bytes. All
//! I/O — sockets and the filesystem — lives outside this crate; the library
//! only decides and computes.

pub mod bytes;
pub mod mac;
pub mod outcome;
pub mod paths;
pub mod respond;
pub mod scramble;
pub mod store;
pub mod text;
