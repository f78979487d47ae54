//! Request-handling core of a language server for an assembly dialect:
//! resolves a cursor position to the token under it and answers hover and
//! completion queries against a read-only store of instruction descriptions.
pub mod text;
pub mod instruction;
pub mod position;
pub mod store;
pub mod service;
pub mod dispatch;
pub mod laws;
