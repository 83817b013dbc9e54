//! A client for the AUR RPC interface: query URLs for `search` and `info`,
//! clone URLs for package repositories, and the records a reply decodes to.

pub mod model;
pub mod query;
pub mod url_ops;
