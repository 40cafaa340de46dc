//! HTTP access layer: the decisions behind fetching remote metadata and
//! downloading artifacts. The transport itself is driven by the caller; this
//! crate decides which headers go out, when a plaintext request is retried
//! over TLS, when a body is refused, how a download is metered and how an
//! error is classified.

pub mod text;
pub mod error;
pub mod request;
pub mod config;
pub mod download;
