//! Looks up the latest published version of a package on the npm registry.
//!
//! The network request itself is supplied by the caller as a transport
//! function, so the adapter's logic (which URL is asked for, and how the
//! answer becomes a result) is verified independently of any HTTP client.
mod error;
mod npm;
mod package;
mod version;

pub use error::Error;
pub use npm::{get_base_url, latest_url, Npm, Response, REGISTRY_URL};
pub use package::Package;
pub use version::Version;
