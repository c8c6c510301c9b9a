//! A handler for the `blob:` URL scheme: it checks a request, reads the blob
//! address and the requested byte range, shapes the provisional response and
//! the body channel, and turns the storage subsystem's answer into the final
//! response.

pub mod address;
pub mod range;
pub mod response;
pub mod channel;
pub mod handler;

pub use handler::BlobProtocolHander;
