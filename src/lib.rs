//! Fetching one item record over HTTP and decoding it from a JSON body.
//!
//! The network exchange itself is performed by the caller; this library
//! decides what the outcome of that exchange means: a decoded
//! [`ItemDetail`], or one of the two error kinds of [`FetchError`].
pub mod item;
pub mod json;
pub mod decode;
pub mod fetch;
pub mod endpoint;

pub use item::{ItemDetail, FetchError};
pub use decode::{decode_item, item_from_object};
pub use fetch::{Exchange, finish_fetch};
pub use endpoint::FetchConfig;
