//! Requests and responses of the OKLink explorer API.
//!
//! The library turns the arguments of each endpoint into the GET request
//! that has to be sent, and the bytes of a response into a typed record. It
//! performs no I/O of its own: a transport sends a [`Request`] and hands
//! what came of it to [`Oklink::conclude`].

pub mod endpoint;
pub mod error;
pub mod json;
pub mod oklink;
pub mod query;
pub mod request;
pub mod types;

pub use crate::endpoint::Endpoint;
pub use crate::error::{ClientError, DecodeError};
pub use crate::oklink::{AddressData, AddressInformation, Oklink};
pub use crate::request::Request;
pub use crate::types::ProtocolType;
