//! Client library for the Kannon transactional mail service.
//!
//! The library holds the verified core: the domain types (sender, recipient,
//! attachment), the translation of those types into wire-format request
//! messages, the construction of the `authorization` header, and the mapping
//! of remote outcomes into the library's error type. Network I/O (opening the
//! channel, issuing the unary call) happens outside this crate, against the
//! contracts stated here.

pub mod auth;
pub mod client;
pub mod error;
pub mod transport;
pub mod types;
pub mod wire;

pub use client::Kannon;
pub use error::Error;
pub use types::Attachment;
pub use types::Recipient;
pub use types::Sender;
