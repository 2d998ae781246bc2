//! Typed access to the DAPNET paging network's REST API: the records it serves,
//! validated payloads for its two write operations, message sanitization, and the
//! request and response rules of the client. The transport is left to the caller:
//! `Client::request` says what to send, `fetch_outcome` and `submit_outcome` what
//! an answer's status means.

pub mod calls;
pub mod client;
pub mod connection;
pub mod error;
pub mod escape;
pub mod message_sanitization;
pub mod news;
pub mod nodes;
pub mod payload;
pub mod records;
pub mod timestamp;
pub mod token;
pub mod transmitters;

pub use crate::calls::{Call, OutgoingCall, OutgoingCallBuilder, OutgoingCallBuilderError};
pub use crate::client::{Client, ClientConfig};
pub use crate::connection::{Connection, IpAddress};
pub use crate::error::{Error, Result};
pub use crate::message_sanitization::{
    sanitize_message, MessageSanitizationNonAsciiPolicy, MessageSanitizationOptions,
    MessageSanitizationOptionsBuilder, MessageSanitizationOptionsBuilderError,
};
pub use crate::news::{News, OutgoingNews, OutgoingNewsBuilder, OutgoingNewsBuilderError};
pub use crate::nodes::Node;
pub use crate::records::{Callsign, Rubric, Statistics, TransmitterGroup};
pub use crate::timestamp::Timestamp;
