//! Messages, the upgrade handshake, and the rules of the message stream.

pub mod accept;
pub mod error;
pub mod headers;
pub mod laws;
pub mod message;
pub mod results;
pub mod stream;
pub mod text;
pub mod upgrade;
pub mod wire;

pub use crate::ws::accept::{accept_value, challenge, sign, ACCEPT_GUID};
pub use crate::ws::error::{Error, Utf8Error};
pub use crate::ws::headers::{eq_ignore_ascii_case, header_contains, header_eq, text_contains};
pub use crate::ws::message::{CloseCode, CloseFrame, Message};
pub use crate::ws::stream::{next_message, Next};
pub use crate::ws::upgrade::{
    accept_res, err_res, handshake, upgraded_or_call, DefaultOnFailedUpgrade, OnFailedUpgrade,
    Response, BAD_REQUEST, SWITCHING_PROTOCOLS,
};
