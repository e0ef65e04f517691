//! The SOME/IP wire format.

pub mod error;
pub mod header;
pub mod message_id;
pub mod message_type;
pub mod return_code;
pub mod sd;

pub use error::Error;
pub use header::Header;
pub use message_id::MessageId;
pub use message_type::{MessageType, MessageTypeField};
pub use return_code::ReturnCode;
pub mod message;

pub use message::{Message, Payload};
