//! Service Discovery: the SD header, its entries and its options.

pub mod entry;
pub mod flags;

pub use entry::{Entry, EventGroupEntry, OptionsCount, ServiceEntry};
pub use flags::Flags;
pub mod options;

pub use options::{Options, TransportProtocol};
pub mod header;

pub use header::{Header, HeaderView};
