use vstd::prelude::*;

verus! {

/// Wire-format errors.
#[derive(Clone, Copy, Debug, PartialEq, Eq, Structural)]
pub enum Error {
    /// The bytes end before the record does.
    UnexpectedEof,
    InvalidProtocolVersion(u8),
    InvalidInterfaceVersion(u8),
    InvalidMessageTypeField(u8),
    InvalidReturnCode(u8),
    /// The SOME/IP length field is below the 8 bytes it always covers.
    InvalidLength(u32),
    InvalidSDEntryType(u8),
    InvalidSDOptionType(u8),
    /// A reserved SD option type that this codec does not carry.
    UnsupportedSDOptionType(u8),
    /// The length field of an SD option does not fit its type.
    InvalidSDOptionLength(u16),
    InvalidSDOptionTransportProtocol(u8),
    /// The discardable flag (bit 7 of the byte after the option type) is set
    /// on an option that must not be discarded.
    InvalidSDOptionDiscardFlag(u8),
    /// A reserved byte of an option is not 0.
    InvalidSDOptionReserved(u8),
    /// A payload format does not carry messages with this Message ID.
    UnsupportedMessageID(u32),
    /// The entries length of an SD header is not a whole number of entries.
    IncorrectEntriesSize(u32),
    /// The options length of an SD header is not a whole number of options.
    IncorrectOptionsSize(u32),
}

} // verus!
