use vstd::prelude::*;

use crate::bytes::{
    be_u16, be_u32, lemma_u16_be, lemma_u32_be, push_u16_be, push_u32_be, read_u16_be,
    read_u32_be, u16_be, u32_be,
};
use crate::protocol::Error;

verus! {

/// Size of an IPv4 endpoint option.
pub const IPV4_ENDPOINT_OPTION_SIZE: usize = 12;

/// Option type byte of an IPv4 endpoint.
pub const OPTION_TYPE_IPV4_ENDPOINT: u8 = 0x04;

/// Transport protocol of an endpoint option.
#[derive(Clone, Copy, Debug, PartialEq, Eq, Hash, Structural)]
pub enum TransportProtocol {
    Udp,
    Tcp,
}

impl TransportProtocol {
    pub open spec fn spec_byte(self) -> u8 {
        match self {
            TransportProtocol::Udp => 0x11,
            TransportProtocol::Tcp => 0x06,
        }
    }

    pub open spec fn spec_from_byte(b: u8) -> Option<TransportProtocol> {
        if b == 0x11 {
            Some(TransportProtocol::Udp)
        } else if b == 0x06 {
            Some(TransportProtocol::Tcp)
        } else {
            None
        }
    }

    pub fn from_byte(value: u8) -> (r: Result<TransportProtocol, Error>)
        ensures
            r is Ok <==> Self::spec_from_byte(value) is Some,
            r is Ok ==> Some(r->Ok_0) == Self::spec_from_byte(value),
            r is Err ==> r->Err_0 == Error::InvalidSDOptionTransportProtocol(value),
    {
        if value == 0x11 {
            Ok(TransportProtocol::Udp)
        } else if value == 0x06 {
            Ok(TransportProtocol::Tcp)
        } else {
            Err(Error::InvalidSDOptionTransportProtocol(value))
        }
    }

    pub fn to_byte(self) -> (r: u8)
        ensures
            r == self.spec_byte(),
    {
        match self {
            TransportProtocol::Udp => 0x11,
            TransportProtocol::Tcp => 0x06,
        }
    }
}

/// Option types that SD defines: configuration, load balancing, IPv4 and
/// IPv6 endpoints, multicast and SD endpoints.
pub open spec fn is_known_option_type(t: u8) -> bool {
    t == 0x01 || t == 0x02 || t == 0x04 || t == 0x06 || t == 0x14 || t == 0x16 || t == 0x24 || t
        == 0x26
}

/// An SD option. Of the option types SD defines, the IPv4 endpoint is the one
/// carried; the others are rejected on decoding with a typed error.
#[derive(Clone, Copy, Debug, PartialEq, Eq, Structural)]
pub enum Options {
    /// IPv4 address (big-endian value), transport protocol and port.
    IpV4Endpoint { ip: u32, protocol: TransportProtocol, port: u16 },
}

impl Options {
    /// The 12 bytes of the option: length 9, type, reserved, address,
    /// reserved, protocol, port.
    pub open spec fn spec_encode(self) -> Seq<u8> {
        match self {
            Options::IpV4Endpoint { ip, protocol, port } => u16_be(9) + seq![0x04u8, 0x00u8]
                + u32_be(ip) + seq![0x00u8, protocol.spec_byte()] + u16_be(port),
        }
    }

    /// The option at the start of `s`.
    pub open spec fn spec_decode(s: Seq<u8>) -> Result<Options, Error> {
        if s.len() < 4 {
            Err(Error::UnexpectedEof)
        } else if !is_known_option_type(s[2]) {
            Err(Error::InvalidSDOptionType(s[2]))
        } else if s[2] != 0x04 {
            Err(Error::UnsupportedSDOptionType(s[2]))
        } else if be_u16(s, 0) != 9 {
            Err(Error::InvalidSDOptionLength(be_u16(s, 0)))
        } else if s[3] >= 0x80 {
            Err(Error::InvalidSDOptionDiscardFlag(s[3]))
        } else if s.len() < 12 {
            Err(Error::UnexpectedEof)
        } else if s[8] != 0 {
            Err(Error::InvalidSDOptionReserved(s[8]))
        } else if TransportProtocol::spec_from_byte(s[9]) is None {
            Err(Error::InvalidSDOptionTransportProtocol(s[9]))
        } else {
            Ok(
                Options::IpV4Endpoint {
                    ip: be_u32(s, 4),
                    protocol: TransportProtocol::spec_from_byte(s[9])->0,
                    port: be_u16(s, 10),
                },
            )
        }
    }

    /// Bytes of the encoded option, length field included.
    pub fn size(&self) -> (r: usize)
        ensures
            r == self.spec_encode().len(),
    {
        IPV4_ENDPOINT_OPTION_SIZE
    }

    /// Appends the encoded option and returns its size.
    pub fn write(&self, out: &mut Vec<u8>) -> (r: usize)
        ensures
            final(out)@ == old(out)@ + self.spec_encode(),
            r == self.spec_encode().len(),
    {
        match self {
            Options::IpV4Endpoint { ip, protocol, port } => {
                push_u16_be(out, 9);
                out.push(OPTION_TYPE_IPV4_ENDPOINT);
                out.push(0);
                push_u32_be(out, *ip);
                out.push(0);
                out.push(protocol.to_byte());
                push_u16_be(out, *port);
                assert(final(out)@ =~= old(out)@ + self.spec_encode());
                IPV4_ENDPOINT_OPTION_SIZE
            },
        }
    }

    /// Decodes the option at the start of `bytes`.
    pub fn read(bytes: &[u8]) -> (r: Result<Options, Error>)
        ensures
            r == Self::spec_decode(bytes@),
    {
        let n = bytes.len();
        if n < 4 {
            return Err(Error::UnexpectedEof);
        }
        let length = read_u16_be(bytes, 0);
        let option_type = bytes[2];
        if !(option_type == 0x01 || option_type == 0x02 || option_type == 0x04 || option_type
            == 0x06 || option_type == 0x14 || option_type == 0x16 || option_type == 0x24
            || option_type == 0x26) {
            return Err(Error::InvalidSDOptionType(option_type));
        }
        if option_type != OPTION_TYPE_IPV4_ENDPOINT {
            return Err(Error::UnsupportedSDOptionType(option_type));
        }
        if length != 9 {
            return Err(Error::InvalidSDOptionLength(length));
        }
        if bytes[3] >= 0x80 {
            return Err(Error::InvalidSDOptionDiscardFlag(bytes[3]));
        }
        if n < IPV4_ENDPOINT_OPTION_SIZE {
            return Err(Error::UnexpectedEof);
        }
        if bytes[8] != 0 {
            return Err(Error::InvalidSDOptionReserved(bytes[8]));
        }
        let ip = read_u32_be(bytes, 4);
        let protocol = match TransportProtocol::from_byte(bytes[9]) {
            Ok(p) => p,
            Err(e) => return Err(e),
        };
        let port = read_u16_be(bytes, 10);
        Ok(Options::IpV4Endpoint { ip, protocol, port })
    }

    /// An option is 12 bytes and decodes from its encoding, whatever follows it.
    pub proof fn lemma_round_trip(self, rest: Seq<u8>)
        ensures
            self.spec_encode().len() == 12,
            Self::spec_decode(self.spec_encode() + rest) == Ok::<Options, Error>(self),
    {
        let s = self.spec_encode() + rest;
        match self {
            Options::IpV4Endpoint { ip, protocol, port } => {
                assert(s.subrange(0, 2) =~= u16_be(9));
                assert(s.subrange(4, 8) =~= u32_be(ip));
                assert(s.subrange(10, 12) =~= u16_be(port));
                lemma_u16_be(9, s, 0);
                lemma_u32_be(ip, s, 4);
                lemma_u16_be(port, s, 10);
                assert(s[2] == 0x04);
                assert(s[3] == 0);
                assert(s[8] == 0);
                assert(s[9] == protocol.spec_byte());
            },
        }
    }
}

} // verus!
