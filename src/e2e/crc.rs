//! CRC computation of the E2E profiles.
use vstd::prelude::*;

use crate::bytes::{push_u16_be, push_u16_le, push_u32_be, u16_be, u16_le, u32_be, push_all};

verus! {

/// CRC-32/AUTOSAR (polynomial 0xF4ACFB13) of a byte sequence.
pub uninterp spec fn crc32_autosar_of(data: Seq<u8>) -> u32;

/// CRC-16/IBM-3740 (polynomial 0x1021, initial value 0xFFFF) of a byte sequence.
pub uninterp spec fn crc16_ibm3740_of(data: Seq<u8>) -> u16;

/// Relies on `crc::Crc::<u32>::checksum` with `crc::CRC_32_AUTOSAR`: the
/// checksum depends on the bytes alone.
#[verifier::external_body]
fn crc32_autosar(data: &[u8]) -> (r: u32)
    ensures
        r == crc32_autosar_of(data@),
{
    ::crc::Crc::<u32>::new(&::crc::CRC_32_AUTOSAR).checksum(data)
}

/// Relies on `crc::Crc::<u16>::checksum` with `crc::CRC_16_IBM_3740`: the
/// checksum depends on the bytes alone.
#[verifier::external_body]
fn crc16_ibm3740(data: &[u8]) -> (r: u16)
    ensures
        r == crc16_ibm3740_of(data@),
{
    ::crc::Crc::<u16>::new(&::crc::CRC_16_IBM_3740).checksum(data)
}

/// The bytes covered by the Profile 4 CRC: length, counter and DataID
/// (big-endian), then the payload.
pub open spec fn p4_crc_input(length: u16, counter: u16, data_id: u32, payload: Seq<u8>) -> Seq<
    u8,
> {
    u16_be(length) + u16_be(counter) + u32_be(data_id) + payload
}

/// The bytes covered by the Profile 5 CRC: counter, payload, then the DataID
/// (little-endian).
pub open spec fn p5_crc_input(data_id: u16, counter: u8, payload: Seq<u8>) -> Seq<u8> {
    seq![counter] + payload + u16_le(data_id)
}

/// CRC-32P4 over length, counter, DataID and payload.
pub fn compute_crc32_p4(length: u16, counter: u16, data_id: u32, payload: &[u8]) -> (r: u32)
    ensures
        r == crc32_autosar_of(p4_crc_input(length, counter, data_id, payload@)),
{
    let mut data: Vec<u8> = Vec::new();
    push_u16_be(&mut data, length);
    push_u16_be(&mut data, counter);
    push_u32_be(&mut data, data_id);
    push_all(&mut data, payload);
    assert(data@ =~= p4_crc_input(length, counter, data_id, payload@));
    crc32_autosar(data.as_slice())
}

/// CRC-16 of Profile 5 over counter, payload and DataID.
pub fn compute_crc16_p5(data_id: u16, counter: u8, payload: &[u8]) -> (r: u16)
    ensures
        r == crc16_ibm3740_of(p5_crc_input(data_id, counter, payload@)),
{
    let mut data: Vec<u8> = Vec::new();
    data.push(counter);
    push_all(&mut data, payload);
    push_u16_le(&mut data, data_id);
    assert(data@ =~= p5_crc_input(data_id, counter, payload@));
    crc16_ibm3740(data.as_slice())
}

} // verus!
