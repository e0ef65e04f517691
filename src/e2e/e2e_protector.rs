//! Protection: prepending the E2E header to a payload.
use vstd::prelude::*;

use super::config::{Profile4Config, Profile5Config};
use super::crc::{
    compute_crc16_p5, compute_crc32_p4, crc16_ibm3740_of, crc32_autosar_of, p4_crc_input,
    p5_crc_input,
};
use super::state::{Profile4State, Profile5State};
use crate::bytes::{push_all, push_u16_be, push_u16_le, push_u32_be, u16_be, u16_le, u32_be};

verus! {

/// Size of the Profile 4 header.
pub const PROFILE4_HEADER_SIZE: usize = 12;

/// Size of the Profile 5 header.
pub const PROFILE5_HEADER_SIZE: usize = 3;

/// The 16-bit counter after `c`, wrapping to 0.
pub open spec fn next_counter_u16(c: u16) -> u16 {
    ((c + 1) % 65536) as u16
}

/// The 8-bit counter after `c`, wrapping to 0.
pub open spec fn next_counter_u8(c: u8) -> u8 {
    ((c + 1) % 256) as u8
}

/// A Profile 4 protected message: length, counter, DataID, CRC (all
/// big-endian), then the payload.
pub open spec fn p4_protected(data_id: u32, counter: u16, payload: Seq<u8>) -> Seq<u8> {
    let length = (12 + payload.len()) as u16;
    u16_be(length) + u16_be(counter) + u32_be(data_id) + u32_be(
        crc32_autosar_of(p4_crc_input(length, counter, data_id, payload)),
    ) + payload
}

/// A Profile 5 protected message: CRC (little-endian), counter, then the payload.
pub open spec fn p5_protected(data_id: u16, counter: u8, payload: Seq<u8>) -> Seq<u8> {
    u16_le(crc16_ibm3740_of(p5_crc_input(data_id, counter, payload))) + seq![counter] + payload
}

/// Prepends the 12-byte Profile 4 header to `payload` and advances the
/// protect counter.
pub fn protect_profile4(config: &Profile4Config, state: &mut Profile4State, payload: &[u8]) -> (r:
    Vec<u8>)
    requires
        payload@.len() + PROFILE4_HEADER_SIZE <= 65535,
    ensures
        r@ == p4_protected(config.data_id, old(state).protect_counter, payload@),
        final(state).protect_counter == next_counter_u16(old(state).protect_counter),
        final(state).last_counter == old(state).last_counter,
{
    let total_length = PROFILE4_HEADER_SIZE + payload.len();
    let counter = state.protect_counter;
    let length = total_length as u16;
    let crc = compute_crc32_p4(length, counter, config.data_id, payload);
    let mut result: Vec<u8> = Vec::with_capacity(total_length);
    push_u16_be(&mut result, length);
    push_u16_be(&mut result, counter);
    push_u32_be(&mut result, config.data_id);
    push_u32_be(&mut result, crc);
    push_all(&mut result, payload);
    state.protect_counter = if counter == 0xFFFF {
        0
    } else {
        counter + 1
    };
    result
}

/// Prepends the 3-byte Profile 5 header to `payload` and advances the
/// protect counter.
pub fn protect_profile5(config: &Profile5Config, state: &mut Profile5State, payload: &[u8]) -> (r:
    Vec<u8>)
    ensures
        r@ == p5_protected(config.data_id, old(state).protect_counter, payload@),
        final(state).protect_counter == next_counter_u8(old(state).protect_counter),
        final(state).last_counter == old(state).last_counter,
{
    let counter = state.protect_counter;
    let crc = compute_crc16_p5(config.data_id, counter, payload);
    let mut result: Vec<u8> = Vec::new();
    push_u16_le(&mut result, crc);
    result.push(counter);
    push_all(&mut result, payload);
    state.protect_counter = if counter == 0xFF {
        0
    } else {
        counter + 1
    };
    result
}

} // verus!
