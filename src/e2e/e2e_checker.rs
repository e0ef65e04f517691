//! Checking: validating an E2E-protected message.
use vstd::prelude::*;

use super::config::{Profile4Config, Profile5Config};
use super::crc::{
    compute_crc16_p5, compute_crc32_p4, crc16_ibm3740_of, crc32_autosar_of, p4_crc_input,
    p5_crc_input,
};
use super::e2e_protector::{PROFILE4_HEADER_SIZE, PROFILE5_HEADER_SIZE};
use super::state::{Profile4State, Profile5State};
use super::{classify_delta, counter_delta, E2ECheckResult, E2ECheckStatus};
use crate::bytes::{be_u16, be_u32, le_u16, read_u16_be, read_u16_le, read_u32_be};

verus! {

/// Sequence status of a Profile 4 counter, given the last accepted one.
pub open spec fn p4_sequence_status(last: Option<u16>, received: u16, max_delta: u16) -> E2ECheckStatus {
    match last {
        None => E2ECheckStatus::Okay,
        Some(l) => classify_delta(counter_delta(received as int, l as int, 65536), max_delta as int),
    }
}

/// Sequence status of a Profile 5 counter, given the last accepted one.
pub open spec fn p5_sequence_status(last: Option<u8>, received: u8, max_delta: u8) -> E2ECheckStatus {
    match last {
        None => E2ECheckStatus::Okay,
        Some(l) => classify_delta(counter_delta(received as int, l as int, 256), max_delta as int),
    }
}

/// The CRC of a Profile 4 message `s` computed over its own header fields
/// and payload.
pub open spec fn p4_computed_crc(s: Seq<u8>) -> u32 {
    crc32_autosar_of(p4_crc_input(be_u16(s, 0), be_u16(s, 2), be_u32(s, 4), s.skip(12)))
}

/// The CRC of a Profile 5 message `s` computed over its counter and payload.
pub open spec fn p5_computed_crc(config: Profile5Config, s: Seq<u8>) -> u16 {
    crc16_ibm3740_of(p5_crc_input(config.data_id, s[2], s.skip(3)))
}

/// Status of checking `s` under Profile 4 when the CRC computed over it is
/// `computed_crc`, given the last accepted counter.
pub open spec fn p4_status_with(
    config: Profile4Config,
    last: Option<u16>,
    s: Seq<u8>,
    computed_crc: u32,
) -> E2ECheckStatus {
    if s.len() < 12 || be_u16(s, 0) != s.len() || be_u32(s, 4) != config.data_id {
        E2ECheckStatus::BadArgument
    } else if computed_crc != be_u32(s, 8) {
        E2ECheckStatus::CrcError
    } else {
        p4_sequence_status(last, be_u16(s, 2), config.max_delta_counter)
    }
}

/// Status of checking `s` under Profile 5 when the CRC computed over it is
/// `computed_crc`, given the last accepted counter.
pub open spec fn p5_status_with(
    config: Profile5Config,
    last: Option<u8>,
    s: Seq<u8>,
    computed_crc: u16,
) -> E2ECheckStatus {
    if s.len() < 3 || s.len() != 3 + config.data_length {
        E2ECheckStatus::BadArgument
    } else if computed_crc != le_u16(s, 0) {
        E2ECheckStatus::CrcError
    } else {
        p5_sequence_status(last, s[2], config.max_delta_counter)
    }
}

/// Status of checking `s` under Profile 4, given the last accepted counter.
pub open spec fn p4_status(config: Profile4Config, last: Option<u16>, s: Seq<u8>) -> E2ECheckStatus {
    p4_status_with(config, last, s, p4_computed_crc(s))
}

/// Status of checking `s` under Profile 5, given the last accepted counter.
pub open spec fn p5_status(config: Profile5Config, last: Option<u8>, s: Seq<u8>) -> E2ECheckStatus {
    p5_status_with(config, last, s, p5_computed_crc(config, s))
}

/// Checks a Profile 4 protected message: its length field, its DataID, its
/// CRC, then its counter against the last accepted one.
pub fn check_profile4(config: &Profile4Config, state: &mut Profile4State, protected: &[u8]) -> (r:
    E2ECheckResult)
    ensures
        r.status == p4_status(*config, old(state).last_counter, protected@),
        r.status.spec_passed_crc() ==> {
            &&& r.counter == Some(be_u16(protected@, 2) as u32)
            &&& r.payload is Some
            &&& r.payload->0@ == protected@.skip(12)
            &&& final(state).last_counter == Some(be_u16(protected@, 2))
        },
        !r.status.spec_passed_crc() ==> {
            &&& r.counter is None
            &&& r.payload is None
            &&& final(state).last_counter == old(state).last_counter
        },
        final(state).protect_counter == old(state).protect_counter,
{
    let n = protected.len();
    if n < PROFILE4_HEADER_SIZE {
        return E2ECheckResult::error(E2ECheckStatus::BadArgument);
    }
    let payload = vstd::slice::slice_subrange(protected, PROFILE4_HEADER_SIZE, n);
    assert(payload@ =~= protected@.skip(12));
    let computed_crc = compute_crc32_p4(
        read_u16_be(protected, 0),
        read_u16_be(protected, 2),
        read_u32_be(protected, 4),
        payload,
    );
    check_profile4_with_crc(config, state, protected, computed_crc)
}

/// The checks of `check_profile4` after the CRC over the message has been
/// computed as `computed_crc`.
pub fn check_profile4_with_crc(
    config: &Profile4Config,
    state: &mut Profile4State,
    protected: &[u8],
    computed_crc: u32,
) -> (r: E2ECheckResult)
    ensures
        r.status == p4_status_with(*config, old(state).last_counter, protected@, computed_crc),
        r.status.spec_passed_crc() ==> {
            &&& r.counter == Some(be_u16(protected@, 2) as u32)
            &&& r.payload is Some
            &&& r.payload->0@ == protected@.skip(12)
            &&& final(state).last_counter == Some(be_u16(protected@, 2))
        },
        !r.status.spec_passed_crc() ==> {
            &&& r.counter is None
            &&& r.payload is None
            &&& final(state).last_counter == old(state).last_counter
        },
        final(state).protect_counter == old(state).protect_counter,
{
    let n = protected.len();
    if n < PROFILE4_HEADER_SIZE {
        return E2ECheckResult::error(E2ECheckStatus::BadArgument);
    }
    let length = read_u16_be(protected, 0);
    let counter = read_u16_be(protected, 2);
    let data_id = read_u32_be(protected, 4);
    let received_crc = read_u32_be(protected, 8);
    if length as usize != n {
        return E2ECheckResult::error(E2ECheckStatus::BadArgument);
    }
    if data_id != config.data_id {
        return E2ECheckResult::error(E2ECheckStatus::BadArgument);
    }
    if computed_crc != received_crc {
        return E2ECheckResult::error(E2ECheckStatus::CrcError);
    }
    let payload = vstd::slice::slice_subrange(protected, PROFILE4_HEADER_SIZE, n);
    assert(payload@ =~= protected@.skip(12));
    let status = check_sequence_profile4(state, counter, config.max_delta_counter);
    state.last_counter = Some(counter);
    E2ECheckResult::success(status, counter as u32, vstd::slice::slice_to_vec(payload))
}

/// Checks a Profile 5 protected message: its total length against the
/// configured data length, its CRC, then its counter against the last
/// accepted one.
pub fn check_profile5(config: &Profile5Config, state: &mut Profile5State, protected: &[u8]) -> (r:
    E2ECheckResult)
    ensures
        r.status == p5_status(*config, old(state).last_counter, protected@),
        r.status.spec_passed_crc() ==> {
            &&& r.counter == Some(protected@[2] as u32)
            &&& r.payload is Some
            &&& r.payload->0@ == protected@.skip(3)
            &&& final(state).last_counter == Some(protected@[2])
        },
        !r.status.spec_passed_crc() ==> {
            &&& r.counter is None
            &&& r.payload is None
            &&& final(state).last_counter == old(state).last_counter
        },
        final(state).protect_counter == old(state).protect_counter,
{
    let n = protected.len();
    if n < PROFILE5_HEADER_SIZE {
        return E2ECheckResult::error(E2ECheckStatus::BadArgument);
    }
    let payload = vstd::slice::slice_subrange(protected, PROFILE5_HEADER_SIZE, n);
    assert(payload@ =~= protected@.skip(3));
    let computed_crc = compute_crc16_p5(config.data_id, protected[2], payload);
    check_profile5_with_crc(config, state, protected, computed_crc)
}

/// The checks of `check_profile5` after the CRC over the message has been
/// computed as `computed_crc`.
pub fn check_profile5_with_crc(
    config: &Profile5Config,
    state: &mut Profile5State,
    protected: &[u8],
    computed_crc: u16,
) -> (r: E2ECheckResult)
    ensures
        r.status == p5_status_with(*config, old(state).last_counter, protected@, computed_crc),
        r.status.spec_passed_crc() ==> {
            &&& r.counter == Some(protected@[2] as u32)
            &&& r.payload is Some
            &&& r.payload->0@ == protected@.skip(3)
            &&& final(state).last_counter == Some(protected@[2])
        },
        !r.status.spec_passed_crc() ==> {
            &&& r.counter is None
            &&& r.payload is None
            &&& final(state).last_counter == old(state).last_counter
        },
        final(state).protect_counter == old(state).protect_counter,
{
    let n = protected.len();
    if n < PROFILE5_HEADER_SIZE {
        return E2ECheckResult::error(E2ECheckStatus::BadArgument);
    }
    if n != PROFILE5_HEADER_SIZE + config.data_length as usize {
        return E2ECheckResult::error(E2ECheckStatus::BadArgument);
    }
    let received_crc = read_u16_le(protected, 0);
    let counter = protected[2];
    if computed_crc != received_crc {
        return E2ECheckResult::error(E2ECheckStatus::CrcError);
    }
    let payload = vstd::slice::slice_subrange(protected, PROFILE5_HEADER_SIZE, n);
    assert(payload@ =~= protected@.skip(3));
    let status = check_sequence_profile5(state, counter, config.max_delta_counter);
    state.last_counter = Some(counter);
    E2ECheckResult::success(status, counter as u32, vstd::slice::slice_to_vec(payload))
}

fn check_sequence_profile4(state: &Profile4State, received_counter: u16, max_delta: u16) -> (r:
    E2ECheckStatus)
    ensures
        r == p4_sequence_status(state.last_counter, received_counter, max_delta),
{
    match state.last_counter {
        None => E2ECheckStatus::Okay,
        Some(last_counter) => {
            let delta: u16 = if received_counter >= last_counter {
                received_counter - last_counter
            } else {
                (received_counter as u32 + 65536 - last_counter as u32) as u16
            };
            if delta == 0 {
                E2ECheckStatus::Repeated
            } else if delta == 1 {
                E2ECheckStatus::Okay
            } else if delta <= max_delta {
                E2ECheckStatus::OkSomeLost
            } else {
                E2ECheckStatus::WrongSequence
            }
        },
    }
}

fn check_sequence_profile5(state: &Profile5State, received_counter: u8, max_delta: u8) -> (r:
    E2ECheckStatus)
    ensures
        r == p5_sequence_status(state.last_counter, received_counter, max_delta),
{
    match state.last_counter {
        None => E2ECheckStatus::Okay,
        Some(last_counter) => {
            let delta: u8 = if received_counter >= last_counter {
                received_counter - last_counter
            } else {
                (received_counter as u16 + 256 - last_counter as u16) as u8
            };
            if delta == 0 {
                E2ECheckStatus::Repeated
            } else if delta == 1 {
                E2ECheckStatus::Okay
            } else if delta <= max_delta {
                E2ECheckStatus::OkSomeLost
            } else {
                E2ECheckStatus::WrongSequence
            }
        },
    }
}

} // verus!
