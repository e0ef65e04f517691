//! What holds of protecting and then checking.
use vstd::prelude::*;

use super::config::{Profile4Config, Profile5Config};
use super::crc::{crc16_ibm3740_of, crc32_autosar_of, p4_crc_input, p5_crc_input};
use super::e2e_checker::{p4_status, p5_status};
use super::e2e_protector::{p4_protected, p5_protected};
use super::{classify_delta, counter_delta, E2ECheckStatus};
use crate::bytes::{
    be_u16, be_u32, le_u16, lemma_u16_be, lemma_u16_le, lemma_u32_be, u16_be, u16_le, u32_be,
};

verus! {

proof fn lemma_p4_fields(data_id: u32, counter: u16, payload: Seq<u8>)
    requires
        payload.len() + 12 <= 65535,
    ensures
        ({
            let s = p4_protected(data_id, counter, payload);
            let length = (12 + payload.len()) as u16;
            &&& s.len() == 12 + payload.len()
            &&& be_u16(s, 0) == length
            &&& be_u16(s, 2) == counter
            &&& be_u32(s, 4) == data_id
            &&& be_u32(s, 8) == crc32_autosar_of(p4_crc_input(length, counter, data_id, payload))
            &&& s.skip(12) == payload
        }),
{
    let s = p4_protected(data_id, counter, payload);
    let length = (12 + payload.len()) as u16;
    let crc = crc32_autosar_of(p4_crc_input(length, counter, data_id, payload));
    assert(s.subrange(0, 2) =~= u16_be(length));
    assert(s.subrange(2, 4) =~= u16_be(counter));
    assert(s.subrange(4, 8) =~= u32_be(data_id));
    assert(s.subrange(8, 12) =~= u32_be(crc));
    assert(s.skip(12) =~= payload);
    lemma_u16_be(length, s, 0);
    lemma_u16_be(counter, s, 2);
    lemma_u32_be(data_id, s, 4);
    lemma_u32_be(crc, s, 8);
}

proof fn lemma_p5_fields(data_id: u16, counter: u8, payload: Seq<u8>)
    ensures
        ({
            let s = p5_protected(data_id, counter, payload);
            &&& s.len() == 3 + payload.len()
            &&& le_u16(s, 0) == crc16_ibm3740_of(p5_crc_input(data_id, counter, payload))
            &&& s[2] == counter
            &&& s.skip(3) == payload
        }),
{
    let s = p5_protected(data_id, counter, payload);
    let crc = crc16_ibm3740_of(p5_crc_input(data_id, counter, payload));
    assert(s.subrange(0, 2) =~= u16_le(crc));
    assert(s.skip(3) =~= payload);
    lemma_u16_le(crc, s, 0);
}

/// Profile 4: a message just protected, checked by a checker that has
/// accepted nothing yet, is `Okay` and yields the protector's counter and the
/// payload it protected.
pub proof fn lemma_p4_protect_check_first(config: Profile4Config, counter: u16, payload: Seq<u8>)
    requires
        payload.len() + 12 <= 65535,
    ensures
        ({
            let s = p4_protected(config.data_id, counter, payload);
            &&& p4_status(config, None, s) == E2ECheckStatus::Okay
            &&& be_u16(s, 2) == counter
            &&& s.skip(12) == payload
        }),
{
    lemma_p4_fields(config.data_id, counter, payload);
}

/// Profile 5: a message of the configured length just protected, checked by a
/// checker that has accepted nothing yet, is `Okay` and yields the
/// protector's counter and the payload it protected.
pub proof fn lemma_p5_protect_check_first(config: Profile5Config, counter: u8, payload: Seq<u8>)
    requires
        payload.len() == config.data_length,
    ensures
        ({
            let s = p5_protected(config.data_id, counter, payload);
            &&& p5_status(config, None, s) == E2ECheckStatus::Okay
            &&& s[2] == counter
            &&& s.skip(3) == payload
        }),
{
    lemma_p5_fields(config.data_id, counter, payload);
}

/// Profile 4: when the checker last accepted counter `last` and the protector
/// has since advanced by `k`, the check classifies `k`, also where the counter
/// wraps through 0: `Repeated` for 0, `Okay` for 1, `OkSomeLost` up to the
/// configured delta, `WrongSequence` for any larger one.
pub proof fn lemma_p4_sequence(config: Profile4Config, last: u16, k: int, payload: Seq<u8>)
    requires
        0 <= k < 65536,
        payload.len() + 12 <= 65535,
    ensures
        ({
            let status = p4_status(config, Some(last), p4_protected(config.data_id, ((last + k) % 65536) as u16, payload));
            &&& status == classify_delta(k, config.max_delta_counter as int)
            &&& (k == 0 ==> status == E2ECheckStatus::Repeated)
            &&& (k == 1 ==> status == E2ECheckStatus::Okay)
            &&& (1 < k <= config.max_delta_counter ==> status == E2ECheckStatus::OkSomeLost)
            &&& (k > 1 && k > config.max_delta_counter ==> status == E2ECheckStatus::WrongSequence)
        }),
{
    let received = ((last + k) % 65536) as u16;
    lemma_p4_fields(config.data_id, received, payload);
    assert(counter_delta(received as int, last as int, 65536) == k);
}

/// Profile 5: when the checker last accepted counter `last` and the protector
/// has since advanced by `k`, the check classifies `k`, also where the counter
/// wraps through 0.
pub proof fn lemma_p5_sequence(config: Profile5Config, last: u8, k: int, payload: Seq<u8>)
    requires
        0 <= k < 256,
        payload.len() == config.data_length,
    ensures
        ({
            let status = p5_status(config, Some(last), p5_protected(config.data_id, ((last + k) % 256) as u8, payload));
            &&& status == classify_delta(k, config.max_delta_counter as int)
            &&& (k == 0 ==> status == E2ECheckStatus::Repeated)
            &&& (k == 1 ==> status == E2ECheckStatus::Okay)
            &&& (1 < k <= config.max_delta_counter ==> status == E2ECheckStatus::OkSomeLost)
            &&& (k > 1 && k > config.max_delta_counter ==> status == E2ECheckStatus::WrongSequence)
        }),
{
    let received = ((last + k) % 256) as u8;
    lemma_p5_fields(config.data_id, received, payload);
    assert(counter_delta(received as int, last as int, 256) == k);
}

/// Profile 4: changing one byte of the CRC field of a protected message (one
/// flipped bit, say) makes the check report `CrcError`.
pub proof fn lemma_p4_crc_field_corruption(
    config: Profile4Config,
    last: Option<u16>,
    counter: u16,
    payload: Seq<u8>,
    t: Seq<u8>,
    i: int,
)
    requires
        payload.len() + 12 <= 65535,
        8 <= i < 12,
        t.len() == p4_protected(config.data_id, counter, payload).len(),
        t[i] != p4_protected(config.data_id, counter, payload)[i],
        forall|j: int|
            0 <= j < t.len() && j != i ==> t[j] == p4_protected(config.data_id, counter, payload)[j],
    ensures
        p4_status(config, last, t) == E2ECheckStatus::CrcError,
{
    let s = p4_protected(config.data_id, counter, payload);
    lemma_p4_fields(config.data_id, counter, payload);
    assert(t.skip(12) =~= s.skip(12));
    assert(t[0] == s[0] && t[1] == s[1] && t[2] == s[2] && t[3] == s[3]);
    assert(t[4] == s[4] && t[5] == s[5] && t[6] == s[6] && t[7] == s[7]);
    assert(be_u32(t, 8) != be_u32(s, 8));
}

/// Profile 5: changing one byte of the CRC field of a protected message (one
/// flipped bit, say) makes the check report `CrcError`.
pub proof fn lemma_p5_crc_field_corruption(
    config: Profile5Config,
    last: Option<u8>,
    counter: u8,
    payload: Seq<u8>,
    t: Seq<u8>,
    i: int,
)
    requires
        payload.len() == config.data_length,
        0 <= i < 2,
        t.len() == p5_protected(config.data_id, counter, payload).len(),
        t[i] != p5_protected(config.data_id, counter, payload)[i],
        forall|j: int|
            0 <= j < t.len() && j != i ==> t[j] == p5_protected(config.data_id, counter, payload)[j],
    ensures
        p5_status(config, last, t) == E2ECheckStatus::CrcError,
{
    let s = p5_protected(config.data_id, counter, payload);
    lemma_p5_fields(config.data_id, counter, payload);
    assert(t.skip(3) =~= s.skip(3));
    assert(t[2] == s[2]);
    assert(le_u16(t, 0) != le_u16(s, 0));
}

} // verus!
