//! AUTOSAR E2E (End-to-End) protection, Profile 4 and Profile 5.
//!
//! A protector prepends a header with a CRC and a counter to a payload; a
//! checker validates the header, recomputes the CRC and classifies the counter
//! against the last one it accepted.
use vstd::prelude::*;

pub mod config;
pub mod crc;
pub mod e2e_checker;
pub mod e2e_protector;
pub mod lemmas;
pub mod state;

pub use config::{Profile4Config, Profile5Config};
pub use crc::{compute_crc16_p5, compute_crc32_p4};
pub use e2e_checker::{check_profile4, check_profile4_with_crc, check_profile5, check_profile5_with_crc};
pub use e2e_protector::{protect_profile4, protect_profile5};
pub use state::{Profile4State, Profile5State};

verus! {

/// Status of an E2E check.
#[derive(Debug, Clone, Copy, PartialEq, Eq, Structural)]
pub enum E2ECheckStatus {
    /// Initial state: no check performed yet.
    Unchecked,
    /// First message after a reset, or the counter advanced by one.
    Okay,
    /// The CRC in the header does not match the data.
    CrcError,
    /// The counter equals the last one accepted.
    Repeated,
    /// The counter advanced by more than one but at most the configured delta.
    OkSomeLost,
    /// The counter advanced by more than the configured delta.
    WrongSequence,
    /// Length, DataID or data length mismatch, or a buffer shorter than the header.
    BadArgument,
}

impl E2ECheckStatus {
    pub open spec fn spec_return_code(self) -> u8 {
        match self {
            E2ECheckStatus::Unchecked => 0,
            E2ECheckStatus::Okay => 1,
            E2ECheckStatus::CrcError => 2,
            E2ECheckStatus::Repeated => 3,
            E2ECheckStatus::OkSomeLost => 4,
            E2ECheckStatus::WrongSequence => 5,
            E2ECheckStatus::BadArgument => 6,
        }
    }

    /// The numeric AUTOSAR code of the status.
    pub fn to_return_code(self) -> (r: u8)
        ensures
            r == self.spec_return_code(),
    {
        match self {
            E2ECheckStatus::Unchecked => 0,
            E2ECheckStatus::Okay => 1,
            E2ECheckStatus::CrcError => 2,
            E2ECheckStatus::Repeated => 3,
            E2ECheckStatus::OkSomeLost => 4,
            E2ECheckStatus::WrongSequence => 5,
            E2ECheckStatus::BadArgument => 6,
        }
    }

    /// The check got as far as the counter: the header and CRC were valid.
    pub open spec fn spec_passed_crc(self) -> bool {
        !(self is CrcError) && !(self is BadArgument) && !(self is Unchecked)
    }
}

/// Counter distance from `last` to `received` in a counter space of `modulus` values.
pub open spec fn counter_delta(received: int, last: int, modulus: int) -> int {
    if received >= last {
        received - last
    } else {
        received - last + modulus
    }
}

/// Classification of a counter distance against the largest tolerated one.
pub open spec fn classify_delta(delta: int, max_delta: int) -> E2ECheckStatus {
    if delta == 0 {
        E2ECheckStatus::Repeated
    } else if delta == 1 {
        E2ECheckStatus::Okay
    } else if delta <= max_delta {
        E2ECheckStatus::OkSomeLost
    } else {
        E2ECheckStatus::WrongSequence
    }
}

/// Result of an E2E check.
#[derive(Debug, Clone)]
pub struct E2ECheckResult {
    /// Status of the check.
    pub status: E2ECheckStatus,
    /// Counter from the header, where header and CRC were valid.
    pub counter: Option<u32>,
    /// Payload without the E2E header, where header and CRC were valid.
    pub payload: Option<Vec<u8>>,
}

impl E2ECheckResult {
    pub(crate) fn error(status: E2ECheckStatus) -> (r: Self)
        ensures
            r.status == status,
            r.counter is None,
            r.payload is None,
    {
        E2ECheckResult { status, counter: None, payload: None }
    }

    pub(crate) fn success(status: E2ECheckStatus, counter: u32, payload: Vec<u8>) -> (r: Self)
        ensures
            r.status == status,
            r.counter == Some(counter),
            r.payload == Some(payload),
    {
        E2ECheckResult { status, counter: Some(counter), payload: Some(payload) }
    }
}

} // verus!
