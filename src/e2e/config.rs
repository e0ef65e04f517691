//! Configuration of the E2E profiles.
use vstd::prelude::*;

verus! {

/// Configuration of E2E Profile 4.
#[derive(Debug, Clone)]
pub struct Profile4Config {
    /// Identifier of the data element, bound into the CRC.
    pub data_id: u32,
    /// Largest counter delta still reported as `OkSomeLost`.
    pub max_delta_counter: u16,
}

impl Profile4Config {
    pub fn new(data_id: u32, max_delta_counter: u16) -> (r: Self)
        ensures
            r.data_id == data_id,
            r.max_delta_counter == max_delta_counter,
    {
        Profile4Config { data_id, max_delta_counter }
    }
}

/// Configuration of E2E Profile 5.
#[derive(Debug, Clone)]
pub struct Profile5Config {
    /// Identifier of the data element, bound into the CRC (little-endian).
    pub data_id: u16,
    /// Length of the protected payload; a protected message is 3 bytes longer.
    pub data_length: u16,
    /// Largest counter delta still reported as `OkSomeLost`.
    pub max_delta_counter: u8,
}

impl Profile5Config {
    pub fn new(data_id: u16, data_length: u16, max_delta_counter: u8) -> (r: Self)
        ensures
            r.data_id == data_id,
            r.data_length == data_length,
            r.max_delta_counter == max_delta_counter,
    {
        Profile5Config { data_id, data_length, max_delta_counter }
    }
}

} // verus!
