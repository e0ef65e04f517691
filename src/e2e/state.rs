//! Counter state of the E2E profiles.
use vstd::prelude::*;

verus! {

/// State of E2E Profile 4, for protecting and for checking.
#[derive(Debug, Clone)]
pub struct Profile4State {
    /// Counter written by the next protect call.
    pub protect_counter: u16,
    /// Counter of the last message the checker accepted.
    pub last_counter: Option<u16>,
}

impl Profile4State {
    pub fn new() -> (r: Self)
        ensures
            r.protect_counter == 0,
            r.last_counter is None,
    {
        Profile4State { protect_counter: 0, last_counter: None }
    }

    pub fn with_initial_counter(counter: u16) -> (r: Self)
        ensures
            r.protect_counter == counter,
            r.last_counter is None,
    {
        Profile4State { protect_counter: counter, last_counter: None }
    }

    /// Clears both counters.
    pub fn reset(&mut self)
        ensures
            final(self).protect_counter == 0,
            final(self).last_counter is None,
    {
        self.protect_counter = 0;
        self.last_counter = None;
    }
}

impl Default for Profile4State {
    fn default() -> (r: Self)
        ensures
            r.protect_counter == 0,
            r.last_counter is None,
    {
        Self::new()
    }
}

/// State of E2E Profile 5, for protecting and for checking.
#[derive(Debug, Clone)]
pub struct Profile5State {
    /// Counter written by the next protect call.
    pub protect_counter: u8,
    /// Counter of the last message the checker accepted.
    pub last_counter: Option<u8>,
}

impl Profile5State {
    pub fn new() -> (r: Self)
        ensures
            r.protect_counter == 0,
            r.last_counter is None,
    {
        Profile5State { protect_counter: 0, last_counter: None }
    }

    pub fn with_initial_counter(counter: u8) -> (r: Self)
        ensures
            r.protect_counter == counter,
            r.last_counter is None,
    {
        Profile5State { protect_counter: counter, last_counter: None }
    }

    /// Clears both counters.
    pub fn reset(&mut self)
        ensures
            final(self).protect_counter == 0,
            final(self).last_counter is None,
    {
        self.protect_counter = 0;
        self.last_counter = None;
    }
}

impl Default for Profile5State {
    fn default() -> (r: Self)
        ensures
            r.protect_counter == 0,
            r.last_counter is None,
    {
        Self::new()
    }
}

} // verus!
