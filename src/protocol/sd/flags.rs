use vstd::prelude::*;

verus! {

/// The flags byte of an SD header; only its two most significant bits are used.
#[derive(Clone, Copy, Debug, PartialEq, Eq, Structural)]
pub struct Flags {
    /// Bit 7: the sender restarted since its last announcement.
    pub reboot: bool,
    /// Bit 6: the sender accepts unicast.
    pub unicast: bool,
}

impl Flags {
    pub open spec fn spec_byte(self) -> u8 {
        ((if self.reboot { 0x80u8 } else { 0u8 }) + (if self.unicast { 0x40u8 } else { 0u8 })) as u8
    }

    pub open spec fn spec_from_byte(b: u8) -> Flags {
        Flags { reboot: b >= 0x80, unicast: b % 0x80 >= 0x40 }
    }

    pub fn new(reboot: bool, unicast: bool) -> (r: Self)
        ensures
            r == (Flags { reboot, unicast }),
    {
        Flags { reboot, unicast }
    }

    /// Flags of an SD message sent by this library: unicast supported.
    pub fn new_sd(reboot: bool) -> (r: Self)
        ensures
            r == (Flags { reboot, unicast: true }),
    {
        Flags { reboot, unicast: true }
    }

    pub fn to_byte(self) -> (r: u8)
        ensures
            r == self.spec_byte(),
    {
        let mut value: u8 = 0;
        if self.reboot {
            value = value + 0x80;
        }
        if self.unicast {
            value = value + 0x40;
        }
        value
    }

    pub fn from_byte(value: u8) -> (r: Self)
        ensures
            r == Self::spec_from_byte(value),
    {
        Flags { reboot: value >= 0x80, unicast: value % 0x80 >= 0x40 }
    }

    pub proof fn lemma_byte_round_trip(self)
        ensures
            Self::spec_from_byte(self.spec_byte()) == self,
    {
    }
}

} // verus!
