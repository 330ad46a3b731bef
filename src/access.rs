//! Object access flags of a CANopen object dictionary entry.
use vstd::prelude::*;

verus! {

/// Whether the bit of weight `weight` (a power of two) is set in `flags`.
pub open spec fn has_bit(flags: u16, weight: u16) -> bool {
    (flags / weight) % 2 == 1
}

/// Object access flags bitfield of an object dictionary entry.
#[derive(Clone, Copy, Debug)]
pub struct ObjectAccess {
    pub flags: u16,
}

impl ObjectAccess {
    pub fn from_u16(flags: u16) -> (r: Self)
        ensures
            r.flags == flags,
    {
        ObjectAccess { flags }
    }

    /// Bit 0: the object may be read.
    pub fn read_access(&self) -> (r: bool)
        ensures
            r == has_bit(self.flags, 1),
    {
        let f = self.flags;
        assert(((f & 1u16) != 0) == ((f / 1u16) % 2 == 1)) by (bit_vector);
        (f & 0x0001) != 0
    }

    /// Bit 1: the object may be written.
    pub fn write_access(&self) -> (r: bool)
        ensures
            r == has_bit(self.flags, 2),
    {
        let f = self.flags;
        assert(((f & 2u16) != 0) == ((f / 2u16) % 2 == 1)) by (bit_vector);
        (f & 0x0002) != 0
    }

    /// Bit 2: the object may be mapped into a receive (output) PDO.
    pub fn rx_pdo_mapping(&self) -> (r: bool)
        ensures
            r == has_bit(self.flags, 4),
    {
        let f = self.flags;
        assert(((f & 4u16) != 0) == ((f / 4u16) % 2 == 1)) by (bit_vector);
        (f & 0x0004) != 0
    }

    /// Bit 3: the object may be mapped into a transmit (input) PDO.
    pub fn tx_pdo_mapping(&self) -> (r: bool)
        ensures
            r == has_bit(self.flags, 8),
    {
        let f = self.flags;
        assert(((f & 8u16) != 0) == ((f / 8u16) % 2 == 1)) by (bit_vector);
        (f & 0x0008) != 0
    }

    /// Bit 4: the object is part of the backup parameters.
    pub fn backup_param(&self) -> (r: bool)
        ensures
            r == has_bit(self.flags, 16),
    {
        let f = self.flags;
        assert(((f & 16u16) != 0) == ((f / 16u16) % 2 == 1)) by (bit_vector);
        (f & 0x0010) != 0
    }

    /// Bit 5: the object is part of the settings parameters.
    pub fn settings_param(&self) -> (r: bool)
        ensures
            r == has_bit(self.flags, 32),
    {
        let f = self.flags;
        assert(((f & 32u16) != 0) == ((f / 32u16) % 2 == 1)) by (bit_vector);
        (f & 0x0020) != 0
    }
}

} // verus!
