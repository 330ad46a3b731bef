//! Acyclic device requests: initialisation commands, service-data-object
//! reads and writes, EEPROM reads; which of them may be made, and what value
//! travels.
use vstd::prelude::*;
use crate::encoding::{le_u16, le_u32, u16_from_bytes, u32_from_bytes};
use crate::error::EcError;
use crate::master::Master;

verus! {

/// Largest service-data-object value handled, in bytes.
pub const MAX_SDO_LEN: usize = 4;

/// A write to apply to one device while the session is built.
#[derive(Clone, Copy, Debug)]
pub struct FfiInitCommand {
    pub slave_index: u16,
    /// 0: service-data-object write; anything else: register write.
    pub command_type: u8,
    pub index: u16,
    pub sub_index: u8,
    /// The value, little-endian.
    pub value: [u8; 4],
}

/// What an initialisation command asks of its device.
#[derive(Clone, Copy, Debug, PartialEq, Eq, Structural)]
pub enum DeviceWrite {
    Sdo { index: u16, sub_index: u8, value: u32 },
    Register { address: u16, value: u32 },
}

impl FfiInitCommand {
    pub open spec fn write_spec(self) -> DeviceWrite {
        if self.command_type == 0 {
            DeviceWrite::Sdo {
                index: self.index,
                sub_index: self.sub_index,
                value: le_u32(self.value@) as u32,
            }
        } else {
            DeviceWrite::Register { address: self.index, value: le_u32(self.value@) as u32 }
        }
    }

    pub fn decode(&self) -> (r: DeviceWrite)
        ensures
            r == self.write_spec(),
    {
        let value = u32_from_bytes(self.value);
        if self.command_type == 0 {
            DeviceWrite::Sdo { index: self.index, sub_index: self.sub_index, value }
        } else {
            DeviceWrite::Register { address: self.index, value }
        }
    }
}

/// A service-data-object value, sized by the bytes given for it.
#[derive(Clone, Copy, Debug, PartialEq, Eq, Structural)]
pub enum SdoValue {
    U8(u8),
    U16(u16),
    U32(u32),
}

/// The value that `data` (little-endian) stands for, if its length is one
/// of 1, 2 and 4.
pub open spec fn sdo_value(data: Seq<u8>) -> Option<SdoValue> {
    if data.len() == 1 {
        Some(SdoValue::U8(data[0]))
    } else if data.len() == 2 {
        Some(SdoValue::U16(le_u16(data) as u16))
    } else if data.len() == 4 {
        Some(SdoValue::U32(le_u32(data) as u32))
    } else {
        None
    }
}

impl Master {
    /// The error of a service-data-object read of `max_len` bytes from device
    /// `ordinal`, if it cannot be made.
    pub open spec fn sdo_read_error(self, ordinal: u16, max_len: usize) -> Option<EcError> {
        if max_len == 0 {
            Some(EcError::InvalidArgument)
        } else if self.session.is_none() {
            Some(EcError::NotInitialized)
        } else if max_len > MAX_SDO_LEN {
            Some(EcError::InvalidArgument)
        } else {
            self.device_error(ordinal)
        }
    }

    /// Checks a service-data-object read; the result is the number of bytes
    /// it hands back.
    pub fn sdo_read_request(&self, ordinal: u16, max_len: usize) -> (r: Result<usize, EcError>)
        ensures
            match self.sdo_read_error(ordinal, max_len) {
                Some(e) => r == Err::<usize, EcError>(e),
                None => r == Ok::<usize, EcError>(max_len),
            },
    {
        if max_len == 0 {
            return Err(EcError::InvalidArgument);
        }
        if self.session.is_none() {
            return Err(EcError::NotInitialized);
        }
        if max_len > MAX_SDO_LEN {
            return Err(EcError::InvalidArgument);
        }
        match self.device_slot(ordinal) {
            Err(e) => Err(e),
            Ok(_) => Ok(max_len),
        }
    }

    /// The error of a service-data-object write of `data` to device
    /// `ordinal`, if it cannot be made.
    pub open spec fn sdo_write_error(self, ordinal: u16, data: Seq<u8>) -> Option<EcError> {
        if data.len() == 0 || data.len() > MAX_SDO_LEN {
            Some(EcError::InvalidArgument)
        } else if self.session.is_none() {
            Some(EcError::NotInitialized)
        } else if data.len() == 3 {
            Some(EcError::InvalidArgument)
        } else {
            self.device_error(ordinal)
        }
    }

    /// Checks a service-data-object write; the result is the value to write.
    pub fn sdo_write_request(&self, ordinal: u16, data: &[u8]) -> (r: Result<SdoValue, EcError>)
        ensures
            match self.sdo_write_error(ordinal, data@) {
                Some(e) => r == Err::<SdoValue, EcError>(e),
                None => r == Ok::<SdoValue, EcError>(sdo_value(data@).unwrap()),
            },
    {
        let n = data.len();
        if n == 0 || n > MAX_SDO_LEN {
            return Err(EcError::InvalidArgument);
        }
        if self.session.is_none() {
            return Err(EcError::NotInitialized);
        }
        if n == 3 {
            return Err(EcError::InvalidArgument);
        }
        match self.device_slot(ordinal) {
            Err(e) => Err(e),
            Ok(_) => {
                if n == 1 {
                    Ok(SdoValue::U8(data[0]))
                } else if n == 2 {
                    Ok(SdoValue::U16(u16_from_bytes(data[0], data[1])))
                } else {
                    let v = u32_from_bytes([data[0], data[1], data[2], data[3]]);
                    proof {
                        let a = seq![data@[0], data@[1], data@[2], data@[3]];
                        assert(a =~= data@);
                    }
                    Ok(SdoValue::U32(v))
                }
            },
        }
    }

    /// The error of a raw EEPROM read of `len` bytes from device `ordinal`,
    /// if it cannot be made.
    pub open spec fn eeprom_read_error(self, ordinal: u16, len: usize) -> Option<EcError> {
        if len == 0 {
            Some(EcError::InvalidArgument)
        } else {
            self.device_error(ordinal)
        }
    }

    /// Checks a raw EEPROM read; the result is the device's slot.
    pub fn eeprom_read_request(&self, ordinal: u16, len: usize) -> (r: Result<usize, EcError>)
        ensures
            match self.eeprom_read_error(ordinal, len) {
                Some(e) => r == Err::<usize, EcError>(e),
                None => r == Ok::<usize, EcError>(ordinal as usize),
            },
    {
        if len == 0 {
            return Err(EcError::InvalidArgument);
        }
        self.device_slot(ordinal)
    }
}

} // verus!
