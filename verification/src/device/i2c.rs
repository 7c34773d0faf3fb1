//! An I2C bus device: the flag words of its read and write transfers, and
//! the verdicts on what the kernel's transfer call returns.

use vstd::prelude::*;

use crate::base::RTTError;
use crate::device::common::RtDevice;
use crate::device::common::device_find;

verus! {

/// Transfer flag: this message reads from the bus.
pub const I2C_FLAG_RD: u16 = 1;

/// Transfer flag: the device uses ten-bit addressing.
pub const I2C_FLAG_ADDR_10BIT: u16 = 4;

/// Transfer flag: acknowledgements from the device are ignored.
pub const I2C_FLAG_IGNORE_NACK: u16 = 32;

/// Transfer flag: no acknowledgement is sent after the last read byte.
pub const I2C_FLAG_NO_READ_ACK: u16 = 64;

/// One transfer request: the device address, the transfer flags, and how
/// many bytes travel.  The embedding pairs it with the data buffer when it
/// hands the request to the kernel.
#[derive(Copy, Clone, PartialEq, Eq, Structural, Debug)]
pub struct I2CMsg {
    pub address: u16,
    pub flags: u16,
    pub len: u16,
}

/// The flag word of a read transfer.
pub open spec fn spec_read_flags(add_10bits: bool, ignore_ack: bool, nack: bool) -> u16 {
    ((I2C_FLAG_RD | (if ignore_ack {
        I2C_FLAG_IGNORE_NACK
    } else {
        0
    })) | (if add_10bits {
        I2C_FLAG_ADDR_10BIT
    } else {
        0
    })) | (if nack {
        I2C_FLAG_NO_READ_ACK
    } else {
        0
    })
}

/// A device on an I2C bus: the bus handle, the device's address, and
/// whether the address is ten bits wide.
pub struct I2CDevice {
    pub bus: RtDevice,
    pub address: u16,
    pub add_10bits: bool,
}

impl I2CDevice {
    /// Interprets the handle the bus-find call returned and binds the
    /// device's address to the bus.  The address carries no read/write
    /// bit.
    pub fn new_open(found: usize, add: u16, add_10bits: bool) -> (r: Result<I2CDevice, RTTError>)
        ensures
            found == 0 ==> r is Err && r->Err_0 == RTTError::DeviceNotFound,
            found != 0 ==> match r {
                Ok(d) => d.bus.id() == found && d.address == add && d.add_10bits == add_10bits,
                Err(_) => false,
            },
    {
        Ok(I2CDevice { bus: device_find(found)?, address: add, add_10bits })
    }

    /// The transfer request of a read that acknowledges its last byte.
    pub fn read_ack(&self, len: u16, ignore_ack: bool) -> (m: I2CMsg)
        ensures
            m.address == self.address,
            m.len == len,
            m.flags == spec_read_flags(self.add_10bits, ignore_ack, false),
    {
        let mut flag = I2C_FLAG_RD;
        flag = flag | (if ignore_ack {
            I2C_FLAG_IGNORE_NACK
        } else {
            0
        });
        flag = flag | (if self.add_10bits {
            I2C_FLAG_ADDR_10BIT
        } else {
            0
        });
        flag = flag | 0;
        proof {
            assert(flag | 0 == flag) by (bit_vector);
        }
        I2CMsg { address: self.address, flags: flag, len }
    }

    /// The transfer request of a read that leaves its last byte without
    /// acknowledgement.
    pub fn read_nack(&self, len: u16, ignore_ack: bool) -> (m: I2CMsg)
        ensures
            m.address == self.address,
            m.len == len,
            m.flags == spec_read_flags(self.add_10bits, ignore_ack, true),
    {
        let mut flag = I2C_FLAG_RD;
        flag = flag | (if ignore_ack {
            I2C_FLAG_IGNORE_NACK
        } else {
            0
        });
        flag = flag | (if self.add_10bits {
            I2C_FLAG_ADDR_10BIT
        } else {
            0
        });
        flag = flag | I2C_FLAG_NO_READ_ACK;
        I2CMsg { address: self.address, flags: flag, len }
    }

    /// The transfer request of a write.
    pub fn write(&self, len: u16, ignore_ack: bool) -> (m: I2CMsg)
        ensures
            m.address == self.address,
            m.len == len,
            m.flags == ((if ignore_ack {
                I2C_FLAG_IGNORE_NACK
            } else {
                0
            }) | (if self.add_10bits {
                I2C_FLAG_ADDR_10BIT
            } else {
                0
            })),
    {
        let mut flag: u16 = 0;
        flag = flag | (if ignore_ack {
            I2C_FLAG_IGNORE_NACK
        } else {
            0
        });
        flag = flag | (if self.add_10bits {
            I2C_FLAG_ADDR_10BIT
        } else {
            0
        });
        proof {
            let a: u16 = if ignore_ack {
                I2C_FLAG_IGNORE_NACK
            } else {
                0
            };
            assert(0u16 | a == a) by (bit_vector);
        }
        I2CMsg { address: self.address, flags: flag, len }
    }

    /// Interprets how many messages the kernel's transfer call handled for
    /// a read request: anything but the one message is a read failure;
    /// otherwise `buf` is the data the kernel filled in.
    pub fn read_result(&self, handled: usize, buf: Vec<u8>) -> (r: Result<Vec<u8>, RTTError>)
        ensures
            handled != 1 ==> r is Err && r->Err_0 == RTTError::DeviceReadFailed,
            handled == 1 ==> match r {
                Ok(v) => v == buf,
                Err(_) => false,
            },
    {
        if handled != 1 {
            return Err(RTTError::DeviceReadFailed);
        }
        Ok(buf)
    }

    /// Interprets how many messages the kernel's transfer call handled for
    /// a write request.
    pub fn write_result(&self, handled: usize) -> (r: Result<(), RTTError>)
        ensures
            r == (if handled == 1 {
                Ok::<(), RTTError>(())
            } else {
                Err::<(), RTTError>(RTTError::DeviceWriteFailed)
            }),
    {
        if handled != 1 {
            return Err(RTTError::DeviceWriteFailed);
        }
        Ok(())
    }

    /// The raw bus handle, for the embedding's transfer calls.
    pub fn raw(&self) -> (h: usize)
        ensures
            h == self.bus.id(),
    {
        self.bus.raw()
    }
}

} // verus!
