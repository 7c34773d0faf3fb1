//! A CAN bus device: the builder's open flag and control codes, and the
//! two packed words of a transmitted frame — identifier, extended-frame
//! and remote-request bits in the first, the data length in the second —
//! with the field layout written out bit by bit.

use vstd::prelude::*;
use vstd::string::StrSliceExecFns;

use crate::base::RTTError;

verus! {

/// Control command: set the bus baud rate.
pub const CAN_CMD_SET_BAUD: i32 = 0x14;

/// Control command: set the bus mode.
pub const CAN_CMD_SET_MODE: i32 = 0x15;

/// The identifier field holds twenty-nine bits.
pub const CAN_ID_LIMIT: u32 = 0x20000000;

/// The extended-frame bit, above the identifier field.
pub const CAN_IDE_BIT: u32 = 0x20000000;

/// The remote-request bit, above the extended-frame bit.
pub const CAN_RTR_BIT: u32 = 0x40000000;

/// The data-length field of the second word holds eight bits.
pub const CAN_LEN_LIMIT: u32 = 256;

/// The baud rates a CAN bus can be configured to, as the kernel's codes.
#[derive(Copy, Clone, PartialEq, Eq, Structural, Debug)]
pub enum CanBaud {
    CAN1MBaud,
    CAN800kBaud,
    CAN500kBaud,
    CAN250kBaud,
    CAN125kBaud,
    CAN100kBaud,
    CAN50kBaud,
    CAN20kBaud,
    CAN10kBaud,
}

impl CanBaud {
    /// The kernel's code for this baud rate.
    pub open spec fn spec_value(self) -> u32 {
        match self {
            CanBaud::CAN1MBaud => 0,
            CanBaud::CAN800kBaud => 1,
            CanBaud::CAN500kBaud => 2,
            CanBaud::CAN250kBaud => 3,
            CanBaud::CAN125kBaud => 4,
            CanBaud::CAN100kBaud => 5,
            CanBaud::CAN50kBaud => 6,
            CanBaud::CAN20kBaud => 7,
            CanBaud::CAN10kBaud => 8,
        }
    }

    /// The kernel's code for this baud rate.
    pub fn value(self) -> (v: u32)
        ensures
            v == self.spec_value(),
    {
        match self {
            CanBaud::CAN1MBaud => 0,
            CanBaud::CAN800kBaud => 1,
            CanBaud::CAN500kBaud => 2,
            CanBaud::CAN250kBaud => 3,
            CanBaud::CAN125kBaud => 4,
            CanBaud::CAN100kBaud => 5,
            CanBaud::CAN50kBaud => 6,
            CanBaud::CAN20kBaud => 7,
            CanBaud::CAN10kBaud => 8,
        }
    }
}

/// The working modes of a CAN controller, as the kernel's codes.
#[derive(Copy, Clone, PartialEq, Eq, Structural, Debug)]
pub enum CanMode {
    Normal,
    Listen,
    LoopBack,
    LoopBackListen,
}

impl CanMode {
    /// The kernel's code for this mode.
    pub open spec fn spec_value(self) -> u32 {
        match self {
            CanMode::Normal => 0,
            CanMode::Listen => 1,
            CanMode::LoopBack => 2,
            CanMode::LoopBackListen => 3,
        }
    }

    /// The kernel's code for this mode.
    pub fn value(self) -> (v: u32)
        ensures
            v == self.spec_value(),
    {
        match self {
            CanMode::Normal => 0,
            CanMode::Listen => 1,
            CanMode::LoopBack => 2,
            CanMode::LoopBackListen => 3,
        }
    }
}

/// An opened CAN device.
pub struct CAN {
    pub handle: crate::device::common::RtDevice,
}

/// Gathers a CAN bus's parameters before it is opened.
pub struct CANBuilder {
    pub name: String,
    pub baud_rate: CanBaud,
    pub mode: CanMode,
    pub int_rx: bool,
    pub int_tx: bool,
}

impl CAN {
    /// A builder with the default parameters: one megabaud, normal mode,
    /// interrupt-driven receiving.
    pub fn new(name: &str) -> (b: CANBuilder)
        ensures
            b.name@ == name@,
            b.baud_rate == CanBaud::CAN1MBaud,
            b.mode == CanMode::Normal,
            b.int_rx,
            !b.int_tx,
    {
        CANBuilder {
            name: name.to_owned(),
            baud_rate: CanBaud::CAN1MBaud,
            mode: CanMode::Normal,
            int_rx: true,
            int_tx: false,
        }
    }

    /// Wraps a found and opened CAN device.
    pub fn from_device(dev: crate::device::common::RtDevice) -> (c: CAN)
        ensures
            c.handle == dev,
    {
        CAN { handle: dev }
    }

    /// The raw device handle, for the embedding's calls.
    pub fn raw(&self) -> (h: usize)
        ensures
            h == self.handle.id(),
    {
        self.handle.raw()
    }
}

impl CANBuilder {
    /// Replaces the baud rate.
    pub fn baud_rate(&mut self, b: CanBaud) -> (r: &mut CANBuilder)
        ensures
            *r == (CANBuilder { baud_rate: b, ..*old(self) }),
            *final(self) == *final(r),
    {
        self.baud_rate = b;
        self
    }

    /// Replaces the working mode.
    pub fn mode(&mut self, m: CanMode) -> (r: &mut CANBuilder)
        ensures
            *r == (CANBuilder { mode: m, ..*old(self) }),
            *final(self) == *final(r),
    {
        self.mode = m;
        self
    }

    /// The open flag word these parameters ask for: interrupt mode on the
    /// send side when asked for, and always on the receive side.
    pub fn open_flag(&self) -> (f: u16)
        ensures
            f == ((if self.int_tx {
                0x400u16
            } else {
                0u16
            }) | 0x100u16),
    {
        (if self.int_tx {
            0x400u16
        } else {
            0u16
        }) | 0x100u16
    }
}

/// A data frame to transmit: identifier, extended-frame flag, and up to
/// eight bytes of payload.
pub struct CanMsgData {
    pub id: u32,
    pub expansion: bool,
    pub data: Vec<u8>,
}

/// A remote-request frame to transmit: identifier and extended-frame flag
/// alone.
#[derive(Copy, Clone)]
pub struct CanMsgRemote {
    pub id: u32,
    pub expansion: bool,
}

impl CanMsgData {
    /// The two packed words of the frame as it goes to the kernel: the
    /// identifier in the low twenty-nine bits of the first word — anything
    /// wider is cut off, as the field is — with the extended-frame bit
    /// above it, and the payload length, cut to its eight-bit field, in
    /// the second word.
    pub fn frame_words(&self) -> (w: (u32, u32))
        requires
            self.data@.len() <= u32::MAX,
        ensures
            w.0 == (self.id % CAN_ID_LIMIT) + (if self.expansion {
                CAN_IDE_BIT
            } else {
                0u32
            }),
            w.1 == (self.data@.len() as u32) % CAN_LEN_LIMIT,
    {
        let id_field = self.id % CAN_ID_LIMIT;
        let flag1 = id_field + (if self.expansion {
            CAN_IDE_BIT
        } else {
            0u32
        });
        let flag2 = (self.data.len() as u32) % CAN_LEN_LIMIT;
        (flag1, flag2)
    }
}

impl CanMsgRemote {
    /// The first packed word of the frame as it goes to the kernel: the
    /// identifier in its twenty-nine-bit field, the extended-frame bit
    /// when asked for, and the remote-request bit always; a remote frame
    /// has no payload, so its second word is zero.
    pub fn frame_words(&self) -> (w: (u32, u32))
        ensures
            w.0 == (self.id % CAN_ID_LIMIT) + (if self.expansion {
                CAN_IDE_BIT
            } else {
                0u32
            }) + CAN_RTR_BIT,
            w.1 == 0,
    {
        let id_field = self.id % CAN_ID_LIMIT;
        let flag1 = id_field + (if self.expansion {
            CAN_IDE_BIT
        } else {
            0u32
        }) + CAN_RTR_BIT;
        (flag1, 0)
    }
}

} // verus!
