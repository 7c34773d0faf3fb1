//! A UART device: the builder that gathers its line parameters, the open
//! flag word, and the packed configuration word the kernel's control call
//! is given — the field layout written out bit by bit.

use vstd::prelude::*;
use vstd::string::StrSliceExecFns;

use crate::base::RTTError;

verus! {

/// The line speeds a UART can be configured to.
#[derive(Copy, Clone, PartialEq, Eq, Structural, Debug)]
pub enum BaudRate {
    BaudRate2400,
    BaudRate4800,
    BaudRate9600,
    BaudRate19200,
    BaudRate38400,
    BaudRate57600,
    BaudRate115200,
    BaudRate230400,
    BaudRate460800,
    BaudRate921600,
    BaudRate2000000,
    BaudRate3000000,
}

impl BaudRate {
    /// The speed in bits per second.
    pub open spec fn spec_value(self) -> u32 {
        match self {
            BaudRate::BaudRate2400 => 2400,
            BaudRate::BaudRate4800 => 4800,
            BaudRate::BaudRate9600 => 9600,
            BaudRate::BaudRate19200 => 19200,
            BaudRate::BaudRate38400 => 38400,
            BaudRate::BaudRate57600 => 57600,
            BaudRate::BaudRate115200 => 115200,
            BaudRate::BaudRate230400 => 230400,
            BaudRate::BaudRate460800 => 460800,
            BaudRate::BaudRate921600 => 921600,
            BaudRate::BaudRate2000000 => 2000000,
            BaudRate::BaudRate3000000 => 3000000,
        }
    }

    /// The speed in bits per second.
    pub fn value(self) -> (v: u32)
        ensures
            v == self.spec_value(),
    {
        match self {
            BaudRate::BaudRate2400 => 2400,
            BaudRate::BaudRate4800 => 4800,
            BaudRate::BaudRate9600 => 9600,
            BaudRate::BaudRate19200 => 19200,
            BaudRate::BaudRate38400 => 38400,
            BaudRate::BaudRate57600 => 57600,
            BaudRate::BaudRate115200 => 115200,
            BaudRate::BaudRate230400 => 230400,
            BaudRate::BaudRate460800 => 460800,
            BaudRate::BaudRate921600 => 921600,
            BaudRate::BaudRate2000000 => 2000000,
            BaudRate::BaudRate3000000 => 3000000,
        }
    }
}

/// How many data bits one frame carries.
#[derive(Copy, Clone, PartialEq, Eq, Structural, Debug)]
pub enum DataBits {
    DataBits5,
    DataBits6,
    DataBits7,
    DataBits8,
    DataBits9,
}

impl DataBits {
    /// The field value in the configuration word.
    pub open spec fn spec_value(self) -> u32 {
        match self {
            DataBits::DataBits5 => 5,
            DataBits::DataBits6 => 6,
            DataBits::DataBits7 => 7,
            DataBits::DataBits8 => 8,
            DataBits::DataBits9 => 9,
        }
    }

    /// The field value in the configuration word.
    pub fn value(self) -> (v: u32)
        ensures
            v == self.spec_value(),
    {
        match self {
            DataBits::DataBits5 => 5,
            DataBits::DataBits6 => 6,
            DataBits::DataBits7 => 7,
            DataBits::DataBits8 => 8,
            DataBits::DataBits9 => 9,
        }
    }
}

/// How many stop bits close one frame.
#[derive(Copy, Clone, PartialEq, Eq, Structural, Debug)]
pub enum StopBits {
    StopBits1,
    StopBits2,
    StopBits3,
    StopBits4,
}

impl StopBits {
    /// The field value in the configuration word.
    pub open spec fn spec_value(self) -> u32 {
        match self {
            StopBits::StopBits1 => 0,
            StopBits::StopBits2 => 1,
            StopBits::StopBits3 => 2,
            StopBits::StopBits4 => 3,
        }
    }

    /// The field value in the configuration word.
    pub fn value(self) -> (v: u32)
        ensures
            v == self.spec_value(),
    {
        match self {
            StopBits::StopBits1 => 0,
            StopBits::StopBits2 => 1,
            StopBits::StopBits3 => 2,
            StopBits::StopBits4 => 3,
        }
    }
}

/// The parity of one frame.
#[derive(Copy, Clone, PartialEq, Eq, Structural, Debug)]
pub enum Parity {
    NoParity,
    ODD,
    EVEN,
}

impl Parity {
    /// The field value in the configuration word.
    pub open spec fn spec_value(self) -> u32 {
        match self {
            Parity::NoParity => 0,
            Parity::ODD => 1,
            Parity::EVEN => 2,
        }
    }

    /// The field value in the configuration word.
    pub fn value(self) -> (v: u32)
        ensures
            v == self.spec_value(),
    {
        match self {
            Parity::NoParity => 0,
            Parity::ODD => 1,
            Parity::EVEN => 2,
        }
    }
}

/// Which bit of a byte goes out first.
#[derive(Copy, Clone, PartialEq, Eq, Structural, Debug)]
pub enum BitOrder {
    LSB,
    MSB,
}

impl BitOrder {
    /// The field value in the configuration word.
    pub open spec fn spec_value(self) -> u32 {
        match self {
            BitOrder::LSB => 0,
            BitOrder::MSB => 1,
        }
    }

    /// The field value in the configuration word.
    pub fn value(self) -> (v: u32)
        ensures
            v == self.spec_value(),
    {
        match self {
            BitOrder::LSB => 0,
            BitOrder::MSB => 1,
        }
    }
}

/// Whether the line's levels are inverted.
#[derive(Copy, Clone, PartialEq, Eq, Structural, Debug)]
pub enum Invert {
    Normal,
    Inverted,
}

impl Invert {
    /// The field value in the configuration word.
    pub open spec fn spec_value(self) -> u32 {
        match self {
            Invert::Normal => 0,
            Invert::Inverted => 1,
        }
    }

    /// The field value in the configuration word.
    pub fn value(self) -> (v: u32)
        ensures
            v == self.spec_value(),
    {
        match self {
            Invert::Normal => 0,
            Invert::Inverted => 1,
        }
    }
}

/// An opened UART device.
pub struct UART {
    pub handle: crate::device::common::RtDevice,
}

/// The pair the kernel's configuration control is given: the speed and the
/// packed field word.
#[derive(Copy, Clone, PartialEq, Eq, Structural, Debug)]
pub struct UartConfig {
    pub baud_rate: u32,
    pub flag: u32,
}

/// Gathers a UART's line parameters before it is opened.
pub struct UARTBuilder {
    pub name: String,
    pub baud_rate: BaudRate,
    pub data_bits: DataBits,
    pub stop_bits: StopBits,
    pub parity: Parity,
    pub bit_order: BitOrder,
    pub invert: Invert,
    pub buf_size: u16,
    pub rx_dma: bool,
    pub tx_dma: bool,
}

/// The packed configuration field word: data bits in the lowest four bits,
/// stop bits above them, then parity, bit order, inversion, and the buffer
/// size from bit ten up.
pub open spec fn spec_config_flag(b: UARTBuilder) -> u32 {
    (b.data_bits.spec_value() + b.stop_bits.spec_value() * 16 + b.parity.spec_value() * 64
        + b.bit_order.spec_value() * 256 + b.invert.spec_value() * 512 + (b.buf_size as u32)
        * 1024) as u32
}

/// The open flag word: DMA on the send side when asked for, and DMA or
/// interrupt mode on the receive side.
pub open spec fn spec_open_flag(b: UARTBuilder) -> u16 {
    (if b.tx_dma {
        0x800u16
    } else {
        0u16
    }) | (if b.rx_dma {
        0x200u16
    } else {
        0x100u16
    })
}

impl UART {
    /// A builder with the default parameters: 115200 baud, eight data
    /// bits, one stop bit, no parity, least significant bit first, not
    /// inverted, a 64-byte buffer, and no DMA.
    pub fn new(name: &str) -> (b: UARTBuilder)
        ensures
            b.name@ == name@,
            b.baud_rate == BaudRate::BaudRate115200,
            b.data_bits == DataBits::DataBits8,
            b.stop_bits == StopBits::StopBits1,
            b.parity == Parity::NoParity,
            b.bit_order == BitOrder::LSB,
            b.invert == Invert::Normal,
            b.buf_size == 64,
            !b.rx_dma,
            !b.tx_dma,
    {
        UARTBuilder {
            name: name.to_owned(),
            baud_rate: BaudRate::BaudRate115200,
            data_bits: DataBits::DataBits8,
            stop_bits: StopBits::StopBits1,
            parity: Parity::NoParity,
            bit_order: BitOrder::LSB,
            invert: Invert::Normal,
            buf_size: 64,
            rx_dma: false,
            tx_dma: false,
        }
    }

    /// Wraps a found and opened UART device.
    pub fn from_device(dev: crate::device::common::RtDevice) -> (u: UART)
        ensures
            u.handle == dev,
    {
        UART { handle: dev }
    }

    /// Interprets what the kernel's read call returned: `buf` is the
    /// buffer of `size` bytes the kernel filled, `got` how many bytes it
    /// reported.  More than asked for is a read failure; otherwise the
    /// buffer is cut down to what arrived.
    pub fn read_bytes(&self, size: usize, buf: Vec<u8>, got: usize) -> (r: Result<
        Vec<u8>,
        RTTError,
    >)
        requires
            buf@.len() == size,
        ensures
            got > size ==> r is Err && r->Err_0 == RTTError::DeviceReadFailed,
            got <= size ==> match r {
                Ok(v) => v@ == buf@.take(got as int),
                Err(_) => false,
            },
    {
        if got > size {
            return Err(RTTError::DeviceReadFailed);
        }
        let mut out = buf;
        out.truncate(got);
        Ok(out)
    }

    /// Whether a read of an object moved exactly the object's size.
    pub fn read_obj_result(&self, size: usize, got: usize) -> (r: Result<(), RTTError>)
        ensures
            r == (if got == size {
                Ok::<(), RTTError>(())
            } else {
                Err::<(), RTTError>(RTTError::DeviceReadFailed)
            }),
    {
        if got != size {
            return Err(RTTError::DeviceReadFailed);
        }
        Ok(())
    }

    /// Whether a write of an object moved exactly the object's size.
    pub fn write_obj_result(&self, size: usize, put: usize) -> (r: Result<(), RTTError>)
        ensures
            r == (if put == size {
                Ok::<(), RTTError>(())
            } else {
                Err::<(), RTTError>(RTTError::DeviceWriteFailed)
            }),
    {
        if put != size {
            return Err(RTTError::DeviceWriteFailed);
        }
        Ok(())
    }

    /// Interprets the code of registering a receive callback.
    pub fn set_rx_indicate(&self, code: isize) -> (r: Result<(), RTTError>)
        ensures
            r == (if code == 0 {
                Ok::<(), RTTError>(())
            } else {
                Err::<(), RTTError>(RTTError::DeviceSetRxCallBackFailed)
            }),
    {
        if code != 0 {
            return Err(RTTError::DeviceSetRxCallBackFailed);
        }
        Ok(())
    }

    /// Interprets the code of registering a send-complete callback.
    pub fn set_tx_complete(&self, code: isize) -> (r: Result<(), RTTError>)
        ensures
            r == (if code == 0 {
                Ok::<(), RTTError>(())
            } else {
                Err::<(), RTTError>(RTTError::DeviceSetTxCallBackFailed)
            }),
    {
        if code != 0 {
            return Err(RTTError::DeviceSetTxCallBackFailed);
        }
        Ok(())
    }

    /// The raw device handle, for the embedding's read and write calls.
    pub fn raw_handle(&self) -> (h: usize)
        ensures
            h == self.handle.id(),
    {
        self.handle.raw()
    }
}

impl UARTBuilder {
    /// Replaces the line speed.
    pub fn baud_rate(&mut self, val: BaudRate) -> (r: &mut UARTBuilder)
        ensures
            r.baud_rate == val,
            *r == (UARTBuilder { baud_rate: val, ..*old(self) }),
            *final(self) == *final(r),
    {
        self.baud_rate = val;
        self
    }

    /// Replaces the data bits.
    pub fn data_bits(&mut self, val: DataBits) -> (r: &mut UARTBuilder)
        ensures
            *r == (UARTBuilder { data_bits: val, ..*old(self) }),
            *final(self) == *final(r),
    {
        self.data_bits = val;
        self
    }

    /// Replaces the stop bits.
    pub fn stop_bits(&mut self, val: StopBits) -> (r: &mut UARTBuilder)
        ensures
            *r == (UARTBuilder { stop_bits: val, ..*old(self) }),
            *final(self) == *final(r),
    {
        self.stop_bits = val;
        self
    }

    /// Replaces the parity.
    pub fn parity(&mut self, val: Parity) -> (r: &mut UARTBuilder)
        ensures
            *r == (UARTBuilder { parity: val, ..*old(self) }),
            *final(self) == *final(r),
    {
        self.parity = val;
        self
    }

    /// Replaces the bit order.
    pub fn bit_order(&mut self, val: BitOrder) -> (r: &mut UARTBuilder)
        ensures
            *r == (UARTBuilder { bit_order: val, ..*old(self) }),
            *final(self) == *final(r),
    {
        self.bit_order = val;
        self
    }

    /// Replaces the inversion setting.
    pub fn invert(&mut self, val: Invert) -> (r: &mut UARTBuilder)
        ensures
            *r == (UARTBuilder { invert: val, ..*old(self) }),
            *final(self) == *final(r),
    {
        self.invert = val;
        self
    }

    /// Switches DMA on the send side.
    pub fn tx_dma(&mut self, f: bool) -> (r: &mut UARTBuilder)
        ensures
            *r == (UARTBuilder { tx_dma: f, ..*old(self) }),
            *final(self) == *final(r),
    {
        self.tx_dma = f;
        self
    }

    /// Switches DMA on the receive side.
    pub fn rx_dma(&mut self, f: bool) -> (r: &mut UARTBuilder)
        ensures
            *r == (UARTBuilder { rx_dma: f, ..*old(self) }),
            *final(self) == *final(r),
    {
        self.rx_dma = f;
        self
    }

    /// The open flag word these parameters ask for.
    pub fn open_flag(&self) -> (f: u16)
        ensures
            f == spec_open_flag(*self),
    {
        (if self.tx_dma {
            0x800u16
        } else {
            0u16
        }) | (if self.rx_dma {
            0x200u16
        } else {
            0x100u16
        })
    }

    /// The configuration pair the kernel's control call is given: the
    /// speed, and the field word with every line parameter packed at its
    /// bit position.
    pub fn config_word(&self) -> (c: UartConfig)
        ensures
            c.baud_rate == self.baud_rate.spec_value(),
            c.flag == spec_config_flag(*self),
    {
        let flag: u32 = self.data_bits.value() + self.stop_bits.value() * 16
            + self.parity.value() * 64 + self.bit_order.value() * 256 + self.invert.value() * 512
            + (self.buf_size as u32) * 1024;
        UartConfig { baud_rate: self.baud_rate.value(), flag }
    }
}

} // verus!
