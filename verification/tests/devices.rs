//! The device wrappers: flag and configuration words held to exact
//! values, and the verdicts on the kernel's return codes.

use rtt_rs::base::RTTError;
use rtt_rs::device::can::CAN;
use rtt_rs::device::can::CAN_IDE_BIT;
use rtt_rs::device::can::CAN_RTR_BIT;
use rtt_rs::device::can::CanBaud;
use rtt_rs::device::can::CanMode;
use rtt_rs::device::can::CanMsgData;
use rtt_rs::device::can::CanMsgRemote;
use rtt_rs::device::common::RtDevice;
use rtt_rs::device::common::device_close;
use rtt_rs::device::common::device_ctrl;
use rtt_rs::device::common::device_find;
use rtt_rs::device::common::device_open;
use rtt_rs::device::i2c::I2CDevice;
use rtt_rs::device::rtc::Time;
use rtt_rs::device::spi::SPI;
use rtt_rs::device::spi::SpiMsg;
use rtt_rs::device::uart::BaudRate;
use rtt_rs::device::uart::BitOrder;
use rtt_rs::device::uart::DataBits;
use rtt_rs::device::uart::Invert;
use rtt_rs::device::uart::Parity;
use rtt_rs::device::uart::StopBits;
use rtt_rs::device::uart::UART;
use rtt_rs::device::watchdog::WDT_CMD_KEEPALIVE;
use rtt_rs::device::watchdog::WDT_CMD_SET_TIMEOUT;
use rtt_rs::device::watchdog::WDT_CMD_START;
use rtt_rs::device::watchdog::WDT_CMD_STOP;
use rtt_rs::device::watchdog::WatchDog;

fn dev(handle: usize) -> RtDevice {
    device_find(handle).unwrap()
}

#[test]
fn common_verdicts() {
    assert_eq!(device_find(0).err(), Some(RTTError::DeviceNotFound));
    assert_eq!(device_find(5).unwrap().raw(), 5);
    assert!(device_open(0).is_ok());
    assert_eq!(device_open(-1).err(), Some(RTTError::DeviceOpenFailed));
    assert!(device_close(0).is_ok());
    assert_eq!(device_close(1).err(), Some(RTTError::DeviceCloseFailed));
    assert!(device_ctrl(0).is_ok());
    assert_eq!(device_ctrl(2).err(), Some(RTTError::DeviceConfigFailed));
}

#[test]
fn watchdog_defaults_and_codes() {
    let mut b = WatchDog::new();
    assert_eq!(b.name, "wdt");
    assert_eq!(b.timeout, 1000);
    b.name("wdt2").timeout(500);
    assert_eq!(b.name, "wdt2");
    assert_eq!(b.timeout, 500);

    assert_eq!(b.open(0, 0, 0).err(), Some(RTTError::DeviceNotFound));
    assert_eq!(b.open(3, -1, 0).err(), Some(RTTError::DeviceOpenFailed));
    assert_eq!(b.open(3, 0, -1).err(), Some(RTTError::DeviceConfigFailed));
    let w = b.open(3, 0, 0).unwrap();
    assert_eq!(w.raw(), 3);

    assert!(w.start(0).is_ok());
    assert_eq!(w.start(1).err(), Some(RTTError::DeviceConfigFailed));
    assert!(w.stop(0).is_ok());
    let d = w.dog();
    assert_eq!(d.raw(), 3);
    assert!(d.active(0).is_ok());
    assert_eq!(d.active(-3).err(), Some(RTTError::DeviceConfigFailed));
    assert_eq!(
        (
            WDT_CMD_SET_TIMEOUT,
            WDT_CMD_KEEPALIVE,
            WDT_CMD_START,
            WDT_CMD_STOP
        ),
        (2, 3, 5, 6)
    );
}

#[test]
fn i2c_flag_words() {
    let d = I2CDevice::new_open(4, 0x50, false).unwrap();
    assert_eq!(d.read_ack(2, false).flags, 1);
    assert_eq!(d.read_ack(2, true).flags, 1 | 32);
    assert_eq!(d.read_nack(2, false).flags, 1 | 64);
    assert_eq!(d.write(2, false).flags, 0);
    assert_eq!(d.write(2, true).flags, 32);

    let t = I2CDevice::new_open(4, 0x51, true).unwrap();
    assert_eq!(t.read_ack(8, true).flags, 1 | 32 | 4);
    assert_eq!(t.read_nack(8, true).flags, 1 | 32 | 4 | 64);
    assert_eq!(t.read_ack(8, false).address, 0x51);
    assert_eq!(t.read_ack(8, false).len, 8);

    assert_eq!(
        I2CDevice::new_open(0, 1, false).err(),
        Some(RTTError::DeviceNotFound)
    );
    assert_eq!(d.read_result(1, vec![7u8]).unwrap(), vec![7u8]);
    assert_eq!(
        d.read_result(0, vec![7u8]).err(),
        Some(RTTError::DeviceReadFailed)
    );
    assert!(d.write_result(1).is_ok());
    assert_eq!(d.write_result(2).err(), Some(RTTError::DeviceWriteFailed));
}

#[test]
fn spi_messages_and_plan() {
    let spi = SPI::new_open(6).unwrap();
    assert_eq!(SpiMsg::make_vec(), vec![0u8; 8]);
    let (a, b) = SpiMsg::make_vec_pair();
    assert_eq!(a, vec![0u8; 8]);
    assert_eq!(b, vec![0u8; 8]);

    // A receive buffer shorter than the send buffer grows with zeroes.
    let m = SpiMsg::new(vec![1u8, 2, 3, 4], vec![9u8, 9]);
    let parts = spi.plan(&m);
    assert_eq!(parts.len(), 1);
    assert_eq!(parts[0].length, 4);
    assert_eq!(parts[0].flag, 3);
    assert!(parts[0].has_send && parts[0].has_rec);

    // The running length carries over between segments.
    let mut m = SpiMsg::new_send(vec![1u8, 2, 3]);
    m.append_rec(vec![0u8; 5]);
    let parts = spi.plan(&m);
    assert_eq!(parts.len(), 2);
    assert_eq!(parts[0].length, 3);
    assert_eq!(parts[0].flag, 1);
    assert_eq!(parts[1].length, 3);
    assert_eq!(parts[1].flag, 3);
    assert!(!parts[1].has_send && parts[1].has_rec);

    // A lone receive segment is bounded by its own buffer.
    let m = SpiMsg::new_rec(vec![0u8; 6]);
    let parts = spi.plan(&m);
    assert_eq!(parts[0].length, 6);
    assert_eq!(parts[0].flag, 3);

    // Middle segments carry no chip-select flag.
    let mut m = SpiMsg::new_send(vec![1u8]);
    m.append(vec![2u8, 3], vec![0u8; 2]);
    m.append_send(vec![4u8; 7]);
    let parts = spi.plan(&m);
    assert_eq!(parts.len(), 3);
    assert_eq!(parts[0].flag, 1);
    assert_eq!(parts[1].flag, 0);
    assert_eq!(parts[2].flag, 3);
    assert_eq!(parts[1].length, 2);
    assert_eq!(parts[2].length, 7);
}

#[test]
fn spi_byte_helpers_and_results() {
    let spi = SPI::new_open(6).unwrap();
    let m = spi.send_byte(0x41);
    assert_eq!(m.segs[0].send.as_deref(), Some(&[0x41u8][..]));
    let m = spi.trans_byte(0x42);
    assert_eq!(m.segs[0].send.as_deref(), Some(&[0x42u8][..]));
    assert_eq!(m.segs[0].rec.as_deref(), Some(&[0u8][..]));
    let m = spi.receive_bytes(3);
    assert_eq!(m.segs[0].rec.as_deref(), Some(&[0u8, 0, 0][..]));
    let m = spi.receive_byte();
    assert_eq!(m.segs[0].rec.as_deref(), Some(&[0u8][..]));

    assert!(spi.transfer_result(0).is_ok());
    assert_eq!(
        spi.transfer_result(7).err(),
        Some(RTTError::DeviceTransFailed)
    );
    assert_eq!(spi.receive_result(0, vec![5u8]).unwrap(), vec![5u8]);
    assert_eq!(spi.byte_result(0, &vec![5u8, 6]).unwrap(), 5);
    assert_eq!(
        SPI::new_open(0).err(),
        Some(RTTError::DeviceNotFound)
    );
}

#[test]
fn uart_words() {
    let b = UART::new("uart1");
    assert_eq!(b.name, "uart1");
    // Defaults: eight data bits and a 64-byte buffer from bit ten up.
    let c = b.config_word();
    assert_eq!(c.baud_rate, 115200);
    assert_eq!(c.flag, 8 + 64 * 1024);
    assert_eq!(b.open_flag(), 0x100);

    let mut b = UART::new("uart2");
    b.baud_rate(BaudRate::BaudRate9600)
        .data_bits(DataBits::DataBits7)
        .stop_bits(StopBits::StopBits2)
        .parity(Parity::ODD)
        .bit_order(BitOrder::MSB)
        .invert(Invert::Inverted)
        .rx_dma(true)
        .tx_dma(true);
    let c = b.config_word();
    assert_eq!(c.baud_rate, 9600);
    assert_eq!(c.flag, 7 + 1 * 16 + 1 * 64 + 256 + 512 + 64 * 1024);
    assert_eq!(b.open_flag(), 0x800 | 0x200);

    let u = UART::from_device(dev(2));
    assert_eq!(u.raw_handle(), 2);
    assert_eq!(
        u.read_bytes(4, vec![1u8, 2, 3, 4], 2).unwrap(),
        vec![1u8, 2]
    );
    assert_eq!(
        u.read_bytes(2, vec![1u8, 2], 3).err(),
        Some(RTTError::DeviceReadFailed)
    );
    assert!(u.read_obj_result(8, 8).is_ok());
    assert_eq!(
        u.read_obj_result(8, 4).err(),
        Some(RTTError::DeviceReadFailed)
    );
    assert!(u.write_obj_result(8, 8).is_ok());
    assert_eq!(
        u.write_obj_result(8, 0).err(),
        Some(RTTError::DeviceWriteFailed)
    );
    assert!(u.set_rx_indicate(0).is_ok());
    assert_eq!(
        u.set_rx_indicate(-1).err(),
        Some(RTTError::DeviceSetRxCallBackFailed)
    );
    assert!(u.set_tx_complete(0).is_ok());
    assert_eq!(
        u.set_tx_complete(-1).err(),
        Some(RTTError::DeviceSetTxCallBackFailed)
    );
}

#[test]
fn can_words() {
    let b = CAN::new("can0");
    assert_eq!(b.name, "can0");
    assert_eq!(b.baud_rate, CanBaud::CAN1MBaud);
    assert_eq!(b.mode, CanMode::Normal);
    assert_eq!(b.open_flag(), 0x100);
    let mut b = CAN::new("can1");
    b.baud_rate(CanBaud::CAN500kBaud).mode(CanMode::Listen);
    assert_eq!(b.baud_rate.value(), 2);
    assert_eq!(b.mode.value(), 1);

    let data = CanMsgData {
        id: 0x123,
        expansion: false,
        data: vec![1u8, 2, 3],
    };
    let (w0, w1) = data.frame_words();
    assert_eq!(w0, 0x123);
    assert_eq!(w1, 3);

    let wide = CanMsgData {
        id: 0x2000_0005,
        expansion: true,
        data: vec![],
    };
    let (w0, w1) = wide.frame_words();
    // The identifier field is twenty-nine bits: the excess is cut off.
    assert_eq!(w0, 5 + CAN_IDE_BIT);
    assert_eq!(w1, 0);

    let remote = CanMsgRemote {
        id: 7,
        expansion: false,
    };
    let (w0, w1) = remote.frame_words();
    assert_eq!(w0, 7 + CAN_RTR_BIT);
    assert_eq!(w1, 0);

    let c = CAN::from_device(dev(9));
    assert_eq!(c.raw(), 9);
}

#[test]
fn rtc_values() {
    let t = Time::now(1_600_000_000);
    assert_eq!(t.now_num(), 1_600_000_000);
    assert!(Time::set_date(0).is_ok());
    assert_eq!(Time::set_date(1).err(), Some(RTTError::DeviceWriteFailed));
    assert!(Time::set_time(0).is_ok());
    assert_eq!(Time::set_time(-1).err(), Some(RTTError::DeviceWriteFailed));
}
