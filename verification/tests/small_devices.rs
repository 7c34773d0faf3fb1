//! The channel-bound converters, the PWM, the hardware timer and the GPIO
//! rules.

use rtt_rs::base::RTTError;
use rtt_rs::device::adc::ADC;
use rtt_rs::device::dac::DAC;
use rtt_rs::device::hwtimer::HwTimer;
use rtt_rs::device::hwtimer::HwTimerMode;
use rtt_rs::device::pin::PIN;
use rtt_rs::device::pin::PinMode;
use rtt_rs::device::pin::PinState;
use rtt_rs::device::pwm::PWM;

#[test]
fn adc_binds_one_channel() {
    assert!(ADC::new_open(0).is_err());
    let mut a = ADC::new_open(5).unwrap();
    assert_eq!(a.read_channel().err(), Some(RTTError::DeviceReadFailed));
    assert!(a.enable_channel(2).is_ok());
    assert_eq!(a.read_channel().unwrap(), 2);
    assert_eq!(a.enable_channel(3).err(), Some(RTTError::DeviceOpenFailed));
    assert_eq!(a.read_channel().unwrap(), 2);
    assert_eq!(a.raw(), 5);
}

#[test]
fn dac_binds_one_channel() {
    let mut d = DAC::new_open(6).unwrap();
    assert_eq!(d.write_channel().err(), Some(RTTError::DeviceWriteFailed));
    assert!(d.enable_channel(1).is_ok());
    assert_eq!(d.write_channel().unwrap(), 1);
    assert_eq!(d.enable_channel(2).err(), Some(RTTError::DeviceOpenFailed));
    assert!(d.write_result(0).is_ok());
    assert_eq!(d.write_result(-1).err(), Some(RTTError::DeviceWriteFailed));
}

#[test]
fn pwm_channels() {
    let p = PWM::new_open(7).unwrap();
    let ch = p.channel(3, 0).unwrap();
    assert_eq!(ch.ch, 3);
    assert_eq!(ch.raw(), 7);
    assert_eq!(p.channel(3, -1).err(), Some(RTTError::DeviceOpenFailed));
    assert!(ch.enable(0).is_ok());
    assert_eq!(ch.enable(1).err(), Some(RTTError::DeviceOpenFailed));
}

#[test]
fn hwtimer_open_paths() {
    let mut b = HwTimer::new("tim1");
    assert_eq!(b.mode, HwTimerMode::OneShot);
    assert!(b.freq.is_none());
    b.mode(HwTimerMode::Period).freq(1000);
    assert_eq!(b.mode.value(), 2);
    assert_eq!(b.freq, Some(1000));

    assert_eq!(b.open(0, 0, 0, 0).err(), Some(RTTError::DeviceNotFound));
    assert_eq!(b.open(4, -1, 0, 0).err(), Some(RTTError::DeviceOpenFailed));
    assert_eq!(b.open(4, 0, -1, 0).err(), Some(RTTError::DeviceConfigFailed));
    assert_eq!(b.open(4, 0, 0, -1).err(), Some(RTTError::DeviceConfigFailed));
    let t = b.open(4, 0, 0, 0).unwrap();
    assert_eq!(t.raw(), 4);
    assert_eq!(t.mode, HwTimerMode::Period);
    assert!(t.stop(0).is_ok());

    // Without a frequency the frequency control is never issued, so its
    // code does not matter.
    let b2 = HwTimer::new("tim2");
    assert!(b2.open(4, 0, -1, 0).is_ok());
}

#[test]
fn pin_rules() {
    let out = PIN::open(12, PinMode::Output);
    assert!(out.write_check().is_ok());
    assert_eq!(out.irq_check().err(), Some(RTTError::DeviceOpenFailed));

    let input = PIN::open(13, PinMode::Input);
    assert_eq!(input.write_check().err(), Some(RTTError::DeviceWriteFailed));
    assert!(input.irq_check().is_ok());

    let od = PIN::open(14, PinMode::OutputOD);
    assert!(od.write_check().is_ok());
    assert_eq!(od.irq_check().err(), Some(RTTError::DeviceOpenFailed));

    assert_eq!(input.read_state(0), PinState::Low);
    assert_eq!(input.read_state(7), PinState::High);
    assert_eq!(PinMode::InputPullDown.value(), 3);
}
