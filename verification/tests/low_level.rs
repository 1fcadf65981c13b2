use std::cell::Cell;

use lime_suite::device::low_level::{BoardParameter, ClockIdentifier};
use lime_suite::device::{Context, Device};
use lime_suite::error::{Error, LmsRetVal};

fn device() -> Device {
    match Context::open(0, 11) {
        Ok(d) => d,
        Err(_) => panic!("open failed"),
    }
}

#[test]
fn register_reads() {
    let d = device();
    assert_eq!(d.read_lms_reg(0, 0x1234).unwrap(), 0x1234);
    assert!(matches!(
        d.read_lms_reg(-1, 0x1234),
        Err(Error::Lms(LmsRetVal::GeneralError))
    ));
    assert_eq!(d.read_fpga_reg(0, 7).unwrap(), 7);
    assert_eq!(d.read_param(0, 3).unwrap(), 3);
    assert_eq!(d.vctcxo_read(0, 128).unwrap(), 128);
    assert!(d.vctcxo_read(2, 128).is_err());
}

#[test]
fn register_writes() {
    let d = device();
    assert!(d.reset(0).is_ok());
    assert!(d.write_lms_reg(0).is_ok());
    assert!(d.write_fpga_reg(-1).is_err());
    assert!(d.write_param(0).is_ok());
    assert!(d.vctcxo_write(-1).is_err());
    assert!(d.synchronize(0).is_ok());
    assert!(d.set_clock_freq(0).is_ok());
    assert!(d.gpio_write(-1).is_err());
    assert!(d.gpio_dir_write(0).is_ok());
}

#[test]
fn gpio_buffers() {
    let d = device();
    assert_eq!(d.gpio_read(0, vec![0x81]).unwrap(), vec![0x81]);
    assert!(d.gpio_read(-1, vec![0x81]).is_err());
    assert_eq!(d.gpio_dir_read(0, vec![0x8f, 0]).unwrap(), vec![0x8f, 0]);
}

#[test]
fn board_parameters_and_clocks() {
    assert_eq!(u8::from(BoardParameter::PARAM_DAC()), 0);
    assert_eq!(*BoardParameter::PARAM_TEMP(), 1);
    assert_eq!(usize::from(ClockIdentifier::CLOCK_REF()), 0);
    assert_eq!(*ClockIdentifier::CLOCK_SXR(), 1);
    assert_eq!(*ClockIdentifier::LMS_CLOCK_SXT(), 2);
    assert_eq!(*ClockIdentifier::CLOCK_CGEN(), 3);
    assert_eq!(*ClockIdentifier::CLOCK_RXTSP(), 4);
    assert_eq!(*ClockIdentifier::CLOCK_TXTSP(), 5);
    assert_eq!(*ClockIdentifier::CLOCK_EXTREF(), 6);
}

fn units(s: &str) -> [i8; 16] {
    let mut out = [0i8; 16];
    for (i, b) in s.bytes().enumerate() {
        out[i] = b as i8;
    }
    out
}

#[test]
fn custom_board_param_read() {
    let d = device();
    let (v, u) = d.read_custom_board_param(0, 25.5f64, &units("C")).unwrap();
    assert_eq!(v, 25.5);
    assert_eq!(u, Some(String::from("C")));
    let (_, none) = d.read_custom_board_param(0, 1u16, &units("")).unwrap();
    assert_eq!(none, None);
    assert!(matches!(
        d.read_custom_board_param(-1, 1u16, &units("C")),
        Err(Error::Lms(LmsRetVal::GeneralError))
    ));
}

#[test]
fn custom_board_param_write() {
    let d = device();
    let given = Cell::new(None);
    assert!(d
        .write_custom_board_param(Some(String::from("mV")), |g| {
            given.set(g);
            0
        })
        .is_ok());
    assert_eq!(given.take(), Some(b"mV".to_vec()));
    assert!(d.write_custom_board_param(None, |g| if g.is_none() { 0 } else { -1 }).is_ok());
    let called = Cell::new(false);
    let r = d.write_custom_board_param(Some(String::from("far too long units")), |_| {
        called.set(true);
        0
    });
    assert!(matches!(r, Err(Error::InvalidValue)));
    assert!(!called.get());
    assert!(d.write_custom_board_param(None, |_| -1).is_err());
}
