use std::cell::Cell;

use lime_suite::bindings::{lms_gfir_t, lms_testsig_t};
use lime_suite::device::high_level::{ChannelDirection, Gfir, RfPort, TestSignal};
use lime_suite::device::{Context, Device};
use lime_suite::error::{Error, LmsRetVal};

fn device() -> Device {
    match Context::open(0, 77) {
        Ok(d) => d,
        Err(_) => panic!("open failed"),
    }
}

#[test]
fn channel_directions() {
    assert!(*ChannelDirection::TX());
    assert!(!*ChannelDirection::RX());
    assert!(bool::from(ChannelDirection::TX()));
    assert!(!bool::from(ChannelDirection::RX()));
    assert_eq!(ChannelDirection::TX(), ChannelDirection(true));
}

#[test]
fn port_names() {
    assert_eq!(RfPort::NONE().to_string(), "NONE");
    assert_eq!(RfPort::LNAH().to_string(), "LNAH");
    assert_eq!(RfPort::LNAL().to_string(), "LNAL");
    assert_eq!(RfPort::LNAW().to_string(), "LNAW");
    assert_eq!(RfPort::TX1().to_string(), "TX1");
    assert_eq!(RfPort::TX2().to_string(), "TX2");
    assert_eq!(RfPort::AUTO().to_string(), "AUTO");
}

#[test]
fn port_indices() {
    assert_eq!(usize::from(RfPort::NONE()), 0);
    assert_eq!(usize::from(RfPort::LNAH()), 1);
    assert_eq!(usize::from(RfPort::TX1()), 1);
    assert_eq!(*RfPort::LNAW(), 3);
    assert_eq!(*RfPort::TX2(), 2);
    assert_eq!(*RfPort::AUTO(), 255);
    assert!(RfPort::LNAH() != RfPort::TX1());
}

#[test]
fn antenna_read_back() {
    let d = device();
    let rx = d.get_antenna(ChannelDirection::RX(), 1).ok().unwrap();
    assert!(rx == RfPort::LNAH());
    assert_eq!(rx.to_string(), "LNAH");
    let tx = d.get_antenna(ChannelDirection::TX(), 1).ok().unwrap();
    assert!(tx == RfPort::TX1());
    assert_eq!(tx.to_string(), "TX1");
    let none = d.get_antenna(ChannelDirection::TX(), 0).ok().unwrap();
    assert!(none == RfPort::NONE());
    let auto = d.get_antenna(ChannelDirection::RX(), 255).ok().unwrap();
    assert!(auto == RfPort::AUTO());
    // An RX port read back for TX matches no port constant.
    let odd = d.get_antenna(ChannelDirection::TX(), 3).ok().unwrap();
    assert_eq!(*odd, 3);
    assert_eq!(odd.to_string(), "Unknown rf port");
    assert!(matches!(
        d.get_antenna(ChannelDirection::RX(), -1),
        Err(Error::Lms(LmsRetVal::GeneralError))
    ));
}

#[test]
fn test_signal_conversions() {
    let all = [
        TestSignal::NONE,
        TestSignal::NCODIV8,
        TestSignal::NCODIV4,
        TestSignal::NCODIV8F,
        TestSignal::NCODIV4F,
        TestSignal::DC,
    ];
    for s in all {
        assert_eq!(TestSignal::from(lms_testsig_t::from(s)), s);
    }
    assert_eq!(
        lms_testsig_t::from(TestSignal::DC),
        lms_testsig_t::LMS_TESTSIG_DC
    );
    assert_eq!(
        TestSignal::from(lms_testsig_t::LMS_TESTSIG_NCODIV4F),
        TestSignal::NCODIV4F
    );
}

#[test]
fn gfir_conversions_and_capacity() {
    for g in [Gfir::GFIR1, Gfir::GFIR2, Gfir::GFIR3] {
        assert_eq!(Gfir::from(lms_gfir_t::from(g)), g);
    }
    assert_eq!(lms_gfir_t::from(Gfir::GFIR2), lms_gfir_t::LMS_GFIR2);
    assert_eq!(Gfir::GFIR1.max_coefficients(), 40);
    assert_eq!(Gfir::GFIR2.max_coefficients(), 40);
    assert_eq!(Gfir::GFIR3.max_coefficients(), 120);
}

#[test]
fn plain_status_outcomes() {
    let d = device();
    assert!(d.init(0).is_ok());
    assert!(d.init(-1).is_err());
    assert!(d.enable_channel(0).is_ok());
    assert!(d.set_antenna(5).is_err());
    assert!(d.set_gain_db(0).is_ok());
    assert!(d.set_lpf(-1).is_err());
    assert!(d.set_gfir(0).is_ok());
    assert!(d.enable_cache(0).is_ok());
    assert!(d.set_test_signal(0).is_ok());
    assert!(d.set_nco_index(-1).is_err());
    assert!(d.set_sample_rate(0).is_ok());
    assert!(d.calibrate(-1).is_err());
}

#[test]
fn value_outcomes() {
    let d = device();
    assert_eq!(d.get_num_channels(2).unwrap(), 2);
    assert!(d.get_num_channels(-1).is_err());
    assert_eq!(d.get_nco_index(-2).unwrap(), -2);
    assert_eq!(d.get_gain_db(0, 42).unwrap(), 42);
    assert!(d.get_gain_db(-1, 42).is_err());
    assert_eq!(
        d.get_test_signal(0, lms_testsig_t::LMS_TESTSIG_NCODIV8).unwrap(),
        TestSignal::NCODIV8
    );
    assert!(d.get_test_signal(1, lms_testsig_t::LMS_TESTSIG_DC).is_err());
}

#[test]
fn nco_values_must_be_complete() {
    let d = device();
    let called = Cell::new(false);
    let r = d.set_nco_frequency(15, || {
        called.set(true);
        0
    });
    assert!(matches!(r, Err(Error::InvalidInput)));
    assert!(!called.get());
    assert!(d.set_nco_frequency(16, || 0).is_ok());
    assert!(d.set_nco_phase(32, || -1).is_err());
    assert!(matches!(d.set_nco_phase(0, || 0), Err(Error::InvalidInput)));
    assert_eq!(Device::NCO_VAL_COUNT, 16);
}

#[test]
fn config_file_names() {
    let d = device();
    let given = Cell::new(Vec::new());
    let r = d.save_config("chip_config.ini", |bytes| {
        given.set(bytes);
        0
    });
    assert!(r.is_ok());
    assert_eq!(given.take(), b"chip_config.ini".to_vec());
    let called = Cell::new(false);
    let r = d.load_config("bad\0.ini", |_| {
        called.set(true);
        0
    });
    assert!(matches!(r, Err(Error::InvalidValue)));
    assert!(!called.get());
    assert!(d.load_config("x.ini", |_| -1).is_err());
}

#[test]
fn antenna_list() {
    let d = device();
    let names = d
        .get_antenna_list(|| 2, |_| (2, vec![String::from("NONE"), String::from("LNAH")]))
        .unwrap();
    assert_eq!(names, vec![String::from("NONE"), String::from("LNAH")]);
    assert!(d.get_antenna_list(|| -1, |_| (0, Vec::new())).is_err());
}

#[test]
fn c_codes() {
    let signals = [
        (TestSignal::NONE, 0),
        (TestSignal::NCODIV8, 1),
        (TestSignal::NCODIV4, 2),
        (TestSignal::NCODIV8F, 3),
        (TestSignal::NCODIV4F, 4),
        (TestSignal::DC, 5),
    ];
    for (s, c) in signals {
        assert_eq!(s.code(), c);
        assert_eq!(lms_testsig_t::from_code(c), Some(lms_testsig_t::from(s)));
    }
    assert_eq!(lms_testsig_t::from_code(6), None);
    assert_eq!(lms_testsig_t::from_code(-1), None);
    assert_eq!(Gfir::GFIR1.code(), 0);
    assert_eq!(Gfir::GFIR2.code(), 1);
    assert_eq!(Gfir::GFIR3.code(), 2);
    assert_eq!(lms_gfir_t::LMS_GFIR3.code(), 2);
}
