use std::cell::Cell;

use lime_suite::device::{Context, Device};
use lime_suite::error::{Error, LmsRetVal};

fn open_device(handle: usize) -> Device {
    match Context::open(0, handle) {
        Ok(d) => d,
        Err(_) => panic!("open failed"),
    }
}

fn entries() -> Vec<String> {
    vec![
        String::from("LimeSDR Mini, media=USB 3.0, module=FT601, serial=1D3AC5"),
        String::from("LimeSDR-USB, media=USB 3.0"),
        String::from("LimeNET-Micro, addr=192.168.1.2, serial=0009"),
    ]
}

#[test]
fn open_keeps_handle() {
    let d = open_device(0x1234);
    assert_eq!(d.get_handle(), 0x1234);
}

#[test]
fn open_failure() {
    assert!(matches!(
        Context::open(-1, 5),
        Err(Error::Lms(LmsRetVal::GeneralError))
    ));
}

#[test]
fn close_shared_device_is_refused() {
    let d = open_device(9);
    match d.close(None) {
        Err((back, Error::CantDispose)) => assert_eq!(back.get_handle(), 9),
        _ => panic!("a shared device must be handed back"),
    }
}

#[test]
fn close_outcomes() {
    assert!(open_device(1).close(Some(0)).is_ok());
    match open_device(2).close(Some(-1)) {
        Err((back, Error::Lms(LmsRetVal::GeneralError))) => assert_eq!(back.get_handle(), 2),
        _ => panic!("a failed close hands the device back"),
    }
}

#[test]
fn device_list_without_validation() {
    let asked = Cell::new(usize::MAX);
    let list = Context::get_device_list(
        false,
        || 3,
        |n| {
            asked.set(n);
            (3, entries())
        },
    )
    .unwrap();
    assert_eq!(asked.get(), 3);
    assert_eq!(list, entries());
}

#[test]
fn device_list_with_validation() {
    let list = Context::get_device_list(true, || 3, |_| (3, entries())).unwrap();
    assert_eq!(
        list,
        vec![
            String::from("LimeSDR Mini, media=USB 3.0, module=FT601, serial=1D3AC5"),
            String::from("LimeNET-Micro, addr=192.168.1.2, serial=0009"),
        ]
    );
}

#[test]
fn device_list_count_failure_skips_listing() {
    let listed = Cell::new(false);
    let r = Context::get_device_list(true, || -1, |_| {
        listed.set(true);
        (0, Vec::new())
    });
    assert!(matches!(r, Err(Error::Lms(LmsRetVal::GeneralError))));
    assert!(!listed.get());
}

#[test]
fn device_list_listing_failure() {
    let r = Context::get_device_list(false, || 2, |_| (-1, entries()));
    assert!(matches!(r, Err(Error::Lms(LmsRetVal::GeneralError))));
}

#[test]
fn empty_device_list() {
    let list = Context::get_device_list(true, || 0, |_| (0, Vec::new())).unwrap();
    assert!(list.is_empty());
}
