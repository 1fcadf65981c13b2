use std::cell::Cell;

use lime_suite::bindings::lms_dev_info_t;
use lime_suite::device::info::{get_library_version, DevInfo, LoggingLevel, ProgramMode};
use lime_suite::device::{Context, Device};
use lime_suite::error::{Error, LmsRetVal};

fn device() -> Device {
    match Context::open(0, 3) {
        Ok(d) => d,
        Err(_) => panic!("open failed"),
    }
}

fn name_of(mode: ProgramMode) -> String {
    String::from(mode)
}

#[test]
fn mode_names() {
    assert_eq!(name_of(ProgramMode::AutoUpdate), "Automatic");
    assert_eq!(name_of(ProgramMode::Fx3Flash), "FX3 FLASH");
    assert_eq!(name_of(ProgramMode::Fx3RAM), "FX3 RAM");
    assert_eq!(name_of(ProgramMode::Fx3Reset), "FX3 Reset");
    assert_eq!(name_of(ProgramMode::FpgaFlash), "FPGA FLASH");
    assert_eq!(name_of(ProgramMode::FpgaRAM), "FPGA RAM");
    assert_eq!(name_of(ProgramMode::FpgaReset), "FPGA Reset");
    assert_eq!(name_of(ProgramMode::McuRAM), "LMSMCU SRAM");
    assert_eq!(name_of(ProgramMode::McuEEPROM), "LMSMCU EEPROM");
    assert_eq!(name_of(ProgramMode::McuReset), "LMSMCU Reset");
    assert_eq!(name_of(ProgramMode::Custom(String::from("Other"))), "Other");
}

#[test]
fn modes_from_names() {
    assert!(matches!(ProgramMode::from(String::from("Automatic")), ProgramMode::AutoUpdate));
    assert!(matches!(ProgramMode::from(String::from("FX3 RAM")), ProgramMode::Fx3RAM));
    assert!(matches!(ProgramMode::from(String::from("LMSMCU EEPROM")), ProgramMode::McuEEPROM));
    match ProgramMode::from(String::from("fpga ram")) {
        ProgramMode::Custom(name) => assert_eq!(name, "fpga ram"),
        _ => panic!("case matters"),
    }
}

#[test]
fn mode_round_trips() {
    for name in ["Automatic", "FPGA Reset", "Anything else", ""] {
        assert_eq!(String::from(ProgramMode::from(String::from(name))), name);
    }
    // A custom mode carrying the name of a named mode reads back as that mode.
    let shadowed = ProgramMode::Custom(String::from("FPGA RAM"));
    assert!(matches!(ProgramMode::from(String::from(shadowed)), ProgramMode::FpgaRAM));
}

#[test]
fn program_modes_list() {
    let d = device();
    let modes = d
        .get_program_modes(
            || 3,
            |_| (3, vec![String::from("FPGA FLASH"), String::from("Automatic"), String::from("X")]),
        )
        .unwrap();
    assert_eq!(modes.len(), 3);
    assert!(matches!(modes[0], ProgramMode::FpgaFlash));
    assert!(matches!(modes[1], ProgramMode::AutoUpdate));
    assert!(matches!(&modes[2], ProgramMode::Custom(n) if n == "X"));
    assert!(d.get_program_modes(|| 1, |_| (-1, Vec::new())).is_err());
}

#[test]
fn programming_checks_mode_name() {
    let d = device();
    let given = Cell::new(Vec::new());
    assert!(d
        .program(ProgramMode::FpgaFlash, |bytes| {
            given.set(bytes);
            0
        })
        .is_ok());
    assert_eq!(given.take(), b"FPGA FLASH".to_vec());
    let called = Cell::new(false);
    let r = d.program(ProgramMode::Custom(String::from("a much too long mode")), |_| {
        called.set(true);
        0
    });
    assert!(matches!(r, Err(Error::InvalidValue)));
    assert!(!called.get());
    assert!(matches!(
        d.program(ProgramMode::McuReset, |_| -1),
        Err(Error::Lms(LmsRetVal::GeneralError))
    ));
}

fn c_text<const N: usize>(s: &str) -> [i8; N] {
    let mut out = [0i8; N];
    for (i, b) in s.bytes().enumerate() {
        out[i] = b as i8;
    }
    out
}

#[test]
fn device_info_conversion() {
    let raw = lms_dev_info_t {
        deviceName: c_text("LimeSDR-USB"),
        expensionName: c_text("UNSUPPORTED"),
        firmwareVersion: c_text("4"),
        hardwareVersion: c_text("4"),
        protocolVersion: c_text("1"),
        boardSerialNumber: 0x1D3AC5,
        gatewareVersion: c_text("2.23"),
        gatewareTargetBoard: c_text("LimeSDR-USB"),
    };
    let info = DevInfo::from(raw);
    assert_eq!(info.device_name, "LimeSDR-USB");
    assert_eq!(info.expension_name, "UNSUPPORTED");
    assert_eq!(info.firmware_version, "4");
    assert_eq!(info.protocol_version, "1");
    assert_eq!(info.board_serial_number, 0x1D3AC5);
    assert_eq!(info.gateware_version, "2.23");
    let d = device();
    let found = d.get_device_info(Some(raw)).unwrap().unwrap();
    assert_eq!(found.gateware_target_board, "LimeSDR-USB");
    assert!(d.get_device_info(None).unwrap().is_none());
}

#[test]
fn library_version() {
    assert_eq!(get_library_version(b"22.09.0".to_vec()).unwrap(), "22.09.0");
    assert!(matches!(
        get_library_version(vec![0xff, 0xfe]),
        Err(Error::InvalidValue)
    ));
}

#[test]
fn logging_levels() {
    assert_eq!(i32::from(LoggingLevel::LOG_CRITICAL()), 0);
    assert_eq!(i32::from(LoggingLevel::LOG_ERROR()), 1);
    assert_eq!(*LoggingLevel::LOG_WARNING(), 2);
    assert_eq!(*LoggingLevel::LOG_INFO(), 3);
    assert_eq!(*LoggingLevel::LOG_DEBUG(), 4);
}
