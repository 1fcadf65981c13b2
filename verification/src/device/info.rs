//! Version and update functions
//!
//! The functions in this section provides ability to check device version
//! and perform updates

use vstd::prelude::*;
use vstd::string::StringExecFns;
use vstd::utf8::decode_utf8;
use vstd::utf8::encode_utf8;
use vstd::utf8::valid_utf8;

use crate::bindings::lms_dev_info_t;
use crate::bindings::LMS_LOG_CRITICAL;
use crate::bindings::LMS_LOG_DEBUG;
use crate::bindings::LMS_LOG_ERROR;
use crate::bindings::LMS_LOG_INFO;
use crate::bindings::LMS_LOG_WARNING;
use crate::error::status_into_result;
use crate::error::status_result;
use crate::error::Error;
use crate::text::c_str_bytes;
use crate::text::fits_lms_name;
use crate::text::lms_name_bytes;
use crate::text::str_equals;
use crate::text::string_from_slice;
use crate::text::utf8_lossy;
use crate::text::utf8_to_string;

use super::fetch_list;
use super::listed;
use super::Device;

verus! {

// ---------------------------------------------------------------------
// Device information
// ---------------------------------------------------------------------

/// Device information structure
#[derive(Debug, Clone)]
pub struct DevInfo {
    /// The display name of the device
    pub device_name: String,
    /// The display name of the expansion card
    pub expension_name: String,
    /// The firmware version as a string
    pub firmware_version: String,
    /// The hardware version as a string
    pub hardware_version: String,
    /// The protocol version as a string
    pub protocol_version: String,
    /// A unique board serial number
    pub board_serial_number: u64,
    /// Gateware version as a string
    pub gateware_version: String,
    /// Which board should use this gateware
    pub gateware_target_board: String,
}

/// The text of a C string field of the LimeSuite device information.
pub open spec fn field_text(raw: Seq<i8>) -> Seq<char> {
    utf8_lossy(c_str_bytes(raw))
}

/// `info` holds what the LimeSuite device information `raw` says: each
/// text field decoded from its C string, the serial number as it is.
pub open spec fn describes(info: DevInfo, raw: lms_dev_info_t) -> bool {
    &&& info.device_name@ == field_text(raw.deviceName@)
    &&& info.expension_name@ == field_text(raw.expensionName@)
    &&& info.firmware_version@ == field_text(raw.firmwareVersion@)
    &&& info.hardware_version@ == field_text(raw.hardwareVersion@)
    &&& info.protocol_version@ == field_text(raw.protocolVersion@)
    &&& info.board_serial_number == raw.boardSerialNumber
    &&& info.gateware_version@ == field_text(raw.gatewareVersion@)
    &&& info.gateware_target_board@ == field_text(raw.gatewareTargetBoard@)
}

/// Each field of device information that `describes` a raw structure comes
/// from the C field of the same name: a text field is the lossy UTF-8
/// decoding of the bytes before the first NUL of that field's buffer, and
/// the serial number is copied. In particular a text field holds exactly
/// the characters of its own buffer when those bytes are valid UTF-8.
pub proof fn lemma_device_info_fields(info: DevInfo, raw: lms_dev_info_t)
    requires
        describes(info, raw),
    ensures
        info.device_name@ == utf8_lossy(c_str_bytes(raw.deviceName@)),
        info.expension_name@ == utf8_lossy(c_str_bytes(raw.expensionName@)),
        info.firmware_version@ == utf8_lossy(c_str_bytes(raw.firmwareVersion@)),
        info.hardware_version@ == utf8_lossy(c_str_bytes(raw.hardwareVersion@)),
        info.protocol_version@ == utf8_lossy(c_str_bytes(raw.protocolVersion@)),
        info.board_serial_number == raw.boardSerialNumber,
        info.gateware_version@ == utf8_lossy(c_str_bytes(raw.gatewareVersion@)),
        info.gateware_target_board@ == utf8_lossy(c_str_bytes(raw.gatewareTargetBoard@)),
{
}

impl From<lms_dev_info_t> for DevInfo {
    fn from(dev_info: lms_dev_info_t) -> (r: Self)
        ensures
            describes(r, dev_info),
            r.device_name@ == utf8_lossy(c_str_bytes(dev_info.deviceName@)),
            r.expension_name@ == utf8_lossy(c_str_bytes(dev_info.expensionName@)),
            r.firmware_version@ == utf8_lossy(c_str_bytes(dev_info.firmwareVersion@)),
            r.hardware_version@ == utf8_lossy(c_str_bytes(dev_info.hardwareVersion@)),
            r.protocol_version@ == utf8_lossy(c_str_bytes(dev_info.protocolVersion@)),
            r.board_serial_number == dev_info.boardSerialNumber,
            r.gateware_version@ == utf8_lossy(c_str_bytes(dev_info.gatewareVersion@)),
            r.gateware_target_board@ == utf8_lossy(c_str_bytes(dev_info.gatewareTargetBoard@)),
    {
        Self {
            device_name: string_from_slice(dev_info.deviceName.as_slice()),
            expension_name: string_from_slice(dev_info.expensionName.as_slice()),
            firmware_version: string_from_slice(dev_info.firmwareVersion.as_slice()),
            hardware_version: string_from_slice(dev_info.hardwareVersion.as_slice()),
            protocol_version: string_from_slice(dev_info.protocolVersion.as_slice()),
            board_serial_number: dev_info.boardSerialNumber,
            gateware_version: string_from_slice(dev_info.gatewareVersion.as_slice()),
            gateware_target_board: string_from_slice(dev_info.gatewareTargetBoard.as_slice()),
        }
    }
}

impl vstd::std_specs::convert::FromSpecImpl<lms_dev_info_t> for DevInfo {
    /// The conversion is stated by `describes` on the impl itself: a
    /// `String` cannot be written down in a spec function from its
    /// characters alone.
    open spec fn obeys_from_spec() -> bool {
        false
    }

    open spec fn from_spec(dev_info: lms_dev_info_t) -> DevInfo {
        choose|info: DevInfo| describes(info, dev_info)
    }
}

// ---------------------------------------------------------------------
// Logging levels
// ---------------------------------------------------------------------

/// Message logging level
#[derive(Debug, Copy, Clone, PartialEq, Eq, Structural)]
#[non_exhaustive]
pub struct LoggingLevel(i32);

impl LoggingLevel {
    /// The LimeSuite value of the level.
    pub closed spec fn level(self) -> i32 {
        self.0
    }

    /// A critical error. The application might not be able to continue
    /// running successfully.
    #[allow(non_snake_case)]
    pub fn LOG_CRITICAL() -> (l: LoggingLevel)
        ensures
            l.level() == LMS_LOG_CRITICAL,
    {
        LoggingLevel(LMS_LOG_CRITICAL)
    }

    /// An error message. An operation did not complete successfully.
    #[allow(non_snake_case)]
    pub fn LOG_ERROR() -> (l: LoggingLevel)
        ensures
            l.level() == LMS_LOG_ERROR,
    {
        LoggingLevel(LMS_LOG_ERROR)
    }

    /// A warning message. An operation completed with an unexpected result.
    #[allow(non_snake_case)]
    pub fn LOG_WARNING() -> (l: LoggingLevel)
        ensures
            l.level() == LMS_LOG_WARNING,
    {
        LoggingLevel(LMS_LOG_WARNING)
    }

    /// An informational message, usually denoting the successful
    /// completion of an operation.
    #[allow(non_snake_case)]
    pub fn LOG_INFO() -> (l: LoggingLevel)
        ensures
            l.level() == LMS_LOG_INFO,
    {
        LoggingLevel(LMS_LOG_INFO)
    }

    /// A debugging message.
    #[allow(non_snake_case)]
    pub fn LOG_DEBUG() -> (l: LoggingLevel)
        ensures
            l.level() == LMS_LOG_DEBUG,
    {
        LoggingLevel(LMS_LOG_DEBUG)
    }
}

impl From<LoggingLevel> for i32 {
    fn from(board_param: LoggingLevel) -> (r: i32)
        ensures
            r == board_param.level(),
    {
        board_param.0
    }
}

impl vstd::std_specs::convert::FromSpecImpl<LoggingLevel> for i32 {
    open spec fn obeys_from_spec() -> bool {
        true
    }

    open spec fn from_spec(board_param: LoggingLevel) -> i32 {
        board_param.level()
    }
}

impl core::ops::Deref for LoggingLevel {
    type Target = i32;

    fn deref(&self) -> (r: &i32)
        ensures
            *r == self.level(),
    {
        &self.0
    }
}

// ---------------------------------------------------------------------
// Programming modes
// ---------------------------------------------------------------------

/// Programming modes, named as LimeSuite names them.
#[derive(Debug, Clone)]
pub enum ProgramMode {
    AutoUpdate,
    Fx3Flash,
    Fx3RAM,
    Fx3Reset,
    FpgaFlash,
    FpgaRAM,
    FpgaReset,
    McuRAM,
    McuEEPROM,
    McuReset,
    /// Other modes
    Custom(String),
}

/// The LimeSuite name of a programming mode.
pub open spec fn mode_name(mode: ProgramMode) -> Seq<char> {
    match mode {
        ProgramMode::AutoUpdate => "Automatic"@,
        ProgramMode::Fx3Flash => "FX3 FLASH"@,
        ProgramMode::Fx3RAM => "FX3 RAM"@,
        ProgramMode::Fx3Reset => "FX3 Reset"@,
        ProgramMode::FpgaFlash => "FPGA FLASH"@,
        ProgramMode::FpgaRAM => "FPGA RAM"@,
        ProgramMode::FpgaReset => "FPGA Reset"@,
        ProgramMode::McuRAM => "LMSMCU SRAM"@,
        ProgramMode::McuEEPROM => "LMSMCU EEPROM"@,
        ProgramMode::McuReset => "LMSMCU Reset"@,
        ProgramMode::Custom(name) => name@,
    }
}

/// The named mode a LimeSuite mode name stands for, if it is one of the
/// names the modes other than `Custom` carry.
pub open spec fn named_mode(name: Seq<char>) -> Option<ProgramMode> {
    if name == "Automatic"@ {
        Some(ProgramMode::AutoUpdate)
    } else if name == "FX3 FLASH"@ {
        Some(ProgramMode::Fx3Flash)
    } else if name == "FX3 RAM"@ {
        Some(ProgramMode::Fx3RAM)
    } else if name == "FX3 Reset"@ {
        Some(ProgramMode::Fx3Reset)
    } else if name == "FPGA FLASH"@ {
        Some(ProgramMode::FpgaFlash)
    } else if name == "FPGA RAM"@ {
        Some(ProgramMode::FpgaRAM)
    } else if name == "FPGA Reset"@ {
        Some(ProgramMode::FpgaReset)
    } else if name == "LMSMCU SRAM"@ {
        Some(ProgramMode::McuRAM)
    } else if name == "LMSMCU EEPROM"@ {
        Some(ProgramMode::McuEEPROM)
    } else if name == "LMSMCU Reset"@ {
        Some(ProgramMode::McuReset)
    } else {
        None
    }
}

/// The programming mode a LimeSuite mode name is read as.
pub open spec fn mode_of(name: String) -> ProgramMode {
    match named_mode(name@) {
        Some(mode) => mode,
        None => ProgramMode::Custom(name),
    }
}

/// Two modes are the same mode: the same variant, and for `Custom` the
/// same name.
pub open spec fn same_mode(a: ProgramMode, b: ProgramMode) -> bool {
    match (a, b) {
        (ProgramMode::Custom(x), ProgramMode::Custom(y)) => x@ == y@,
        _ => a == b,
    }
}

/// A `Custom` mode that carries a name of one of the other modes.
pub open spec fn is_shadowed_custom(mode: ProgramMode) -> bool {
    mode matches ProgramMode::Custom(name) && named_mode(name@) is Some
}

fn has_name(s: &String, lit: &str) -> (r: bool)
    ensures
        r == (s@ == lit@),
{
    str_equals(s.as_str(), lit)
}

impl From<String> for ProgramMode {
    fn from(mode: String) -> (r: Self) {
        if has_name(&mode, "Automatic") {
            Self::AutoUpdate
        } else if has_name(&mode, "FX3 FLASH") {
            Self::Fx3Flash
        } else if has_name(&mode, "FX3 RAM") {
            Self::Fx3RAM
        } else if has_name(&mode, "FX3 Reset") {
            Self::Fx3Reset
        } else if has_name(&mode, "FPGA FLASH") {
            Self::FpgaFlash
        } else if has_name(&mode, "FPGA RAM") {
            Self::FpgaRAM
        } else if has_name(&mode, "FPGA Reset") {
            Self::FpgaReset
        } else if has_name(&mode, "LMSMCU SRAM") {
            Self::McuRAM
        } else if has_name(&mode, "LMSMCU EEPROM") {
            Self::McuEEPROM
        } else if has_name(&mode, "LMSMCU Reset") {
            Self::McuReset
        } else {
            Self::Custom(mode)
        }
    }
}

impl vstd::std_specs::convert::FromSpecImpl<String> for ProgramMode {
    open spec fn obeys_from_spec() -> bool {
        true
    }

    open spec fn from_spec(mode: String) -> ProgramMode {
        mode_of(mode)
    }
}

impl From<ProgramMode> for String {
    fn from(mode: ProgramMode) -> (r: String)
        ensures
            r@ == mode_name(mode),
    {
        match mode {
            ProgramMode::AutoUpdate => String::from_str("Automatic"),
            ProgramMode::Fx3Flash => String::from_str("FX3 FLASH"),
            ProgramMode::Fx3RAM => String::from_str("FX3 RAM"),
            ProgramMode::Fx3Reset => String::from_str("FX3 Reset"),
            ProgramMode::FpgaFlash => String::from_str("FPGA FLASH"),
            ProgramMode::FpgaRAM => String::from_str("FPGA RAM"),
            ProgramMode::FpgaReset => String::from_str("FPGA Reset"),
            ProgramMode::McuRAM => String::from_str("LMSMCU SRAM"),
            ProgramMode::McuEEPROM => String::from_str("LMSMCU EEPROM"),
            ProgramMode::McuReset => String::from_str("LMSMCU Reset"),
            ProgramMode::Custom(mode) => mode.clone(),
        }
    }
}

impl vstd::std_specs::convert::FromSpecImpl<ProgramMode> for String {
    /// The conversion is stated by `mode_name` on the impl itself: a
    /// `String` cannot be written down in a spec function from its
    /// characters alone.
    open spec fn obeys_from_spec() -> bool {
        false
    }

    open spec fn from_spec(mode: ProgramMode) -> String {
        choose|name: String| #[trigger] name.view() == mode_name(mode)
    }
}

/// The LimeSuite names of the programming modes, and the modes those names
/// are read as.
pub proof fn lemma_mode_names()
    ensures
        mode_name(ProgramMode::AutoUpdate) == "Automatic"@,
        mode_name(ProgramMode::Fx3Flash) == "FX3 FLASH"@,
        mode_name(ProgramMode::Fx3RAM) == "FX3 RAM"@,
        mode_name(ProgramMode::Fx3Reset) == "FX3 Reset"@,
        mode_name(ProgramMode::FpgaFlash) == "FPGA FLASH"@,
        mode_name(ProgramMode::FpgaRAM) == "FPGA RAM"@,
        mode_name(ProgramMode::FpgaReset) == "FPGA Reset"@,
        mode_name(ProgramMode::McuRAM) == "LMSMCU SRAM"@,
        mode_name(ProgramMode::McuEEPROM) == "LMSMCU EEPROM"@,
        mode_name(ProgramMode::McuReset) == "LMSMCU Reset"@,
        forall|s: String| #[trigger] mode_of(s) matches ProgramMode::Custom(n) ==> n == s,
        forall|s: String| s@ == "FPGA RAM"@ ==> #[trigger] mode_of(s) == ProgramMode::FpgaRAM,
        forall|s: String| s@ == "FX3 RAM"@ ==> #[trigger] mode_of(s) == ProgramMode::Fx3RAM,
{
    reveal_strlit("Automatic");
    reveal_strlit("FX3 FLASH");
    reveal_strlit("FX3 RAM");
    reveal_strlit("FX3 Reset");
    reveal_strlit("FPGA FLASH");
    reveal_strlit("FPGA RAM");
    reveal_strlit("FPGA Reset");
    reveal_strlit("LMSMCU SRAM");
    reveal_strlit("LMSMCU EEPROM");
    reveal_strlit("LMSMCU Reset");
    assert("Automatic"@.len() == 9);
    assert("FX3 FLASH"@.len() == 9);
    assert("FX3 RAM"@.len() == 7);
    assert("FX3 Reset"@.len() == 9);
    assert("FPGA FLASH"@.len() == 10);
    assert("FPGA RAM"@.len() == 8);
    assert("FPGA Reset"@.len() == 10);
    assert("LMSMCU SRAM"@.len() == 11);
    assert("LMSMCU EEPROM"@.len() == 13);
    assert("LMSMCU Reset"@.len() == 12);
}

/// Reading a mode name as a mode and naming that mode gives the name back,
/// for every name.
pub proof fn lemma_mode_name_of_mode(name: String)
    ensures
        mode_name(mode_of(name)) == name@,
{
}

/// Naming a mode and reading the name back gives the same mode, for every
/// mode but a `Custom` one that carries the name of another mode (which is
/// read back as that mode).
pub proof fn lemma_mode_of_mode_name(mode: ProgramMode, name: String)
    requires
        name@ == mode_name(mode),
        !is_shadowed_custom(mode),
    ensures
        same_mode(mode_of(name), mode),
{
    reveal_strlit("Automatic");
    reveal_strlit("FX3 FLASH");
    reveal_strlit("FX3 RAM");
    reveal_strlit("FX3 Reset");
    reveal_strlit("FPGA FLASH");
    reveal_strlit("FPGA RAM");
    reveal_strlit("FPGA Reset");
    reveal_strlit("LMSMCU SRAM");
    reveal_strlit("LMSMCU EEPROM");
    reveal_strlit("LMSMCU Reset");
    assert("Automatic"@.len() == 9);
    assert("FX3 FLASH"@.len() == 9);
    assert("FX3 RAM"@.len() == 7);
    assert("FX3 Reset"@.len() == 9);
    assert("FPGA FLASH"@.len() == 10);
    assert("FPGA RAM"@.len() == 8);
    assert("FPGA Reset"@.len() == 10);
    assert("LMSMCU SRAM"@.len() == 11);
    assert("LMSMCU EEPROM"@.len() == 13);
    assert("LMSMCU Reset"@.len() == 12);
    assert("Automatic"@[0] != "FX3 FLASH"@[0]);
    assert("Automatic"@[0] != "FX3 Reset"@[0]);
    assert("FX3 FLASH"@[4] != "FX3 Reset"@[4]);
    assert("FPGA FLASH"@[5] != "FPGA Reset"@[5]);
}

/// What `program` answers: `Error::InvalidValue` when the mode's name
/// cannot be handed to LimeSuite as a name, else the result of the status
/// that `call` answered when given the name's bytes.
pub open spec fn program_call<F: FnOnce(Vec<u8>) -> i32>(
    mode: ProgramMode,
    call: F,
    r: Result<(), Error>,
) -> bool {
    let bytes = encode_utf8(mode_name(mode));
    if fits_lms_name(bytes) {
        exists|given: Vec<u8>, status: i32|
            given@ == bytes && call.ensures((given,), status) && r == status_result(status)
    } else {
        r == Err::<(), Error>(Error::InvalidValue)
    }
}

impl Device {
    /// Obtain the list of supported programming modes.
    ///
    /// `lms_count` asks `LMS_GetProgramModes` for the number of modes;
    /// `lms_list(n)` fills a list of `n` names and hands back the call's
    /// status with the decoded names, which are read as modes.
    pub fn get_program_modes<C, L>(&self, lms_count: C, lms_list: L) -> (r: Result<
        Vec<ProgramMode>,
        Error,
    >) where C: FnOnce() -> i32, L: FnOnce(usize) -> (i32, Vec<String>)
        requires
            lms_count.requires(()),
            forall|n: usize| lms_list.requires((n,)),
        ensures
            exists|fetched: Result<Vec<String>, Error>|
                {
                    &&& listed(lms_count, lms_list, fetched)
                    &&& match fetched {
                        Err(e) => r == Err::<Vec<ProgramMode>, Error>(e),
                        Ok(names) => r matches Ok(modes) && modes@.len() == names@.len() && (
                        forall|i: int|
                            0 <= i < names@.len() ==> #[trigger] modes@[i] == mode_of(
                                names@[i],
                            )),
                    }
                },
    {
        let fetched = fetch_list(lms_count, lms_list);
        let ghost seen = fetched;
        let names = match fetched {
            Err(e) => return Err(e),
            Ok(names) => names,
        };
        let mut modes: Vec<ProgramMode> = Vec::new();
        let mut i: usize = 0;
        while i < names.len()
            invariant
                i <= names@.len(),
                modes@.len() == i,
                forall|k: int| 0 <= k < i ==> #[trigger] modes@[k] == mode_of(names@[k]),
            decreases names@.len() - i,
        {
            modes.push(ProgramMode::from(names[i].clone()));
            i = i + 1;
        }
        Ok(modes)
    }

    /// Write binary firmware/bitsteam image to specified device
    /// component using the programming `mode`.
    ///
    /// The mode's name must fit a LimeSuite name (no NUL byte, at most 15
    /// bytes), else `Error::InvalidValue`; `lms_program` is then called with
    /// the name's bytes and its status gives the outcome.
    pub fn program<F: FnOnce(Vec<u8>) -> i32>(&self, mode: ProgramMode, lms_program: F) -> (r:
        Result<(), Error>)
        requires
            forall|bytes: Vec<u8>| lms_program.requires((bytes,)),
        ensures
            program_call(mode, lms_program, r),
    {
        let name = String::from(mode);
        let bytes = lms_name_bytes(name.as_str())?;
        let ghost given = bytes;
        let status = lms_program(bytes);
        assert(lms_program.ensures((given,), status));
        status_into_result(status)
    }

    /// Obtain device serial number and version information, from what
    /// `LMS_GetDeviceInfo` points to (`None` for a null pointer).
    pub fn get_device_info(&self, info: Option<lms_dev_info_t>) -> (r: Result<
        Option<DevInfo>,
        Error,
    >)
        ensures
            r matches Ok(found) && (found is Some <==> info is Some) && (found matches Some(d)
                ==> describes(d, info.unwrap())),
    {
        match info {
            Some(raw) => Ok(Some(DevInfo::from(raw))),
            None => Ok(None),
        }
    }
}

/// Obtain API library version, from the bytes of the C string that
/// `LMS_GetLibraryVersion` points to: `Error::InvalidValue` when they are
/// not valid UTF-8.
pub fn get_library_version(version: Vec<u8>) -> (r: Result<String, Error>)
    ensures
        r is Ok <==> valid_utf8(version@),
        r matches Ok(s) ==> s@ == decode_utf8(version@),
        r matches Err(e) ==> e == Error::InvalidValue,
{
    match utf8_to_string(version) {
        Some(s) => Ok(s),
        None => Err(Error::InvalidValue),
    }
}

} // verus!
