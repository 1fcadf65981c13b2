//! Low-Level control functions
//!
//! The functions in this section provide a low access to device such as
//! modifying device internal register or clock frequency. Low-Level functions
//! can be used to configure device entirely, however a more practical use
//! is to fine-tune device settings after configuring it with high-level
//! control functions.

use vstd::prelude::*;

use crate::bindings::c_size_t;
use crate::bindings::BOARD_PARAM_DAC;
use crate::bindings::BOARD_PARAM_TEMP;
use crate::bindings::LMS_CLOCK_CGEN;
use crate::bindings::LMS_CLOCK_EXTREF;
use crate::bindings::LMS_CLOCK_REF;
use crate::bindings::LMS_CLOCK_RXTSP;
use crate::bindings::LMS_CLOCK_SXR;
use crate::bindings::LMS_CLOCK_SXT;
use crate::bindings::LMS_CLOCK_TXTSP;
use crate::error::status_into_result;
use crate::error::status_result;
use crate::error::status_value;
use crate::error::status_with_value;
use crate::error::Error;
use crate::text::c_str_bytes;
use crate::text::c_str_to_string;
use crate::text::fits_lms_name;
use crate::text::lms_name_bytes;
use vstd::string::StrSliceExecFns;
use vstd::utf8::decode_utf8;
use vstd::utf8::encode_utf8;
use vstd::utf8::valid_utf8;

use super::Device;

verus! {

impl Device {
    /// Send Reset signal to LMS chip: the outcome of `LMS_Reset`.
    pub fn reset(&self, status: i32) -> (r: Result<(), Error>)
        ensures
            r == status_result(status),
    {
        status_into_result(status)
    }

    /// Read device LMS chip register: the value `LMS_ReadLMSReg` filled
    /// in, unless it failed.
    pub fn read_lms_reg(&self, status: i32, value: u16) -> (r: Result<u16, Error>)
        ensures
            r == status_value(status, value),
    {
        status_with_value(status, value)
    }

    /// Write device LMS chip register: the outcome of `LMS_WriteLMSReg`.
    pub fn write_lms_reg(&self, status: i32) -> (r: Result<(), Error>)
        ensures
            r == status_result(status),
    {
        status_into_result(status)
    }

    /// Read device parameter: the value `LMS_ReadParam` filled in, unless
    /// it failed.
    pub fn read_param(&self, status: i32, value: u16) -> (r: Result<u16, Error>)
        ensures
            r == status_value(status, value),
    {
        status_with_value(status, value)
    }

    /// Write device parameter: the outcome of `LMS_WriteParam`.
    pub fn write_param(&self, status: i32) -> (r: Result<(), Error>)
        ensures
            r == status_result(status),
    {
        status_into_result(status)
    }

    /// Read device FPGA register: the value `LMS_ReadFPGAReg` filled in,
    /// unless it failed.
    pub fn read_fpga_reg(&self, status: i32, value: u16) -> (r: Result<u16, Error>)
        ensures
            r == status_value(status, value),
    {
        status_with_value(status, value)
    }

    /// Write device FPGA register: the outcome of `LMS_WriteFPGAReg`.
    pub fn write_fpga_reg(&self, status: i32) -> (r: Result<(), Error>)
        ensures
            r == status_result(status),
    {
        status_into_result(status)
    }
}

/// Board parameter
#[derive(Debug, Copy, Clone, PartialEq, Eq, Structural)]
#[non_exhaustive]
pub struct BoardParameter(u8);

impl BoardParameter {
    /// The LimeSuite identifier of the parameter.
    pub closed spec fn id(self) -> u8 {
        self.0
    }

    /// Runtime VCTCXO DAC trim value. Does not persist over power-cycle.
    #[allow(non_snake_case)]
    pub fn PARAM_DAC() -> (p: BoardParameter)
        ensures
            p.id() == BOARD_PARAM_DAC,
    {
        BoardParameter(BOARD_PARAM_DAC)
    }

    /// The value of board temperature sensor (if present), read-only.
    #[allow(non_snake_case)]
    pub fn PARAM_TEMP() -> (p: BoardParameter)
        ensures
            p.id() == BOARD_PARAM_TEMP,
    {
        BoardParameter(BOARD_PARAM_TEMP)
    }
}

impl From<BoardParameter> for u8 {
    fn from(board_param: BoardParameter) -> (r: u8)
        ensures
            r == board_param.id(),
    {
        board_param.0
    }
}

impl vstd::std_specs::convert::FromSpecImpl<BoardParameter> for u8 {
    open spec fn obeys_from_spec() -> bool {
        true
    }

    open spec fn from_spec(board_param: BoardParameter) -> u8 {
        board_param.id()
    }
}

impl core::ops::Deref for BoardParameter {
    type Target = u8;

    fn deref(&self) -> (r: &u8)
        ensures
            *r == self.id(),
    {
        &self.0
    }
}

/// Clock definitions for accessing specific internal clocks
#[derive(Debug, Copy, Clone, PartialEq, Eq, Structural)]
#[non_exhaustive]
pub struct ClockIdentifier(c_size_t);

impl ClockIdentifier {
    /// The LimeSuite identifier of the clock.
    pub closed spec fn id(self) -> usize {
        self.0
    }

    /// Chip reference clock
    #[allow(non_snake_case)]
    pub fn CLOCK_REF() -> (c: ClockIdentifier)
        ensures
            c.id() == LMS_CLOCK_REF,
    {
        ClockIdentifier(LMS_CLOCK_REF)
    }

    /// RX LO clock
    #[allow(non_snake_case)]
    pub fn CLOCK_SXR() -> (c: ClockIdentifier)
        ensures
            c.id() == LMS_CLOCK_SXR,
    {
        ClockIdentifier(LMS_CLOCK_SXR)
    }

    /// TX LO clock
    #[allow(non_snake_case)]
    pub fn LMS_CLOCK_SXT() -> (c: ClockIdentifier)
        ensures
            c.id() == LMS_CLOCK_SXT,
    {
        ClockIdentifier(LMS_CLOCK_SXT)
    }

    /// CGEN clock
    #[allow(non_snake_case)]
    pub fn CLOCK_CGEN() -> (c: ClockIdentifier)
        ensures
            c.id() == LMS_CLOCK_CGEN,
    {
        ClockIdentifier(LMS_CLOCK_CGEN)
    }

    /// RXTSP reference clock (read-only)
    #[allow(non_snake_case)]
    pub fn CLOCK_RXTSP() -> (c: ClockIdentifier)
        ensures
            c.id() == LMS_CLOCK_RXTSP,
    {
        ClockIdentifier(LMS_CLOCK_RXTSP)
    }

    /// TXTSP reference clock (read-only)
    #[allow(non_snake_case)]
    pub fn CLOCK_TXTSP() -> (c: ClockIdentifier)
        ensures
            c.id() == LMS_CLOCK_TXTSP,
    {
        ClockIdentifier(LMS_CLOCK_TXTSP)
    }

    /// External reference clock (write-only)
    ///
    /// Set to positive value to enable usage of external reference
    /// clock of the specified frequency. Set to 0 or negative
    /// value to disable usage of external reference clock (if switching
    /// reference clock source is supported by HW)
    #[allow(non_snake_case)]
    pub fn CLOCK_EXTREF() -> (c: ClockIdentifier)
        ensures
            c.id() == LMS_CLOCK_EXTREF,
    {
        ClockIdentifier(LMS_CLOCK_EXTREF)
    }
}

impl From<ClockIdentifier> for usize {
    fn from(clk_id: ClockIdentifier) -> (r: usize)
        ensures
            r == clk_id.id(),
    {
        clk_id.0
    }
}

impl vstd::std_specs::convert::FromSpecImpl<ClockIdentifier> for usize {
    open spec fn obeys_from_spec() -> bool {
        true
    }

    open spec fn from_spec(clk_id: ClockIdentifier) -> usize {
        clk_id.id()
    }
}

impl core::ops::Deref for ClockIdentifier {
    type Target = usize;

    fn deref(&self) -> (r: &usize)
        ensures
            *r == self.id(),
    {
        &self.0
    }
}

/// What `write_custom_board_param` answers: with units that do not fit a
/// LimeSuite name, `Error::InvalidValue`; otherwise the result of the status
/// that `call` answered when given the units' bytes (or `None` without
/// units).
pub open spec fn board_param_write<F: FnOnce(Option<Vec<u8>>) -> i32>(
    units: Option<String>,
    call: F,
    r: Result<(), Error>,
) -> bool {
    match units {
        Some(u) => if fits_lms_name(encode_utf8(u@)) {
            exists|given: Vec<u8>, status: i32|
                given@ == encode_utf8(u@) && call.ensures((Some(given),), status) && r
                    == status_result(status)
        } else {
            r == Err::<(), Error>(Error::InvalidValue)
        },
        None => exists|status: i32| call.ensures((None,), status) && r == status_result(status),
    }
}

impl Device {
    /// Read custom parameter from board.
    ///
    /// Return current register value and measurement units of parameter
    /// if available: `status` is the answer of `LMS_ReadCustomBoardParam`,
    /// `value` the value it filled in (carried through as it is) and
    /// `units` the units buffer it filled in. Empty units are `None`.
    pub fn read_custom_board_param<T>(&self, status: i32, value: T, units: &[i8]) -> (r: Result<
        (T, Option<String>),
        Error,
    >)
        requires
            status == 0 ==> valid_utf8(c_str_bytes(units@)),
        ensures
            r is Ok <==> status == 0,
            r matches Err(e) ==> status_result(status) == Err::<(), Error>(e),
            r matches Ok((v, u)) ==> v == value && (u is None <==> c_str_bytes(units@).len() == 0)
                && (u matches Some(text) ==> text@ == decode_utf8(c_str_bytes(units@))),
    {
        match status_into_result(status) {
            Err(e) => Err(e),
            Ok(()) => {
                let text = match c_str_to_string(units) {
                    Some(text) => text,
                    None => {
                        assert(false);
                        String::new()
                    },
                };
                if text.as_str().unicode_len() == 0 {
                    proof {
                        vstd::utf8::decode_utf8_encode_utf8(c_str_bytes(units@));
                    }
                    Ok((value, None))
                } else {
                    Ok((value, Some(text)))
                }
            },
        }
    }

    /// Write custom parameter from board.
    ///
    /// Units that hold a NUL byte or are longer than 15 bytes are refused
    /// with `Error::InvalidValue`; otherwise `lms_write` is called with the
    /// units' bytes (`None` without units) and its status gives the outcome.
    pub fn write_custom_board_param<F: FnOnce(Option<Vec<u8>>) -> i32>(
        &self,
        units: Option<String>,
        lms_write: F,
    ) -> (r: Result<(), Error>)
        requires
            forall|given: Option<Vec<u8>>| lms_write.requires((given,)),
        ensures
            board_param_write(units, lms_write, r),
    {
        match units {
            Some(u) => {
                let bytes = lms_name_bytes(u.as_str())?;
                let ghost given = bytes;
                let status = lms_write(Some(bytes));
                assert(lms_write.ensures((Some(given),), status));
                status_into_result(status)
            },
            None => {
                let status = lms_write(None);
                status_into_result(status)
            },
        }
    }

    /// Set frequency of the specified clock: the outcome of
    /// `LMS_SetClockFreq`.
    pub fn set_clock_freq(&self, status: i32) -> (r: Result<(), Error>)
        ensures
            r == status_result(status),
    {
        status_into_result(status)
    }

    /// Write value to VCTCXO trim DAC: the outcome of `LMS_VCTCXOWrite`.
    pub fn vctcxo_write(&self, status: i32) -> (r: Result<(), Error>)
        ensures
            r == status_result(status),
    {
        status_into_result(status)
    }

    /// Read VCTCXO trim DAC value from non-volatile storage: the value
    /// `LMS_VCTCXORead` filled in, unless it failed.
    pub fn vctcxo_read(&self, status: i32, value: u16) -> (r: Result<u16, Error>)
        ensures
            r == status_value(status, value),
    {
        status_with_value(status, value)
    }

    /// Synchronizes register values between API cache and chip: the
    /// outcome of `LMS_Synchronize`.
    pub fn synchronize(&self, status: i32) -> (r: Result<(), Error>)
        ensures
            r == status_result(status),
    {
        status_into_result(status)
    }

    /// Obtain vector with read GPIO values, 8 GPIO values per byte, LSB
    /// first: the buffer `LMS_GPIORead` filled in, unless it failed.
    pub fn gpio_read(&self, status: i32, buffer: Vec<u8>) -> (r: Result<Vec<u8>, Error>)
        ensures
            r == status_value(status, buffer),
    {
        status_with_value(status, buffer)
    }

    /// Change GPIO pins using byte slice: the outcome of `LMS_GPIOWrite`.
    pub fn gpio_write(&self, status: i32) -> (r: Result<(), Error>)
        ensures
            r == status_result(status),
    {
        status_into_result(status)
    }

    /// Obtain vector with GPIO direction configuration, 8 GPIO per byte,
    /// LSB first; 0 input, 1 output: the buffer `LMS_GPIODirRead` filled
    /// in, unless it failed.
    pub fn gpio_dir_read(&self, status: i32, buffer: Vec<u8>) -> (r: Result<Vec<u8>, Error>)
        ensures
            r == status_value(status, buffer),
    {
        status_with_value(status, buffer)
    }

    /// Change GPIO pins direction using byte slice: the outcome of
    /// `LMS_GPIODirWrite`.
    pub fn gpio_dir_write(&self, status: i32) -> (r: Result<(), Error>)
        ensures
            r == status_result(status),
    {
        status_into_result(status)
    }
}

} // verus!
