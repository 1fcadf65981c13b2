//! The plain C types and constants of the LimeSuite API that the library's
//! logic reads: enumerations, fixed-size strings and integer constants.
//! The structures with floating-point fields are handled by the caller.

#![allow(non_camel_case_types, non_snake_case)]

use vstd::prelude::*;

verus! {

/// C size_t type
pub type c_size_t = usize;

/// Convenience constant for good return code
pub const LMS_SUCCESS: i32 = 0;

/// Convenience type for fixed length LMS Device information string
pub type lms_info_str_t = [i8; 256];

/// Convenience constants for TX selection
pub const LMS_CH_TX: bool = true;

/// Convenience constants for RX selection
pub const LMS_CH_RX: bool = false;

/// Convenience type for fixed length name string
pub type lms_name_t = [i8; 16];

/// Enumeration of LMS7 TEST signal types
#[derive(Debug, Copy, Clone, PartialEq, Eq, Structural)]
pub enum lms_testsig_t {
    /// Disable test signals. Return to normal operation
    LMS_TESTSIG_NONE,
    /// Test signal from NCO half scale
    LMS_TESTSIG_NCODIV8,
    /// Test signal from NCO half scale
    LMS_TESTSIG_NCODIV4,
    /// Test signal from NCO full scale
    LMS_TESTSIG_NCODIV8F,
    /// Test signal from NCO full scale
    LMS_TESTSIG_NCODIV4F,
    /// DC test signal
    LMS_TESTSIG_DC,
}

/// No active path (RX or TX)
pub const LMS_PATH_NONE: c_size_t = 0;
/// RX LNA_H port
pub const LMS_PATH_LNAH: c_size_t = 1;
/// RX LNA_L port
pub const LMS_PATH_LNAL: c_size_t = 2;
/// RX LNA_W port
pub const LMS_PATH_LNAW: c_size_t = 3;
/// TX port 1
pub const LMS_PATH_TX1: c_size_t = 1;
/// TX port 2
pub const LMS_PATH_TX2: c_size_t = 2;
/// Automatically select port (if supported)
pub const LMS_PATH_AUTO: c_size_t = 255;

/// Enumeration of LMS7 GFIRS
#[derive(Debug, Copy, Clone, PartialEq, Eq, Structural)]
pub enum lms_gfir_t {
    LMS_GFIR1,
    LMS_GFIR2,
    LMS_GFIR3,
}

/// Number of NCO frequency/phase offset values
pub const LMS_NCO_VAL_COUNT: i32 = 16;

/// Runtime VCTCXO DAC trim value. Does not persist over power-cycle.
pub const BOARD_PARAM_DAC: u8 = 0;
/// The value of board temperature sensor (if present), read-only.
pub const BOARD_PARAM_TEMP: u8 = 1;

/// Chip reference clock
pub const LMS_CLOCK_REF: c_size_t = 0x0000;
/// RX LO clock
pub const LMS_CLOCK_SXR: c_size_t = 0x0001;
/// TX LO clock
pub const LMS_CLOCK_SXT: c_size_t = 0x0002;
/// CGEN clock
pub const LMS_CLOCK_CGEN: c_size_t = 0x0003;
/// RXTSP reference clock (read-only)
pub const LMS_CLOCK_RXTSP: c_size_t = 0x0004;
/// TXTSP reference clock (read-only)
pub const LMS_CLOCK_TXTSP: c_size_t = 0x0005;
/// External reference clock (write-only)
pub const LMS_CLOCK_EXTREF: c_size_t = 0x0006;

/// Metadata structure used in sample transfers
#[derive(Debug, Copy, Clone, PartialEq, Eq, Structural)]
pub struct lms_stream_meta_t {
    /// Timestamp is a value of HW counter with a tick based on sample rate.
    /// In RX: time when the first sample in the returned buffer was received.
    /// In TX: time when the first sample in the submitted buffer should be send.
    pub timestamp: u64,
    /// In TX: wait for the specified HW timestamp before broadcasting data over
    /// the air.
    /// In RX: not used/ignored.
    pub waitForTimestamp: bool,
    /// In TX: send samples to HW even if packet is not completely filled (end TX burst).
    /// In RX: not used/ignored.
    pub flushPartialPacket: bool,
}

impl Default for lms_stream_meta_t {
    fn default() -> (r: lms_stream_meta_t)
        ensures
            r == (lms_stream_meta_t { timestamp: 0, waitForTimestamp: false, flushPartialPacket: false }),
    {
        lms_stream_meta_t { timestamp: 0, waitForTimestamp: false, flushPartialPacket: false }
    }
}

/// Attempt to align channel phases in MIMO mode (supported only for Rx channels)
pub const LMS_ALIGN_CH_PHASE: c_size_t = 0x10000;

/// Data output format
#[derive(Debug, Copy, Clone, PartialEq, Eq, Structural)]
pub enum dataFmt_t {
    /// 32-bit floating point
    LMS_FMT_F32,
    /// 16-bit integers
    LMS_FMT_I16,
    /// 12-bit integers stored in 16-bit variables
    LMS_FMT_I12,
}

/// Data link format
#[derive(Debug, Copy, Clone, PartialEq, Eq, Structural)]
pub enum linkFmt_t {
    /// 12-bit integers stored in 16-bit variables
    /// when dataFmt=LMS_FMT_I12, 16-bit otherwise
    LMS_LINK_FMT_DEFAULT,
    /// 16-bit integers
    LMS_LINK_FMT_I16,
    /// 12-bit integers
    LMS_LINK_FMT_I12,
}

/// Device information structure
#[derive(Debug, Copy, Clone)]
pub struct lms_dev_info_t {
    /// The display name of the device
    pub deviceName: [i8; 32],
    /// The display name of the expansion card
    pub expensionName: [i8; 32],
    /// The firmware version as a string
    pub firmwareVersion: [i8; 16],
    /// The hardware version as a string
    pub hardwareVersion: [i8; 16],
    /// The protocol version as a string
    pub protocolVersion: [i8; 16],
    /// A unique board serial number
    pub boardSerialNumber: u64,
    /// Gateware version as a string
    pub gatewareVersion: [i8; 16],
    /// Which board should use this gateware
    pub gatewareTargetBoard: [i8; 32],
}

/// A critical error. The application might not be able to continue running successfully.
pub const LMS_LOG_CRITICAL: i32 = 0;
/// An error message. An operation did not complete successfully.
pub const LMS_LOG_ERROR: i32 = 1;
/// A warning message. An operation completed with an unexpected result.
pub const LMS_LOG_WARNING: i32 = 2;
/// An informational message, usually denoting the successful completion of an operation.
pub const LMS_LOG_INFO: i32 = 3;
/// A debugging message.
pub const LMS_LOG_DEBUG: i32 = 4;

// ---------------------------------------------------------------------
// C values of the enumerations
// ---------------------------------------------------------------------

/// The C value of a test signal type (`LMS_TESTSIG_NONE = 0`, then in
/// order).
pub open spec fn testsig_code(sig: lms_testsig_t) -> i32 {
    match sig {
        lms_testsig_t::LMS_TESTSIG_NONE => 0,
        lms_testsig_t::LMS_TESTSIG_NCODIV8 => 1,
        lms_testsig_t::LMS_TESTSIG_NCODIV4 => 2,
        lms_testsig_t::LMS_TESTSIG_NCODIV8F => 3,
        lms_testsig_t::LMS_TESTSIG_NCODIV4F => 4,
        lms_testsig_t::LMS_TESTSIG_DC => 5,
    }
}

/// The C value of a GFIR (`LMS_GFIR1 = 0`, then in order).
pub open spec fn gfir_code(filt: lms_gfir_t) -> i32 {
    match filt {
        lms_gfir_t::LMS_GFIR1 => 0,
        lms_gfir_t::LMS_GFIR2 => 1,
        lms_gfir_t::LMS_GFIR3 => 2,
    }
}

/// The C value of a data format (`LMS_FMT_F32 = 0`, then in order).
pub open spec fn data_fmt_code(fmt: dataFmt_t) -> i32 {
    match fmt {
        dataFmt_t::LMS_FMT_F32 => 0,
        dataFmt_t::LMS_FMT_I16 => 1,
        dataFmt_t::LMS_FMT_I12 => 2,
    }
}

/// The C value of a link format (`LMS_LINK_FMT_DEFAULT = 0`, then in
/// order).
pub open spec fn link_fmt_code(fmt: linkFmt_t) -> i32 {
    match fmt {
        linkFmt_t::LMS_LINK_FMT_DEFAULT => 0,
        linkFmt_t::LMS_LINK_FMT_I16 => 1,
        linkFmt_t::LMS_LINK_FMT_I12 => 2,
    }
}

impl lms_testsig_t {
    /// The C value of the test signal type.
    pub fn code(self) -> (c: i32)
        ensures
            c == testsig_code(self),
    {
        match self {
            lms_testsig_t::LMS_TESTSIG_NONE => 0,
            lms_testsig_t::LMS_TESTSIG_NCODIV8 => 1,
            lms_testsig_t::LMS_TESTSIG_NCODIV4 => 2,
            lms_testsig_t::LMS_TESTSIG_NCODIV8F => 3,
            lms_testsig_t::LMS_TESTSIG_NCODIV4F => 4,
            lms_testsig_t::LMS_TESTSIG_DC => 5,
        }
    }

    /// The test signal type of a C value; `None` for a value that names
    /// none.
    pub fn from_code(code: i32) -> (r: Option<lms_testsig_t>)
        ensures
            r is Some <==> 0 <= code <= 5,
            r matches Some(sig) ==> testsig_code(sig) == code,
    {
        if code == 0 {
            Some(lms_testsig_t::LMS_TESTSIG_NONE)
        } else if code == 1 {
            Some(lms_testsig_t::LMS_TESTSIG_NCODIV8)
        } else if code == 2 {
            Some(lms_testsig_t::LMS_TESTSIG_NCODIV4)
        } else if code == 3 {
            Some(lms_testsig_t::LMS_TESTSIG_NCODIV8F)
        } else if code == 4 {
            Some(lms_testsig_t::LMS_TESTSIG_NCODIV4F)
        } else if code == 5 {
            Some(lms_testsig_t::LMS_TESTSIG_DC)
        } else {
            None
        }
    }
}

impl lms_gfir_t {
    /// The C value of the GFIR.
    pub fn code(self) -> (c: i32)
        ensures
            c == gfir_code(self),
    {
        match self {
            lms_gfir_t::LMS_GFIR1 => 0,
            lms_gfir_t::LMS_GFIR2 => 1,
            lms_gfir_t::LMS_GFIR3 => 2,
        }
    }
}

impl dataFmt_t {
    /// The C value of the data format.
    pub fn code(self) -> (c: i32)
        ensures
            c == data_fmt_code(self),
    {
        match self {
            dataFmt_t::LMS_FMT_F32 => 0,
            dataFmt_t::LMS_FMT_I16 => 1,
            dataFmt_t::LMS_FMT_I12 => 2,
        }
    }
}

impl linkFmt_t {
    /// The C value of the link format.
    pub fn code(self) -> (c: i32)
        ensures
            c == link_fmt_code(self),
    {
        match self {
            linkFmt_t::LMS_LINK_FMT_DEFAULT => 0,
            linkFmt_t::LMS_LINK_FMT_I16 => 1,
            linkFmt_t::LMS_LINK_FMT_I12 => 2,
        }
    }
}

} // verus!
