//! High-level control functions
//!
//! The functions in this section provide the ability to easily configure the
//! device for operation. They modify multiple internal device settings.

use vstd::prelude::*;
use vstd::string::StringExecFns;
use vstd::string::StringSliceAdditionalSpecFns;

use crate::bindings::gfir_code;
use crate::bindings::lms_gfir_t;
use crate::bindings::lms_testsig_t;
use crate::bindings::testsig_code;
use crate::bindings::LMS_NCO_VAL_COUNT;
use crate::bindings::LMS_PATH_AUTO;
use crate::bindings::LMS_PATH_LNAH;
use crate::bindings::LMS_PATH_LNAL;
use crate::bindings::LMS_PATH_LNAW;
use crate::bindings::LMS_PATH_NONE;
use crate::bindings::LMS_PATH_TX1;
use crate::bindings::LMS_PATH_TX2;
use crate::error::status_into_result;
use crate::error::status_result;
use crate::error::status_value;
use crate::error::status_with_value;
use crate::error::value_into_result;
use crate::error::value_result;
use crate::error::Error;
use crate::text::c_string_bytes;
use crate::text::fits_c_string;

use super::fetch_list;
use super::listed;
use super::Device;

verus! {

// ---------------------------------------------------------------------
// Test signals
// ---------------------------------------------------------------------

/// Enumeration of LMS7 TEST signal types
#[derive(Debug, Clone, Copy, PartialEq, Eq, Hash, Structural)]
pub enum TestSignal {
    /// Disable test signals. Return to normal operation
    NONE,
    /// Test signal from NCO half scale
    NCODIV8,
    /// Test signal from NCO half scale
    NCODIV4,
    /// Test signal from NCO full scale
    NCODIV8F,
    /// Test signal from NCO full scale
    NCODIV4F,
    /// DC test signal
    DC,
}

/// The test signal of a LimeSuite test signal value.
pub open spec fn test_signal_of(raw: lms_testsig_t) -> TestSignal {
    match raw {
        lms_testsig_t::LMS_TESTSIG_NONE => TestSignal::NONE,
        lms_testsig_t::LMS_TESTSIG_NCODIV8 => TestSignal::NCODIV8,
        lms_testsig_t::LMS_TESTSIG_NCODIV4 => TestSignal::NCODIV4,
        lms_testsig_t::LMS_TESTSIG_NCODIV8F => TestSignal::NCODIV8F,
        lms_testsig_t::LMS_TESTSIG_NCODIV4F => TestSignal::NCODIV4F,
        lms_testsig_t::LMS_TESTSIG_DC => TestSignal::DC,
    }
}

/// The LimeSuite value of a test signal.
pub open spec fn raw_test_signal(signal: TestSignal) -> lms_testsig_t {
    match signal {
        TestSignal::NONE => lms_testsig_t::LMS_TESTSIG_NONE,
        TestSignal::NCODIV8 => lms_testsig_t::LMS_TESTSIG_NCODIV8,
        TestSignal::NCODIV4 => lms_testsig_t::LMS_TESTSIG_NCODIV4,
        TestSignal::NCODIV8F => lms_testsig_t::LMS_TESTSIG_NCODIV8F,
        TestSignal::NCODIV4F => lms_testsig_t::LMS_TESTSIG_NCODIV4F,
        TestSignal::DC => lms_testsig_t::LMS_TESTSIG_DC,
    }
}

impl From<lms_testsig_t> for TestSignal {
    fn from(testsig: lms_testsig_t) -> (r: Self) {
        match testsig {
            lms_testsig_t::LMS_TESTSIG_NONE => Self::NONE,
            lms_testsig_t::LMS_TESTSIG_NCODIV8 => Self::NCODIV8,
            lms_testsig_t::LMS_TESTSIG_NCODIV4 => Self::NCODIV4,
            lms_testsig_t::LMS_TESTSIG_NCODIV8F => Self::NCODIV8F,
            lms_testsig_t::LMS_TESTSIG_NCODIV4F => Self::NCODIV4F,
            lms_testsig_t::LMS_TESTSIG_DC => Self::DC,
        }
    }
}

impl vstd::std_specs::convert::FromSpecImpl<lms_testsig_t> for TestSignal {
    open spec fn obeys_from_spec() -> bool {
        true
    }

    open spec fn from_spec(testsig: lms_testsig_t) -> TestSignal {
        test_signal_of(testsig)
    }
}

impl From<TestSignal> for lms_testsig_t {
    fn from(testsig: TestSignal) -> (r: Self) {
        match testsig {
            TestSignal::NONE => lms_testsig_t::LMS_TESTSIG_NONE,
            TestSignal::NCODIV8 => lms_testsig_t::LMS_TESTSIG_NCODIV8,
            TestSignal::NCODIV4 => lms_testsig_t::LMS_TESTSIG_NCODIV4,
            TestSignal::NCODIV8F => lms_testsig_t::LMS_TESTSIG_NCODIV8F,
            TestSignal::NCODIV4F => lms_testsig_t::LMS_TESTSIG_NCODIV4F,
            TestSignal::DC => lms_testsig_t::LMS_TESTSIG_DC,
        }
    }
}

impl vstd::std_specs::convert::FromSpecImpl<TestSignal> for lms_testsig_t {
    open spec fn obeys_from_spec() -> bool {
        true
    }

    open spec fn from_spec(testsig: TestSignal) -> lms_testsig_t {
        raw_test_signal(testsig)
    }
}

impl TestSignal {
    /// The C value LimeSuite knows the test signal by: NONE 0, NCODIV8 1,
    /// NCODIV4 2, NCODIV8F 3, NCODIV4F 4, DC 5.
    pub fn code(self) -> (c: i32)
        ensures
            c == testsig_code(raw_test_signal(self)),
    {
        lms_testsig_t::from(self).code()
    }
}

/// Converting a test signal to its LimeSuite value and back gives it
/// back, and so does converting a LimeSuite value to a test signal and back:
/// the two conversions are inverse bijections.
pub proof fn lemma_test_signal_round_trip(signal: TestSignal, raw: lms_testsig_t)
    ensures
        test_signal_of(raw_test_signal(signal)) == signal,
        raw_test_signal(test_signal_of(raw)) == raw,
{
}

// ---------------------------------------------------------------------
// Channel direction
// ---------------------------------------------------------------------

/// Channel direction
#[derive(Debug, Copy, Clone, PartialEq, Eq, Structural)]
pub struct ChannelDirection(pub bool);

impl ChannelDirection {
    /// Convenience constants for TX selection
    #[allow(non_snake_case)]
    #[verifier::allow_in_spec]
    pub fn TX() -> ChannelDirection
        returns
            ChannelDirection(true),
    {
        ChannelDirection(true)
    }

    /// Convenience constants for RX selection
    #[allow(non_snake_case)]
    #[verifier::allow_in_spec]
    pub fn RX() -> ChannelDirection
        returns
            ChannelDirection(false),
    {
        ChannelDirection(false)
    }
}

impl From<ChannelDirection> for bool {
    fn from(channel_dir: ChannelDirection) -> (r: bool) {
        channel_dir.0
    }
}

impl vstd::std_specs::convert::FromSpecImpl<ChannelDirection> for bool {
    open spec fn obeys_from_spec() -> bool {
        true
    }

    open spec fn from_spec(channel_dir: ChannelDirection) -> bool {
        channel_dir.0
    }
}

impl core::ops::Deref for ChannelDirection {
    type Target = bool;

    fn deref(&self) -> (r: &bool)
        ensures
            *r == self.0,
    {
        &self.0
    }
}

// ---------------------------------------------------------------------
// RF ports
// ---------------------------------------------------------------------

/// Enumeration of RF ports.
#[derive(Copy, Clone, PartialEq, Eq, Structural)]
pub struct RfPort {
    inner: usize,
    ch_dir: Option<ChannelDirection>,
}

/// The text an RF port is displayed as, from its LimeSuite index and the
/// direction it belongs to: the name of the port constant it equals, else
/// "Unknown rf port".
pub open spec fn port_name(index: usize, dir: Option<ChannelDirection>) -> Seq<char> {
    if index == LMS_PATH_NONE && dir is None {
        "NONE"@
    } else if index == LMS_PATH_LNAH && dir == Some(ChannelDirection(false)) {
        "LNAH"@
    } else if index == LMS_PATH_LNAL && dir == Some(ChannelDirection(false)) {
        "LNAL"@
    } else if index == LMS_PATH_LNAW && dir == Some(ChannelDirection(false)) {
        "LNAW"@
    } else if index == LMS_PATH_TX1 && dir == Some(ChannelDirection(true)) {
        "TX1"@
    } else if index == LMS_PATH_TX2 && dir == Some(ChannelDirection(true)) {
        "TX2"@
    } else if index == LMS_PATH_AUTO && dir is None {
        "AUTO"@
    } else {
        "Unknown rf port"@
    }
}

/// The direction that `get_antenna` gives a port it reads back: none for
/// "no path" and "automatic", else the direction that was asked about.
pub open spec fn read_back_direction(index: usize, asked: ChannelDirection) -> Option<
    ChannelDirection,
> {
    if index == LMS_PATH_NONE || index == LMS_PATH_AUTO {
        None
    } else {
        Some(asked)
    }
}

/// Each port constant is displayed under its own name, and a port is
/// displayed under one of the constants' names only when it equals that
/// constant; RX and TX ports sharing an index are told apart by direction.
pub proof fn lemma_port_names(index: usize, dir: Option<ChannelDirection>)
    ensures
        port_name(0, None) == "NONE"@,
        port_name(1, Some(ChannelDirection(false))) == "LNAH"@,
        port_name(2, Some(ChannelDirection(false))) == "LNAL"@,
        port_name(3, Some(ChannelDirection(false))) == "LNAW"@,
        port_name(1, Some(ChannelDirection(true))) == "TX1"@,
        port_name(2, Some(ChannelDirection(true))) == "TX2"@,
        port_name(255, None) == "AUTO"@,
        port_name(index, dir) == "LNAL"@ ==> index == 2 && dir == Some(ChannelDirection(false)),
        port_name(index, dir) == "TX2"@ ==> index == 2 && dir == Some(ChannelDirection(true)),
        port_name(index, dir) == "TX1"@ ==> index == 1 && dir == Some(ChannelDirection(true)),
        port_name(index, dir) == "LNAH"@ ==> index == 1 && dir == Some(ChannelDirection(false)),
        port_name(index, dir) == "LNAW"@ ==> index == 3 && dir == Some(ChannelDirection(false)),
{
    reveal_strlit("NONE");
    reveal_strlit("LNAH");
    reveal_strlit("LNAL");
    reveal_strlit("LNAW");
    reveal_strlit("TX1");
    reveal_strlit("TX2");
    reveal_strlit("AUTO");
    reveal_strlit("Unknown rf port");
    assert("LNAH"@[3] != "LNAL"@[3]);
    assert("LNAH"@[3] != "LNAW"@[3]);
    assert("LNAL"@[3] != "LNAW"@[3]);
    assert("NONE"@[0] != "LNAH"@[0]);
    assert("NONE"@[0] != "LNAL"@[0]);
    assert("NONE"@[0] != "LNAW"@[0]);
    assert("NONE"@[0] != "AUTO"@[0]);
    assert("AUTO"@[0] != "LNAH"@[0]);
    assert("AUTO"@[0] != "LNAL"@[0]);
    assert("AUTO"@[0] != "LNAW"@[0]);
    assert("TX1"@[2] != "TX2"@[2]);
    assert("TX1"@.len() != "LNAH"@.len());
    assert("TX2"@.len() != "LNAL"@.len());
    assert("Unknown rf port"@.len() != "LNAL"@.len());
}

/// A port read back carries no direction exactly for "no path" (index 0)
/// and "automatic" (index 255); every other index belongs to the direction
/// that was asked about, so that RX 1, 2, 3 are LNA_H, LNA_L, LNA_W and
/// TX 1, 2 are TX 1, TX 2.
pub proof fn lemma_read_back_direction(index: usize, asked: ChannelDirection)
    ensures
        read_back_direction(index, asked) is None <==> (index == 0 || index == 255),
        index != 0 && index != 255 ==> read_back_direction(index, asked) == Some(asked),
        index == 1 && asked == ChannelDirection(false) ==> port_name(
            index,
            read_back_direction(index, asked),
        ) == "LNAH"@,
        index == 2 && asked == ChannelDirection(false) ==> port_name(
            index,
            read_back_direction(index, asked),
        ) == "LNAL"@,
        index == 3 && asked == ChannelDirection(false) ==> port_name(
            index,
            read_back_direction(index, asked),
        ) == "LNAW"@,
        index == 1 && asked == ChannelDirection(true) ==> port_name(
            index,
            read_back_direction(index, asked),
        ) == "TX1"@,
        index == 2 && asked == ChannelDirection(true) ==> port_name(
            index,
            read_back_direction(index, asked),
        ) == "TX2"@,
{
}

impl RfPort {
    /// The LimeSuite index of the port.
    pub closed spec fn index(self) -> usize {
        self.inner
    }

    /// The direction the port belongs to, if any.
    pub closed spec fn direction(self) -> Option<ChannelDirection> {
        self.ch_dir
    }

    /// Two ports are equal exactly when index and direction are.
    pub proof fn lemma_eq(self, other: RfPort)
        ensures
            (self == other) <==> (self.index() == other.index() && self.direction()
                == other.direction()),
    {
    }

    /// No active path (RX or TX)
    #[allow(non_snake_case)]
    pub fn NONE() -> (p: RfPort)
        ensures
            p.index() == LMS_PATH_NONE,
            p.direction() is None,
    {
        RfPort { inner: LMS_PATH_NONE, ch_dir: None }
    }

    /// RX LNA_H port
    #[allow(non_snake_case)]
    pub fn LNAH() -> (p: RfPort)
        ensures
            p.index() == LMS_PATH_LNAH,
            p.direction() == Some(ChannelDirection::RX()),
    {
        RfPort { inner: LMS_PATH_LNAH, ch_dir: Some(ChannelDirection::RX()) }
    }

    /// RX LNA_L port
    #[allow(non_snake_case)]
    pub fn LNAL() -> (p: RfPort)
        ensures
            p.index() == LMS_PATH_LNAL,
            p.direction() == Some(ChannelDirection::RX()),
    {
        RfPort { inner: LMS_PATH_LNAL, ch_dir: Some(ChannelDirection::RX()) }
    }

    /// RX LNA_W port
    #[allow(non_snake_case)]
    pub fn LNAW() -> (p: RfPort)
        ensures
            p.index() == LMS_PATH_LNAW,
            p.direction() == Some(ChannelDirection::RX()),
    {
        RfPort { inner: LMS_PATH_LNAW, ch_dir: Some(ChannelDirection::RX()) }
    }

    /// TX port 1
    #[allow(non_snake_case)]
    pub fn TX1() -> (p: RfPort)
        ensures
            p.index() == LMS_PATH_TX1,
            p.direction() == Some(ChannelDirection::TX()),
    {
        RfPort { inner: LMS_PATH_TX1, ch_dir: Some(ChannelDirection::TX()) }
    }

    /// TX port 2
    #[allow(non_snake_case)]
    pub fn TX2() -> (p: RfPort)
        ensures
            p.index() == LMS_PATH_TX2,
            p.direction() == Some(ChannelDirection::TX()),
    {
        RfPort { inner: LMS_PATH_TX2, ch_dir: Some(ChannelDirection::TX()) }
    }

    /// Automatically select port (if supported)
    #[allow(non_snake_case)]
    pub fn AUTO() -> (p: RfPort)
        ensures
            p.index() == LMS_PATH_AUTO,
            p.direction() is None,
    {
        RfPort { inner: LMS_PATH_AUTO, ch_dir: None }
    }

    /// The text this port is displayed as.
    pub fn to_string(&self) -> (s: String)
        ensures
            s@ == port_name(self.index(), self.direction()),
    {
        let rx = Some(ChannelDirection::RX());
        let tx = Some(ChannelDirection::TX());
        if self.inner == LMS_PATH_NONE && self.ch_dir.is_none() {
            String::from_str("NONE")
        } else if self.inner == LMS_PATH_LNAH && self.ch_dir == rx {
            String::from_str("LNAH")
        } else if self.inner == LMS_PATH_LNAL && self.ch_dir == rx {
            String::from_str("LNAL")
        } else if self.inner == LMS_PATH_LNAW && self.ch_dir == rx {
            String::from_str("LNAW")
        } else if self.inner == LMS_PATH_TX1 && self.ch_dir == tx {
            String::from_str("TX1")
        } else if self.inner == LMS_PATH_TX2 && self.ch_dir == tx {
            String::from_str("TX2")
        } else if self.inner == LMS_PATH_AUTO && self.ch_dir.is_none() {
            String::from_str("AUTO")
        } else {
            String::from_str("Unknown rf port")
        }
    }
}

impl From<RfPort> for usize {
    fn from(rf_ports: RfPort) -> (r: usize)
        ensures
            r == rf_ports.index(),
    {
        rf_ports.inner
    }
}

impl vstd::std_specs::convert::FromSpecImpl<RfPort> for usize {
    open spec fn obeys_from_spec() -> bool {
        true
    }

    open spec fn from_spec(rf_ports: RfPort) -> usize {
        rf_ports.index()
    }
}

impl core::ops::Deref for RfPort {
    type Target = usize;

    fn deref(&self) -> (r: &usize)
        ensures
            *r == self.index(),
    {
        &self.inner
    }
}

// ---------------------------------------------------------------------
// GFIR filters
// ---------------------------------------------------------------------

/// Enumeration of LMS7 GFIRS.
#[derive(Debug, Clone, Copy, PartialEq, Eq, Hash, Structural)]
pub enum Gfir {
    GFIR1,
    GFIR2,
    GFIR3,
}

/// The filter of a LimeSuite GFIR value.
pub open spec fn gfir_of(raw: lms_gfir_t) -> Gfir {
    match raw {
        lms_gfir_t::LMS_GFIR1 => Gfir::GFIR1,
        lms_gfir_t::LMS_GFIR2 => Gfir::GFIR2,
        lms_gfir_t::LMS_GFIR3 => Gfir::GFIR3,
    }
}

/// The LimeSuite value of a filter.
pub open spec fn raw_gfir(filt: Gfir) -> lms_gfir_t {
    match filt {
        Gfir::GFIR1 => lms_gfir_t::LMS_GFIR1,
        Gfir::GFIR2 => lms_gfir_t::LMS_GFIR2,
        Gfir::GFIR3 => lms_gfir_t::LMS_GFIR3,
    }
}

/// The number of coefficients a filter holds.
pub open spec fn gfir_capacity(filt: Gfir) -> usize {
    match filt {
        Gfir::GFIR1 | Gfir::GFIR2 => 40,
        Gfir::GFIR3 => 120,
    }
}

impl From<lms_gfir_t> for Gfir {
    fn from(gfir: lms_gfir_t) -> (r: Self) {
        match gfir {
            lms_gfir_t::LMS_GFIR1 => Self::GFIR1,
            lms_gfir_t::LMS_GFIR2 => Self::GFIR2,
            lms_gfir_t::LMS_GFIR3 => Self::GFIR3,
        }
    }
}

impl vstd::std_specs::convert::FromSpecImpl<lms_gfir_t> for Gfir {
    open spec fn obeys_from_spec() -> bool {
        true
    }

    open spec fn from_spec(gfir: lms_gfir_t) -> Gfir {
        gfir_of(gfir)
    }
}

impl From<Gfir> for lms_gfir_t {
    fn from(gfir: Gfir) -> (r: Self) {
        match gfir {
            Gfir::GFIR1 => lms_gfir_t::LMS_GFIR1,
            Gfir::GFIR2 => lms_gfir_t::LMS_GFIR2,
            Gfir::GFIR3 => lms_gfir_t::LMS_GFIR3,
        }
    }
}

impl vstd::std_specs::convert::FromSpecImpl<Gfir> for lms_gfir_t {
    open spec fn obeys_from_spec() -> bool {
        true
    }

    open spec fn from_spec(gfir: Gfir) -> lms_gfir_t {
        raw_gfir(gfir)
    }
}

impl Gfir {
    /// The C value LimeSuite knows the filter by: GFIR1 0, GFIR2 1,
    /// GFIR3 2.
    pub fn code(self) -> (c: i32)
        ensures
            c == gfir_code(raw_gfir(self)),
    {
        lms_gfir_t::from(self).code()
    }

    /// Maximum number of coefficients of the filter: 40 for GFIR1 and
    /// GFIR2, and 120 for GFIR3. `get_gfir_coeff` reads back this many.
    pub fn max_coefficients(self) -> (n: usize)
        ensures
            n == gfir_capacity(self),
            self == Gfir::GFIR3 ==> n == 120,
            self != Gfir::GFIR3 ==> n == 40,
    {
        match self {
            Gfir::GFIR1 | Gfir::GFIR2 => 40,
            Gfir::GFIR3 => 120,
        }
    }
}

/// The filter conversions are inverse bijections.
pub proof fn lemma_gfir_round_trip(filt: Gfir, raw: lms_gfir_t)
    ensures
        gfir_of(raw_gfir(filt)) == filt,
        raw_gfir(gfir_of(raw)) == raw,
{
}

// ---------------------------------------------------------------------
// Device functions
// ---------------------------------------------------------------------

/// What a call that checks an argument before it calls LimeSuite answers:
/// the refusal when `allowed` fails, else the result of the status that
/// `call` answered.
pub open spec fn checked_call<F: FnOnce() -> i32>(
    allowed: bool,
    refusal: Error,
    call: F,
    r: Result<(), Error>,
) -> bool {
    if allowed {
        exists|status: i32| call.ensures((), status) && r == status_result(status)
    } else {
        r == Err::<(), Error>(refusal)
    }
}

/// What a call that hands LimeSuite a string answers: `Error::InvalidValue`
/// when the string holds a NUL byte, else the result of the status that
/// `call` answered when given the string's bytes.
pub open spec fn string_call<F: FnOnce(Vec<u8>) -> i32>(
    s: &str,
    call: F,
    r: Result<(), Error>,
) -> bool {
    if fits_c_string(s.spec_bytes()) {
        exists|bytes: Vec<u8>, status: i32|
            bytes@ == s.spec_bytes() && call.ensures((bytes,), status) && r == status_result(status)
    } else {
        r == Err::<(), Error>(Error::InvalidValue)
    }
}

impl Device {
    /// Number of NCO frequency/phase offset values.
    pub const NCO_VAL_COUNT: usize = 16;

    /// Configure LMS chip with settings that make it ready for operation.
    ///
    /// Gives the outcome of `LMS_Init` from its status.
    pub fn init(&self, status: i32) -> (r: Result<(), Error>)
        ensures
            r == status_result(status),
    {
        status_into_result(status)
    }

    /// Obtain number of RX or TX channels: the answer of
    /// `LMS_GetNumChannels` unless it failed.
    pub fn get_num_channels(&self, status: i32) -> (r: Result<i32, Error>)
        ensures
            r == value_result(status),
    {
        value_into_result(status)
    }

    /// Enable or disable specified RX or TX channel: the outcome of
    /// `LMS_EnableChannel`.
    pub fn enable_channel(&self, status: i32) -> (r: Result<(), Error>)
        ensures
            r == status_result(status),
    {
        status_into_result(status)
    }

    /// Set sampling rate for all RX/TX channels: the outcome of
    /// `LMS_SetSampleRate`.
    pub fn set_sample_rate(&self, status: i32) -> (r: Result<(), Error>)
        ensures
            r == status_result(status),
    {
        status_into_result(status)
    }

    /// Set RF center frequency: the outcome of `LMS_SetLOFrequency`.
    pub fn set_lo_frequency(&self, status: i32) -> (r: Result<(), Error>)
        ensures
            r == status_result(status),
    {
        status_into_result(status)
    }

    /// Obtain antenna list with names.
    ///
    /// First item in the list is the name of antenna index 0.
    /// `lms_count` asks `LMS_GetAntennaList` for the number of antennas;
    /// `lms_list(n)` fills a list of `n` names and hands back the call's
    /// status with the decoded names.
    pub fn get_antenna_list<C, L>(&self, lms_count: C, lms_list: L) -> (r: Result<
        Vec<String>,
        Error,
    >) where C: FnOnce() -> i32, L: FnOnce(usize) -> (i32, Vec<String>)
        requires
            lms_count.requires(()),
            forall|n: usize| lms_list.requires((n,)),
        ensures
            listed(lms_count, lms_list, r),
    {
        fetch_list(lms_count, lms_list)
    }

    /// Select the antenna for the specified RX or TX channel: the outcome
    /// of `LMS_SetAntenna`.
    pub fn set_antenna(&self, status: i32) -> (r: Result<(), Error>)
        ensures
            r == status_result(status),
    {
        status_into_result(status)
    }

    /// Obtain currently selected antenna of the specified RX or TX channel,
    /// from the answer of `LMS_GetAntenna`: the port of that index, in the
    /// direction asked about unless it is "no path" or "automatic".
    pub fn get_antenna(&self, channel_dir: ChannelDirection, status: i32) -> (r: Result<
        RfPort,
        Error,
    >)
        ensures
            r is Ok <==> value_result(status) is Ok,
            r matches Err(e) ==> value_result(status) == Err::<i32, Error>(e),
            r matches Ok(p) ==> p.index() == status as usize && p.direction()
                == read_back_direction(status as usize, channel_dir),
            status >= 0 ==> (r matches Ok(p) ==> (p.direction() is None <==> (status == 0
                || status == 255))),
            status >= 0 ==> (r matches Ok(p) ==> (status != 0 && status != 255 ==> p.direction()
                == Some(channel_dir))),
    {
        let ret = match value_into_result(status) {
            Ok(v) => #[verifier::truncate] (v as usize),
            Err(e) => return Err(e),
        };
        let ch_dir = if ret == LMS_PATH_NONE || ret == LMS_PATH_AUTO {
            None
        } else {
            Some(channel_dir)
        };
        Ok(RfPort { inner: ret, ch_dir })
    }

    /// Set the combined gain value: the outcome of `LMS_SetNormalizedGain`.
    pub fn set_normalized_gain(&self, status: i32) -> (r: Result<(), Error>)
        ensures
            r == status_result(status),
    {
        status_into_result(status)
    }

    /// Set the combined gain value in dB: the outcome of `LMS_SetGaindB`.
    pub fn set_gain_db(&self, status: i32) -> (r: Result<(), Error>)
        ensures
            r == status_result(status),
    {
        status_into_result(status)
    }

    /// Obtain the current combined gain value in dB: the value
    /// `LMS_GetGaindB` filled in, unless it failed.
    pub fn get_gain_db(&self, status: i32, gain: u32) -> (r: Result<u32, Error>)
        ensures
            r == status_value(status, gain),
    {
        status_with_value(status, gain)
    }

    /// Configure analog LPF of the LMS chip: the outcome of `LMS_SetLPFBW`.
    pub fn set_lpf_bw(&self, status: i32) -> (r: Result<(), Error>)
        ensures
            r == status_result(status),
    {
        status_into_result(status)
    }

    /// Disables or enables the analog LPF of LMS chip: the outcome of
    /// `LMS_SetLPF`.
    pub fn set_lpf(&self, status: i32) -> (r: Result<(), Error>)
        ensures
            r == status_result(status),
    {
        status_into_result(status)
    }

    /// Set up digital LPF using LMS chip GFIRS: the outcome of
    /// `LMS_SetGFIRLPF`.
    pub fn set_gfir_lpf(&self, status: i32) -> (r: Result<(), Error>)
        ensures
            r == status_result(status),
    {
        status_into_result(status)
    }

    /// Perform the automatic calibration of specified RX/TX channel: the
    /// outcome of `LMS_Calibrate`.
    pub fn calibrate(&self, status: i32) -> (r: Result<(), Error>)
        ensures
            r == status_result(status),
    {
        status_into_result(status)
    }

    /// Load LMS chip configuration from a file.
    ///
    /// A file name with a NUL byte is refused with `Error::InvalidValue`;
    /// otherwise `lms_load_config` is called with the name's bytes and its
    /// status gives the outcome.
    pub fn load_config<F: FnOnce(Vec<u8>) -> i32>(&self, filename: &str, lms_load_config: F) -> (r:
        Result<(), Error>)
        requires
            forall|bytes: Vec<u8>| lms_load_config.requires((bytes,)),
        ensures
            string_call(filename, lms_load_config, r),
    {
        let bytes = c_string_bytes(filename)?;
        let ghost given = bytes;
        let status = lms_load_config(bytes);
        assert(lms_load_config.ensures((given,), status));
        status_into_result(status)
    }

    /// Save LMS chip configuration to a file.
    ///
    /// A file name with a NUL byte is refused with `Error::InvalidValue`;
    /// otherwise `lms_save_config` is called with the name's bytes and its
    /// status gives the outcome.
    pub fn save_config<F: FnOnce(Vec<u8>) -> i32>(&self, filename: &str, lms_save_config: F) -> (r:
        Result<(), Error>)
        requires
            forall|bytes: Vec<u8>| lms_save_config.requires((bytes,)),
        ensures
            string_call(filename, lms_save_config, r),
    {
        let bytes = c_string_bytes(filename)?;
        let ghost given = bytes;
        let status = lms_save_config(bytes);
        assert(lms_save_config.ensures((given,), status));
        status_into_result(status)
    }

    /// Apply the specified test signal: the outcome of `LMS_SetTestSignal`.
    pub fn set_test_signal(&self, status: i32) -> (r: Result<(), Error>)
        ensures
            r == status_result(status),
    {
        status_into_result(status)
    }

    /// Obtain the currently active test signal: the signal
    /// `LMS_GetTestSignal` filled in, unless it failed.
    pub fn get_test_signal(&self, status: i32, signal: lms_testsig_t) -> (r: Result<
        TestSignal,
        Error,
    >)
        ensures
            r == status_value(status, test_signal_of(signal)),
    {
        status_with_value(status, TestSignal::from(signal))
    }

    /// Set sampling rate for all RX or TX channels: the outcome of
    /// `LMS_SetSampleRateDir`.
    pub fn set_sample_rate_dir(&self, status: i32) -> (r: Result<(), Error>)
        ensures
            r == status_result(status),
    {
        status_into_result(status)
    }

    /// Configure NCO to operate in FCW mode.
    ///
    /// `freq_count` is the number of frequencies given; fewer than
    /// `NCO_VAL_COUNT` are refused with `Error::InvalidInput`, otherwise
    /// `lms_set_nco_frequency` is called and its status gives the outcome.
    pub fn set_nco_frequency<F: FnOnce() -> i32>(
        &self,
        freq_count: usize,
        lms_set_nco_frequency: F,
    ) -> (r: Result<(), Error>)
        requires
            lms_set_nco_frequency.requires(()),
        ensures
            checked_call(
                freq_count >= LMS_NCO_VAL_COUNT,
                Error::InvalidInput,
                lms_set_nco_frequency,
                r,
            ),
    {
        if freq_count < Device::NCO_VAL_COUNT {
            return Err(Error::InvalidInput);
        }
        let status = lms_set_nco_frequency();
        status_into_result(status)
    }

    /// Configure NCO to operate in PHO mode.
    ///
    /// `phase_count` is the number of phase offsets given; fewer than
    /// `NCO_VAL_COUNT` are refused with `Error::InvalidInput`, otherwise
    /// `lms_set_nco_phase` is called and its status gives the outcome.
    pub fn set_nco_phase<F: FnOnce() -> i32>(&self, phase_count: usize, lms_set_nco_phase: F) -> (r:
        Result<(), Error>)
        requires
            lms_set_nco_phase.requires(()),
        ensures
            checked_call(phase_count >= LMS_NCO_VAL_COUNT, Error::InvalidInput, lms_set_nco_phase, r),
    {
        if phase_count < Device::NCO_VAL_COUNT {
            return Err(Error::InvalidInput);
        }
        let status = lms_set_nco_phase();
        status_into_result(status)
    }

    /// Switches between configured list of NCO frequencies/phase offsets:
    /// the outcome of `LMS_SetNCOIndex`.
    pub fn set_nco_index(&self, status: i32) -> (r: Result<(), Error>)
        ensures
            r == status_result(status),
    {
        status_into_result(status)
    }

    /// Get the currently active NCO frequency/phase offset index: the
    /// answer of `LMS_GetNCOIndex` unless it failed.
    pub fn get_nco_index(&self, status: i32) -> (r: Result<i32, Error>)
        ensures
            r == value_result(status),
    {
        value_into_result(status)
    }

    /// Configure LMS GFIR using specified filter coefficients: the outcome
    /// of `LMS_SetGFIRCoeff`.
    pub fn set_gfir_coeff(&self, status: i32) -> (r: Result<(), Error>)
        ensures
            r == status_result(status),
    {
        status_into_result(status)
    }

    /// Enables or disables specified GFIR: the outcome of `LMS_SetGFIR`.
    pub fn set_gfir(&self, status: i32) -> (r: Result<(), Error>)
        ensures
            r == status_result(status),
    {
        status_into_result(status)
    }

    /// Enables or disable caching of LMS7 and FPGA register values: the
    /// outcome of `LMS_EnableCache`.
    pub fn enable_cache(&self, status: i32) -> (r: Result<(), Error>)
        ensures
            r == status_result(status),
    {
        status_into_result(status)
    }
}

} // verus!
